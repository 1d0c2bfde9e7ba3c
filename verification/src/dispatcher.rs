//! Dispatching a spec candidate to the verifiers: the test harness it is
//! materialized into, the portfolio configuration it runs under, and the
//! loop-level verdict a portfolio verdict becomes. Writing the harness and
//! running the solvers are I/O.
use vstd::prelude::*;

use crate::cegis::VerifierVerdict;
use crate::layout::{spec_join_path, join_path};
use crate::portfolio::{spec_backend_label, backend_label, Backend, BackendOutcome, PortfolioConfig, Verdict};
use crate::synthesis::SpecCandidate;
use crate::text::{spec_replace, replace_all};

verus! {

/// Materializes candidates into a Foundry project's test harness and
/// dispatches them with a per-property budget.
#[derive(Debug, Clone)]
pub struct HalmosDispatcher {
    pub project: String,
    /// Solidity scaffold with a `{{CHECK_FN}}` placeholder for the
    /// candidate's check function (and optionally `{{NAME}}`).
    pub scaffold: String,
    /// Wall-clock budget per dispatch, in milliseconds.
    pub budget_ms: u64,
    /// SMTChecker source override; by default the first `.sol` under `src/`.
    pub smtchecker_source: Option<String>,
}

/// The harness for a candidate: `{{CHECK_FN}}` replaced by its Halmos
/// source, then `{{NAME}}` by its name.
pub open spec fn spec_render(scaffold: Seq<char>, halmos: Seq<char>, name: Seq<char>) -> Seq<char> {
    spec_replace(spec_replace(scaffold, "{{CHECK_FN}}"@, halmos), "{{NAME}}"@, name)
}

impl HalmosDispatcher {
    pub fn new(project: String, scaffold: String, budget_ms: u64) -> (r: HalmosDispatcher)
        ensures
            r.project == project,
            r.scaffold == scaffold,
            r.budget_ms == budget_ms,
            r.smtchecker_source is None,
    {
        HalmosDispatcher { project, scaffold, budget_ms, smtchecker_source: None }
    }

    /// The same dispatcher with an SMTChecker source override.
    pub fn with_smtchecker_source(self, p: String) -> (r: HalmosDispatcher)
        ensures
            r.project == self.project,
            r.scaffold == self.scaffold,
            r.budget_ms == self.budget_ms,
            r.smtchecker_source == Some(p),
    {
        HalmosDispatcher { smtchecker_source: Some(p), ..self }
    }

    /// The harness source for `spec`.
    pub fn render(&self, spec: &SpecCandidate) -> (r: String)
        ensures
            r@ == spec_render(self.scaffold@, spec.halmos@, spec.name@),
    {
        proof {
            reveal_strlit("{{CHECK_FN}}");
            reveal_strlit("{{NAME}}");
        }
        let a = replace_all(self.scaffold.as_str(), "{{CHECK_FN}}", spec.halmos.as_str());
        replace_all(a.as_str(), "{{NAME}}", spec.name.as_str())
    }

    /// The SMTChecker source: the override when set; otherwise the first
    /// `.sol` file found under `src/` (`first_sol`, found by the caller),
    /// or `src/Token.sol` when there is none.
    pub fn default_smtchecker_source(&self, first_sol: Option<String>) -> (r: String)
        ensures
            self.smtchecker_source matches Some(p) ==> r == p,
            self.smtchecker_source is None ==> match first_sol {
                Some(f) => r == f,
                None => r@ == spec_join_path(spec_join_path(self.project@, "src"@), "Token.sol"@),
            },
    {
        match &self.smtchecker_source {
            Some(p) => p.clone(),
            None => match first_sol {
                Some(f) => f,
                None => {
                    let src = join_path(self.project.as_str(), "src");
                    join_path(src.as_str(), "Token.sol")
                },
            },
        }
    }

    /// Path of the harness file the candidate is written to.
    pub fn harness_path(&self) -> (r: String)
        ensures
            r@ == spec_join_path(spec_join_path(self.project@, "test"@), "CegisProperties.t.sol"@),
    {
        let t = join_path(self.project.as_str(), "test");
        join_path(t.as_str(), "CegisProperties.t.sol")
    }

    /// The portfolio run for `spec`: its name as the property, the given
    /// SMTChecker source, this dispatcher's budget, and SMT queries
    /// captured and persisted under `vergil-out/smt`.
    pub fn portfolio_config(&self, spec: &SpecCandidate, smtchecker_source: String) -> (r:
        PortfolioConfig)
        ensures
            r.project == self.project,
            r.property == spec.name,
            r.smtchecker_source == smtchecker_source,
            r.budget_ms == self.budget_ms,
            r.capture_smt_queries,
            r.smt_persist_dir matches Some(d) && d@ == spec_join_path(
                spec_join_path(self.project@, "vergil-out"@),
                "smt"@,
            ),
    {
        let out = join_path(self.project.as_str(), "vergil-out");
        let smt = join_path(out.as_str(), "smt");
        PortfolioConfig {
            project: self.project.clone(),
            property: spec.name.clone(),
            smtchecker_source,
            budget_ms: self.budget_ms,
            capture_smt_queries: true,
            smt_persist_dir: Some(smt),
        }
    }
}

/// A backend's name as its `Debug` form prints it.
pub open spec fn spec_backend_debug(b: Backend) -> Seq<char> {
    match b {
        Backend::Halmos => "Halmos"@,
        Backend::SmtChecker => "SmtChecker"@,
    }
}

/// One `Backend=detail` entry.
pub open spec fn spec_backend_entry(o: BackendOutcome) -> Seq<char> {
    spec_backend_debug(o.backend) + "="@ + o.detail@
}

/// The backends' `Backend=detail` entries joined with `"; "`.
pub open spec fn spec_summarize_backends(bs: Seq<BackendOutcome>) -> Seq<char>
    decreases bs.len(),
{
    if bs.len() == 0 {
        Seq::empty()
    } else if bs.len() == 1 {
        spec_backend_entry(bs[0])
    } else {
        spec_summarize_backends(bs.drop_last()) + "; "@ + spec_backend_entry(bs.last())
    }
}

/// Summary of what each backend said, for an Unknown or Error verdict.
pub fn summarize_backends(bs: &Vec<BackendOutcome>) -> (r: String)
    ensures
        r@ == spec_summarize_backends(bs@),
{
    let mut out = String::new();
    let mut i: usize = 0;
    while i < bs.len()
        invariant
            i <= bs.len(),
            out@ == spec_summarize_backends(bs@.take(i as int)),
        decreases bs.len() - i,
    {
        proof {
            let t = bs@.take(i + 1);
            assert(t.drop_last() =~= bs@.take(i as int));
            assert(t.last() == bs@[i as int]);
        }
        let ghost before = out@;
        if i > 0 {
            out.append("; ");
        }
        match bs[i].backend {
            Backend::Halmos => out.append("Halmos"),
            Backend::SmtChecker => out.append("SmtChecker"),
        }
        out.append("=");
        out.append(bs[i].detail.as_str());
        proof {
            if i == 0 {
                assert(out@ =~= spec_backend_entry(bs@[0]));
            } else {
                assert(out@ =~= before + "; "@ + spec_backend_entry(bs@[i as int]));
            }
        }
        i += 1;
    }
    assert(bs@.take(bs.len() as int) =~= bs@);
    out
}

/// What a portfolio verdict means to the loop: Verified keeps the
/// backend's label and the digest; a counterexample's message is prefixed
/// with the property; Unknown and Error carry the backends' summary.
pub fn loop_verdict(v: Verdict) -> (r: VerifierVerdict)
    ensures
        match v {
            Verdict::Verified { backend, smt_query_sha256, .. } => r matches VerifierVerdict::Verified {
                backend: b,
                smt_query_sha256: s,
            } && b@ == spec_backend_label(backend) && s == smt_query_sha256,
            Verdict::Counterexample { property, message, .. } => r matches VerifierVerdict::Counterexample {
                message: m,
            } && m@ == property@ + ": "@ + message@,
            Verdict::Unknown { backends } => r matches VerifierVerdict::Unknown { detail }
                && detail@ == spec_summarize_backends(backends@),
            Verdict::Error { backends } => r matches VerifierVerdict::Error { detail } && detail@
                == spec_summarize_backends(backends@),
        },
{
    match v {
        Verdict::Verified { backend, smt_query_sha256, .. } => VerifierVerdict::Verified {
            backend: backend_label(backend),
            smt_query_sha256,
        },
        Verdict::Counterexample { property, message, .. } => {
            let mut m = property;
            m.append(": ");
            m.append(message.as_str());
            VerifierVerdict::Counterexample { message: m }
        },
        Verdict::Unknown { backends } => VerifierVerdict::Unknown {
            detail: summarize_backends(&backends),
        },
        Verdict::Error { backends } => VerifierVerdict::Error {
            detail: summarize_backends(&backends),
        },
    }
}

/// The first 80 characters of an intent, with `…` when it was longer.
pub open spec fn spec_intent_preview(s: Seq<char>) -> Seq<char> {
    if s.len() > 80 {
        s.take(80) + "…"@
    } else {
        s
    }
}

/// Short preview of an intent for error messages.
pub fn intent_preview(s: &str) -> (r: String)
    ensures
        r@ == spec_intent_preview(s@),
{
    let v = crate::text::to_chars(s);
    if v.len() > 80 {
        let mut out = String::new();
        let mut i: usize = 0;
        while i < 80
            invariant
                i <= 80,
                v.len() > 80,
                out@ == v@.take(i as int),
            decreases 80 - i,
        {
            crate::text::push_char(&mut out, v[i]);
            assert(v@.take(i as int).push(v@[i as int]) =~= v@.take(i + 1));
            i += 1;
        }
        out.append("…");
        out
    } else {
        String::from_str(s)
    }
}

/// The harness for the reference ERC-20 example project.
pub open spec fn spec_erc20_scaffold() -> Seq<char> {
    "// SPDX-License-Identifier: MIT\npragma solidity ^0.8.20;\n\nimport {Token} from \"../src/Token.sol\";\n\ncontract CegisProperties {\n    Token internal token;\n\n    constructor() {\n        token = new Token(1_000_000 ether);\n    }\n\n    {{CHECK_FN}}\n}\n"@
}

/// The harness for the reference ERC-20 example project.
pub fn default_scaffold_for_erc20() -> (r: String)
    ensures
        r@ == spec_erc20_scaffold(),
        r@ == "// SPDX-License-Identifier: MIT\npragma solidity ^0.8.20;\n\nimport {Token} from \"../src/Token.sol\";\n\ncontract CegisProperties {\n    Token internal token;\n\n    constructor() {\n        token = new Token(1_000_000 ether);\n    }\n\n    {{CHECK_FN}}\n}\n"@,
{
    String::from_str(
        "// SPDX-License-Identifier: MIT\npragma solidity ^0.8.20;\n\nimport {Token} from \"../src/Token.sol\";\n\ncontract CegisProperties {\n    Token internal token;\n\n    constructor() {\n        token = new Token(1_000_000 ether);\n    }\n\n    {{CHECK_FN}}\n}\n",
    )
}

} // verus!
