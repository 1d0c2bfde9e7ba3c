//! Decisions of the command-line runs that do not belong to one stage: the
//! output formats and modes, the properties file, counterexample files,
//! re-checking a proof artifact, run identifiers and telemetry names.
use vstd::prelude::*;

use crate::confirm::{spec_source_wire, source_wire};
use crate::layout::{join_path, spec_join_path};
use crate::source::Source;
use crate::text::{decimal, push_decimal, spec_contains, spec_starts_with};

verus! {

/// How a report is printed.
#[derive(Debug, Clone, Copy, PartialEq, Eq, Structural)]
pub enum OutputFormat {
    Text,
    Markdown,
    Json,
}

/// Which tier a verify run covers.
#[derive(Debug, Clone, Copy, PartialEq, Eq, Structural)]
pub enum VerifyMode {
    /// Catalog activation and per-template self-tests; no model calls.
    ZeroConfig,
    /// Properties synthesized from an intent and discharged by the solvers.
    Intent,
    /// Both tiers.
    Both,
}

// ---- the properties file ----

/// A `properties.yaml` file.
#[derive(Debug, Clone)]
pub struct PropertiesFile {
    /// Schema version; only 1 is supported.
    pub version: u32,
    /// The property contract; `test/Properties.t.sol` when absent.
    pub property_contract: Option<PropertyContractRef>,
    pub properties: Vec<PropertyEntry>,
}

#[derive(Debug, Clone)]
pub struct PropertyContractRef {
    pub name: String,
    pub path: String,
    /// Constructor literals, e.g. `["1000000 ether"]`.
    pub constructor_args: Vec<String>,
}

#[derive(Debug, Clone)]
pub struct PropertyEntry {
    /// The `check_*` function name.
    pub name: String,
    /// Parameters in source order.
    pub params: Vec<PropertyParam>,
    /// SMTChecker source, relative to the project; the first `.sol` under
    /// `src/` when absent.
    pub smtchecker_source: Option<String>,
}

#[derive(Debug, Clone)]
pub struct PropertyParam {
    pub name: String,
    pub solidity_type: String,
}

/// Accepts a parsed properties file only in version 1.
pub fn check_properties_version(file: PropertiesFile) -> (r: Result<PropertiesFile, String>)
    ensures
        file.version == 1 ==> r == Ok::<PropertiesFile, String>(file),
        file.version != 1 ==> (r matches Err(m) && m@ == "unsupported properties.yaml version "@
            + decimal(file.version as nat) + ": Phase 1 expects version 1"@),
{
    if file.version != 1 {
        let mut m = String::from_str("unsupported properties.yaml version ");
        push_decimal(&mut m, file.version as u64);
        m.append(": Phase 1 expects version 1");
        Err(m)
    } else {
        Ok(file)
    }
}

/// The property contract the counterexample files import: the one the
/// file names (name, import path, constructor arguments), or
/// `Properties` from `./Properties.t.sol` with none.
pub fn property_contract_or_default(file: &PropertiesFile) -> (r: (String, String, Vec<String>))
    ensures
        match file.property_contract {
            Some(pc) => r.0 == pc.name && r.1 == pc.path && r.2@ == pc.constructor_args@,
            None => r.0@ == "Properties"@ && r.1@ == "./Properties.t.sol"@ && r.2@.len() == 0,
        },
{
    match &file.property_contract {
        Some(pc) => (pc.name.clone(), pc.path.clone(), pc.constructor_args.clone()),
        None => (String::from_str("Properties"), String::from_str("./Properties.t.sol"), Vec::new()),
    }
}

/// The entry of the properties file named `name` (the first one).
pub fn find_property(file: &PropertiesFile, name: &String) -> (r: Option<usize>)
    ensures
        r matches Some(k) ==> k < file.properties.len() && file.properties@[k as int].name@
            == name@ && forall|j: int| 0 <= j < k ==> (#[trigger] file.properties@[j]).name@ != name@,
        r is None ==> forall|j: int|
            0 <= j < file.properties.len() ==> (#[trigger] file.properties@[j]).name@ != name@,
{
    let mut i: usize = 0;
    while i < file.properties.len()
        invariant
            i <= file.properties.len(),
            forall|j: int| 0 <= j < i ==> (#[trigger] file.properties@[j]).name@ != name@,
        decreases file.properties.len() - i,
    {
        if file.properties[i].name == *name {
            return Some(i);
        }
        i += 1;
    }
    None
}

// ---- counterexample files ----

/// `Cex_<property>.t.sol`.
pub open spec fn spec_cex_file_name(property: Seq<char>) -> Seq<char> {
    "Cex_"@ + property + ".t.sol"@
}

pub fn cex_file_name(property: &str) -> (r: String)
    ensures
        r@ == spec_cex_file_name(property@),
{
    let mut r = String::from_str("Cex_");
    r.append(property);
    r.append(".t.sol");
    r
}

/// A leftover counterexample test from an earlier run, to be swept:
/// `Cex_*.t.sol`.
pub fn is_stale_cex_file(file_name: &str) -> (b: bool)
    ensures
        b == (spec_starts_with(file_name@, "Cex_"@) && crate::text::spec_ends_with(
            file_name@,
            ".t.sol"@,
        )),
{
    crate::text::starts_with(file_name, "Cex_") && crate::text::ends_with(file_name, ".t.sol")
}

/// One refutation, ready to be written.
#[derive(Debug, Clone)]
pub struct CounterexampleRecord {
    pub property: String,
    pub source: Source,
    pub template_ref: Option<String>,
    /// The counterexample test source.
    pub source_sol: String,
    pub trace_summary: String,
}

/// Where a counterexample file goes, absolute and relative to the project.
pub fn cex_paths(project: &str, property: &str) -> (r: (String, String))
    ensures
        r.0@ == spec_join_path(
            spec_join_path(spec_join_path(project@, "vergil-out"@), "counterexamples"@),
            spec_cex_file_name(property@),
        ),
        r.1@ == "vergil-out/counterexamples/"@ + spec_cex_file_name(property@),
{
    let dir = crate::layout::counterexamples_dir(project);
    let name = cex_file_name(property);
    let abs = join_path(dir.as_str(), name.as_str());
    let mut rel = String::from_str("vergil-out/counterexamples/");
    rel.append(name.as_str());
    (abs, rel)
}

/// The notice printed when a counterexample lands.
pub fn cex_notice(record: &CounterexampleRecord, relative: &str) -> (r: String)
    ensures
        r@ == "[CEX] "@ + record.property@ + " (source: "@ + spec_source_wire(record.source)
            + match record.template_ref {
            Some(t) => ", template: "@ + t@,
            None => Seq::empty(),
        } + ") → "@ + relative@,
{
    let mut r = String::from_str("[CEX] ");
    r.append(record.property.as_str());
    r.append(" (source: ");
    r.append(source_wire(record.source));
    match &record.template_ref {
        Some(t) => {
            r.append(", template: ");
            r.append(t.as_str());
        },
        None => {},
    }
    r.append(") → ");
    r.append(relative);
    r
}

// ---- re-checking a proof artifact ----

/// The solvers a query can be re-dispatched to.
#[derive(Debug, Clone, Copy, PartialEq, Eq, Structural)]
pub enum Solver {
    Z3,
    Cvc5,
    Bitwuzla,
}

/// The solver to re-dispatch with: the one named on the command line
/// (`parsed` is what the name resolved to), else cvc5.
pub fn resolve_solver_choice(override_name: Option<&str>, parsed: Option<Solver>) -> (r: Result<
    Solver,
    String,
>)
    ensures
        override_name is None ==> r == Ok::<Solver, String>(Solver::Cvc5),
        override_name matches Some(n) ==> match parsed {
            Some(s) => r == Ok::<Solver, String>(s),
            None => r matches Err(m) && m@ == "unknown solver `"@ + n@
                + "` (expected: z3, cvc5, bitwuzla)"@,
        },
{
    match override_name {
        None => Ok(Solver::Cvc5),
        Some(n) => match parsed {
            Some(s) => Ok(s),
            None => {
                let mut m = String::from_str("unknown solver `");
                m.append(n);
                m.append("` (expected: z3, cvc5, bitwuzla)");
                Err(m)
            },
        },
    }
}

/// What re-checking one verified property came to.
#[derive(Debug, Clone)]
pub enum RedispatchOutcome {
    /// The alternate solver also proved it.
    Reverified,
    /// The alternate solver disagreed.
    Mismatch { detail: String },
    /// The recorded query is not on disk.
    Missing,
    /// No query digest was recorded.
    NoHashRecorded,
    /// The solver could not be run.
    SolverError { detail: String },
    /// The query on disk is not the one recorded.
    HashMismatch { recorded: String, actual: String },
}

/// What the re-check of one property does next.
#[derive(Debug, Clone)]
pub enum RedispatchStep {
    /// It is settled without running a solver.
    Settled(RedispatchOutcome),
    /// The query is intact: run the alternate solver on it.
    Dispatch,
}

/// Before any solver runs: no digest, no file, an unreadable file or a
/// tampered one settle the property; an intact query is dispatched.
pub fn redispatch_step(
    recorded: &Option<String>,
    file_exists: bool,
    actual: Result<String, String>,
    smt_path: &str,
) -> (r: RedispatchStep)
    ensures
        recorded is None ==> r matches RedispatchStep::Settled(RedispatchOutcome::NoHashRecorded),
        recorded is Some && !file_exists ==> r matches RedispatchStep::Settled(
            RedispatchOutcome::Missing,
        ),
        file_exists ==> (recorded matches Some(sha) ==> match actual {
            Ok(a) => if a@ == sha@ {
                r is Dispatch
            } else {
                r matches RedispatchStep::Settled(RedispatchOutcome::HashMismatch { recorded, actual: x })
                    && recorded == sha && x == a
            },
            Err(e) => r matches RedispatchStep::Settled(RedispatchOutcome::SolverError { detail })
                && detail@ == "hash "@ + smt_path@ + ": "@ + e@,
        }),
{
    match recorded {
        None => RedispatchStep::Settled(RedispatchOutcome::NoHashRecorded),
        Some(sha) => {
            if !file_exists {
                RedispatchStep::Settled(RedispatchOutcome::Missing)
            } else {
                match actual {
                    Ok(a) => {
                        if a == *sha {
                            RedispatchStep::Dispatch
                        } else {
                            RedispatchStep::Settled(
                                RedispatchOutcome::HashMismatch { recorded: sha.clone(), actual: a },
                            )
                        }
                    },
                    Err(e) => {
                        let mut d = String::from_str("hash ");
                        d.append(smt_path);
                        d.append(": ");
                        d.append(e.as_str());
                        RedispatchStep::Settled(RedispatchOutcome::SolverError { detail: d })
                    },
                }
            }
        },
    }
}

/// What the alternate solver returned, or why it could not run.
#[derive(Debug, Clone)]
pub enum SolverAnswer {
    Unsat,
    Sat,
    Unknown { reason: String },
    NotInstalled { name: String },
    Failed { message: String },
}

/// An UNSAT answer re-verifies the property; SAT or unknown is a
/// disagreement; a solver that could not run is an error.
pub fn outcome_of_answer(a: SolverAnswer) -> (r: RedispatchOutcome)
    ensures
        match a {
            SolverAnswer::Unsat => r is Reverified,
            SolverAnswer::Sat => r matches RedispatchOutcome::Mismatch { detail } && detail@
                == "alternate solver returned `sat` (counterexample exists)"@,
            SolverAnswer::Unknown { reason } => r matches RedispatchOutcome::Mismatch { detail }
                && detail@ == "alternate solver returned `unknown`: "@ + reason@,
            SolverAnswer::NotInstalled { name } => r matches RedispatchOutcome::SolverError {
                detail,
            } && detail@ == name@ + " not on PATH — install or pass --solver <name>"@,
            SolverAnswer::Failed { message } => r matches RedispatchOutcome::SolverError { detail }
                && detail == message,
        },
{
    match a {
        SolverAnswer::Unsat => RedispatchOutcome::Reverified,
        SolverAnswer::Sat => RedispatchOutcome::Mismatch {
            detail: String::from_str("alternate solver returned `sat` (counterexample exists)"),
        },
        SolverAnswer::Unknown { reason } => {
            let mut d = String::from_str("alternate solver returned `unknown`: ");
            d.append(reason.as_str());
            RedispatchOutcome::Mismatch { detail: d }
        },
        SolverAnswer::NotInstalled { name } => {
            let mut d = name;
            d.append(" not on PATH — install or pass --solver <name>");
            RedispatchOutcome::SolverError { detail: d }
        },
        SolverAnswer::Failed { message } => RedispatchOutcome::SolverError { detail: message },
    }
}

/// Counts of the re-check outcomes.
#[derive(Debug, Clone, Copy, PartialEq, Eq, Structural)]
pub struct RedispatchCounts {
    pub reverified: usize,
    pub mismatched: usize,
    pub missing: usize,
    pub no_hash: usize,
    pub tampered: usize,
    pub errored: usize,
}

pub open spec fn count_outcomes(os: Seq<RedispatchOutcome>) -> RedispatchCounts
    decreases os.len(),
{
    if os.len() == 0 {
        RedispatchCounts { reverified: 0, mismatched: 0, missing: 0, no_hash: 0, tampered: 0, errored: 0 }
    } else {
        let c = count_outcomes(os.drop_last());
        match os.last() {
            RedispatchOutcome::Reverified => RedispatchCounts { reverified: (c.reverified + 1) as usize, ..c },
            RedispatchOutcome::Mismatch { .. } => RedispatchCounts { mismatched: (c.mismatched + 1) as usize, ..c },
            RedispatchOutcome::Missing => RedispatchCounts { missing: (c.missing + 1) as usize, ..c },
            RedispatchOutcome::NoHashRecorded => RedispatchCounts { no_hash: (c.no_hash + 1) as usize, ..c },
            RedispatchOutcome::SolverError { .. } => RedispatchCounts { errored: (c.errored + 1) as usize, ..c },
            RedispatchOutcome::HashMismatch { .. } => RedispatchCounts { tampered: (c.tampered + 1) as usize, ..c },
        }
    }
}

/// Each count is the number of outcomes of its kind: a tampered query
/// (`HashMismatch`) is counted as tampered and nowhere else, a solver
/// disagreement as mismatched, and so on; so the re-check fails (exit 1)
/// exactly when some query was tampered with or disagreed.
pub proof fn law_tally_counts_each_kind(os: Seq<RedispatchOutcome>)
    requires
        os.len() <= usize::MAX,
    ensures
        count_outcomes(os).tampered == os.filter(|o: RedispatchOutcome| o is HashMismatch).len(),
        count_outcomes(os).mismatched == os.filter(|o: RedispatchOutcome| o is Mismatch).len(),
        count_outcomes(os).errored == os.filter(|o: RedispatchOutcome| o is SolverError).len(),
        count_outcomes(os).reverified == os.filter(|o: RedispatchOutcome| o is Reverified).len(),
        count_outcomes(os).missing == os.filter(|o: RedispatchOutcome| o is Missing).len(),
        count_outcomes(os).no_hash == os.filter(|o: RedispatchOutcome| o is NoHashRecorded).len(),
        (count_outcomes(os).tampered > 0 || count_outcomes(os).mismatched > 0) <==> exists|i: int|
            0 <= i < os.len() && ((#[trigger] os[i]) is HashMismatch || os[i] is Mismatch),
    decreases os.len(),
{
    let ft = |o: RedispatchOutcome| o is HashMismatch;
    let fm = |o: RedispatchOutcome| o is Mismatch;
    let fe = |o: RedispatchOutcome| o is SolverError;
    let fr = |o: RedispatchOutcome| o is Reverified;
    let fx = |o: RedispatchOutcome| o is Missing;
    let fn_ = |o: RedispatchOutcome| o is NoHashRecorded;
    if os.len() == 0 {
        assert(os.filter(ft) =~= Seq::<RedispatchOutcome>::empty());
        assert(os.filter(fm) =~= Seq::<RedispatchOutcome>::empty());
        assert(os.filter(fe) =~= Seq::<RedispatchOutcome>::empty());
        assert(os.filter(fr) =~= Seq::<RedispatchOutcome>::empty());
        assert(os.filter(fx) =~= Seq::<RedispatchOutcome>::empty());
        assert(os.filter(fn_) =~= Seq::<RedispatchOutcome>::empty());
    } else {
        let init = os.drop_last();
        let last = os.last();
        law_tally_counts_each_kind(init);
        broadcast use vstd::seq_lib::group_filter_ensures;
        assert(init.push(last) =~= os);
        init.lemma_filter_push(last, ft);
        init.lemma_filter_push(last, fm);
        init.lemma_filter_push(last, fe);
        init.lemma_filter_push(last, fr);
        init.lemma_filter_push(last, fx);
        init.lemma_filter_push(last, fn_);
        if exists|i: int| 0 <= i < os.len() && ((#[trigger] os[i]) is HashMismatch || os[i] is Mismatch) {
            let i = choose|i: int| 0 <= i < os.len() && ((#[trigger] os[i]) is HashMismatch || os[i] is Mismatch);
            if i < os.len() - 1 {
                assert(init[i] == os[i]);
            }
        }
        if exists|i: int| 0 <= i < init.len() && ((#[trigger] init[i]) is HashMismatch || init[i] is Mismatch) {
            let i = choose|i: int| 0 <= i < init.len() && ((#[trigger] init[i]) is HashMismatch || init[i] is Mismatch);
            assert(os[i] == init[i]);
        }
    }
}

/// Tallies the re-check outcomes.
pub fn tally(outcomes: &Vec<RedispatchOutcome>) -> (r: RedispatchCounts)
    ensures
        r == count_outcomes(outcomes@),
{
    let mut c = RedispatchCounts { reverified: 0, mismatched: 0, missing: 0, no_hash: 0, tampered: 0, errored: 0 };
    let mut i: usize = 0;
    while i < outcomes.len()
        invariant
            i <= outcomes.len(),
            c == count_outcomes(outcomes@.take(i as int)),
            c.reverified + c.mismatched + c.missing + c.no_hash + c.tampered + c.errored == i,
        decreases outcomes.len() - i,
    {
        proof {
            let t = outcomes@.take(i + 1);
            assert(t.drop_last() =~= outcomes@.take(i as int));
            assert(t.last() == outcomes@[i as int]);
        }
        match &outcomes[i] {
            RedispatchOutcome::Reverified => c.reverified += 1,
            RedispatchOutcome::Mismatch { .. } => c.mismatched += 1,
            RedispatchOutcome::Missing => c.missing += 1,
            RedispatchOutcome::NoHashRecorded => c.no_hash += 1,
            RedispatchOutcome::SolverError { .. } => c.errored += 1,
            RedispatchOutcome::HashMismatch { .. } => c.tampered += 1,
        }
        i += 1;
    }
    assert(outcomes@.take(outcomes.len() as int) =~= outcomes@);
    c
}

/// A disagreement or a tampered query fails the re-check (exit 1);
/// missing queries, missing digests and solver errors only warn.
pub fn prove_exit(c: RedispatchCounts) -> (r: Result<(), u8>)
    ensures
        (c.mismatched > 0 || c.tampered > 0) ==> r == Err::<(), u8>(1),
        !(c.mismatched > 0 || c.tampered > 0) ==> r is Ok,
{
    if c.mismatched > 0 || c.tampered > 0 {
        Err(1)
    } else {
        Ok(())
    }
}

/// `check_` stripped, lowercased, and either name contained in the other:
/// the loose match of a synthesized property against a ground-truth one.
pub open spec fn spec_match_key(s: Seq<char>) -> Seq<char> {
    let t = if spec_starts_with(s, "check_"@) {
        s.skip(6)
    } else {
        s
    };
    t.map_values(|c: char| crate::catalog_intent::spec_ascii_lower(c))
}

pub open spec fn spec_names_match(candidate: Seq<char>, ground_truth: Seq<char>) -> bool {
    let c = spec_match_key(candidate);
    let g = spec_match_key(ground_truth);
    c == g || spec_contains(c, g) || spec_contains(g, c)
}

fn match_key(s: &str) -> (r: String)
    ensures
        r@ == spec_match_key(s@),
{
    let v = crate::text::to_chars(s);
    let skip: usize = if crate::text::starts_with(s, "check_") {
        6
    } else {
        0
    };
    proof {
        reveal_strlit("check_");
        assert(v@.skip(0) =~= v@);
    }
    let mut out = String::new();
    let mut i = skip;
    while i < v.len()
        invariant
            skip <= i <= v.len(),
            skip == 6 ==> v@.len() >= 6,
            v@ == s@,
            out@ == v@.subrange(skip as int, i as int).map_values(
                |c: char| crate::catalog_intent::spec_ascii_lower(c),
            ),
        decreases v.len() - i,
    {
        crate::text::push_char(&mut out, crate::catalog_intent::ascii_lower(v[i]));
        assert(v@.subrange(skip as int, i + 1).map_values(
            |c: char| crate::catalog_intent::spec_ascii_lower(c),
        ) =~= v@.subrange(skip as int, i as int).map_values(
            |c: char| crate::catalog_intent::spec_ascii_lower(c),
        ).push(crate::catalog_intent::spec_ascii_lower(v@[i as int])));
        i += 1;
    }
    assert(v@.subrange(skip as int, v.len() as int) =~= v@.skip(skip as int));
    out
}

/// Whether a verified candidate counts for a ground-truth property.
pub fn names_match(candidate: &str, ground_truth: &str) -> (b: bool)
    ensures
        b == spec_names_match(candidate@, ground_truth@),
{
    let c = match_key(candidate);
    let g = match_key(ground_truth);
    if c == g {
        return true;
    }
    crate::text::contains(c.as_str(), g.as_str()) || crate::text::contains(g.as_str(), c.as_str())
}

pub open spec fn spec_decidability_label(d: crate::catalog_intent::DecidabilityKind) -> Seq<char> {
    match d {
        crate::catalog_intent::DecidabilityKind::Decidable => "decidable"@,
        crate::catalog_intent::DecidabilityKind::Frontier => "frontier"@,
        crate::catalog_intent::DecidabilityKind::DocumentOnly => "document-only"@,
    }
}

/// Label of a template's decidability in listings.
pub fn decidability_label(d: crate::catalog_intent::DecidabilityKind) -> (r: &'static str)
    ensures
        r@ == spec_decidability_label(d),
{
    match d {
        crate::catalog_intent::DecidabilityKind::Decidable => "decidable",
        crate::catalog_intent::DecidabilityKind::Frontier => "frontier",
        crate::catalog_intent::DecidabilityKind::DocumentOnly => "document-only",
    }
}

} // verus!
