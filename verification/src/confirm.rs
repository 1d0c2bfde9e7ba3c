//! The intent-confirmation gate: the proposed intents, the user's
//! decisions on them, and the state file that makes confirmation resumable.
//!
//! Reading decisions (a prompt, a JSON line) and saving the state file are
//! I/O; what is decided here is which intents are still to be asked about,
//! what a decision does to the state, how a resumed state is merged with a
//! fresh intent list, and which intents come out confirmed.
use vstd::prelude::*;

use crate::source::Source;
use crate::text::{decimal, push_decimal};

verus! {

/// Version of the state file this library reads and writes.
pub const CONFIRM_STATE_SCHEMA_VERSION: u32 = 1;

/// One proposed intent awaiting the user's decision.
#[derive(Debug, Clone)]
pub struct ProposedIntent {
    /// Stable key for resume: `{source_label}:{intent_name}`.
    pub id: String,
    pub source: Source,
    pub intent_text: String,
    pub rationale: String,
    /// The critique confidence, written exactly as the number it is.
    pub confidence: String,
    /// Catalog template id, for catalog-sourced intents.
    pub template_ref: Option<String>,
}

impl ProposedIntent {
    /// A copy equal to `self`.
    pub fn duplicate(&self) -> (r: ProposedIntent)
        ensures
            r == *self,
    {
        ProposedIntent {
            id: self.id.clone(),
            source: self.source,
            intent_text: self.intent_text.clone(),
            rationale: self.rationale.clone(),
            confidence: self.confidence.clone(),
            template_ref: crate::portfolio::copy_opt_string(&self.template_ref),
        }
    }
}

/// The user's decision on one intent; `Edit` replaces its text.
#[derive(Debug, Clone)]
pub enum Decision {
    Confirm,
    Skip,
    Edit { new_text: String },
}

impl Decision {
    /// A copy equal to `self`.
    pub fn duplicate(&self) -> (r: Decision)
        ensures
            r == *self,
    {
        match self {
            Decision::Confirm => Decision::Confirm,
            Decision::Skip => Decision::Skip,
            Decision::Edit { new_text } => Decision::Edit { new_text: new_text.clone() },
        }
    }
}

/// One persisted decision; `decided_at` is an RFC 3339 timestamp.
#[derive(Debug, Clone)]
pub struct DecisionRecord {
    pub intent_id: String,
    pub decision: Decision,
    pub decided_at: String,
}

impl DecisionRecord {
    /// A copy equal to `self`.
    pub fn duplicate(&self) -> (r: DecisionRecord)
        ensures
            r == *self,
    {
        DecisionRecord {
            intent_id: self.intent_id.clone(),
            decision: self.decision.duplicate(),
            decided_at: self.decided_at.clone(),
        }
    }
}

#[derive(Debug, Clone, Copy, PartialEq, Eq, Structural)]
pub enum ConfirmStatus {
    /// Nothing decided yet.
    Pending,
    /// Some intent still undecided.
    InProgress,
    /// Every intent decided.
    Complete,
}

/// The persisted confirmation state. Timestamps are RFC 3339 text.
#[derive(Debug, Clone)]
pub struct ConfirmState {
    pub schema_version: u32,
    pub run_id: String,
    pub proposed_intents: Vec<ProposedIntent>,
    pub decisions: Vec<DecisionRecord>,
    pub status: ConfirmStatus,
    pub started_at: String,
    pub updated_at: String,
}

/// Why confirmation could not go on.
#[derive(Debug)]
pub enum ConfirmError {
    Io { path: String, message: String },
    Parse { path: String, message: String },
    SchemaMismatch { got: u32, expected: u32 },
    RunIdMismatch { state: String, current: String },
    Prompt(String),
    InvalidAgentDecision(String),
}

/// Some decision in `ds` is about the intent `id`.
pub open spec fn is_decided(ds: Seq<DecisionRecord>, id: Seq<char>) -> bool {
    exists|i: int| 0 <= i < ds.len() && (#[trigger] ds[i]).intent_id@ == id
}

/// The proposed intents no decision in `ds` is about, in order.
pub open spec fn spec_undecided(ps: Seq<ProposedIntent>, ds: Seq<DecisionRecord>) -> Seq<
    ProposedIntent,
>
    decreases ps.len(),
{
    if ps.len() == 0 {
        Seq::empty()
    } else {
        let rest = spec_undecided(ps.drop_last(), ds);
        if is_decided(ds, ps.last().id@) {
            rest
        } else {
            rest.push(ps.last())
        }
    }
}

/// Index of the first proposed intent with id `id`.
pub open spec fn first_with_id(ps: Seq<ProposedIntent>, id: Seq<char>, k: int) -> bool {
    0 <= k < ps.len() && ps[k].id@ == id && forall|j: int| 0 <= j < k ==> (#[trigger] ps[j]).id@ != id
}

/// Some proposed intent has id `id`.
pub open spec fn has_id(ps: Seq<ProposedIntent>, id: Seq<char>) -> bool {
    exists|k: int| 0 <= k < ps.len() && (#[trigger] ps[k]).id@ == id
}

/// The first proposed intent with id `id` (meaningful when `has_id`).
pub open spec fn intent_for(ps: Seq<ProposedIntent>, id: Seq<char>) -> ProposedIntent {
    ps[choose|k: int| first_with_id(ps, id, k)]
}

/// The confirmed (or edited) intents, in decision order, each paired with
/// its decision; decisions about ids no longer proposed are passed over.
pub open spec fn spec_confirmed(ps: Seq<ProposedIntent>, ds: Seq<DecisionRecord>) -> Seq<
    (ProposedIntent, Decision),
>
    decreases ds.len(),
{
    if ds.len() == 0 {
        Seq::empty()
    } else {
        let rest = spec_confirmed(ps, ds.drop_last());
        let d = ds.last();
        if has_id(ps, d.intent_id@) && !(d.decision is Skip) {
            rest.push((intent_for(ps, d.intent_id@), d.decision))
        } else {
            rest
        }
    }
}

/// The decisions whose intent is still proposed in `ps`, in order.
pub open spec fn spec_surviving(ds: Seq<DecisionRecord>, ps: Seq<ProposedIntent>) -> Seq<
    DecisionRecord,
>
    decreases ds.len(),
{
    if ds.len() == 0 {
        Seq::empty()
    } else {
        let rest = spec_surviving(ds.drop_last(), ps);
        if has_id(ps, ds.last().intent_id@) {
            rest.push(ds.last())
        } else {
            rest
        }
    }
}

/// Status a resumed state takes from its counts.
pub open spec fn spec_resumed_status(decided: nat, proposed: nat) -> ConfirmStatus {
    if decided == proposed {
        ConfirmStatus::Complete
    } else if decided == 0 {
        ConfirmStatus::Pending
    } else {
        ConfirmStatus::InProgress
    }
}

fn find_intent(ps: &Vec<ProposedIntent>, id: &String) -> (r: Option<usize>)
    ensures
        r matches Some(k) ==> first_with_id(ps@, id@, k as int),
        r is None ==> !has_id(ps@, id@),
{
    let mut k: usize = 0;
    while k < ps.len()
        invariant
            k <= ps.len(),
            forall|j: int| 0 <= j < k ==> (#[trigger] ps@[j]).id@ != id@,
        decreases ps.len() - k,
    {
        if ps[k].id == *id {
            return Some(k);
        }
        k += 1;
    }
    None
}

fn decided_in(ds: &Vec<DecisionRecord>, id: &String) -> (b: bool)
    ensures
        b == is_decided(ds@, id@),
{
    let mut i: usize = 0;
    while i < ds.len()
        invariant
            i <= ds.len(),
            forall|j: int| 0 <= j < i ==> (#[trigger] ds@[j]).intent_id@ != id@,
        decreases ds.len() - i,
    {
        if ds[i].intent_id == *id {
            return true;
        }
        i += 1;
    }
    false
}

impl ConfirmState {
    /// A fresh state: current schema, no decisions, `Pending`, started and
    /// updated at `now`.
    pub fn new(run_id: String, intents: Vec<ProposedIntent>, now: String) -> (r: ConfirmState)
        ensures
            r.schema_version == CONFIRM_STATE_SCHEMA_VERSION,
            r.run_id == run_id,
            r.proposed_intents == intents,
            r.decisions@.len() == 0,
            r.status == ConfirmStatus::Pending,
            r.started_at == now,
            r.updated_at == now,
    {
        ConfirmState {
            schema_version: CONFIRM_STATE_SCHEMA_VERSION,
            run_id,
            proposed_intents: intents,
            decisions: Vec::new(),
            status: ConfirmStatus::Pending,
            started_at: now.clone(),
            updated_at: now,
        }
    }

    /// Whether some decision is about the intent `id`.
    pub fn is_decided(&self, id: &String) -> (b: bool)
        ensures
            b == is_decided(self.decisions@, id@),
    {
        decided_in(&self.decisions, id)
    }

    /// The ids decisions were taken on, each once, in the order of their
    /// first decision.
    pub fn decided_ids(&self) -> (r: Vec<String>)
        ensures
            forall|id: Seq<char>| is_decided(self.decisions@, id) <==> exists|k: int|
                0 <= k < r.len() && (#[trigger] r@[k])@ == id,
            forall|a: int, b: int| 0 <= a < b < r.len() ==> (#[trigger] r@[a])@ != (#[trigger] r@[b])@,
    {
        let mut r: Vec<String> = Vec::new();
        let mut i: usize = 0;
        while i < self.decisions.len()
            invariant
                i <= self.decisions.len(),
                forall|id: Seq<char>| is_decided(self.decisions@.take(i as int), id) <==> exists|k: int|
                    0 <= k < r.len() && (#[trigger] r@[k])@ == id,
                forall|a: int, b: int| 0 <= a < b < r.len() ==> (#[trigger] r@[a])@ != (#[trigger] r@[b])@,
            decreases self.decisions.len() - i,
        {
            let id = self.decisions[i].intent_id.clone();
            let ghost prev = self.decisions@.take(i as int);
            let ghost next = self.decisions@.take(i + 1);
            assert forall|x: Seq<char>| is_decided(next, x) <==> (is_decided(prev, x) || x
                == id@) by {
                if is_decided(next, x) {
                    let j = choose|j: int| 0 <= j < next.len() && (#[trigger] next[j]).intent_id@ == x;
                    if j < i {
                        assert(prev[j] == next[j]);
                    }
                }
                if is_decided(prev, x) {
                    let j = choose|j: int| 0 <= j < prev.len() && (#[trigger] prev[j]).intent_id@ == x;
                    assert(next[j] == prev[j]);
                }
                if x == id@ {
                    assert(next[i as int].intent_id@ == x);
                }
            }
            let mut seen = false;
            let mut k: usize = 0;
            while k < r.len()
                invariant
                    k <= r.len(),
                    seen == exists|j: int| 0 <= j < k && (#[trigger] r@[j])@ == id@,
                decreases r.len() - k,
            {
                if r[k] == id {
                    seen = true;
                }
                k += 1;
            }
            let ghost r_before = r@;
            if !seen {
                r.push(id);
            }
            proof {
                assert forall|x: Seq<char>| is_decided(next, x) <==> exists|k: int|
                    0 <= k < r.len() && (#[trigger] r@[k])@ == x by {
                    if exists|k: int| 0 <= k < r_before.len() && (#[trigger] r_before[k])@ == x {
                        let k = choose|k: int| 0 <= k < r_before.len() && (#[trigger] r_before[k])@ == x;
                        assert(r@[k] == r_before[k]);
                    }
                    if exists|k: int| 0 <= k < r.len() && (#[trigger] r@[k])@ == x {
                        let k = choose|k: int| 0 <= k < r.len() && (#[trigger] r@[k])@ == x;
                        if k < r_before.len() {
                            assert(r_before[k] == r@[k]);
                        }
                    }
                    if x == id@ {
                        if seen {
                            let k = choose|k: int| 0 <= k < r_before.len() && (#[trigger] r_before[k])@ == id@;
                            assert(r@[k] == r_before[k]);
                        } else {
                            assert(r@[r.len() - 1]@ == x);
                        }
                    }
                }
            }
            i += 1;
        }
        assert(self.decisions@.take(self.decisions.len() as int) =~= self.decisions@);
        r
    }

    /// The proposed intents not decided yet, in proposal order.
    pub fn undecided(&self) -> (r: Vec<ProposedIntent>)
        ensures
            r@ == spec_undecided(self.proposed_intents@, self.decisions@),
    {
        let mut r: Vec<ProposedIntent> = Vec::new();
        let mut i: usize = 0;
        while i < self.proposed_intents.len()
            invariant
                i <= self.proposed_intents.len(),
                r@ == spec_undecided(self.proposed_intents@.take(i as int), self.decisions@),
            decreases self.proposed_intents.len() - i,
        {
            proof {
                let t = self.proposed_intents@.take(i + 1);
                assert(t.drop_last() =~= self.proposed_intents@.take(i as int));
            }
            if !decided_in(&self.decisions, &self.proposed_intents[i].id) {
                r.push(self.proposed_intents[i].duplicate());
            }
            i += 1;
        }
        assert(self.proposed_intents@.take(self.proposed_intents.len() as int)
            =~= self.proposed_intents@);
        r
    }

    /// The intents that go on to verification: for each decision in order
    /// that confirmed or edited an intent still proposed, that intent (the
    /// first with its id) with the decision.
    pub fn confirmed_intents(&self) -> (r: Vec<(ProposedIntent, Decision)>)
        ensures
            r@ == spec_confirmed(self.proposed_intents@, self.decisions@),
    {
        let mut out: Vec<(ProposedIntent, Decision)> = Vec::new();
        let mut i: usize = 0;
        while i < self.decisions.len()
            invariant
                i <= self.decisions.len(),
                out@ == spec_confirmed(self.proposed_intents@, self.decisions@.take(i as int)),
            decreases self.decisions.len() - i,
        {
            let d = &self.decisions[i];
            proof {
                let t = self.decisions@.take(i + 1);
                assert(t.drop_last() =~= self.decisions@.take(i as int));
                assert(t.last() == self.decisions@[i as int]);
            }
            match find_intent(&self.proposed_intents, &d.intent_id) {
                Some(k) => {
                    proof {
                        let ps = self.proposed_intents@;
                        let c = choose|c: int| first_with_id(ps, d.intent_id@, c);
                        assert(first_with_id(ps, d.intent_id@, k as int));
                        if c != k {
                            if c < k {
                                assert(ps[c].id@ != d.intent_id@);
                            } else {
                                assert(ps[k as int].id@ != d.intent_id@);
                            }
                        }
                    }
                    match &d.decision {
                        Decision::Skip => {},
                        _ => {
                            out.push((self.proposed_intents[k].duplicate(), d.decision.duplicate()));
                        },
                    }
                },
                None => {},
            }
            i += 1;
        }
        assert(self.decisions@.take(self.decisions.len() as int) =~= self.decisions@);
        out
    }

    /// Opens confirmation at `now`: with nothing proposed it is complete at
    /// once; otherwise it is in progress and the undecided intents, in
    /// order, are what to ask about.
    pub fn open_gate(&mut self, now: String) -> (pending: Vec<ProposedIntent>)
        ensures
            final(self).proposed_intents == old(self).proposed_intents,
            final(self).decisions == old(self).decisions,
            final(self).run_id == old(self).run_id,
            final(self).schema_version == old(self).schema_version,
            final(self).started_at == old(self).started_at,
            old(self).proposed_intents.len() == 0 ==> final(self).status
                == ConfirmStatus::Complete && final(self).updated_at == now && pending@.len()
                == 0,
            old(self).proposed_intents.len() > 0 ==> final(self).status
                == ConfirmStatus::InProgress && final(self).updated_at == old(self).updated_at
                && pending@ == spec_undecided(old(self).proposed_intents@, old(self).decisions@),
    {
        if self.proposed_intents.len() == 0 {
            self.status = ConfirmStatus::Complete;
            self.updated_at = now;
            Vec::new()
        } else {
            self.status = ConfirmStatus::InProgress;
            self.undecided()
        }
    }

    /// Records `decision` on intent `intent_id` at `now`, after the
    /// decisions already taken.
    pub fn decide(&mut self, intent_id: String, decision: Decision, now: String)
        ensures
            final(self).decisions@ == old(self).decisions@.push(
                DecisionRecord { intent_id, decision, decided_at: now },
            ),
            final(self).updated_at == now,
            final(self).proposed_intents == old(self).proposed_intents,
            final(self).status == old(self).status,
            final(self).run_id == old(self).run_id,
            final(self).schema_version == old(self).schema_version,
            final(self).started_at == old(self).started_at,
    {
        self.decisions.push(DecisionRecord { intent_id, decision, decided_at: now.clone() });
        self.updated_at = now;
    }

    /// Closes confirmation at `now`: every intent has been decided.
    pub fn close_gate(&mut self, now: String)
        ensures
            final(self).status == ConfirmStatus::Complete,
            final(self).updated_at == now,
            final(self).decisions == old(self).decisions,
            final(self).proposed_intents == old(self).proposed_intents,
            final(self).run_id == old(self).run_id,
            final(self).schema_version == old(self).schema_version,
            final(self).started_at == old(self).started_at,
    {
        self.status = ConfirmStatus::Complete;
        self.updated_at = now;
    }
}

/// The message a gate error is shown with.
pub open spec fn spec_confirm_error_message(e: ConfirmError) -> Seq<char> {
    match e {
        ConfirmError::Io { path, message } => "read "@ + path@ + ": "@ + message@,
        ConfirmError::Parse { path, message } => "parse "@ + path@ + ": "@ + message@,
        ConfirmError::SchemaMismatch { got, expected } => "schema_version "@ + decimal(got as nat)
            + " unsupported (expected "@ + decimal(expected as nat) + ")"@,
        ConfirmError::RunIdMismatch { state, current } =>
            "run_id mismatch on resume: state file has "@ + state@ + ", current run is "@
            + current@,
        ConfirmError::Prompt(m) => "prompt I/O error: "@ + m@,
        ConfirmError::InvalidAgentDecision(m) => "invalid agent JSON decision: "@ + m@,
    }
}

impl ConfirmError {
    /// The error's message.
    pub fn message(&self) -> (r: String)
        ensures
            r@ == spec_confirm_error_message(*self),
    {
        match self {
            ConfirmError::Io { path, message } => {
                let mut r = String::from_str("read ");
                r.append(path.as_str());
                r.append(": ");
                r.append(message.as_str());
                r
            },
            ConfirmError::Parse { path, message } => {
                let mut r = String::from_str("parse ");
                r.append(path.as_str());
                r.append(": ");
                r.append(message.as_str());
                r
            },
            ConfirmError::SchemaMismatch { got, expected } => {
                let mut r = String::from_str("schema_version ");
                push_decimal(&mut r, *got as u64);
                r.append(" unsupported (expected ");
                push_decimal(&mut r, *expected as u64);
                r.append(")");
                r
            },
            ConfirmError::RunIdMismatch { state, current } => {
                let mut r = String::from_str("run_id mismatch on resume: state file has ");
                r.append(state.as_str());
                r.append(", current run is ");
                r.append(current.as_str());
                r
            },
            ConfirmError::Prompt(m) => {
                let mut r = String::from_str("prompt I/O error: ");
                r.append(m.as_str());
                r
            },
            ConfirmError::InvalidAgentDecision(m) => {
                let mut r = String::from_str("invalid agent JSON decision: ");
                r.append(m.as_str());
                r
            },
        }
    }
}

/// Accepts a loaded state only in the schema version this library writes.
pub fn check_schema(state: ConfirmState) -> (r: Result<ConfirmState, ConfirmError>)
    ensures
        state.schema_version == CONFIRM_STATE_SCHEMA_VERSION <==> r is Ok,
        r matches Ok(s) ==> s == state,
        r matches Err(e) ==> e == (ConfirmError::SchemaMismatch {
            got: state.schema_version,
            expected: CONFIRM_STATE_SCHEMA_VERSION,
        }),
{
    if state.schema_version != CONFIRM_STATE_SCHEMA_VERSION {
        Err(
            ConfirmError::SchemaMismatch {
                got: state.schema_version,
                expected: CONFIRM_STATE_SCHEMA_VERSION,
            },
        )
    } else {
        Ok(state)
    }
}

/// Merges a saved state with a fresh intent list on resume. A state of
/// another run is refused. Otherwise the result is a new state for the
/// fresh intents that keeps the saved start time and the decisions about
/// intents still proposed, updated at `now`, with its status from the
/// counts: complete when every intent is decided, pending when none is,
/// in progress in between.
pub fn merge_resumed(
    existing: ConfirmState,
    run_id: &str,
    fresh: Vec<ProposedIntent>,
    now: String,
) -> (r: Result<ConfirmState, ConfirmError>)
    ensures
        existing.run_id@ != run_id@ ==> (r matches Err(ConfirmError::RunIdMismatch { state, current })
            && state == existing.run_id && current@ == run_id@),
        existing.run_id@ == run_id@ ==> (r matches Ok(m) && {
            &&& m.schema_version == CONFIRM_STATE_SCHEMA_VERSION
            &&& m.run_id@ == run_id@
            &&& m.proposed_intents == fresh
            &&& m.decisions@ == spec_surviving(existing.decisions@, fresh@)
            &&& m.started_at == existing.started_at
            &&& m.updated_at == now
            &&& m.status == spec_resumed_status(m.decisions.len() as nat, fresh.len() as nat)
        }),
{
    let current = String::from_str(run_id);
    if existing.run_id != current {
        return Err(ConfirmError::RunIdMismatch { state: existing.run_id, current });
    }
    let mut kept: Vec<DecisionRecord> = Vec::new();
    let mut i: usize = 0;
    while i < existing.decisions.len()
        invariant
            i <= existing.decisions.len(),
            kept@ == spec_surviving(existing.decisions@.take(i as int), fresh@),
        decreases existing.decisions.len() - i,
    {
        proof {
            let t = existing.decisions@.take(i + 1);
            assert(t.drop_last() =~= existing.decisions@.take(i as int));
        }
        match find_intent(&fresh, &existing.decisions[i].intent_id) {
            Some(_) => {
                kept.push(existing.decisions[i].duplicate());
            },
            None => {},
        }
        i += 1;
    }
    assert(existing.decisions@.take(existing.decisions.len() as int) =~= existing.decisions@);
    let mut merged = ConfirmState::new(current, fresh, existing.started_at);
    merged.decisions = kept;
    merged.updated_at = now;
    merged.status = if merged.decisions.len() == merged.proposed_intents.len() {
        ConfirmStatus::Complete
    } else if merged.decisions.len() == 0 {
        ConfirmStatus::Pending
    } else {
        ConfirmStatus::InProgress
    };
    Ok(merged)
}

/// What a line typed at the interactive prompt asks for.
#[derive(Debug, Clone, Copy, PartialEq, Eq, Structural)]
pub enum PromptAnswer {
    Confirm,
    Skip,
    /// Confirm this intent and every one after it.
    AllYes,
    /// Ask for the replacement text next.
    Edit,
    /// Ask again.
    Unrecognized,
}

/// The answer a typed line stands for, once trimmed: `c` or nothing
/// confirms, `s` skips, `a` confirms all, `e` edits.
pub open spec fn spec_prompt_answer(line: Seq<char>) -> PromptAnswer {
    let t = crate::text::spec_trim(line);
    if t == "c"@ || t.len() == 0 {
        PromptAnswer::Confirm
    } else if t == "s"@ {
        PromptAnswer::Skip
    } else if t == "a"@ {
        PromptAnswer::AllYes
    } else if t == "e"@ {
        PromptAnswer::Edit
    } else {
        PromptAnswer::Unrecognized
    }
}

/// The typed answer decides by its trimmed text alone: `c` or nothing
/// confirms, and only `s` skips, `a` confirms all and `e` edits; any other
/// text asks again.
pub proof fn law_prompt_answer_letters(line: Seq<char>)
    ensures
        spec_prompt_answer(line) == PromptAnswer::Confirm <==> (crate::text::spec_trim(line) == "c"@
            || crate::text::spec_trim(line).len() == 0),
        spec_prompt_answer(line) == PromptAnswer::Skip <==> crate::text::spec_trim(line) == "s"@,
        spec_prompt_answer(line) == PromptAnswer::AllYes <==> crate::text::spec_trim(line) == "a"@,
        spec_prompt_answer(line) == PromptAnswer::Edit <==> crate::text::spec_trim(line) == "e"@,
{
    reveal_strlit("c");
    reveal_strlit("s");
    reveal_strlit("a");
    reveal_strlit("e");
    let t = crate::text::spec_trim(line);
    assert("c"@ =~= seq!['c']);
    assert("s"@ =~= seq!['s']);
    assert("a"@ =~= seq!['a']);
    assert("e"@ =~= seq!['e']);
    if t == "s"@ || t == "a"@ || t == "e"@ {
        assert(t.len() == 1);
        assert(t[0] != 'c');
        assert(t != "c"@) by {
            if t == "c"@ {
                assert(t[0] == "c"@[0]);
            }
        }
    }
    if t == "a"@ || t == "e"@ {
        assert(t != "s"@) by {
            if t == "s"@ {
                assert(t[0] == "s"@[0]);
            }
        }
    }
    if t == "e"@ {
        assert(t != "a"@) by {
            if t == "a"@ {
                assert(t[0] == "a"@[0]);
            }
        }
    }
}

pub fn parse_prompt_answer(line: &str) -> (r: PromptAnswer)
    ensures
        r == spec_prompt_answer(line@),
{
    let t = crate::text::trim(line);
    if t == String::from_str("c") || t.as_str().is_empty() {
        PromptAnswer::Confirm
    } else if t == String::from_str("s") {
        PromptAnswer::Skip
    } else if t == String::from_str("a") {
        PromptAnswer::AllYes
    } else if t == String::from_str("e") {
        PromptAnswer::Edit
    } else {
        PromptAnswer::Unrecognized
    }
}

/// The wire name of a source in the agent protocol.
pub open spec fn spec_source_wire(s: Source) -> Seq<char> {
    match s {
        Source::UserIntent => "user_intent"@,
        Source::AttackCatalog => "attack_catalog"@,
        Source::Conformance => "conformance"@,
        Source::Tests => "tests"@,
        Source::NatSpec => "nat_spec"@,
        Source::StructuralAnalysis => "structural"@,
    }
}

/// Wire name of a source in the JSON prompts.
pub fn source_wire(s: Source) -> (r: &'static str)
    ensures
        r@ == spec_source_wire(s),
{
    match s {
        Source::UserIntent => "user_intent",
        Source::AttackCatalog => "attack_catalog",
        Source::Conformance => "conformance",
        Source::Tests => "tests",
        Source::NatSpec => "nat_spec",
        Source::StructuralAnalysis => "structural",
    }
}

proof fn lemma_undecided_members(ps: Seq<ProposedIntent>, ds: Seq<DecisionRecord>, k: int)
    requires
        0 <= k < ps.len(),
        !is_decided(ds, ps[k].id@),
    ensures
        exists|j: int| 0 <= j < spec_undecided(ps, ds).len() && (#[trigger] spec_undecided(ps, ds)[j]).id@ == ps[k].id@,
    decreases ps.len(),
{
    let u = spec_undecided(ps, ds);
    if k == ps.len() - 1 {
        assert(u[u.len() - 1] == ps[k]);
    } else {
        lemma_undecided_members(ps.drop_last(), ds, k);
        let u0 = spec_undecided(ps.drop_last(), ds);
        let j = choose|j: int| 0 <= j < u0.len() && (#[trigger] u0[j]).id@ == ps[k].id@;
        assert(u[j] == u0[j]);
    }
}

/// Once confirmation has recorded a decision on each intent it asked about,
/// every proposed intent is decided.
pub proof fn law_gate_decides_every_intent(
    s: ConfirmState,
    pending: Seq<ProposedIntent>,
    added: Seq<DecisionRecord>,
)
    requires
        pending == spec_undecided(s.proposed_intents@, s.decisions@),
        added.len() == pending.len(),
        forall|i: int| 0 <= i < added.len() ==> (#[trigger] added[i]).intent_id@ == pending[i].id@,
    ensures
        forall|k: int|
            0 <= k < s.proposed_intents.len() ==> is_decided(
                s.decisions@ + added,
                (#[trigger] s.proposed_intents@[k]).id@,
            ),
{
    let all = s.decisions@ + added;
    assert forall|k: int| 0 <= k < s.proposed_intents.len() implies is_decided(
        all,
        (#[trigger] s.proposed_intents@[k]).id@,
    ) by {
        let id = s.proposed_intents@[k].id@;
        if is_decided(s.decisions@, id) {
            let i = choose|i: int| 0 <= i < s.decisions@.len() && (#[trigger] s.decisions@[i]).intent_id@ == id;
            assert(all[i] == s.decisions@[i]);
        } else {
            lemma_undecided_members(s.proposed_intents@, s.decisions@, k);
            let j = choose|j: int| 0 <= j < pending.len() && (#[trigger] pending[j]).id@ == id;
            assert(all[s.decisions.len() + j] == added[j]);
        }
    }
}

/// A skipped intent never comes out confirmed, and whatever comes out
/// was proposed.
pub proof fn law_confirmed_excludes_skips(ps: Seq<ProposedIntent>, ds: Seq<DecisionRecord>)
    ensures
        forall|i: int|
            0 <= i < spec_confirmed(ps, ds).len() ==> !((#[trigger] spec_confirmed(ps, ds)[i]).1 is Skip)
                && has_id(ps, spec_confirmed(ps, ds)[i].0.id@),
    decreases ds.len(),
{
    if ds.len() > 0 {
        law_confirmed_excludes_skips(ps, ds.drop_last());
        let c = spec_confirmed(ps, ds);
        let c0 = spec_confirmed(ps, ds.drop_last());
        let d = ds.last();
        if has_id(ps, d.intent_id@) && !(d.decision is Skip) {
            let k = choose|k: int| first_with_id(ps, d.intent_id@, k);
            let k0 = choose|k: int| 0 <= k < ps.len() && (#[trigger] ps[k]).id@ == d.intent_id@;
            assert(exists|k: int| first_with_id(ps, d.intent_id@, k)) by {
                lemma_first_with_id_exists(ps, d.intent_id@, k0);
            }
            assert(ps[k].id@ == d.intent_id@);
            assert forall|i: int| 0 <= i < c.len() implies !((#[trigger] c[i]).1 is Skip) && has_id(
                ps,
                c[i].0.id@,
            ) by {
                if i < c0.len() {
                    assert(c[i] == c0[i]);
                } else {
                    assert(c[i].0 == ps[k]);
                }
            }
        }
    }
}

proof fn lemma_first_with_id_exists(ps: Seq<ProposedIntent>, id: Seq<char>, k0: int)
    requires
        0 <= k0 < ps.len(),
        ps[k0].id@ == id,
    ensures
        exists|k: int| first_with_id(ps, id, k),
    decreases k0,
{
    if forall|j: int| 0 <= j < k0 ==> (#[trigger] ps[j]).id@ != id {
        assert(first_with_id(ps, id, k0));
    } else {
        let j = choose|j: int| 0 <= j < k0 && (#[trigger] ps[j]).id@ == id;
        lemma_first_with_id_exists(ps, id, j);
    }
}

} // verus!
