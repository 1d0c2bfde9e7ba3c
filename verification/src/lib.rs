//! Verified core of the Vergil verification pipeline: the decision logic of
//! the portfolio race, the CEGIS loop, the intent-confirmation gate, the
//! stratified verdict and the text helpers they rest on.

pub mod source;
pub mod text;
pub mod layout;
pub mod portfolio;
pub mod synthesis;
pub mod diagnosis;
pub mod refinement;
pub mod cegis;
pub mod confirm;
pub mod verdict;
pub mod dispatcher;
pub mod report;
pub mod critique;
pub mod fingerprint;
pub mod catalog_intent;
pub mod oracle_intents;
pub mod structural;
pub mod unified;
pub mod proof_summary;
pub mod scaffold;
pub mod cli;
pub mod telemetry;
pub mod clock;
pub mod kill_criterion;
