//! A transparent recording proxy for a turn-based resource-collection
//! engine.
//!
//! The proxy forwards gameplay commands to an external engine, observes the
//! outcome, and on success appends a compact record of the action to a
//! journal. Consecutive turns keep only the latest heading and consecutive
//! moves accumulate their step counts; all other actions are recorded as
//! they come. A renderer later replays the journal as a human-readable
//! symbolic trace or a dense machine-readable code stream.
//!
//! The engine itself, the host's durable storage and its log channel are
//! external collaborators: the host-side shell performs those calls and
//! hands their plain-value results to this library, which holds the journal,
//! the compaction rule, the error classification and the rendering tables.

pub mod engine;
pub mod journal;
pub mod render;
pub mod types;
