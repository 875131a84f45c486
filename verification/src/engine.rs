use vstd::prelude::*;
use vstd::string::StringExecFns;

use crate::journal::{journal_wf, merge_fits, spec_append};
use crate::types::{
    record_wf, Action, ActionItem, EngineConfig, EngineId, EngineOutcome, LogLevel, Point,
    ProxyError,
};
use crate::render::{render_lines, render_log, views_of};

verus! {

/// The magnitude a move command records: the requested repetition count,
/// defaulting to one when unspecified.
pub open spec fn move_magnitude(times: Option<u32>) -> u32 {
    match times {
        Option::Some(n) => n,
        Option::None => 1u32,
    }
}

/// What one forwarded command does to the proxy, given how the engine call
/// came back. Before binding every command fails with `NotWrapped` and
/// leaves the journal untouched. Once bound: an engine rejection is
/// propagated verbatim with no journal append; a completed call appends the
/// record under the compaction rule; a call that never reached the engine is
/// treated as a benign no-op, surfacing no error and appending nothing.
pub open spec fn command_step(
    pre: LoggingEngine,
    post: LoggingEngine,
    record: ActionItem,
    outcome: EngineOutcome,
    r: Result<(), ProxyError>,
) -> bool {
    &&& post.binding() == pre.binding()
    &&& if !pre.bound() {
        r == Err::<(), ProxyError>(ProxyError::NotWrapped) && post.entries() == pre.entries()
    } else {
        match outcome {
            EngineOutcome::Completed => r == Ok::<(), ProxyError>(()) && post.entries()
                == spec_append(pre.entries(), record),
            EngineOutcome::Rejected(code) => r == Err::<(), ProxyError>(
                ProxyError::EngineRejected(code),
            ) && post.entries() == pre.entries(),
            EngineOutcome::NotDelivered => r == Ok::<(), ProxyError>(()) && post.entries()
                == pre.entries(),
        }
    }
}

/// The recording proxy: the identity of the engine instance it is bound to,
/// and the compacted journal of accepted actions. The host shell performs
/// the engine calls and durable-storage writes; this type owns every
/// decision about them.
pub struct LoggingEngine {
    engine: Option<EngineId>,
    journal: Vec<ActionItem>,
}

impl LoggingEngine {
    /// The binding slot: absent until `wrap` is called.
    pub closed spec fn binding(self) -> Option<EngineId> {
        self.engine
    }

    /// Whether the proxy has been bound to an engine instance.
    pub open spec fn bound(self) -> bool {
        self.binding() is Some
    }

    /// The journal contents, oldest first.
    pub closed spec fn entries(self) -> Seq<ActionItem> {
        self.journal@
    }

    /// The proxy invariant: the journal is well formed and compacted.
    pub open spec fn wf(self) -> bool {
        journal_wf(self.entries())
    }

    /// A fresh proxy: unbound, with an empty journal.
    pub fn new() -> (r: LoggingEngine)
        ensures
            !r.bound(),
            r.entries() == Seq::<ActionItem>::empty(),
            r.wf(),
    {
        LoggingEngine { engine: None, journal: Vec::new() }
    }

    /// Rebuilds a proxy from state reloaded out of durable storage: the
    /// binding slot and a journal that the caller has already validated
    /// (see `journal_is_wf`).
    pub fn from_parts(binding: Option<EngineId>, journal: Vec<ActionItem>) -> (r: LoggingEngine)
        requires
            journal_wf(journal@),
        ensures
            r.binding() == binding,
            r.entries() == journal@,
            r.wf(),
    {
        LoggingEngine { engine: binding, journal }
    }

    /// Binds the proxy to an engine instance and resets the journal to
    /// empty. Rebinding overwrites the previous binding. Returns the
    /// informational notice for the host shell to emit.
    pub fn wrap(&mut self, engine_id: EngineId) -> (notice: String)
        ensures
            final(self).binding() == Some(engine_id),
            final(self).entries() == Seq::<ActionItem>::empty(),
            final(self).wf(),
            notice@ == "🗒️ logger engine taking notes"@,
    {
        self.engine = Some(engine_id);
        self.journal = Vec::new();
        String::from_str("🗒️ logger engine taking notes")
    }

    /// The binding gate every command goes through: `Ok` exactly when the
    /// proxy is bound, `NotWrapped` otherwise.
    pub fn require_bound(&self) -> (r: Result<(), ProxyError>)
        ensures
            r == if self.bound() {
                Ok::<(), ProxyError>(())
            } else {
                Err::<(), ProxyError>(ProxyError::NotWrapped)
            },
    {
        if self.engine.is_some() {
            Ok(())
        } else {
            Err(ProxyError::NotWrapped)
        }
    }

    /// The journal contents, oldest first: raw introspection for rendering
    /// or inspection, gated on binding like every other command.
    pub fn actions(&self) -> (r: Result<&Vec<ActionItem>, ProxyError>)
        ensures
            match r {
                Ok(v) => self.bound() && v@ == self.entries(),
                Err(e) => !self.bound() && e == ProxyError::NotWrapped,
            },
    {
        match &self.engine {
            Some(_) => Ok(&self.journal),
            None => Err(ProxyError::NotWrapped),
        }
    }

    /// Appends one record under the compaction rule: a turn after a turn
    /// replaces it, a move after a move accumulates the step counts, and
    /// any other record starts a new entry. Touches only the journal tail.
    pub fn log_action(&mut self, action: ActionItem)
        requires
            old(self).wf(),
            record_wf(action),
            merge_fits(old(self).entries(), action),
        ensures
            final(self).wf(),
            final(self).binding() == old(self).binding(),
            final(self).entries() == spec_append(old(self).entries(), action),
    {
        proof {
            crate::journal::lemma_append_preserves_wf(self.journal@, action);
        }
        let mut add_action: ActionItem = action;
        let n = self.journal.len();
        if n > 0 {
            let last = self.journal[n - 1];
            if last.0 == Action::Turn && action.0 == Action::Turn {
                self.journal.pop();
            } else if last.0 == Action::Move && action.0 == Action::Move {
                self.journal.pop();
                add_action = ActionItem(Action::Move, last.1 + action.1);
            }
        }
        self.journal.push(add_action);
    }

    /// The shared command discipline: gate on binding, classify the engine
    /// outcome, and append the record only when the engine accepted.
    fn forward(&mut self, record: ActionItem, outcome: EngineOutcome) -> (r: Result<
        (),
        ProxyError,
    >)
        requires
            old(self).wf(),
            record_wf(record),
            merge_fits(old(self).entries(), record),
        ensures
            final(self).wf(),
            command_step(*old(self), *final(self), record, outcome, r),
    {
        if self.engine.is_none() {
            return Err(ProxyError::NotWrapped);
        }
        match outcome {
            EngineOutcome::Rejected(code) => Err(ProxyError::EngineRejected(code)),
            EngineOutcome::NotDelivered => Ok(()),
            EngineOutcome::Completed => {
                self.log_action(record);
                Ok(())
            },
        }
    }

    /// Forwarded turn command: on acceptance records the heading as
    /// supplied, merging with an immediately preceding turn.
    pub fn p_turn(&mut self, direction: u32, outcome: EngineOutcome) -> (r: Result<
        (),
        ProxyError,
    >)
        requires
            old(self).wf(),
            direction <= 7,
        ensures
            final(self).wf(),
            command_step(
                *old(self),
                *final(self),
                ActionItem(Action::Turn, direction),
                outcome,
                r,
            ),
    {
        self.forward(ActionItem(Action::Turn, direction), outcome)
    }

    /// Forwarded move command: on acceptance records the requested step
    /// count (one when unspecified), merging with an immediately preceding
    /// move.
    pub fn p_move(&mut self, times: Option<u32>, outcome: EngineOutcome) -> (r: Result<
        (),
        ProxyError,
    >)
        requires
            old(self).wf(),
            merge_fits(old(self).entries(), ActionItem(Action::Move, move_magnitude(times))),
        ensures
            final(self).wf(),
            command_step(
                *old(self),
                *final(self),
                ActionItem(Action::Move, move_magnitude(times)),
                outcome,
                r,
            ),
    {
        let magnitude = match times {
            Some(n) => n,
            None => 1,
        };
        self.forward(ActionItem(Action::Move, magnitude), outcome)
    }

    /// Forwarded shoot command. The engine does not report hits directly, so
    /// the host shell reads the score immediately before and after the call
    /// and the recorded magnitude is their difference: the hits scored by
    /// that shot, zero on a miss.
    pub fn p_shoot(
        &mut self,
        outcome: EngineOutcome,
        points_before: u32,
        points_after: u32,
    ) -> (r: Result<(), ProxyError>)
        requires
            old(self).wf(),
            old(self).bound() && outcome == EngineOutcome::Completed ==> points_before
                <= points_after,
        ensures
            final(self).wf(),
            command_step(
                *old(self),
                *final(self),
                ActionItem(Action::Shoot, (points_after - points_before) as u32),
                outcome,
                r,
            ),
    {
        if self.engine.is_none() {
            return Err(ProxyError::NotWrapped);
        }
        match outcome {
            EngineOutcome::Rejected(code) => Err(ProxyError::EngineRejected(code)),
            EngineOutcome::NotDelivered => Ok(()),
            EngineOutcome::Completed => {
                let hits = points_after - points_before;
                self.log_action(ActionItem(Action::Shoot, hits));
                Ok(())
            },
        }
    }

    /// Forwarded harvest command: a unit event, never merged.
    pub fn p_harvest(&mut self, outcome: EngineOutcome) -> (r: Result<(), ProxyError>)
        requires
            old(self).wf(),
        ensures
            final(self).wf(),
            command_step(*old(self), *final(self), ActionItem(Action::Harvest, 1), outcome, r),
    {
        self.forward(ActionItem(Action::Harvest, 1), outcome)
    }

    /// Forwarded upgrade command: a unit event, never merged.
    pub fn p_upgrade(&mut self, outcome: EngineOutcome) -> (r: Result<(), ProxyError>)
        requires
            old(self).wf(),
        ensures
            final(self).wf(),
            command_step(*old(self), *final(self), ActionItem(Action::Upgrade, 1), outcome, r),
    {
        self.forward(ActionItem(Action::Upgrade, 1), outcome)
    }

    /// One-time engine configuration: gated on binding, then handed back
    /// verbatim for the host shell to forward. No journal effect.
    pub fn init(&self, config: EngineConfig) -> (r: Result<EngineConfig, ProxyError>)
        ensures
            r == if self.bound() {
                Ok::<EngineConfig, ProxyError>(config)
            } else {
                Err::<EngineConfig, ProxyError>(ProxyError::NotWrapped)
            },
    {
        if self.engine.is_some() {
            Ok(config)
        } else {
            Err(ProxyError::NotWrapped)
        }
    }

    /// Read-only passthrough of the player position: requires binding,
    /// otherwise returns the engine's value unchanged.
    pub fn p_pos(&self, position: Point) -> (r: Result<Point, ProxyError>)
        ensures
            r == if self.bound() {
                Ok::<Point, ProxyError>(position)
            } else {
                Err::<Point, ProxyError>(ProxyError::NotWrapped)
            },
    {
        if self.engine.is_some() {
            Ok(position)
        } else {
            Err(ProxyError::NotWrapped)
        }
    }

    /// Read-only passthrough of the player heading.
    pub fn p_dir(&self, direction: u32) -> (r: Result<u32, ProxyError>)
        ensures
            r == if self.bound() {
                Ok::<u32, ProxyError>(direction)
            } else {
                Err::<u32, ProxyError>(ProxyError::NotWrapped)
            },
    {
        if self.engine.is_some() {
            Ok(direction)
        } else {
            Err(ProxyError::NotWrapped)
        }
    }

    /// Read-only passthrough of the player score.
    pub fn p_points(&self, points: u32) -> (r: Result<u32, ProxyError>)
        ensures
            r == if self.bound() {
                Ok::<u32, ProxyError>(points)
            } else {
                Err::<u32, ProxyError>(ProxyError::NotWrapped)
            },
    {
        if self.engine.is_some() {
            Ok(points)
        } else {
            Err(ProxyError::NotWrapped)
        }
    }

    /// Read-only passthrough of the remaining fuel.
    pub fn p_fuel(&self, fuel: u32) -> (r: Result<u32, ProxyError>)
        ensures
            r == if self.bound() {
                Ok::<u32, ProxyError>(fuel)
            } else {
                Err::<u32, ProxyError>(ProxyError::NotWrapped)
            },
    {
        if self.engine.is_some() {
            Ok(fuel)
        } else {
            Err(ProxyError::NotWrapped)
        }
    }

    /// Read-only passthrough of the map snapshot, whatever shape the host
    /// shell reads it in: requires binding, otherwise hands the snapshot
    /// back unchanged.
    pub fn get_map<T>(&self, snapshot: T) -> (r: Result<T, ProxyError>)
        ensures
            match r {
                Ok(s) => self.bound() && s == snapshot,
                Err(e) => !self.bound() && e == ProxyError::NotWrapped,
            },
    {
        if self.engine.is_some() {
            Ok(snapshot)
        } else {
            Err(ProxyError::NotWrapped)
        }
    }

    /// Renders the journal at the given verbosity, gated on binding. The
    /// returned lines are a pure function of the journal contents and the
    /// level; the host shell emits them to its log channel.
    pub fn get_logs(&self, level: LogLevel) -> (r: Result<Vec<String>, ProxyError>)
        ensures
            match r {
                Ok(lines) => self.bound() && views_of(lines@) == render_lines(
                    self.entries(),
                    level,
                ),
                Err(e) => !self.bound() && e == ProxyError::NotWrapped,
            },
    {
        if self.engine.is_none() {
            return Err(ProxyError::NotWrapped);
        }
        Ok(render_log(&self.journal, level))
    }
}

} // verus!
