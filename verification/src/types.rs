use vstd::prelude::*;

verus! {

/// Errors the proxy surfaces to its callers.
#[derive(Copy, Clone, Debug, PartialEq, Eq, Structural)]
pub enum ProxyError {
    /// Catch-all for unanticipated failure translation; no current path
    /// produces it, but the variant is kept as an explicit reserve.
    UnknownErr,
    /// A mutating or read command was invoked before `wrap` bound the proxy
    /// to an engine instance.
    NotWrapped,
    /// The engine executed the command and returned a rule-level rejection
    /// with this code; it is propagated verbatim.
    EngineRejected(u32),
}

/// The kind of a recorded gameplay action.
#[derive(Copy, Clone, Debug, PartialEq, Eq, Structural)]
pub enum Action {
    Upgrade,
    Shoot,
    Harvest,
    Turn,
    Move,
}

/// One journal entry: an action kind and a magnitude whose meaning depends
/// on the kind. For `Turn` it is a direction code in `[0, 7]`; for `Move` a
/// step count; for `Shoot` the number of hits scored; for `Harvest` and
/// `Upgrade` it is always `1`.
#[derive(Copy, Clone, Debug, PartialEq, Eq, Structural)]
pub struct ActionItem(pub Action, pub u32);

/// Verbosity of the rendered trace. Controls only rendering, never what
/// the journal holds.
#[derive(Copy, Clone, Debug, PartialEq, Eq, Structural)]
pub enum LogLevel {
    Quiet,
    Human,
    Machine,
}

/// How an engine call came back, as observed by the host-side caller that
/// performed it.
#[derive(Copy, Clone, Debug, PartialEq, Eq, Structural)]
pub enum EngineOutcome {
    /// The engine executed the command and accepted it.
    Completed,
    /// The engine executed the command and rejected it with this code.
    Rejected(u32),
    /// The call never reached the engine: a host-level failure, orthogonal
    /// to game rules. The proxy deliberately treats this as a benign no-op.
    NotDelivered,
}

/// The identifier of the engine instance the proxy is bound to. Opaque to
/// the proxy: it is stored at `wrap` time and handed back to the host shell,
/// never inspected.
#[derive(Clone, Debug)]
pub struct EngineId {
    pub bytes: Vec<u8>,
}

/// The engine's one-time configuration, forwarded verbatim by `init`.
#[derive(Copy, Clone, Debug)]
pub struct EngineConfig {
    pub move_step: u32,
    pub laser_range: u32,
    pub seed: u64,
    pub view_range: u32,
    pub fuel: (u32, u32, u32, u32),
    pub asteroid_reward: u32,
    pub asteroid_density: u32,
    pub pod_density: u32,
}

/// A position reported by the engine, passed through unchanged.
#[derive(Copy, Clone, Debug, PartialEq, Eq, Structural)]
pub struct Point {
    pub x: i32,
    pub y: i32,
}

/// A record is well formed when its magnitude fits its kind: a turn holds a
/// direction code in `[0, 7]`, and harvest and upgrade are unit events.
pub open spec fn record_wf(item: ActionItem) -> bool {
    match item.0 {
        Action::Turn => item.1 <= 7,
        Action::Harvest => item.1 == 1,
        Action::Upgrade => item.1 == 1,
        Action::Shoot => true,
        Action::Move => true,
    }
}

} // verus!
