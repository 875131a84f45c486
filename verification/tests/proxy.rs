use logging_engine::engine::LoggingEngine;
use logging_engine::types::{
    Action, ActionItem, EngineConfig, EngineId, EngineOutcome, Point, ProxyError,
};

fn bound_proxy() -> LoggingEngine {
    let mut le = LoggingEngine::new();
    le.wrap(EngineId { bytes: vec![7u8; 32] });
    le
}

#[test]
fn binding_gate_mutating_commands() {
    let mut le = LoggingEngine::new();
    assert_eq!(le.p_turn(2, EngineOutcome::Completed), Err(ProxyError::NotWrapped));
    assert_eq!(le.p_move(Some(3), EngineOutcome::Completed), Err(ProxyError::NotWrapped));
    assert_eq!(le.p_shoot(EngineOutcome::Completed, 0, 4), Err(ProxyError::NotWrapped));
    assert_eq!(le.p_harvest(EngineOutcome::Completed), Err(ProxyError::NotWrapped));
    assert_eq!(le.p_upgrade(EngineOutcome::Completed), Err(ProxyError::NotWrapped));
    // No command left a trace: the journal is still inaccessible and empty.
    assert!(le.actions().is_err());
}

#[test]
fn binding_gate_reads_and_init() {
    let le = LoggingEngine::new();
    assert_eq!(le.p_pos(Point { x: 1, y: 2 }), Err(ProxyError::NotWrapped));
    assert_eq!(le.p_dir(3), Err(ProxyError::NotWrapped));
    assert_eq!(le.p_points(10), Err(ProxyError::NotWrapped));
    assert_eq!(le.p_fuel(10), Err(ProxyError::NotWrapped));
    assert_eq!(le.get_map(vec![1u32, 2u32]), Err(ProxyError::NotWrapped));
    let config = EngineConfig {
        move_step: 1,
        laser_range: 4,
        seed: 42,
        view_range: 5,
        fuel: (10, 10, 10, 10),
        asteroid_reward: 3,
        asteroid_density: 2,
        pod_density: 1,
    };
    assert_eq!(le.init(config).err(), Some(ProxyError::NotWrapped));
}

#[test]
fn require_bound_gate() {
    let le = LoggingEngine::new();
    assert_eq!(le.require_bound(), Err(ProxyError::NotWrapped));
    let le = bound_proxy();
    assert_eq!(le.require_bound(), Ok(()));
}

#[test]
fn wrap_resets_journal() {
    let mut le = bound_proxy();
    le.p_harvest(EngineOutcome::Completed).unwrap();
    assert_eq!(le.actions().unwrap().len(), 1);
    le.wrap(EngineId { bytes: vec![9u8; 32] });
    assert_eq!(le.actions().unwrap().len(), 0);
}

#[test]
fn wrap_notice_text() {
    let mut le = LoggingEngine::new();
    let notice = le.wrap(EngineId { bytes: vec![0u8; 32] });
    assert_eq!(notice, "🗒️ logger engine taking notes");
}

#[test]
fn compaction_turns_keeps_latest() {
    let mut le = bound_proxy();
    le.p_turn(2, EngineOutcome::Completed).unwrap();
    le.p_turn(5, EngineOutcome::Completed).unwrap();
    assert_eq!(le.actions().unwrap().as_slice(), &[ActionItem(Action::Turn, 5)]);
}

#[test]
fn compaction_moves_accumulate() {
    let mut le = bound_proxy();
    le.p_move(Some(1), EngineOutcome::Completed).unwrap();
    le.p_move(Some(2), EngineOutcome::Completed).unwrap();
    le.p_move(Some(3), EngineOutcome::Completed).unwrap();
    assert_eq!(le.actions().unwrap().as_slice(), &[ActionItem(Action::Move, 6)]);
}

#[test]
fn no_cross_kind_merge() {
    let mut le = bound_proxy();
    le.p_move(Some(3), EngineOutcome::Completed).unwrap();
    le.p_turn(1, EngineOutcome::Completed).unwrap();
    le.p_move(Some(2), EngineOutcome::Completed).unwrap();
    assert_eq!(
        le.actions().unwrap().as_slice(),
        &[
            ActionItem(Action::Move, 3),
            ActionItem(Action::Turn, 1),
            ActionItem(Action::Move, 2),
        ]
    );
}

#[test]
fn shoot_harvest_upgrade_never_merge() {
    let mut le = bound_proxy();
    le.p_shoot(EngineOutcome::Completed, 0, 2).unwrap();
    le.p_shoot(EngineOutcome::Completed, 2, 2).unwrap();
    le.p_harvest(EngineOutcome::Completed).unwrap();
    le.p_harvest(EngineOutcome::Completed).unwrap();
    le.p_upgrade(EngineOutcome::Completed).unwrap();
    le.p_upgrade(EngineOutcome::Completed).unwrap();
    assert_eq!(
        le.actions().unwrap().as_slice(),
        &[
            ActionItem(Action::Shoot, 2),
            ActionItem(Action::Shoot, 0),
            ActionItem(Action::Harvest, 1),
            ActionItem(Action::Harvest, 1),
            ActionItem(Action::Upgrade, 1),
            ActionItem(Action::Upgrade, 1),
        ]
    );
}

#[test]
fn move_default_count_is_one() {
    let mut le = bound_proxy();
    le.p_move(None, EngineOutcome::Completed).unwrap();
    assert_eq!(le.actions().unwrap().as_slice(), &[ActionItem(Action::Move, 1)]);
}

#[test]
fn rejection_leaves_no_trace() {
    let mut le = bound_proxy();
    le.p_move(Some(2), EngineOutcome::Completed).unwrap();
    let before = le.actions().unwrap().clone();
    let r = le.p_shoot(EngineOutcome::Rejected(4), 10, 10);
    assert_eq!(r, Err(ProxyError::EngineRejected(4)));
    assert_eq!(le.actions().unwrap(), &before);
}

#[test]
fn rejection_propagates_exact_code() {
    let mut le = bound_proxy();
    assert_eq!(le.p_turn(1, EngineOutcome::Rejected(2)), Err(ProxyError::EngineRejected(2)));
    assert_eq!(le.p_move(None, EngineOutcome::Rejected(3)), Err(ProxyError::EngineRejected(3)));
    assert_eq!(le.p_harvest(EngineOutcome::Rejected(5)), Err(ProxyError::EngineRejected(5)));
    assert_eq!(le.p_upgrade(EngineOutcome::Rejected(6)), Err(ProxyError::EngineRejected(6)));
    assert!(le.actions().unwrap().is_empty());
}

// Deliberate policy of the proxy, preserved as-is and flagged here as
// suspicious: a host-level non-delivery is not surfaced to the caller and is
// not distinguished from a benign no-op.
#[test]
fn host_failure_is_silent_success() {
    let mut le = bound_proxy();
    assert_eq!(le.p_turn(3, EngineOutcome::NotDelivered), Ok(()));
    assert_eq!(le.p_shoot(EngineOutcome::NotDelivered, 0, 0), Ok(()));
    assert!(le.actions().unwrap().is_empty());
}

#[test]
fn shoot_magnitude_is_score_diff() {
    let mut le = bound_proxy();
    le.p_shoot(EngineOutcome::Completed, 10, 13).unwrap();
    assert_eq!(le.actions().unwrap().as_slice(), &[ActionItem(Action::Shoot, 3)]);
}

#[test]
fn shoot_miss_records_zero() {
    let mut le = bound_proxy();
    le.p_shoot(EngineOutcome::Completed, 10, 10).unwrap();
    assert_eq!(le.actions().unwrap().as_slice(), &[ActionItem(Action::Shoot, 0)]);
}

#[test]
fn read_passthroughs_return_value_unchanged() {
    let le = bound_proxy();
    assert_eq!(le.p_pos(Point { x: -4, y: 9 }), Ok(Point { x: -4, y: 9 }));
    assert_eq!(le.p_dir(6), Ok(6));
    assert_eq!(le.p_points(1234), Ok(1234));
    assert_eq!(le.p_fuel(77), Ok(77));
    assert_eq!(le.get_map(vec![(1u32, 2u32)]), Ok(vec![(1u32, 2u32)]));
}

#[test]
fn init_forwards_config_verbatim() {
    let le = bound_proxy();
    let config = EngineConfig {
        move_step: 2,
        laser_range: 3,
        seed: 99,
        view_range: 4,
        fuel: (5, 6, 7, 8),
        asteroid_reward: 9,
        asteroid_density: 10,
        pod_density: 11,
    };
    let forwarded = le.init(config).unwrap();
    assert_eq!(forwarded.move_step, 2);
    assert_eq!(forwarded.seed, 99);
    assert_eq!(forwarded.fuel, (5, 6, 7, 8));
    assert_eq!(forwarded.pod_density, 11);
}

#[test]
fn unknown_err_variant_is_reserved() {
    // The catch-all variant exists, compares by value, and no command path
    // produces it.
    let mut le = bound_proxy();
    let outcomes = [
        le.p_turn(0, EngineOutcome::Completed),
        le.p_move(None, EngineOutcome::Rejected(1)),
        le.p_harvest(EngineOutcome::NotDelivered),
    ];
    for r in outcomes {
        assert_ne!(r, Err(ProxyError::UnknownErr));
    }
}
