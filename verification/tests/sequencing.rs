use toio_fleet::sequencer::{
    build_choreography, resolve_aim, resolve_away, resolve_wiggle, MotorCommand, Sequencer,
    SteerNeed, TickAction,
};
use toio_fleet::task::{TaskType, ToioTask};
use toio_fleet::telemetry::{parse_button, parse_position, Pose, PoseStore, TelemetryArg};

fn pose(x: i64, y: i64, heading: i64, last_update: u64) -> Pose {
    Pose { x, y, heading, last_update }
}

fn store2(p0: Pose, p1: Pose) -> PoseStore {
    PoseStore { slot0: Some(p0), slot1: Some(p1), slot2: None }
}

#[test]
fn get_close_not_done_steers_both_robots_toward_each_other() {
    // Robot 0 at (0,0) heading 0, robot 1 at (100,0) heading 0, head task
    // get-close at threshold 52: distance 100, not done.
    let mut seq = Sequencer::new(0, 1);
    seq.push(ToioTask::new_get_close(52));
    let store = store2(pose(0, 0, 0, 1_000), pose(100, 0, 0, 1_000));
    let r = seq.tick(1_000, &store);
    assert!(!r.cleared);
    assert_eq!(seq.tasks.len(), 1);
    match r.action {
        TickAction::Steer(SteerNeed::Aim { first, second }) => {
            assert_eq!((first.index, first.heading, first.vx, first.vy), (0, 0, 100, 0));
            assert_eq!(first.dead_sq, 100);
            // Bearing of (100, 0) is 0: zero angular error drives straight.
            let c0 = resolve_aim(&first, 0);
            assert_eq!(c0, MotorCommand { index: 0, left: 20, right: 20, duration: 50 });
            let s = second.expect("robot 1 must get a command too");
            assert_eq!((s.index, s.vx, s.vy), (1, -100, 0));
            // Bearing of (-100, 0) is a half turn: reverse-biased pair.
            let c1 = resolve_aim(&s, 180_000);
            assert_eq!(c1, MotorCommand { index: 1, left: -20, right: -20, duration: 50 });
        }
        _ => panic!("expected a point-steering request"),
    }
    // Issuing the get-close command persists the doubled midpoint shifts
    // and clears stay-away mode.
    assert_eq!((seq.shift0x, seq.shift0y), (-100, 0));
    assert_eq!((seq.shift1x, seq.shift1y), (100, 0));
    assert!(!seq.should_stay_away);
}

#[test]
fn get_close_done_pops_and_starts_next_task() {
    // Distance shrinks to 40 < 52: the task is popped and the next one is
    // stamped with the current time.
    let mut seq = Sequencer::new(0, 1);
    seq.push(ToioTask::new_get_close(52));
    seq.push(ToioTask::new_wait(500));
    let store = store2(pose(0, 0, 0, 2_000), pose(40, 0, 0, 2_000));
    let r = seq.tick(2_000, &store);
    assert!(matches!(r.action, TickAction::Completed));
    assert_eq!(seq.tasks.len(), 1);
    assert!(matches!(seq.tasks[0].what, TaskType::Wait { duration: 500 }));
    assert_eq!(seq.tasks[0].start_time, 2_000);
}

#[test]
fn target_angle_within_tolerance_is_done() {
    // Target 90 deg, tolerance ~0.1 rad (5 730 mdeg), heading ~0.05 rad
    // below the target: wrapped error -2 865, inside the tolerance.
    let t = ToioTask::new_target_angle(90_000, 5_730);
    assert!(t.is_done(1, vec![(0, 0, 87_135)]));
    // Just outside the tolerance it is not done.
    let t2 = ToioTask::new_target_angle(90_000, 2_000);
    assert!(!t2.is_done(1, vec![(0, 0, 87_135)]));
}

#[test]
fn stale_telemetry_wipes_pending_queue() {
    // No telemetry for 11 000 ms while three tasks are pending: after the
    // next tick the queue is empty.
    let mut seq = Sequencer::new(0, 1);
    seq.push(ToioTask::new_get_close(52));
    seq.push(ToioTask::new_wait(500));
    seq.push(ToioTask::new_get_away(56));
    let store = store2(pose(0, 0, 0, 0), pose(100, 0, 0, 0));
    let r = seq.tick(11_000, &store);
    assert!(r.cleared);
    assert_eq!(seq.tasks.len(), 0);
}

#[test]
fn fresh_telemetry_keeps_queue() {
    let mut seq = Sequencer::new(0, 1);
    seq.push(ToioTask::new_wait(60_000));
    let store = store2(pose(0, 0, 0, 5_000), pose(100, 0, 0, 5_000));
    let r = seq.tick(11_000, &store);
    assert!(!r.cleared);
    assert_eq!(seq.tasks.len(), 1);
}

#[test]
fn freshest_robot_timestamp_counts() {
    // Robot 0 stale but robot 1 fresh: the freshest timestamp rules.
    let mut seq = Sequencer::new(0, 1);
    seq.push(ToioTask::new_wait(60_000));
    let store = store2(pose(0, 0, 0, 0), pose(100, 0, 0, 10_500));
    let r = seq.tick(11_000, &store);
    assert!(!r.cleared);
    assert_eq!(seq.tasks.len(), 1);
}

#[test]
fn wiggle_emits_opposed_sinusoid_targets() {
    // Wiggle with amplitude 10 000 mdeg started at t = 0, ticked at
    // t = 500 ms: the request carries the elapsed time and the midpoint
    // vectors; the phase is cos(500/1000 * 3 * 2 pi) = cos(3 pi) = -1.
    let mut seq = Sequencer::new(0, 1);
    seq.push(ToioTask::new_wiggle(2_000, 10_000));
    let store = store2(pose(0, 0, 0, 400), pose(100, 0, 0, 400));
    let r = seq.tick(500, &store);
    match r.action {
        TickAction::Steer(SteerNeed::Wiggle {
            index0,
            heading0,
            v0x,
            v0y,
            index1,
            heading1,
            v1x,
            v1y,
            elapsed,
            amplitude,
        }) => {
            assert_eq!((index0, heading0, v0x, v0y), (0, 0, 100, 0));
            assert_eq!((index1, heading1, v1x, v1y), (1, 0, -100, 0));
            assert_eq!(elapsed, 500);
            assert_eq!(amplitude, 10_000);
            let phase = (elapsed as f64 / 1000.0 * 3.0 * std::f64::consts::TAU).cos();
            assert!((phase + 1.0).abs() < 1e-9);
            let offset = (phase * amplitude as f64).round() as i64;
            assert_eq!(offset, -10_000);
            // Bearing to the midpoint: 0 for robot 0, a half turn for
            // robot 1.
            let (c0, c1) = resolve_wiggle(index0, heading0, index1, heading1, 0, 180_000, offset);
            // Robot 0 aims at -10 000: d = 10 000/2 000 + 2 = 7.
            assert_eq!(c0, MotorCommand { index: 0, left: 7, right: -7, duration: 50 });
            // Robot 1 aims at 190 000, wrapped to -170 000: d = 87.
            assert_eq!(c1, MotorCommand { index: 1, left: 87, right: -87, duration: 50 });
        }
        _ => panic!("expected a wiggle request"),
    }
}

#[test]
fn spin_emits_scaled_opposed_constant_command() {
    let mut seq = Sequencer::new(0, 1);
    seq.push(ToioTask::new_spin(1_000, 5));
    let store = store2(pose(0, 0, 0, 100), pose(100, 0, 0, 100));
    let r = seq.tick(500, &store);
    match r.action {
        TickAction::Commands(cs) => {
            assert_eq!(cs.len(), 1);
            assert_eq!(cs[0], MotorCommand { index: 0, left: 500, right: -500, duration: 50 });
        }
        _ => panic!("expected commands"),
    }
}

#[test]
fn target_angle_emits_heading_command() {
    let mut seq = Sequencer::new(0, 1);
    seq.push(ToioTask::new_target_angle(90_000, 100));
    let store = store2(pose(0, 0, 0, 100), pose(100, 0, 0, 100));
    let r = seq.tick(500, &store);
    match r.action {
        TickAction::Commands(cs) => {
            assert_eq!(cs.len(), 1);
            // Error 90 000: d = 45 + 2 = 47, positive error turns left.
            assert_eq!(cs[0], MotorCommand { index: 0, left: -47, right: 47, duration: 50 });
        }
        _ => panic!("expected commands"),
    }
}

#[test]
fn target_angles_emit_one_command_per_robot() {
    let mut seq = Sequencer::new(0, 1);
    seq.push(ToioTask::new_target_angles(90_000, -90_000, 100));
    let store = store2(pose(0, 0, 0, 100), pose(100, 0, 0, 100));
    let r = seq.tick(500, &store);
    match r.action {
        TickAction::Commands(cs) => {
            assert_eq!(cs.len(), 2);
            assert_eq!(cs[0], MotorCommand { index: 0, left: -47, right: 47, duration: 50 });
            assert_eq!(cs[1], MotorCommand { index: 1, left: 47, right: -47, duration: 50 });
        }
        _ => panic!("expected commands"),
    }
}

#[test]
fn wait_emits_no_commands() {
    let mut seq = Sequencer::new(0, 1);
    seq.push(ToioTask::new_wait(60_000));
    let store = store2(pose(0, 0, 0, 100), pose(100, 0, 0, 100));
    let r = seq.tick(500, &store);
    match r.action {
        TickAction::Commands(cs) => assert_eq!(cs.len(), 0),
        _ => panic!("expected an empty command list"),
    }
}

#[test]
fn wait_completes_strictly_after_duration() {
    let mut t = ToioTask::new_wait(500);
    t.start(1_000);
    assert!(!t.is_done(1_500, vec![(0, 0, 0)]));
    assert!(t.is_done(1_501, vec![(0, 0, 0)]));
}

#[test]
fn pair_movement_needs_both_robots_near_their_targets() {
    let t = ToioTask::new_pair_move(0, 0, 100, 0, 10);
    // Robot 0 on target, robot 1 far: not done.
    assert!(!t.is_done(0, vec![(0, 0, 0), (50, 0, 0)]));
    // Both within 10 of their targets: done.
    assert!(t.is_done(0, vec![(3, 0, 0), (95, 0, 0)]));
}

#[test]
fn pair_movement_shift_uses_pair_midpoint() {
    let t = ToioTask::new_pair_move_shift(50, 0, 10);
    // Midpoint of (0,0) and (100,0) is (50,0): exactly on target.
    assert!(t.is_done(0, vec![(0, 0, 0), (100, 0, 0)]));
    // Midpoint (0,0): 50 away from the target.
    assert!(!t.is_done(0, vec![(-100, 0, 0), (100, 0, 0)]));
}

#[test]
fn single_movement_ignores_robot_1() {
    let t = ToioTask::new_single_move(0, 0, 10);
    assert!(t.is_done(0, vec![(3, 4, 0), (900_000, 0, 0)]));
    assert!(!t.is_done(0, vec![(30, 40, 0), (0, 0, 0)]));
}

#[test]
fn close_and_away_are_complements_off_the_boundary() {
    // Same poses, same threshold: get-close is done exactly when get-away
    // is not, whenever the distance is not exactly the threshold.
    let close = ToioTask::new_get_close(52);
    let away = ToioTask::new_get_away(52);
    for x in [1i64, 10, 40, 51, 53, 60, 100, 500] {
        let data = vec![(0, 0, 0), (x, 0, 0)];
        assert_eq!(close.is_done(0, data.clone()), !away.is_done(0, data));
    }
    // On the boundary both predicates are strict, so neither holds.
    let data = vec![(0, 0, 0), (52, 0, 0)];
    assert!(!close.is_done(0, data.clone()));
    assert!(!away.is_done(0, data));
}

#[test]
fn get_away_resolves_to_opposed_flight() {
    // Pair bearing 0: robot 0 flees along the reversed bearing, robot 1
    // along the bearing; both targets sit the away distance out.
    let (c0, c1) = resolve_away(0, 0, 1, 0, 0);
    assert_eq!(c0, MotorCommand { index: 0, left: -20, right: -20, duration: 50 });
    assert_eq!(c1, MotorCommand { index: 1, left: 20, right: 20, duration: 50 });
}

#[test]
fn get_away_tick_persists_shifts_and_keeps_flag() {
    let mut seq = Sequencer::new(0, 1);
    seq.should_stay_away = true;
    seq.push(ToioTask::new_get_away(56));
    // Distance 100 > 56 would complete; use 30 so the task steers.  The
    // head being a get-away blocks the stay-away interrupt.
    let store = store2(pose(0, 0, 0, 100), pose(30, 0, 0, 100));
    let r = seq.tick(500, &store);
    match r.action {
        TickAction::Steer(SteerNeed::Away { index0, heading0, index1, heading1, vx, vy }) => {
            assert_eq!((index0, heading0, index1, heading1), (0, 0, 1, 0));
            assert_eq!((vx, vy), (30, 0));
        }
        _ => panic!("expected an away request"),
    }
    assert_eq!((seq.shift0x, seq.shift0y), (-30, 0));
    assert_eq!((seq.shift1x, seq.shift1y), (30, 0));
    assert!(seq.should_stay_away);
}

#[test]
fn stay_away_interrupt_preempts_without_discarding() {
    let mut seq = Sequencer::new(0, 1);
    seq.should_stay_away = true;
    seq.push(ToioTask::new_wait(60_000));
    // Distance 10 < 53: the interrupt fires and prepends a get-away at
    // the stay-away threshold.
    let store = store2(pose(0, 0, 0, 100), pose(10, 0, 0, 100));
    let r = seq.tick(500, &store);
    assert!(matches!(r.action, TickAction::Interrupted));
    assert_eq!(seq.tasks.len(), 2);
    assert!(matches!(seq.tasks[0].what, TaskType::GetAway { distance: 53 }));
    assert!(matches!(seq.tasks[1].what, TaskType::Wait { duration: 60_000 }));
    // A second tick does not insert again: the head is already a
    // get-away.
    let r2 = seq.tick(501, &store);
    assert!(matches!(r2.action, TickAction::Steer(SteerNeed::Away { .. })));
    assert_eq!(seq.tasks.len(), 2);
}

#[test]
fn queue_grows_only_by_push_and_interrupt() {
    let mut seq = Sequencer::new(0, 1);
    assert_eq!(seq.tasks.len(), 0);
    seq.push(ToioTask::new_wait(60_000));
    assert_eq!(seq.tasks.len(), 1);
    seq.push(ToioTask::new_get_close(52));
    assert_eq!(seq.tasks.len(), 2);
    // A steering tick leaves the queue untouched.
    let store = store2(pose(0, 0, 0, 100), pose(100, 0, 0, 100));
    seq.tick(500, &store);
    assert_eq!(seq.tasks.len(), 2);
}

#[test]
fn shift_steering_applies_persisted_offsets() {
    let mut seq = Sequencer::new(0, 1);
    // Doubled offsets: robot 0 sits 50 units left of the midpoint.
    seq.shift0x = -100;
    seq.shift1x = 100;
    seq.push(ToioTask::new_pair_move_shift(0, 0, 15));
    let store = store2(pose(200, 0, 0, 100), pose(300, 0, 0, 100));
    let r = seq.tick(500, &store);
    match r.action {
        TickAction::Steer(SteerNeed::Aim { first, second }) => {
            // Doubled vector: 2*0 - 100 - 2*200 = -500; dead zone 400
            // (10 units, doubled scale).
            assert_eq!((first.vx, first.vy, first.dead_sq), (-500, 0, 400));
            let s = second.expect("robot 1 must get a request");
            assert_eq!((s.vx, s.vy, s.dead_sq), (-500, 0, 400));
        }
        _ => panic!("expected a point-steering request"),
    }
}

#[test]
fn missing_poses_idle_the_tick() {
    let mut seq = Sequencer::new(0, 1);
    seq.push(ToioTask::new_wait(60_000));
    let empty = PoseStore { slot0: None, slot1: None, slot2: None };
    let r = seq.tick(500, &empty);
    assert!(matches!(r.action, TickAction::Idle));
    assert!(!r.cleared);
    assert_eq!(seq.tasks.len(), 1);
    // Robot 0 alone: no task logic, but the fail-safe still watches.
    let only0 = PoseStore { slot0: Some(pose(0, 0, 0, 0)), slot1: None, slot2: None };
    let r2 = seq.tick(11_000, &only0);
    assert!(matches!(r2.action, TickAction::Idle));
    assert!(r2.cleared);
    assert_eq!(seq.tasks.len(), 0);
}

#[test]
fn position_message_parses_seven_integers() {
    let args = vec![
        TelemetryArg::Int(7),
        TelemetryArg::Int(0),
        TelemetryArg::Int(300),
        TelemetryArg::Int(200),
        TelemetryArg::Int(90),
        TelemetryArg::Int(300),
        TelemetryArg::Int(200),
    ];
    let m = parse_position(&args).expect("seven integers must parse");
    assert_eq!(m.host, 7);
    assert_eq!(m.robot_index, 0);
    assert_eq!((m.raw_x, m.raw_y, m.raw_heading_deg), (300, 200, 90));
}

#[test]
fn malformed_position_messages_are_dropped_whole() {
    // Wrong field count.
    let short = vec![TelemetryArg::Int(7), TelemetryArg::Int(0), TelemetryArg::Int(300)];
    assert!(parse_position(&short).is_none());
    // Wrong field type: dropped silently, no partial update.
    let args = vec![
        TelemetryArg::Int(7),
        TelemetryArg::Int(0),
        TelemetryArg::Other,
        TelemetryArg::Int(200),
        TelemetryArg::Int(90),
        TelemetryArg::Int(300),
        TelemetryArg::Int(200),
    ];
    assert!(parse_position(&args).is_none());
}

#[test]
fn button_message_parses_three_integers() {
    let args = vec![TelemetryArg::Int(1), TelemetryArg::Int(2), TelemetryArg::Int(1)];
    let m = parse_button(&args).expect("three integers must parse");
    assert_eq!((m.host, m.index, m.pressed), (1, 2, 1));
    assert!(parse_button(&vec![TelemetryArg::Int(1)]).is_none());
}

#[test]
fn ingestion_recenters_flips_and_negates() {
    let mut store = PoseStore::new();
    let args = vec![
        TelemetryArg::Int(7),
        TelemetryArg::Int(0),
        TelemetryArg::Int(300),
        TelemetryArg::Int(200),
        TelemetryArg::Int(90),
        TelemetryArg::Int(300),
        TelemetryArg::Int(200),
    ];
    let m = parse_position(&args).unwrap();
    store.apply_position(&m, 0, 1, 1_234);
    let p = store.slot0.expect("slot 0 must be filled");
    assert_eq!((p.x, p.y), (50, 50));
    assert_eq!(p.heading, -90_000);
    assert_eq!(p.last_update, 1_234);
    assert!(store.slot1.is_none());
}

#[test]
fn ingestion_maps_robot_index_through_table() {
    let mut store = PoseStore::new();
    let args = vec![
        TelemetryArg::Int(7),
        TelemetryArg::Int(1),
        TelemetryArg::Int(250),
        TelemetryArg::Int(250),
        TelemetryArg::Int(0),
        TelemetryArg::Int(250),
        TelemetryArg::Int(250),
    ];
    let m = parse_position(&args).unwrap();
    store.apply_position(&m, 0, 2, 99);
    assert!(store.slot0.is_none());
    assert!(store.slot1.is_none());
    let p = store.slot2.expect("robot 1 maps to slot 2 here");
    assert_eq!((p.x, p.y, p.heading), (0, 0, 0));
}

#[test]
fn choreography_drains_in_order() {
    let mut seq = Sequencer::new(0, 1);
    let wps = vec![(80, 0)];
    for t in build_choreography(&wps) {
        seq.push(t);
    }
    assert_eq!(seq.tasks.len(), 4);
    // The opening get-close completes once the pair is under 52 apart,
    // and the next task is stamped with the tick's time.
    let near = store2(pose(0, 0, 0, 1), pose(40, 0, 0, 1));
    let r = seq.tick(10, &near);
    assert!(matches!(r.action, TickAction::Completed));
    assert_eq!(seq.tasks.len(), 3);
    assert_eq!(seq.tasks[0].start_time, 10);
    // The shifted pair movement is not done while the midpoint (20, 0)
    // sits 60 away from the waypoint: the tick steers.
    let r = seq.tick(20, &near);
    assert!(matches!(r.action, TickAction::Steer(SteerNeed::Aim { .. })));
    assert_eq!(seq.tasks.len(), 3);
    // Midpoint (75, 0) is within 15 of the waypoint: done.
    let at_waypoint = store2(pose(55, 0, 0, 2), pose(95, 0, 0, 2));
    let r = seq.tick(30, &at_waypoint);
    assert!(matches!(r.action, TickAction::Completed));
    // The get-away completes once the pair is over 56 apart.
    let apart = store2(pose(0, 0, 0, 3), pose(100, 0, 0, 3));
    let r = seq.tick(40, &apart);
    assert!(matches!(r.action, TickAction::Completed));
    // The closing get-close drains the queue.
    let near2 = store2(pose(0, 0, 0, 4), pose(40, 0, 0, 4));
    let r = seq.tick(50, &near2);
    assert!(matches!(r.action, TickAction::Completed));
    assert_eq!(seq.tasks.len(), 0);
    let r = seq.tick(60, &near2);
    assert!(matches!(r.action, TickAction::Idle));
}

#[test]
fn choreography_is_a_bracketed_ring() {
    // The startup ring: four radii by six angles, in tenths around the
    // circle, scaled to the arena.
    let mut waypoints: Vec<(i64, i64)> = Vec::new();
    let ni = 4;
    let nj = 6;
    for i in 0..ni {
        let fi = i as f64 / ni as f64;
        for j in 0..nj {
            let fj = j as f64 / nj as f64;
            let angle = fj * std::f64::consts::TAU;
            let r = (0.4 + 0.6 * (1.0 - fi)) * 80.0;
            waypoints.push(((angle.cos() * r).round() as i64, (angle.sin() * r).round() as i64));
        }
    }
    assert_eq!(waypoints.len(), 24);
    let ts = build_choreography(&waypoints);
    assert_eq!(ts.len(), 27);
    assert!(matches!(ts[0].what, TaskType::GetClose { distance: 52 }));
    assert!(matches!(
        ts[1].what,
        TaskType::PairMovementShift { tx: 80, ty: 0, distance: 15 }
    ));
    assert!(matches!(ts[2].what, TaskType::GetAway { distance: 56 }));
    // Second waypoint: angle pi/3 at radius 80.
    assert!(matches!(
        ts[3].what,
        TaskType::PairMovementShift { tx: 40, ty: 69, distance: 15 }
    ));
    assert!(matches!(ts[26].what, TaskType::GetClose { distance: 52 }));
    for t in &ts {
        assert_eq!(t.start_time, 0);
    }
}
