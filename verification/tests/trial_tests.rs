use stone_model::trial::{run_homing_trial, FlightData, Setup, TrialAction, TrialCursor, TrialPlan};

fn setup(outbound_steps: usize, inbound_steps: usize, record_memory: bool) -> Setup<f32> {
    Setup {
        inbound_steps,
        outbound_steps,
        vary_speed: false,
        acceleration_out: 0.1,
        acceleration_in: 0.25,
        record_memory,
    }
}

/// A stand-in network: counts its updates and sums the states it has seen.
#[derive(Clone, Copy, Debug, PartialEq)]
struct Counter {
    updates: u32,
    seen: f32,
}

fn count(network: Counter, state: f32) -> (Counter, f32) {
    let advanced = Counter { updates: network.updates + 1, seen: network.seen + state };
    (advanced, advanced.updates as f32)
}

fn drift(state: f32, motor: f32, acceleration: f32) -> f32 {
    state + motor * acceleration
}

fn snapshot(network: &Counter) -> (u32, f32) {
    (network.updates, network.seen)
}

fn fly(setup: &Setup<f32>, outbound: Vec<f32>) -> (FlightData<f32, f32, (u32, f32)>, Counter) {
    run_homing_trial(setup, Counter { updates: 0, seen: 0.0 }, outbound, count, drift, snapshot)
}

#[test]
fn plan_validity() {
    assert!(TrialPlan { outbound_len: 1, inbound_steps: 0, record_memory: false }.is_valid());
    assert!(!TrialPlan { outbound_len: 0, inbound_steps: 5, record_memory: false }.is_valid());
    assert!(TrialPlan { outbound_len: 1, inbound_steps: usize::MAX - 1, record_memory: true }
        .is_valid());
    assert!(!TrialPlan { outbound_len: 2, inbound_steps: usize::MAX - 1, record_memory: true }
        .is_valid());
}

#[test]
fn setup_gives_plan() {
    let plan = setup(10, 4, true).plan(11);
    assert_eq!(plan, TrialPlan { outbound_len: 11, inbound_steps: 4, record_memory: true });
}

fn schedule(plan: &TrialPlan) -> Vec<TrialAction> {
    let mut actions = Vec::new();
    let mut cursor = plan.start();
    loop {
        let (after, action) = cursor.step(plan);
        actions.push(action);
        if action == TrialAction::Finish {
            assert!(cursor.is_finished(plan));
            assert_eq!(after, cursor);
            break;
        }
        assert!(!cursor.is_finished(plan));
        cursor = after;
    }
    actions
}

#[test]
fn schedule_with_recording() {
    let plan = TrialPlan { outbound_len: 3, inbound_steps: 2, record_memory: true };
    assert_eq!(
        schedule(&plan),
        vec![
            TrialAction::Observe { index: 0 },
            TrialAction::Record,
            TrialAction::Observe { index: 1 },
            TrialAction::Record,
            TrialAction::Steer { index: 2 },
            TrialAction::Record,
            TrialAction::Steer { index: 3 },
            TrialAction::Record,
            TrialAction::Finish,
        ]
    );
}

#[test]
fn schedule_without_recording() {
    let plan = TrialPlan { outbound_len: 2, inbound_steps: 3, record_memory: false };
    assert_eq!(
        schedule(&plan),
        vec![
            TrialAction::Observe { index: 0 },
            TrialAction::Steer { index: 1 },
            TrialAction::Steer { index: 2 },
            TrialAction::Steer { index: 3 },
            TrialAction::Finish,
        ]
    );
}

#[test]
fn schedule_of_single_state_without_homing() {
    let plan = TrialPlan { outbound_len: 1, inbound_steps: 0, record_memory: true };
    assert_eq!(schedule(&plan), vec![TrialAction::Finish]);
    assert_eq!(plan.start(), TrialCursor { tick: 0, pending_record: false });
}

#[test]
fn schedule_tallies() {
    let plan = TrialPlan { outbound_len: 40, inbound_steps: 25, record_memory: true };
    let actions = schedule(&plan);
    let observes = actions.iter().filter(|a| matches!(a, TrialAction::Observe { .. })).count();
    let steers = actions.iter().filter(|a| matches!(a, TrialAction::Steer { .. })).count();
    let records = actions.iter().filter(|a| matches!(a, TrialAction::Record)).count();
    assert_eq!(observes, 39);
    assert_eq!(steers, 25);
    assert_eq!(records, 64);
    assert_eq!(actions.len(), 2 * 64 + 1);
}

#[test]
fn flight_lengths() {
    let s = setup(5, 3, true);
    let outbound = vec![1.0, 2.0, 3.0, 4.0, 5.0];
    let (data, network) = fly(&s, outbound.clone());
    assert_eq!(data.physical_states.len(), 8);
    assert_eq!(&data.physical_states[..5], &outbound[..]);
    assert_eq!(data.memory_record.as_ref().map(|r| r.len()), Some(7));
    assert_eq!(network.updates, 7);
    assert_eq!(data.setup.inbound_steps, 3);
    assert_eq!(data.setup.outbound_steps, 5);
    assert_eq!(data.setup.acceleration_in, 0.25);
    assert!(data.setup.record_memory);
}

#[test]
fn flight_values() {
    let s = setup(3, 2, true);
    let (data, network) = fly(&s, vec![1.0, 2.0, 4.0]);
    // Ticks 0 and 1 read 1.0 and 2.0; tick 2 reads 4.0 and steers with motor 3;
    // tick 3 reads the state just appended and steers with motor 4.
    assert_eq!(data.physical_states, vec![1.0, 2.0, 4.0, 4.75, 5.75]);
    assert_eq!(
        data.memory_record,
        Some(vec![(1, 1.0), (2, 3.0), (3, 7.0), (4, 11.75)])
    );
    assert_eq!(network, Counter { updates: 4, seen: 11.75 });
}

#[test]
fn memory_recording_length() {
    // A trajectory that holds the start state and ten steps after it.
    let s = setup(10, 6, true);
    let outbound: Vec<f32> = (0..11).map(|i| i as f32).collect();
    let (data, _) = fly(&s, outbound);
    let record = data.memory_record.expect("recording was asked for");
    assert_eq!(record.len(), s.outbound_steps + s.inbound_steps);
    assert_eq!(data.physical_states.len(), 11 + 6);
}

#[test]
fn memory_recording_leaves_out_the_last_outbound_state() {
    let s = setup(10, 6, true);
    let outbound: Vec<f32> = (0..10).map(|i| i as f32).collect();
    let (data, _) = fly(&s, outbound);
    assert_eq!(data.memory_record.map(|r| r.len()), Some(10 - 1 + 6));
}

#[test]
fn no_memory_record_unless_asked() {
    let s = setup(4, 2, false);
    let (data, network) = fly(&s, vec![0.5, 0.5, 0.5, 0.5]);
    assert!(data.memory_record.is_none());
    assert_eq!(data.physical_states.len(), 6);
    assert_eq!(network.updates, 5);
}

#[test]
fn no_inbound_steps_keeps_the_outbound_path() {
    let s = setup(3, 0, true);
    let (data, network) = fly(&s, vec![7.0, 8.0, 9.0]);
    assert_eq!(data.physical_states, vec![7.0, 8.0, 9.0]);
    assert_eq!(data.memory_record.map(|r| r.len()), Some(2));
    assert_eq!(network.updates, 2);
}

#[test]
fn equal_inputs_give_equal_flights() {
    let s = setup(6, 9, true);
    let outbound = vec![0.1, 0.2, 0.3, 0.4, 0.5, 0.6];
    let (first, first_network) = fly(&s, outbound.clone());
    let (second, second_network) = fly(&s, outbound);
    assert_eq!(first.physical_states, second.physical_states);
    assert_eq!(first.memory_record, second.memory_record);
    assert_eq!(first_network, second_network);
}

/// State of an agent for the homing test: velocity and heading.
#[derive(Clone, Copy, Debug, PartialEq)]
struct Body {
    vx: f64,
    vy: f64,
    heading: f64,
}

/// An ideal path integrator: it keeps the sum of the velocities it has seen.
#[derive(Clone, Copy, Debug, PartialEq)]
struct Integrator {
    x: f64,
    y: f64,
}

fn integrate(network: Integrator, body: Body) -> (Integrator, f64) {
    let advanced = Integrator { x: network.x + body.vx, y: network.y + body.vy };
    let home = (-advanced.x).atan2(-advanced.y);
    let tau = std::f64::consts::TAU;
    let mut turn = (home - body.heading).rem_euclid(tau);
    if turn > std::f64::consts::PI {
        turn -= tau;
    }
    (advanced, turn.clamp(-0.5, 0.5))
}

fn kinematics(body: Body, rotation: f64, acceleration: f64) -> Body {
    Body {
        vx: (body.vx + body.heading.sin() * acceleration) * (1.0 - 0.15),
        vy: (body.vy + body.heading.cos() * acceleration) * (1.0 - 0.15),
        heading: (body.heading + rotation).rem_euclid(std::f64::consts::TAU),
    }
}

#[test]
fn homing_closes_the_loop() {
    let s = Setup {
        inbound_steps: 400,
        outbound_steps: 100,
        vary_speed: false,
        acceleration_out: 0.1f64,
        acceleration_in: 0.1f64,
        record_memory: false,
    };
    let mut outbound = Vec::new();
    let mut body = Body { vx: 0.0, vy: 0.0, heading: 0.0 };
    for i in 0..s.outbound_steps {
        let rotation = if i % 20 < 10 { 0.05 } else { -0.02 };
        body = kinematics(body, rotation, s.acceleration_out);
        outbound.push(body);
    }
    let (data, _) = run_homing_trial(
        &s,
        Integrator { x: 0.0, y: 0.0 },
        outbound,
        integrate,
        kinematics,
        |n: &Integrator| (n.x, n.y),
    );
    let mut x = 0.0;
    let mut y = 0.0;
    let mut displacement = 0.0;
    let mut closest = f64::INFINITY;
    for (i, state) in data.physical_states.iter().enumerate() {
        x += state.vx;
        y += state.vy;
        let distance = (x * x + y * y).sqrt();
        if i + 1 == s.outbound_steps {
            displacement = distance;
        }
        if i + 1 > s.outbound_steps && distance < closest {
            closest = distance;
        }
        assert!(state.heading >= 0.0 && state.heading < std::f64::consts::TAU);
    }
    assert!(displacement > 20.0);
    assert!(closest < displacement / 10.0);
}
