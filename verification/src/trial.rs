//! The trial runner.
//!
//! A flight replays a pre-computed outbound trajectory through the network
//! (open loop), and lets the network steer for a fixed number of ticks (closed
//! loop). A small state machine decides what happens next; `run_homing_trial`
//! drives it, with the network update, the kinematic step and the memory
//! recorder handed in by the caller.

use vstd::prelude::*;

verus! {

/// Configuration of one flight. `A` is the type that carries accelerations.
#[derive(Debug)]
pub struct Setup<A> {
    /// Closed-loop ticks after the outbound phase.
    pub inbound_steps: usize,
    /// Length of the outbound trajectory to synthesize.
    pub outbound_steps: usize,
    /// Whether the outbound speed profile varies.
    pub vary_speed: bool,
    /// Acceleration (or its upper bound) during the outbound phase.
    pub acceleration_out: A,
    /// Acceleration during the inbound phase.
    pub acceleration_in: A,
    /// Whether a memory snapshot is captured after every tick.
    pub record_memory: bool,
}

/// Outcome of one flight. `P` is the type of a physical state, `S` that of a
/// memory snapshot.
#[derive(Debug)]
pub struct FlightData<A, P, S> {
    /// The configuration the flight was run with.
    pub setup: Setup<A>,
    /// The outbound trajectory followed by the states reached while homing.
    pub physical_states: Vec<P>,
    /// One snapshot per network update, where recording was asked for.
    pub memory_record: Option<Vec<S>>,
}

/// Shape of one flight.
#[derive(Clone, Copy, Debug, PartialEq, Eq, Structural)]
pub struct TrialPlan {
    /// Number of states in the outbound trajectory handed to the runner.
    pub outbound_len: usize,
    /// Number of closed-loop ticks that follow the outbound phase.
    pub inbound_steps: usize,
    /// Whether a memory snapshot is captured after every tick.
    pub record_memory: bool,
}

/// What the caller has to do next.
#[derive(Clone, Copy, Debug, PartialEq, Eq, Structural)]
pub enum TrialAction {
    /// Feed state `index` of the trajectory to the network and drop the motor
    /// command.
    Observe { index: usize },
    /// Feed state `index`, which is the last one of the trajectory, to the
    /// network, apply the motor command with the inbound acceleration, and
    /// append the resulting state.
    Steer { index: usize },
    /// Capture one memory snapshot of the network.
    Record,
    /// The flight is over.
    Finish,
}

/// Progress through a flight.
#[derive(Clone, Copy, Debug, PartialEq, Eq, Structural)]
pub struct TrialCursor {
    /// Network updates performed so far.
    pub tick: usize,
    /// Whether the snapshot of the latest tick is still owed.
    pub pending_record: bool,
}

impl<A: Copy> Clone for Setup<A> {
    fn clone(&self) -> (copy: Self)
        ensures
            copy == *self,
    {
        *self
    }
}

impl<A: Copy> Copy for Setup<A> {

}

impl<A> Setup<A> {
    /// The shape of the flight that this configuration gives when it is run on
    /// an outbound trajectory of `outbound_len` states.
    pub open spec fn plan_for(self, outbound_len: nat) -> TrialPlan {
        TrialPlan {
            outbound_len: outbound_len as usize,
            inbound_steps: self.inbound_steps,
            record_memory: self.record_memory,
        }
    }

    /// The plan for a flight along an outbound trajectory of `outbound_len`
    /// states.
    pub fn plan(&self, outbound_len: usize) -> (plan: TrialPlan)
        ensures
            plan == self.plan_for(outbound_len as nat),
    {
        TrialPlan {
            outbound_len,
            inbound_steps: self.inbound_steps,
            record_memory: self.record_memory,
        }
    }
}

impl TrialPlan {
    /// A flight needs a state to start homing from, and its final trajectory
    /// must be addressable.
    pub open spec fn valid(self) -> bool {
        &&& self.outbound_len >= 1
        &&& self.outbound_len + self.inbound_steps <= usize::MAX
    }

    /// Ticks of the open-loop phase: every outbound state but the last.
    pub open spec fn outbound_ticks(self) -> int {
        self.outbound_len - 1
    }

    /// Network updates over the whole flight.
    pub open spec fn ticks(self) -> int {
        self.outbound_ticks() + self.inbound_steps
    }

    /// Length of the trajectory once the flight is over.
    pub open spec fn final_trajectory_len(self) -> int {
        self.outbound_len + self.inbound_steps
    }

    /// Number of snapshots once the flight is over.
    pub open spec fn final_snapshots(self) -> int {
        if self.record_memory {
            self.ticks()
        } else {
            0
        }
    }

    /// Number of actions issued before `Finish`.
    pub open spec fn action_count(self) -> int {
        if self.record_memory {
            2 * self.ticks()
        } else {
            self.ticks()
        }
    }

    /// The network update that tick number `tick` performs.
    pub open spec fn tick_action(self, tick: int) -> TrialAction {
        if tick < self.outbound_ticks() {
            TrialAction::Observe { index: tick as usize }
        } else {
            TrialAction::Steer { index: tick as usize }
        }
    }

    /// The `k`-th action of the flight, counted from zero.
    pub open spec fn action_at(self, k: int) -> TrialAction {
        if k < 0 || k >= self.action_count() {
            TrialAction::Finish
        } else if !self.record_memory {
            self.tick_action(k)
        } else if k % 2 == 0 {
            self.tick_action(k / 2)
        } else {
            TrialAction::Record
        }
    }

    /// Whether the plan describes a flight that can be run.
    pub fn is_valid(&self) -> (ok: bool)
        ensures
            ok == self.valid(),
    {
        self.outbound_len >= 1 && self.inbound_steps <= usize::MAX - self.outbound_len
    }

    /// The cursor at the start of the flight.
    pub fn start(&self) -> (cursor: TrialCursor)
        requires
            self.valid(),
        ensures
            cursor == TrialCursor::initial(),
            cursor.wf(*self),
    {
        TrialCursor { tick: 0, pending_record: false }
    }
}

impl TrialCursor {
    /// The cursor before anything has happened.
    pub open spec fn initial() -> TrialCursor {
        TrialCursor { tick: 0, pending_record: false }
    }

    /// A cursor fits a plan when it has not run past the plan's last tick and
    /// owes a snapshot only where snapshots are taken, and only after a tick.
    pub open spec fn wf(self, plan: TrialPlan) -> bool {
        &&& self.tick <= plan.ticks()
        &&& self.pending_record ==> plan.record_memory && self.tick >= 1
    }

    /// Nothing is left to do.
    pub open spec fn finished(self, plan: TrialPlan) -> bool {
        self.tick == plan.ticks() && !self.pending_record
    }

    /// Number of actions issued so far.
    pub open spec fn position(self, plan: TrialPlan) -> int {
        if !plan.record_memory {
            self.tick as int
        } else if self.pending_record {
            2 * self.tick - 1
        } else {
            2 * self.tick
        }
    }

    /// Network updates performed so far.
    pub open spec fn updates(self) -> int {
        self.tick as int
    }

    /// Snapshots captured so far.
    pub open spec fn snapshots(self, plan: TrialPlan) -> int {
        if !plan.record_memory {
            0
        } else if self.pending_record {
            self.tick - 1
        } else {
            self.tick as int
        }
    }

    /// Length of the trajectory so far: the outbound states, and one more for
    /// every closed-loop tick performed.
    pub open spec fn trajectory_len(self, plan: TrialPlan) -> int {
        if self.tick <= plan.outbound_ticks() {
            plan.outbound_len as int
        } else {
            self.tick + 1
        }
    }

    /// The action that is due at this cursor.
    pub open spec fn next_action(self, plan: TrialPlan) -> TrialAction {
        if self.pending_record {
            TrialAction::Record
        } else if self.tick < plan.ticks() {
            plan.tick_action(self.tick as int)
        } else {
            TrialAction::Finish
        }
    }

    /// The cursor after the due action has been performed.
    pub open spec fn advance(self, plan: TrialPlan) -> TrialCursor {
        if self.pending_record {
            TrialCursor { tick: self.tick, pending_record: false }
        } else if self.tick < plan.ticks() {
            TrialCursor { tick: (self.tick + 1) as usize, pending_record: plan.record_memory }
        } else {
            self
        }
    }

    /// Whether the flight is over.
    pub fn is_finished(&self, plan: &TrialPlan) -> (done: bool)
        requires
            plan.valid(),
            self.wf(*plan),
        ensures
            done == self.finished(*plan),
    {
        !self.pending_record && self.tick == plan.outbound_len - 1 + plan.inbound_steps
    }

    /// Decide the next action and move past it.
    pub fn step(&self, plan: &TrialPlan) -> (next: (TrialCursor, TrialAction))
        requires
            plan.valid(),
            self.wf(*plan),
        ensures
            next.1 == self.next_action(*plan),
            next.0 == self.advance(*plan),
            next.0.wf(*plan),
            next.1 == plan.action_at(self.position(*plan)),
    {
        let outbound_ticks: usize = plan.outbound_len - 1;
        let ticks: usize = outbound_ticks + plan.inbound_steps;
        if self.pending_record {
            (TrialCursor { tick: self.tick, pending_record: false }, TrialAction::Record)
        } else if self.tick < ticks {
            let action = if self.tick < outbound_ticks {
                TrialAction::Observe { index: self.tick }
            } else {
                TrialAction::Steer { index: self.tick }
            };
            (TrialCursor { tick: self.tick + 1, pending_record: plan.record_memory }, action)
        } else {
            (*self, TrialAction::Finish)
        }
    }
}

/// Every action does exactly one thing to the flight's tallies: a network
/// update reads the state whose index is the number of updates made before it,
/// a steering update reads the last state and grows the trajectory by one, a
/// snapshot grows the record by one, and nothing follows `Finish`.
pub proof fn lemma_step_accounting(plan: TrialPlan, cursor: TrialCursor)
    requires
        plan.valid(),
        cursor.wf(plan),
    ensures
        cursor.next_action(plan) is Finish <==> cursor.finished(plan),
        cursor.finished(plan) ==> cursor.advance(plan) == cursor,
        !cursor.finished(plan) ==> cursor.advance(plan).position(plan) == cursor.position(plan)
            + 1,
        cursor.next_action(plan) matches TrialAction::Observe { index } ==> {
            &&& index == cursor.updates()
            &&& index < plan.outbound_ticks()
            &&& cursor.advance(plan).updates() == cursor.updates() + 1
            &&& cursor.advance(plan).trajectory_len(plan) == cursor.trajectory_len(plan)
            &&& cursor.advance(plan).snapshots(plan) == cursor.snapshots(plan)
        },
        cursor.next_action(plan) matches TrialAction::Steer { index } ==> {
            &&& index == cursor.updates()
            &&& index == cursor.trajectory_len(plan) - 1
            &&& cursor.advance(plan).updates() == cursor.updates() + 1
            &&& cursor.advance(plan).trajectory_len(plan) == cursor.trajectory_len(plan) + 1
            &&& cursor.advance(plan).snapshots(plan) == cursor.snapshots(plan)
        },
        cursor.next_action(plan) is Record ==> {
            &&& cursor.advance(plan).updates() == cursor.updates()
            &&& cursor.advance(plan).trajectory_len(plan) == cursor.trajectory_len(plan)
            &&& cursor.advance(plan).snapshots(plan) == cursor.snapshots(plan) + 1
        },
{
}

/// At the end of a flight the network has been updated once for every outbound
/// state but the last and once for every inbound step; the trajectory holds the
/// outbound states and one state per inbound step; and the memory record holds
/// one snapshot per update where recording is on, none where it is off.
pub proof fn lemma_finished_totals(plan: TrialPlan, cursor: TrialCursor)
    requires
        plan.valid(),
        cursor.wf(plan),
        cursor.finished(plan),
    ensures
        cursor.updates() == plan.outbound_len - 1 + plan.inbound_steps,
        cursor.trajectory_len(plan) == plan.outbound_len + plan.inbound_steps,
        cursor.snapshots(plan) == plan.final_snapshots(),
        cursor.position(plan) == plan.action_count(),
{
}

/// `data` and `network_end` are what a flight yields when the network passes
/// through `networks` and issues `motors`: every tick `t` feeds state `t` of the
/// trajectory to the network as it stands after tick `t - 1`; the trajectory
/// starts with the outbound states unchanged; every tick after the outbound
/// phase appends the kinematic successor of the state it read, under the
/// motor command of that tick and the inbound acceleration; and, where
/// recording is on, snapshot `t` is taken of the network as it stands after
/// tick `t`.
pub open spec fn is_flight<A, N, P, M, S, U: Fn(N, P) -> (N, M), K: Fn(P, M, A) -> P, R: Fn(&N) -> S>(
    setup: Setup<A>,
    network: N,
    outbound: Seq<P>,
    update: U,
    next: K,
    record: R,
    networks: Seq<N>,
    motors: Seq<M>,
    data: FlightData<A, P, S>,
    network_end: N,
) -> bool {
    let plan = setup.plan_for(outbound.len());
    let states = data.physical_states@;
    &&& data.setup == setup
    &&& networks.len() == plan.ticks() + 1
    &&& motors.len() == plan.ticks()
    &&& networks[0] == network
    &&& networks[plan.ticks()] == network_end
    &&& states.len() == plan.final_trajectory_len()
    &&& forall|i: int| 0 <= i < outbound.len() ==> #[trigger] states[i] == outbound[i]
    &&& forall|t: int|
        0 <= t < plan.ticks() ==> update.ensures(
            (networks[t], states[t]),
            (networks[t + 1], #[trigger] motors[t]),
        )
    &&& forall|t: int|
        plan.outbound_ticks() <= t < plan.ticks() ==> next.ensures(
            (states[t], #[trigger] motors[t], setup.acceleration_in),
            states[t + 1],
        )
    &&& data.memory_record is Some <==> setup.record_memory
    &&& data.memory_record matches Some(snapshots) ==> {
        &&& snapshots@.len() == plan.ticks()
        &&& forall|t: int|
            0 <= t < plan.ticks() ==> record.ensures((&networks[t + 1],), #[trigger] snapshots@[t])
    }
}

/// Whatever holds of every outbound state and of every outcome of the
/// kinematic step, such as a heading inside one full turn, holds of every
/// state of a flight's trajectory.
pub proof fn lemma_flight_states_are_step_outcomes<A, N, P, M, S, U: Fn(N, P) -> (N, M), K: Fn(P, M, A) -> P, R: Fn(&N) -> S>(
    setup: Setup<A>,
    network: N,
    outbound: Seq<P>,
    update: U,
    next: K,
    record: R,
    networks: Seq<N>,
    motors: Seq<M>,
    data: FlightData<A, P, S>,
    network_end: N,
    property: spec_fn(P) -> bool,
)
    requires
        outbound.len() <= usize::MAX,
        setup.plan_for(outbound.len()).valid(),
        is_flight(setup, network, outbound, update, next, record, networks, motors, data, network_end),
        forall|i: int| 0 <= i < outbound.len() ==> property(#[trigger] outbound[i]),
        forall|p: P, m: M, a: A, out: P| next.ensures((p, m, a), out) ==> property(out),
    ensures
        forall|i: int|
            0 <= i < data.physical_states@.len() ==> property(#[trigger] data.physical_states@[i]),
{
    let plan = setup.plan_for(outbound.len());
    let states = data.physical_states@;
    assert forall|i: int| 0 <= i < states.len() implies property(#[trigger] states[i]) by {
        if i < outbound.len() {
            assert(states[i] == outbound[i]);
        } else {
            let t = i - 1;
            assert(next.ensures((states[t], motors[t], setup.acceleration_in), states[t + 1]));
        }
    }
}

/// The three operations of a flight are functions: their contracts admit at
/// most one outcome for any argument.
pub open spec fn operations_are_functions<A, N, P, M, S, U: Fn(N, P) -> (N, M), K: Fn(P, M, A) -> P, R: Fn(&N) -> S>(
    update: U,
    next: K,
    record: R,
) -> bool {
    &&& forall|n: N, p: P, x: (N, M), y: (N, M)|
        update.ensures((n, p), x) && update.ensures((n, p), y) ==> x == y
    &&& forall|p: P, m: M, a: A, x: P, y: P|
        next.ensures((p, m, a), x) && next.ensures((p, m, a), y) ==> x == y
    &&& forall|n: &N, x: S, y: S| record.ensures((n,), x) && record.ensures((n,), y) ==> x == y
}

/// Two flights from the same start agree up to tick `t`: on the network after
/// each of the first `t` ticks, on the motor commands of those ticks, and on
/// every state of the trajectory that those ticks have read or appended.
proof fn lemma_flights_agree_up_to<A, N, P, M, S, U: Fn(N, P) -> (N, M), K: Fn(P, M, A) -> P, R: Fn(&N) -> S>(
    setup: Setup<A>,
    network: N,
    outbound: Seq<P>,
    update: U,
    next: K,
    record: R,
    networks1: Seq<N>,
    motors1: Seq<M>,
    data1: FlightData<A, P, S>,
    end1: N,
    networks2: Seq<N>,
    motors2: Seq<M>,
    data2: FlightData<A, P, S>,
    end2: N,
    t: int,
)
    requires
        outbound.len() <= usize::MAX,
        setup.plan_for(outbound.len()).valid(),
        operations_are_functions(update, next, record),
        is_flight(setup, network, outbound, update, next, record, networks1, motors1, data1, end1),
        is_flight(setup, network, outbound, update, next, record, networks2, motors2, data2, end2),
        0 <= t <= setup.plan_for(outbound.len()).ticks(),
    ensures
        forall|j: int| 0 <= j <= t ==> networks1[j] == networks2[j],
        forall|j: int| 0 <= j < t ==> motors1[j] == motors2[j],
        forall|i: int|
            0 <= i < outbound.len() || 0 <= i <= t ==> data1.physical_states@[i]
                == data2.physical_states@[i],
    decreases t,
{
    let plan = setup.plan_for(outbound.len());
    let states1 = data1.physical_states@;
    let states2 = data2.physical_states@;
    assert forall|i: int| 0 <= i < outbound.len() implies states1[i] == states2[i] by {
        assert(states1[i] == outbound[i]);
        assert(states2[i] == outbound[i]);
    }
    if t > 0 {
        let u = t - 1;
        lemma_flights_agree_up_to(
            setup,
            network,
            outbound,
            update,
            next,
            record,
            networks1,
            motors1,
            data1,
            end1,
            networks2,
            motors2,
            data2,
            end2,
            u,
        );
        assert(networks1[u] == networks2[u]);
        assert(states1[u] == states2[u]);
        assert(update.ensures((networks1[u], states1[u]), (networks1[u + 1], motors1[u])));
        assert(update.ensures((networks2[u], states2[u]), (networks2[u + 1], motors2[u])));
        assert((networks1[u + 1], motors1[u]) == (networks2[u + 1], motors2[u]));
        if u >= plan.outbound_ticks() {
            assert(next.ensures((states1[u], motors1[u], setup.acceleration_in), states1[u + 1]));
            assert(next.ensures((states2[u], motors2[u], setup.acceleration_in), states2[u + 1]));
            assert(states1[t] == states2[t]);
        } else {
            assert(t < outbound.len());
        }
    }
}

/// Flights are reproducible: where the network update, the kinematic step
/// and the recorder are functions, two flights with the same configuration,
/// the same initial network and the same outbound trajectory yield the same
/// trajectory, the same memory record and the same final network.
pub proof fn lemma_flight_is_determined<A, N, P, M, S, U: Fn(N, P) -> (N, M), K: Fn(P, M, A) -> P, R: Fn(&N) -> S>(
    setup: Setup<A>,
    network: N,
    outbound: Seq<P>,
    update: U,
    next: K,
    record: R,
    networks1: Seq<N>,
    motors1: Seq<M>,
    data1: FlightData<A, P, S>,
    end1: N,
    networks2: Seq<N>,
    motors2: Seq<M>,
    data2: FlightData<A, P, S>,
    end2: N,
)
    requires
        outbound.len() <= usize::MAX,
        setup.plan_for(outbound.len()).valid(),
        operations_are_functions(update, next, record),
        is_flight(setup, network, outbound, update, next, record, networks1, motors1, data1, end1),
        is_flight(setup, network, outbound, update, next, record, networks2, motors2, data2, end2),
    ensures
        data1.setup == data2.setup,
        data1.physical_states@ == data2.physical_states@,
        data1.memory_record is Some <==> data2.memory_record is Some,
        data1.memory_record is Some ==> data1.memory_record->0@ == data2.memory_record->0@,
        end1 == end2,
        networks1 == networks2,
        motors1 == motors2,
{
    let plan = setup.plan_for(outbound.len());
    lemma_flights_agree_up_to(
        setup,
        network,
        outbound,
        update,
        next,
        record,
        networks1,
        motors1,
        data1,
        end1,
        networks2,
        motors2,
        data2,
        end2,
        plan.ticks(),
    );
    assert(data1.physical_states@ =~= data2.physical_states@);
    assert(networks1 =~= networks2);
    assert(motors1 =~= motors2);
    if data1.memory_record is Some {
        let record1 = data1.memory_record->0@;
        let record2 = data2.memory_record->0@;
        assert forall|t: int| 0 <= t < plan.ticks() implies record1[t] == record2[t] by {
            assert(record.ensures((&networks1[t + 1],), record1[t]));
            assert(record.ensures((&networks2[t + 1],), record2[t]));
        }
        assert(record1 =~= record2);
    }
}

/// Run one flight: replay `outbound` through the network, then let the
/// network steer for `setup.inbound_steps` ticks.
///
/// `update(network, state)` advances the network by one tick on `state` and
/// gives the motor command; `next(state, motor, acceleration)` is the kinematic
/// step; `record(network)` captures a memory snapshot. The flight follows the
/// schedule of [`TrialCursor::step`].
pub fn run_homing_trial<A: Copy, N, P: Copy, M, S, U: Fn(N, P) -> (N, M), K: Fn(P, M, A) -> P, R: Fn(&N) -> S>(
    setup: &Setup<A>,
    network: N,
    outbound: Vec<P>,
    update: U,
    next: K,
    record: R,
) -> (out: (FlightData<A, P, S>, N))
    requires
        setup.plan_for(outbound@.len()).valid(),
        forall|n: N, p: P| update.requires((n, p)),
        forall|p: P, m: M, a: A| next.requires((p, m, a)),
        forall|n: &N| record.requires((n,)),
    ensures
        out.0.setup == *setup,
        out.0.physical_states@.len() == outbound@.len() + setup.inbound_steps,
        out.0.physical_states@.subrange(0, outbound@.len() as int) == outbound@,
        out.0.memory_record is Some <==> setup.record_memory,
        out.0.memory_record matches Some(snapshots) ==> snapshots@.len() == outbound@.len() - 1
            + setup.inbound_steps,
        exists|networks: Seq<N>, motors: Seq<M>|
            is_flight(
                *setup,
                network,
                outbound@,
                update,
                next,
                record,
                networks,
                motors,
                out.0,
                out.1,
            ),
{
    let ghost outbound_seq = outbound@;
    let plan = setup.plan(outbound.len());
    let mut physical_states = outbound;
    let mut snapshots: Vec<S> = Vec::new();
    let mut current = network;
    let mut cursor = plan.start();
    let ghost mut networks: Seq<N> = seq![network];
    let ghost mut motors: Seq<M> = Seq::empty();
    while !cursor.is_finished(&plan)
        invariant
            plan == setup.plan_for(outbound_seq.len()),
            plan.valid(),
            plan.outbound_len == outbound_seq.len(),
            cursor.wf(plan),
            physical_states@.len() == cursor.trajectory_len(plan),
            snapshots@.len() == cursor.snapshots(plan),
            networks.len() == cursor.tick + 1,
            motors.len() == cursor.tick,
            networks[0] == network,
            networks[cursor.tick as int] == current,
            forall|n: N, p: P| update.requires((n, p)),
            forall|p: P, m: M, a: A| next.requires((p, m, a)),
            forall|n: &N| record.requires((n,)),
            forall|i: int|
                0 <= i < outbound_seq.len() ==> #[trigger] physical_states@[i] == outbound_seq[i],
            forall|t: int|
                0 <= t < cursor.tick ==> update.ensures(
                    (networks[t], physical_states@[t]),
                    (networks[t + 1], #[trigger] motors[t]),
                ),
            forall|t: int|
                plan.outbound_ticks() <= t < cursor.tick ==> next.ensures(
                    (physical_states@[t], #[trigger] motors[t], setup.acceleration_in),
                    physical_states@[t + 1],
                ),
            forall|t: int|
                0 <= t < snapshots@.len() ==> record.ensures(
                    (&networks[t + 1],),
                    #[trigger] snapshots@[t],
                ),
        decreases plan.action_count() - cursor.position(plan),
    {
        proof {
            lemma_step_accounting(plan, cursor);
        }
        let (after, action) = cursor.step(&plan);
        match action {
            TrialAction::Observe { index } => {
                let state: P = physical_states[index];
                let (advanced, motor) = update(current, state);
                current = advanced;
                proof {
                    networks = networks.push(current);
                    motors = motors.push(motor);
                }
            },
            TrialAction::Steer { index } => {
                let state: P = physical_states[index];
                let (advanced, motor) = update(current, state);
                current = advanced;
                proof {
                    networks = networks.push(current);
                    motors = motors.push(motor);
                }
                let reached: P = next(state, motor, setup.acceleration_in);
                physical_states.push(reached);
            },
            TrialAction::Record => {
                let snapshot: S = record(&current);
                snapshots.push(snapshot);
            },
            TrialAction::Finish => {},
        }
        cursor = after;
    }
    proof {
        lemma_finished_totals(plan, cursor);
    }
    let memory_record = if setup.record_memory {
        Some(snapshots)
    } else {
        None
    };
    let out = (FlightData { setup: *setup, physical_states, memory_record }, current);
    proof {
        assert(out.0.physical_states@.subrange(0, outbound@.len() as int) =~= outbound@);
        assert(is_flight(
            *setup,
            network,
            outbound@,
            update,
            next,
            record,
            networks,
            motors,
            out.0,
            out.1,
        ));
    }
    out
}

} // verus!
