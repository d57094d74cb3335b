//! The robot simulation core: a stateful `Robot` entity, the vocabulary of
//! commanded actions and lifecycle states, the fault taxonomy, and the
//! outcome resolver that maps a commanded action and one random draw to a
//! terminal state.

use vstd::prelude::*;

verus! {

/// A fault kind surfaced when a command resolves to a failure, each carrying
/// a fixed human-readable message (see [`RobotError::message`]).
#[derive(Debug, Clone, Copy, PartialEq, Eq, Structural)]
pub enum RobotError {
    /// A pick attempt failed.
    PickFault,
    /// A place attempt failed.
    PlaceFault,
    /// A homing attempt failed; homing failures surface under this generic
    /// label by fixed policy.
    UnknownFault,
    /// A command was issued to a robot that has been disconnected.
    NotConnected,
}

/// The caller's commanded intent for the next resolution cycle.
#[derive(Debug, Clone, Copy, PartialEq, Eq, Structural)]
pub enum Action {
    Idle,
    Picking,
    Placing,
    GoingHome,
}

/// The robot's currently observable lifecycle condition.
#[derive(Debug, Clone, Copy, PartialEq, Eq, Structural)]
pub enum State {
    Ready,
    InProgress,
    Complete,
    /// A resolution failed, carrying the specific fault.
    Faulted(RobotError),
    /// The robot was disconnected; terminal, every later command fails.
    Disconnected,
}

/// A position as a 3-tuple of signed integers. Accepted by `pick` and `place`
/// as a command parameter; in the current scope it never changes the robot's
/// simulated position (the resolver ignores it, a deliberate stub).
#[derive(Debug, Clone, Copy, PartialEq, Eq, Structural)]
pub struct Location(pub i32, pub i32, pub i32);

/// One simulated actuator: an immutable identifier, the current lifecycle
/// state, a (stubbed) position, and the last commanded action.
#[derive(Debug)]
pub struct Robot {
    pub id: String,
    pub state: State,
    pub location: Location,
    pub action: Action,
}

/// The outcome resolver's mapping, (action, draw) -> new state: `Idle` always
/// yields `Ready`; each other action succeeds with `Complete` when the draw
/// passes its fixed modulus test, and otherwise faults with the error tied to
/// that action.
pub open spec fn resolved_state(action: Action, draw: u32) -> State {
    match action {
        Action::Idle => State::Ready,
        Action::Picking => if draw % 5 == 0 {
            State::Complete
        } else {
            State::Faulted(RobotError::PickFault)
        },
        Action::Placing => if draw % 3 == 0 {
            State::Complete
        } else {
            State::Faulted(RobotError::PlaceFault)
        },
        Action::GoingHome => if draw % 2 == 0 {
            State::Complete
        } else {
            State::Faulted(RobotError::UnknownFault)
        },
    }
}

/// The outcome resolver on an explicit draw: pure and total, so outcome
/// sequences are reproducible when a test fixes the draws.
pub fn resolve(action: Action, draw: u32) -> (s: State)
    ensures
        s == resolved_state(action, draw),
{
    match action {
        Action::Idle => State::Ready,
        Action::Picking => if draw % 5 == 0 {
            State::Complete
        } else {
            State::Faulted(RobotError::PickFault)
        },
        Action::Placing => if draw % 3 == 0 {
            State::Complete
        } else {
            State::Faulted(RobotError::PlaceFault)
        },
        Action::GoingHome => if draw % 2 == 0 {
            State::Complete
        } else {
            State::Faulted(RobotError::UnknownFault)
        },
    }
}

/// Resolving the idle action is deterministic: every draw yields `Ready`,
/// never a fault.
pub proof fn lemma_idle_deterministic(draw: u32)
    ensures
        resolved_state(Action::Idle, draw) == State::Ready,
{
}

/// Each non-idle action resolves into a two-element outcome set: `Complete`
/// on success, or `Faulted` carrying exactly the error tied to that action.
pub proof fn lemma_outcome_set(action: Action, draw: u32)
    ensures
        action is Picking ==> resolved_state(action, draw) == State::Complete
            || resolved_state(action, draw) == State::Faulted(RobotError::PickFault),
        action is Placing ==> resolved_state(action, draw) == State::Complete
            || resolved_state(action, draw) == State::Faulted(RobotError::PlaceFault),
        action is GoingHome ==> resolved_state(action, draw) == State::Complete
            || resolved_state(action, draw) == State::Faulted(RobotError::UnknownFault),
{
}

impl RobotError {
    /// The fixed canonical message for this fault kind.
    pub fn message(&self) -> (r: &'static str)
        ensures
            *self is PickFault ==> r@ == "Unable to pick"@,
            *self is PlaceFault ==> r@ == "Unable to place"@,
            *self is UnknownFault ==> r@ == "Unknown error occurred"@,
            *self is NotConnected ==> r@ == "Robot is not connected"@,
    {
        match self {
            RobotError::PickFault => "Unable to pick",
            RobotError::PlaceFault => "Unable to place",
            RobotError::UnknownFault => "Unknown error occurred",
            RobotError::NotConnected => "Robot is not connected",
        }
    }
}

impl Robot {
    /// Constructs a robot: state `Ready`, action `Idle`, location at the
    /// origin, and a freshly generated identifier. The identifier is a random
    /// 128-bit value rendered as 36 characters, so collisions between robots
    /// are negligible; uniqueness is probabilistic, not proved.
    pub fn new() -> (r: Robot)
        ensures
            r.state == State::Ready,
            r.action == Action::Idle,
            r.location == Location(0, 0, 0),
            r.id@.len() == 36,
    {
        Robot {
            id: crate::rng::fresh_id(),
            state: State::Ready,
            location: Location(0, 0, 0),
            action: Action::Idle,
        }
    }

    /// Runs one resolution cycle on the current action: draws one random
    /// number and overwrites `state` with the resolver's outcome for it.
    /// Nothing else is touched: `id`, `location` and `action` are unchanged.
    pub fn simulate(&mut self)
        ensures
            final(self).id == old(self).id,
            final(self).location == old(self).location,
            final(self).action == old(self).action,
            old(self).action is Idle ==> final(self).state == State::Ready,
            old(self).action is Picking ==> final(self).state == State::Complete
                || final(self).state == State::Faulted(RobotError::PickFault),
            old(self).action is Placing ==> final(self).state == State::Complete
                || final(self).state == State::Faulted(RobotError::PlaceFault),
            old(self).action is GoingHome ==> final(self).state == State::Complete
                || final(self).state == State::Faulted(RobotError::UnknownFault),
    {
        let draw: u32 = crate::rng::random_draw();
        self.state = resolve(self.action, draw);
    }

    /// Commands the robot home: sets the action to `GoingHome` and resolves
    /// once. Succeeds exactly when the resolution completed; a homing fault
    /// surfaces as `UnknownFault`. On a disconnected robot nothing changes
    /// and the command fails with `NotConnected`.
    pub fn home(&mut self) -> (r: Result<(), RobotError>)
        ensures
            final(self).id == old(self).id,
            final(self).location == old(self).location,
            old(self).state is Disconnected ==> *final(self) == *old(self)
                && r == Err::<(), RobotError>(RobotError::NotConnected),
            !(old(self).state is Disconnected) ==> final(self).action == Action::GoingHome
                && (final(self).state == State::Complete
                    || final(self).state == State::Faulted(RobotError::UnknownFault))
                && (r is Ok <==> final(self).state == State::Complete)
                && (r is Err ==> r == Err::<(), RobotError>(RobotError::UnknownFault)),
    {
        if matches!(self.state, State::Disconnected) {
            return Err(RobotError::NotConnected);
        }
        self.action = Action::GoingHome;
        self.simulate();
        match self.state {
            State::Faulted(err) => Err(err),
            _ => Ok(()),
        }
    }

    /// Commands a pick at the target location: sets the action to `Picking`
    /// and resolves once. Succeeds exactly when the resolution completed; a
    /// pick fault surfaces as `PickFault`. The target is accepted but does
    /// not move the robot or bias the outcome, so `location` is unchanged.
    /// On a disconnected robot nothing changes and the command fails with
    /// `NotConnected`.
    pub fn pick(&mut self, _location: Location) -> (r: Result<(), RobotError>)
        ensures
            final(self).id == old(self).id,
            final(self).location == old(self).location,
            old(self).state is Disconnected ==> *final(self) == *old(self)
                && r == Err::<(), RobotError>(RobotError::NotConnected),
            !(old(self).state is Disconnected) ==> final(self).action == Action::Picking
                && (final(self).state == State::Complete
                    || final(self).state == State::Faulted(RobotError::PickFault))
                && (r is Ok <==> final(self).state == State::Complete)
                && (r is Err ==> r == Err::<(), RobotError>(RobotError::PickFault)),
    {
        if matches!(self.state, State::Disconnected) {
            return Err(RobotError::NotConnected);
        }
        self.action = Action::Picking;
        self.simulate();
        match self.state {
            State::Faulted(err) => Err(err),
            _ => Ok(()),
        }
    }

    /// Commands a place at the target location: sets the action to `Placing`
    /// and resolves once. Succeeds exactly when the resolution completed; a
    /// place fault surfaces as `PlaceFault`. The target is accepted but does
    /// not move the robot or bias the outcome, so `location` is unchanged.
    /// On a disconnected robot nothing changes and the command fails with
    /// `NotConnected`.
    pub fn place(&mut self, _location: Location) -> (r: Result<(), RobotError>)
        ensures
            final(self).id == old(self).id,
            final(self).location == old(self).location,
            old(self).state is Disconnected ==> *final(self) == *old(self)
                && r == Err::<(), RobotError>(RobotError::NotConnected),
            !(old(self).state is Disconnected) ==> final(self).action == Action::Placing
                && (final(self).state == State::Complete
                    || final(self).state == State::Faulted(RobotError::PlaceFault))
                && (r is Ok <==> final(self).state == State::Complete)
                && (r is Err ==> r == Err::<(), RobotError>(RobotError::PlaceFault)),
    {
        if matches!(self.state, State::Disconnected) {
            return Err(RobotError::NotConnected);
        }
        self.action = Action::Placing;
        self.simulate();
        match self.state {
            State::Faulted(err) => Err(err),
            _ => Ok(()),
        }
    }

    /// Disconnects the robot. Design choice for the otherwise-open teardown
    /// operation: the robot enters the terminal `Disconnected` state, the
    /// call always succeeds and is idempotent, and every later command fails
    /// with `NotConnected` without touching the robot. `id`, `location` and
    /// `action` are unchanged.
    pub fn disconnect(&mut self) -> (r: Result<(), RobotError>)
        ensures
            final(self).id == old(self).id,
            final(self).location == old(self).location,
            final(self).action == old(self).action,
            final(self).state == State::Disconnected,
            r == Ok::<(), RobotError>(()),
    {
        self.state = State::Disconnected;
        Ok(())
    }
}

} // verus!
