//! The key-lifecycle state machine.
//!
//! Each event method of [`CiemFsm`] performs exactly the transition that
//! [`step`] prescribes, and [`step`] is shown to agree with the transition
//! table [`listed`] row for row.

use vstd::prelude::*;

verus! {

/// Errors of a refused lifecycle event.
#[derive(Debug, PartialEq, Eq, Structural)]
pub enum FsmError {
    /// The event is not allowed in the current state.
    InvalidTransition,
    /// The key's usage budget is exhausted.
    UsageExceeded,
}

/// The lifecycle of the one key held by a trust anchor.
#[derive(Clone, Copy, PartialEq, Eq, Debug, Structural)]
pub enum KeyState {
    Empty,
    Created,
    Bound,
    Active,
    Expired,
    Revoked,
    Zeroized,
}

/// The events that drive the lifecycle.
#[derive(Clone, Copy, PartialEq, Eq, Debug, Structural)]
pub enum FsmEvent {
    Generate,
    Bind,
    Authorize,
    Use,
    Revoke,
    Zeroize,
}

/// The maximum number of successful uses of one key.
pub const MAX_USAGE: u32 = 1000;

/// The abstract state of the machine: the lifecycle state and the usage count.
pub struct FsmView {
    pub state: KeyState,
    pub usage: nat,
}

impl FsmView {
    /// The usage count never exceeds the budget.
    pub open spec fn wf(self) -> bool {
        self.usage <= MAX_USAGE
    }
}

/// The state of a machine that has seen no event.
pub open spec fn initial_view() -> FsmView {
    FsmView { state: KeyState::Empty, usage: 0 }
}

/// The transition table: `from --event--> to` is one of its rows.
pub open spec fn listed(from: KeyState, event: FsmEvent, to: KeyState) -> bool {
    ||| from == KeyState::Empty && event == FsmEvent::Generate && to == KeyState::Created
    ||| from == KeyState::Created && event == FsmEvent::Bind && to == KeyState::Bound
    ||| from == KeyState::Bound && event == FsmEvent::Authorize && to == KeyState::Active
    ||| from == KeyState::Active && event == FsmEvent::Use && to == KeyState::Active
    ||| from == KeyState::Active && event == FsmEvent::Use && to == KeyState::Expired
    ||| from == KeyState::Active && event == FsmEvent::Revoke && to == KeyState::Revoked
    ||| event == FsmEvent::Zeroize && to == KeyState::Zeroized
}

/// One transition: the state after `event` and whether the event succeeded.
pub open spec fn step(v: FsmView, event: FsmEvent) -> (FsmView, Result<(), FsmError>) {
    match (v.state, event) {
        (_, FsmEvent::Zeroize) => (FsmView { state: KeyState::Zeroized, usage: 0 }, Ok(())),
        (KeyState::Empty, FsmEvent::Generate) => (FsmView { state: KeyState::Created, ..v }, Ok(())),
        (KeyState::Created, FsmEvent::Bind) => (FsmView { state: KeyState::Bound, ..v }, Ok(())),
        (KeyState::Bound, FsmEvent::Authorize) => (FsmView { state: KeyState::Active, ..v }, Ok(())),
        (KeyState::Active, FsmEvent::Use) => {
            if v.usage < MAX_USAGE {
                (FsmView { usage: v.usage + 1, ..v }, Ok(()))
            } else {
                (FsmView { state: KeyState::Expired, ..v }, Err(FsmError::UsageExceeded))
            }
        },
        (KeyState::Active, FsmEvent::Revoke) => (FsmView { state: KeyState::Revoked, ..v }, Ok(())),
        _ => (v, Err(FsmError::InvalidTransition)),
    }
}

/// The state reached from `v` by the events in order.
pub open spec fn run(v: FsmView, events: Seq<FsmEvent>) -> FsmView
    decreases events.len(),
{
    if events.len() == 0 {
        v
    } else {
        step(run(v, events.drop_last()), events.last()).0
    }
}

/// The state reached from `v` by `n` use events.
pub open spec fn run_uses(v: FsmView, n: nat) -> FsmView
    decreases n,
{
    if n == 0 {
        v
    } else {
        step(run_uses(v, (n - 1) as nat), FsmEvent::Use).0
    }
}

/// A step that leaves `v` unchanged and fails with `e`.
pub open spec fn refused(v: FsmView, e: FsmError) -> (FsmView, Result<(), FsmError>) {
    (v, Err(e))
}

/// `v` with `k` more uses counted.
pub open spec fn used(v: FsmView, k: nat) -> FsmView {
    FsmView { usage: v.usage + k, ..v }
}

/// The key in `Expired` with the whole budget used.
pub open spec fn exhausted() -> FsmView {
    FsmView { state: KeyState::Expired, usage: MAX_USAGE as nat }
}

/// The lifecycle state machine of one key.
#[derive(Debug)]
pub struct CiemFsm {
    state: KeyState,
    usage: u32,
    epoch: u64,
}

impl View for CiemFsm {
    type V = FsmView;

    closed spec fn view(&self) -> FsmView {
        FsmView { state: self.state, usage: self.usage as nat }
    }
}

impl CiemFsm {
    /// The maximum number of successful uses of one key.
    pub const MAX_USAGE: u32 = MAX_USAGE;

    /// A machine in the `Empty` state with no usage.
    pub fn new() -> (r: Self)
        ensures
            r@ == initial_view(),
    {
        CiemFsm { state: KeyState::Empty, usage: 0, epoch: 0 }
    }

    /// The `generate` event: `Empty` to `Created`.
    pub fn on_generate(&mut self) -> (r: Result<(), FsmError>)
        ensures
            (final(self)@, r) == step(old(self)@, FsmEvent::Generate),
    {
        match self.state {
            KeyState::Empty => {
                self.state = KeyState::Created;
                Ok(())
            },
            _ => Err(FsmError::InvalidTransition),
        }
    }

    /// The `bind` event: `Created` to `Bound`.
    pub fn on_bind(&mut self) -> (r: Result<(), FsmError>)
        ensures
            (final(self)@, r) == step(old(self)@, FsmEvent::Bind),
    {
        match self.state {
            KeyState::Created => {
                self.state = KeyState::Bound;
                Ok(())
            },
            _ => Err(FsmError::InvalidTransition),
        }
    }

    /// The `authorize` event: `Bound` to `Active`.
    pub fn on_authorize(&mut self) -> (r: Result<(), FsmError>)
        ensures
            (final(self)@, r) == step(old(self)@, FsmEvent::Authorize),
    {
        match self.state {
            KeyState::Bound => {
                self.state = KeyState::Active;
                Ok(())
            },
            _ => Err(FsmError::InvalidTransition),
        }
    }

    /// The `use` event: counts one use while the budget lasts; the use that
    /// finds it exhausted expires the key.
    pub fn on_use(&mut self) -> (r: Result<(), FsmError>)
        ensures
            (final(self)@, r) == step(old(self)@, FsmEvent::Use),
    {
        match self.state {
            KeyState::Active => {
                if self.usage < MAX_USAGE {
                    self.usage = self.usage + 1;
                    Ok(())
                } else {
                    self.state = KeyState::Expired;
                    Err(FsmError::UsageExceeded)
                }
            },
            _ => Err(FsmError::InvalidTransition),
        }
    }

    /// The `revoke` event: `Active` to `Revoked`.
    pub fn on_revoke(&mut self) -> (r: Result<(), FsmError>)
        ensures
            (final(self)@, r) == step(old(self)@, FsmEvent::Revoke),
    {
        match self.state {
            KeyState::Active => {
                self.state = KeyState::Revoked;
                Ok(())
            },
            _ => Err(FsmError::InvalidTransition),
        }
    }

    /// The `zeroize` event: from any state to `Zeroized`, usage cleared.
    pub fn on_zeroize(&mut self)
        ensures
            final(self)@ == step(old(self)@, FsmEvent::Zeroize).0,
            step(old(self)@, FsmEvent::Zeroize).1 == Ok::<(), FsmError>(()),
    {
        self.state = KeyState::Zeroized;
        self.usage = 0;
    }

    /// The current lifecycle state.
    pub fn state(&self) -> (r: KeyState)
        ensures
            r == self@.state,
    {
        self.state
    }
}

impl Default for CiemFsm {
    fn default() -> (r: Self)
        ensures
            r@ == initial_view(),
    {
        Self::new()
    }
}

/// Every transition keeps the usage count within the budget.
pub proof fn lemma_step_preserves_wf(v: FsmView, event: FsmEvent)
    requires
        v.wf(),
    ensures
        step(v, event).0.wf(),
{
}

/// A step succeeds exactly on a row of the table and then lands on that row's
/// target; an event that is no row leaves the state unchanged and fails with
/// `InvalidTransition`.
pub proof fn lemma_step_follows_table(v: FsmView, event: FsmEvent)
    ensures
        step(v, event).1 is Ok ==> listed(v.state, event, step(v, event).0.state),
        step(v, event).1 is Ok <==> (exists|to: KeyState| listed(v.state, event, to)) && !(
        v.state == KeyState::Active && event == FsmEvent::Use && v.usage >= MAX_USAGE),
        !(exists|to: KeyState| listed(v.state, event, to)) ==> step(v, event) == (
        v,
        Err::<(), FsmError>(FsmError::InvalidTransition),
        ),
{
    if event == FsmEvent::Zeroize {
        assert(listed(v.state, event, KeyState::Zeroized));
    } else {
        match (v.state, event) {
            (KeyState::Empty, FsmEvent::Generate) => assert(listed(v.state, event, KeyState::Created)),
            (KeyState::Created, FsmEvent::Bind) => assert(listed(v.state, event, KeyState::Bound)),
            (KeyState::Bound, FsmEvent::Authorize) => assert(listed(v.state, event, KeyState::Active)),
            (KeyState::Active, FsmEvent::Use) => assert(listed(v.state, event, KeyState::Active)),
            (KeyState::Active, FsmEvent::Revoke) => assert(listed(v.state, event, KeyState::Revoked)),
            _ => {},
        }
    }
}

/// Along any sequence of events, every successful step is a row of the table
/// and every event that is no row leaves the state unchanged.
pub proof fn lemma_run_follows_table(v: FsmView, events: Seq<FsmEvent>, i: int)
    requires
        0 <= i < events.len(),
    ensures
        run(v, events.take(i + 1)) == step(run(v, events.take(i)), events[i]).0,
        step(run(v, events.take(i)), events[i]).1 is Ok ==> listed(
            run(v, events.take(i)).state,
            events[i],
            run(v, events.take(i + 1)).state,
        ),
        !(exists|to: KeyState| listed(run(v, events.take(i)).state, events[i], to)) ==> run(
            v,
            events.take(i + 1),
        ) == run(v, events.take(i)),
{
    assert(events.take(i + 1).drop_last() =~= events.take(i));
    lemma_step_follows_table(run(v, events.take(i)), events[i]);
}

/// From `Bound`, one authorize succeeds and enters `Active`; a second one fails
/// with `InvalidTransition` and changes nothing.
pub proof fn lemma_single_authorization(v: FsmView)
    requires
        v.state == KeyState::Bound,
    ensures
        step(v, FsmEvent::Authorize).1 == Ok::<(), FsmError>(()),
        step(v, FsmEvent::Authorize).0.state == KeyState::Active,
        step(step(v, FsmEvent::Authorize).0, FsmEvent::Authorize) == refused(
            step(v, FsmEvent::Authorize).0,
            FsmError::InvalidTransition,
        ),
{
}

/// From an active key with usage `u`, each of the next `MAX_USAGE - u` uses
/// succeeds and adds exactly one; the next use expires the key with
/// `UsageExceeded`; every later use fails with `InvalidTransition`.
pub proof fn lemma_usage_budget(v: FsmView, k: nat)
    requires
        v.wf(),
        v.state == KeyState::Active,
    ensures
        k < MAX_USAGE - v.usage ==> step(run_uses(v, k), FsmEvent::Use) == (
        used(v, k + 1),
        Ok::<(), FsmError>(()),
        ),
        k <= MAX_USAGE - v.usage ==> run_uses(v, k) == used(v, k),
        k == MAX_USAGE - v.usage ==> step(run_uses(v, k), FsmEvent::Use) == (
        exhausted(),
        Err::<(), FsmError>(FsmError::UsageExceeded),
        ),
        k > MAX_USAGE - v.usage ==> run_uses(v, k).state == KeyState::Expired,
        k > MAX_USAGE - v.usage ==> step(run_uses(v, k), FsmEvent::Use) == refused(
            run_uses(v, k),
            FsmError::InvalidTransition,
        ),
    decreases k,
{
    if k > 0 {
        lemma_usage_budget(v, (k - 1) as nat);
    }
}

} // verus!
