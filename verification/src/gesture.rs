//! The begin/set/end gesture protocol.
//!
//! Every write a slider makes to the host's parameter store is
//! bracketed by a begin-edit and an end-edit notification, and at most
//! one gesture may be in flight across the whole widget population.
//! The lock here is that single token; the step function checks every
//! event against it and turns the accepted ones into relays for the
//! store, rejecting the rest without touching the lock.

use vstd::prelude::*;

use crate::ratio::Ratio;
use crate::SliderError;

verus! {

/// What an accepted event asks a slider to do to its parameter.
#[derive(Clone, Copy, Debug, PartialEq, Eq, Structural)]
pub enum ParamAction {
    Begin,
    SetValue(Ratio),
    End,
}

/// One queued gesture event: the slider it targets and the action.
/// For `Set`, the carried ratio has already been clamped to `[0, 1]`
/// by the interpreter that queued it; the protocol does not reclamp.
#[derive(Clone, Copy, Debug, PartialEq, Eq, Structural)]
pub struct ParamEvent {
    pub id: u64,
    pub action: ParamAction,
}

impl ParamEvent {
    pub fn begin(id: u64) -> (r: Self)
        ensures
            r == (ParamEvent { id, action: ParamAction::Begin }),
    {
        ParamEvent { id, action: ParamAction::Begin }
    }

    pub fn set(id: u64, norm_val: Ratio) -> (r: Self)
        ensures
            r == (ParamEvent { id, action: ParamAction::SetValue(norm_val) }),
    {
        ParamEvent { id, action: ParamAction::SetValue(norm_val) }
    }

    pub fn end(id: u64) -> (r: Self)
        ensures
            r == (ParamEvent { id, action: ParamAction::End }),
    {
        ParamEvent { id, action: ParamAction::End }
    }
}

/// The call an accepted event is relayed to the external parameter
/// store as.  The unverified edge performs exactly these, in the order
/// they are returned.
#[derive(Clone, Copy, Debug, PartialEq, Eq, Structural)]
pub enum StoreRelay {
    BeginEdit(u64),
    SetNormalized(u64, Ratio),
    EndEdit(u64),
}

/// The process-wide gesture lock: the slider currently holding the
/// only outstanding gesture, if any.
#[derive(Clone, Copy, Debug)]
pub struct NIHCurrentParam(pub Option<u64>);

impl Default for NIHCurrentParam {
    /// The lock starts idle.
    fn default() -> (r: Self)
        ensures
            r.0 is None,
    {
        NIHCurrentParam(None)
    }
}

impl NIHCurrentParam {
    /// The holder of the outstanding gesture, if one is active.
    pub fn current(&self) -> (r: Option<u64>)
        ensures
            r == self.0,
    {
        self.0
    }
}

/// The lock after one event is processed.
///
/// Only three transitions exist: an idle lock is taken by `Begin`, a
/// lock held by the event's own slider stays held over `Set`, and is
/// released by `End`.  Every other combination is a protocol violation
/// and leaves the lock exactly as it was.
pub open spec fn lock_step(cur: Option<u64>, e: ParamEvent) -> Option<u64> {
    match e.action {
        ParamAction::Begin => if cur is None {
            Some(e.id)
        } else {
            cur
        },
        ParamAction::SetValue(_) => cur,
        ParamAction::End => if cur == Some(e.id) {
            None
        } else {
            cur
        },
    }
}

/// What one event yields: the store relay it is accepted as, or the
/// violation it is rejected with.
pub open spec fn relay_of(cur: Option<u64>, e: ParamEvent) -> Result<StoreRelay, SliderError> {
    match e.action {
        ParamAction::Begin => if cur is None {
            Ok(StoreRelay::BeginEdit(e.id))
        } else {
            Err(SliderError::ProtocolViolation)
        },
        ParamAction::SetValue(v) => if cur == Some(e.id) {
            Ok(StoreRelay::SetNormalized(e.id, v))
        } else {
            Err(SliderError::ProtocolViolation)
        },
        ParamAction::End => if cur == Some(e.id) {
            Ok(StoreRelay::EndEdit(e.id))
        } else {
            Err(SliderError::ProtocolViolation)
        },
    }
}

/// The lock after a whole queue of events is processed in order.
pub open spec fn lock_run(cur: Option<u64>, evts: Seq<ParamEvent>) -> Option<u64>
    decreases evts.len(),
{
    if evts.len() == 0 {
        cur
    } else {
        lock_step(lock_run(cur, evts.drop_last()), evts.last())
    }
}

/// Processes one gesture event against the lock.
///
/// An accepted event moves the lock as `lock_step` says and hands back
/// the relay for the store; a rejected one returns the violation and
/// leaves the lock untouched.
pub fn param_step(current: &mut NIHCurrentParam, evt: &ParamEvent) -> (r: Result<
    StoreRelay,
    SliderError,
>)
    ensures
        final(current).0 == lock_step(old(current).0, *evt),
        r == relay_of(old(current).0, *evt),
{
    match evt.action {
        ParamAction::Begin => {
            if current.0.is_some() {
                Err(SliderError::ProtocolViolation)
            } else {
                current.0 = Some(evt.id);
                Ok(StoreRelay::BeginEdit(evt.id))
            }
        },
        ParamAction::SetValue(v) => {
            match current.0 {
                Some(owner) => {
                    if owner == evt.id {
                        Ok(StoreRelay::SetNormalized(evt.id, v))
                    } else {
                        Err(SliderError::ProtocolViolation)
                    }
                },
                None => Err(SliderError::ProtocolViolation),
            }
        },
        ParamAction::End => {
            match current.0 {
                Some(owner) => {
                    if owner == evt.id {
                        current.0 = None;
                        Ok(StoreRelay::EndEdit(evt.id))
                    } else {
                        Err(SliderError::ProtocolViolation)
                    }
                },
                None => Err(SliderError::ProtocolViolation),
            }
        },
    }
}

/// Processes one frame's queue of gesture events, in order.
///
/// Each event yields either its store relay or its violation; a
/// violation rejects that event alone and the processing continues, so
/// malformed input can never wedge or corrupt the lock.
pub fn param_system(current: &mut NIHCurrentParam, events: &Vec<ParamEvent>) -> (r: Vec<
    Result<StoreRelay, SliderError>,
>)
    ensures
        r@.len() == events@.len(),
        final(current).0 == lock_run(old(current).0, events@),
        forall|i: int|
            0 <= i < events@.len() ==> r@[i] == relay_of(
                lock_run(old(current).0, events@.take(i)),
                events@[i],
            ),
{
    let ghost init: Option<u64> = current.0;
    let mut out: Vec<Result<StoreRelay, SliderError>> = Vec::new();
    let mut i: usize = 0;
    while i < events.len()
        invariant
            0 <= i <= events@.len(),
            out@.len() == i,
            current.0 == lock_run(init, events@.take(i as int)),
            forall|j: int|
                0 <= j < i ==> out@[j] == relay_of(lock_run(init, events@.take(j)), events@[j]),
        decreases events@.len() - i,
    {
        let ghost prefix = events@.take(i as int);
        let res = param_step(current, &events[i]);
        out.push(res);
        proof {
            assert(events@.take(i + 1).drop_last() =~= prefix);
            assert(events@.take(i + 1).last() == events@[i as int]);
        }
        i = i + 1;
    }
    proof {
        assert(events@.take(events@.len() as int) =~= events@);
    }
    out
}

/// Mutual exclusion of gestures: while a slider holds the lock, any
/// `Begin` (from any slider, the holder included) and any `Set` or
/// `End` from a different slider is rejected as a protocol violation,
/// and the holder's gesture stays active.
pub proof fn lemma_gesture_mutual_exclusion(cur: Option<u64>, a: u64, e: ParamEvent)
    requires
        cur == Some(a),
        e.action is Begin || e.id != a,
    ensures
        lock_step(cur, e) == cur,
        relay_of(cur, e) == Err::<StoreRelay, SliderError>(SliderError::ProtocolViolation),
{
}

/// The same, along a whole queue: if the lock is held by `a` after
/// some prefix, an offending event at that point changes nothing and
/// is reported as a violation.
pub proof fn lemma_gesture_mutual_exclusion_run(
    init: Option<u64>,
    evts: Seq<ParamEvent>,
    i: int,
    a: u64,
)
    requires
        0 <= i < evts.len(),
        lock_run(init, evts.take(i)) == Some(a),
        evts[i].action is Begin || evts[i].id != a,
    ensures
        lock_run(init, evts.take(i + 1)) == Some(a),
        relay_of(lock_run(init, evts.take(i)), evts[i]) == Err::<StoreRelay, SliderError>(
            SliderError::ProtocolViolation,
        ),
{
    assert(evts.take(i + 1).drop_last() =~= evts.take(i));
    assert(evts.take(i + 1).last() == evts[i]);
}

/// The edit-session discipline the external store demands: a value
/// write or an end-edit is only ever relayed for the slider that holds
/// the lock, and a begin-edit only from an idle lock — so the relays
/// this module emits are always properly bracketed per handle.
pub proof fn lemma_relay_bracketing(cur: Option<u64>, e: ParamEvent)
    requires
        relay_of(cur, e) is Ok,
    ensures
        e.action is Begin ==> cur is None && relay_of(cur, e) == Ok::<StoreRelay, SliderError>(
            StoreRelay::BeginEdit(e.id),
        ),
        !(e.action is Begin) ==> cur == Some(e.id),
{
}

/// A scroll tick's gesture is atomic: from an idle lock, its
/// `Begin`/`Set`/`End` triple is accepted in full and leaves the lock
/// idle again, with no leftover active gesture.
pub proof fn lemma_scroll_gesture_atomic(id: u64, v: Ratio)
    ensures
        lock_step(None::<u64>, ParamEvent { id, action: ParamAction::Begin }) == Some(id),
        lock_step(Some(id), ParamEvent { id, action: ParamAction::SetValue(v) }) == Some(id),
        lock_step(Some(id), ParamEvent { id, action: ParamAction::End }) == None::<u64>,
        relay_of(None::<u64>, ParamEvent { id, action: ParamAction::Begin }) == Ok::<
            StoreRelay,
            SliderError,
        >(StoreRelay::BeginEdit(id)),
        relay_of(Some(id), ParamEvent { id, action: ParamAction::SetValue(v) }) == Ok::<
            StoreRelay,
            SliderError,
        >(StoreRelay::SetNormalized(id, v)),
        relay_of(Some(id), ParamEvent { id, action: ParamAction::End }) == Ok::<
            StoreRelay,
            SliderError,
        >(StoreRelay::EndEdit(id)),
{
}

} // verus!
