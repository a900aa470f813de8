//! The tablet handle: the public facade that owns the snapshot, the
//! observer slot and the lifecycle flag, and folds delivered notifications
//! into them.
//!
//! The platform glue that owns the real stylus connection performs the
//! outside work (binding, switching delivery on and off, receiving driver
//! callbacks) and hands this module plain values: the outcome of each
//! request, and one raw notification per callback.

use vstd::prelude::*;

use crate::EasyTabError;
use crate::EasyTabResult;
use crate::events::RawNotification;
use crate::events::WinTabEvent;
use crate::events::spec_translate;
use crate::events::translate;
use crate::events::translated_events;
use crate::observer::TabObserver;
use crate::state::SharedState;
use crate::state::spec_apply;
use crate::state::spec_apply_all;

verus! {

/// Which of several attached digitizers a handle binds to.
#[derive(Clone, Copy, Debug, PartialEq, Eq, Structural)]
pub enum WinTabletIndex {
    /// The platform's default digitizer.
    Default,
    /// The digitizer at the given index.
    Index(i32),
}

impl Default for WinTabletIndex {
    /// The platform's default digitizer.
    fn default() -> (r: WinTabletIndex)
        ensures
            r == WinTabletIndex::Default,
    {
        WinTabletIndex::Default
    }
}

/// The initialisation options for the tablet.
#[derive(Clone, Copy, Debug, PartialEq, Eq, Structural)]
pub struct EasyTabOptions {
    /// When the bound device is disconnected and one is connected again,
    /// try to re-initialise against the new device.
    pub retry_on_change: bool,
    /// Which attached digitizer to bind to.
    pub index: WinTabletIndex,
}

impl EasyTabOptions {
    /// The options a handle gets when none are given.
    pub open spec fn spec_default() -> EasyTabOptions {
        EasyTabOptions { retry_on_change: false, index: WinTabletIndex::Default }
    }
}

impl Default for EasyTabOptions {
    /// No retry on device change, the platform's default digitizer.
    fn default() -> (r: EasyTabOptions)
        ensures
            r == EasyTabOptions::spec_default(),
    {
        EasyTabOptions { retry_on_change: false, index: WinTabletIndex::Default }
    }
}

/// A pollable stylus handle: the current snapshot, the options it was
/// bound with, whether delivery is on, and at most one observer.
pub struct EasyTablet<O: TabObserver> {
    state: SharedState,
    opts: EasyTabOptions,
    enabled: bool,
    on: Option<O>,
}

impl<O: TabObserver> EasyTablet<O> {
    /// The current snapshot.
    pub closed spec fn spec_state(&self) -> SharedState {
        self.state
    }

    /// The options the handle was bound with.
    pub closed spec fn spec_opts(&self) -> EasyTabOptions {
        self.opts
    }

    /// Whether the handle has asked the platform for delivery.
    pub closed spec fn spec_enabled(&self) -> bool {
        self.enabled
    }

    /// The registered observer, if any.
    pub closed spec fn spec_observer(&self) -> Option<O> {
        self.on
    }

    /// Completes binding to the platform's stylus subsystem, with default
    /// options. `bound` is the platform's answer to the bind request.
    pub fn init(bound: Result<(), String>) -> (r: EasyTabResult<EasyTablet<O>>)
        ensures
            bound is Ok ==> (r matches Ok(t) && t.spec_state() == SharedState::spec_default()
                && t.spec_opts() == EasyTabOptions::spec_default() && !t.spec_enabled()
                && t.spec_observer() is None),
            bound matches Err(m) ==> (r matches Err(e) && e == EasyTabError::Init(m)),
    {
        EasyTablet::init_options(EasyTabOptions::default(), bound)
    }

    /// Completes binding to the platform's stylus subsystem. `bound` is the
    /// platform's answer to the bind request: on success the handle starts
    /// from the default snapshot, with delivery off and no observer; on
    /// refusal nothing is built and the platform's account is returned.
    pub fn init_options(opts: EasyTabOptions, bound: Result<(), String>) -> (r: EasyTabResult<
        EasyTablet<O>,
    >)
        ensures
            bound is Ok ==> (r matches Ok(t) && t.spec_state() == SharedState::spec_default()
                && t.spec_opts() == opts && !t.spec_enabled() && t.spec_observer() is None),
            bound matches Err(m) ==> (r matches Err(e) && e == EasyTabError::Init(m)),
    {
        match bound {
            Ok(_) => Ok(
                EasyTablet { state: SharedState::default(), opts, enabled: false, on: None },
            ),
            Err(m) => Err(EasyTabError::Init(m)),
        }
    }

    /// Records the platform's answer to a request to start delivery. On
    /// success only the lifecycle flag moves; on refusal nothing moves at
    /// all, so the handle is never partially enabled.
    pub fn enable(&mut self, outcome: Result<(), String>) -> (r: EasyTabResult<()>)
        ensures
            outcome is Ok ==> r is Ok && final(self).spec_enabled() && final(self).spec_state()
                == old(self).spec_state() && final(self).spec_opts() == old(self).spec_opts()
                && final(self).spec_observer() == old(self).spec_observer(),
            outcome matches Err(m) ==> (r matches Err(e) && e == EasyTabError::Enable(m)
                && *final(self) == *old(self)),
    {
        match outcome {
            Ok(_) => {
                self.enabled = true;
                Ok(())
            },
            Err(m) => Err(EasyTabError::Enable(m)),
        }
    }

    /// Records the platform's answer to a request to stop delivery. The
    /// snapshot is left at its last values: disabling only stops future
    /// delivery, it never resets position or pressure.
    pub fn disable(&mut self, outcome: Result<(), String>) -> (r: EasyTabResult<()>)
        ensures
            outcome is Ok ==> r is Ok && !final(self).spec_enabled() && final(self).spec_state()
                == old(self).spec_state() && final(self).spec_opts() == old(self).spec_opts()
                && final(self).spec_observer() == old(self).spec_observer(),
            outcome matches Err(m) ==> (r matches Err(e) && e == EasyTabError::Enable(m)
                && *final(self) == *old(self)),
    {
        match outcome {
            Ok(_) => {
                self.enabled = false;
                Ok(())
            },
            Err(m) => Err(EasyTabError::Enable(m)),
        }
    }

    /// Registers `observer` and hands back the one it replaces: the last
    /// writer wins, and every later event goes to the new observer alone.
    pub fn on(&mut self, observer: O) -> (prev: Option<O>)
        ensures
            final(self).spec_observer() == Some(observer),
            prev == old(self).spec_observer(),
            final(self).spec_state() == old(self).spec_state(),
            final(self).spec_enabled() == old(self).spec_enabled(),
            final(self).spec_opts() == old(self).spec_opts(),
    {
        let prev = self.on.take();
        self.on = Some(observer);
        prev
    }

    /// Receives one raw driver notification: checks its origin, translates
    /// it, folds the event into the snapshot, and then hands the same event
    /// to the observer, which therefore always sees the updated snapshot.
    ///
    /// A notification whose claimed origin is not the bound connection is
    /// reported as a fault and changes nothing; an unrecognized kind is a
    /// valid no-op.
    pub fn deliver(&mut self, origin_check: bool, raw: &RawNotification) -> (r: EasyTabResult<
        (),
    >)
        ensures
            !origin_check ==> (r matches Err(e) && e == EasyTabError::ProtocolFault
                && *final(self) == *old(self)),
            origin_check ==> r is Ok,
            origin_check && spec_translate(*raw) is None ==> *final(self) == *old(self),
            origin_check ==> final(self).spec_enabled() == old(self).spec_enabled()
                && final(self).spec_opts() == old(self).spec_opts(),
            origin_check ==> (old(self).spec_observer() matches Some(a)
                ==> (final(self).spec_observer() matches Some(b)
                && (final(self).spec_state(), b.observed())
                == spec_deliver(old(self).spec_state(), a.observed(), *raw))),
            origin_check && old(self).spec_observer() is None ==> (final(self).spec_observer()
                is None && final(self).spec_state() == spec_deliver(
                old(self).spec_state(),
                Seq::<WinTabEvent>::empty(),
                *raw,
            ).0),
    {
        match translate(origin_check, raw) {
            Err(e) => Err(e),
            Ok(None) => Ok(()),
            Ok(Some(event)) => {
                self.state.apply(event);
                match &mut self.on {
                    Some(observer) => {
                        observer.notify(event);
                    },
                    None => {},
                }
                Ok(())
            },
        }
    }

    /// Re-runs the binding step after the platform reported the bound
    /// device lost and produced a new connection. On success the snapshot
    /// starts over and delivery is off again, but the registered observer
    /// and the configured options are kept; on refusal nothing moves.
    pub fn rebind(&mut self, bound: Result<(), String>) -> (r: EasyTabResult<()>)
        ensures
            bound is Ok ==> r is Ok && final(self).spec_state() == SharedState::spec_default()
                && !final(self).spec_enabled() && final(self).spec_opts() == old(self).spec_opts()
                && final(self).spec_observer() == old(self).spec_observer(),
            bound matches Err(m) ==> (r matches Err(e) && e == EasyTabError::Init(m)
                && *final(self) == *old(self)),
    {
        match bound {
            Ok(_) => {
                self.state = SharedState::default();
                self.enabled = false;
                Ok(())
            },
            Err(m) => Err(EasyTabError::Init(m)),
        }
    }

    /// The current snapshot, as one value: never blocks, never fails.
    pub fn read_state(&self) -> (r: SharedState)
        ensures
            r == self.spec_state(),
    {
        self.state
    }

    /// Whether a finger or stylus is activating the digitizer.
    pub fn active(&self) -> (r: bool)
        ensures
            r == self.spec_state().active,
    {
        self.state.active
    }

    /// The x position where the finger or stylus last made contact with the
    /// digitizer.
    pub fn x(&self) -> (r: i32)
        ensures
            r == self.spec_state().x,
    {
        self.state.x
    }

    /// The y position where the finger or stylus last made contact with the
    /// digitizer.
    pub fn y(&self) -> (r: i32)
        ensures
            r == self.spec_state().y,
    {
        self.state.y
    }

    /// The pressure of the finger or stylus on the digitizer, in
    /// driver-native units. No event in the current vocabulary writes it.
    pub fn pressure(&self) -> (r: u32)
        ensures
            r == self.spec_state().pressure,
    {
        self.state.pressure
    }

    /// Whether the handle has asked the platform for delivery.
    pub fn enabled(&self) -> (r: bool)
        ensures
            r == self.spec_enabled(),
    {
        self.enabled
    }

    /// The options the handle was bound with.
    pub fn options(&self) -> (r: &EasyTabOptions)
        ensures
            *r == self.spec_opts(),
    {
        &self.opts
    }
}

/// What one raw notification does to a snapshot and an observer's record:
/// a recognized notification folds its event into the snapshot and appends
/// the same event to the record; any other notification leaves both alone.
pub open spec fn spec_deliver(
    s: SharedState,
    log: Seq<WinTabEvent>,
    raw: RawNotification,
) -> (SharedState, Seq<WinTabEvent>) {
    match spec_translate(raw) {
        Some(event) => (spec_apply(s, event), log.push(event)),
        None => (s, log),
    }
}

/// Folds a sequence of raw notifications, oldest first.
pub open spec fn spec_deliver_all(
    s: SharedState,
    log: Seq<WinTabEvent>,
    raws: Seq<RawNotification>,
) -> (SharedState, Seq<WinTabEvent>)
    decreases raws.len(),
{
    if raws.len() == 0 {
        (s, log)
    } else {
        let step = spec_deliver(s, log, raws[0]);
        spec_deliver_all(step.0, step.1, raws.drop_first())
    }
}

/// Delivery only appends to an observer's record: after any sequence of
/// notifications the record is what it was, followed by exactly the
/// translated events, in delivery order. What an observer saw before
/// registration or replacement is never rewritten.
pub proof fn lemma_delivery_appends(
    s: SharedState,
    log: Seq<WinTabEvent>,
    raws: Seq<RawNotification>,
)
    ensures
        spec_deliver_all(s, log, raws).1 == log + translated_events(raws),
    decreases raws.len(),
{
    if raws.len() == 0 {
        assert(log + translated_events(raws) =~= log);
    } else {
        let rest = raws.drop_first();
        match spec_translate(raws[0]) {
            Some(event) => {
                lemma_delivery_appends(spec_apply(s, event), log.push(event), rest);
                assert(log.push(event) + translated_events(rest) =~= log + (seq![event]
                    + translated_events(rest)));
            },
            None => {
                lemma_delivery_appends(s, log, rest);
            },
        }
    }
}

/// The snapshot after a sequence of notifications is the fold of exactly
/// the translated events, whatever the observer's record was: state moves
/// one whole event at a time, and only by recognized notifications.
pub proof fn lemma_delivery_folds_translated_events(
    s: SharedState,
    log: Seq<WinTabEvent>,
    raws: Seq<RawNotification>,
)
    ensures
        spec_deliver_all(s, log, raws).0 == spec_apply_all(s, translated_events(raws)),
    decreases raws.len(),
{
    if raws.len() == 0 {
    } else {
        let rest = raws.drop_first();
        match spec_translate(raws[0]) {
            Some(event) => {
                lemma_delivery_folds_translated_events(spec_apply(s, event), log.push(event), rest);
                assert((seq![event] + translated_events(rest)).drop_first() =~= translated_events(
                    rest,
                ));
                assert((seq![event] + translated_events(rest))[0] == event);
            },
            None => {
                lemma_delivery_folds_translated_events(s, log, rest);
            },
        }
    }
}

/// A full contact seen from the default snapshot: begin, button down at
/// `(x, y)`, button up there, end. The observer sees exactly the four
/// canonical events in that order, and the snapshot ends inactive at
/// `(x, y)` with the pressure untouched.
pub proof fn lemma_full_contact_round(x: i32, y: i32)
    ensures
        spec_deliver_all(
            SharedState::spec_default(),
            Seq::<WinTabEvent>::empty(),
            seq![
                RawNotification::StylusDown,
                RawNotification::StylusButtonDown(x, y),
                RawNotification::StylusButtonUp(x, y),
                RawNotification::StylusUp,
            ],
        ) == ((SharedState { active: false, x, y, pressure: 0 }), seq![
            WinTabEvent::StylusActive,
            WinTabEvent::StylusButtonDown(x, y),
            WinTabEvent::StylusButtonUp(x, y),
            WinTabEvent::StylusInactive,
        ]),
{
    reveal_with_fuel(spec_deliver_all, 5);
    let raws = seq![
        RawNotification::StylusDown,
        RawNotification::StylusButtonDown(x, y),
        RawNotification::StylusButtonUp(x, y),
        RawNotification::StylusUp,
    ];
    assert(raws.drop_first() =~= seq![
        RawNotification::StylusButtonDown(x, y),
        RawNotification::StylusButtonUp(x, y),
        RawNotification::StylusUp,
    ]);
    assert(raws.drop_first().drop_first() =~= seq![
        RawNotification::StylusButtonUp(x, y),
        RawNotification::StylusUp,
    ]);
    assert(raws.drop_first().drop_first().drop_first() =~= seq![RawNotification::StylusUp]);
    assert(raws.drop_first().drop_first().drop_first().drop_first()
        =~= Seq::<RawNotification>::empty());
    assert(Seq::<WinTabEvent>::empty().push(WinTabEvent::StylusActive).push(
        WinTabEvent::StylusButtonDown(x, y),
    ).push(WinTabEvent::StylusButtonUp(x, y)).push(WinTabEvent::StylusInactive) =~= seq![
        WinTabEvent::StylusActive,
        WinTabEvent::StylusButtonDown(x, y),
        WinTabEvent::StylusButtonUp(x, y),
        WinTabEvent::StylusInactive,
    ]);
}

} // verus!
