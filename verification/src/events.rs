//! The raw driver vocabulary, the canonical event vocabulary, and the
//! translation between them.

use vstd::prelude::*;

use crate::EasyTabError;
use crate::EasyTabResult;

verus! {

/// A canonical stylus event: the closed vocabulary the rest of the library
/// deals in, decoupled from the driver's much wider notification set.
#[derive(Clone, Copy, Debug, PartialEq, Eq, Structural)]
pub enum WinTabEvent {
    /// The digitizer is now receiving contact or proximity.
    StylusActive,
    /// The digitizer lost contact or proximity, or the driver stopped
    /// delivering.
    StylusInactive,
    /// A stylus button went down at the given contact coordinates,
    /// in driver-native units.
    StylusButtonDown(i32, i32),
    /// A stylus button came up at the given contact coordinates,
    /// in driver-native units.
    StylusButtonUp(i32, i32),
}

/// A raw driver notification, one per callback of the platform's stylus
/// subsystem. Only the button notifications carry fields the library reads:
/// the contact coordinates, in driver-native units.
#[derive(Clone, Copy, Debug, PartialEq, Eq, Structural)]
pub enum RawNotification {
    /// Delivery was switched on.
    RealTimeStylusEnabled,
    /// Delivery was switched off or the driver shut down.
    RealTimeStylusDisabled,
    /// The stylus entered the digitizer's detection range.
    StylusInRange,
    /// The stylus left the digitizer's detection range.
    StylusOutOfRange,
    /// The stylus touched the digitizer.
    StylusDown,
    /// The stylus left the digitizer.
    StylusUp,
    /// A stylus button went down at the given coordinates.
    StylusButtonDown(i32, i32),
    /// A stylus button came up at the given coordinates.
    StylusButtonUp(i32, i32),
    /// A batch of in-air packets.
    InAirPackets,
    /// A batch of contact packets.
    Packets,
    /// Vendor-specific data.
    CustomStylusDataAdded,
    /// A system gesture.
    SystemEvent,
    /// A digitizer was attached.
    TabletAdded,
    /// A digitizer was detached.
    TabletRemoved,
    /// The driver reported an error in another plugin.
    DriverError,
    /// The screen-to-digitizer mapping changed.
    UpdateMapping,
}

/// The recognized notification kinds: the ones that stand for a canonical
/// event. Every other kind is deliberately ignored, so that notification
/// sets not enumerated here never make delivery fail.
pub open spec fn recognized(raw: RawNotification) -> bool {
    ||| raw is RealTimeStylusDisabled
    ||| raw is StylusOutOfRange
    ||| raw is StylusDown
    ||| raw is StylusUp
    ||| raw is StylusButtonDown
    ||| raw is StylusButtonUp
}

/// The canonical event a raw notification stands for: contact begin turns
/// the digitizer active; contact end, leaving range and driver shutdown turn
/// it inactive; button notifications carry their coordinates over. The
/// unrecognized kinds yield no event.
pub open spec fn spec_translate(raw: RawNotification) -> Option<WinTabEvent> {
    match raw {
        RawNotification::RealTimeStylusDisabled => Some(WinTabEvent::StylusInactive),
        RawNotification::StylusOutOfRange => Some(WinTabEvent::StylusInactive),
        RawNotification::StylusDown => Some(WinTabEvent::StylusActive),
        RawNotification::StylusUp => Some(WinTabEvent::StylusInactive),
        RawNotification::StylusButtonDown(x, y) => Some(WinTabEvent::StylusButtonDown(x, y)),
        RawNotification::StylusButtonUp(x, y) => Some(WinTabEvent::StylusButtonUp(x, y)),
        _ => None,
    }
}

/// A notification outside the recognized set never yields an event: the
/// translator's default is to ignore, never to fail.
pub proof fn lemma_unrecognized_is_ignored(raw: RawNotification)
    requires
        !recognized(raw),
    ensures
        spec_translate(raw) is None,
{
}

/// A notification inside the recognized set always yields an event: none of
/// the six recognized kinds is dropped.
pub proof fn lemma_recognized_is_translated(raw: RawNotification)
    requires
        recognized(raw),
    ensures
        spec_translate(raw) is Some,
{
}

/// The canonical events a sequence of raw notifications stands for, in
/// order: the unrecognized notifications drop out, everything else keeps
/// its place.
pub open spec fn translated_events(raws: Seq<RawNotification>) -> Seq<WinTabEvent>
    decreases raws.len(),
{
    if raws.len() == 0 {
        Seq::empty()
    } else {
        match spec_translate(raws[0]) {
            Some(event) => seq![event] + translated_events(raws.drop_first()),
            None => translated_events(raws.drop_first()),
        }
    }
}

/// Translates one raw driver notification into the canonical vocabulary.
///
/// `origin_check` says whether the notification's reported source is the
/// connection this handle is bound to. A mismatch is a broken contract in
/// the binding layer, reported as a fault rather than silently dropped.
pub fn translate(origin_check: bool, raw: &RawNotification) -> (r: EasyTabResult<
    Option<WinTabEvent>,
>)
    ensures
        origin_check ==> r == Ok::<_, EasyTabError>(spec_translate(*raw)),
        !origin_check ==> r == Err::<Option<WinTabEvent>, _>(EasyTabError::ProtocolFault),
{
    if !origin_check {
        return Err(EasyTabError::ProtocolFault);
    }
    match raw {
        RawNotification::RealTimeStylusDisabled => Ok(Some(WinTabEvent::StylusInactive)),
        RawNotification::StylusOutOfRange => Ok(Some(WinTabEvent::StylusInactive)),
        RawNotification::StylusDown => Ok(Some(WinTabEvent::StylusActive)),
        RawNotification::StylusUp => Ok(Some(WinTabEvent::StylusInactive)),
        RawNotification::StylusButtonDown(x, y) => Ok(
            Some(WinTabEvent::StylusButtonDown(*x, *y)),
        ),
        RawNotification::StylusButtonUp(x, y) => Ok(Some(WinTabEvent::StylusButtonUp(*x, *y))),
        _ => Ok(None),
    }
}

} // verus!
