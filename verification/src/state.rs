//! The authoritative snapshot of the current stylus state, and how a
//! canonical event folds into it.

use vstd::prelude::*;

use crate::events::WinTabEvent;

verus! {

/// The current stylus state: one whole-event-at-a-time record. An activity
/// event toggles `active` alone; a button event writes `x` and `y` together;
/// nothing else ever changes a field, so no reader sees coordinates from two
/// different contacts mixed.
#[derive(Clone, Copy, Debug, PartialEq, Eq, Structural)]
pub struct SharedState {
    /// Whether a finger or stylus is activating the digitizer.
    pub active: bool,
    /// The last known contact x coordinate, in driver-native units.
    pub x: i32,
    /// The last known contact y coordinate, in driver-native units.
    pub y: i32,
    /// The last known contact pressure, in driver-native units. Reserved
    /// for packet decoding: no event in the current vocabulary writes it.
    pub pressure: u32,
}

impl SharedState {
    /// The snapshot a freshly bound handle reports, before any event.
    pub open spec fn spec_default() -> SharedState {
        SharedState { active: false, x: 0, y: 0, pressure: 0 }
    }

    /// Folds one canonical event into the snapshot.
    pub fn apply(&mut self, event: WinTabEvent)
        ensures
            *final(self) == spec_apply(*old(self), event),
    {
        match event {
            WinTabEvent::StylusActive => {
                self.active = true;
            },
            WinTabEvent::StylusInactive => {
                self.active = false;
            },
            WinTabEvent::StylusButtonDown(x, y) => {
                self.x = x;
                self.y = y;
            },
            WinTabEvent::StylusButtonUp(x, y) => {
                self.x = x;
                self.y = y;
            },
        }
    }
}

impl Default for SharedState {
    /// The default snapshot: inactive, at the origin, with no pressure.
    fn default() -> (r: SharedState)
        ensures
            r == SharedState::spec_default(),
    {
        SharedState { active: false, x: 0, y: 0, pressure: 0 }
    }
}

/// What one canonical event does to the snapshot: activity events write
/// `active` alone, button events write both coordinates and nothing else.
pub open spec fn spec_apply(s: SharedState, event: WinTabEvent) -> SharedState {
    match event {
        WinTabEvent::StylusActive => SharedState { active: true, ..s },
        WinTabEvent::StylusInactive => SharedState { active: false, ..s },
        WinTabEvent::StylusButtonDown(x, y) => SharedState { x, y, ..s },
        WinTabEvent::StylusButtonUp(x, y) => SharedState { x, y, ..s },
    }
}

/// Folds a sequence of canonical events into the snapshot, oldest first.
pub open spec fn spec_apply_all(s: SharedState, events: Seq<WinTabEvent>) -> SharedState
    decreases events.len(),
{
    if events.len() == 0 {
        s
    } else {
        spec_apply_all(spec_apply(s, events[0]), events.drop_first())
    }
}

/// A button event is atomic for the coordinates: both come from the one
/// event, and neither `active` nor `pressure` moves with them.
pub proof fn lemma_button_updates_coordinates_together(s: SharedState, x: i32, y: i32)
    ensures
        spec_apply(s, WinTabEvent::StylusButtonDown(x, y)) == (SharedState {
            active: s.active,
            x,
            y,
            pressure: s.pressure,
        }),
        spec_apply(s, WinTabEvent::StylusButtonUp(x, y)) == (SharedState {
            active: s.active,
            x,
            y,
            pressure: s.pressure,
        }),
{
}

/// No event in the canonical vocabulary writes the pressure field.
pub proof fn lemma_pressure_never_written(s: SharedState, event: WinTabEvent)
    ensures
        spec_apply(s, event).pressure == s.pressure,
{
}

/// A contact that begins, reports a button at `(x, y)` and then ends leaves
/// the snapshot inactive, holding that contact's coordinates.
pub proof fn lemma_contact_sequence(s: SharedState, x: i32, y: i32)
    ensures
        spec_apply_all(
            s,
            seq![
                WinTabEvent::StylusActive,
                WinTabEvent::StylusButtonDown(x, y),
                WinTabEvent::StylusInactive,
            ],
        ) == (SharedState { active: false, x, y, pressure: s.pressure }),
{
    reveal_with_fuel(spec_apply_all, 4);
    let events = seq![
        WinTabEvent::StylusActive,
        WinTabEvent::StylusButtonDown(x, y),
        WinTabEvent::StylusInactive,
    ];
    assert(events.drop_first() =~= seq![
        WinTabEvent::StylusButtonDown(x, y),
        WinTabEvent::StylusInactive,
    ]);
    assert(events.drop_first().drop_first() =~= seq![WinTabEvent::StylusInactive]);
    assert(events.drop_first().drop_first().drop_first() =~= Seq::<WinTabEvent>::empty());
}

} // verus!
