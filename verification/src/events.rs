//! When a drag pans the view, and which way the wheel zooms.
//!
//! The view is panned by dragging with the auxiliary button, which is most
//! often the middle one. A pointer event carries a mask of the buttons that are
//! held, one bit for each button as browsers report them; only the bit of the
//! auxiliary button counts here. [`Interaction`] follows whether a drag is
//! under way and tells the caller, for each event, what to do with its pan
//! offset. The wheel zooms by one step for each event, in the direction that
//! the sign of its vertical delta gives. The arithmetic on pointer positions
//! and on the zoom factor stays with the caller.

use vstd::prelude::*;

verus! {

/// The bit of the auxiliary button in a mask of held buttons.
pub const AUXILIARY_BUTTON: u16 = 0b100;

/// Whether the auxiliary button is among the held buttons.
pub open spec fn auxiliary_held(held_buttons: u16) -> bool {
    held_buttons & AUXILIARY_BUTTON != 0
}

/// A press starts a drag when the auxiliary button is held after it.
pub fn should_start_panning(held_buttons: u16) -> (start: bool)
    ensures
        start == auxiliary_held(held_buttons),
{
    held_buttons & AUXILIARY_BUTTON != 0
}

/// A release ends a drag when the auxiliary button is no longer held after
/// it.
pub fn should_stop_panning(held_buttons: u16) -> (stop: bool)
    ensures
        stop == !auxiliary_held(held_buttons),
{
    held_buttons & AUXILIARY_BUTTON == 0
}

/// A pointer event, as far as panning depends on it.
#[derive(Debug, Clone, Copy, PartialEq, Eq, Structural)]
pub enum PointerEvent {
    /// The pointer moved.
    Move,
    /// A button went down; `held_buttons` is the mask after the press.
    Down { held_buttons: u16 },
    /// A button went up; `held_buttons` is the mask after the release.
    Up { held_buttons: u16 },
}

/// What the caller does with its pan offset after an event.
#[derive(Debug, Clone, Copy, PartialEq, Eq, Structural)]
pub enum PanAction {
    /// Leave the pan offset and the anchor as they are.
    Idle,
    /// Take the pointer's last known position as the anchor of a drag.
    Anchor,
    /// Add the pointer's position minus the anchor to the pan offset, then
    /// take the pointer's position as the new anchor.
    Drag,
}

/// Whether a drag is under way.
#[derive(Debug, Clone, Copy, PartialEq, Eq, Structural)]
pub struct Interaction {
    pub is_panning: bool,
}

impl PointerEvent {
    /// Whether the event starts a drag.
    pub open spec fn starts_panning(self) -> bool {
        self matches PointerEvent::Down { held_buttons } && auxiliary_held(held_buttons)
    }

    /// Whether the event ends a drag.
    pub open spec fn stops_panning(self) -> bool {
        self matches PointerEvent::Up { held_buttons } && !auxiliary_held(held_buttons)
    }
}

impl Interaction {
    /// The state after `event`: a drag goes on until an event ends it, and
    /// there is none until an event starts one.
    pub open spec fn spec_next(self, event: PointerEvent) -> Interaction {
        Interaction {
            is_panning: event.starts_panning() || (self.is_panning && !event.stops_panning()),
        }
    }

    /// What the caller does on `event` in this state: it drags on a move
    /// while a drag is under way, and it sets the anchor on a press that
    /// starts a drag. Everything else leaves the pan offset alone.
    pub open spec fn spec_action(self, event: PointerEvent) -> PanAction {
        match event {
            PointerEvent::Move => if self.is_panning {
                PanAction::Drag
            } else {
                PanAction::Idle
            },
            PointerEvent::Down { held_buttons } => if auxiliary_held(held_buttons) {
                PanAction::Anchor
            } else {
                PanAction::Idle
            },
            PointerEvent::Up { .. } => PanAction::Idle,
        }
    }

    /// No drag under way.
    pub fn new() -> (interaction: Self)
        ensures
            !interaction.is_panning,
    {
        Interaction { is_panning: false }
    }

    /// The pointer moved.
    pub fn handle_mouse_move(&self) -> (action: PanAction)
        ensures
            action == self.spec_action(PointerEvent::Move),
            *self == self.spec_next(PointerEvent::Move),
    {
        if self.is_panning {
            PanAction::Drag
        } else {
            PanAction::Idle
        }
    }

    /// A button went down, and `held_buttons` are held now.
    pub fn handle_mouse_down(&mut self, held_buttons: u16) -> (action: PanAction)
        ensures
            action == old(self).spec_action(PointerEvent::Down { held_buttons }),
            *final(self) == old(self).spec_next(PointerEvent::Down { held_buttons }),
    {
        if should_start_panning(held_buttons) {
            self.is_panning = true;
            PanAction::Anchor
        } else {
            PanAction::Idle
        }
    }

    /// A button went up, and `held_buttons` are still held.
    pub fn handle_mouse_up(&mut self, held_buttons: u16) -> (action: PanAction)
        ensures
            action == old(self).spec_action(PointerEvent::Up { held_buttons }),
            *final(self) == old(self).spec_next(PointerEvent::Up { held_buttons }),
    {
        if should_stop_panning(held_buttons) {
            self.is_panning = false;
        }
        PanAction::Idle
    }

    /// Takes one event: the state moves on, and the result says what to do
    /// with the pan offset.
    pub fn handle(&mut self, event: PointerEvent) -> (action: PanAction)
        ensures
            action == old(self).spec_action(event),
            *final(self) == old(self).spec_next(event),
    {
        match event {
            PointerEvent::Move => self.handle_mouse_move(),
            PointerEvent::Down { held_buttons } => self.handle_mouse_down(held_buttons),
            PointerEvent::Up { held_buttons } => self.handle_mouse_up(held_buttons),
        }
    }
}

/// Which way one step of the wheel zooms.
#[derive(Debug, Clone, Copy, PartialEq, Eq, Structural)]
pub enum ZoomDirection {
    /// Towards the world: things get larger.
    In,
    /// Away from the world: things get smaller.
    Out,
}

/// The direction for a wheel event whose vertical delta has the sign of
/// `delta_sign`: in for a negative delta, out for any other.
pub open spec fn spec_zoom_direction(delta_sign: int) -> ZoomDirection {
    if delta_sign < 0 {
        ZoomDirection::In
    } else {
        ZoomDirection::Out
    }
}

/// Which way a wheel event zooms. `delta_sign` is negative, zero or positive
/// as the wheel's vertical delta is; how far the wheel went does not count.
pub fn zoom_direction(delta_sign: i32) -> (direction: ZoomDirection)
    ensures
        direction == spec_zoom_direction(delta_sign as int),
{
    if delta_sign < 0 {
        ZoomDirection::In
    } else {
        ZoomDirection::Out
    }
}

/// The state after a run of events, from no drag under way.
pub open spec fn state_after(events: Seq<PointerEvent>) -> Interaction
    decreases events.len(),
{
    if events.len() == 0 {
        Interaction { is_panning: false }
    } else {
        state_after(events.drop_last()).spec_next(events.last())
    }
}

/// A move changes the pan offset only while a drag is under way, and it never
/// starts or ends one.
pub proof fn lemma_move_outside_drag_is_idle(interaction: Interaction)
    ensures
        !interaction.is_panning ==> interaction.spec_action(PointerEvent::Move) == PanAction::Idle,
        interaction.spec_next(PointerEvent::Move) == interaction,
{
}

/// Only the auxiliary button counts: two masks that agree on its bit are
/// treated alike, whatever other buttons they hold.
pub proof fn lemma_other_buttons_are_ignored(interaction: Interaction, a: u16, b: u16)
    requires
        a & AUXILIARY_BUTTON == b & AUXILIARY_BUTTON,
    ensures
        interaction.spec_next(PointerEvent::Down { held_buttons: a }) == interaction.spec_next(
            PointerEvent::Down { held_buttons: b },
        ),
        interaction.spec_action(PointerEvent::Down { held_buttons: a })
            == interaction.spec_action(PointerEvent::Down { held_buttons: b }),
        interaction.spec_next(PointerEvent::Up { held_buttons: a }) == interaction.spec_next(
            PointerEvent::Up { held_buttons: b },
        ),
{
}

/// Whether the event at place `start` of `events` starts a drag that no later
/// event of the run ends.
pub open spec fn drag_from(events: Seq<PointerEvent>, start: int) -> bool {
    &&& 0 <= start < events.len()
    &&& events[start].starts_panning()
    &&& forall|k: int| start < k < events.len() ==> !(#[trigger] events[k]).stops_panning()
}

/// A drag is under way after a run of events exactly when some event of the
/// run started one and no later event ended it.
pub proof fn lemma_drag_lasts_from_press_to_release(events: Seq<PointerEvent>)
    ensures
        state_after(events).is_panning <==> exists|start: int| drag_from(events, start),
    decreases events.len(),
{
    if events.len() > 0 {
        let front = events.drop_last();
        let last = events.last();
        let end = events.len() - 1;
        lemma_drag_lasts_from_press_to_release(front);
        if state_after(events).is_panning {
            if last.starts_panning() {
                assert(drag_from(events, end));
            } else {
                let start = choose|start: int| drag_from(front, start);
                assert(events[start] == front[start]);
                assert forall|k: int| start < k < events.len() implies !(#[trigger] events[k])
                    .stops_panning() by {
                    if k < end {
                        assert(events[k] == front[k]);
                    }
                }
                assert(drag_from(events, start));
            }
        } else {
            assert forall|start: int| !drag_from(events, start) by {
                if drag_from(events, start) {
                    assert(!events[end].stops_panning() || start == end);
                    if start < end {
                        assert(front[start] == events[start]);
                        assert forall|k: int| start < k < front.len() implies !(#[trigger] front[k])
                            .stops_panning() by {
                            assert(front[k] == events[k]);
                        }
                        assert(drag_from(front, start));
                    }
                }
            }
        }
    }
}

} // verus!
