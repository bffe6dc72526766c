//! The global shortcuts of the overlay: which key events count.

use vstd::prelude::*;
use crate::overlay::{
    focus_overlay_window,
    toggle_overlay_window,
    OverlayChange,
    OverlayModel,
    OverlayState,
};

verus! {

/// Time, in nanoseconds, within which a repeated press of the toggle
/// shortcut is ignored.
pub const DEBOUNCE_NANOS: u64 = 200_000_000;

/// What happened to the keys of a shortcut.
#[derive(Clone, Copy, Debug, PartialEq, Eq, Structural)]
pub enum ShortcutState {
    Pressed,
    Released,
}

/// What is remembered of the toggle shortcut: when it last took effect, in
/// nanoseconds of a clock that never runs backwards, if it ever did.
pub struct DebounceModel {
    pub last: Option<u64>,
}

impl DebounceModel {
    /// Whether a press at `now` takes effect: the first one does, and every
    /// one that comes the debounce time or more after the last that did.
    pub open spec fn accepts(self, now: u64) -> bool {
        match self.last {
            None => true,
            Some(last) => now - last >= DEBOUNCE_NANOS,
        }
    }

    /// What is remembered after a key event at `now`.
    pub open spec fn after(self, state: ShortcutState, now: u64) -> DebounceModel {
        if state == ShortcutState::Pressed && self.accepts(now) {
            DebounceModel { last: Some(now) }
        } else {
            self
        }
    }
}

/// The memory of the toggle shortcut.
#[derive(Clone, Copy, Debug)]
pub struct Debounce {
    last: Option<u64>,
}

impl View for Debounce {
    type V = DebounceModel;

    closed spec fn view(&self) -> DebounceModel {
        DebounceModel { last: self.last }
    }
}

impl Debounce {
    /// The memory of a shortcut that never took effect.
    pub fn new() -> (out: Debounce)
        ensures
            out@ == (DebounceModel { last: None }),
    {
        Debounce { last: None }
    }

    /// Whether the key event `state` at `now` toggles the overlay. Releases
    /// never do; presses do unless they repeat one that did less than the
    /// debounce time ago.
    pub fn triggers(&mut self, state: ShortcutState, now: u64) -> (out: bool)
        ensures
            out == (state == ShortcutState::Pressed && old(self)@.accepts(now)),
            final(self)@ == old(self)@.after(state, now),
    {
        if state != ShortcutState::Pressed {
            return false;
        }
        let accepted = match self.last {
            None => true,
            Some(last) => now >= last && now - last >= DEBOUNCE_NANOS,
        };
        if accepted {
            self.last = Some(now);
        }
        accepted
    }
}

/// What a key event of the toggle shortcut does to the overlay: nothing, or
/// what toggling does. A press that counts is remembered whether or not
/// there is an overlay window to toggle.
pub fn toggle_shortcut(
    debounce: &mut Debounce,
    overlay: &mut OverlayState,
    state: ShortcutState,
    now: u64,
    window_exists: bool,
) -> (out: Option<OverlayChange>)
    ensures
        final(debounce)@ == old(debounce)@.after(state, now),
        out is Some <==> window_exists && state == ShortcutState::Pressed && old(
            debounce,
        )@.accepts(now),
        out is None ==> final(overlay)@ == old(overlay)@,
        out matches Some(change) ==> final(overlay)@ == (OverlayModel {
            visible: !old(overlay)@.visible,
            ..old(overlay)@
        }) && change == if old(overlay)@.visible {
            OverlayChange::Hide
        } else {
            OverlayChange::Show(old(overlay)@.placement())
        },
{
    if debounce.triggers(state, now) && window_exists {
        Some(toggle_overlay_window(overlay))
    } else {
        None
    }
}

/// What a key event of the focus shortcut does to the overlay: nothing on a
/// release; on a press the overlay is shown if need be and gets the focus.
pub fn focus_shortcut(overlay: &mut OverlayState, state: ShortcutState) -> (out: Option<
    OverlayChange,
>)
    ensures
        out is Some <==> state == ShortcutState::Pressed,
        out is None ==> final(overlay)@ == old(overlay)@,
        out matches Some(change) ==> final(overlay)@ == (OverlayModel {
            visible: true,
            ..old(overlay)@
        }) && change == if old(overlay)@.visible {
            OverlayChange::Focus
        } else {
            OverlayChange::Show(old(overlay)@.placement())
        },
{
    if state == ShortcutState::Pressed {
        Some(focus_overlay_window(overlay))
    } else {
        None
    }
}

/// Two presses less than the debounce time apart toggle the overlay once.
pub proof fn lemma_repeated_press_is_ignored(memory: DebounceModel, first: u64, second: u64)
    requires
        memory.accepts(first),
        first <= second,
        second - first < DEBOUNCE_NANOS,
    ensures
        !memory.after(ShortcutState::Pressed, first).accepts(second),
        memory.after(ShortcutState::Pressed, first).after(ShortcutState::Pressed, second)
            == memory.after(ShortcutState::Pressed, first),
{
}

} // verus!
