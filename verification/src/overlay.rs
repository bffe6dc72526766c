//! The overlay window: the corner it snaps to, the position it was dragged
//! to, whether it is shown, and what showing and hiding it involves.

use vstd::prelude::*;

verus! {

/// A corner of the work area.
#[derive(Clone, Copy, Debug, PartialEq, Eq, Structural)]
pub enum OverlayCorner {
    TopLeft,
    TopRight,
    BottomLeft,
    BottomRight,
}

/// A position on the desktop in physical pixels.
#[derive(Clone, Copy, Debug, PartialEq, Eq, Structural)]
pub struct OverlayPosition {
    pub x: i32,
    pub y: i32,
}

/// A size in physical pixels.
#[derive(Clone, Copy, Debug, PartialEq, Eq, Structural)]
pub struct OverlaySize {
    pub width: u32,
    pub height: u32,
}

/// The part of a monitor that is free of task bars and docks.
#[derive(Clone, Copy, Debug, PartialEq, Eq, Structural)]
pub struct WorkArea {
    pub position: OverlayPosition,
    pub size: OverlaySize,
}

/// Where to put the overlay when it is shown.
#[derive(Clone, Copy, Debug, PartialEq, Eq, Structural)]
pub enum Placement {
    /// At the position it was last dragged to.
    Restore(OverlayPosition),
    /// In this corner of the work area.
    Snap(OverlayCorner),
}

/// What to do with the overlay window.
#[derive(Clone, Copy, Debug, PartialEq, Eq, Structural)]
pub enum OverlayChange {
    /// Hide it.
    Hide,
    /// Show it, place it, give it the focus and keep it on top.
    Show(Placement),
    /// It is shown already: give it the focus and keep it on top.
    Focus,
}

/// The horizontal position of a window of `window` size in `corner` of `area`.
pub open spec fn corner_x(area: WorkArea, window: OverlaySize, corner: OverlayCorner) -> int {
    match corner {
        OverlayCorner::TopLeft | OverlayCorner::BottomLeft => area.position.x as int,
        OverlayCorner::TopRight | OverlayCorner::BottomRight => area.position.x + area.size.width
            - window.width,
    }
}

/// The vertical position of a window of `window` size in `corner` of `area`.
pub open spec fn corner_y(area: WorkArea, window: OverlaySize, corner: OverlayCorner) -> int {
    match corner {
        OverlayCorner::TopLeft | OverlayCorner::TopRight => area.position.y as int,
        OverlayCorner::BottomLeft | OverlayCorner::BottomRight => area.position.y
            + area.size.height - window.height,
    }
}

/// Whether `value` is a coordinate that the desktop has.
pub open spec fn is_coordinate(value: int) -> bool {
    i32::MIN <= value <= i32::MAX
}

/// The size to place a window by: its own where it is known, else that of
/// the work area.
pub open spec fn placed_size(area: WorkArea, window: Option<OverlaySize>) -> OverlaySize {
    match window {
        Some(size) => size,
        None => area.size,
    }
}

/// The position that puts the overlay into `corner` of the work area, so
/// that it stays clear of task bars and docks. A window whose size is not
/// known is placed as if it filled the work area. There is no position
/// where a coordinate lies outside the desktop.
pub fn snap_overlay_to_corner(
    area: WorkArea,
    window: Option<OverlaySize>,
    corner: OverlayCorner,
) -> (out: Option<OverlayPosition>)
    ensures
        out is Some <==> is_coordinate(corner_x(area, placed_size(area, window), corner))
            && is_coordinate(corner_y(area, placed_size(area, window), corner)),
        out matches Some(position) ==> position.x == corner_x(
            area,
            placed_size(area, window),
            corner,
        ) && position.y == corner_y(area, placed_size(area, window), corner),
{
    let size = match window {
        Some(size) => size,
        None => area.size,
    };
    let left: i64 = area.position.x as i64;
    let top: i64 = area.position.y as i64;
    let right: i64 = left + area.size.width as i64 - size.width as i64;
    let bottom: i64 = top + area.size.height as i64 - size.height as i64;
    let (x, y) = match corner {
        OverlayCorner::TopLeft => (left, top),
        OverlayCorner::TopRight => (right, top),
        OverlayCorner::BottomLeft => (left, bottom),
        OverlayCorner::BottomRight => (right, bottom),
    };
    if x < -0x8000_0000 || x > 0x7fff_ffff || y < -0x8000_0000 || y > 0x7fff_ffff {
        None
    } else {
        Some(OverlayPosition { x: x as i32, y: y as i32 })
    }
}

/// What is known of the overlay.
pub struct OverlayModel {
    pub corner: OverlayCorner,
    pub last_position: Option<OverlayPosition>,
    pub visible: bool,
}

impl OverlayModel {
    /// Where the overlay goes when it is shown: back to where it was dragged
    /// to, or into its corner.
    pub open spec fn placement(self) -> Placement {
        match self.last_position {
            Some(position) => Placement::Restore(position),
            None => Placement::Snap(self.corner),
        }
    }
}

/// The state of the overlay window.
#[derive(Debug)]
pub struct OverlayState {
    corner: OverlayCorner,
    last_position: Option<OverlayPosition>,
    is_visible: bool,
}

impl View for OverlayState {
    type V = OverlayModel;

    closed spec fn view(&self) -> OverlayModel {
        OverlayModel {
            corner: self.corner,
            last_position: self.last_position,
            visible: self.is_visible,
        }
    }
}

impl OverlayState {
    /// The state of an overlay that is hidden, was never dragged and snaps
    /// to `initial_corner`.
    pub fn new(initial_corner: OverlayCorner) -> (out: Self)
        ensures
            out@ == (OverlayModel { corner: initial_corner, last_position: None, visible: false }),
    {
        OverlayState { corner: initial_corner, last_position: None, is_visible: false }
    }

    /// The corner that the overlay snaps to.
    pub fn current_corner(&self) -> (out: OverlayCorner)
        ensures
            out == self@.corner,
    {
        self.corner
    }

    /// Makes the overlay snap to `corner`.
    pub fn set_corner(&mut self, corner: OverlayCorner)
        ensures
            final(self)@ == (OverlayModel { corner, ..old(self)@ }),
    {
        self.corner = corner;
    }

    /// The position that the overlay was last dragged to.
    pub fn last_position(&self) -> (out: Option<OverlayPosition>)
        ensures
            out == self@.last_position,
    {
        self.last_position
    }

    /// Takes note that the overlay was dragged to `position`.
    pub fn set_last_position(&mut self, position: OverlayPosition)
        ensures
            final(self)@ == (OverlayModel { last_position: Some(position), ..old(self)@ }),
    {
        self.last_position = Some(position);
    }

    /// Forgets where the overlay was dragged to.
    pub fn clear_last_position(&mut self)
        ensures
            final(self)@ == (OverlayModel { last_position: None, ..old(self)@ }),
    {
        self.last_position = None;
    }

    /// Whether the overlay is shown.
    pub fn is_visible(&self) -> (out: bool)
        ensures
            out == self@.visible,
    {
        self.is_visible
    }

    /// Takes note that the overlay is shown or hidden.
    pub fn set_visible(&mut self, visible: bool)
        ensures
            final(self)@ == (OverlayModel { visible, ..old(self)@ }),
    {
        self.is_visible = visible;
    }
}

/// Where to put the overlay when it is shown: at the position it was last
/// dragged to, otherwise in its corner.
pub fn position_overlay_window(state: &OverlayState) -> (out: Placement)
    ensures
        out == state@.placement(),
{
    match state.last_position() {
        Some(position) => Placement::Restore(position),
        None => Placement::Snap(state.current_corner()),
    }
}

/// Shows the overlay if it is hidden and hides it if it is shown.
pub fn toggle_overlay_window(state: &mut OverlayState) -> (out: OverlayChange)
    ensures
        final(state)@ == (OverlayModel { visible: !old(state)@.visible, ..old(state)@ }),
        out == if old(state)@.visible {
            OverlayChange::Hide
        } else {
            OverlayChange::Show(old(state)@.placement())
        },
{
    if state.is_visible() {
        state.set_visible(false);
        OverlayChange::Hide
    } else {
        let placement = position_overlay_window(state);
        state.set_visible(true);
        OverlayChange::Show(placement)
    }
}

/// Shows or hides the overlay as `visible` says, whether or not it is shown
/// already.
pub fn set_overlay_visibility(state: &mut OverlayState, visible: bool) -> (out: OverlayChange)
    ensures
        final(state)@ == (OverlayModel { visible, ..old(state)@ }),
        out == if visible {
            OverlayChange::Show(old(state)@.placement())
        } else {
            OverlayChange::Hide
        },
{
    if visible {
        let placement = position_overlay_window(state);
        state.set_visible(true);
        OverlayChange::Show(placement)
    } else {
        state.set_visible(false);
        OverlayChange::Hide
    }
}

/// Brings the overlay to the front: shows and places it if it is hidden,
/// and gives it the focus either way. It is never hidden by this.
pub fn focus_overlay_window(state: &mut OverlayState) -> (out: OverlayChange)
    ensures
        final(state)@ == (OverlayModel { visible: true, ..old(state)@ }),
        out == if old(state)@.visible {
            OverlayChange::Focus
        } else {
            OverlayChange::Show(old(state)@.placement())
        },
{
    if state.is_visible() {
        OverlayChange::Focus
    } else {
        let placement = position_overlay_window(state);
        state.set_visible(true);
        OverlayChange::Show(placement)
    }
}

/// Moves the overlay to `corner` for good: it snaps there from now on, and
/// the position it was dragged to is forgotten.
pub fn set_overlay_corner(state: &mut OverlayState, corner: OverlayCorner)
    ensures
        final(state)@ == (OverlayModel { corner, last_position: None, ..old(state)@ }),
        final(state)@.placement() == Placement::Snap(corner),
{
    state.set_corner(corner);
    state.clear_last_position();
}

/// The corner that the overlay snaps to.
pub fn get_overlay_corner(state: &OverlayState) -> (out: OverlayCorner)
    ensures
        out == state@.corner,
{
    state.current_corner()
}

} // verus!
