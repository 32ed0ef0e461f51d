//! Camera rules of the canvas: when the view is fitted automatically, what
//! is fitted (the active canvas or the whole deck), and what the mouse wheel
//! and the pan gestures do. The zoom and pan arithmetic itself is done by the
//! caller in screen units.

use vstd::prelude::*;

verus! {

/// What is fitted again on its own when the drawing area changes size. The
/// last automatic fit decides; any manual zoom or pan turns it off.
#[derive(Clone, Copy, PartialEq, Eq, Debug, Structural)]
pub enum AutoFit {
    Off,
    Active,
    All,
}

/// What to fit in this frame.
#[derive(Clone, Copy, PartialEq, Eq, Debug, Structural)]
pub enum FitTarget {
    /// The active canvas.
    Active,
    /// The whole deck.
    All,
}

/// The automatic-fit state of a viewport.
#[derive(Clone, Copy, PartialEq, Eq, Debug, Structural)]
pub struct ViewportMode {
    /// Fit the active canvas in the next frame.
    pub needs_fit: bool,
    /// What to fit again when the drawing area is resized.
    pub auto_fit: AutoFit,
}

/// The fit that an explicit request or the first frame asks for, or else the
/// one armed for a resize.
pub open spec fn spec_plan_fit(
    mode: ViewportMode,
    fit_all: bool,
    fit_active: bool,
    resized: bool,
) -> Option<FitTarget> {
    if fit_all {
        Some(FitTarget::All)
    } else if fit_active || mode.needs_fit {
        Some(FitTarget::Active)
    } else if resized {
        match mode.auto_fit {
            AutoFit::Active => Some(FitTarget::Active),
            AutoFit::All => Some(FitTarget::All),
            AutoFit::Off => None,
        }
    } else {
        None
    }
}

/// The refit mode that fitting `target` arms.
pub open spec fn spec_armed(target: FitTarget) -> AutoFit {
    match target {
        FitTarget::Active => AutoFit::Active,
        FitTarget::All => AutoFit::All,
    }
}

impl ViewportMode {
    /// A fresh viewport: it asks to be fitted and refits the active canvas on
    /// resize.
    pub fn new() -> (m: Self)
        ensures
            m.needs_fit,
            m.auto_fit == AutoFit::Active,
    {
        ViewportMode { needs_fit: true, auto_fit: AutoFit::Active }
    }

    /// Fit the active canvas again in the next frame.
    pub fn request_fit(&mut self)
        ensures
            final(self).needs_fit,
            final(self).auto_fit == old(self).auto_fit,
    {
        self.needs_fit = true;
    }

    /// The user moved the view by hand (zoom or pan): no refit on resize
    /// until a fit is asked for explicitly again.
    pub fn manual_view_change(&mut self)
        ensures
            final(self).auto_fit == AutoFit::Off,
            final(self).needs_fit == old(self).needs_fit,
    {
        self.auto_fit = AutoFit::Off;
    }

    /// A fit of `target` was carried out. A degenerate target (empty deck)
    /// is not fitted and leaves the mode alone; otherwise the pending request
    /// is consumed and the refit of that target is armed.
    pub fn record_fit(&mut self, target: FitTarget, degenerate: bool)
        ensures
            degenerate ==> *final(self) == *old(self),
            !degenerate ==> !final(self).needs_fit && final(self).auto_fit == spec_armed(
                target,
            ),
    {
        if !degenerate {
            self.needs_fit = false;
            self.auto_fit = match target {
                FitTarget::Active => AutoFit::Active,
                FitTarget::All => AutoFit::All,
            };
        }
    }

    /// A pending request to center another canvas was carried out: the new
    /// centering becomes the reference, so a later resize refits the active
    /// canvas rather than the whole deck.
    pub fn record_center(&mut self)
        ensures
            final(self).auto_fit == AutoFit::Active,
            final(self).needs_fit == old(self).needs_fit,
    {
        self.auto_fit = AutoFit::Active;
    }

    /// What to fit in this frame (see `spec_plan_fit`). `fit_all` is
    /// Ctrl+Alt+0, `fit_active` is Ctrl+0, `resized` tells whether the
    /// drawing area changed size since the previous frame.
    pub fn plan_fit(&self, fit_all: bool, fit_active: bool, resized: bool) -> (t: Option<
        FitTarget,
    >)
        ensures
            t == spec_plan_fit(*self, fit_all, fit_active, resized),
    {
        if fit_all {
            Some(FitTarget::All)
        } else if fit_active || self.needs_fit {
            Some(FitTarget::Active)
        } else if resized {
            match self.auto_fit {
                AutoFit::Active => Some(FitTarget::Active),
                AutoFit::All => Some(FitTarget::All),
                AutoFit::Off => None,
            }
        } else {
            None
        }
    }
}

/// What the mouse wheel does in one frame.
#[derive(Clone, Copy, PartialEq, Eq, Debug, Structural)]
pub enum WheelAction {
    /// The wheel is ignored.
    Ignore,
    /// Zoom, anchored at the pointer.
    Zoom,
    /// Pan by the scroll delta; with `swap` the vertical wheel delta is
    /// applied to the horizontal axis instead.
    Pan { swap: bool },
}

/// The wheel only acts over the canvas. Ctrl with a vertical wheel zooms;
/// otherwise any scroll pans along the primary axis of the deck, Shift
/// asking for the cross axis. A delta that already has a horizontal part
/// (trackpad) is applied as it comes.
pub open spec fn spec_wheel(
    hovered: bool,
    ctrl: bool,
    scroll_x_zero: bool,
    scroll_y_zero: bool,
    shift: bool,
    deck_horizontal: bool,
) -> WheelAction {
    if !hovered {
        WheelAction::Ignore
    } else if ctrl && !scroll_y_zero {
        WheelAction::Zoom
    } else if !(scroll_x_zero && scroll_y_zero) {
        WheelAction::Pan { swap: (shift != deck_horizontal) && scroll_x_zero }
    } else {
        WheelAction::Ignore
    }
}

/// Decides what the wheel does (see `spec_wheel`).
pub fn plan_wheel(
    hovered: bool,
    ctrl: bool,
    scroll_x_zero: bool,
    scroll_y_zero: bool,
    shift: bool,
    deck_horizontal: bool,
) -> (a: WheelAction)
    ensures
        a == spec_wheel(hovered, ctrl, scroll_x_zero, scroll_y_zero, shift, deck_horizontal),
{
    if !hovered {
        WheelAction::Ignore
    } else if ctrl && !scroll_y_zero {
        WheelAction::Zoom
    } else if !(scroll_x_zero && scroll_y_zero) {
        WheelAction::Pan { swap: (shift != deck_horizontal) && scroll_x_zero }
    } else {
        WheelAction::Ignore
    }
}

/// Ctrl+Alt+0 fits the whole deck and Ctrl+0 (or a pending request, such as
/// the first frame) the active canvas; without a key or request, a resize
/// refits what the last fit armed, and nothing is fitted otherwise.
pub proof fn lemma_fit_requests(mode: ViewportMode, fit_all: bool, fit_active: bool, resized: bool)
    ensures
        fit_all ==> spec_plan_fit(mode, fit_all, fit_active, resized) == Some(FitTarget::All),
        !fit_all && (fit_active || mode.needs_fit) ==> spec_plan_fit(
            mode,
            fit_all,
            fit_active,
            resized,
        ) == Some(FitTarget::Active),
        !fit_all && !fit_active && !mode.needs_fit && resized ==> spec_plan_fit(
            mode,
            fit_all,
            fit_active,
            resized,
        ) == (if mode.auto_fit == AutoFit::All {
            Some(FitTarget::All)
        } else if mode.auto_fit == AutoFit::Active {
            Some(FitTarget::Active)
        } else {
            None::<FitTarget>
        }),
        !fit_all && !fit_active && !mode.needs_fit && !resized ==> spec_plan_fit(
            mode,
            fit_all,
            fit_active,
            resized,
        ) is None,
{
}

/// The mouse wheel acts only over the canvas. Ctrl with a vertical wheel
/// zooms. Otherwise a vertical-only wheel pans along the primary axis of the
/// deck: a vertical deck keeps it vertical and a horizontal deck turns it
/// horizontal, and Shift asks for the other (cross) axis, so Shift always
/// flips the result. A delta that already has a horizontal part (trackpad)
/// is applied as it comes, never swapped. No delta, nothing.
pub proof fn lemma_wheel_axes(
    ctrl: bool,
    scroll_x_zero: bool,
    scroll_y_zero: bool,
    shift: bool,
    deck_horizontal: bool,
)
    ensures
        spec_wheel(false, ctrl, scroll_x_zero, scroll_y_zero, shift, deck_horizontal)
            == WheelAction::Ignore,
        ctrl && !scroll_y_zero ==> spec_wheel(
            true,
            ctrl,
            scroll_x_zero,
            scroll_y_zero,
            shift,
            deck_horizontal,
        ) == WheelAction::Zoom,
        spec_wheel(true, false, true, false, false, deck_horizontal) == (WheelAction::Pan {
            swap: deck_horizontal,
        }),
        spec_wheel(true, false, true, false, shift, deck_horizontal) matches WheelAction::Pan {
            swap: a,
        } && spec_wheel(true, false, true, false, !shift, deck_horizontal) matches WheelAction::Pan {
            swap: b,
        } && a != b,
        !scroll_x_zero && !(ctrl && !scroll_y_zero) ==> spec_wheel(
            true,
            ctrl,
            scroll_x_zero,
            scroll_y_zero,
            shift,
            deck_horizontal,
        ) == (WheelAction::Pan { swap: false }),
        spec_wheel(true, ctrl, true, true, shift, deck_horizontal) == WheelAction::Ignore,
{
}

/// Pointer state of the pan gesture in one frame.
#[derive(Clone, Copy, PartialEq, Eq, Debug, Structural)]
pub enum PanGesture {
    /// The view follows the drag.
    Panning,
    /// Space is held over the canvas: ready to pan.
    Ready,
    /// No pan.
    Idle,
}

/// Panning is a middle-button drag, or a primary drag while Space is held.
pub fn plan_pan(middle_dragged: bool, primary_dragged: bool, space_down: bool, hovered: bool) -> (g:
    PanGesture)
    ensures
        (g == PanGesture::Panning) == (middle_dragged || (space_down && primary_dragged)),
        g == PanGesture::Ready <==> !(middle_dragged || (space_down && primary_dragged))
            && space_down && hovered,
{
    if middle_dragged || (space_down && primary_dragged) {
        PanGesture::Panning
    } else if space_down && hovered {
        PanGesture::Ready
    } else {
        PanGesture::Idle
    }
}

/// The last automatic fit decides what a resize refits, and any manual view
/// change disarms it: after a manual zoom or pan a resize alone fits nothing
/// (unless a fit was requested); Ctrl+Alt+0 always fits the whole deck, even
/// with Ctrl+0 seen in the same frame; a fit carried out arms the refit of
/// what it fitted.
pub proof fn lemma_auto_fit_rules(mode: ViewportMode, target: FitTarget)
    ensures
        !mode.needs_fit ==> spec_plan_fit(
            ViewportMode { auto_fit: AutoFit::Off, ..mode },
            false,
            false,
            true,
        ) is None,
        spec_plan_fit(mode, true, true, true) == Some(FitTarget::All),
        ({
            let fitted = ViewportMode { needs_fit: false, auto_fit: spec_armed(target) };
            spec_plan_fit(fitted, false, false, true) == Some(target) && spec_plan_fit(
                fitted,
                false,
                false,
                false,
            ) is None
        }),
{
}

} // verus!
