//! The overlay's input and redraw state: zoom and lock of the magnifier,
//! redraw scheduling, the picked colour and when to leave.

use vstd::prelude::*;

verus! {

/// Smallest zoom scale, in tenths (2.5x); the lens follows the cursor here.
pub const MIN_ZOOM_SCALE: i64 = 25;

/// Change of the zoom scale per scroll step, in tenths.
pub const ZOOM_STEP: i64 = 5;

/// Largest zoom scale, in tenths (32x).
pub const MAX_ZOOM_SCALE: i64 = 320;

/// Linux input code of the left mouse button.
pub const BUTTON_LEFT: u32 = 0x110;

/// Linux input code of the right mouse button.
pub const BUTTON_RIGHT: u32 = 0x111;

/// Which way a scroll changes the zoom.
#[derive(Clone, Copy, Debug, PartialEq, Eq)]
pub enum ZoomDirection {
    In,
    Out,
}

/// The sign of a smooth (touchpad) scroll amount; `Forward` also stands for
/// an amount that is not a number.
#[derive(Clone, Copy, Debug, PartialEq, Eq)]
pub enum SmoothScroll {
    Backward,
    Still,
    Forward,
}

/// A pointer event on the overlay surface, as far as the picker's decisions
/// depend on it. The cursor position itself is kept by the caller.
#[derive(Clone, Copy, Debug, PartialEq, Eq)]
pub enum PointerInput {
    /// The pointer entered the surface.
    Enter,
    /// The pointer moved.
    Motion,
    /// A vertical scroll; `None` when it changes nothing.
    Scroll(Option<ZoomDirection>),
    /// A button went down.
    Press(u32),
    /// Anything else.
    Other,
}

/// What the caller has to do after a pointer event.
#[derive(Clone, Copy, Debug, PartialEq, Eq)]
pub struct PointerAction {
    /// Move the lens anchor to the cursor.
    pub snap_lens: bool,
    /// Copy this colour to the clipboard.
    pub copy: Option<[u8; 4]>,
}

/// The state of the colour picker overlay.
#[derive(Clone, Copy, Debug)]
pub struct PickerState {
    /// Surface width in pixels.
    pub width: u32,
    /// Surface height in pixels.
    pub height: u32,
    /// No configure event has been seen yet.
    pub first_configure: bool,
    /// The keyboard focus is on the overlay.
    pub keyboard_focus: bool,
    /// The magnified area stays put while the cursor moves inside it.
    pub locked: bool,
    /// Zoom of the magnifier, in tenths.
    pub zoom_scale: i64,
    /// Something changed since the last frame was drawn.
    pub needs_redraw: bool,
    /// A frame callback from the compositor is outstanding.
    pub frame_pending: bool,
    /// The colour under the crosshair in the last frame.
    pub picked_color: Option<[u8; 4]>,
    /// The overlay is to close.
    pub exit: bool,
    /// Number of draws so far.
    pub frame_count: u64,
}

/// The zoom scale after one scroll step.
pub open spec fn zoom_after(zoom: i64, dir: ZoomDirection) -> i64 {
    match dir {
        ZoomDirection::In => if zoom + ZOOM_STEP < MAX_ZOOM_SCALE {
            (zoom + ZOOM_STEP) as i64
        } else {
            MAX_ZOOM_SCALE
        },
        ZoomDirection::Out => if zoom - ZOOM_STEP > MIN_ZOOM_SCALE {
            (zoom - ZOOM_STEP) as i64
        } else {
            MIN_ZOOM_SCALE
        },
    }
}

/// Which way a scroll event zooms: a notched wheel by the sign of its steps
/// (up zooms in), otherwise a smooth scroll by the sign of its amount.
pub open spec fn spec_scroll_direction(discrete: i32, smooth: SmoothScroll) -> Option<ZoomDirection> {
    if discrete < 0 {
        Some(ZoomDirection::In)
    } else if discrete > 0 {
        Some(ZoomDirection::Out)
    } else {
        match smooth {
            SmoothScroll::Backward => Some(ZoomDirection::In),
            SmoothScroll::Forward => Some(ZoomDirection::Out),
            SmoothScroll::Still => None,
        }
    }
}

/// Decides the zoom direction of a vertical scroll event.
pub fn scroll_direction(discrete: i32, smooth: SmoothScroll) -> (res: Option<ZoomDirection>)
    ensures
        res == spec_scroll_direction(discrete, smooth),
{
    if discrete != 0 {
        if discrete < 0 {
            Some(ZoomDirection::In)
        } else {
            Some(ZoomDirection::Out)
        }
    } else {
        match smooth {
            SmoothScroll::Backward => Some(ZoomDirection::In),
            SmoothScroll::Forward => Some(ZoomDirection::Out),
            SmoothScroll::Still => None,
        }
    }
}

/// The state and action after one pointer event.
pub open spec fn spec_pointer_event(s: PickerState, input: PointerInput) -> (PickerState, PointerAction) {
    match input {
        PointerInput::Enter | PointerInput::Motion => (
            PickerState { needs_redraw: true, ..s },
            PointerAction { snap_lens: !s.locked, copy: None },
        ),
        PointerInput::Scroll(Some(dir)) => {
            let zoom = zoom_after(s.zoom_scale, dir);
            let locked = zoom > MIN_ZOOM_SCALE;
            (
                PickerState { zoom_scale: zoom, locked, needs_redraw: true, ..s },
                PointerAction { snap_lens: !locked, copy: None },
            )
        },
        PointerInput::Press(button) => (
            PickerState {
                exit: s.exit || button == BUTTON_LEFT || button == BUTTON_RIGHT,
                ..s
            },
            PointerAction {
                snap_lens: false,
                copy: if button == BUTTON_LEFT { s.picked_color } else { None },
            },
        ),
        _ => (s, PointerAction { snap_lens: false, copy: None }),
    }
}

impl PickerState {
    /// The zoom lies within its bounds, the magnifier is locked exactly when
    /// it is zoomed beyond the smallest scale, and a frame is only awaited
    /// after one has been drawn.
    pub open spec fn wf(&self) -> bool {
        &&& MIN_ZOOM_SCALE <= self.zoom_scale <= MAX_ZOOM_SCALE
        &&& self.locked == (self.zoom_scale > MIN_ZOOM_SCALE)
        &&& self.frame_pending ==> self.picked_color is Some
    }

    /// The state the overlay starts in on a surface of the screenshot's size.
    pub open spec fn spec_new(width: u32, height: u32) -> PickerState {
        PickerState {
            width,
            height,
            first_configure: true,
            keyboard_focus: false,
            locked: false,
            zoom_scale: MIN_ZOOM_SCALE,
            needs_redraw: false,
            frame_pending: false,
            picked_color: None,
            exit: false,
            frame_count: 0,
        }
    }

    /// Creates the start state for a surface `width` x `height`.
    pub fn new(width: u32, height: u32) -> (s: PickerState)
        ensures
            s == PickerState::spec_new(width, height),
            s.wf(),
    {
        PickerState {
            width,
            height,
            first_configure: true,
            keyboard_focus: false,
            locked: false,
            zoom_scale: MIN_ZOOM_SCALE,
            needs_redraw: false,
            frame_pending: false,
            picked_color: None,
            exit: false,
            frame_count: 0,
        }
    }

    /// Handles one pointer event on the overlay surface.
    pub fn pointer_event(&mut self, input: PointerInput) -> (act: PointerAction)
        requires
            old(self).wf(),
        ensures
            final(self).wf(),
            (*final(self), act) == spec_pointer_event(*old(self), input),
    {
        match input {
            PointerInput::Enter | PointerInput::Motion => {
                self.needs_redraw = true;
                PointerAction { snap_lens: !self.locked, copy: None }
            },
            PointerInput::Scroll(Some(dir)) => {
                match dir {
                    ZoomDirection::In => {
                        let z = self.zoom_scale + ZOOM_STEP;
                        self.zoom_scale = if z < MAX_ZOOM_SCALE { z } else { MAX_ZOOM_SCALE };
                    },
                    ZoomDirection::Out => {
                        let z = self.zoom_scale - ZOOM_STEP;
                        self.zoom_scale = if z > MIN_ZOOM_SCALE { z } else { MIN_ZOOM_SCALE };
                    },
                }
                self.locked = self.zoom_scale > MIN_ZOOM_SCALE;
                self.needs_redraw = true;
                PointerAction { snap_lens: !self.locked, copy: None }
            },
            PointerInput::Press(button) => {
                let mut copy = None;
                if button == BUTTON_LEFT {
                    copy = self.picked_color;
                    self.exit = true;
                }
                if button == BUTTON_RIGHT {
                    self.exit = true;
                }
                PointerAction { snap_lens: false, copy }
            },
            _ => PointerAction { snap_lens: false, copy: None },
        }
    }

    /// After a batch of pointer events: draw now when something changed and no
    /// frame callback is outstanding.
    pub fn should_draw(&self) -> (res: bool)
        ensures
            res == (self.needs_redraw && !self.frame_pending),
    {
        self.needs_redraw && !self.frame_pending
    }

    /// The compositor is ready for a new frame; returns whether to draw one.
    pub fn frame_done(&mut self) -> (draw: bool)
        requires
            old(self).wf(),
        ensures
            final(self).wf(),
            *final(self) == (PickerState { frame_pending: false, ..*old(self) }),
            draw == old(self).needs_redraw,
    {
        self.frame_pending = false;
        self.needs_redraw
    }

    /// Starts drawing a frame; returns whether the surface has an area to
    /// render into.
    pub fn begin_draw(&mut self) -> (render: bool)
        requires
            old(self).wf(),
            old(self).frame_count < u64::MAX,
        ensures
            final(self).wf(),
            *final(self) == (PickerState {
                needs_redraw: false,
                frame_count: (old(self).frame_count + 1) as u64,
                ..*old(self)
            }),
            render == (old(self).width != 0 && old(self).height != 0),
    {
        self.needs_redraw = false;
        self.frame_count = self.frame_count + 1;
        self.width != 0 && self.height != 0
    }

    /// Records a rendered frame whose crosshair shows `color`; the frame now
    /// waits for the compositor's callback.
    pub fn finish_draw(&mut self, color: [u8; 4])
        requires
            old(self).wf(),
        ensures
            final(self).wf(),
            *final(self) == (PickerState {
                picked_color: Some(color),
                frame_pending: true,
                ..*old(self)
            }),
    {
        self.picked_color = Some(color);
        self.frame_pending = true;
    }

    /// Handles a configure event with the compositor's suggested size (zero
    /// keeps the current size); returns whether to draw the first frame now.
    pub fn configure(&mut self, new_width: u32, new_height: u32) -> (draw: bool)
        requires
            old(self).wf(),
        ensures
            final(self).wf(),
            *final(self) == (PickerState {
                width: if new_width != 0 { new_width } else { old(self).width },
                height: if new_height != 0 { new_height } else { old(self).height },
                first_configure: false,
                ..*old(self)
            }),
            draw == old(self).first_configure,
    {
        if new_width != 0 {
            self.width = new_width;
        }
        if new_height != 0 {
            self.height = new_height;
        }
        let first = self.first_configure;
        if first {
            self.first_configure = false;
        }
        first
    }

    /// The keyboard focus entered (`true`) or left (`false`) the overlay.
    pub fn keyboard_focus_changed(&mut self, focused: bool)
        requires
            old(self).wf(),
        ensures
            final(self).wf(),
            *final(self) == (PickerState { keyboard_focus: focused, ..*old(self) }),
    {
        self.keyboard_focus = focused;
    }

    /// A key went down; Escape closes the overlay.
    pub fn key_pressed(&mut self, is_escape: bool)
        requires
            old(self).wf(),
        ensures
            final(self).wf(),
            *final(self) == (PickerState { exit: old(self).exit || is_escape, ..*old(self) }),
    {
        if is_escape {
            self.exit = true;
        }
    }

    /// The compositor closed the overlay surface.
    pub fn closed(&mut self)
        requires
            old(self).wf(),
        ensures
            final(self).wf(),
            *final(self) == (PickerState { exit: true, ..*old(self) }),
    {
        self.exit = true;
    }
}

/// The state after a batch of pointer events, handled in order.
pub open spec fn run_pointer_events(s: PickerState, inputs: Seq<PointerInput>) -> PickerState
    decreases inputs.len(),
{
    if inputs.len() == 0 {
        s
    } else {
        run_pointer_events(spec_pointer_event(s, inputs[0]).0, inputs.drop_first())
    }
}

/// Every pointer event keeps the state well formed, never undoes a decision
/// to close, and moves the zoom by at most one step in the scroll's direction.
pub proof fn lemma_pointer_event_step(s: PickerState, input: PointerInput)
    requires
        s.wf(),
    ensures
        spec_pointer_event(s, input).0.wf(),
        s.exit ==> spec_pointer_event(s, input).0.exit,
        input matches PointerInput::Scroll(Some(ZoomDirection::In)) ==> s.zoom_scale
            <= spec_pointer_event(s, input).0.zoom_scale <= s.zoom_scale + ZOOM_STEP,
        input matches PointerInput::Scroll(Some(ZoomDirection::Out)) ==> s.zoom_scale
            - ZOOM_STEP <= spec_pointer_event(s, input).0.zoom_scale <= s.zoom_scale,
        !(input is Scroll) ==> spec_pointer_event(s, input).0.zoom_scale == s.zoom_scale,
{
}

/// Any batch of pointer events keeps the state well formed, and once the
/// overlay is to close it stays so.
pub proof fn lemma_pointer_events_keep_invariant(s: PickerState, inputs: Seq<PointerInput>)
    requires
        s.wf(),
    ensures
        run_pointer_events(s, inputs).wf(),
        s.exit ==> run_pointer_events(s, inputs).exit,
    decreases inputs.len(),
{
    if inputs.len() > 0 {
        lemma_pointer_event_step(s, inputs[0]);
        lemma_pointer_events_keep_invariant(spec_pointer_event(s, inputs[0]).0, inputs.drop_first());
    }
}

/// Zooming in one step and out again, or out and in again, returns to the
/// same zoom unless a bound cut the first step short.
pub proof fn lemma_zoom_round_trip(zoom: i64)
    requires
        MIN_ZOOM_SCALE <= zoom <= MAX_ZOOM_SCALE,
    ensures
        zoom + ZOOM_STEP <= MAX_ZOOM_SCALE ==> zoom_after(
            zoom_after(zoom, ZoomDirection::In),
            ZoomDirection::Out,
        ) == zoom,
        zoom - ZOOM_STEP >= MIN_ZOOM_SCALE ==> zoom_after(
            zoom_after(zoom, ZoomDirection::Out),
            ZoomDirection::In,
        ) == zoom,
{
}

/// Scrolling out to the smallest zoom unlocks the magnifier and brings the
/// lens back to the cursor; any scroll that leaves the zoom above the
/// smallest scale locks it.
pub proof fn lemma_scroll_lock(s: PickerState, dir: ZoomDirection)
    requires
        s.wf(),
    ensures
        ({
            let (t, act) = spec_pointer_event(s, PointerInput::Scroll(Some(dir)));
            &&& t.zoom_scale == MIN_ZOOM_SCALE ==> !t.locked && act.snap_lens
            &&& t.zoom_scale > MIN_ZOOM_SCALE ==> t.locked && !act.snap_lens
            &&& t.needs_redraw
        }),
{
}

/// A left click after a frame was drawn copies the colour that frame showed
/// under the crosshair and closes the overlay.
pub proof fn lemma_click_copies_shown_color(s: PickerState, color: [u8; 4])
    requires
        s.wf(),
    ensures
        ({
            let drawn = PickerState { picked_color: Some(color), frame_pending: true, ..s };
            let (t, act) = spec_pointer_event(drawn, PointerInput::Press(BUTTON_LEFT));
            act.copy == Some(color) && t.exit
        }),
{
}

/// Smallest size of the shared-memory pool for the overlay's buffers
/// (a 256 x 256 ARGB surface).
pub const MIN_POOL_SIZE: usize = 262144;

/// Size of the shared-memory pool that holds the overlay's frame buffers:
/// room for three ARGB frames of the screenshot's size, but no less than
/// `MIN_POOL_SIZE`.
pub open spec fn spec_pool_size(width: u32, height: u32) -> int {
    let frames = width * height * 4 * 3;
    if frames > MIN_POOL_SIZE { frames } else { MIN_POOL_SIZE as int }
}

/// Computes the size of the shared-memory pool for frames of the
/// screenshot's size.
pub fn initial_pool_size(width: u32, height: u32) -> (res: usize)
    requires
        width * height * 4 * 3 <= usize::MAX,
    ensures
        res == spec_pool_size(width, height),
{
    assert(width * height <= width * height * 4 * 3) by (nonlinear_arith)
        requires 0 <= width * height;
    assert(0 <= width * height) by (nonlinear_arith);
    let frames = (width as usize * height as usize * 4) * 3;
    if frames > MIN_POOL_SIZE {
        frames
    } else {
        MIN_POOL_SIZE
    }
}

/// A left click copies the colour under the crosshair of the last drawn
/// frame, whether or not that frame's callback has arrived, and closes the
/// overlay; a right click closes it without copying.
pub proof fn lemma_click_copies_picked_color(s: PickerState)
    requires
        s.wf(),
    ensures
        spec_pointer_event(s, PointerInput::Press(BUTTON_LEFT)).1.copy == s.picked_color,
        spec_pointer_event(s, PointerInput::Press(BUTTON_LEFT)).0.exit,
        spec_pointer_event(s, PointerInput::Press(BUTTON_LEFT)).0.picked_color == s.picked_color,
        spec_pointer_event(s, PointerInput::Press(BUTTON_RIGHT)).1.copy is None,
        spec_pointer_event(s, PointerInput::Press(BUTTON_RIGHT)).0.exit,
{
}

} // verus!
