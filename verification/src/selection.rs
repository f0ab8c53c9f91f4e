//! The interactive selection state machine: raw pointer and key events
//! drive a drag rectangle towards a committed selection, which keyboard
//! nudges then adjust under one of three editing modes, clamped to the
//! viewport.
//!
//! Coordinates are carried in millipixels (thousandths of a screen pixel),
//! so fractional pointer positions survive until the crop boundary rounds
//! them.

use vstd::prelude::*;

use crate::keys::KeyCode;

verus! {

/// Millipixels per pixel: one keyboard nudge moves by this much.
pub const MILLI: i64 = 1000;

/// Every coordinate this engine stores stays within this bound (about a
/// billion pixels), which keeps all its arithmetic inside `i64`.
pub const MAX_COORD: i64 = 0x100_0000_0000;

/// An anchored rectangle: `(x, y)` is the anchor and `(w, h)` the signed
/// delta to the far corner. The delta may be negative during and after a
/// drag; nothing normalizes it until the crop boundary.
#[derive(Debug, Clone, Copy, PartialEq, Eq, Structural)]
pub struct Rect {
    pub x: i64,
    pub y: i64,
    pub w: i64,
    pub h: i64,
}

impl Rect {
    /// Anchor and far corner in range; the engine keeps this invariant.
    pub open spec fn wf(self) -> bool {
        &&& -MAX_COORD <= self.x <= MAX_COORD
        &&& -MAX_COORD <= self.y <= MAX_COORD
        &&& -MAX_COORD <= self.x + self.w <= MAX_COORD
        &&& -MAX_COORD <= self.y + self.h <= MAX_COORD
    }
}

/// How keyboard nudges edit the selection.
#[derive(Debug, Clone, Copy, PartialEq, Eq, Structural)]
pub enum SelectionMode {
    /// Translate the whole rectangle.
    Move,
    /// Move only the anchor; the far corner stays.
    InverseResize,
    /// Move only the far corner; the anchor stays.
    Resize,
}

/// The axis and sense of a keyboard nudge.
#[derive(Debug, Clone, Copy, PartialEq, Eq, Structural)]
pub enum Direction {
    Up,
    Down,
    Left,
    Right,
}

/// The drag/selection lifecycle: idle (both empty), dragging, or committed.
#[derive(Debug, Clone, PartialEq, Eq, Structural)]
pub struct UserSelection {
    /// The in-progress drag, anchored at the press position.
    pub drag: Option<Rect>,
    /// The committed selection, kept verbatim from the drag that ended.
    pub selection: Option<Rect>,
}

impl Default for UserSelection {
    fn default() -> (r: UserSelection)
        ensures
            r.drag is None && r.selection is None,
    {
        UserSelection { drag: None, selection: None }
    }
}

pub open spec fn spec_clamp(v: int, lo: int, hi: int) -> int {
    if v < lo {
        lo
    } else if v > hi {
        hi
    } else {
        v
    }
}

fn clamp_i64(v: i64, lo: i64, hi: i64) -> (r: i64)
    requires
        lo <= hi,
    ensures
        r == spec_clamp(v as int, lo as int, hi as int),
{
    if v < lo {
        lo
    } else if v > hi {
        hi
    } else {
        v
    }
}

/// One nudge along the x axis: the touched edge positions are clamped to
/// `[0, width]`; the y components stay as they are.
pub open spec fn spec_nudge_x(sel: Rect, mode: SelectionMode, dx: int, width: int) -> Rect {
    match mode {
        SelectionMode::Move => {
            let nx = spec_clamp(sel.x + dx, 0, width);
            let nf = spec_clamp(sel.x + sel.w + dx, 0, width);
            Rect { x: nx as i64, y: sel.y, w: (nf - nx) as i64, h: sel.h }
        },
        SelectionMode::Resize => {
            let nf = spec_clamp(sel.x + sel.w + dx, 0, width);
            Rect { x: sel.x, y: sel.y, w: (nf - sel.x) as i64, h: sel.h }
        },
        SelectionMode::InverseResize => {
            let nx = spec_clamp(sel.x + dx, 0, width);
            Rect { x: nx as i64, y: sel.y, w: (sel.x + sel.w - nx) as i64, h: sel.h }
        },
    }
}

/// One nudge along the y axis, symmetrically.
pub open spec fn spec_nudge_y(sel: Rect, mode: SelectionMode, dy: int, height: int) -> Rect {
    match mode {
        SelectionMode::Move => {
            let ny = spec_clamp(sel.y + dy, 0, height);
            let nf = spec_clamp(sel.y + sel.h + dy, 0, height);
            Rect { x: sel.x, y: ny as i64, w: sel.w, h: (nf - ny) as i64 }
        },
        SelectionMode::Resize => {
            let nf = spec_clamp(sel.y + sel.h + dy, 0, height);
            Rect { x: sel.x, y: sel.y, w: sel.w, h: (nf - sel.y) as i64 }
        },
        SelectionMode::InverseResize => {
            let ny = spec_clamp(sel.y + dy, 0, height);
            Rect { x: sel.x, y: ny as i64, w: sel.w, h: (sel.y + sel.h - ny) as i64 }
        },
    }
}

/// A unit nudge of the selection under the given mode, inside a
/// `width x height` viewport (all in millipixels).
pub open spec fn spec_nudge(
    sel: Rect,
    mode: SelectionMode,
    dir: Direction,
    width: int,
    height: int,
) -> Rect {
    match dir {
        Direction::Left => spec_nudge_x(sel, mode, -(MILLI as int), width),
        Direction::Right => spec_nudge_x(sel, mode, MILLI as int, width),
        Direction::Up => spec_nudge_y(sel, mode, -(MILLI as int), height),
        Direction::Down => spec_nudge_y(sel, mode, MILLI as int, height),
    }
}

/// Which of the mode-driving modifier keys (the two Shifts and the two
/// Controls) are currently held. Releasing one of them falls back to the
/// `Move` mode only when none of the others is still down.
#[derive(Debug, Clone, Copy, PartialEq, Eq, Structural)]
pub struct HeldModifiers {
    pub shift_left: bool,
    pub shift_right: bool,
    pub control_left: bool,
    pub control_right: bool,
}

impl HeldModifiers {
    pub open spec fn spec_init() -> HeldModifiers {
        HeldModifiers { shift_left: false, shift_right: false, control_left: false, control_right: false }
    }

    pub open spec fn spec_none_held(self) -> bool {
        !self.shift_left && !self.shift_right && !self.control_left && !self.control_right
    }

    /// The held set after a key edge: a mode-driving key is recorded up or
    /// down; any other key leaves the set alone.
    pub open spec fn spec_with(self, key: KeyCode, pressed: bool) -> HeldModifiers {
        match key {
            KeyCode::ShiftLeft => HeldModifiers { shift_left: pressed, ..self },
            KeyCode::ShiftRight => HeldModifiers { shift_right: pressed, ..self },
            KeyCode::ControlLeft => HeldModifiers { control_left: pressed, ..self },
            KeyCode::ControlRight => HeldModifiers { control_right: pressed, ..self },
            _ => self,
        }
    }
}

/// The interactive session state: the selection lifecycle, the last known
/// pointer position, the editing mode with the modifier keys that drive
/// it, and the viewport size once known.
#[derive(Debug)]
pub struct CleaveState {
    pub selection: UserSelection,
    pub mouse_position: (i64, i64),
    pub mode: SelectionMode,
    pub held: HeldModifiers,
    pub size: Option<(i64, i64)>,
}

impl Default for CleaveState {
    fn default() -> (r: CleaveState)
        ensures
            r == CleaveState::spec_init(),
    {
        CleaveState {
            selection: UserSelection { drag: None, selection: None },
            mouse_position: (0, 0),
            mode: SelectionMode::Move,
            held: HeldModifiers {
                shift_left: false,
                shift_right: false,
                control_left: false,
                control_right: false,
            },
            size: None,
        }
    }
}

impl CleaveState {
    pub open spec fn spec_init() -> CleaveState {
        CleaveState {
            selection: UserSelection { drag: None, selection: None },
            mouse_position: (0, 0),
            mode: SelectionMode::Move,
            held: HeldModifiers::spec_init(),
            size: None,
        }
    }

    /// All stored coordinates within bounds.
    pub open spec fn wf(self) -> bool {
        &&& match self.selection.drag {
            Some(r) => r.wf(),
            None => true,
        }
        &&& match self.selection.selection {
            Some(r) => r.wf(),
            None => true,
        }
        &&& match self.size {
            Some((w, h)) => 0 <= w <= MAX_COORD && 0 <= h <= MAX_COORD,
            None => true,
        }
        &&& -MAX_COORD <= self.mouse_position.0 <= MAX_COORD
        &&& -MAX_COORD <= self.mouse_position.1 <= MAX_COORD
    }

    /// Records the viewport size; keyboard nudges are ignored until it is
    /// known.
    pub fn size(&mut self, size: (i64, i64))
        requires
            old(self).wf(),
            0 <= size.0 <= MAX_COORD,
            0 <= size.1 <= MAX_COORD,
        ensures
            *final(self) == (CleaveState { size: Some(size), ..*old(self) }),
            final(self).wf(),
    {
        self.size = Some(size);
    }

    pub fn set_mode(&mut self, mode: SelectionMode)
        ensures
            *final(self) == (CleaveState { mode, ..*old(self) }),
    {
        self.mode = mode;
    }

    /// What a pointer move does: the position is remembered, and an active
    /// drag's delta tracks the pointer.
    pub open spec fn spec_update_cursor(self, x: i64, y: i64) -> CleaveState {
        let moved = CleaveState { mouse_position: (x, y), ..self };
        match self.selection.drag {
            Some(d) => CleaveState {
                selection: UserSelection {
                    drag: Some(Rect { x: d.x, y: d.y, w: (x - d.x) as i64, h: (y - d.y) as i64 }),
                    selection: self.selection.selection,
                },
                ..moved
            },
            None => moved,
        }
    }

    pub fn update_cursor(&mut self, x: i64, y: i64)
        requires
            old(self).wf(),
            -MAX_COORD <= x <= MAX_COORD,
            -MAX_COORD <= y <= MAX_COORD,
        ensures
            *final(self) == old(self).spec_update_cursor(x, y),
            final(self).wf(),
    {
        self.mouse_position = (x, y);
        if let Some(d) = self.selection.drag {
            self.selection.drag = Some(Rect { x: d.x, y: d.y, w: x - d.x, h: y - d.y });
        }
    }

    /// What a primary-button press does: it anchors a fresh zero-delta drag
    /// at the pointer, unless a drag with a non-zero delta is already under
    /// way (a duplicate press is ignored).
    pub open spec fn spec_start_drag(self) -> CleaveState {
        match self.selection.drag {
            Some(d) => if d.w != 0 || d.h != 0 {
                self
            } else {
                self.spec_anchor_drag()
            },
            None => self.spec_anchor_drag(),
        }
    }

    pub open spec fn spec_anchor_drag(self) -> CleaveState {
        CleaveState {
            selection: UserSelection {
                drag: Some(
                    Rect { x: self.mouse_position.0, y: self.mouse_position.1, w: 0, h: 0 },
                ),
                selection: self.selection.selection,
            },
            ..self
        }
    }

    pub fn start_drag(&mut self)
        requires
            old(self).wf(),
        ensures
            *final(self) == old(self).spec_start_drag(),
            final(self).wf(),
    {
        if let Some(d) = self.selection.drag {
            if d.w != 0 || d.h != 0 {
                return ;
            }
        }
        self.selection.drag = Some(
            Rect { x: self.mouse_position.0, y: self.mouse_position.1, w: 0, h: 0 },
        );
    }

    /// What a primary-button release does: an active drag becomes the
    /// selection verbatim, sign and all; without one any committed
    /// selection is discarded.
    pub open spec fn spec_end_drag(self) -> CleaveState {
        CleaveState {
            selection: UserSelection { drag: None, selection: self.selection.drag },
            ..self
        }
    }

    pub fn end_drag(&mut self)
        requires
            old(self).wf(),
        ensures
            *final(self) == old(self).spec_end_drag(),
            final(self).wf(),
    {
        self.selection.selection = self.selection.drag;
        self.selection.drag = None;
    }

    /// A cancel (secondary button or Escape) discards drag and selection.
    pub fn cancel_drag(&mut self)
        requires
            old(self).wf(),
        ensures
            *final(self) == (CleaveState {
                selection: UserSelection { drag: None, selection: None },
                ..*old(self)
            }),
            final(self).wf(),
    {
        self.selection.drag = None;
        self.selection.selection = None;
    }

    /// What a keyboard nudge does: with a known viewport and a committed
    /// selection, the selection is nudged under the current mode; in any
    /// other state nothing happens.
    pub open spec fn spec_handle_move(self, dir: Direction) -> CleaveState {
        match (self.size, self.selection.selection) {
            (Some((w, h)), Some(sel)) => CleaveState {
                selection: UserSelection {
                    drag: self.selection.drag,
                    selection: Some(spec_nudge(sel, self.mode, dir, w as int, h as int)),
                },
                ..self
            },
            _ => self,
        }
    }

    /// Nudges the committed selection one pixel in the given direction,
    /// clamped to the viewport. Yields `Some(())` exactly when a nudge
    /// happened: the viewport is known and a selection exists.
    pub fn handle_move(&mut self, dir: Direction) -> (r: Option<()>)
        requires
            old(self).wf(),
        ensures
            *final(self) == old(self).spec_handle_move(dir),
            final(self).wf(),
            (r is Some <==> (old(self).size is Some && old(self).selection.selection is Some)),
    {
        let (w, h) = match self.size {
            Some(s) => s,
            None => {
                return None;
            },
        };
        let sel = match self.selection.selection {
            Some(s) => s,
            None => {
                return None;
            },
        };
        let step = MILLI;
        let nudged = match dir {
            Direction::Left => nudge_x(sel, self.mode, -step, w),
            Direction::Right => nudge_x(sel, self.mode, step, w),
            Direction::Up => nudge_y(sel, self.mode, -step, h),
            Direction::Down => nudge_y(sel, self.mode, step, h),
        };
        self.selection.selection = Some(nudged);
        Some(())
    }

    /// What a key edge does to the session: arrows nudge; a Shift press
    /// switches to InverseResize and a Control press to Resize, each
    /// recorded as held; releasing one of those keys returns to Move only
    /// when no other mode-driving modifier is still held; every other key
    /// is ignored.
    pub open spec fn spec_handle_key(self, key: KeyCode, pressed: bool) -> CleaveState {
        let tracked_held = self.held.spec_with(key, pressed);
        if pressed {
            match key {
                KeyCode::ArrowUp => self.spec_handle_move(Direction::Up),
                KeyCode::ArrowDown => self.spec_handle_move(Direction::Down),
                KeyCode::ArrowLeft => self.spec_handle_move(Direction::Left),
                KeyCode::ArrowRight => self.spec_handle_move(Direction::Right),
                KeyCode::ShiftLeft | KeyCode::ShiftRight => CleaveState {
                    mode: SelectionMode::InverseResize,
                    held: tracked_held,
                    ..self
                },
                KeyCode::ControlLeft | KeyCode::ControlRight => CleaveState {
                    mode: SelectionMode::Resize,
                    held: tracked_held,
                    ..self
                },
                _ => self,
            }
        } else {
            match key {
                KeyCode::ShiftLeft | KeyCode::ShiftRight | KeyCode::ControlLeft
                    | KeyCode::ControlRight => if tracked_held.spec_none_held() {
                    CleaveState { mode: SelectionMode::Move, held: tracked_held, ..self }
                } else {
                    CleaveState { held: tracked_held, ..self }
                },
                _ => self,
            }
        }
    }

    pub fn handle_key(&mut self, key: KeyCode, pressed: bool)
        requires
            old(self).wf(),
        ensures
            *final(self) == old(self).spec_handle_key(key, pressed),
            final(self).wf(),
    {
        if pressed {
            match key {
                KeyCode::ArrowUp => {
                    self.handle_move(Direction::Up);
                },
                KeyCode::ArrowDown => {
                    self.handle_move(Direction::Down);
                },
                KeyCode::ArrowLeft => {
                    self.handle_move(Direction::Left);
                },
                KeyCode::ArrowRight => {
                    self.handle_move(Direction::Right);
                },
                KeyCode::ShiftLeft => {
                    self.held.shift_left = true;
                    self.set_mode(SelectionMode::InverseResize);
                },
                KeyCode::ShiftRight => {
                    self.held.shift_right = true;
                    self.set_mode(SelectionMode::InverseResize);
                },
                KeyCode::ControlLeft => {
                    self.held.control_left = true;
                    self.set_mode(SelectionMode::Resize);
                },
                KeyCode::ControlRight => {
                    self.held.control_right = true;
                    self.set_mode(SelectionMode::Resize);
                },
                _ => {},
            }
        } else {
            match key {
                KeyCode::ShiftLeft => {
                    self.held.shift_left = false;
                    self.settle_mode();
                },
                KeyCode::ShiftRight => {
                    self.held.shift_right = false;
                    self.settle_mode();
                },
                KeyCode::ControlLeft => {
                    self.held.control_left = false;
                    self.settle_mode();
                },
                KeyCode::ControlRight => {
                    self.held.control_right = false;
                    self.settle_mode();
                },
                _ => {},
            }
        }
    }

    /// Falls back to the `Move` mode once every mode-driving modifier has
    /// been released; with one still held, the mode stands.
    fn settle_mode(&mut self)
        ensures
            *final(self) == (if old(self).held.spec_none_held() {
                CleaveState { mode: SelectionMode::Move, ..*old(self) }
            } else {
                *old(self)
            }),
    {
        if !self.held.shift_left && !self.held.shift_right && !self.held.control_left
            && !self.held.control_right {
            self.set_mode(SelectionMode::Move);
        }
    }
}

fn nudge_x(sel: Rect, mode: SelectionMode, dx: i64, width: i64) -> (r: Rect)
    requires
        sel.wf(),
        0 <= width <= MAX_COORD,
        -MILLI <= dx <= MILLI,
    ensures
        r == spec_nudge_x(sel, mode, dx as int, width as int),
        r.wf(),
{
    match mode {
        SelectionMode::Move => {
            let nx = clamp_i64(sel.x + dx, 0, width);
            let nf = clamp_i64(sel.x + sel.w + dx, 0, width);
            Rect { x: nx, y: sel.y, w: nf - nx, h: sel.h }
        },
        SelectionMode::Resize => {
            let nf = clamp_i64(sel.x + sel.w + dx, 0, width);
            Rect { x: sel.x, y: sel.y, w: nf - sel.x, h: sel.h }
        },
        SelectionMode::InverseResize => {
            let nx = clamp_i64(sel.x + dx, 0, width);
            Rect { x: nx, y: sel.y, w: sel.x + sel.w - nx, h: sel.h }
        },
    }
}

fn nudge_y(sel: Rect, mode: SelectionMode, dy: i64, height: i64) -> (r: Rect)
    requires
        sel.wf(),
        0 <= height <= MAX_COORD,
        -MILLI <= dy <= MILLI,
    ensures
        r == spec_nudge_y(sel, mode, dy as int, height as int),
        r.wf(),
{
    match mode {
        SelectionMode::Move => {
            let ny = clamp_i64(sel.y + dy, 0, height);
            let nf = clamp_i64(sel.y + sel.h + dy, 0, height);
            Rect { x: sel.x, y: ny, w: sel.w, h: nf - ny }
        },
        SelectionMode::Resize => {
            let nf = clamp_i64(sel.y + sel.h + dy, 0, height);
            Rect { x: sel.x, y: sel.y, w: sel.w, h: nf - sel.y }
        },
        SelectionMode::InverseResize => {
            let ny = clamp_i64(sel.y + dy, 0, height);
            Rect { x: sel.x, y: ny, w: sel.w, h: sel.y + sel.h - ny }
        },
    }
}

/// A pointer button, as the session's event stream reports it.
#[derive(Debug, Clone, Copy, PartialEq, Eq, Structural)]
pub enum PointerButton {
    Primary,
    Secondary,
    Other,
}

impl CleaveState {
    /// What a pointer-button edge does: a primary press starts a drag; a
    /// primary release commits it, or with no drag under way clears the
    /// selection; any secondary edge cancels; other buttons are ignored.
    pub open spec fn spec_handle_button(self, button: PointerButton, pressed: bool) -> CleaveState {
        match button {
            PointerButton::Primary => if pressed {
                self.spec_start_drag()
            } else {
                self.spec_end_drag()
            },
            PointerButton::Secondary => CleaveState {
                selection: UserSelection { drag: None, selection: None },
                ..self
            },
            PointerButton::Other => self,
        }
    }

    pub fn handle_button(&mut self, button: PointerButton, pressed: bool)
        requires
            old(self).wf(),
        ensures
            *final(self) == old(self).spec_handle_button(button, pressed),
            final(self).wf(),
    {
        match button {
            PointerButton::Primary => if pressed {
                self.start_drag();
            } else {
                self.end_drag();
            },
            PointerButton::Secondary => self.cancel_drag(),
            PointerButton::Other => {},
        }
    }
}

/// What the session itself does with a key edge, over and above the
/// engine's own handling: Escape ends the session, Space exports the
/// committed selection, everything else is left to the engine.
#[derive(Debug, Clone, Copy, PartialEq, Eq, Structural)]
pub enum SessionCommand {
    Exit,
    Export,
    Edit,
}

pub fn session_command(key: KeyCode, pressed: bool) -> (r: SessionCommand)
    ensures
        r == (if pressed && key == KeyCode::Escape {
            SessionCommand::Exit
        } else if pressed && key == KeyCode::Space {
            SessionCommand::Export
        } else {
            SessionCommand::Edit
        }),
{
    if pressed && key == KeyCode::Escape {
        SessionCommand::Exit
    } else if pressed && key == KeyCode::Space {
        SessionCommand::Export
    } else {
        SessionCommand::Edit
    }
}

/// Selection clamping: a rightward resize of a selection whose right edge
/// already sits on the viewport's right border changes nothing; the clamp
/// keeps the far edge where it is.
pub proof fn lemma_resize_clamped_at_edge(sel: Rect, width: int, height: int)
    requires
        sel.wf(),
        0 <= width <= MAX_COORD,
        sel.x + sel.w == width,
    ensures
        spec_nudge(sel, SelectionMode::Resize, Direction::Right, width, height) == sel,
{
}

} // verus!
