//! The top-level render/input loop state: command dispatch, frame pacing
//! and termination.
//!
//! The scheduler owns the view state and the pixel canvas and advances by
//! commands: pans and zooms go to the view, pointer events to the canvas
//! (with the reset control checked before cell hit-testing), and `Quit`
//! moves the machine to its terminal `Stopped` state. Frame pacing is a
//! pure decision over caller-supplied clock readings: a frame is due when
//! the configured refresh interval has elapsed since the last one.

use vstd::prelude::*;
use crate::rat::rm_int;
use crate::view::{ViewState, pan_step, zoom_step, zoom_factor, zoom_factor_inv};
use crate::canvas::{PixelCanvas, CanvasGeometry, ScreenRect, rect_contains, in_rect, hit_test,
    hit_row, hit_col, within_drawn_bounds, GRID_SIDE};
use crate::input::{RawEvent, Command, map_event, spec_map_event};

verus! {

/// Whether the loop is still running; `Stopped` is terminal.
#[derive(Clone, Copy, Debug, PartialEq, Eq, Structural)]
pub enum RunState {
    Running,
    Stopped,
}

/// Where pointer events land on screen: the drawn grid and the dedicated
/// reset control, which is checked first.
#[derive(Clone, Copy, Debug, PartialEq, Eq, Structural)]
pub struct PointerTargets {
    pub grid: CanvasGeometry,
    pub reset: ScreenRect,
}

/// The canvas keeps its contents and its latch.
pub open spec fn canvas_unchanged(pre: PixelCanvas, post: PixelCanvas) -> bool {
    &&& post.grid() == pre.grid()
    &&& post.is_drawing() == pre.is_drawing()
}

/// The canvas is entirely clear with the latch up.
pub open spec fn canvas_cleared(c: PixelCanvas) -> bool {
    &&& c.wf()
    &&& !c.is_drawing()
    &&& forall|i: int| 0 <= i < c.grid().len() ==> !c.grid()[i]
}

/// How one command takes the scheduler from `pre` to `post`, given where
/// pointer events land.
pub open spec fn command_applied(
    pre: RenderScheduler,
    post: RenderScheduler,
    cmd: Command,
    tg: PointerTargets,
) -> bool {
    &&& post.refresh_interval_ms == pre.refresh_interval_ms
    &&& post.last_frame_ms == pre.last_frame_ms
    &&& match cmd {
        Command::Quit => {
            &&& post.run_state is Stopped
            &&& post.view == pre.view
            &&& canvas_unchanged(pre.canvas, post.canvas)
        },
        Command::PanUp(a) => {
            &&& post.run_state == pre.run_state
            &&& canvas_unchanged(pre.canvas, post.canvas)
            &&& pan_step(pre.view, post.view, 0, a as int)
        },
        Command::PanDown(a) => {
            &&& post.run_state == pre.run_state
            &&& canvas_unchanged(pre.canvas, post.canvas)
            &&& pan_step(pre.view, post.view, 0, -(a as int))
        },
        Command::PanLeft(a) => {
            &&& post.run_state == pre.run_state
            &&& canvas_unchanged(pre.canvas, post.canvas)
            &&& pan_step(pre.view, post.view, -(a as int), 0)
        },
        Command::PanRight(a) => {
            &&& post.run_state == pre.run_state
            &&& canvas_unchanged(pre.canvas, post.canvas)
            &&& pan_step(pre.view, post.view, a as int, 0)
        },
        Command::ZoomIn => {
            &&& post.run_state == pre.run_state
            &&& canvas_unchanged(pre.canvas, post.canvas)
            &&& zoom_step(pre.view, post.view, zoom_factor())
        },
        Command::ZoomOut => {
            &&& post.run_state == pre.run_state
            &&& canvas_unchanged(pre.canvas, post.canvas)
            &&& zoom_step(pre.view, post.view, zoom_factor_inv())
        },
        Command::PointerDown(x, y) => {
            &&& post.run_state == pre.run_state
            &&& post.view == pre.view
            &&& if rect_contains(tg.reset, x as int, y as int) {
                canvas_cleared(post.canvas)
            } else if within_drawn_bounds(tg.grid, x as int, y as int) {
                &&& post.canvas.grid() == pre.canvas.grid().update(
                    hit_row(tg.grid, y as int) * GRID_SIDE + hit_col(tg.grid, x as int),
                    true,
                )
                &&& post.canvas.is_drawing()
            } else {
                canvas_unchanged(pre.canvas, post.canvas)
            }
        },
        Command::PointerDrag(x, y) => {
            &&& post.run_state == pre.run_state
            &&& post.view == pre.view
            &&& post.canvas.is_drawing() == pre.canvas.is_drawing()
            &&& if within_drawn_bounds(tg.grid, x as int, y as int) && pre.canvas.is_drawing() {
                post.canvas.grid() == pre.canvas.grid().update(
                    hit_row(tg.grid, y as int) * GRID_SIDE + hit_col(tg.grid, x as int),
                    true,
                )
            } else {
                post.canvas.grid() == pre.canvas.grid()
            }
        },
        Command::PointerUp => {
            &&& post.run_state == pre.run_state
            &&& post.view == pre.view
            &&& post.canvas.grid() == pre.canvas.grid()
            &&& !post.canvas.is_drawing()
        },
        Command::Reset => {
            &&& post.run_state == pre.run_state
            &&& post.view == pre.view
            &&& canvas_cleared(post.canvas)
        },
    }
}

/// The render/input loop's state machine.
pub struct RenderScheduler {
    pub view: ViewState,
    pub canvas: PixelCanvas,
    pub run_state: RunState,
    pub refresh_interval_ms: u64,
    pub last_frame_ms: u64,
}

impl RenderScheduler {
    /// Well formed: both owned components are.
    pub open spec fn wf(self) -> bool {
        &&& self.view.wf()
        &&& self.canvas.wf()
    }

    /// A fresh running scheduler with the default view, a clear canvas and
    /// no frame drawn yet.
    pub fn new(refresh_interval_ms: u64) -> (s: RenderScheduler)
        ensures
            s.wf(),
            s.run_state is Running,
            s.view.pan_x@ == rm_int(0),
            s.view.pan_y@ == rm_int(0),
            s.view.zoom@ == rm_int(1),
            canvas_cleared(s.canvas),
            s.refresh_interval_ms == refresh_interval_ms,
            s.last_frame_ms == 0,
    {
        RenderScheduler {
            view: ViewState::new(),
            canvas: PixelCanvas::new(),
            run_state: RunState::Running,
            refresh_interval_ms,
            last_frame_ms: 0,
        }
    }

    /// Whether the loop should keep going.
    pub fn is_running(&self) -> (r: bool)
        ensures
            r == (self.run_state is Running),
    {
        matches!(self.run_state, RunState::Running)
    }

    /// Dispatches one command: `Quit` stops the machine, pans and zooms go
    /// to the view, pointer events to the canvas with the reset control
    /// checked before cell hit-testing.
    pub fn apply_command(&mut self, cmd: Command, tg: &PointerTargets)
        requires
            old(self).wf(),
            tg.grid.wf(),
        ensures
            final(self).wf(),
            command_applied(*old(self), *final(self), cmd, *tg),
    {
        match cmd {
            Command::Quit => {
                self.run_state = RunState::Stopped;
            },
            Command::PanUp(a) => {
                self.view.pan_by(0, a as i64);
            },
            Command::PanDown(a) => {
                self.view.pan_by(0, -(a as i64));
            },
            Command::PanLeft(a) => {
                self.view.pan_by(-(a as i64), 0);
            },
            Command::PanRight(a) => {
                self.view.pan_by(a as i64, 0);
            },
            Command::ZoomIn => {
                self.view.zoom_in();
            },
            Command::ZoomOut => {
                self.view.zoom_out();
            },
            Command::PointerDown(x, y) => {
                if in_rect(&tg.reset, x, y) {
                    self.canvas.reset();
                } else {
                    match hit_test(&tg.grid, x, y) {
                        Some((row, col)) => {
                            self.canvas.pointer_down(row, col);
                        },
                        None => {},
                    }
                }
            },
            Command::PointerDrag(x, y) => {
                match hit_test(&tg.grid, x, y) {
                    Some((row, col)) => {
                        self.canvas.pointer_drag(row, col);
                    },
                    None => {},
                }
            },
            Command::PointerUp => {
                self.canvas.pointer_up();
            },
            Command::Reset => {
                self.canvas.reset();
            },
        }
    }

    /// Maps one raw event and dispatches the resulting command, if any.
    pub fn handle_event(&mut self, e: RawEvent, pan_amount: u16, tg: &PointerTargets)
        requires
            old(self).wf(),
            tg.grid.wf(),
        ensures
            final(self).wf(),
            match spec_map_event(e, pan_amount) {
                Some(cmd) => command_applied(*old(self), *final(self), cmd, *tg),
                None => *final(self) == *old(self),
            },
    {
        match map_event(e, pan_amount) {
            Some(cmd) => self.apply_command(cmd, tg),
            None => {},
        }
    }

    /// Whether the refresh interval has elapsed since the last frame, for
    /// a caller-supplied monotonic clock reading in milliseconds.
    pub fn frame_due(&self, now_ms: u64) -> (due: bool)
        ensures
            due == (now_ms >= self.last_frame_ms && now_ms - self.last_frame_ms
                >= self.refresh_interval_ms),
    {
        now_ms >= self.last_frame_ms && now_ms - self.last_frame_ms >= self.refresh_interval_ms
    }

    /// Records that a frame was drawn at the given clock reading.
    pub fn mark_frame(&mut self, now_ms: u64)
        requires
            old(self).wf(),
        ensures
            final(self).wf(),
            final(self).last_frame_ms == now_ms,
            final(self).view == old(self).view,
            final(self).canvas == old(self).canvas,
            final(self).run_state == old(self).run_state,
            final(self).refresh_interval_ms == old(self).refresh_interval_ms,
    {
        self.last_frame_ms = now_ms;
    }
}

} // verus!
