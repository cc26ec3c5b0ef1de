//! Per-window presentation state.
//!
//! Exactly one [`WindowState`] exists per open window. It owns the surface
//! configuration, the compositor pass state, the current pixel size and
//! physical-screen calibration, the background color, mouse state, the
//! event-handler registry, and the frame bookkeeping: a monotonically
//! increasing frame-id counter, the queue of in-flight submitted frame ids
//! and the map from frame id to the onset handlers to fire when that frame
//! is confirmed on screen.
//!
//! The window lifecycle is an explicit state machine: `Open` and `Closed`.
//! Closing is a state transition; operations on a closed window are
//! rejected by contract rather than by a scattered null check.

use vstd::prelude::*;

use std::collections::HashMap;

use crate::color::ColorFormat;
use crate::color::LinRgba;
use crate::compositor::CompositorState;
use crate::compositor::LutImage;
use crate::errors::PsydkResult;
use crate::geometry::PhysicalScreen;
use crate::geometry::PixelSize;
use crate::shapes::Point;

verus! {

/// Identifies one presented frame of one window.
pub type FrameId = u64;

/// Identifies one registered event handler.
pub type EventHandlerId = u64;

/// The kinds of events a handler can subscribe to.
#[derive(Debug, Clone, Copy, PartialEq, Eq, Structural)]
pub enum EventKind {
    /// A presented frame has become visible on the display.
    Onset,
    KeyPress,
    KeyRelease,
    CursorMoved,
    MouseButtonPress,
    MouseButtonRelease,
    MouseWheel,
    Touch,
}

/// The lifecycle of a window: open and usable, or closed and torn down.
#[derive(Debug, Clone, Copy, PartialEq, Eq, Structural)]
pub enum WindowLifecycle {
    /// Surface configured, renderer attached.
    Open,
    /// State torn down; all operations on the window must fail or no-op.
    Closed,
}

/// The configuration of the presentable surface.
#[derive(Debug, Clone, Copy, PartialEq, Eq, Structural)]
pub struct SurfaceConfig {
    /// The texture format of the surface.
    pub format: ColorFormat,
    /// Surface width in pixels.
    pub width: u32,
    /// Surface height in pixels.
    pub height: u32,
}

/// The state of one window.
#[derive(Debug)]
pub struct WindowState {
    /// Whether the window is open or closed.
    pub lifecycle: WindowLifecycle,
    /// The surface configuration.
    pub config: SurfaceConfig,
    /// The gamma/LUT compositor pass state.
    pub compositor: CompositorState,
    /// The current mouse position in micro-pixels, measured from the window
    /// center; `None` when the mouse has left the window.
    pub mouse_position: Option<Point>,
    /// Whether the mouse cursor is visible.
    pub mouse_cursor_visible: bool,
    /// The size of the window in pixels.
    pub size: PixelSize,
    /// Physical properties of the screen.
    pub physical_screen: PhysicalScreen,
    /// Registered event handlers: id and subscribed kind, in registration
    /// order. The callbacks themselves live with the embedding.
    pub event_handlers: Vec<(EventHandlerId, EventKind)>,
    /// The next handler id to hand out; ids are never reused.
    pub next_handler_id: EventHandlerId,
    /// Background color of the window.
    pub bg_color: LinRgba,
    /// For each submitted frame id, the onset handlers to fire when it is
    /// confirmed.
    pub frame_callbacks: HashMap<FrameId, Vec<EventHandlerId>>,
    /// Frame ids submitted and not yet confirmed, oldest first.
    pub frame_queue: Vec<FrameId>,
    /// The id of the most recently assigned frame.
    pub last_frame_id: FrameId,
}

impl WindowState {
    /// Well-formedness: the surface configuration and the compositor's
    /// intermediate texture match the window size; handler ids are below
    /// the counter (so every id is handed out at most once); the frame
    /// queue is strictly increasing, stays at or below the id counter, and
    /// every queued id has its callbacks registered.
    pub open spec fn wf(&self) -> bool {
        &&& self.config.width == self.size.width
        &&& self.config.height == self.size.height
        &&& self.compositor.size == self.size
        &&& self.compositor.wf()
        &&& forall|i: int|
            0 <= i < self.event_handlers@.len()
                ==> (#[trigger] self.event_handlers@[i]).0 < self.next_handler_id
        &&& forall|i: int, j: int|
            0 <= i < j < self.frame_queue@.len() ==> #[trigger] self.frame_queue@[i]
                < #[trigger] self.frame_queue@[j]
        &&& forall|i: int|
            0 <= i < self.frame_queue@.len() ==> #[trigger] self.frame_queue@[i]
                <= self.last_frame_id
        &&& forall|i: int|
            0 <= i < self.frame_queue@.len() ==> self.frame_callbacks@.contains_key(
                #[trigger] self.frame_queue@[i],
            )
    }

    /// Builds the state of a freshly opened window.
    ///
    /// The compositor pass is built here; a supplied calibration LUT image
    /// with dimensions other than 256x256 fails with a resource error
    /// before any further work. The background starts mid gray, the cursor
    /// visible, and no frame has been presented.
    pub fn new(
        size: PixelSize,
        format: ColorFormat,
        physical_screen: PhysicalScreen,
        lut: Option<&LutImage>,
        encode_gamma: bool,
    ) -> (r: PsydkResult<WindowState>)
        requires
            lut matches Some(img) ==> img.wf(),
        ensures
            r is Ok <==> match lut {
                Some(img) => img.width == crate::compositor::LUT_DIM && img.height
                    == crate::compositor::LUT_DIM,
                None => true,
            },
            r matches Ok(s) ==> {
                &&& s.lifecycle == WindowLifecycle::Open
                &&& s.size == size
                &&& s.config == (SurfaceConfig { format, width: size.width, height: size.height })
                &&& s.physical_screen == physical_screen
                &&& s.compositor.encode_gamma == encode_gamma
                &&& s.bg_color == (LinRgba { r: 500_000, g: 500_000, b: 500_000, a: 1_000_000 })
                &&& s.mouse_cursor_visible == true
                &&& s.mouse_position is None
                &&& s.event_handlers@.len() == 0
                &&& s.frame_queue@.len() == 0
                &&& s.last_frame_id == 0
                &&& s.wf()
            },
    {
        let compositor = CompositorState::new(size, lut, encode_gamma)?;
        Ok(
            WindowState {
                lifecycle: WindowLifecycle::Open,
                config: SurfaceConfig { format, width: size.width, height: size.height },
                compositor,
                mouse_position: None,
                mouse_cursor_visible: true,
                size,
                physical_screen,
                event_handlers: Vec::new(),
                next_handler_id: 0,
                bg_color: LinRgba { r: 500_000, g: 500_000, b: 500_000, a: 1_000_000 },
                frame_callbacks: HashMap::new(),
                frame_queue: Vec::new(),
                last_frame_id: 0,
            },
        )
    }

    /// Resizes the window: the surface is reconfigured and the compositor
    /// pass rebuilt for the new intermediate texture size, so that before
    /// the next present both match the new dimensions. The LUT contents,
    /// frame bookkeeping and everything else are untouched.
    pub fn resize(&mut self, size: PixelSize)
        requires
            old(self).wf(),
            old(self).lifecycle == WindowLifecycle::Open,
        ensures
            final(self).size == size,
            final(self).config.width == size.width,
            final(self).config.height == size.height,
            final(self).config.format == old(self).config.format,
            final(self).compositor.size == size,
            final(self).compositor.lut_data == old(self).compositor.lut_data,
            final(self).compositor.encode_gamma == old(self).compositor.encode_gamma,
            final(self).compositor.params == old(self).compositor.params,
            final(self).lifecycle == old(self).lifecycle,
            final(self).physical_screen == old(self).physical_screen,
            final(self).bg_color == old(self).bg_color,
            final(self).event_handlers == old(self).event_handlers,
            final(self).next_handler_id == old(self).next_handler_id,
            final(self).frame_callbacks == old(self).frame_callbacks,
            final(self).frame_queue == old(self).frame_queue,
            final(self).last_frame_id == old(self).last_frame_id,
            final(self).mouse_position == old(self).mouse_position,
            final(self).mouse_cursor_visible == old(self).mouse_cursor_visible,
            final(self).wf(),
    {
        self.size = size;
        self.config.width = size.width;
        self.config.height = size.height;
        self.compositor.resize(size.width, size.height);
    }

    /// Closes the window: an explicit state transition after which all
    /// operations on this window are rejected.
    pub fn close(&mut self)
        ensures
            final(self).lifecycle == WindowLifecycle::Closed,
    {
        self.lifecycle = WindowLifecycle::Closed;
    }

    /// The size of the window in pixels.
    pub fn size(&self) -> (s: PixelSize)
        ensures
            s == self.size,
    {
        self.size
    }

    /// Sets the visibility of the mouse cursor.
    pub fn set_cursor_visible(&mut self, visible: bool)
        ensures
            final(self).mouse_cursor_visible == visible,
            *final(self) == (WindowState { mouse_cursor_visible: visible, ..*old(self) }),
    {
        self.mouse_cursor_visible = visible;
    }

    /// Whether the mouse cursor is visible.
    pub fn cursor_visible(&self) -> (v: bool)
        ensures
            v == self.mouse_cursor_visible,
    {
        self.mouse_cursor_visible
    }

    /// The mouse position in micro-pixels from the window center, or `None`
    /// when the cursor is not in the window.
    pub fn mouse_position(&self) -> (p: Option<Point>)
        ensures
            p == self.mouse_position,
    {
        self.mouse_position
    }

    /// Records a new mouse position (or that the cursor left the window).
    pub fn set_mouse_position(&mut self, p: Option<Point>)
        ensures
            *final(self) == (WindowState { mouse_position: p, ..*old(self) }),
    {
        self.mouse_position = p;
    }

    /// The window's background color.
    pub fn bg_color(&self) -> (c: LinRgba)
        ensures
            c == self.bg_color,
    {
        self.bg_color
    }

    /// Sets the window's background color.
    pub fn set_bg_color(&mut self, c: LinRgba)
        ensures
            *final(self) == (WindowState { bg_color: c, ..*old(self) }),
    {
        self.bg_color = c;
    }

    /// Registers an event handler for `kind` and returns its fresh id.
    /// Ids are handed out by a counter, so each is unique for the lifetime
    /// of the window.
    pub fn add_event_handler(&mut self, kind: EventKind) -> (id: EventHandlerId)
        requires
            old(self).wf(),
            old(self).next_handler_id < EventHandlerId::MAX,
        ensures
            id == old(self).next_handler_id,
            final(self).event_handlers@ == old(self).event_handlers@.push((id, kind)),
            final(self).next_handler_id == id + 1,
            *final(self) == (WindowState {
                event_handlers: final(self).event_handlers,
                next_handler_id: final(self).next_handler_id,
                ..*old(self)
            }),
            final(self).wf(),
    {
        let id = self.next_handler_id;
        self.event_handlers.push((id, kind));
        self.next_handler_id = id + 1;
        id
    }

    /// Removes the event handler with the given id, keeping all others in
    /// order.
    pub fn remove_event_handler(&mut self, id: EventHandlerId)
        requires
            old(self).wf(),
        ensures
            final(self).event_handlers@ == old(self).event_handlers@.filter(
                |e: (EventHandlerId, EventKind)| e.0 != id,
            ),
            *final(self) == (WindowState {
                event_handlers: final(self).event_handlers,
                ..*old(self)
            }),
            final(self).wf(),
    {
        let ghost pred = |e: (EventHandlerId, EventKind)| e.0 != id;
        let n = self.event_handlers.len();
        let mut kept: Vec<(EventHandlerId, EventKind)> = Vec::new();
        let mut i: usize = 0;
        proof {
            assert(self.event_handlers@.take(0) =~= Seq::<(EventHandlerId, EventKind)>::empty());
            assert(Seq::<(EventHandlerId, EventKind)>::empty().filter(pred) =~= Seq::<
                (EventHandlerId, EventKind),
            >::empty());
        }
        while i < n
            invariant
                i <= n == self.event_handlers@.len(),
                forall|x: (EventHandlerId, EventKind)| #[trigger] pred(x) <==> x.0 != id,
                kept@ == self.event_handlers@.take(i as int).filter(pred),
                forall|k: int|
                    0 <= k < self.event_handlers@.len()
                        ==> (#[trigger] self.event_handlers@[k]).0 < self.next_handler_id,
                forall|k: int|
                    0 <= k < kept@.len() ==> (#[trigger] kept@[k]).0 < self.next_handler_id,
            decreases n - i,
        {
            let e = self.event_handlers[i];
            proof {
                reveal_with_fuel(Seq::<(EventHandlerId, EventKind)>::filter, 2);
                let prefix = self.event_handlers@.take(i as int);
                let next = self.event_handlers@.take(i + 1);
                assert(next.drop_last() =~= prefix);
                assert(next.last() == e);
                assert(next.filter(pred) == if pred(e) {
                    prefix.filter(pred).push(e)
                } else {
                    prefix.filter(pred)
                });
            }
            if e.0 != id {
                proof {
                    assert(pred(e));
                }
                kept.push(e);
            } else {
                proof {
                    assert(!pred(e));
                }
            }
            i = i + 1;
            proof {
                assert(kept@ == self.event_handlers@.take(i as int).filter(pred));
            }
        }
        proof {
            assert(self.event_handlers@.take(n as int) =~= self.event_handlers@);
        }
        self.event_handlers = kept;
    }

    /// The ids of the handlers subscribed to `kind`, in registration order.
    pub fn handlers_for(&self, kind: EventKind) -> (ids: Vec<EventHandlerId>)
        ensures
            ids@ == self.event_handlers@.filter(
                |e: (EventHandlerId, EventKind)| e.1 == kind,
            ).map_values(|e: (EventHandlerId, EventKind)| e.0),
    {
        let ghost pred = |e: (EventHandlerId, EventKind)| e.1 == kind;
        let n = self.event_handlers.len();
        let mut ids: Vec<EventHandlerId> = Vec::new();
        let mut i: usize = 0;
        proof {
            assert(self.event_handlers@.take(0) =~= Seq::<(EventHandlerId, EventKind)>::empty());
            assert(Seq::<(EventHandlerId, EventKind)>::empty().filter(pred) =~= Seq::<
                (EventHandlerId, EventKind),
            >::empty());
        }
        while i < n
            invariant
                i <= n == self.event_handlers@.len(),
                forall|x: (EventHandlerId, EventKind)| #[trigger] pred(x) <==> x.1 == kind,
                ids@ == self.event_handlers@.take(i as int).filter(pred).map_values(
                    |e: (EventHandlerId, EventKind)| e.0,
                ),
            decreases n - i,
        {
            let e = self.event_handlers[i];
            proof {
                reveal_with_fuel(Seq::<(EventHandlerId, EventKind)>::filter, 2);
                let prefix = self.event_handlers@.take(i as int);
                let next = self.event_handlers@.take(i + 1);
                assert(next.drop_last() =~= prefix);
                assert(next.last() == e);
                assert(next.filter(pred) == if pred(e) {
                    prefix.filter(pred).push(e)
                } else {
                    prefix.filter(pred)
                });
                if pred(e) {
                    assert(next.filter(pred).map_values(|x: (EventHandlerId, EventKind)| x.0)
                        =~= prefix.filter(pred).map_values(
                        |x: (EventHandlerId, EventKind)| x.0,
                    ).push(e.0));
                }
            }
            if e.1 == kind {
                proof {
                    assert(pred(e));
                }
                ids.push(e.0);
            } else {
                proof {
                    assert(!pred(e));
                }
            }
            i = i + 1;
        }
        proof {
            assert(self.event_handlers@.take(n as int) =~= self.event_handlers@);
        }
        ids
    }
}

/// The affine map from centered pixel coordinates (origin in the middle of
/// the screen, half the screen extent at the edges) to normalized device
/// coordinates: a scale of `2/width` and `2/height`, in micro units.
pub fn transformation_matrix_to_ndc(width_px: u32, height_px: u32) -> (m: crate::shapes::Affine)
    requires
        width_px > 0,
        height_px > 0,
    ensures
        m.xx == 2_000_000i64 / width_px as i64,
        m.yy == 2_000_000i64 / height_px as i64,
        m.xy == 0,
        m.yx == 0,
        m.dx == 0,
        m.dy == 0,
{
    crate::shapes::Affine {
        xx: 2_000_000i64 / width_px as i64,
        xy: 0,
        yx: 0,
        yy: 2_000_000i64 / height_px as i64,
        dx: 0,
        dy: 0,
    }
}

} // verus!
