//! Frames: the user-constructed batch of stimuli for one presentation.
//!
//! A frame is an append-only, ordered list of stimuli (draw order is
//! composite order: later stimuli draw on top) plus a set of frame-scoped
//! event handlers, currently only of the onset kind, fired once the
//! presentation is confirmed. A frame is built via its window, consumed by
//! one present call, and its scene is rebuilt freshly for every repeat
//! iteration.
//!
//! The central ordering guarantee lives here: building a scene from a
//! frame applies every stimulus's draw commands in the stimulus list's
//! insertion order, which [`stimuli_commands_partitioned`] pins down
//! segment by segment.

use vstd::prelude::*;

use crate::color::LinRgba;
use crate::geometry::PhysicalScreen;
use crate::geometry::PixelSize;
use crate::geometry::DENSITY_LIMIT;
use crate::geometry::DISTANCE_LIMIT;
use crate::geometry::Shape;
use crate::geometry::Size;
use crate::scene::DrawCommand;
use crate::scene::Scene;
use crate::stimuli::lin_to_rgba;
use crate::stimuli::spec_lin_to_rgba;
use crate::stimuli::DynamicStimulus;
use crate::stimuli::FillPattern;
use crate::stimuli::PatternStimulus;
use crate::scene::StrokeStyle;
use crate::transform::Transformation2D;
use vstd::pervasive::VecAdditionalExecFns;
use crate::window::EventHandlerId;
use crate::window::EventKind;
use crate::window::WindowState;

verus! {

/// A transient batch of stimuli to present, in draw order.
#[derive(Debug)]
pub struct Frame {
    /// The stimuli, in insertion order; later entries draw on top.
    pub stimuli: Vec<DynamicStimulus>,
    /// The background color the frame's scenes are cleared to.
    pub bg_color: LinRgba,
    /// Frame-scoped event handlers: id and subscribed kind.
    pub event_handlers: Vec<(EventHandlerId, EventKind)>,
    /// The next frame-scoped handler id to hand out.
    pub next_handler_id: EventHandlerId,
}

/// `cmds` is exactly the concatenation, in order, of each stimulus's draw
/// commands.
pub open spec fn stimuli_commands_partitioned(
    stims: Seq<DynamicStimulus>,
    win: PixelSize,
    screen: PhysicalScreen,
    cmds: Seq<DrawCommand>,
) -> bool
    decreases stims.len(),
{
    if stims.len() == 0 {
        cmds.len() == 0
    } else {
        let n = stims.last().spec_drawn_len();
        &&& cmds.len() >= n
        &&& stimuli_commands_partitioned(
            stims.drop_last(),
            win,
            screen,
            cmds.take(cmds.len() - n),
        )
        &&& stims.last().commands_match(win, screen, cmds.skip(cmds.len() - n))
    }
}

impl Frame {
    /// Every stimulus in the frame is well formed and drawable, and
    /// handler ids are below the counter.
    pub open spec fn wf(&self) -> bool {
        &&& forall|i: int|
            0 <= i < self.stimuli@.len() ==> (#[trigger] self.stimuli@[i]).wf()
                && self.stimuli@[i].drawable()
        &&& forall|i: int|
            0 <= i < self.event_handlers@.len()
                ==> (#[trigger] self.event_handlers@[i]).0 < self.next_handler_id
    }

    /// A new, empty frame with the given background color.
    pub fn new(bg_color: LinRgba) -> (f: Frame)
        ensures
            f.stimuli@.len() == 0,
            f.bg_color == bg_color,
            f.event_handlers@.len() == 0,
            f.wf(),
    {
        Frame { stimuli: Vec::new(), bg_color, event_handlers: Vec::new(), next_handler_id: 0 }
    }

    /// Sets the background color of the frame.
    pub fn set_bg_color(&mut self, bg_color: LinRgba)
        ensures
            *final(self) == (Frame { bg_color, ..*old(self) }),
    {
        self.bg_color = bg_color;
    }

    /// Appends a stimulus; draw order is composite order, so it will draw
    /// on top of the stimuli already added.
    pub fn add(&mut self, stimulus: DynamicStimulus)
        requires
            stimulus.wf(),
            stimulus.drawable(),
        ensures
            final(self).stimuli@ == old(self).stimuli@.push(stimulus),
            *final(self) == (Frame { stimuli: final(self).stimuli, ..*old(self) }),
            old(self).wf() ==> final(self).wf(),
    {
        self.stimuli.push(stimulus);
    }

    /// Registers a frame-scoped event handler for `kind` and returns its
    /// fresh id.
    pub fn add_event_handler(&mut self, kind: EventKind) -> (id: EventHandlerId)
        requires
            old(self).wf(),
            old(self).next_handler_id < EventHandlerId::MAX,
        ensures
            id == old(self).next_handler_id,
            final(self).event_handlers@ == old(self).event_handlers@.push((id, kind)),
            final(self).next_handler_id == id + 1,
            *final(self) == (Frame {
                event_handlers: final(self).event_handlers,
                next_handler_id: final(self).next_handler_id,
                ..*old(self)
            }),
            final(self).wf(),
    {
        let id = self.next_handler_id;
        self.event_handlers.push((id, kind));
        self.next_handler_id = id + 1;
        id
    }

    /// The ids of the frame's handlers subscribed to `kind`, in
    /// registration order.
    pub fn handlers_for(&self, kind: EventKind) -> (ids: Vec<EventHandlerId>)
        ensures
            ids@ == self.event_handlers@.filter(
                |e: (EventHandlerId, EventKind)| e.1 == kind,
            ).map_values(|e: (EventHandlerId, EventKind)| e.0),
    {
        let ghost pred = |e: (EventHandlerId, EventKind)| e.1 == kind;
        let n = self.event_handlers.len();
        let mut ids: Vec<EventHandlerId> = Vec::new();
        let mut i: usize = 0;
        proof {
            assert(self.event_handlers@.take(0) =~= Seq::<(EventHandlerId, EventKind)>::empty());
            assert(Seq::<(EventHandlerId, EventKind)>::empty().filter(pred) =~= Seq::<
                (EventHandlerId, EventKind),
            >::empty());
        }
        while i < n
            invariant
                i <= n == self.event_handlers@.len(),
                forall|x: (EventHandlerId, EventKind)| #[trigger] pred(x) <==> x.1 == kind,
                ids@ == self.event_handlers@.take(i as int).filter(pred).map_values(
                    |e: (EventHandlerId, EventKind)| e.0,
                ),
            decreases n - i,
        {
            let e = self.event_handlers[i];
            proof {
                reveal_with_fuel(Seq::<(EventHandlerId, EventKind)>::filter, 2);
                let prefix = self.event_handlers@.take(i as int);
                let next = self.event_handlers@.take(i + 1);
                assert(next.drop_last() =~= prefix);
                assert(next.last() == e);
                assert(next.filter(pred) == if pred(e) {
                    prefix.filter(pred).push(e)
                } else {
                    prefix.filter(pred)
                });
                if pred(e) {
                    assert(next.filter(pred).map_values(|x: (EventHandlerId, EventKind)| x.0)
                        =~= prefix.filter(pred).map_values(
                        |x: (EventHandlerId, EventKind)| x.0,
                    ).push(e.0));
                }
            }
            if e.1 == kind {
                ids.push(e.0);
            }
            i = i + 1;
        }
        proof {
            assert(self.event_handlers@.take(n as int) =~= self.event_handlers@);
        }
        ids
    }

    /// Builds the scene of one repeat iteration: a fresh scene of the given
    /// size, cleared to the frame's background, into which every stimulus
    /// first advances its animations to `now` and then draws, in insertion
    /// order. The resulting command list is exactly the concatenation of
    /// the stimuli's own command runs; no layers are left open.
    pub fn build_scene(
        &mut self,
        width: u32,
        height: u32,
        now_us: u64,
        win: PixelSize,
        screen: PhysicalScreen,
    ) -> (s: Scene)
        requires
            old(self).wf(),
            screen.pixel_density_upmm <= DENSITY_LIMIT,
            screen.viewing_distance_um <= DISTANCE_LIMIT,
        ensures
            s.width == width,
            s.height == height,
            s.bg_color == spec_lin_to_rgba(old(self).bg_color),
            s.wf(),
            s.balanced(),
            final(self).wf(),
            final(self).stimuli@.len() == old(self).stimuli@.len(),
            final(self).bg_color == old(self).bg_color,
            final(self).event_handlers == old(self).event_handlers,
            final(self).next_handler_id == old(self).next_handler_id,
            stimuli_commands_partitioned(final(self).stimuli@, win, screen, s.commands@),
    {
        let mut scene = Scene::new(width, height);
        scene.set_bg_color(lin_to_rgba(self.bg_color));
        let mut holder = DynamicStimulus::Pattern(
            PatternStimulus::new(
                Shape::Rectangle {
                    x: Size::Pixels(0),
                    y: Size::Pixels(0),
                    width: Size::Pixels(0),
                    height: Size::Pixels(0),
                },
                Size::Pixels(0),
                Size::Pixels(0),
                0,
                0,
                Size::Pixels(0),
                LinRgba { r: 0, g: 0, b: 0, a: 0 },
                LinRgba { r: 0, g: 0, b: 0, a: 0 },
                FillPattern::Uniform,
                0,
                StrokeStyle { width: 0 },
                LinRgba { r: 0, g: 0, b: 0, a: 0 },
                Size::Pixels(0),
                None,
                Transformation2D::Identity,
            ),
        );
        let n = self.stimuli.len();
        let mut i: usize = 0;
        proof {
            assert(self.stimuli@.take(0) =~= Seq::<DynamicStimulus>::empty());
        }
        while i < n
            invariant
                i <= n == self.stimuli@.len(),
                scene.wf(),
                scene.open_layers == 0,
                scene.width == width,
                scene.height == height,
                scene.bg_color == spec_lin_to_rgba(old(self).bg_color),
                screen.pixel_density_upmm <= DENSITY_LIMIT,
                screen.viewing_distance_um <= DISTANCE_LIMIT,
                forall|k: int|
                    0 <= k < self.stimuli@.len() ==> (#[trigger] self.stimuli@[k]).wf()
                        && self.stimuli@[k].drawable(),
                *self == (Frame { stimuli: self.stimuli, ..*old(self) }),
                stimuli_commands_partitioned(
                    self.stimuli@.take(i as int),
                    win,
                    screen,
                    scene.commands@,
                ),
            decreases n - i,
        {
            let ghost cmds0 = scene.commands@;
            let ghost stims0 = self.stimuli@;
            self.stimuli.set_and_swap(i, &mut holder);
            holder.update_animations(now_us);
            holder.draw(&mut scene, win, screen);
            self.stimuli.set_and_swap(i, &mut holder);
            proof {
                let stims1 = self.stimuli@;
                let s_new = stims1[i as int];
                assert(stims1 =~= stims0.update(i as int, s_new));
                assert(stims1.take(i as int) =~= stims0.take(i as int));
                assert forall|k: int| 0 <= k < stims1.len() implies (#[trigger] stims1[k]).wf()
                    && stims1[k].drawable() by {
                    if k != i {
                        assert(stims1[k] == stims0[k]);
                    }
                }
                let taken = stims1.take(i + 1);
                assert(taken.drop_last() =~= stims1.take(i as int));
                assert(taken.last() == s_new);
                let m = scene.commands@.len() as int;
                let nlen = s_new.spec_drawn_len();
                assert(scene.commands@.take(m - nlen) == cmds0);
                assert(stimuli_commands_partitioned(taken, win, screen, scene.commands@));
            }
            i = i + 1;
        }
        proof {
            assert(self.stimuli@.take(n as int) =~= self.stimuli@);
        }
        scene
    }
}

impl WindowState {
    /// Returns a new, empty frame for this window, with the window's
    /// current background color.
    pub fn get_frame(&self) -> (f: Frame)
        ensures
            f.stimuli@.len() == 0,
            f.bg_color == self.bg_color,
            f.event_handlers@.len() == 0,
            f.wf(),
    {
        Frame::new(self.bg_color)
    }
}

} // verus!
