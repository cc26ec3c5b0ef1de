//! Repeat-count resolution for frame presentation.
//!
//! A frame may be presented a fixed number of times (`repeat_frames`) or for
//! a given duration (`repeat_time`). At most one of the two may be set. A
//! duration is divided by the display's refresh period to get a fractional
//! frame count; in pedantic mode a fractional count that is not within `1e-4`
//! of an integer is rejected with a parameter error rather than silently
//! rounded, because silent rounding would cause timing drift. With pedantic
//! mode off, the count is rounded to the nearest integer.
//!
//! Times are microseconds and refresh rates are millihertz, so the exact
//! fractional frame count of a duration `t` at rate `r` is
//! `t_us * r_mhz / 1_000_000_000`.

use vstd::prelude::*;

use crate::errors::PsydkError;
use crate::errors::PsydkResult;
use crate::frame::Frame;
use crate::window::EventHandlerId;
use crate::window::EventKind;
use crate::window::FrameId;
use crate::window::WindowLifecycle;
use crate::window::WindowState;

verus! {

/// Micro-seconds times milli-hertz per frame: the denominator of the exact
/// fractional frame count.
pub const FRAME_COUNT_DEN: u64 = 1_000_000_000;

/// The pedantic tolerance (`1e-4` frames) expressed in numerator units of
/// `FRAME_COUNT_DEN`.
pub const FRAME_COUNT_TOLERANCE: u64 = 100_000;

/// `num / FRAME_COUNT_DEN` rounded to the nearest integer, halves away from
/// zero (`num` is non-negative).
pub open spec fn spec_round_frames(num: int) -> int {
    (num + 500_000_000) / 1_000_000_000
}

/// Distance, in numerator units, between the exact fractional frame count
/// `num / FRAME_COUNT_DEN` and its nearest integer.
pub open spec fn spec_frames_deviation(num: int) -> int {
    let rounded = spec_round_frames(num) * 1_000_000_000;
    if num >= rounded {
        num - rounded
    } else {
        rounded - num
    }
}

/// The exact fractional frame count of `repeat_time_us` at `refresh_mhz`,
/// in numerator units of `FRAME_COUNT_DEN`.
pub open spec fn spec_frames_numerator(repeat_time_us: u64, refresh_mhz: u32) -> int {
    repeat_time_us * refresh_mhz
}

/// True exactly when the repeat parameters are rejected: either both are
/// set, or a duration resolves to a fractional frame count under pedantic
/// mode.
pub open spec fn spec_repeats_rejected(
    repeat_frames: Option<u32>,
    repeat_time_us: Option<u64>,
    refresh_mhz: u32,
    pedantic: bool,
) -> bool {
    ||| (repeat_frames is Some && repeat_time_us is Some)
    ||| (repeat_frames is None && repeat_time_us is Some && pedantic
        && spec_frames_deviation(spec_frames_numerator(repeat_time_us->0, refresh_mhz))
            > FRAME_COUNT_TOLERANCE)
}

/// The whole repeat count of accepted parameters: the rounded fractional
/// count of a duration (saturating at `u32::MAX`), the explicit count, or 1.
pub open spec fn spec_repeat_count(
    repeat_frames: Option<u32>,
    repeat_time_us: Option<u64>,
    refresh_mhz: u32,
) -> u32 {
    if repeat_time_us is Some {
        let rounded = spec_round_frames(
            spec_frames_numerator(repeat_time_us->0, refresh_mhz),
        );
        if rounded > u32::MAX {
            u32::MAX
        } else {
            rounded as u32
        }
    } else if repeat_frames is Some {
        repeat_frames->0
    } else {
        1u32
    }
}

/// Message of the error raised when both repeat parameters are set.
pub open spec fn spec_both_repeats_message() -> Seq<char> {
    "You can only specify one of repeat_frames or repeat_time"@
}

/// Message of the error raised in pedantic mode for a fractional count.
pub open spec fn spec_fractional_frames_message() -> Seq<char> {
    "The repeat_time is not a whole multiple of the monitor's frame time; round it or disable pedantic mode"@
}

/// Resolves the repeat parameters of a `present` call to a whole number of
/// iterations, or rejects them with a parameter error before any GPU work.
///
/// At most one of `repeat_frames` and `repeat_time_us` may be set; both set
/// is always a parameter error. A duration resolves to
/// `repeat_time_us * refresh_mhz / 1e9` frames; under `pedantic` that count
/// must be within `1e-4` of an integer, otherwise it is rounded to nearest
/// (halves away from zero, saturating at `u32::MAX` like the reference
/// float-to-integer cast). With neither parameter set, the frame is
/// presented once.
pub fn resolve_repeat_count(
    repeat_frames: Option<u32>,
    repeat_time_us: Option<u64>,
    refresh_mhz: u32,
    pedantic: bool,
) -> (r: PsydkResult<u32>)
    ensures
        r is Err <==> spec_repeats_rejected(repeat_frames, repeat_time_us, refresh_mhz, pedantic),
        r is Ok ==> r->Ok_0 == spec_repeat_count(repeat_frames, repeat_time_us, refresh_mhz),
        (repeat_frames is Some && repeat_time_us is Some) ==> (r matches Err(
            PsydkError::ParameterError(m),
        ) && m@ == spec_both_repeats_message()),
        r is Err && !(repeat_frames is Some && repeat_time_us is Some) ==> (r matches Err(
            PsydkError::ParameterError(m),
        ) && m@ == spec_fractional_frames_message()),
{
    if repeat_frames.is_some() && repeat_time_us.is_some() {
        return Err(PsydkError::ParameterError(
            "You can only specify one of repeat_frames or repeat_time".to_owned(),
        ));
    }
    if let Some(t) = repeat_time_us {
        proof {
            assert(t * refresh_mhz <= 0xffff_ffff_ffff_ffffu64 * 0xffff_ffffu32)
                by (nonlinear_arith)
                requires
                    t <= 0xffff_ffff_ffff_ffffu64,
                    refresh_mhz <= 0xffff_ffffu32,
            ;
        }
        let num: u128 = t as u128 * refresh_mhz as u128;
        let rounded: u128 = (num + 500_000_000) / 1_000_000_000;
        let scaled: u128 = rounded * 1_000_000_000;
        let deviation: u128 = if num >= scaled {
            num - scaled
        } else {
            scaled - num
        };
        if pedantic && deviation > FRAME_COUNT_TOLERANCE as u128 {
            return Err(PsydkError::ParameterError(
                "The repeat_time is not a whole multiple of the monitor's frame time; round it or disable pedantic mode".to_owned(),
            ));
        }
        if rounded > u32::MAX as u128 {
            Ok(u32::MAX)
        } else {
            Ok(rounded as u32)
        }
    } else if let Some(k) = repeat_frames {
        Ok(k)
    } else {
        Ok(1)
    }
}

/// Law: a present call that sets both `repeat_frames` and `repeat_time` is
/// always rejected, whatever the counts, the refresh rate or the pedantic
/// mode.
pub proof fn lemma_both_repeats_always_rejected(
    frames: u32,
    time_us: u64,
    refresh_mhz: u32,
    pedantic: bool,
)
    ensures
        spec_repeats_rejected(Some(frames), Some(time_us), refresh_mhz, pedantic),
{
}

/// Law: a duration whose exact frame count is not within `1e-4` of an
/// integer is rejected under pedantic mode; with pedantic mode off the same
/// duration is accepted and resolves to the nearest integer count (halves
/// away from zero, saturating).
pub proof fn lemma_pedantic_split(time_us: u64, refresh_mhz: u32)
    ensures
        spec_frames_deviation(spec_frames_numerator(time_us, refresh_mhz)) > FRAME_COUNT_TOLERANCE
            ==> spec_repeats_rejected(None, Some(time_us), refresh_mhz, true),
        spec_frames_deviation(spec_frames_numerator(time_us, refresh_mhz))
            <= FRAME_COUNT_TOLERANCE ==> !spec_repeats_rejected(None, Some(time_us), refresh_mhz, true),
        !spec_repeats_rejected(None, Some(time_us), refresh_mhz, false),
        spec_repeat_count(None, Some(time_us), refresh_mhz) == (if spec_round_frames(
            spec_frames_numerator(time_us, refresh_mhz),
        ) > u32::MAX {
            u32::MAX as int
        } else {
            spec_round_frames(spec_frames_numerator(time_us, refresh_mhz))
        }),
{
}

/// The validated plan of one `present` call: the frame id it was assigned
/// and how many repeat iterations to run, strictly sequentially.
#[derive(Debug, Clone, PartialEq, Eq, Structural)]
pub struct PresentPlan {
    /// The frame id assigned to this presentation.
    pub frame_id: FrameId,
    /// How many repeat iterations to run.
    pub iterations: u32,
}

/// The pedantic flag a present call runs under: its per-call override, or
/// the configured default.
pub open spec fn spec_effective_pedantic(pedantic: Option<bool>, config_pedantic: bool) -> bool {
    match pedantic {
        Some(p) => p,
        None => config_pedantic,
    }
}

impl WindowState {
    /// Validates a `present` call and records its frame bookkeeping,
    /// before any GPU work.
    ///
    /// The repeat parameters are resolved (both set, or a fractional frame
    /// count under pedantic mode, is a parameter error that leaves the
    /// window state untouched). On success a fresh frame id — one more
    /// than the last — is assigned, pushed on the in-flight queue, and the
    /// frame's onset handlers are recorded under it for deferred firing.
    pub fn plan_present(
        &mut self,
        frame: &Frame,
        repeat_frames: Option<u32>,
        repeat_time_us: Option<u64>,
        refresh_mhz: u32,
        pedantic: Option<bool>,
        config_pedantic: bool,
    ) -> (r: PsydkResult<PresentPlan>)
        requires
            old(self).wf(),
            old(self).lifecycle == WindowLifecycle::Open,
            old(self).last_frame_id < FrameId::MAX,
        ensures
            r is Err <==> spec_repeats_rejected(
                repeat_frames,
                repeat_time_us,
                refresh_mhz,
                spec_effective_pedantic(pedantic, config_pedantic),
            ),
            r matches Err(e) ==> e matches PsydkError::ParameterError(_) && *final(self) == *old(
                self,
            ),
            r matches Ok(plan) ==> {
                &&& plan.frame_id == old(self).last_frame_id + 1
                &&& plan.iterations == spec_repeat_count(
                    repeat_frames,
                    repeat_time_us,
                    refresh_mhz,
                )
                &&& final(self).last_frame_id == plan.frame_id
                &&& final(self).frame_queue@ == old(self).frame_queue@.push(plan.frame_id)
                &&& final(self).frame_callbacks@.contains_key(plan.frame_id)
                &&& final(self).frame_callbacks@[plan.frame_id]@ == frame.event_handlers@.filter(
                    |e: (EventHandlerId, EventKind)| e.1 == EventKind::Onset,
                ).map_values(|e: (EventHandlerId, EventKind)| e.0)
                &&& final(self).frame_callbacks@ == old(self).frame_callbacks@.insert(
                    plan.frame_id,
                    final(self).frame_callbacks@[plan.frame_id],
                )
                &&& final(self).size == old(self).size
                &&& final(self).config == old(self).config
                &&& final(self).compositor == old(self).compositor
                &&& final(self).bg_color == old(self).bg_color
                &&& final(self).lifecycle == old(self).lifecycle
                &&& final(self).physical_screen == old(self).physical_screen
                &&& final(self).event_handlers == old(self).event_handlers
                &&& final(self).next_handler_id == old(self).next_handler_id
                &&& final(self).wf()
            },
    {
        let count = resolve_repeat_count(
            repeat_frames,
            repeat_time_us,
            refresh_mhz,
            match pedantic {
                Some(p) => p,
                None => config_pedantic,
            },
        )?;
        let new_frame_id = self.last_frame_id + 1;
        let onset_handlers = frame.handlers_for(EventKind::Onset);
        self.frame_queue.push(new_frame_id);
        self.frame_callbacks.insert(new_frame_id, onset_handlers);
        self.last_frame_id = new_frame_id;
        Ok(PresentPlan { frame_id: new_frame_id, iterations: count })
    }

    /// Completes a presentation: pops the oldest in-flight frame id, takes
    /// the onset handlers recorded under it (returned so the embedding can
    /// fire them), and settles the onset timestamp. On platforms that
    /// confirm presentation the confirmed instant is used; otherwise the
    /// time control returned from present stands in, an approximation to
    /// be documented as such.
    pub fn finish_present(&mut self, confirmed_onset_us: Option<u64>, now_us: u64) -> (r: (
        u64,
        Vec<EventHandlerId>,
    ))
        requires
            old(self).wf(),
            old(self).frame_queue@.len() > 0,
        ensures
            r.0 == (match confirmed_onset_us {
                Some(t) => t,
                None => now_us,
            }),
            r.1 == old(self).frame_callbacks@[old(self).frame_queue@[0]],
            final(self).frame_queue@ == old(self).frame_queue@.skip(1),
            final(self).frame_callbacks@ == old(self).frame_callbacks@.remove(
                old(self).frame_queue@[0],
            ),
            final(self).last_frame_id == old(self).last_frame_id,
            final(self).size == old(self).size,
            final(self).config == old(self).config,
            final(self).compositor == old(self).compositor,
            final(self).bg_color == old(self).bg_color,
            final(self).lifecycle == old(self).lifecycle,
            final(self).physical_screen == old(self).physical_screen,
            final(self).event_handlers == old(self).event_handlers,
            final(self).next_handler_id == old(self).next_handler_id,
            final(self).wf(),
    {
        let frame_id = self.frame_queue.remove(0);
        let handlers = match self.frame_callbacks.remove(&frame_id) {
            Some(h) => h,
            None => vstd::pervasive::unreached(),
        };
        let onset = match confirmed_onset_us {
            Some(t) => t,
            None => now_us,
        };
        (onset, handlers)
    }
}

} // verus!
