//! Judgments and the feedback animator: a single "currently playing"
//! judgment with a countdown, replaced unconditionally by each new trigger.

use vstd::prelude::*;

verus! {

/// The discrete accuracy tier assigned to a resolved note or a forced
/// expiry. `NoHit` means "nothing happened this tick" and is distinct from
/// `Miss`, which is a judged failure: `NoHit` carries zero score and never
/// triggers the feedback animation, while `Miss` does trigger it.
#[derive(Copy, Clone, Debug, PartialEq, Eq, Structural)]
pub enum HitResult {
    NoHit,
    Miss,
    Hit50,
    Hit100,
    Hit300,
}

/// How long one feedback pulse plays, in milliseconds.
pub const ANIMATION_DURATION_MS: u32 = 300;

/// The feedback animator. At most one judgment is "playing" at a time,
/// together with the milliseconds it has left; `None` when idle.
pub struct HitScore {
    /// The judgment being animated and its remaining time. The remaining
    /// time counts down from `animation_duration` to zero, at which point
    /// the state resets to `None`.
    pub playing: Option<(HitResult, u32)>,
    /// Fixed length of one pulse, in milliseconds.
    pub animation_duration: u32,
}

/// The numerator of the visual scale factor at `remaining` milliseconds
/// left out of `duration`: the scale is `1 - |duration/2 - remaining| /
/// (duration/2)`, a triangular pulse that peaks at mid-animation, and with
/// an even `duration` its numerator over the denominator `duration / 2` is
/// exactly `min(remaining, duration - remaining)`.
pub open spec fn scale_numerator_spec(duration: int, remaining: int) -> int {
    if remaining <= duration - remaining {
        remaining
    } else {
        duration - remaining
    }
}

impl HitScore {
    /// The animator's well-formedness: the pulse length is the fixed
    /// duration, and any playing judgment has a positive remaining time
    /// within that duration and is never `NoHit`.
    pub open spec fn wf(self) -> bool {
        &&& self.animation_duration == ANIMATION_DURATION_MS
        &&& (self.playing matches Some((j, remaining)) ==> {
            &&& j != HitResult::NoHit
            &&& 0 < remaining <= self.animation_duration
        })
    }

    /// A fresh animator: idle, with the fixed pulse length.
    pub fn new() -> (hit_score: HitScore)
        ensures
            hit_score.wf(),
            hit_score.playing is None,
            hit_score.animation_duration == ANIMATION_DURATION_MS,
    {
        HitScore { playing: None, animation_duration: ANIMATION_DURATION_MS }
    }

    /// Requests feedback for a judgment: `NoHit` is a no-op, anything else
    /// unconditionally replaces the in-flight animation with a full-length
    /// pulse for the new judgment.
    pub fn play(&mut self, hit_result: HitResult)
        ensures
            final(self).animation_duration == old(self).animation_duration,
            hit_result == HitResult::NoHit ==> *final(self) == *old(self),
            hit_result != HitResult::NoHit ==> final(self).playing == Some(
                (hit_result, old(self).animation_duration),
            ),
            old(self).wf() ==> final(self).wf(),
    {
        if let HitResult::NoHit = hit_result {
            return ;
        }
        self.playing = Some((hit_result, self.animation_duration));
    }

    /// Advances the countdown by the tick's elapsed wall time. A zero
    /// `elapsed_ms` means the frame-time source had no measurement yet and
    /// the decrement is skipped; otherwise the remaining time drops by
    /// `elapsed_ms`, and the animator resets to idle when that reaches or
    /// passes zero.
    pub fn update(&mut self, elapsed_ms: u32)
        ensures
            final(self).animation_duration == old(self).animation_duration,
            elapsed_ms == 0 ==> *final(self) == *old(self),
            old(self).playing is None ==> *final(self) == *old(self),
            elapsed_ms > 0 ==> (old(self).playing matches Some((j, remaining)) ==> {
                &&& remaining <= elapsed_ms ==> final(self).playing is None
                &&& remaining > elapsed_ms ==> final(self).playing == Some(
                    (j, (remaining - elapsed_ms) as u32),
                )
            }),
            old(self).wf() ==> final(self).wf(),
    {
        if elapsed_ms == 0 {
            return ;
        }
        match self.playing {
            Some((hit_result, remaining)) => {
                if remaining > elapsed_ms {
                    self.playing = Some((hit_result, remaining - elapsed_ms));
                } else {
                    self.playing = None;
                }
            },
            None => {},
        }
    }

    /// The judgment being animated and its visual scale factor, as the
    /// exact fraction `numerator / denominator` with denominator
    /// `animation_duration / 2`; `None` when idle. The scale rises linearly
    /// from 0 to 1 while the remaining time falls to the midpoint, then
    /// falls back to 0.
    pub fn sample_scale(&self) -> (sample: Option<(HitResult, u32, u32)>)
        ensures
            self.playing is None <==> sample is None,
            self.wf() ==> (self.playing matches Some((j, remaining)) ==> sample == Some(
                (
                    j,
                    scale_numerator_spec(
                        self.animation_duration as int,
                        remaining as int,
                    ) as u32,
                    (self.animation_duration / 2) as u32,
                ),
            )),
    {
        match self.playing {
            Some((hit_result, remaining)) => {
                let falling: u32 = if remaining <= self.animation_duration {
                    self.animation_duration - remaining
                } else {
                    0
                };
                let numerator: u32 = if remaining <= falling {
                    remaining
                } else {
                    falling
                };
                Some((hit_result, numerator, self.animation_duration / 2))
            },
            None => None,
        }
    }
}

} // verus!
