//! A simple transition between two colors.

use vstd::prelude::*;

use super::Chaser;
use super::rescale_step;
use crate::color::Rgb8;
use crate::interpolate::interpolate;
use crate::interpolate::lemma_interpolate_in_range;
use crate::interpolate::lemma_interpolate_penultimate;
use crate::interpolate::spec_interpolate;
use crate::sequence::Sequence;
use crate::sequence::Unicolor;
use crate::sequence::UnicolorConfig;
use crate::time::TimeConfig;

verus! {

/// A simple transition between two colors.
pub struct UnicolorTransition<const N: usize> {
    /// The sequence configuration.
    sequence_config: UnicolorConfig,
    /// The start color of the transition.
    start_color: Rgb8,
    /// The end color of the transition.
    end_color: Rgb8,
    /// The number of steps to perform the transition.
    step_number: u32,
    /// The current step.
    step: u32,
}

/// The color shown at step `step` of a transition of `step_number` steps:
/// every channel interpolated `step / step_number` of the way from the start
/// color to the end color, truncating toward zero.
pub open spec fn transition_color_at(start: Rgb8, end: Rgb8, step: u32, step_number: u32) -> Rgb8 {
    Rgb8 {
        r: spec_interpolate(start.r, end.r, step as int, step_number as int) as u8,
        g: spec_interpolate(start.g, end.g, step as int, step_number as int) as u8,
        b: spec_interpolate(start.b, end.b, step as int, step_number as int) as u8,
    }
}

/// Returns the value of one color channel at step `step` of a transition of
/// `step_number` steps: `start + step * (end - start) / step_number`,
/// truncating toward zero.
pub fn transition_step(start: u8, end: u8, step: u32, step_number: u32) -> (r: u8)
    requires
        step_number >= 1,
        step <= step_number,
    ensures
        r as int == spec_interpolate(start, end, step as int, step_number as int),
{
    interpolate(start, end, step as usize, step_number as usize)
}

impl<const N: usize> UnicolorTransition<N> {
    /// The start color of the transition.
    pub closed spec fn spec_start_color(&self) -> Rgb8 {
        self.start_color
    }

    /// The end color of the transition.
    pub closed spec fn spec_end_color(&self) -> Rgb8 {
        self.end_color
    }

    /// The configuration handed to the emitted sequences.
    pub closed spec fn spec_sequence_config(&self) -> UnicolorConfig {
        self.sequence_config
    }

    /// The end color of the transition.
    pub fn end_color(&self) -> (c: Rgb8)
        ensures
            c == self.spec_end_color(),
    {
        self.end_color
    }

    /// Builds a new transition from `start_color` to `end_color`, paced so
    /// that it takes one full `time_config` transition.
    pub fn new(
        sequence_config: UnicolorConfig,
        start_color: Rgb8,
        end_color: Rgb8,
        time_config: &TimeConfig,
    ) -> (t: Self)
        requires
            time_config.wf(),
        ensures
            t.wf(),
            t.spec_step() == 0,
            t.spec_step_number() == time_config.spec_transition_steps(),
            t.spec_start_color() == start_color,
            t.spec_end_color() == end_color,
            t.spec_sequence_config() == sequence_config,
    {
        UnicolorTransition {
            sequence_config,
            start_color,
            end_color,
            step_number: time_config.transition_steps(),
            step: 0,
        }
    }
}

impl<const N: usize> Chaser<N> for UnicolorTransition<N> {
    type Item = Unicolor<N>;

    closed spec fn wf(&self) -> bool {
        self.step <= self.step_number
    }

    closed spec fn spec_step(&self) -> u32 {
        self.step
    }

    closed spec fn spec_step_number(&self) -> u32 {
        self.step_number
    }

    open spec fn next_spec(pre: Self, post: Self, r: Option<Unicolor<N>>) -> bool {
        if pre.spec_step() < pre.spec_step_number() {
            let color = transition_color_at(
                pre.spec_start_color(),
                pre.spec_end_color(),
                pre.spec_step(),
                pre.spec_step_number(),
            );
            &&& post.spec_step() == pre.spec_step() + 1
            &&& post.spec_step_number() == pre.spec_step_number()
            &&& post.spec_start_color() == pre.spec_start_color()
            &&& post.spec_end_color() == pre.spec_end_color()
            &&& post.spec_sequence_config() == (UnicolorConfig { color })
            &&& match r {
                Some(u) => u.wf() && u.spec_config() == (UnicolorConfig { color }) && u.emitted()
                    == 0,
                None => false,
            }
        } else {
            &&& r is None
            &&& post == pre
        }
    }

    open spec fn time_config_pre(&self, time_config: &TimeConfig) -> bool {
        true
    }

    open spec fn time_config_spec(pre: Self, post: Self, time_config: &TimeConfig) -> bool {
        &&& post.spec_start_color() == pre.spec_start_color()
        &&& post.spec_end_color() == pre.spec_end_color()
        &&& post.spec_sequence_config() == pre.spec_sequence_config()
    }

    proof fn wf_properties(&self) {
    }

    fn next(&mut self) -> (r: Option<Unicolor<N>>) {
        if self.step < self.step_number {
            let color = Rgb8 {
                r: transition_step(self.start_color.r, self.end_color.r, self.step, self.step_number),
                g: transition_step(self.start_color.g, self.end_color.g, self.step, self.step_number),
                b: transition_step(self.start_color.b, self.end_color.b, self.step, self.step_number),
            };
            self.sequence_config = UnicolorConfig { color };
            self.step = self.step + 1;
            Some(Unicolor::new(self.sequence_config))
        } else {
            None
        }
    }

    fn set_time_config(&mut self, time_config: &TimeConfig) {
        let step_number = time_config.transition_steps();
        self.step = rescale_step(self.step, step_number, self.step_number);
        self.step_number = step_number;
    }
}

/// A transition reaches its end color to within the truncation error of one
/// step: the frame emitted at the last step (step `step_number - 1`) is, per
/// channel, exactly `ceil(|end - start| / step_number)` away from the end
/// color. After that step the transition is exhausted: by `next_spec`, a
/// transition at `step == step_number` emits nothing and no longer changes.
pub proof fn lemma_transition_reaches_end(start: Rgb8, end: Rgb8, step_number: u32)
    requires
        step_number >= 1,
    ensures
        ({
            let last = transition_color_at(start, end, (step_number - 1) as u32, step_number);
            let s = step_number as int;
            &&& start.r <= end.r ==> end.r - last.r == (end.r - start.r + s - 1) / s
            &&& end.r <= start.r ==> last.r - end.r == (start.r - end.r + s - 1) / s
            &&& start.g <= end.g ==> end.g - last.g == (end.g - start.g + s - 1) / s
            &&& end.g <= start.g ==> last.g - end.g == (start.g - end.g + s - 1) / s
            &&& start.b <= end.b ==> end.b - last.b == (end.b - start.b + s - 1) / s
            &&& end.b <= start.b ==> last.b - end.b == (start.b - end.b + s - 1) / s
        }),
{
    let s = step_number as int;
    lemma_interpolate_penultimate(start.r, end.r, s);
    lemma_interpolate_penultimate(start.g, end.g, s);
    lemma_interpolate_penultimate(start.b, end.b, s);
    lemma_interpolate_in_range(start.r, end.r, s - 1, s);
    lemma_interpolate_in_range(start.g, end.g, s - 1, s);
    lemma_interpolate_in_range(start.b, end.b, s - 1, s);
}

} // verus!
