//! A chaser that loops on the wheel of hues.

use vstd::prelude::*;

use super::Chaser;
use super::rescale_step;
use crate::color::Hsv;
use crate::color::Rgb8;
use crate::color::hsv_to_rgb;
use crate::color::spec_hsv_to_rgb;
use crate::sequence::ConfigWithMainColor;
use crate::sequence::Sequence;
use crate::time::TimeConfig;

use vstd::arithmetic::div_mod::lemma_multiply_divide_lt;
use vstd::arithmetic::div_mod::lemma_div_pos_is_pos;
use vstd::arithmetic::mul::lemma_mul_nonnegative;

verus! {

/// A configuration from which every recoloring is a valid configuration for
/// the sequence type `S`: the chaser may then recolor it freely.
pub open spec fn recolorings_valid<S: Sequence<N>, const N: usize>(config: S::Config) -> bool
    where S::Config: ConfigWithMainColor
{
    forall|c: Rgb8| S::valid_config(#[trigger] config.spec_with_main_color(c))
}

/// The hue shown at step `step` of a rainbow loop of `step_number` steps: the
/// start hue advanced by `step * 255 / step_number`, wrapping modulo 256.
pub open spec fn rainbow_chaser_hue(start_hue: u8, step: u32, step_number: u32) -> u8 {
    ((start_hue + step as int * 255 / step_number as int) % 256) as u8
}

/// A chaser that loops on the wheel of hues: on every tick it recolors its
/// sequence configuration with the next hue of a full 255-hue sweep across
/// `step_number` steps, and hands out a fresh sequence for that
/// configuration. It never exhausts: reaching `step_number` wraps back to the
/// start hue.
pub struct RainbowChaser<S: Sequence<N>, const N: usize> where S::Config: ConfigWithMainColor {
    /// The sequence configuration.
    sequence_config: S::Config,
    /// The start color.
    start_color: Hsv,
    /// The number of steps in a loop.
    step_number: u32,
    /// The current step.
    step: u32,
}

impl<S: Sequence<N>, const N: usize> RainbowChaser<S, N> where S::Config: ConfigWithMainColor {
    /// The start color of the hue loop.
    pub closed spec fn spec_start_color(&self) -> Hsv {
        self.start_color
    }

    /// The current sequence configuration.
    pub closed spec fn spec_sequence_config(&self) -> S::Config {
        self.sequence_config
    }

    /// Builds a new rainbow chaser over `sequence_config`, starting its hue
    /// loop at `start_color`.
    pub fn new(sequence_config: S::Config, start_color: Hsv, time_config: &TimeConfig) -> (c: Self)
        requires
            recolorings_valid::<S, N>(sequence_config),
            time_config.wf(),
            time_config.spec_transition_steps() >= 1,
        ensures
            c.wf(),
            c.spec_step() == 0,
            c.spec_step_number() == time_config.spec_transition_steps(),
            c.spec_start_color() == start_color,
            c.spec_sequence_config() == sequence_config,
    {
        RainbowChaser {
            sequence_config,
            start_color,
            step_number: time_config.transition_steps(),
            step: 0,
        }
    }
}

impl<S: Sequence<N>, const N: usize> Chaser<N> for RainbowChaser<S, N> where S::Config:
    ConfigWithMainColor {
    type Item = S;

    closed spec fn wf(&self) -> bool {
        &&& self.step <= self.step_number
        &&& self.step_number >= 1
        &&& recolorings_valid::<S, N>(self.sequence_config)
    }

    closed spec fn spec_step(&self) -> u32 {
        self.step
    }

    closed spec fn spec_step_number(&self) -> u32 {
        self.step_number
    }

    open spec fn next_spec(pre: Self, post: Self, r: Option<S>) -> bool {
        let eff_step: u32 = if pre.spec_step() == pre.spec_step_number() {
            0u32
        } else {
            pre.spec_step()
        };
        let hue = rainbow_chaser_hue(
            pre.spec_start_color().hue,
            eff_step,
            pre.spec_step_number(),
        );
        let color = spec_hsv_to_rgb(
            Hsv { hue, sat: pre.spec_start_color().sat, val: pre.spec_start_color().val },
        );
        let config = pre.spec_sequence_config().spec_with_main_color(color);
        &&& post.spec_step() == eff_step + 1
        &&& post.spec_step_number() == pre.spec_step_number()
        &&& post.spec_start_color() == pre.spec_start_color()
        &&& post.spec_sequence_config() == config
        &&& match r {
            Some(s) => s.wf() && s.spec_config() == config && s.emitted() == 0,
            None => false,
        }
    }

    open spec fn time_config_pre(&self, time_config: &TimeConfig) -> bool {
        true
    }

    open spec fn time_config_spec(pre: Self, post: Self, time_config: &TimeConfig) -> bool {
        &&& post.spec_start_color() == pre.spec_start_color()
        &&& post.spec_sequence_config() == pre.spec_sequence_config()
    }

    proof fn wf_properties(&self) {
    }

    fn next(&mut self) -> (r: Option<S>) {
        if self.step == self.step_number {
            self.step = 0;
        }
        proof {
            lemma_mul_nonnegative(self.step as int, 255);
            lemma_div_pos_is_pos(self.step as int * 255, self.step_number as int);
            lemma_multiply_divide_lt(self.step as int * 255, self.step_number as int, 255);
            vstd::arithmetic::mul::lemma_mul_strict_inequality(
                self.step as int,
                self.step_number as int,
                255,
            );
            vstd::arithmetic::mul::lemma_mul_is_commutative(self.step_number as int, 255);
        }
        let hue_advance = ((self.step as u64) * 255 / (self.step_number as u64)) as u8;
        let hue = ((self.start_color.hue as u32 + hue_advance as u32) % 256) as u8;
        let color = hsv_to_rgb(
            Hsv { hue, sat: self.start_color.sat, val: self.start_color.val },
        );
        self.sequence_config.set_main_color(color);
        proof {
            self.sequence_config.with_main_color_properties(color, color);
            assert forall|c: Rgb8|
                S::valid_config(#[trigger] self.sequence_config.spec_with_main_color(c)) by {
                old(self).sequence_config.with_main_color_properties(color, c);
            }
        }
        self.step = self.step + 1;
        Some(S::new(self.sequence_config))
    }

    fn set_time_config(&mut self, time_config: &TimeConfig) {
        let step_number = time_config.transition_steps();
        self.step = rescale_step(self.step, step_number, self.step_number);
        self.step_number = step_number;
    }
}

} // verus!
