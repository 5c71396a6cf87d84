//! Chasers: stateful drivers that produce a new sequence configuration on
//! every animation tick.

mod chaser_enum;
mod offset_progression;
mod rainbow_chaser;
mod random_unicolor;
mod unicolor_transition;

pub use chaser_enum::ChaserEnum;
pub use offset_progression::OffsetProgression;
pub use offset_progression::bumped_config;
pub use offset_progression::offset_bounds_ok;
pub use offset_progression::offsettings_valid;
pub use offset_progression::progressed_config;
pub use rainbow_chaser::RainbowChaser;
pub use rainbow_chaser::rainbow_chaser_hue;
pub use rainbow_chaser::recolorings_valid;
pub use random_unicolor::HueDistribution;
pub use random_unicolor::RandomUnicolor;
pub use random_unicolor::TransitionTimeDistribution;
pub use random_unicolor::spec_median_ms;
pub use random_unicolor::steps_for_ms;
pub use random_unicolor::timing_bounds_ok;
pub use unicolor_transition::UnicolorTransition;
pub use unicolor_transition::lemma_transition_reaches_end;
pub use unicolor_transition::transition_color_at;
pub use unicolor_transition::transition_step;

use vstd::prelude::*;

use crate::time::TimeConfig;

verus! {

/// `step * new_step_number / old_step_number`: the step counter rescaled so
/// that the fraction of the animation already played is preserved when the
/// total step count changes.
pub open spec fn rescaled_step(step: u32, new_step_number: u32, old_step_number: u32) -> int {
    step as int * new_step_number as int / old_step_number as int
}

/// A LED chaser: a stateful generator that produces the next item of an
/// animation on every call, and whose step counter can be rescaled when the
/// timing configuration changes.
pub trait Chaser<const N: usize>: Sized {
    type Item;

    /// Well-formedness of the chaser state.
    spec fn wf(&self) -> bool;

    /// The current step.
    spec fn spec_step(&self) -> u32;

    /// The total step count of the current animation phase.
    spec fn spec_step_number(&self) -> u32;

    /// What `next` does: how the state after a call relates to the state
    /// before it and to the produced item.
    spec fn next_spec(pre: Self, post: Self, r: Option<Self::Item>) -> bool;

    /// The conditions, beyond a well-formed state and a well-formed time
    /// configuration, under which the chaser accepts a new time
    /// configuration.
    spec fn time_config_pre(&self, time_config: &TimeConfig) -> bool;

    /// What `set_time_config` changes beyond the step counters.
    spec fn time_config_spec(pre: Self, post: Self, time_config: &TimeConfig) -> bool;

    /// A well-formed chaser's step never exceeds its step count.
    proof fn wf_properties(&self)
        requires
            self.wf(),
        ensures
            self.spec_step() <= self.spec_step_number(),
    ;

    /// Produces the next item of the animation, or `None` if the animation
    /// phase is exhausted.
    fn next(&mut self) -> (r: Option<Self::Item>)
        requires
            old(self).wf(),
        ensures
            final(self).wf(),
            Self::next_spec(*old(self), *final(self), r),
    ;

    /// Installs a new timing configuration, rescaling the step counter so the
    /// visual position of the animation is preserved.
    fn set_time_config(&mut self, time_config: &TimeConfig)
        requires
            old(self).wf(),
            time_config.wf(),
            old(self).spec_step_number() >= 1,
            time_config.spec_transition_steps() >= 1,
            old(self).time_config_pre(time_config),
        ensures
            final(self).wf(),
            final(self).spec_step_number() == time_config.spec_transition_steps(),
            final(self).spec_step() == rescaled_step(
                old(self).spec_step(),
                final(self).spec_step_number(),
                old(self).spec_step_number(),
            ),
            Self::time_config_spec(*old(self), *final(self), time_config),
    ;
}

/// Rescales `step` from a phase of `old_step_number` steps to one of
/// `new_step_number` steps, preserving the fraction of the animation already
/// played.
pub(crate) fn rescale_step(step: u32, new_step_number: u32, old_step_number: u32) -> (r: u32)
    requires
        step <= old_step_number,
        old_step_number >= 1,
    ensures
        r == rescaled_step(step, new_step_number, old_step_number),
        r <= new_step_number,
{
    proof {
        crate::interpolate::lemma_scaled_fraction_bounds(
            step as int,
            new_step_number as int,
            old_step_number as int,
        );
        vstd::arithmetic::mul::lemma_mul_upper_bound(
            step as int,
            u32::MAX as int,
            new_step_number as int,
            u32::MAX as int,
        );
    }
    ((step as u64) * (new_step_number as u64) / (old_step_number as u64)) as u32
}

/// Rescaling a step counter to its own current step count leaves it
/// unchanged: installing a chaser's current time configuration again moves
/// nothing.
pub proof fn lemma_rescale_identity(step: u32, step_number: u32)
    requires
        step_number >= 1,
    ensures
        rescaled_step(step, step_number, step_number) == step,
{
    vstd::arithmetic::div_mod::lemma_div_by_multiple(step as int, step_number as int);
}

/// Installing a time configuration whose step count equals a chaser's own
/// current step count leaves both the step and the step count unchanged: the
/// two clauses below are what `set_time_config` ensures of any chaser, and
/// under them the rescaled step is the old step.
pub proof fn lemma_set_time_config_idempotent<C: Chaser<N>, const N: usize>(
    pre: C,
    post: C,
    time_config: &TimeConfig,
)
    requires
        pre.spec_step_number() >= 1,
        time_config.spec_transition_steps() == pre.spec_step_number(),
        post.spec_step_number() == time_config.spec_transition_steps(),
        post.spec_step() == rescaled_step(
            pre.spec_step(),
            post.spec_step_number(),
            pre.spec_step_number(),
        ),
    ensures
        post.spec_step() == pre.spec_step(),
        post.spec_step_number() == pre.spec_step_number(),
{
    lemma_rescale_identity(pre.spec_step(), pre.spec_step_number());
}

} // verus!
