//! A chaser that slides a pattern's offset across its valid range.

use vstd::prelude::*;

use super::Chaser;
use super::rescale_step;
use crate::sequence::ConfigWithOffset;
use crate::sequence::Sequence;
use crate::time::TimeConfig;

use vstd::arithmetic::div_mod::lemma_div_is_ordered;
use vstd::arithmetic::div_mod::lemma_div_nonincreasing;
use vstd::arithmetic::div_mod::lemma_div_pos_is_pos;

verus! {

/// A configuration from which every re-offsetting is a valid configuration
/// for the sequence type `S`: the chaser may then slide the offset freely.
pub open spec fn offsettings_valid<S: Sequence<N>, const N: usize>(config: S::Config) -> bool
    where S::Config: ConfigWithOffset
{
    forall|o: i32| S::valid_config(#[trigger] config.spec_with_offset(o))
}

/// The configuration `config` with its offset moved by `delta`, provided its
/// current offset still lies within the valid range; a configuration whose
/// offset has already left the range is returned unchanged.
pub open spec fn bumped_config<C: ConfigWithOffset>(config: C, delta: int) -> C {
    if config.spec_min_offset() <= config.spec_offset() <= config.spec_max_offset() {
        config.spec_with_offset((config.spec_offset() + delta) as i32)
    } else {
        config
    }
}

/// The configuration after one progression step at step `step` out of
/// `step_number`. With few steps for a wide offset range the offset jumps by
/// `range / step_number` on every step; with many steps for a narrow range it
/// moves by one every `step_number / range` steps and holds still in between.
pub open spec fn progressed_config<C: ConfigWithOffset>(
    config: C,
    increment: bool,
    step: u32,
    step_number: u32,
) -> C {
    let range = config.spec_max_offset() - config.spec_min_offset();
    if step_number as int <= range {
        let jump = range / step_number as int;
        bumped_config(config, if increment { jump } else { -jump })
    } else {
        let hold = step_number as int / range;
        if step as int % hold == 0 {
            bumped_config(config, if increment { 1int } else { -1int })
        } else {
            config
        }
    }
}

/// A chaser that advances a pattern's offset toward one bound of its range
/// over `step_number` steps, then exhausts.
pub struct OffsetProgression<S: Sequence<N>, const N: usize> where S::Config: ConfigWithOffset {
    /// The sequence configuration.
    sequence_config: S::Config,
    /// Whether to increment (or decrement) the offset.
    increment: bool,
    /// The number of steps to perform the transition.
    step_number: u32,
    /// The current step.
    step: u32,
}

/// The offset bounds of `config` are wide enough to be meaningful and narrow
/// enough that no offset move can leave `i32`: the progression may then slide
/// the offset without overflow.
pub open spec fn offset_bounds_ok<C: ConfigWithOffset>(config: C) -> bool {
    let min = config.spec_min_offset() as int;
    let max = config.spec_max_offset() as int;
    let range = max - min;
    &&& min <= max
    &&& range >= 1
    &&& max + 2 * range <= i32::MAX as int
    &&& min - 2 * range >= i32::MIN as int
}

/// Moving a configuration's offset changes nothing but the offset: the
/// bounds, and the validity of every further re-offsetting, are preserved.
proof fn lemma_bump_preserves<S: Sequence<N>, const N: usize>(pre: S::Config, delta: int)
    where S::Config: ConfigWithOffset
    requires
        offsettings_valid::<S, N>(pre),
    ensures
        ({
            let post = bumped_config(pre, delta);
            &&& offsettings_valid::<S, N>(post)
            &&& post.spec_min_offset() == pre.spec_min_offset()
            &&& post.spec_max_offset() == pre.spec_max_offset()
            &&& (post == pre || post.spec_offset() == (pre.spec_offset() + delta) as i32)
        }),
{
    let post = bumped_config(pre, delta);
    if pre.spec_min_offset() <= pre.spec_offset() <= pre.spec_max_offset() {
        let x = (pre.spec_offset() + delta) as i32;
        pre.with_offset_properties(x, 0);
        assert forall|o: i32| S::valid_config(#[trigger] post.spec_with_offset(o)) by {
            pre.with_offset_properties(x, o);
        }
    }
}

impl<S: Sequence<N>, const N: usize> OffsetProgression<S, N> where S::Config: ConfigWithOffset {
    /// The current sequence configuration.
    pub closed spec fn spec_sequence_config(&self) -> S::Config {
        self.sequence_config
    }

    /// Whether the progression increments (rather than decrements) the
    /// offset.
    pub closed spec fn spec_increment(&self) -> bool {
        self.increment
    }

    /// Builds a new offset progression over `sequence_config`, moving its
    /// offset up (`increment`) or down over one full `time_config`
    /// transition.
    pub fn new(sequence_config: S::Config, increment: bool, time_config: &TimeConfig) -> (c: Self)
        requires
            S::valid_config(sequence_config),
            offsettings_valid::<S, N>(sequence_config),
            offset_bounds_ok(sequence_config),
            sequence_config.spec_min_offset() - (sequence_config.spec_max_offset()
                - sequence_config.spec_min_offset()) <= sequence_config.spec_offset()
                <= sequence_config.spec_max_offset() + (sequence_config.spec_max_offset()
                - sequence_config.spec_min_offset()),
            time_config.wf(),
            time_config.spec_transition_steps() >= 1,
        ensures
            c.wf(),
            c.spec_step() == 0,
            c.spec_step_number() == time_config.spec_transition_steps(),
            c.spec_sequence_config() == sequence_config,
            c.spec_increment() == increment,
    {
        OffsetProgression {
            sequence_config,
            increment,
            step_number: time_config.transition_steps(),
            step: 0,
        }
    }
}

impl<S: Sequence<N>, const N: usize> Chaser<N> for OffsetProgression<S, N> where S::Config:
    ConfigWithOffset {
    type Item = S;

    closed spec fn wf(&self) -> bool {
        let min = self.sequence_config.spec_min_offset() as int;
        let max = self.sequence_config.spec_max_offset() as int;
        let range = max - min;
        &&& self.step <= self.step_number
        &&& self.step_number >= 1
        &&& offset_bounds_ok(self.sequence_config)
        &&& min - range <= self.sequence_config.spec_offset() <= max + range
        &&& S::valid_config(self.sequence_config)
        &&& offsettings_valid::<S, N>(self.sequence_config)
    }

    closed spec fn spec_step(&self) -> u32 {
        self.step
    }

    closed spec fn spec_step_number(&self) -> u32 {
        self.step_number
    }

    open spec fn next_spec(pre: Self, post: Self, r: Option<S>) -> bool {
        if pre.spec_step() < pre.spec_step_number() {
            let config = progressed_config(
                pre.spec_sequence_config(),
                pre.spec_increment(),
                pre.spec_step(),
                pre.spec_step_number(),
            );
            &&& post.spec_step() == pre.spec_step() + 1
            &&& post.spec_step_number() == pre.spec_step_number()
            &&& post.spec_increment() == pre.spec_increment()
            &&& post.spec_sequence_config() == config
            &&& match r {
                Some(s) => s.wf() && s.spec_config() == config && s.emitted() == 0,
                None => false,
            }
        } else {
            &&& r is None
            &&& post == pre
        }
    }

    open spec fn time_config_pre(&self, time_config: &TimeConfig) -> bool {
        true
    }

    open spec fn time_config_spec(pre: Self, post: Self, time_config: &TimeConfig) -> bool {
        &&& post.spec_sequence_config() == pre.spec_sequence_config()
        &&& post.spec_increment() == pre.spec_increment()
    }

    proof fn wf_properties(&self) {
    }

    fn next(&mut self) -> (r: Option<S>) {
        if self.step < self.step_number {
            let ghost pre_config = self.sequence_config;
            let range = self.sequence_config.offset_range();
            if self.step_number <= range {
                proof {
                    lemma_div_pos_is_pos(range as int, self.step_number as int);
                    lemma_div_nonincreasing(range as int, self.step_number as int);
                }
                let jump = (range / self.step_number) as i32;
                let ghost delta: int = if self.increment {
                    jump as int
                } else {
                    -(jump as int)
                };
                if self.increment {
                    self.sequence_config.increment_offset(jump);
                } else {
                    self.sequence_config.increment_offset(-jump);
                }
                proof {
                    lemma_bump_preserves::<S, N>(pre_config, delta);
                    assert(self.sequence_config == bumped_config(pre_config, delta));
                }
            } else {
                proof {
                    vstd::arithmetic::div_mod::lemma_div_by_self(range as int);
                    lemma_div_is_ordered(range as int, self.step_number as int, range as int);
                }
                let holds = self.step_number / range;
                if self.step % holds == 0 {
                    let ghost delta: int = if self.increment {
                        1int
                    } else {
                        -1int
                    };
                    if self.increment {
                        self.sequence_config.increment_offset(1);
                    } else {
                        self.sequence_config.increment_offset(-1);
                    }
                    proof {
                        lemma_bump_preserves::<S, N>(pre_config, delta);
                        assert(self.sequence_config == bumped_config(pre_config, delta));
                    }
                }
            }
            self.step = self.step + 1;
            Some(S::new(self.sequence_config))
        } else {
            None
        }
    }

    fn set_time_config(&mut self, time_config: &TimeConfig) {
        let step_number = time_config.transition_steps();
        self.step = rescale_step(self.step, step_number, self.step_number);
        self.step_number = step_number;
    }
}

} // verus!
