//! A LED chaser that performs random transitions.

use vstd::prelude::*;

use super::Chaser;
use super::UnicolorTransition;
use super::transition_color_at;
use crate::color::Hsv;
use crate::color::Rgb8;
use crate::color::hsv_to_rgb;
use crate::color::spec_hsv_to_rgb;
use crate::interpolate::lemma_interpolate_first;
use crate::sequence::Sequence;
use crate::sequence::Unicolor;
use crate::sequence::UnicolorConfig;
use crate::time::Duration;
use crate::time::TimeConfig;

use vstd::arithmetic::div_mod::lemma_div_is_ordered;
use vstd::arithmetic::mul::lemma_mul_inequality;
use vstd::arithmetic::mul::lemma_mul_is_commutative;

verus! {

#[verifier::external_type_specification]
#[verifier::external_body]
pub struct ExSmallRng(rand::rngs::SmallRng);

/// A uniform distribution over hues, modeled by the bounds it samples from: a
/// sampled hue lies in the half-open range `[low, high)` and is then wrapped
/// into a byte.
#[derive(Clone, Copy, Debug, PartialEq, Eq, Structural)]
pub struct HueDistribution {
    /// The inclusive lower bound.
    pub low: i16,
    /// The exclusive upper bound.
    pub high: i16,
}

/// A uniform distribution over transition times in milliseconds, modeled by
/// the bounds it samples from: a sampled time lies in the half-open range
/// `[low, high)`.
#[derive(Clone, Copy, Debug, PartialEq, Eq, Structural)]
pub struct TransitionTimeDistribution {
    /// The inclusive lower bound, in milliseconds.
    pub low: u32,
    /// The exclusive upper bound, in milliseconds.
    pub high: u32,
}

/// Relies on `rand::SeedableRng::seed_from_u64`: builds a small, fast random
/// number generator from a seed.
#[verifier::external_body]
fn small_rng_from_seed(seed: u64) -> rand::rngs::SmallRng {
    <rand::rngs::SmallRng as rand::SeedableRng>::seed_from_u64(seed)
}

/// Relies on `rand::Rng::gen`: a random byte; nothing is promised of it.
#[verifier::external_body]
fn random_u8(rng: &mut rand::rngs::SmallRng) -> u8 {
    rand::Rng::gen(rng)
}

/// Relies on `rand::Rng::gen_range` for `i16`: samples uniformly from the
/// half-open range `[low, high)`; it panics on an empty range, so that input
/// is excluded.
#[verifier::external_body]
fn sample_i16(rng: &mut rand::rngs::SmallRng, low: i16, high: i16) -> (r: i16)
    requires
        low < high,
    ensures
        low <= r < high,
{
    rand::Rng::gen_range(rng, low..high)
}

/// Relies on `rand::Rng::gen_range` for `u32`: samples uniformly from the
/// half-open range `[low, high)`; it panics on an empty range, so that input
/// is excluded.
#[verifier::external_body]
fn sample_u32(rng: &mut rand::rngs::SmallRng, low: u32, high: u32) -> (r: u32)
    requires
        low < high,
    ensures
        low <= r < high,
{
    rand::Rng::gen_range(rng, low..high)
}

/// The step count of a transition of `ms` milliseconds at `refresh_rate`
/// frames per second.
pub open spec fn steps_for_ms(refresh_rate: u32, ms: u32) -> int {
    refresh_rate as int * ms as int / 1000
}

/// The median transition time of `time_config`, in milliseconds.
pub open spec fn spec_median_ms(time_config: TimeConfig) -> int {
    time_config.transition_time.ticks as int * 1000 * time_config.transition_time.num as int
        / time_config.transition_time.denom as int
}

/// A refresh rate and a transition-time distribution from which every
/// generated transition has at least one step and a step count computed
/// without overflow.
pub open spec fn timing_bounds_ok(
    refresh_rate: u32,
    distribution: TransitionTimeDistribution,
) -> bool {
    &&& refresh_rate >= 1
    &&& distribution.low < distribution.high
    &&& refresh_rate as int * distribution.low as int >= 1000
    &&& refresh_rate as int * (distribution.high as int - 1) <= u32::MAX as int
}

/// A LED chaser that performs random transitions: it runs a color transition
/// to its end, then seamlessly starts a new one toward a randomly sampled hue
/// over a randomly sampled duration, forever.
pub struct RandomUnicolor<const N: usize> {
    /// The random number generator for color and transition speed selection.
    rng: rand::rngs::SmallRng,
    /// The refresh rate, in frames per second.
    refresh_rate: u32,
    /// The hue distribution.
    hue_distr: HueDistribution,
    /// The transition speed distribution.
    transition_time_distr: TransitionTimeDistribution,
    /// The ongoing transition.
    transition: UnicolorTransition<N>,
}

/// Builds one random transition: the end color is a fully saturated, fully
/// bright color of a hue sampled from `hue_distr`, and the step count comes
/// from a transition time sampled from `transition_time_distr`, in
/// milliseconds, at the given refresh rate.
fn generate_transition<const N: usize>(
    rng: &mut rand::rngs::SmallRng,
    refresh_rate: u32,
    hue_distr: HueDistribution,
    transition_time_distr: TransitionTimeDistribution,
    start_color: Rgb8,
) -> (t: UnicolorTransition<N>)
    requires
        hue_distr.low < hue_distr.high,
        timing_bounds_ok(refresh_rate, transition_time_distr),
    ensures
        t.wf(),
        t.spec_step() == 0,
        t.spec_step_number() >= 1,
        t.spec_start_color() == start_color,
        t.spec_sequence_config() == (UnicolorConfig { color: start_color }),
        exists|h: u8|
            t.spec_end_color() == spec_hsv_to_rgb(Hsv { hue: h, sat: 255u8, val: 255u8 }),
        exists|ms: u32|
            transition_time_distr.low <= ms < transition_time_distr.high
                && t.spec_step_number() as int == #[trigger] steps_for_ms(refresh_rate, ms),
{
    let end_hue_raw = sample_i16(rng, hue_distr.low, hue_distr.high);
    let end_hue = #[verifier::truncate] (end_hue_raw as u8);
    let end_color = hsv_to_rgb(Hsv { hue: end_hue, sat: 255, val: 255 });
    let transition_time = sample_u32(rng, transition_time_distr.low, transition_time_distr.high);
    proof {
        let low = transition_time_distr.low as int;
        let high = transition_time_distr.high as int;
        let rate = refresh_rate as int;
        lemma_mul_inequality(transition_time as int, high - 1, rate);
        lemma_mul_inequality(low, transition_time as int, rate);
        lemma_mul_is_commutative(transition_time as int, rate);
        lemma_mul_is_commutative(low, rate);
        lemma_mul_is_commutative(high - 1, rate);
        lemma_div_is_ordered(1000, rate * transition_time as int, 1000);
    }
    let time_config = TimeConfig::new(refresh_rate, Duration::milliseconds(transition_time));
    let t = UnicolorTransition::new(
        UnicolorConfig { color: start_color },
        start_color,
        end_color,
        &time_config,
    );
    proof {
        assert(exists|h: u8|
            t.spec_end_color() == spec_hsv_to_rgb(Hsv { hue: h, sat: 255u8, val: 255u8 })) by {
            assert(t.spec_end_color() == spec_hsv_to_rgb(
                Hsv { hue: end_hue, sat: 255u8, val: 255u8 },
            ));
        }
        assert(exists|ms: u32|
            transition_time_distr.low <= ms < transition_time_distr.high
                && t.spec_step_number() as int == #[trigger] steps_for_ms(refresh_rate, ms)) by {
            assert(transition_time_distr.low <= transition_time < transition_time_distr.high
                && t.spec_step_number() as int == steps_for_ms(refresh_rate, transition_time));
        }
    }
    t
}

impl<const N: usize> RandomUnicolor<N> {
    /// The ongoing transition.
    pub closed spec fn spec_transition(&self) -> UnicolorTransition<N> {
        self.transition
    }

    /// The refresh rate, in frames per second.
    pub closed spec fn spec_refresh_rate(&self) -> u32 {
        self.refresh_rate
    }

    /// The hue distribution.
    pub closed spec fn spec_hue_distr(&self) -> HueDistribution {
        self.hue_distr
    }

    /// The transition time distribution.
    pub closed spec fn spec_transition_time_distr(&self) -> TransitionTimeDistribution {
        self.transition_time_distr
    }

    /// Builds a new random unicolor chaser.
    pub fn new(
        refresh_rate: u32,
        hue_distr: HueDistribution,
        transition_time_distr: TransitionTimeDistribution,
    ) -> (c: Self)
        requires
            hue_distr.low < hue_distr.high,
            timing_bounds_ok(refresh_rate, transition_time_distr),
        ensures
            c.wf(),
            c.spec_step() == 0,
            c.spec_refresh_rate() == refresh_rate,
            c.spec_hue_distr() == hue_distr,
            c.spec_transition_time_distr() == transition_time_distr,
    {
        let mut rng = small_rng_from_seed(0);
        let start_hue = random_u8(&mut rng);
        let start_color = hsv_to_rgb(Hsv { hue: start_hue, sat: 255, val: 255 });
        let transition = generate_transition(
            &mut rng,
            refresh_rate,
            hue_distr,
            transition_time_distr,
            start_color,
        );
        RandomUnicolor { rng, refresh_rate, hue_distr, transition_time_distr, transition }
    }

    /// Sets the color temperature.
    ///
    /// A negative value gives warmer hues, a positive one colder hues.
    pub fn set_temperature(&mut self, temperature: i8)
        requires
            old(self).wf(),
            temperature != i8::MIN,
        ensures
            final(self).wf(),
            final(self).spec_transition() == old(self).spec_transition(),
            final(self).spec_refresh_rate() == old(self).spec_refresh_rate(),
            final(self).spec_transition_time_distr() == old(self).spec_transition_time_distr(),
            ({
                let magnitude = if temperature < 0 {
                    -(temperature as int)
                } else {
                    temperature as int
                };
                final(self).spec_hue_distr() == if temperature < 0 {
                    HueDistribution {
                        low: (-128 + magnitude) as i16,
                        high: (127 - magnitude) as i16,
                    }
                } else {
                    HueDistribution { low: magnitude as i16, high: (255 - magnitude) as i16 }
                }
            }),
    {
        let magnitude = if temperature < 0 {
            -(temperature as i16)
        } else {
            temperature as i16
        };
        self.hue_distr = if temperature < 0 {
            HueDistribution { low: -128 + magnitude, high: 127 - magnitude }
        } else {
            HueDistribution { low: magnitude, high: 255 - magnitude }
        };
    }
}

impl<const N: usize> Chaser<N> for RandomUnicolor<N> {
    type Item = Unicolor<N>;

    closed spec fn wf(&self) -> bool {
        &&& timing_bounds_ok(self.refresh_rate, self.transition_time_distr)
        &&& self.hue_distr.low < self.hue_distr.high
        &&& self.transition.wf()
        &&& self.transition.spec_step_number() >= 1
    }

    closed spec fn spec_step(&self) -> u32 {
        self.transition.spec_step()
    }

    closed spec fn spec_step_number(&self) -> u32 {
        self.transition.spec_step_number()
    }

    open spec fn next_spec(pre: Self, post: Self, r: Option<Unicolor<N>>) -> bool {
        &&& post.spec_refresh_rate() == pre.spec_refresh_rate()
        &&& post.spec_hue_distr() == pre.spec_hue_distr()
        &&& post.spec_transition_time_distr() == pre.spec_transition_time_distr()
        &&& if pre.spec_transition().spec_step() < pre.spec_transition().spec_step_number() {
            // the ongoing transition still has a frame
            UnicolorTransition::<N>::next_spec(pre.spec_transition(), post.spec_transition(), r)
        } else {
            // the transition is exhausted: a fresh one starts, seamlessly,
            // from the color the old one ended on
            &&& post.spec_transition().spec_step() == 1
            &&& post.spec_transition().spec_step_number() >= 1
            &&& post.spec_transition().spec_start_color()
                == pre.spec_transition().spec_end_color()
            &&& (exists|h: u8|
                post.spec_transition().spec_end_color() == spec_hsv_to_rgb(
                    Hsv { hue: h, sat: 255u8, val: 255u8 },
                ))
            &&& (exists|ms: u32|
                pre.spec_transition_time_distr().low <= ms
                    < pre.spec_transition_time_distr().high
                    && post.spec_transition().spec_step_number() as int == #[trigger] steps_for_ms(
                    pre.spec_refresh_rate(),
                    ms,
                ))
            &&& match r {
                Some(u) => u.wf() && u.spec_config() == (UnicolorConfig {
                    color: pre.spec_transition().spec_end_color(),
                }) && u.emitted() == 0,
                None => false,
            }
        }
    }

    open spec fn time_config_pre(&self, time_config: &TimeConfig) -> bool {
        let median = spec_median_ms(*time_config);
        let v = median * 2 / 3;
        &&& time_config.transition_time.ticks as int * 1000 * time_config.transition_time.num
            as int <= u32::MAX as int
        &&& median >= 2
        &&& median + v <= u32::MAX as int
        &&& timing_bounds_ok(
            time_config.refresh_rate,
            TransitionTimeDistribution { low: (median - v) as u32, high: (median + v) as u32 },
        )
    }

    open spec fn time_config_spec(pre: Self, post: Self, time_config: &TimeConfig) -> bool {
        let median = spec_median_ms(*time_config);
        let v = median * 2 / 3;
        &&& post.spec_refresh_rate() == time_config.refresh_rate
        &&& post.spec_hue_distr() == pre.spec_hue_distr()
        &&& post.spec_transition_time_distr() == (TransitionTimeDistribution {
            low: (median - v) as u32,
            high: (median + v) as u32,
        })
        &&& post.spec_transition().spec_start_color() == pre.spec_transition().spec_start_color()
        &&& post.spec_transition().spec_end_color() == pre.spec_transition().spec_end_color()
        &&& post.spec_transition().spec_sequence_config()
            == pre.spec_transition().spec_sequence_config()
    }

    proof fn wf_properties(&self) {
        self.transition.wf_properties();
    }

    fn next(&mut self) -> (r: Option<Unicolor<N>>) {
        let first = self.transition.next();
        match first {
            Some(sequence) => Some(sequence),
            None => {
                let start_color = self.transition.end_color();
                let fresh = generate_transition(
                    &mut self.rng,
                    self.refresh_rate,
                    self.hue_distr,
                    self.transition_time_distr,
                    start_color,
                );
                self.transition = fresh;
                let second = self.transition.next();
                proof {
                    // the first frame of a fresh transition is its start
                    // color exactly: there is no visible gap at the seam
                    lemma_interpolate_first(
                        start_color.r,
                        fresh.spec_end_color().r,
                        fresh.spec_step_number() as int,
                    );
                    lemma_interpolate_first(
                        start_color.g,
                        fresh.spec_end_color().g,
                        fresh.spec_step_number() as int,
                    );
                    lemma_interpolate_first(
                        start_color.b,
                        fresh.spec_end_color().b,
                        fresh.spec_step_number() as int,
                    );
                    assert(transition_color_at(
                        start_color,
                        fresh.spec_end_color(),
                        0u32,
                        fresh.spec_step_number(),
                    ) == start_color);
                }
                second
            },
        }
    }

    fn set_time_config(&mut self, time_config: &TimeConfig) {
        self.refresh_rate = time_config.refresh_rate;

        proof {
            lemma_mul_inequality(
                1,
                time_config.transition_time.num as int,
                time_config.transition_time.ticks as int * 1000,
            );
            lemma_mul_is_commutative(
                time_config.transition_time.num as int,
                time_config.transition_time.ticks as int * 1000,
            );
        }
        let median_time_ms = time_config.transition_time.ticks * 1000
            * time_config.transition_time.num / time_config.transition_time.denom;
        let v = ((median_time_ms as u64) * 2 / 3) as u32;
        self.transition_time_distr = TransitionTimeDistribution {
            low: median_time_ms - v,
            high: median_time_ms + v,
        };

        // update the ongoing transition
        self.transition.set_time_config(time_config);
    }
}

} // verus!
