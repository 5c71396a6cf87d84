//! A container enum over the chasers that produce unicolor sequences.

use vstd::prelude::*;

use super::Chaser;
use super::RainbowChaser;
use super::RandomUnicolor;
use super::UnicolorTransition;
use crate::sequence::Unicolor;
use crate::time::TimeConfig;

verus! {

/// A container enum erasing the concrete chaser type behind a fixed set of
/// variants, so a host can hold one animation value without per-kind generic
/// parameters leaking into its state. It forwards the whole chaser contract
/// to the active variant and adds no behavior of its own.
pub enum ChaserEnum<const N: usize> {
    Rainbow(RainbowChaser<Unicolor<N>, N>),
    Transition(UnicolorTransition<N>),
    Random(RandomUnicolor<N>),
}

impl<const N: usize> Chaser<N> for ChaserEnum<N> {
    type Item = Unicolor<N>;

    closed spec fn wf(&self) -> bool {
        match self {
            ChaserEnum::Rainbow(c) => c.wf(),
            ChaserEnum::Transition(c) => c.wf(),
            ChaserEnum::Random(c) => c.wf(),
        }
    }

    closed spec fn spec_step(&self) -> u32 {
        match self {
            ChaserEnum::Rainbow(c) => c.spec_step(),
            ChaserEnum::Transition(c) => c.spec_step(),
            ChaserEnum::Random(c) => c.spec_step(),
        }
    }

    closed spec fn spec_step_number(&self) -> u32 {
        match self {
            ChaserEnum::Rainbow(c) => c.spec_step_number(),
            ChaserEnum::Transition(c) => c.spec_step_number(),
            ChaserEnum::Random(c) => c.spec_step_number(),
        }
    }

    open spec fn next_spec(pre: Self, post: Self, r: Option<Unicolor<N>>) -> bool {
        match (pre, post) {
            (ChaserEnum::Rainbow(a), ChaserEnum::Rainbow(b)) => RainbowChaser::<
                Unicolor<N>,
                N,
            >::next_spec(a, b, r),
            (ChaserEnum::Transition(a), ChaserEnum::Transition(b)) => UnicolorTransition::<
                N,
            >::next_spec(a, b, r),
            (ChaserEnum::Random(a), ChaserEnum::Random(b)) => RandomUnicolor::<N>::next_spec(
                a,
                b,
                r,
            ),
            _ => false,
        }
    }

    open spec fn time_config_pre(&self, time_config: &TimeConfig) -> bool {
        match self {
            ChaserEnum::Rainbow(c) => c.time_config_pre(time_config),
            ChaserEnum::Transition(c) => c.time_config_pre(time_config),
            ChaserEnum::Random(c) => c.time_config_pre(time_config),
        }
    }

    open spec fn time_config_spec(pre: Self, post: Self, time_config: &TimeConfig) -> bool {
        match (pre, post) {
            (ChaserEnum::Rainbow(a), ChaserEnum::Rainbow(b)) => RainbowChaser::<
                Unicolor<N>,
                N,
            >::time_config_spec(a, b, time_config),
            (ChaserEnum::Transition(a), ChaserEnum::Transition(b)) => UnicolorTransition::<
                N,
            >::time_config_spec(a, b, time_config),
            (ChaserEnum::Random(a), ChaserEnum::Random(b)) => RandomUnicolor::<
                N,
            >::time_config_spec(a, b, time_config),
            _ => false,
        }
    }

    proof fn wf_properties(&self) {
        match self {
            ChaserEnum::Rainbow(c) => c.wf_properties(),
            ChaserEnum::Transition(c) => c.wf_properties(),
            ChaserEnum::Random(c) => c.wf_properties(),
        }
    }

    fn next(&mut self) -> (r: Option<Unicolor<N>>) {
        match self {
            ChaserEnum::Rainbow(c) => c.next(),
            ChaserEnum::Transition(c) => c.next(),
            ChaserEnum::Random(c) => c.next(),
        }
    }

    fn set_time_config(&mut self, time_config: &TimeConfig) {
        match self {
            ChaserEnum::Rainbow(c) => c.set_time_config(time_config),
            ChaserEnum::Transition(c) => c.set_time_config(time_config),
            ChaserEnum::Random(c) => c.set_time_config(time_config),
        }
    }
}

} // verus!
