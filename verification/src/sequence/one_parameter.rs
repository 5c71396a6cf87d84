//! A container enum over the sequences with a single element-count parameter.

use vstd::prelude::*;

use super::Gradient;
use super::GradientConfig;
use super::Pattern;
use super::PatternConfig;
use super::Rainbow;
use super::RainbowConfig;
use super::Sequence;
use super::Unicolor;
use super::UnicolorConfig;
use crate::color::Rgb8;

verus! {

/// The configuration for a `OneParameterSequenceEnum`: one variant per
/// sequence kind.
#[derive(Clone, Copy, Debug)]
pub enum OneParameterSequenceConfigEnum<const N: usize> {
    Unicolor(UnicolorConfig),
    Gradient(GradientConfig),
    Rainbow(RainbowConfig),
    Pattern(PatternConfig<N>),
}

/// A container enum erasing the concrete sequence type behind a fixed set of
/// variants, so a host can hold one sequence value without a sequence type
/// parameter leaking into its state. It forwards the whole sequence contract
/// to the active variant and adds no behavior of its own.
pub enum OneParameterSequenceEnum<const N: usize> {
    Unicolor(Unicolor<N>),
    Gradient(Gradient<N>),
    Rainbow(Rainbow<N>),
    Pattern(Pattern<N>),
}

impl<const N: usize> Sequence<N> for OneParameterSequenceEnum<N> {
    type Config = OneParameterSequenceConfigEnum<N>;

    open spec fn color_at(config: OneParameterSequenceConfigEnum<N>, i: int) -> Rgb8 {
        match config {
            OneParameterSequenceConfigEnum::Unicolor(c) => <Unicolor<N> as Sequence<N>>::color_at(
                c,
                i,
            ),
            OneParameterSequenceConfigEnum::Gradient(c) => <Gradient<N> as Sequence<N>>::color_at(
                c,
                i,
            ),
            OneParameterSequenceConfigEnum::Rainbow(c) => <Rainbow<N> as Sequence<N>>::color_at(
                c,
                i,
            ),
            OneParameterSequenceConfigEnum::Pattern(c) => <Pattern<N> as Sequence<N>>::color_at(
                c,
                i,
            ),
        }
    }

    open spec fn valid_config(config: OneParameterSequenceConfigEnum<N>) -> bool {
        match config {
            OneParameterSequenceConfigEnum::Unicolor(c) => <Unicolor<N> as Sequence<
                N,
            >>::valid_config(c),
            OneParameterSequenceConfigEnum::Gradient(c) => <Gradient<N> as Sequence<
                N,
            >>::valid_config(c),
            OneParameterSequenceConfigEnum::Rainbow(c) => <Rainbow<N> as Sequence<
                N,
            >>::valid_config(c),
            OneParameterSequenceConfigEnum::Pattern(c) => <Pattern<N> as Sequence<
                N,
            >>::valid_config(c),
        }
    }

    closed spec fn wf(&self) -> bool {
        match self {
            OneParameterSequenceEnum::Unicolor(s) => s.wf(),
            OneParameterSequenceEnum::Gradient(s) => s.wf(),
            OneParameterSequenceEnum::Rainbow(s) => s.wf(),
            OneParameterSequenceEnum::Pattern(s) => s.wf(),
        }
    }

    closed spec fn spec_config(&self) -> OneParameterSequenceConfigEnum<N> {
        match self {
            OneParameterSequenceEnum::Unicolor(s) => OneParameterSequenceConfigEnum::Unicolor(
                s.spec_config(),
            ),
            OneParameterSequenceEnum::Gradient(s) => OneParameterSequenceConfigEnum::Gradient(
                s.spec_config(),
            ),
            OneParameterSequenceEnum::Rainbow(s) => OneParameterSequenceConfigEnum::Rainbow(
                s.spec_config(),
            ),
            OneParameterSequenceEnum::Pattern(s) => OneParameterSequenceConfigEnum::Pattern(
                s.spec_config(),
            ),
        }
    }

    closed spec fn emitted(&self) -> int {
        match self {
            OneParameterSequenceEnum::Unicolor(s) => s.emitted(),
            OneParameterSequenceEnum::Gradient(s) => s.emitted(),
            OneParameterSequenceEnum::Rainbow(s) => s.emitted(),
            OneParameterSequenceEnum::Pattern(s) => s.emitted(),
        }
    }

    proof fn wf_properties(&self) {
        match self {
            OneParameterSequenceEnum::Unicolor(s) => s.wf_properties(),
            OneParameterSequenceEnum::Gradient(s) => s.wf_properties(),
            OneParameterSequenceEnum::Rainbow(s) => s.wf_properties(),
            OneParameterSequenceEnum::Pattern(s) => s.wf_properties(),
        }
    }

    fn new(config: OneParameterSequenceConfigEnum<N>) -> (s: Self) {
        match config {
            OneParameterSequenceConfigEnum::Unicolor(c) => OneParameterSequenceEnum::Unicolor(
                Unicolor::new(c),
            ),
            OneParameterSequenceConfigEnum::Gradient(c) => OneParameterSequenceEnum::Gradient(
                Gradient::new(c),
            ),
            OneParameterSequenceConfigEnum::Rainbow(c) => OneParameterSequenceEnum::Rainbow(
                Rainbow::new(c),
            ),
            OneParameterSequenceConfigEnum::Pattern(c) => OneParameterSequenceEnum::Pattern(
                Pattern::new(c),
            ),
        }
    }

    fn config(&self) -> (c: OneParameterSequenceConfigEnum<N>) {
        match self {
            OneParameterSequenceEnum::Unicolor(s) => OneParameterSequenceConfigEnum::Unicolor(
                s.config(),
            ),
            OneParameterSequenceEnum::Gradient(s) => OneParameterSequenceConfigEnum::Gradient(
                s.config(),
            ),
            OneParameterSequenceEnum::Rainbow(s) => OneParameterSequenceConfigEnum::Rainbow(
                s.config(),
            ),
            OneParameterSequenceEnum::Pattern(s) => OneParameterSequenceConfigEnum::Pattern(
                s.config(),
            ),
        }
    }

    fn next(&mut self) -> (r: Option<Rgb8>) {
        match self {
            OneParameterSequenceEnum::Unicolor(s) => s.next(),
            OneParameterSequenceEnum::Gradient(s) => s.next(),
            OneParameterSequenceEnum::Rainbow(s) => s.next(),
            OneParameterSequenceEnum::Pattern(s) => s.next(),
        }
    }
}

} // verus!
