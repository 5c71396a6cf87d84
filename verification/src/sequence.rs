//! Sequences: pure mappings from a small configuration to one frame of `N`
//! element colors, emitted one element per call.

mod duplicate;
mod gradient;
mod one_parameter;
mod pattern;
mod rainbow;
mod symmetry;
mod unicolor;

pub use duplicate::Duplicate;
pub use duplicate::DuplicateConfig;
pub use duplicate::duplicate_color_at;
pub use duplicate::lemma_duplicate_blocks;
pub use gradient::Gradient;
pub use gradient::GradientConfig;
pub use gradient::gradient_color_at;
pub use gradient::gradient_step;
pub use gradient::lemma_gradient_endpoints;
pub use one_parameter::OneParameterSequenceConfigEnum;
pub use one_parameter::OneParameterSequenceEnum;
pub use pattern::Pattern;
pub use pattern::PatternConfig;
pub use pattern::pattern_color_at;
pub use rainbow::Rainbow;
pub use rainbow::RainbowConfig;
pub use rainbow::rainbow_color_at;
pub use rainbow::rainbow_hue_at;
pub use symmetry::Symmetry;
pub use symmetry::lemma_symmetry_mirror;
pub use symmetry::symmetry_color_at;
pub use unicolor::Unicolor;
pub use unicolor::UnicolorConfig;

use vstd::prelude::*;

use crate::color::Rgb8;

verus! {

/// A LED sequence: a generator that emits the `N` colors of one frame, one
/// per call, in element order, then stops.
pub trait Sequence<const N: usize>: Sized {
    type Config: Copy;

    /// The color of element `i` in the frame rendered from `config`.
    spec fn color_at(config: Self::Config, i: int) -> Rgb8;

    /// The configurations a sequence can be built from.
    spec fn valid_config(config: Self::Config) -> bool;

    /// Well-formedness of the sequence state.
    spec fn wf(&self) -> bool;

    /// The configuration the sequence was built from.
    spec fn spec_config(&self) -> Self::Config;

    /// How many elements the sequence has emitted so far.
    spec fn emitted(&self) -> int;

    /// A well-formed sequence has a valid configuration and has emitted at
    /// most `N` elements.
    proof fn wf_properties(&self)
        requires
            self.wf(),
        ensures
            Self::valid_config(self.spec_config()),
            0 <= self.emitted() <= N as int,
    ;

    /// Creates a new sequence with the given config.
    fn new(config: Self::Config) -> (s: Self)
        requires
            Self::valid_config(config),
        ensures
            s.wf(),
            s.spec_config() == config,
            s.emitted() == 0,
    ;

    /// Gets the configuration of the sequence.
    fn config(&self) -> (c: Self::Config)
        requires
            self.wf(),
        ensures
            c == self.spec_config(),
    ;

    /// Emits the next element color, or `None` once all `N` elements have
    /// been emitted.
    fn next(&mut self) -> (r: Option<Rgb8>)
        requires
            old(self).wf(),
        ensures
            final(self).wf(),
            final(self).spec_config() == old(self).spec_config(),
            old(self).emitted() < N as int ==> {
                &&& r == Some(Self::color_at(old(self).spec_config(), old(self).emitted()))
                &&& final(self).emitted() == old(self).emitted() + 1
            },
            old(self).emitted() >= N as int ==> {
                &&& r == None::<Rgb8>
                &&& final(self).emitted() == old(self).emitted()
            },
    ;
}

/// The frame that a sequence of type `S` renders from `config`.
pub open spec fn frame_of<S: Sequence<N>, const N: usize>(config: S::Config) -> Seq<Rgb8> {
    Seq::new(N as nat, |i: int| S::color_at(config, i))
}

/// Renders one full frame from `config`: the colors of all `N` elements, in
/// element order.
pub fn render<S: Sequence<N>, const N: usize>(config: S::Config) -> (frame: Vec<Rgb8>)
    requires
        S::valid_config(config),
    ensures
        frame@ == frame_of::<S, N>(config),
{
    let mut s = S::new(config);
    let mut frame: Vec<Rgb8> = Vec::new();
    while frame.len() < N
        invariant
            s.wf(),
            s.spec_config() == config,
            s.emitted() == frame.len() as int,
            frame.len() <= N,
            forall|i: int| 0 <= i < frame.len() ==> frame@[i] == S::color_at(config, i),
        decreases N - frame.len(),
    {
        let c_opt = s.next();
        match c_opt {
            Some(c) => {
                frame.push(c);
            },
            None => {
                proof {
                    assert(false);
                }
            },
        }
    }
    proof {
        assert(frame@ =~= frame_of::<S, N>(config));
    }
    frame
}

/// A sequence configuration with a main color.
pub trait ConfigWithMainColor: Copy + Sized {
    /// The main color.
    spec fn spec_main_color(&self) -> Rgb8;

    /// The same configuration with its main color replaced by `color`.
    spec fn spec_with_main_color(&self, color: Rgb8) -> Self;

    /// Replacing the main color changes exactly the main color, and replacing
    /// it twice is the same as replacing it once with the later color.
    proof fn with_main_color_properties(&self, c1: Rgb8, c2: Rgb8)
        ensures
            self.spec_with_main_color(c1).spec_main_color() == c1,
            self.spec_with_main_color(c1).spec_with_main_color(c2)
                == self.spec_with_main_color(c2),
    ;

    /// Gets the main color.
    fn main_color(&self) -> (c: Rgb8)
        ensures
            c == self.spec_main_color(),
    ;

    /// Sets the main color.
    fn set_main_color(&mut self, color: Rgb8)
        ensures
            *final(self) == old(self).spec_with_main_color(color),
    ;
}

/// A sequence configuration with a slidable offset.
pub trait ConfigWithOffset: Copy + Sized {
    /// The minimum valid offset.
    spec fn spec_min_offset(&self) -> i32;

    /// The maximum valid offset.
    spec fn spec_max_offset(&self) -> i32;

    /// The current offset.
    spec fn spec_offset(&self) -> i32;

    /// The same configuration with its offset replaced by `offset`.
    spec fn spec_with_offset(&self, offset: i32) -> Self;

    /// Replacing the offset changes exactly the offset, and replacing it
    /// twice is the same as replacing it once with the later offset.
    proof fn with_offset_properties(&self, o1: i32, o2: i32)
        ensures
            self.spec_with_offset(o1).spec_offset() == o1,
            self.spec_with_offset(o1).spec_min_offset() == self.spec_min_offset(),
            self.spec_with_offset(o1).spec_max_offset() == self.spec_max_offset(),
            self.spec_with_offset(o1).spec_with_offset(o2) == self.spec_with_offset(o2),
    ;

    /// Gets the minimum valid offset.
    fn min_offset(&self) -> (r: i32)
        ensures
            r == self.spec_min_offset(),
    ;

    /// Gets the maximum valid offset.
    fn max_offset(&self) -> (r: i32)
        ensures
            r == self.spec_max_offset(),
    ;

    /// Returns the current offset.
    fn offset(&self) -> (r: i32)
        ensures
            r == self.spec_offset(),
    ;

    /// Sets the offset, if the requested offset lies within the valid range.
    fn set_offset(&mut self, offset: i32) -> (r: bool)
        ensures
            r == (old(self).spec_min_offset() <= offset <= old(self).spec_max_offset()),
            r ==> *final(self) == old(self).spec_with_offset(offset),
            !r ==> *final(self) == *old(self),
    ;

    /// Moves the offset by `offset`, if the current offset lies within the
    /// valid range.
    fn increment_offset(&mut self, offset: i32) -> (r: bool)
        requires
            i32::MIN <= old(self).spec_offset() + offset <= i32::MAX,
        ensures
            r == (old(self).spec_min_offset() <= old(self).spec_offset()
                <= old(self).spec_max_offset()),
            r ==> *final(self) == old(self).spec_with_offset(
                (old(self).spec_offset() + offset) as i32,
            ),
            !r ==> *final(self) == *old(self),
    ;

    /// The width of the valid offset range.
    fn offset_range(&self) -> (r: u32)
        requires
            self.spec_min_offset() <= self.spec_max_offset(),
        ensures
            r == self.spec_max_offset() - self.spec_min_offset(),
    {
        let min = self.min_offset();
        let max = self.max_offset();
        ((max as i64) - (min as i64)) as u32
    }
}

/// A sequence configuration with a secondary color.
pub trait ConfigWithSecondaryColor: Copy + Sized {
    /// The secondary color.
    spec fn spec_secondary_color(&self) -> Rgb8;

    /// The same configuration with its secondary color replaced by `color`.
    spec fn spec_with_secondary_color(&self, color: Rgb8) -> Self;

    proof fn with_secondary_color_properties(&self, c1: Rgb8, c2: Rgb8)
        ensures
            self.spec_with_secondary_color(c1).spec_secondary_color() == c1,
            self.spec_with_secondary_color(c1).spec_with_secondary_color(c2)
                == self.spec_with_secondary_color(c2),
    ;

    /// Gets the secondary color.
    fn secondary_color(&self) -> (c: Rgb8)
        ensures
            c == self.spec_secondary_color(),
    ;

    /// Sets the secondary color.
    fn set_secondary_color(&mut self, color: Rgb8)
        ensures
            *final(self) == old(self).spec_with_secondary_color(color),
    ;
}

} // verus!
