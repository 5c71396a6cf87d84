//! A sequence in which LEDs have a color or not, selected by a boolean mask.

use vstd::prelude::*;

use super::ConfigWithMainColor;
use super::ConfigWithOffset;
use super::Sequence;
use crate::color::Rgb8;
use crate::color::off_color;

verus! {

/// A sequence in which LEDs have a color or not.
pub struct Pattern<const N: usize> {
    /// The configuration.
    config: PatternConfig<N>,
    /// The counter.
    counter: usize,
}

/// The configuration for pattern sequences.
#[derive(Clone, Copy, Debug)]
pub struct PatternConfig<const N: usize> {
    /// The color for on LEDs.
    pub color: Rgb8,
    /// The pattern.
    pub pattern: [bool; N],
    /// The minimum valid offset.
    pub min_offset: i32,
    /// The maximum valid offset.
    pub max_offset: i32,
    /// The offset of the pattern.
    pub offset: i32,
}

/// The color of pattern element `i`: the configured color where `i - offset`
/// lands on a set mask bit, and the off color everywhere else. An offset that
/// pushes `i - offset` outside the mask simply misses: no error, no wrap.
pub open spec fn pattern_color_at<const N: usize>(config: PatternConfig<N>, i: int) -> Rgb8 {
    let index = i - config.offset;
    if 0 <= index < N as int && config.pattern[index] {
        config.color
    } else {
        off_color()
    }
}

impl<const N: usize> Sequence<N> for Pattern<N> {
    type Config = PatternConfig<N>;

    open spec fn color_at(config: PatternConfig<N>, i: int) -> Rgb8 {
        pattern_color_at(config, i)
    }

    open spec fn valid_config(config: PatternConfig<N>) -> bool {
        N <= i32::MAX as usize
    }

    closed spec fn wf(&self) -> bool {
        self.counter <= N && N <= i32::MAX as usize
    }

    closed spec fn spec_config(&self) -> PatternConfig<N> {
        self.config
    }

    closed spec fn emitted(&self) -> int {
        self.counter as int
    }

    proof fn wf_properties(&self) {
    }

    fn new(config: PatternConfig<N>) -> (s: Self) {
        Pattern { config, counter: 0 }
    }

    fn config(&self) -> (c: PatternConfig<N>) {
        self.config
    }

    fn next(&mut self) -> (r: Option<Rgb8>) {
        if self.counter < N {
            let index = self.counter as i64 - self.config.offset as i64;
            let color = if 0 <= index && index < N as i64 && self.config.pattern[index as usize] {
                self.config.color
            } else {
                Rgb8 { r: 0, g: 0, b: 0 }
            };
            self.counter = self.counter + 1;
            Some(color)
        } else {
            None
        }
    }
}

impl<const N: usize> ConfigWithMainColor for PatternConfig<N> {
    open spec fn spec_main_color(&self) -> Rgb8 {
        self.color
    }

    open spec fn spec_with_main_color(&self, color: Rgb8) -> PatternConfig<N> {
        PatternConfig { color, ..*self }
    }

    proof fn with_main_color_properties(&self, c1: Rgb8, c2: Rgb8) {
    }

    fn main_color(&self) -> (c: Rgb8) {
        self.color
    }

    fn set_main_color(&mut self, color: Rgb8) {
        self.color = color;
    }
}

impl<const N: usize> ConfigWithOffset for PatternConfig<N> {
    open spec fn spec_min_offset(&self) -> i32 {
        self.min_offset
    }

    open spec fn spec_max_offset(&self) -> i32 {
        self.max_offset
    }

    open spec fn spec_offset(&self) -> i32 {
        self.offset
    }

    open spec fn spec_with_offset(&self, offset: i32) -> PatternConfig<N> {
        PatternConfig { offset, ..*self }
    }

    proof fn with_offset_properties(&self, o1: i32, o2: i32) {
    }

    fn min_offset(&self) -> (r: i32) {
        self.min_offset
    }

    fn max_offset(&self) -> (r: i32) {
        self.max_offset
    }

    fn offset(&self) -> (r: i32) {
        self.offset
    }

    fn set_offset(&mut self, offset: i32) -> (r: bool) {
        if offset >= self.min_offset && offset <= self.max_offset {
            self.offset = offset;
            true
        } else {
            false
        }
    }

    fn increment_offset(&mut self, offset: i32) -> (r: bool) {
        if self.offset >= self.min_offset && self.offset <= self.max_offset {
            self.offset = self.offset + offset;
            true
        } else {
            false
        }
    }
}

} // verus!
