//! A sequence that repeats the same sequence twice in symmetry.

use vstd::prelude::*;

use super::Sequence;
use super::frame_of;
use crate::color::Rgb8;

use vstd::arithmetic::div_mod::lemma_fundamental_div_mod_converse;

verus! {

/// A sequence that renders an inner sequence of `M` elements and then replays
/// it in reverse, mirroring the first half of the strip across the midpoint.
/// `N == 2 * M` mirrors every element; `N == 2 * M - 1` skips the duplicated
/// center element.
pub struct Symmetry<S: Sequence<M>, const N: usize, const M: usize> {
    /// The underlying sequence.
    sequence: S,
    /// The elements emitted so far by the underlying sequence, kept for
    /// replay in reverse.
    symmetry: Vec<Rgb8>,
    /// The counter.
    counter: usize,
    /// Whether the output is origin or symmetry.
    is_origin: bool,
}

/// The color of symmetric element `i`: element `i` of the inner sequence in
/// the first half, and element `N - 1 - i` in the mirrored second half.
pub open spec fn symmetry_color_at<S: Sequence<M>, const N: usize, const M: usize>(
    config: S::Config,
    i: int,
) -> Rgb8 {
    if i < M as int {
        S::color_at(config, i)
    } else {
        S::color_at(config, N as int - 1 - i)
    }
}

impl<S: Sequence<M>, const N: usize, const M: usize> Symmetry<S, N, M> {
    /// `N / 2 + N % 2 == M`: the length of the origin part of the strip.
    proof fn lemma_origin_half(&self)
        requires
            N as int == 2 * M as int || N as int == 2 * M as int - 1,
        ensures
            N as int / 2 + N as int % 2 == M as int,
    {
        if N as int == 2 * M as int {
            lemma_fundamental_div_mod_converse(N as int, 2, M as int, 0);
        } else {
            lemma_fundamental_div_mod_converse(N as int, 2, M as int - 1, 1);
        }
    }
}

impl<S: Sequence<M>, const N: usize, const M: usize> Sequence<N> for Symmetry<S, N, M> {
    type Config = S::Config;

    open spec fn color_at(config: S::Config, i: int) -> Rgb8 {
        symmetry_color_at::<S, N, M>(config, i)
    }

    open spec fn valid_config(config: S::Config) -> bool {
        &&& N as int == 2 * M as int || N as int == 2 * M as int - 1
        &&& S::valid_config(config)
    }

    closed spec fn wf(&self) -> bool {
        &&& Self::valid_config(self.sequence.spec_config())
        &&& self.sequence.wf()
        &&& self.symmetry@.len() == if self.is_origin {
            self.counter as int
        } else {
            M as int
        }
        &&& forall|j: int|
            0 <= j < self.symmetry@.len() ==> self.symmetry@[j] == S::color_at(
                self.sequence.spec_config(),
                j,
            )
        &&& if self.is_origin {
            self.counter <= M && self.sequence.emitted() == self.counter as int
        } else {
            self.counter as int <= N as int - M as int
        }
    }

    closed spec fn spec_config(&self) -> S::Config {
        self.sequence.spec_config()
    }

    closed spec fn emitted(&self) -> int {
        if self.is_origin {
            self.counter as int
        } else {
            N as int - self.counter as int
        }
    }

    proof fn wf_properties(&self) {
        self.sequence.wf_properties();
    }

    fn new(config: S::Config) -> (s: Self) {
        Symmetry { sequence: S::new(config), symmetry: Vec::new(), counter: 0, is_origin: true }
    }

    fn config(&self) -> (c: S::Config) {
        self.sequence.config()
    }

    fn next(&mut self) -> (r: Option<Rgb8>) {
        proof {
            self.sequence.wf_properties();
            self.lemma_origin_half();
        }
        if self.is_origin {
            if self.counter < N / 2 + N % 2 {
                // still rendering the origin half from the inner sequence
                let item = self.sequence.next();
                match item {
                    Some(color) => {
                        self.symmetry.push(color);
                        self.counter = self.counter + 1;
                        Some(color)
                    },
                    None => {
                        proof {
                            assert(false);
                        }
                        None
                    },
                }
            } else {
                // the origin half is complete: replay it backwards, skipping
                // the center element when the strip has odd length
                self.is_origin = false;
                let back = 1 + N % 2;
                if self.counter >= back {
                    self.counter = self.counter - back;
                    let color = self.symmetry[self.counter];
                    Some(color)
                } else {
                    self.counter = 0;
                    None
                }
            }
        } else if self.counter > 0 {
            self.counter = self.counter - 1;
            let color = self.symmetry[self.counter];
            Some(color)
        } else {
            None
        }
    }
}

/// A symmetric rendering is the inner rendering followed by its reverse: with
/// `N == 2 * M` the frame is the inner frame followed by its exact reverse,
/// and with `N == 2 * M - 1` it is the inner frame followed by the reverse of
/// the inner frame's first `M - 1` elements.
pub proof fn lemma_symmetry_mirror<S: Sequence<M>, const N: usize, const M: usize>(
    config: S::Config,
)
    requires
        Symmetry::<S, N, M>::valid_config(config),
    ensures
        frame_of::<Symmetry<S, N, M>, N>(config).subrange(0, M as int) =~= frame_of::<S, M>(
            config,
        ),
        N as int == 2 * M as int ==> frame_of::<Symmetry<S, N, M>, N>(config).subrange(
            M as int,
            N as int,
        ) =~= frame_of::<S, M>(config).reverse(),
        N as int == 2 * M as int - 1 ==> frame_of::<Symmetry<S, N, M>, N>(config).subrange(
            M as int,
            N as int,
        ) =~= frame_of::<S, M>(config).subrange(0, M as int - 1).reverse(),
{
}

} // verus!
