//! A sequence that repeats the same sequence multiple times.

use vstd::prelude::*;

use super::ConfigWithMainColor;
use super::Sequence;
use super::frame_of;
use crate::color::Rgb8;

use vstd::arithmetic::div_mod::lemma_mod_multiples_vanish;
use vstd::arithmetic::div_mod::lemma_small_mod;
use vstd::arithmetic::mul::lemma_mul_inequality;

verus! {

/// A sequence that repeats an inner sequence of `M` elements `duplicates`
/// times in a row, filling `N == duplicates * M` elements.
pub struct Duplicate<S: Sequence<M>, const N: usize, const M: usize> {
    /// The underlying sequence.
    sequence: S,
    /// The configuration.
    config: DuplicateConfig<S::Config>,
    /// The counter.
    counter: usize,
}

/// The configuration for duplicate sequences.
#[derive(Clone, Copy, Debug)]
pub struct DuplicateConfig<Config> {
    /// The configuration of the repeated inner sequence.
    pub config: Config,
    /// How many copies of the inner sequence fill the strip.
    pub duplicates: usize,
}

/// The color of duplicate element `i`: element `i % M` of the inner sequence.
pub open spec fn duplicate_color_at<S: Sequence<M>, const M: usize>(
    config: DuplicateConfig<S::Config>,
    i: int,
) -> Rgb8 {
    S::color_at(config.config, i % (M as int))
}

impl<S: Sequence<M>, const N: usize, const M: usize> Sequence<N> for Duplicate<S, N, M> {
    type Config = DuplicateConfig<S::Config>;

    open spec fn color_at(config: DuplicateConfig<S::Config>, i: int) -> Rgb8 {
        duplicate_color_at::<S, M>(config, i)
    }

    open spec fn valid_config(config: DuplicateConfig<S::Config>) -> bool {
        &&& N == config.duplicates * M
        &&& config.duplicates >= 1
        &&& S::valid_config(config.config)
    }

    closed spec fn wf(&self) -> bool {
        &&& Self::valid_config(self.config)
        &&& self.sequence.wf()
        &&& self.sequence.spec_config() == self.config.config
        &&& self.counter < self.config.duplicates
    }

    closed spec fn spec_config(&self) -> DuplicateConfig<S::Config> {
        self.config
    }

    closed spec fn emitted(&self) -> int {
        self.counter as int * M as int + self.sequence.emitted()
    }

    proof fn wf_properties(&self) {
        self.sequence.wf_properties();
        lemma_mul_inequality(self.counter + 1, self.config.duplicates as int, M as int);
        vstd::arithmetic::mul::lemma_mul_is_distributive_add_other_way(
            M as int,
            self.counter as int,
            1,
        );
        vstd::arithmetic::mul::lemma_mul_nonnegative(self.counter as int, M as int);
    }

    fn new(config: DuplicateConfig<S::Config>) -> (s: Self) {
        let sequence = S::new(config.config);
        Duplicate { sequence, config, counter: 0 }
    }

    fn config(&self) -> (c: DuplicateConfig<S::Config>) {
        self.config
    }

    fn next(&mut self) -> (r: Option<Rgb8>) {
        proof {
            self.wf_properties();
            self.sequence.wf_properties();
        }
        let first = self.sequence.next();
        match first {
            Some(color) => {
                proof {
                    lemma_mod_multiples_vanish(
                        old(self).counter as int,
                        old(self).sequence.emitted(),
                        M as int,
                    );
                    lemma_small_mod(old(self).sequence.emitted() as nat, M as nat);
                    lemma_mul_inequality(
                        old(self).counter as int + 1,
                        self.config.duplicates as int,
                        M as int,
                    );
                    vstd::arithmetic::mul::lemma_mul_is_distributive_add_other_way(
                        M as int,
                        old(self).counter as int,
                        1,
                    );
                    vstd::arithmetic::mul::lemma_mul_is_commutative(
                        old(self).counter as int,
                        M as int,
                    );
                }
                Some(color)
            },
            None => {
                if self.counter < self.config.duplicates - 1 {
                    self.counter = self.counter + 1;
                    self.sequence = S::new(self.config.config);
                    let again = self.sequence.next();
                    proof {
                        // the fresh inner sequence emits element 0, which is
                        // element `counter * M % M == 0` of the frame
                        if M >= 1 {
                            lemma_mod_multiples_vanish(self.counter as int, 0, M as int);
                            lemma_small_mod(0nat, M as nat);
                            vstd::arithmetic::mul::lemma_mul_is_commutative(
                                self.counter as int,
                                M as int,
                            );
                        }
                        lemma_mul_inequality(
                            self.counter as int,
                            self.config.duplicates as int - 1,
                            M as int,
                        );
                        vstd::arithmetic::mul::lemma_mul_is_distributive_sub_other_way(
                            M as int,
                            self.config.duplicates as int,
                            1,
                        );
                        vstd::arithmetic::mul::lemma_mul_is_distributive_add_other_way(
                            M as int,
                            old(self).counter as int,
                            1,
                        );
                        assert(old(self).emitted() == self.counter as int * M as int);
                    }
                    again
                } else {
                    proof {
                        // the last copy is exhausted: `(d - 1) * M + M == d * M == N`
                        vstd::arithmetic::mul::lemma_mul_is_distributive_sub_other_way(
                            M as int,
                            self.config.duplicates as int,
                            1,
                        );
                    }
                    None
                }
            },
        }
    }
}

/// A duplicate rendering is the inner rendering repeated `duplicates` times,
/// concatenated in order: every `M`-element block of the frame equals the
/// frame of the inner sequence.
pub proof fn lemma_duplicate_blocks<S: Sequence<M>, const N: usize, const M: usize>(
    config: DuplicateConfig<S::Config>,
    k: int,
)
    requires
        Duplicate::<S, N, M>::valid_config(config),
        0 <= k < config.duplicates,
    ensures
        frame_of::<Duplicate<S, N, M>, N>(config).subrange(k * M as int, (k + 1) * M as int)
            =~= frame_of::<S, M>(config.config),
{
    let m = M as int;
    lemma_mul_inequality(k + 1, config.duplicates as int, m);
    vstd::arithmetic::mul::lemma_mul_nonnegative(k, m);
    vstd::arithmetic::mul::lemma_mul_is_distributive_add_other_way(m, k, 1);
    assert forall|j: int| 0 <= j < m implies frame_of::<Duplicate<S, N, M>, N>(config)[k * m + j]
        == frame_of::<S, M>(config.config)[j] by {
        lemma_mod_multiples_vanish(k, j, m);
        lemma_small_mod(j as nat, M as nat);
    }
}

impl<Config: ConfigWithMainColor> ConfigWithMainColor for DuplicateConfig<Config> {
    open spec fn spec_main_color(&self) -> Rgb8 {
        self.config.spec_main_color()
    }

    open spec fn spec_with_main_color(&self, color: Rgb8) -> DuplicateConfig<Config> {
        DuplicateConfig { config: self.config.spec_with_main_color(color), ..*self }
    }

    proof fn with_main_color_properties(&self, c1: Rgb8, c2: Rgb8) {
        self.config.with_main_color_properties(c1, c2);
    }

    fn main_color(&self) -> (c: Rgb8) {
        self.config.main_color()
    }

    fn set_main_color(&mut self, color: Rgb8) {
        self.config.set_main_color(color);
    }
}

} // verus!
