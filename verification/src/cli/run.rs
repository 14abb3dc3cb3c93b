//! `thrindex run`: its arguments, the model input width, and the demo input
//! spike train.

use vstd::prelude::*;
use crate::artifact::layers::LayerKind;

verus! {

/// Arguments of `thrindex run`.
#[derive(Debug, Clone, PartialEq, Eq)]
pub struct RunArgs {
    /// Path to the `.thx` artifact.
    pub artifact: String,
    /// Encoder seed, passed through for transcript provenance.
    pub seed: u64,
    /// Number of threads; 0 means the hardware concurrency.
    pub threads: usize,
}

/// Input width of the first layer that declares one (a Dense or Conv2d
/// layer), scanning from layer `i`; `1` when none does.
pub open spec fn first_in_features_from(layers: Seq<(LayerKind, usize)>, i: int) -> usize
    decreases layers.len() - i,
{
    if i < 0 || i >= layers.len() {
        1
    } else if layers[i].0 == LayerKind::Dense || layers[i].0 == LayerKind::Conv2d {
        layers[i].1
    } else {
        first_in_features_from(layers, i + 1)
    }
}

/// The number of input features the model expects: that of its first Dense
/// or Conv2d layer, `1` when it has none. `layers[i]` is the kind of layer
/// `i` and its input width (read only for Dense and Conv2d layers).
pub fn first_in_features(layers: &Vec<(LayerKind, usize)>) -> (n: usize)
    ensures
        n == first_in_features_from(layers@, 0),
{
    let mut i: usize = 0;
    while i < layers.len()
        invariant
            i <= layers@.len(),
            first_in_features_from(layers@, 0) == first_in_features_from(layers@, i as int),
        decreases layers.len() - i,
    {
        let (kind, width) = layers[i];
        if kind == LayerKind::Dense || kind == LayerKind::Conv2d {
            return width;
        }
        i = i + 1;
    }
    1
}

/// The multiplier of the demo input generator's linear congruential step.
pub open spec fn lcg_mul() -> u64 {
    6_364_136_223_846_793_005
}

/// The increment of the demo input generator's linear congruential step.
pub open spec fn lcg_inc() -> u64 {
    1_442_695_040_888_963_407
}

/// One step of the demo input generator (wrapping 64-bit arithmetic).
pub open spec fn lcg_next(state: u64) -> u64 {
    ((state as int * lcg_mul() as int + lcg_inc() as int) % 0x1_0000_0000_0000_0000) as u64
}

/// The generator state after `k` steps from `state`.
pub open spec fn lcg_iter(state: u64, k: nat) -> u64
    decreases k,
{
    if k == 0 {
        state
    } else {
        lcg_next(lcg_iter(state, (k - 1) as nat))
    }
}

/// The generator's initial state for a seed.
pub open spec fn lcg_start(seed: u64) -> u64 {
    ((seed as int + lcg_mul() as int) % 0x1_0000_0000_0000_0000) as u64
}

/// A state yields a spike when its top 31 bits are a multiple of 5 (about one
/// time in five).
pub open spec fn spikes_at(state: u64) -> bool {
    (state / 0x2_0000_0000) % 5 == 0
}

/// One wrapping step of the demo input generator.
fn lcg_step(state: u64) -> (next: u64)
    ensures
        next == lcg_next(state),
{
    let a: u64 = 6_364_136_223_846_793_005;
    let c: u64 = 1_442_695_040_888_963_407;
    let m = state.wrapping_mul(a);
    let n = m.wrapping_add(c);
    proof {
        assert(m as int == (state as int * a as int) % 0x1_0000_0000_0000_0000);
        assert(n as int == (m as int + c as int) % 0x1_0000_0000_0000_0000);
        vstd::arithmetic::div_mod::lemma_add_mod_noop(
            state as int * a as int,
            c as int,
            0x1_0000_0000_0000_0000,
        );
        vstd::arithmetic::div_mod::lemma_mod_twice(c as int, 0x1_0000_0000_0000_0000);
        vstd::arithmetic::div_mod::lemma_small_mod(c as nat, 0x1_0000_0000_0000_0000);
    }
    n
}

/// The deterministic demo spike train of `t_steps` frames of `n_features`
/// cells: cell `(t, j)` is the `(t · n_features + j + 1)`-th generator state,
/// tested for a spike. It only makes `thrindex run` self-contained; real
/// inputs come pre-encoded.
pub fn synthetic_spikes(n_features: usize, t_steps: usize, seed: u64) -> (frames: Vec<Vec<bool>>)
    ensures
        frames@.len() == t_steps,
        forall|t: int|
            0 <= t < t_steps ==> (#[trigger] frames@[t])@.len() == n_features,
        forall|t: int, j: int|
            0 <= t < t_steps && 0 <= j < n_features ==> (#[trigger] frames@[t]@[j]) == spikes_at(
                lcg_iter(lcg_start(seed), (t * n_features + j + 1) as nat),
            ),
{
    let mut state = seed.wrapping_add(6_364_136_223_846_793_005);
    let ghost start = lcg_start(seed);
    proof {
        assert(state == start);
    }
    let mut frames: Vec<Vec<bool>> = Vec::new();
    let mut t: usize = 0;
    let ghost mut k: nat = 0;
    while t < t_steps
        invariant
            t <= t_steps,
            frames@.len() == t,
            k == t * n_features,
            state == lcg_iter(start, k),
            forall|tt: int| 0 <= tt < t ==> (#[trigger] frames@[tt])@.len() == n_features,
            forall|tt: int, j: int|
                0 <= tt < t && 0 <= j < n_features ==> (#[trigger] frames@[tt]@[j]) == spikes_at(
                    lcg_iter(start, (tt * n_features + j + 1) as nat),
                ),
        decreases t_steps - t,
    {
        let mut frame: Vec<bool> = Vec::new();
        let mut j: usize = 0;
        while j < n_features
            invariant
                j <= n_features,
                frame@.len() == j,
                state == lcg_iter(start, (k + j) as nat),
                forall|jj: int|
                    0 <= jj < j ==> (#[trigger] frame@[jj]) == spikes_at(
                        lcg_iter(start, (k + jj + 1) as nat),
                    ),
            decreases n_features - j,
        {
            state = lcg_step(state);
            proof {
                assert(lcg_iter(start, (k + j + 1) as nat) == lcg_next(lcg_iter(start, (k + j) as nat)));
            }
            frame.push((state >> 33) % 5 == 0);
            proof {
                assert((state >> 33) == state / 0x2_0000_0000) by (bit_vector);
            }
            j = j + 1;
        }
        frames.push(frame);
        proof {
            assert forall|tt: int, jj: int|
                0 <= tt < t + 1 && 0 <= jj < n_features implies (#[trigger] frames@[tt]@[jj]) == spikes_at(
                lcg_iter(start, (tt * n_features + jj + 1) as nat),
            ) by {
                if tt == t {
                    assert(k + jj + 1 == tt * n_features + jj + 1);
                }
            }
            assert((t + 1) * n_features == t * n_features + n_features) by (nonlinear_arith);
            k = k + n_features as nat;
        }
        t = t + 1;
    }
    frames
}

} // verus!
