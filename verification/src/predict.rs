//! The prediction cache and the completion selection.  The cache memoizes
//! the last computed completion list, keyed by an FNV-1a hash of the buffer
//! it was computed for; any buffer mutation invalidates it lazily, at the
//! next recompute.  The selection cycles through the cached predictions on
//! repeated completion-trigger presses.

use vstd::prelude::*;

use vstd::arithmetic::div_mod::{
    lemma_add_mod_noop_right,
    lemma_mod_division_less_than_divisor,
    lemma_small_mod,
};

verus! {

/// The memoized completion list: `key` hashes the buffer the predictions
/// were computed for, and `exact_match` records that the single prediction
/// equals the buffer verbatim, which suppresses the overlay and completion
/// cycling.
pub struct PredictionCache {
    pub key: Option<u64>,
    pub predictions: Vec<String>,
    pub exact_match: bool,
}

/// One FNV-1a round: fold a character into the running hash.
pub open spec fn fnv_step(h: u64, c: char) -> u64 {
    vstd::wrapping::u64_specs::wrapping_mul(h ^ (c as u64), 0x100000001b3)
}

/// The FNV-1a hash of the first `n` characters of the buffer.
pub open spec fn buffer_hash_upto(s: Seq<char>, n: int) -> u64
    decreases n,
{
    if n <= 0 {
        0xcbf29ce484222325u64
    } else {
        fnv_step(buffer_hash_upto(s, n - 1), s[n - 1])
    }
}

/// The cache key of a buffer: the FNV-1a hash of its characters.
pub open spec fn buffer_hash(s: Seq<char>) -> u64 {
    buffer_hash_upto(s, s.len() as int)
}

/// Computes the cache key of the buffer.
pub fn compute_hash(chars: &Vec<char>) -> (r: u64)
    ensures
        r == buffer_hash(chars@),
{
    let mut h: u64 = 0xcbf29ce484222325;
    let mut i: usize = 0;
    while i < chars.len()
        invariant
            i <= chars@.len(),
            h == buffer_hash_upto(chars@, i as int),
        decreases chars@.len() - i,
    {
        h = (h ^ (chars[i] as u64)).wrapping_mul(0x100000001b3);
        i = i + 1;
    }
    h
}

impl PredictionCache {
    /// An empty cache: nothing memoized, nothing to suppress.
    pub fn new() -> (r: PredictionCache)
        ensures
            r.key is None,
            r.predictions@.len() == 0,
            !r.exact_match,
    {
        PredictionCache { key: None, predictions: Vec::new(), exact_match: false }
    }

    /// Drops the memoized list and its key.
    pub fn reset(&mut self)
        ensures
            final(self).key is None,
            final(self).predictions@.len() == 0,
            !final(self).exact_match,
    {
        self.predictions.clear();
        self.key = None;
        self.exact_match = false;
    }
}

/// The selection after one completion-trigger press: the first prediction
/// when nothing is selected yet, else the next one, wrapping at `len`.
pub open spec fn spec_cycle(sel: Option<usize>, len: usize) -> Option<usize>
    recommends
        len > 0,
{
    match sel {
        None => Some(0usize),
        Some(i) => Some((((i + 1) as int % (len as int)) as usize)),
    }
}

/// The selection after `n` completion-trigger presses.
pub open spec fn spec_cycle_n(sel: Option<usize>, len: usize, n: nat) -> Option<usize>
    decreases n,
{
    if n == 0 {
        sel
    } else {
        spec_cycle_n(spec_cycle(sel, len), len, (n - 1) as nat)
    }
}

/// After `n` presses the selection sits `n` past where it started, modulo
/// the number of predictions.
proof fn lemma_cycle_n_adds(i: usize, len: usize, n: nat)
    requires
        0 < len,
        i < len,
    ensures
        spec_cycle_n(Some(i), len, n) == Some((((i + n) as int % (len as int)) as usize)),
    decreases n,
{
    if n == 0 {
        lemma_small_mod(i as nat, len as nat);
    } else {
        let m = len as int;
        let j = (i + 1) as int % m;
        lemma_mod_division_less_than_divisor((i + 1) as int, m);
        assert(spec_cycle(Some(i), len) == Some(j as usize));
        lemma_cycle_n_adds(j as usize, len, (n - 1) as nat);
        assert(spec_cycle_n(Some(i), len, n) == Some((((j + (n - 1)) % m) as usize)));
        lemma_add_mod_noop_right((n - 1) as int, (i + 1) as int, m);
        assert(((n - 1) + (i + 1) % m) % m == ((n - 1) + (i + 1)) % m);
        assert((j + (n - 1)) % m == (i + n) % m);
    }
}

/// Completion cycling wraps at exactly the number of predictions: from any
/// selected prediction, as many presses as there are predictions return
/// the selection to where it started, so with three predictions the fourth
/// press after selecting lands back on the first selection.
pub proof fn lemma_cycle_wraps(i: usize, len: usize)
    requires
        0 < len,
        i < len,
    ensures
        spec_cycle_n(Some(i), len, len as nat) == Some(i),
        spec_cycle_n(None, len, (len + 1) as nat) == spec_cycle_n(None, len, 1),
{
    lemma_cycle_n_adds(i, len, len as nat);
    assert((i + len) as int % (len as int) == i as int) by {
        vstd::arithmetic::div_mod::lemma_mod_add_multiples_vanish(i as int, len as int);
        lemma_small_mod(i as nat, len as nat);
    }
    assert(spec_cycle_n(None, len, (len + 1) as nat) == spec_cycle_n(Some(0usize), len, len as nat));
    lemma_cycle_n_adds(0usize, len, len as nat);
    assert((0 + len) as int % (len as int) == 0) by {
        vstd::arithmetic::div_mod::lemma_mod_self_0(len as int);
    }
    assert(spec_cycle_n(None, len, 1) == spec_cycle_n(Some(0usize), len, 0));
    assert(spec_cycle_n(Some(0usize), len, 0) == Some(0usize));
}

/// A mutation that changes the buffer's hash invalidates the cache: the
/// stored key cannot match the new buffer, so the next recompute is not
/// short-circuited.  (Two distinct buffers whose FNV-1a hashes collide
/// would defeat this; such a pair is excluded.)
pub proof fn lemma_changed_hash_invalidates(key: Option<u64>, before: Seq<char>, after: Seq<char>)
    requires
        key == Some(buffer_hash(before)),
        buffer_hash(after) != buffer_hash(before),
    ensures
        key != Some(buffer_hash(after)),
{
}

} // verus!
