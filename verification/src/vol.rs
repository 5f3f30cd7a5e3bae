//! Rotation detector: two bounded FIFO windows of recent analog axis
//! samples, one per rotary side, and the sign-sum rule that turns a full
//! window into a discrete rotation direction.
//!
//! Samples are thousandths of the axis range, so the full deflections
//! `1.0` and `-1.0` are `1000` and `-1000`.

use vstd::prelude::*;

use crate::input::VolRotation;

verus! {

/// Largest in-range axis sample, in thousandths: full positive deflection.
pub const SAMPLE_MAX_MILLI: i32 = 1000;

/// Smallest in-range axis sample, in thousandths: full negative deflection.
pub const SAMPLE_MIN_MILLI: i32 = -1000;

/// How many samples a side's window holds by default. With an even
/// capacity the window has an odd number of adjacent pairs, so the
/// sign sum of a full window can never balance to zero.
pub const DEFAULT_WINDOW_CAPACITY: usize = 6;

/// An out-of-range sample is clamped into `[-1000, 1000]` before it
/// enters a window.
pub open spec fn clamped_sample(v: i32) -> i32 {
    if v > SAMPLE_MAX_MILLI {
        SAMPLE_MAX_MILLI
    } else if v < SAMPLE_MIN_MILLI {
        SAMPLE_MIN_MILLI
    } else {
        v
    }
}

/// The sign of one adjacent sample pair: `+1` when the value increased,
/// or when it wrapped from the maximum straight to the minimum (the axis
/// is circular, so that wrap is a forward step); `-1` otherwise.
pub open spec fn pair_sign(prev: int, curr: int) -> int {
    if prev < curr || (prev == SAMPLE_MAX_MILLI && curr == SAMPLE_MIN_MILLI) {
        1
    } else {
        -1
    }
}

/// The sum of `pair_sign` over all adjacent pairs of a window.
pub open spec fn sign_sum(s: Seq<i32>) -> int
    decreases s.len(),
{
    if s.len() < 2 {
        0
    } else {
        sign_sum(s.drop_last()) + pair_sign(s[s.len() - 2] as int, s[s.len() - 1] as int)
    }
}

/// A window after one sample is appended: the oldest sample leaves
/// whenever the capacity would otherwise be exceeded.
pub open spec fn pushed_window(s: Seq<i32>, cap: nat, v: i32) -> Seq<i32> {
    let t = s.push(v);
    if t.len() > cap {
        t.subrange(1, t.len() as int)
    } else {
        t
    }
}

/// The direction a sign sum classifies to, given the direction each sign
/// of the sum stands for; a zero sum carries too little signal to
/// classify and yields no direction.
pub open spec fn rotation_of_sum(sum: int, positive: VolRotation, negative: VolRotation) -> Option<
    VolRotation,
> {
    if sum > 0 {
        Some(positive)
    } else if sum < 0 {
        Some(negative)
    } else {
        None
    }
}

/// What detection reports for the left side: nothing until the window is
/// full; then the sign sum, with a positive sum meaning a rightward turn
/// (the two controls are mirrored, compare `right_detection`).
pub open spec fn left_detection(s: Seq<i32>, cap: nat) -> Option<VolRotation> {
    if s.len() < cap {
        None
    } else {
        rotation_of_sum(sign_sum(s), VolRotation::Right, VolRotation::Left)
    }
}

/// What detection reports for the right side: as `left_detection`, with
/// the direction mapping mirrored.
pub open spec fn right_detection(s: Seq<i32>, cap: nat) -> Option<VolRotation> {
    if s.len() < cap {
        None
    } else {
        rotation_of_sum(sign_sum(s), VolRotation::Left, VolRotation::Right)
    }
}

/// The two bounded sample windows of the rotation detector, one per
/// rotary side, plus their shared capacity.
#[derive(Clone, Debug)]
pub struct VolState {
    left_values: Vec<i32>,
    right_values: Vec<i32>,
    capacity: usize,
}

impl VolState {
    /// The samples currently in the left window, oldest first.
    pub closed spec fn left_samples(self) -> Seq<i32> {
        self.left_values@
    }

    /// The samples currently in the right window, oldest first.
    pub closed spec fn right_samples(self) -> Seq<i32> {
        self.right_values@
    }

    /// How many samples each window holds at most.
    pub closed spec fn cap(self) -> nat {
        self.capacity as nat
    }

    /// Well-formed: neither window exceeds the capacity.
    pub open spec fn wf(self) -> bool {
        self.left_samples().len() <= self.cap() && self.right_samples().len() <= self.cap()
    }

    /// A detector with empty windows of the given capacity.
    pub fn with_capacity(capacity: usize) -> (r: Self)
        ensures
            r.wf(),
            r.cap() == capacity,
            r.left_samples() == Seq::<i32>::empty(),
            r.right_samples() == Seq::<i32>::empty(),
    {
        Self { left_values: Vec::new(), right_values: Vec::new(), capacity }
    }

    /// A detector with empty windows of the default capacity.
    pub fn new() -> (r: Self)
        ensures
            r.wf(),
            r.cap() == DEFAULT_WINDOW_CAPACITY,
            r.left_samples() == Seq::<i32>::empty(),
            r.right_samples() == Seq::<i32>::empty(),
    {
        Self::with_capacity(DEFAULT_WINDOW_CAPACITY)
    }

    /// Appends a sample to the left window, clamped into range, evicting
    /// the oldest sample when the window is full.
    pub fn push_left(&mut self, value: i32)
        ensures
            final(self).left_samples() == pushed_window(
                old(self).left_samples(),
                old(self).cap(),
                clamped_sample(value),
            ),
            final(self).right_samples() == old(self).right_samples(),
            final(self).cap() == old(self).cap(),
            old(self).wf() ==> final(self).wf(),
    {
        let v = clamp_sample(value);
        self.left_values.push(v);
        if self.left_values.len() > self.capacity {
            self.left_values.remove(0);
        }
        proof {
            assert(final(self).left_samples() =~= pushed_window(
                old(self).left_samples(),
                old(self).cap(),
                clamped_sample(value),
            ));
        }
    }

    /// Appends a sample to the right window, clamped into range, evicting
    /// the oldest sample when the window is full.
    pub fn push_right(&mut self, value: i32)
        ensures
            final(self).right_samples() == pushed_window(
                old(self).right_samples(),
                old(self).cap(),
                clamped_sample(value),
            ),
            final(self).left_samples() == old(self).left_samples(),
            final(self).cap() == old(self).cap(),
            old(self).wf() ==> final(self).wf(),
    {
        let v = clamp_sample(value);
        self.right_values.push(v);
        if self.right_values.len() > self.capacity {
            self.right_values.remove(0);
        }
        proof {
            assert(final(self).right_samples() =~= pushed_window(
                old(self).right_samples(),
                old(self).cap(),
                clamped_sample(value),
            ));
        }
    }

    /// Reports the rotation the left window shows: `None` until the
    /// window is full and on a balanced sign sum, otherwise the direction
    /// of the sum.
    pub fn get_left_vol_rotation(&self) -> (r: Option<VolRotation>)
        ensures
            r == left_detection(self.left_samples(), self.cap()),
    {
        if self.left_values.len() < self.capacity {
            return None;
        }
        let sum = window_sign_sum(&self.left_values);
        if sum > 0 {
            Some(VolRotation::Right)
        } else if sum < 0 {
            Some(VolRotation::Left)
        } else {
            None
        }
    }

    /// Reports the rotation the right window shows, with the direction
    /// mapping mirrored against the left side.
    pub fn get_right_vol_rotation(&self) -> (r: Option<VolRotation>)
        ensures
            r == right_detection(self.right_samples(), self.cap()),
    {
        if self.right_values.len() < self.capacity {
            return None;
        }
        let sum = window_sign_sum(&self.right_values);
        if sum > 0 {
            Some(VolRotation::Left)
        } else if sum < 0 {
            Some(VolRotation::Right)
        } else {
            None
        }
    }

    /// Empties the left window.
    pub fn clear_left(&mut self)
        ensures
            final(self).left_samples() == Seq::<i32>::empty(),
            final(self).right_samples() == old(self).right_samples(),
            final(self).cap() == old(self).cap(),
            old(self).wf() ==> final(self).wf(),
    {
        self.left_values.clear();
    }

    /// Empties the right window.
    pub fn clear_right(&mut self)
        ensures
            final(self).right_samples() == Seq::<i32>::empty(),
            final(self).left_samples() == old(self).left_samples(),
            final(self).cap() == old(self).cap(),
            old(self).wf() ==> final(self).wf(),
    {
        self.right_values.clear();
    }

    /// How many samples the left window holds.
    pub fn left_len(&self) -> (n: usize)
        ensures
            n == self.left_samples().len(),
    {
        self.left_values.len()
    }

    /// How many samples the right window holds.
    pub fn right_len(&self) -> (n: usize)
        ensures
            n == self.right_samples().len(),
    {
        self.right_values.len()
    }

    /// The left window's sample at an index, oldest first.
    pub fn left_sample(&self, i: usize) -> (v: i32)
        requires
            i < self.left_samples().len(),
        ensures
            v == self.left_samples()[i as int],
    {
        self.left_values[i]
    }

    /// The right window's sample at an index, oldest first.
    pub fn right_sample(&self, i: usize) -> (v: i32)
        requires
            i < self.right_samples().len(),
        ensures
            v == self.right_samples()[i as int],
    {
        self.right_values[i]
    }
}

impl Default for VolState {
    /// A detector with empty windows of the default capacity.
    fn default() -> (r: Self)
        ensures
            r.wf(),
            r.cap() == DEFAULT_WINDOW_CAPACITY,
            r.left_samples() == Seq::<i32>::empty(),
            r.right_samples() == Seq::<i32>::empty(),
    {
        Self::new()
    }
}

/// The sign of the adjacent pair of a window that starts at an index.
pub open spec fn window_pair_sign(s: Seq<i32>, j: int) -> int {
    pair_sign(s[j] as int, s[j + 1] as int)
}

/// Splits the sign sum of a window at its first pair.
proof fn lemma_sign_sum_drop_first(s: Seq<i32>)
    requires
        s.len() >= 2,
    ensures
        sign_sum(s) == pair_sign(s[0] as int, s[1] as int) + sign_sum(s.drop_first()),
    decreases s.len(),
{
    if s.len() == 2 {
        assert(sign_sum(s.drop_last()) == 0);
        assert(sign_sum(s.drop_first()) == 0);
        assert(sign_sum(s) == sign_sum(s.drop_last()) + pair_sign(
            s[s.len() - 2] as int,
            s[s.len() - 1] as int,
        ));
    } else {
        let a = s.drop_last();
        let b = s.drop_first();
        lemma_sign_sum_drop_first(a);
        assert(sign_sum(s) == sign_sum(a) + pair_sign(
            s[s.len() - 2] as int,
            s[s.len() - 1] as int,
        ));
        assert(a[0] == s[0]);
        assert(a[1] == s[1]);
        assert(a.drop_first() =~= b.drop_last());
        assert(sign_sum(b) == sign_sum(b.drop_last()) + pair_sign(
            b[b.len() - 2] as int,
            b[b.len() - 1] as int,
        ));
        assert(b[b.len() - 2] == s[s.len() - 2]);
        assert(b[b.len() - 1] == s[s.len() - 1]);
    }
}

/// A window all of whose adjacent pairs step forward sums to the number
/// of its pairs.
proof fn lemma_sign_sum_all_plus(s: Seq<i32>)
    requires
        s.len() >= 1,
        forall|j: int| 0 <= j < s.len() - 1 ==> window_pair_sign(s, j) == 1,
    ensures
        sign_sum(s) == s.len() - 1,
    decreases s.len(),
{
    if s.len() >= 2 {
        assert forall|j: int| 0 <= j < s.drop_last().len() - 1 implies window_pair_sign(
            s.drop_last(),
            j,
        ) == 1 by {
            assert(window_pair_sign(s, j) == 1);
        }
        lemma_sign_sum_all_plus(s.drop_last());
        assert(window_pair_sign(s, s.len() - 2) == 1);
    }
}

/// A window all of whose adjacent pairs step backward sums to minus the
/// number of its pairs.
proof fn lemma_sign_sum_all_minus(s: Seq<i32>)
    requires
        s.len() >= 1,
        forall|j: int| 0 <= j < s.len() - 1 ==> window_pair_sign(s, j) == -1,
    ensures
        sign_sum(s) == -(s.len() - 1),
    decreases s.len(),
{
    if s.len() >= 2 {
        assert forall|j: int| 0 <= j < s.drop_last().len() - 1 implies window_pair_sign(
            s.drop_last(),
            j,
        ) == -1 by {
            assert(window_pair_sign(s, j) == -1);
        }
        lemma_sign_sum_all_minus(s.drop_last());
        assert(window_pair_sign(s, s.len() - 2) == -1);
    }
}

/// A sign sum has the parity of its number of pairs: every pair
/// contributes an odd step.
proof fn lemma_sign_sum_parity(s: Seq<i32>)
    requires
        s.len() >= 1,
    ensures
        (sign_sum(s) - (s.len() - 1)) % 2 == 0,
    decreases s.len(),
{
    if s.len() >= 2 {
        lemma_sign_sum_parity(s.drop_last());
    }
}

/// A full window of strictly increasing in-range samples detects the
/// forward direction on either side: rightward on the left knob,
/// leftward on the right knob (the controls are mirrored).
pub proof fn lemma_detect_monotone_increasing(s: Seq<i32>)
    requires
        s.len() == DEFAULT_WINDOW_CAPACITY,
        forall|j: int| 0 <= j < s.len() ==> SAMPLE_MIN_MILLI <= #[trigger] s[j] <= SAMPLE_MAX_MILLI,
        forall|j: int| 0 <= j < s.len() - 1 ==> #[trigger] s[j] < s[j + 1],
    ensures
        left_detection(s, DEFAULT_WINDOW_CAPACITY as nat) == Some(VolRotation::Right),
        right_detection(s, DEFAULT_WINDOW_CAPACITY as nat) == Some(VolRotation::Left),
{
    assert forall|j: int| 0 <= j < s.len() - 1 implies window_pair_sign(s, j) == 1 by {
        assert(s[j] < s[j + 1]);
    }
    lemma_sign_sum_all_plus(s);
}

/// A full window of strictly decreasing in-range samples detects the
/// backward direction on either side. At most its first pair can read
/// as a wraparound, which the four later backward pairs outweigh.
pub proof fn lemma_detect_monotone_decreasing(s: Seq<i32>)
    requires
        s.len() == DEFAULT_WINDOW_CAPACITY,
        forall|j: int| 0 <= j < s.len() ==> SAMPLE_MIN_MILLI <= #[trigger] s[j] <= SAMPLE_MAX_MILLI,
        forall|j: int| 0 <= j < s.len() - 1 ==> #[trigger] s[j] > s[j + 1],
    ensures
        left_detection(s, DEFAULT_WINDOW_CAPACITY as nat) == Some(VolRotation::Left),
        right_detection(s, DEFAULT_WINDOW_CAPACITY as nat) == Some(VolRotation::Right),
{
    let t = s.drop_first();
    assert forall|j: int| 0 <= j < t.len() - 1 implies window_pair_sign(t, j) == -1 by {
        assert(t[j] == s[j + 1]);
        assert(t[j + 1] == s[j + 2]);
        assert(s[j + 1] > s[j + 2]);
        assert(s[j + 1] < s[j]);
        assert(s[j] <= SAMPLE_MAX_MILLI);
    }
    lemma_sign_sum_all_minus(t);
    lemma_sign_sum_drop_first(s);
}

/// With an even capacity a full window never balances: its sign sum is
/// odd, so detection always reports a direction.
pub proof fn lemma_even_capacity_always_detects(s: Seq<i32>, cap: nat)
    requires
        s.len() == cap,
        cap % 2 == 0,
        cap >= 2,
    ensures
        sign_sum(s) != 0,
        left_detection(s, cap) is Some,
        right_detection(s, cap) is Some,
{
    lemma_sign_sum_parity(s);
    assert(sign_sum(s) != 0) by {
        if sign_sum(s) == 0 {
            assert((0 - (s.len() - 1)) % 2 == 0);
        }
    }
}

/// Until a window has filled to its capacity, detection reports
/// nothing, whatever the samples hold.
pub proof fn lemma_detect_needs_full_window(s: Seq<i32>, cap: nat)
    requires
        s.len() < cap,
    ensures
        left_detection(s, cap) is None,
        right_detection(s, cap) is None,
{
}

/// A window whose sign sum balances to zero carries too little signal:
/// detection reports nothing rather than failing.
pub proof fn lemma_balanced_window_detects_nothing(s: Seq<i32>, cap: nat)
    requires
        sign_sum(s) == 0,
    ensures
        left_detection(s, cap) is None,
        right_detection(s, cap) is None,
{
}

/// A wraparound step from the maximum sample straight to the minimum
/// counts as a forward step, not a reversal: the axis is circular.
pub proof fn lemma_wraparound_counts_forward()
    ensures
        pair_sign(SAMPLE_MAX_MILLI as int, SAMPLE_MIN_MILLI as int) == 1,
{
}

/// Pushing into a full window evicts exactly the oldest sample, and a
/// window never outgrows its capacity.
pub proof fn lemma_push_evicts_oldest(s: Seq<i32>, cap: nat, v: i32)
    requires
        s.len() <= cap,
    ensures
        pushed_window(s, cap, v).len() <= cap,
        s.len() < cap ==> pushed_window(s, cap, v) == s.push(v),
        s.len() == cap && cap > 0 ==> pushed_window(s, cap, v) == s.drop_first().push(v),
        cap == 0 ==> pushed_window(s, cap, v) == Seq::<i32>::empty(),
{
    if s.len() == cap && cap > 0 {
        assert(pushed_window(s, cap, v) =~= s.drop_first().push(v));
    }
    if cap == 0 {
        assert(pushed_window(s, cap, v) =~= Seq::<i32>::empty());
    }
}

/// Clamps a raw sample into the in-range interval.
fn clamp_sample(v: i32) -> (r: i32)
    ensures
        r == clamped_sample(v),
{
    if v > SAMPLE_MAX_MILLI {
        SAMPLE_MAX_MILLI
    } else if v < SAMPLE_MIN_MILLI {
        SAMPLE_MIN_MILLI
    } else {
        v
    }
}

/// A prefix of one more element drops back to the prefix one shorter.
proof fn lemma_take_succ<A>(s: Seq<A>, i: int)
    requires
        0 <= i < s.len(),
    ensures
        s.take(i + 1).drop_last() =~= s.take(i),
        s.take(i + 1).last() == s[i],
{
}

/// Computes the sign sum of a window's adjacent pairs.
fn window_sign_sum(values: &Vec<i32>) -> (sum: i128)
    ensures
        sum == sign_sum(values@),
{
    let n = values.len();
    let mut sum: i128 = 0;
    let mut i: usize = 1;
    if n < 2 {
        return 0;
    }
    while i < n
        invariant
            1 <= i <= n,
            n == values@.len(),
            2 <= n,
            sum == sign_sum(values@.take(i as int)),
            -(i as int) <= sum <= i as int,
        decreases n - i,
    {
        let prev = values[i - 1];
        let curr = values[i];
        proof {
            lemma_take_succ(values@, i as int);
            assert(values@.take(i as int + 1)[i as int - 1] == prev);
        }
        if prev < curr || (prev == SAMPLE_MAX_MILLI && curr == SAMPLE_MIN_MILLI) {
            sum = sum + 1;
        } else {
            sum = sum - 1;
        }
        i = i + 1;
    }
    proof {
        assert(values@.take(n as int) =~= values@);
    }
    sum
}

} // verus!
