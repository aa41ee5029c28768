//! Integer layout planning for the Steady-Q transform.
//!
//! The Steady-Q transform approximates a constant-Q (log-frequency) transform
//! by blending several radix-2 FFTs of halving lengths. Everything about that
//! blend that is a matter of counting — how many FFT units the two resolution
//! targets demand, the length of each unit, how each unit's upsampled output
//! lines up with the merged spectrum, and how the merged spectrum splits into
//! a direct-copy region, transition regions and a tail region — is planned
//! and verified here on plain integers. The numeric work on the buffers
//! themselves involves machine floats and stays outside the verified core.

use vstd::prelude::*;

use vstd::arithmetic::power2::{
    is_pow2, lemma2_to64, lemma_pow2_adds, lemma_pow2_pos, lemma_pow2_strictly_increases,
    lemma_pow2_unfold, pow2,
};

verus! {

/// Largest number of FFT units a plan may hold: the display range spans a
/// factor of 1000 in frequency, which octave steps cover with at most 11
/// units (base FFT plus decimations down to 1/1024).
pub const MAX_UNITS: usize = 11;

/// Configuration errors reported when a transform layout cannot be built.
#[derive(Clone, Copy, Debug, PartialEq, Eq, Structural)]
pub enum ConfigError {
    /// An FFT length was not a power of two.
    NotPowerOfTwo,

    /// The frequency and time resolution targets would require more FFT
    /// units than octave steps can cover; the two cannot be satisfied
    /// simultaneously.
    InfeasibleResolution,

    /// An FFT length was below the smallest usable length of two points.
    FftLengthTooShort,

    /// The optimal-bin borders handed to the merge layout were not sorted,
    /// or overran the merged spectrum.
    UnorderedOptimalBins,
}

/// Floor of the base-2 logarithm.
pub open spec fn log2(n: nat) -> nat
    decreases n,
{
    if n <= 1 {
        0
    } else {
        1 + log2((n / 2) as nat)
    }
}

/// The exponent of a power of two is recovered by [`log2`].
proof fn lemma_log2_pow2(e: nat)
    ensures
        log2(pow2(e)) == e,
    decreases e,
{
    if e == 0 {
        assert(pow2(0) == 1) by {
            lemma2_to64();
        }
    } else {
        lemma_pow2_unfold(e);
        lemma_pow2_pos((e - 1) as nat);
        lemma_log2_pow2((e - 1) as nat);
        assert(pow2(e) / 2 == pow2((e - 1) as nat));
    }
}

/// A power of two times a power of two is a power of two, and conversely a
/// factor left after dividing out a power of two inherits power-of-two-ness.
proof fn lemma_is_pow2_mul_pow2(m: nat, k: nat)
    requires
        m >= 1,
    ensures
        is_pow2((m * pow2(k)) as int) <==> is_pow2(m as int),
    decreases k,
{
    reveal(is_pow2);
    if k == 0 {
        assert(pow2(0) == 1) by {
            lemma2_to64();
        }
    } else {
        lemma_pow2_unfold(k);
        lemma_pow2_pos((k - 1) as nat);
        let p = pow2((k - 1) as nat);
        assert(m * pow2(k) == (2 * m) * p) by (nonlinear_arith)
            requires
                pow2(k) == 2 * p,
        ;
        lemma_is_pow2_mul_pow2(2 * m, (k - 1) as nat);
        assert(is_pow2((2 * m) as int) <==> is_pow2(m as int));
    }
}

/// Every value of [`pow2`] is a power of two.
proof fn lemma_pow2_is_pow2(e: nat)
    ensures
        is_pow2(pow2(e) as int),
{
    reveal(is_pow2);
    lemma_is_pow2_mul_pow2(1, e);
    assert(1 * pow2(e) == pow2(e)) by (nonlinear_arith);
}

/// Compute the exponent of a power of two, or report that the argument is
/// not one.
pub fn log2_if_pow2(n: usize) -> (r: Option<usize>)
    ensures
        r matches Some(k) ==> is_pow2(n as int) && n == pow2(k as nat) && k == log2(n as nat) && k
            <= 64,
        r is None ==> !is_pow2(n as int),
{
    if n == 0 {
        proof {
            reveal(is_pow2);
        }
        return None;
    }
    let ghost n0 = n as nat;
    let mut m: usize = n;
    let mut k: usize = 0;
    proof {
        lemma2_to64();
        assert(m * pow2(0) == m) by (nonlinear_arith)
            requires
                pow2(0) == 1,
        ;
    }
    while m % 2 == 0
        invariant
            m >= 1,
            k <= 64,
            n0 == m * pow2(k as nat),
            n0 <= usize::MAX,
            is_pow2(n0 as int) <==> is_pow2(m as int),
            log2(n0) == k + log2(m as nat),
        decreases m,
    {
        proof {
            lemma_pow2_unfold((k + 1) as nat);
            assert(m * pow2(k as nat) == (m / 2) * pow2((k + 1) as nat)) by (nonlinear_arith)
                requires
                    m % 2 == 0,
                    m >= 1,
                    pow2((k + 1) as nat) == 2 * pow2(k as nat),
            ;
            lemma_is_pow2_mul_pow2((m / 2) as nat, (k + 1) as nat);
            lemma_is_pow2_mul_pow2(m as nat, k as nat);
            // The exponent can never reach 64, because pow2(65) would then
            // have to fit below usize::MAX.
            lemma_pow2_pos((k + 1) as nat);
            assert((m / 2) * pow2((k + 1) as nat) >= pow2((k + 1) as nat)) by (nonlinear_arith)
                requires
                    m / 2 >= 1,
                    pow2((k + 1) as nat) >= 1,
            ;
            if k + 1 > 64 {
                lemma_pow2_strictly_increases(64, (k + 1) as nat);
                lemma2_to64();
            }
            // log2 unfolds by one step on an even argument above 1.
            assert(log2(m as nat) == 1 + log2((m / 2) as nat));
        }
        m = m / 2;
        k = k + 1;
    }
    if m == 1 {
        proof {
            reveal(is_pow2);
            assert(1 * pow2(k as nat) == pow2(k as nat)) by (nonlinear_arith);
        }
        Some(k)
    } else {
        proof {
            reveal(is_pow2);
        }
        None
    }
}

/// The FFT length that serves the widest (lowest-frequency) unit: the larger
/// of the two derived lengths, since a time-resolution constraint harsher
/// than the frequency-resolution one collapses the plan onto a single
/// length.
pub open spec fn effective_widest(len_lowfreq: usize, len_highfreq: usize) -> usize {
    if len_highfreq > len_lowfreq {
        len_highfreq
    } else {
        len_lowfreq
    }
}

/// How many FFT units a plan for the two lengths holds: one per octave step
/// between them, endpoints included.
pub open spec fn unit_count(len_lowfreq: usize, len_highfreq: usize) -> int {
    log2(effective_widest(len_lowfreq, len_highfreq) as nat) - log2(len_highfreq as nat) + 1
}

/// Layout of the Steady-Q transform: the lengths of its FFT units, widest
/// first, halving at each octave step.
#[derive(Debug, PartialEq, Eq)]
pub struct SteadyQPlan {
    /// FFT length of each unit, strictly decreasing in octave steps.
    unit_lens: Vec<usize>,
}

impl SteadyQPlan {
    /// The planned FFT length of each unit, widest first.
    pub closed spec fn lens(&self) -> Seq<usize> {
        self.unit_lens@
    }

    /// Well-formedness of a plan: between 1 and 11 units, each a power of
    /// two of at least 2 points, halving from the widest at each step.
    pub open spec fn wf(&self) -> bool {
        &&& 1 <= self.lens().len() <= MAX_UNITS
        &&& forall|i: int|
            0 <= i < self.lens().len() ==> self.lens()[i] >= 2 && is_pow2(self.lens()[i] as int)
        &&& forall|i: int|
            0 <= i < self.lens().len() ==> self.lens()[i] * #[trigger] pow2(i as nat)
                == self.lens()[0]
    }

    /// Plan the FFT units for a widest length derived from the frequency
    /// resolution target near 20 Hz and a narrowest length derived from the
    /// time resolution target at 20 kHz.
    ///
    /// Construction fails exactly when a length is not a power of two, when
    /// the octave span between the lengths would require more than
    /// [`MAX_UNITS`] units (the two targets cannot be satisfied
    /// simultaneously), or when the narrowest length falls below two points;
    /// otherwise the plan is owed and well-formed.
    pub fn new(len_lowfreq: usize, len_highfreq: usize) -> (r: Result<SteadyQPlan, ConfigError>)
        ensures
            ({
                let valid = is_pow2(len_lowfreq as int) && is_pow2(len_highfreq as int);
                let widest = effective_widest(len_lowfreq, len_highfreq);
                let count = unit_count(len_lowfreq, len_highfreq);
                &&& (r == Err::<SteadyQPlan, ConfigError>(ConfigError::NotPowerOfTwo) <==> !valid)
                &&& (r == Err::<SteadyQPlan, ConfigError>(ConfigError::InfeasibleResolution) <==>
                    valid && count > MAX_UNITS)
                &&& (r == Err::<SteadyQPlan, ConfigError>(ConfigError::FftLengthTooShort) <==> valid
                    && count <= MAX_UNITS && len_highfreq < 2)
                &&& (r is Ok <==> valid && count <= MAX_UNITS && len_highfreq >= 2)
                &&& r matches Ok(p) ==> {
                    &&& p.wf()
                    &&& p.lens().len() == count
                    &&& p.lens()[0] == widest
                    &&& p.lens()[count - 1] == len_highfreq
                }
            }),
    {
        let kl = match log2_if_pow2(len_lowfreq) {
            Some(k) => k,
            None => {
                return Err(ConfigError::NotPowerOfTwo);
            },
        };
        let kh = match log2_if_pow2(len_highfreq) {
            Some(k) => k,
            None => {
                return Err(ConfigError::NotPowerOfTwo);
            },
        };

        // If the time resolution constraint is harsher than the frequency
        // resolution one, a single FFT length serves the whole plan.
        let (widest, kw) = if len_highfreq > len_lowfreq {
            (len_highfreq, kh)
        } else {
            (len_lowfreq, kl)
        };
        proof {
            if len_highfreq > len_lowfreq {
            } else if pow2(kh as nat) > pow2(kw as nat) {
                assert(false);
            }
            if kw < kh {
                lemma_pow2_strictly_increases(kw as nat, kh as nat);
            }
        }

        // One unit per octave step between the two lengths.
        let count = kw - kh + 1;
        if count > MAX_UNITS {
            return Err(ConfigError::InfeasibleResolution);
        }
        if len_highfreq < 2 {
            return Err(ConfigError::FftLengthTooShort);
        }
        proof {
            if kh == 0 {
                lemma2_to64();
                assert(false);
            }
        }

        // Lay the unit lengths out, widest first, halving at each step.
        let mut unit_lens: Vec<usize> = Vec::new();
        let mut cur: usize = widest;
        let mut i: usize = 0;
        while i < count
            invariant
                i <= count,
                count == kw - kh + 1,
                kh >= 1,
                kh <= kw <= 64,
                widest == pow2(kw as nat),
                widest <= usize::MAX,
                unit_lens@.len() == i,
                cur == pow2((kw - i) as nat) || i == count,
                i < count ==> cur == pow2((kw - i) as nat),
                forall|j: int| 0 <= j < i ==> unit_lens@[j] == pow2((kw - j) as nat),
            decreases count - i,
        {
            unit_lens.push(cur);
            proof {
                lemma_pow2_unfold((kw - i) as nat);
            }
            cur = cur / 2;
            i = i + 1;
        }

        proof {
            lemma_log2_pow2(kw as nat);
            lemma_log2_pow2(kh as nat);
            let l = unit_lens@;
            assert forall|j: int| 0 <= j < l.len() implies l[j] >= 2 && is_pow2(l[j] as int) by {
                assert(l[j] == pow2((kw - j) as nat));
                assert(kw - j >= 1);
                lemma_pow2_is_pow2((kw - j) as nat);
                lemma2_to64();
                if kw - j == 1 {
                    assert(l[j] == 2);
                } else {
                    lemma_pow2_strictly_increases(1, (kw - j) as nat);
                    assert(l[j] >= 2);
                }
            }
            assert forall|j: int|
                0 <= j < l.len() implies l[j] * #[trigger] pow2(j as nat) == l[0] by {
                assert(l[j] == pow2((kw - j) as nat));
                lemma_pow2_adds((kw - j) as nat, j as nat);
            }
        }
        Ok(SteadyQPlan { unit_lens })
    }

    /// Number of FFT units in the plan.
    pub fn num_units(&self) -> (r: usize)
        ensures
            r == self.lens().len(),
    {
        self.unit_lens.len()
    }

    /// FFT length of one unit.
    pub fn unit_len(&self, i: usize) -> (r: usize)
        requires
            i < self.lens().len(),
        ensures
            r == self.lens()[i as int],
    {
        self.unit_lens[i]
    }

    /// Length of the complex spectrum of one unit: a real-to-complex
    /// transform of n points yields n/2 + 1 coefficients.
    pub fn output_len(&self, i: usize) -> (r: usize)
        requires
            i < self.lens().len(),
        ensures
            r == self.lens()[i as int] / 2 + 1,
    {
        self.unit_lens[i] / 2 + 1
    }

    /// Length of the merged spectrum: the widest unit's output length.
    pub fn merged_len(&self) -> (r: usize)
        requires
            self.lens().len() >= 1,
        ensures
            r == self.lens()[0] / 2 + 1,
    {
        self.unit_lens[0] / 2 + 1
    }

    /// Upsampling stride of one unit: unit i has bins twice as wide as unit
    /// i-1, so its output is interpolated by 2^i to reach the bin density of
    /// the merged spectrum.
    pub fn stride(&self, i: usize) -> (r: usize)
        requires
            self.wf(),
            i < self.lens().len(),
        ensures
            r == pow2(i as nat),
    {
        proof {
            lemma2_to64();
        }
        match i {
            0 => 1,
            1 => 2,
            2 => 4,
            3 => 8,
            4 => 16,
            5 => 32,
            6 => 64,
            7 => 128,
            8 => 256,
            9 => 512,
            _ => {
                assert(i == 10);
                1024
            },
        }
    }
}

/// Number of points of the linear interpolant that upsamples `n` tabulated
/// points by the given stride: one point per stride step between consecutive
/// inputs, plus the final input point; an empty table has an empty
/// interpolant.
pub fn interpolant_len(n: usize, stride: usize) -> (r: usize)
    requires
        stride >= 1,
        n >= 1 ==> stride * (n - 1) + 1 <= usize::MAX,
    ensures
        n == 0 ==> r == 0,
        n >= 1 ==> r == stride * (n - 1) + 1,
{
    if n == 0 {
        0
    } else {
        stride * (n - 1) + 1
    }
}

/// The unit lengths of a well-formed plan strictly decrease in octave
/// steps: each unit's FFT is exactly half as long as the previous one's.
pub proof fn lemma_unit_lens_halve(p: &SteadyQPlan, i: int)
    requires
        p.wf(),
        0 <= i < p.lens().len() - 1,
    ensures
        p.lens()[i + 1] * 2 == p.lens()[i],
        p.lens()[i + 1] < p.lens()[i],
{
    lemma_pow2_unfold((i + 1) as nat);
    lemma_pow2_pos(i as nat);
    let a = p.lens()[i];
    let b = p.lens()[i + 1];
    let q = pow2(i as nat);
    assert(b * pow2((i + 1) as nat) == p.lens()[0]);
    assert(a * q == p.lens()[0]);
    assert(b * (2 * q) == (b * 2) * q) by (nonlinear_arith);
    assert((b * 2) * q == a * q && q >= 1 ==> b * 2 == a) by (nonlinear_arith);
}

/// Which tabulated points the interpolant blends at one output index: point
/// `i` of an interpolant with the given stride lies between input points
/// `i / stride` and `i / stride + 1` (clamped to the last input point), with
/// blend weight `(i % stride) / stride` towards the right point. The
/// returned triple is (left index, right index, weight numerator); the
/// weight numerator is zero exactly on the output points that copy an input
/// point.
pub fn interpolant_source(i: usize, stride: usize, input_len: usize) -> (r: (usize, usize, usize))
    requires
        stride >= 1,
        input_len >= 1,
        i <= stride * (input_len - 1),
    ensures
        r.0 == i / stride,
        r.1 == if i / stride + 1 < input_len {
            i / stride + 1
        } else {
            input_len - 1
        },
        r.2 == i % stride,
        r.0 < input_len,
        r.1 < input_len,
        r.2 < stride,
{
    let left = i / stride;
    proof {
        let s = stride as int;
        let n = input_len as int;
        vstd::arithmetic::div_mod::lemma_div_is_ordered(i as int, s * (n - 1), s);
        assert((s * (n - 1)) / s == n - 1) by (nonlinear_arith)
            requires
                s >= 1,
                n >= 1,
        ;
    }
    let right = if left + 1 < input_len {
        left + 1
    } else {
        input_len - 1
    };
    (left, right, i % stride)
}

/// Each unit's interpolant lines up with the merged spectrum exactly: one
/// interpolated point per merged bin, with none left over. This is what lets
/// the blend walk all the unit interpolants in lockstep with the merged
/// buffer.
pub proof fn lemma_interpolant_covers_merged(p: &SteadyQPlan, i: int)
    requires
        p.wf(),
        0 <= i < p.lens().len(),
    ensures
        pow2(i as nat) * ((p.lens()[i] / 2 + 1) - 1) + 1 == p.lens()[0] / 2 + 1,
{
    reveal(is_pow2);
    let li = p.lens()[i];
    let l0 = p.lens()[0];
    let h = li / 2;
    assert(li % 2 == 0);
    assert(li == 2 * h);
    assert(li * pow2(i as nat) == l0);
    assert(l0 == 2 * (h * pow2(i as nat))) by (nonlinear_arith)
        requires
            li == 2 * h,
            li * pow2(i as nat) == l0,
    ;
    assert(l0 / 2 == h * pow2(i as nat));
    assert(pow2(i as nat) * h == h * pow2(i as nat)) by (nonlinear_arith);
}

/// How the merged spectrum splits into regions, in merged-bin coordinates:
/// bins below the first border are copied from the widest unit, bins between
/// two consecutive borders blend the corresponding pair of adjacent units,
/// and bins from the last border on follow the narrowest unit alone.
pub struct MergeLayout {
    /// Rounded-up optimal bin of each unit, in merged-bin coordinates.
    borders: Vec<usize>,

    /// Total number of merged bins.
    merged_len: usize,
}

impl MergeLayout {
    /// The rounded-up optimal bin of each unit.
    pub closed spec fn borders(&self) -> Seq<usize> {
        self.borders@
    }

    /// Total number of merged bins.
    pub closed spec fn spec_merged_len(&self) -> usize {
        self.merged_len
    }

    /// Well-formedness: at least one border, sorted, within the spectrum.
    pub open spec fn wf(&self) -> bool {
        &&& self.borders().len() >= 1
        &&& forall|i: int, j: int|
            0 <= i <= j < self.borders().len() ==> #[trigger] self.borders()[i]
                <= #[trigger] self.borders()[j]
        &&& self.borders()[self.borders().len() - 1] <= self.spec_merged_len()
    }

    /// Build the merge layout from the units' rounded-up optimal bins.
    /// Construction fails exactly when no border is given, two borders are
    /// out of order, or a border overruns the merged spectrum.
    pub fn new(borders: Vec<usize>, merged_len: usize) -> (r: Result<MergeLayout, ConfigError>)
        ensures
            ({
                let sorted = forall|i: int, j: int|
                    0 <= i <= j < borders@.len() ==> #[trigger] borders@[i]
                        <= #[trigger] borders@[j];
                let valid = borders@.len() >= 1 && sorted && borders@[borders@.len() - 1]
                    <= merged_len;
                &&& (r is Ok <==> valid)
                &&& (r is Err <==> !valid)
                &&& r matches Err(e) ==> e == ConfigError::UnorderedOptimalBins
                &&& r matches Ok(l) ==> {
                    &&& l.wf()
                    &&& l.borders() == borders@
                    &&& l.spec_merged_len() == merged_len
                }
            }),
    {
        let n = borders.len();
        if n == 0 {
            return Err(ConfigError::UnorderedOptimalBins);
        }
        let mut i: usize = 1;
        while i < n
            invariant
                1 <= i <= n,
                n == borders@.len(),
                forall|p: int, q: int|
                    0 <= p <= q < i ==> #[trigger] borders@[p] <= #[trigger] borders@[q],
            decreases n - i,
        {
            if borders[i - 1] > borders[i] {
                return Err(ConfigError::UnorderedOptimalBins);
            }
            proof {
                assert forall|p: int, q: int| 0 <= p <= q < i + 1 implies #[trigger] borders@[p]
                    <= #[trigger] borders@[q] by {
                    if q == i {
                        if p < i {
                            assert(borders@[p] <= borders@[i - 1]);
                        }
                    }
                }
            }
            i = i + 1;
        }
        if borders[n - 1] > merged_len {
            return Err(ConfigError::UnorderedOptimalBins);
        }
        Ok(MergeLayout { borders, merged_len })
    }

    /// One past the last bin copied directly from the widest unit.
    pub fn direct_copy_end(&self) -> (r: usize)
        requires
            self.wf(),
        ensures
            r == self.borders()[0],
    {
        self.borders[0]
    }

    /// Number of transition regions: one per adjacent pair of units.
    pub fn num_transitions(&self) -> (r: usize)
        requires
            self.wf(),
        ensures
            r == self.borders().len() - 1,
    {
        self.borders.len() - 1
    }

    /// Bin range of one transition region: from the left unit's border up to
    /// (excluding) the right unit's border. Its width is the number of blend
    /// weights that the transition carries.
    pub fn transition_bounds(&self, i: usize) -> (r: (usize, usize))
        requires
            self.wf(),
            i < self.borders().len() - 1,
        ensures
            r.0 == self.borders()[i as int],
            r.1 == self.borders()[i as int + 1],
            r.0 <= r.1,
    {
        let n = self.borders.len();
        (self.borders[i], self.borders[i + 1])
    }

    /// First bin that follows the narrowest unit's interpolant alone.
    pub fn tail_start(&self) -> (r: usize)
        requires
            self.wf(),
        ensures
            r == self.borders()[self.borders().len() - 1],
            r <= self.spec_merged_len(),
    {
        self.borders[self.borders.len() - 1]
    }

    /// Total number of merged bins.
    pub fn len(&self) -> (r: usize)
        ensures
            r == self.spec_merged_len(),
    {
        self.merged_len
    }
}

/// The three kinds of region tile the merged spectrum in order with no gap
/// and no overlap: the direct-copy region ends where the first transition
/// begins, each transition ends where the next begins, and the last
/// transition ends where the tail begins, which runs to the end of the
/// spectrum.
pub proof fn lemma_layout_partitions_spectrum(l: &MergeLayout)
    requires
        l.wf(),
    ensures
        l.borders()[0] <= l.borders()[l.borders().len() - 1],
        forall|i: int|
            0 <= i < l.borders().len() - 1 ==> #[trigger] l.borders()[i] <= l.borders()[i + 1],
        l.borders()[l.borders().len() - 1] <= l.spec_merged_len(),
{
    let b = l.borders();
    assert forall|i: int| 0 <= i < b.len() - 1 implies #[trigger] b[i] <= b[i + 1] by {
        assert(b[i] <= b[i + 1]);
    }
}

} // verus!
