use vstd::prelude::*;

verus! {

/// Signed wavenumber index of FFT bin `i` for a transform of length `n`
/// (numpy ordering): bins with `2 * i < n` are the non-negative
/// frequencies `i`, the others (the Nyquist bin of an even length included)
/// wrap round to the negative frequency `i - n`.
pub open spec fn spec_fft_bin(i: int, n: int) -> int {
    if 2 * i < n {
        i
    } else {
        i - n
    }
}

/// Integer wavenumber index for FFT bin `i` of length `n` (numpy
/// convention): bins below `n/2` map to the non-negative frequencies, the
/// rest to the negative ones.
pub fn fft_bin(i: usize, n: usize) -> (k: isize)
    requires
        i <= isize::MAX,
        n <= isize::MAX,
    ensures
        k == spec_fft_bin(i as int, n as int),
        2 * i < n ==> k == i,
        2 * i >= n ==> k == i - n,
{
    let n_i = n as isize;
    let i_i = i as isize;
    if i_i < n_i - i_i {
        i_i
    } else {
        i_i - n_i
    }
}

/// Every bin index is congruent to its bin position modulo the transform
/// length: the wavenumber and the bin describe the same periodic mode.
pub proof fn lemma_fft_bin_congruent(i: int, n: int)
    requires
        n > 0,
    ensures
        (spec_fft_bin(i, n) - i) % n == 0,
{
    if 2 * i >= n {
        assert((-n) % n == 0) by (nonlinear_arith)
            requires
                n > 0,
        ;
        assert(spec_fft_bin(i, n) - i == -n);
    } else {
        assert(0int % n == 0) by (nonlinear_arith)
            requires
                n > 0,
        ;
        assert(spec_fft_bin(i, n) - i == 0);
    }
}

/// For a bin inside the transform, the wavenumber index lies in
/// `[-(n/2), (n-1)/2]`, and it is non-negative exactly when `2 * i < n`.
pub proof fn lemma_fft_bin_range(i: int, n: int)
    requires
        0 <= i < n,
    ensures
        -(n / 2) <= spec_fft_bin(i, n) <= (n - 1) / 2,
        spec_fft_bin(i, n) >= 0 <==> 2 * i < n,
{
}

/// Distinct bins of one transform carry distinct wavenumber indices, so each
/// bin of the spectral grid stands for its own mode.
pub proof fn lemma_fft_bin_injective(i: int, j: int, n: int)
    requires
        0 <= i < n,
        0 <= j < n,
        i != j,
    ensures
        spec_fft_bin(i, n) != spec_fft_bin(j, n),
{
}

} // verus!
