use arctic_drone_sim::spectral::fft_bin;

#[test]
fn fft_bins_even_length() {
    let bins: Vec<isize> = (0..4).map(|i| fft_bin(i, 4)).collect();
    assert_eq!(bins, vec![0, 1, -2, -1]);
}

#[test]
fn fft_bins_odd_length() {
    let bins: Vec<isize> = (0..5).map(|i| fft_bin(i, 5)).collect();
    assert_eq!(bins, vec![0, 1, 2, -2, -1]);
}

#[test]
fn fft_bins_are_distinct_and_congruent() {
    let n = 16usize;
    let bins: Vec<isize> = (0..n).map(|i| fft_bin(i, n)).collect();
    for (i, &b) in bins.iter().enumerate() {
        assert_eq!((b - i as isize).rem_euclid(n as isize), 0);
        assert!(b >= -8 && b <= 7);
        assert_eq!(b >= 0, 2 * i < n);
        for (j, &c) in bins.iter().enumerate() {
            if i != j {
                assert_ne!(b, c);
            }
        }
    }
}

#[test]
fn fft_nyquist_bin_is_negative() {
    assert_eq!(fft_bin(2, 4), -2);
    assert_eq!(fft_bin(8, 16), -8);
    assert_eq!(fft_bin(2, 5), 2);
}

#[test]
fn fft_bin_single_point() {
    assert_eq!(fft_bin(0, 1), 0);
}
