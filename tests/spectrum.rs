use iq_dump::spectrum::{
    channel_dc_overlap, channel_window, check_iq, dc_window, fund_window, image_window,
    peak_candidate, spur_masked, BinWindow, MetricsError,
};

fn w(start: usize, end: usize) -> BinWindow {
    BinWindow { start, end }
}

#[test]
fn length_mismatch_is_rejected() {
    assert_eq!(check_iq(&vec![1, 2, 3], &vec![1, 2]), Err(MetricsError::LengthMismatch));
    assert_eq!(check_iq(&vec![1, 2], &vec![3, 4]), Ok(2));
    assert_eq!(check_iq(&vec![], &vec![]), Err(MetricsError::NoSamples));
    assert_eq!(check_iq(&vec![], &vec![1]), Err(MetricsError::LengthMismatch));
}

#[test]
fn windows_of_a_sixteen_bin_spectrum() {
    assert_eq!(dc_window(16), w(6, 11));
    assert!(!peak_candidate(8, 16));
    assert!(peak_candidate(5, 16));
    assert!(peak_candidate(11, 16));
    assert_eq!(fund_window(12, 16), w(2, 16));
    assert_eq!(fund_window(0, 16), w(0, 11));
    assert_eq!(image_window(12, 16), Some(w(3, 6)));
    assert_eq!(image_window(0, 16), None);
    assert_eq!(channel_window(16), w(4, 12));
    assert_eq!(channel_dc_overlap(16), Some(w(6, 11)));
}

#[test]
fn windows_of_a_large_spectrum() {
    assert_eq!(dc_window(1024), w(510, 515));
    assert_eq!(fund_window(700, 1024), w(690, 711));
    assert_eq!(image_window(700, 1024), Some(w(323, 326)));
    assert_eq!(channel_window(1024), w(256, 768));
}

#[test]
fn spur_mask() {
    // fundamental at 700 of 1024: its mask is 694..=706, DC 510..=514, image 323..=325
    assert!(spur_masked(694, 700, 1024));
    assert!(spur_masked(706, 700, 1024));
    assert!(!spur_masked(707, 700, 1024));
    assert!(spur_masked(512, 700, 1024));
    assert!(!spur_masked(509, 700, 1024));
    assert!(spur_masked(323, 700, 1024));
    assert!(spur_masked(325, 700, 1024));
    assert!(!spur_masked(326, 700, 1024));
    // fundamental at 0 of 16: image at 16, outside the spectrum
    assert!(spur_masked(15, 0, 16));
    assert!(!spur_masked(14, 0, 16));
}

#[test]
fn tiny_spectra() {
    assert_eq!(dc_window(1), w(0, 1));
    assert_eq!(channel_window(2), w(1, 1));
    assert_eq!(channel_dc_overlap(2), None);
}
