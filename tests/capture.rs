use iq_dump::capture::{hex12_to_i16, parse_capture, CaptureError};

#[test]
fn sign_extension_of_twelve_bits() {
    assert_eq!(hex12_to_i16(0x000), 0);
    assert_eq!(hex12_to_i16(0x7FF), 2047);
    assert_eq!(hex12_to_i16(0x800), -2048);
    assert_eq!(hex12_to_i16(0xFFF), -1);
    assert_eq!(hex12_to_i16(0xF001), 1);
}

fn lines(text: &str) -> Vec<String> {
    text.lines().map(|l| l.to_string()).collect()
}

#[test]
fn markers_alternate_between_paths() {
    let cap = parse_capture(&lines(
        "header\n0x00001002\n\n0x00FFF7FF\nnoise line\n0x00800003\n0x00abcDEF\n",
    ))
    .unwrap();
    // Q is at [4,7), I at [7,10)
    assert_eq!(cap.q_path1, vec![1, -2048]);
    assert_eq!(cap.i_path1, vec![2, 3]);
    assert_eq!(cap.q_path2, vec![-1, -1348]);
    assert_eq!(cap.i_path2, vec![2047, -529]);
}

#[test]
fn sixteen_samples_per_path() {
    let mut text = String::new();
    for k in 0..32u32 {
        text.push_str(&format!("0x00{:03X}{:03X}\n", k, 0xFFF - k));
        text.push('\n');
    }
    let cap = parse_capture(&lines(&text)).unwrap();
    assert_eq!(cap.i_path1.len(), 16);
    assert_eq!(cap.q_path1.len(), 16);
    assert_eq!(cap.i_path2.len(), 16);
    assert_eq!(cap.q_path2.len(), 16);
    assert_eq!(cap.q_path2[0], 1);
    assert_eq!(cap.i_path2[0], -2);
}

#[test]
fn malformed_marker_is_an_error() {
    assert!(matches!(
        parse_capture(&lines("0x00zz0001\n")),
        Err(CaptureError::MalformedMarker)
    ));
    assert!(matches!(parse_capture(&lines("0x0012\n")), Err(CaptureError::MalformedMarker)));
}

#[test]
fn capture_without_markers_is_empty() {
    let cap = parse_capture(&lines("\n\nsomething\n0x01000000\n")).unwrap();
    assert!(cap.i_path1.is_empty() && cap.i_path2.is_empty());
}
