use thrindex::codec::crc32_hex;
use thrindex::conformance::ratify::{events_to_raster, fixture_fingerprint, near_argmax_boundary, parse_ratify_args};
use thrindex::text::parse_usize;

fn strings(v: &[&str]) -> Vec<String> {
    v.iter().map(|s| s.to_string()).collect()
}

#[test]
fn fingerprint_is_deterministic() {
    let fp1 = fixture_fingerprint(&strings(&["abc", "def"]));
    let fp2 = fixture_fingerprint(&strings(&["abc", "def"]));
    assert_eq!(fp1, fp2, "fingerprint must be deterministic");
}

#[test]
fn fingerprint_changes_on_content_change() {
    let fp1 = fixture_fingerprint(&strings(&["abc"]));
    let fp2 = fixture_fingerprint(&strings(&["abd"]));
    assert_ne!(fp1, fp2, "fingerprint must change when file content changes");
}

#[test]
fn fingerprint_format() {
    let combined = format!("{}{}", crc32_hex("abc"), crc32_hex("def"));
    assert_eq!(
        fixture_fingerprint(&strings(&["abc", "def"])),
        format!("crc32={} (2 files)", crc32_hex(&combined))
    );
    assert_eq!(fixture_fingerprint(&vec![]), "crc32=00000000 (0 files)");
}

#[test]
fn ratify_arguments() {
    let a = parse_ratify_args(&strings(&["ratify", "--artifact", "m.thx", "--data-dir", "fx"])).unwrap();
    assert_eq!(a.artifact, "m.thx");
    assert_eq!(a.data_dir, "fx");
    assert_eq!(a.n_samples, 100);
    let a = parse_ratify_args(&strings(&["ratify", "--n-samples", "120", "--data-dir", "fx", "--artifact", "m.thx", "extra"]))
        .unwrap();
    assert_eq!(a.n_samples, 120);
    assert!(parse_ratify_args(&strings(&["ratify", "--artifact", "m.thx"])).is_none());
    assert!(parse_ratify_args(&strings(&["ratify", "--artifact", "m.thx", "--data-dir", "fx", "--n-samples", "lots"])).is_none());
}

#[test]
fn unsigned_decimals_parse_as_from_str() {
    for s in ["0", "7", "+42", "007", "18446744073709551615", "", "+", "-1", "1_000", " 1", "18446744073709551616"] {
        assert_eq!(parse_usize(s), s.parse::<usize>().ok(), "{s:?}");
    }
}

#[test]
fn sparse_events_fill_a_dense_raster() {
    let r = events_to_raster(3, 4, &vec![(0, 1), (2, 3), (2, 3), (5, 0), (1, 9)]);
    assert_eq!(
        r,
        vec![
            vec![false, true, false, false],
            vec![false, false, false, false],
            vec![false, false, false, true],
        ]
    );
    assert!(events_to_raster(0, 4, &vec![(0, 0)]).is_empty());
    assert_eq!(events_to_raster(2, 0, &vec![]), vec![Vec::<bool>::new(), Vec::new()]);
}

fn raster_from_counts(counts: &[usize], frames: usize) -> Vec<Vec<bool>> {
    (0..frames).map(|t| counts.iter().map(|&c| t < c).collect()).collect()
}

#[test]
fn boundary_detection_uses_top_two_counts() {
    // Top two counts 5 and 3: margin 2 is near the boundary.
    assert!(near_argmax_boundary(&raster_from_counts(&[3, 5, 1], 6)));
    // Top two counts 6 and 3: margin 3 is not.
    assert!(!near_argmax_boundary(&raster_from_counts(&[3, 6, 1], 6)));
    // A tie at the top is a margin of 0.
    assert!(near_argmax_boundary(&raster_from_counts(&[4, 0, 4], 6)));
    // A single neuron or an empty raster never qualifies.
    assert!(!near_argmax_boundary(&raster_from_counts(&[4], 6)));
    assert!(!near_argmax_boundary(&vec![]));
}
