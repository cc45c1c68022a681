use voiceinput::decimal::{parse_u64, u64_to_decimal};
use voiceinput::model::{
    accepts_samples, check_model_header, max_recording_samples, model_search_order,
    resolve_thread_count, ModelCheck, ModelDir, ModelFileError, ModelKind,
};

fn header(magic: u32, layers: u32) -> [u8; 28] {
    let mut h = [0u8; 28];
    h[0..4].copy_from_slice(&magic.to_le_bytes());
    h[20..24].copy_from_slice(&layers.to_le_bytes());
    h
}

#[test]
fn valid_small_model() {
    assert_eq!(
        check_model_header(&header(0x67676d6c, 12), 466_000_000),
        Ok(ModelCheck::Valid(ModelKind::Small))
    );
}

#[test]
fn truncated_model() {
    assert_eq!(
        check_model_header(&header(0x67676d6c, 24), 1_000),
        Err(ModelFileError::Truncated {
            kind: ModelKind::Medium,
            file_size: 1_000,
            min_size: 1_400_000_000
        })
    );
}

#[test]
fn bad_magic() {
    assert_eq!(
        check_model_header(&header(0x12345678, 12), 466_000_000),
        Err(ModelFileError::BadMagic(0x12345678))
    );
}

#[test]
fn unknown_kind_skips_size_check() {
    assert_eq!(check_model_header(&header(0x67676d6c, 7), 1), Ok(ModelCheck::UnknownKind(7)));
}

#[test]
fn kind_names_and_sizes() {
    assert_eq!(ModelKind::Tiny.name(), "tiny");
    assert_eq!(ModelKind::Large.min_size(), 2_800_000_000);
    assert_eq!(ModelKind::from_audio_layers(6), Some(ModelKind::Base));
    assert_eq!(ModelKind::from_audio_layers(5), None);
}

#[test]
fn thread_counts() {
    assert_eq!(resolve_thread_count(3, Some(16)), 3);
    assert_eq!(resolve_thread_count(0, Some(8)), 7);
    assert_eq!(resolve_thread_count(0, Some(1)), 1);
    assert_eq!(resolve_thread_count(-2, None), 3);
}

#[test]
fn recording_buffer_cap() {
    assert_eq!(max_recording_samples(), 960_000);
    assert!(accepts_samples(959_999));
    assert!(!accepts_samples(960_000));
}

#[test]
fn decimal_roundtrip() {
    for n in [0u64, 7, 10, 99, 100, 123456789, u64::MAX] {
        let d = u64_to_decimal(n);
        assert_eq!(d.iter().collect::<String>(), n.to_string());
        assert_eq!(parse_u64(&d), Some(n));
    }
    for bad in ["", "+", "-1", "1a", " 1", "18446744073709551616"] {
        let v: Vec<char> = bad.chars().collect();
        assert_eq!(parse_u64(&v), bad.parse::<u64>().ok());
    }
}

#[test]
fn dev_model_search_order() {
    assert_eq!(
        model_search_order(true),
        vec![
            (ModelDir::Project, "ggml-small.bin"),
            (ModelDir::Current, "ggml-small.bin"),
            (ModelDir::Parent, "ggml-small.bin"),
            (ModelDir::Project, "ggml-base.bin"),
            (ModelDir::Current, "ggml-base.bin"),
            (ModelDir::Parent, "ggml-base.bin"),
        ]
    );
    assert_eq!(
        model_search_order(false),
        vec![
            (ModelDir::Current, "ggml-small.bin"),
            (ModelDir::Parent, "ggml-small.bin"),
            (ModelDir::Current, "ggml-base.bin"),
            (ModelDir::Parent, "ggml-base.bin"),
        ]
    );
}
