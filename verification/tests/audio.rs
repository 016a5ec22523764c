use std::hash::BuildHasher;
use std::collections::VecDeque;
use termtube::audio::pipeline::{
    buffer_limits, decode_s16le, decoder_args, push_samples, sample_from_le_bytes, stream_args,
    take_samples,
};
use termtube::audio::preload::{download_args, download_output_pattern, make_cache_path, PreloadCache};

#[test]
fn preload_cache_path_uses_the_url_hash() {
    let url = "https://www.youtube.com/watch?v=abc";
    let p = make_cache_path("/cache", url).unwrap();
    assert_eq!(p, format!("/cache/{:x}.opus", hash_text(url)));
    let q = make_cache_path("/cache", "https://www.youtube.com/watch?v=abd").unwrap();
    assert_ne!(p, q);
}

#[test]
fn preload_cache_evicts_oldest() {
    let mut cache = PreloadCache::new(2);
    assert!(cache.record("a".to_string()).is_empty());
    assert!(cache.record("b".to_string()).is_empty());
    assert_eq!(cache.record("c".to_string()), vec!["a".to_string()]);
    assert_eq!(cache.record("d".to_string()), vec!["b".to_string()]);
    let mut none = PreloadCache::new(0);
    assert_eq!(none.record("x".to_string()), vec!["x".to_string()]);
}

#[test]
fn download_arguments() {
    assert_eq!(
        download_args("U", "/p.opus", None),
        vec!["--no-warnings", "--quiet", "-f", "bestaudio", "-o", "/p.opus", "U"]
    );
    assert_eq!(
        download_args("U", "/p", Some("/c")),
        vec!["--no-warnings", "--quiet", "-f", "bestaudio", "-o", "/p", "U", "--cookies", "/c"]
    );
    assert_eq!(download_output_pattern("/music"), "/music/%(title)s-%(id)s.%(ext)s");
}

#[test]
fn stream_and_decoder_arguments() {
    assert_eq!(
        stream_args("U", Some("/c")),
        vec!["--no-warnings", "--quiet", "-f", "bestaudio/best", "-o", "-", "--cookies", "/c", "U"]
    );
    assert_eq!(
        decoder_args(48000, 2),
        vec![
            "-hide_banner", "-loglevel", "error", "-i", "pipe:0", "-f", "s16le", "-acodec",
            "pcm_s16le", "-ar", "48000", "-ac", "2", "pipe:1"
        ]
    );
}

#[test]
fn buffer_sizes() {
    let l = buffer_limits(48000, 2);
    assert_eq!(l.playback_max, 384000);
    assert_eq!(l.visualizer_max, 192000);
    assert_eq!(l.high_water, 288000);
}

#[test]
fn pcm_decoding() {
    assert_eq!(sample_from_le_bytes(0x34, 0x12), 0x1234);
    assert_eq!(sample_from_le_bytes(0xff, 0xff), -1);
    assert_eq!(sample_from_le_bytes(0x00, 0x80), i16::MIN);
    let buf = [0x01, 0x00, 0xfe, 0xff, 0x07];
    assert_eq!(decode_s16le(&buf, 5), vec![1, -2]);
    assert_eq!(decode_s16le(&buf, 1), Vec::<i16>::new());
    for (lo, hi) in [(0u8, 0u8), (0x12, 0x34), (0xff, 0x7f), (0x80, 0xff)] {
        assert_eq!(sample_from_le_bytes(lo, hi), i16::from_le_bytes([lo, hi]));
    }
}

#[test]
fn bounded_buffers_keep_the_latest() {
    let mut b: VecDeque<u32> = VecDeque::new();
    push_samples(&mut b, &[1, 2, 3, 4, 5], 3);
    assert_eq!(b, VecDeque::from(vec![3, 4, 5]));
    push_samples(&mut b, &[6], 3);
    assert_eq!(b, VecDeque::from(vec![4, 5, 6]));
    let taken = take_samples(&mut b, 2);
    assert_eq!(taken, vec![4, 5]);
    assert_eq!(b, VecDeque::from(vec![6]));
    let rest = take_samples(&mut b, 10);
    assert_eq!(rest, vec![6]);
    assert!(b.is_empty());
    let mut f: VecDeque<f32> = VecDeque::new();
    push_samples(&mut f, &[0.5, -0.5], 8);
    assert_eq!(f.len(), 2);
}

/// The hash a fresh `DefaultHasher` gives to a string.
fn hash_text(s: &str) -> u64 {
    std::hash::BuildHasherDefault::<std::collections::hash_map::DefaultHasher>::default().hash_one(s)
}
