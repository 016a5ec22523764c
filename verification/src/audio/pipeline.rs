//! The audio pipeline's logic: the `yt-dlp` and `ffmpeg` command lines that
//! stream a song as raw PCM, the decoding of that PCM, and the bounded
//! sample buffers between the decoder and the output. Spawning the processes
//! and the audio output itself are done by the caller.
use std::collections::VecDeque;
use vstd::prelude::*;

use crate::audio::preload::{opt_view, push_arg, views};
use crate::text::{decimal_spec, push_decimal, string_from_chars};

verus! {

/// Seconds of audio the playback buffer holds at most.
pub const PLAYBACK_BUFFER_SECONDS: usize = 4;

/// Seconds of audio the visualizer buffer holds at most.
pub const VISUALIZER_BUFFER_SECONDS: usize = 2;

/// The `yt-dlp` arguments that stream the best audio of `url` to standard
/// output, with the cookies file when one is given.
pub open spec fn stream_args_spec(url: Seq<char>, cookies: Option<Seq<char>>) -> Seq<Seq<char>> {
    let base = seq!["--no-warnings"@, "--quiet"@, "-f"@, "bestaudio/best"@, "-o"@, "-"@];
    match cookies {
        Some(c) => base + seq!["--cookies"@, c, url],
        None => base.push(url),
    }
}

/// The `yt-dlp` arguments that stream the best audio of `url` to standard output.
pub fn stream_args(url: &str, cookies: Option<&str>) -> (r: Vec<String>)
    ensures
        views(r@) == stream_args_spec(url@, opt_view(cookies)),
{
    let mut r: Vec<String> = Vec::new();
    push_arg(&mut r, "--no-warnings");
    push_arg(&mut r, "--quiet");
    push_arg(&mut r, "-f");
    push_arg(&mut r, "bestaudio/best");
    push_arg(&mut r, "-o");
    push_arg(&mut r, "-");
    if let Some(c) = cookies {
        push_arg(&mut r, "--cookies");
        push_arg(&mut r, c);
    }
    push_arg(&mut r, url);
    proof {
        reveal_strlit("--no-warnings");
        reveal_strlit("--quiet");
        reveal_strlit("-f");
        reveal_strlit("bestaudio/best");
        reveal_strlit("-o");
        reveal_strlit("-");
        reveal_strlit("--cookies");
    }
    assert(views(r@) =~= stream_args_spec(url@, opt_view(cookies)));
    r
}

/// The `ffmpeg` arguments that decode standard input to raw signed 16-bit
/// little-endian PCM at `sample_rate` with `channels` channels on standard output.
pub open spec fn decoder_args_spec(sample_rate: nat, channels: nat) -> Seq<Seq<char>> {
    seq![
        "-hide_banner"@,
        "-loglevel"@,
        "error"@,
        "-i"@,
        "pipe:0"@,
        "-f"@,
        "s16le"@,
        "-acodec"@,
        "pcm_s16le"@,
        "-ar"@,
        decimal_spec(sample_rate),
        "-ac"@,
        decimal_spec(channels),
        "pipe:1"@,
    ]
}

/// The decimal notation of `n` as a string.
fn decimal_string(n: u64) -> (r: String)
    ensures
        r@ == decimal_spec(n as nat),
{
    let mut v: Vec<char> = Vec::new();
    push_decimal(&mut v, n);
    assert(v@ =~= decimal_spec(n as nat));
    string_from_chars(&v)
}

/// The `ffmpeg` arguments that decode standard input to raw PCM.
pub fn decoder_args(sample_rate: u32, channels: usize) -> (r: Vec<String>)
    requires
        channels <= u64::MAX,
    ensures
        views(r@) == decoder_args_spec(sample_rate as nat, channels as nat),
{
    let mut r: Vec<String> = Vec::new();
    push_arg(&mut r, "-hide_banner");
    push_arg(&mut r, "-loglevel");
    push_arg(&mut r, "error");
    push_arg(&mut r, "-i");
    push_arg(&mut r, "pipe:0");
    push_arg(&mut r, "-f");
    push_arg(&mut r, "s16le");
    push_arg(&mut r, "-acodec");
    push_arg(&mut r, "pcm_s16le");
    push_arg(&mut r, "-ar");
    let rate = decimal_string(sample_rate as u64);
    push_arg(&mut r, rate.as_str());
    push_arg(&mut r, "-ac");
    let ch = decimal_string(channels as u64);
    push_arg(&mut r, ch.as_str());
    push_arg(&mut r, "pipe:1");
    proof {
        reveal_strlit("-hide_banner");
        reveal_strlit("-loglevel");
        reveal_strlit("error");
        reveal_strlit("-i");
        reveal_strlit("pipe:0");
        reveal_strlit("-f");
        reveal_strlit("s16le");
        reveal_strlit("-acodec");
        reveal_strlit("pcm_s16le");
        reveal_strlit("-ar");
        reveal_strlit("-ac");
        reveal_strlit("pipe:1");
    }
    assert(views(r@) =~= decoder_args_spec(sample_rate as nat, channels as nat));
    r
}

/// The sizes, in samples, of the decoder's buffers at `sample_rate` with
/// `channels` channels.
pub struct BufferLimits {
    /// The playback buffer's capacity: `PLAYBACK_BUFFER_SECONDS` of audio.
    pub playback_max: usize,
    /// The visualizer buffer's capacity: `VISUALIZER_BUFFER_SECONDS` of audio.
    pub visualizer_max: usize,
    /// Three quarters of the playback capacity: at this fill the decoder
    /// waits for playback to catch up.
    pub high_water: usize,
}

/// The buffer sizes for `sample_rate` and `channels`; the products must fit
/// in `usize`.
pub fn buffer_limits(sample_rate: u32, channels: usize) -> (r: BufferLimits)
    requires
        sample_rate * channels * PLAYBACK_BUFFER_SECONDS * 3 <= usize::MAX,
    ensures
        r.playback_max == sample_rate * channels * PLAYBACK_BUFFER_SECONDS,
        r.visualizer_max == sample_rate * channels * VISUALIZER_BUFFER_SECONDS,
        r.high_water == r.playback_max * 3 / 4,
{
    let per_second: usize = sample_rate as usize * channels;
    let playback_max = per_second * PLAYBACK_BUFFER_SECONDS;
    let visualizer_max = per_second * VISUALIZER_BUFFER_SECONDS;
    BufferLimits { playback_max, visualizer_max, high_water: playback_max * 3 / 4 }
}

/// The signed 16-bit value of the little-endian byte pair `lo`, `hi`.
pub open spec fn le_sample(lo: u8, hi: u8) -> int {
    if hi < 128 {
        hi * 256 + lo
    } else {
        hi * 256 + lo - 65536
    }
}

/// `i16::from_le_bytes([lo, hi])`.
pub fn sample_from_le_bytes(lo: u8, hi: u8) -> (r: i16)
    ensures
        r as int == le_sample(lo, hi),
{
    let v: i32 = hi as i32 * 256 + lo as i32;
    if hi < 128 {
        v as i16
    } else {
        (v - 65536) as i16
    }
}

/// Decodes the first `n` bytes of `buf` as signed 16-bit little-endian
/// samples; an odd last byte is left out.
pub fn decode_s16le(buf: &[u8], n: usize) -> (r: Vec<i16>)
    requires
        n <= buf@.len(),
    ensures
        r@.len() == n / 2,
        forall|k: int| 0 <= k < r@.len() ==> #[trigger] r@[k] as int == le_sample(buf@[2 * k], buf@[2 * k + 1]),
{
    let mut r: Vec<i16> = Vec::new();
    let mut i: usize = 0;
    while i + 1 < n
        invariant
            n <= buf@.len(),
            i % 2 == 0,
            i <= n,
            r@.len() == i / 2,
            forall|k: int| 0 <= k < r@.len() ==> #[trigger] r@[k] as int == le_sample(buf@[2 * k], buf@[2 * k + 1]),
        decreases n - i,
    {
        r.push(sample_from_le_bytes(buf[i], buf[i + 1]));
        i += 2;
    }
    r
}

/// `b` after one sample `x` was added to a buffer of capacity `max`: when
/// full, the oldest sample leaves first.
pub open spec fn push_one<T>(b: Seq<T>, x: T, max: nat) -> Seq<T> {
    if b.len() >= max && b.len() > 0 {
        b.drop_first().push(x)
    } else {
        b.push(x)
    }
}

/// `b` after the samples `xs` were added one by one.
pub open spec fn push_all<T>(b: Seq<T>, xs: Seq<T>, max: nat) -> Seq<T>
    decreases xs.len(),
{
    if xs.len() == 0 {
        b
    } else {
        push_one(push_all(b, xs.drop_last(), max), xs.last(), max)
    }
}

/// The last `max` items of `s` (all of them when there are fewer).
pub open spec fn keep_last<T>(s: Seq<T>, max: nat) -> Seq<T> {
    if s.len() > max {
        s.skip(s.len() - max)
    } else {
        s
    }
}

/// A buffer of capacity `max` that held at most `max` samples holds, after
/// more were added, the latest `max` of all of them.
pub proof fn law_bounded_buffer_keeps_latest<T>(b: Seq<T>, xs: Seq<T>, max: nat)
    requires
        b.len() <= max,
        max > 0,
    ensures
        push_all(b, xs, max) == keep_last(b + xs, max),
    decreases xs.len(),
{
    if xs.len() == 0 {
        assert(b + xs =~= b);
    } else {
        let xs0 = xs.drop_last();
        let x = xs.last();
        law_bounded_buffer_keeps_latest(b, xs0, max);
        let s0 = b + xs0;
        assert(b + xs =~= s0.push(x));
        let p = keep_last(s0, max);
        if s0.len() >= max {
            assert(p.len() == max);
            assert(push_one(p, x, max) =~= keep_last(s0.push(x), max));
        } else {
            assert(push_one(p, x, max) =~= keep_last(s0.push(x), max));
        }
    }
}

/// Adds `samples` to `buffer`, which holds at most `max_len` of them: when
/// it is full, the oldest sample leaves before each new one.
pub fn push_samples<T: Copy>(buffer: &mut VecDeque<T>, samples: &[T], max_len: usize)
    ensures
        final(buffer)@ == push_all(old(buffer)@, samples@, max_len as nat),
{
    let mut i: usize = 0;
    while i < samples.len()
        invariant
            i <= samples@.len(),
            buffer@ == push_all(old(buffer)@, samples@.take(i as int), max_len as nat),
        decreases samples@.len() - i,
    {
        let ghost before = buffer@;
        if buffer.len() >= max_len {
            buffer.pop_front();
        }
        buffer.push_back(samples[i]);
        proof {
            let t = samples@.take(i + 1);
            assert(t.drop_last() =~= samples@.take(i as int));
            assert(buffer@ =~= push_one(before, samples@[i as int], max_len as nat));
        }
        i += 1;
    }
    assert(samples@.take(samples@.len() as int) =~= samples@);
}

/// Takes up to `max_samples` of the oldest samples out of `buffer`.
pub fn take_samples<T: Copy>(buffer: &mut VecDeque<T>, max_samples: usize) -> (r: Vec<T>)
    ensures
        ({
            let k = if old(buffer)@.len() < max_samples {
                old(buffer)@.len() as int
            } else {
                max_samples as int
            };
            &&& r@ == old(buffer)@.take(k)
            &&& final(buffer)@ == old(buffer)@.skip(k)
        }),
{
    let take = if max_samples < buffer.len() {
        max_samples
    } else {
        buffer.len()
    };
    let ghost b0 = buffer@;
    let mut out: Vec<T> = Vec::new();
    let mut i: usize = 0;
    while i < take
        invariant
            take <= b0.len(),
            i <= take,
            out@ == b0.take(i as int),
            buffer@ == b0.skip(i as int),
        decreases take - i,
    {
        match buffer.pop_front() {
            Some(s) => {
                out.push(s);
            },
            None => {},
        }
        assert(out@ =~= b0.take(i + 1));
        assert(buffer@ =~= b0.skip(i + 1));
        i += 1;
    }
    out
}

} // verus!
