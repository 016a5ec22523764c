//! The marks the controls bar and the header show: play state, shuffle,
//! repeat mode and the volume bar.
use vstd::prelude::*;

use crate::app::RepeatMode;
use crate::text::string_from_chars;

verus! {

/// How many of the 8 cells of the volume bar are filled, and how many are empty.
pub fn volume_bar_cells(volume: u8) -> (r: (usize, usize))
    ensures
        r.0 == volume as nat * 8 / 100,
        r.1 == if r.0 >= 8 {
            0
        } else {
            8 - r.0
        },
{
    let filled: usize = (volume as usize * 8) / 100;
    let empty: usize = if filled >= 8 {
        0
    } else {
        8 - filled
    };
    (filled, empty)
}

/// The volume bar: a full block per filled cell, then a light shade per empty one.
pub open spec fn volume_bar_spec(filled: nat, empty: nat) -> Seq<char> {
    Seq::new(filled, |k: int| '\u{2588}') + Seq::new(empty, |k: int| '\u{2591}')
}

/// The volume bar of `volume` percent.
pub fn volume_bar(volume: u8) -> (r: String)
    ensures
        r@ == volume_bar_spec(volume as nat * 8 / 100, if volume as nat * 8 / 100 >= 8 {
            0
        } else {
            (8 - volume as nat * 8 / 100) as nat
        }),
{
    let (filled, empty) = volume_bar_cells(volume);
    let mut v: Vec<char> = Vec::new();
    let mut i: usize = 0;
    while i < filled
        invariant
            i <= filled,
            v@ == Seq::new(i as nat, |k: int| '\u{2588}'),
        decreases filled - i,
    {
        v.push('\u{2588}');
        i += 1;
        assert(v@ =~= Seq::new(i as nat, |k: int| '\u{2588}'));
    }
    let mut j: usize = 0;
    while j < empty
        invariant
            j <= empty,
            v@ == Seq::new(filled as nat, |k: int| '\u{2588}') + Seq::new(j as nat, |k: int| '\u{2591}'),
        decreases empty - j,
    {
        v.push('\u{2591}');
        j += 1;
        assert(v@ =~= Seq::new(filled as nat, |k: int| '\u{2588}') + Seq::new(j as nat, |k: int| '\u{2591}'));
    }
    string_from_chars(&v)
}

/// The play-state mark: a play triangle while playing, a pause mark otherwise.
pub open spec fn play_icon_spec(is_playing: bool) -> char {
    if is_playing {
        '\u{25B6}'
    } else {
        '\u{23F8}'
    }
}

/// The play-state mark.
pub fn play_icon(is_playing: bool) -> (r: char)
    ensures
        r == play_icon_spec(is_playing),
{
    if is_playing {
        '\u{25B6}'
    } else {
        '\u{23F8}'
    }
}

/// How the controls bar shows a setting: its mark when on, two spaces when off.
pub open spec fn control_mark_spec(on: bool, mark: char) -> Seq<char> {
    if on {
        seq![mark]
    } else {
        seq![' ', ' ']
    }
}

/// The mark a repeat mode is shown with: the repeat sign for all, the
/// repeat-once sign for one.
pub open spec fn repeat_mark(repeat: RepeatMode) -> char {
    if repeat == RepeatMode::One {
        '\u{1F502}'
    } else {
        '\u{1F501}'
    }
}

/// The shuffle mark in the controls bar.
pub fn shuffle_icon(shuffle: bool) -> (r: String)
    ensures
        r@ == control_mark_spec(shuffle, '\u{1F500}'),
{
    let mut v: Vec<char> = Vec::new();
    if shuffle {
        v.push('\u{1F500}');
    } else {
        v.push(' ');
        v.push(' ');
    }
    assert(v@ =~= control_mark_spec(shuffle, '\u{1F500}'));
    string_from_chars(&v)
}

/// The repeat mark in the controls bar.
pub fn repeat_icon(repeat: RepeatMode) -> (r: String)
    ensures
        r@ == control_mark_spec(repeat != RepeatMode::Off, repeat_mark(repeat)),
{
    let mut v: Vec<char> = Vec::new();
    match repeat {
        RepeatMode::Off => {
            v.push(' ');
            v.push(' ');
        },
        RepeatMode::All => v.push('\u{1F501}'),
        RepeatMode::One => v.push('\u{1F502}'),
    }
    assert(v@ =~= control_mark_spec(repeat != RepeatMode::Off, repeat_mark(repeat)));
    string_from_chars(&v)
}

/// The marks after the header's title: a space and the shuffle mark when
/// shuffle is on, then a space and the repeat mark unless repeat is off.
pub open spec fn header_marks_spec(shuffle: bool, repeat: RepeatMode) -> Seq<char> {
    (if shuffle {
        seq![' ', '\u{1F500}']
    } else {
        Seq::empty()
    }) + (if repeat == RepeatMode::Off {
        Seq::empty()
    } else {
        seq![' ', repeat_mark(repeat)]
    })
}

/// The marks after the header's title.
pub fn header_marks(shuffle: bool, repeat: RepeatMode) -> (r: String)
    ensures
        r@ == header_marks_spec(shuffle, repeat),
{
    let mut v: Vec<char> = Vec::new();
    if shuffle {
        v.push(' ');
        v.push('\u{1F500}');
    }
    match repeat {
        RepeatMode::Off => {},
        RepeatMode::All => {
            v.push(' ');
            v.push('\u{1F501}');
        },
        RepeatMode::One => {
            v.push(' ');
            v.push('\u{1F502}');
        },
    }
    assert(v@ =~= header_marks_spec(shuffle, repeat));
    string_from_chars(&v)
}

} // verus!
