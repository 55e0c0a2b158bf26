//! Storage layout: track names and the directories sessions are saved in.
//!
//! Paths are given as their components; the caller joins them onto a base
//! directory.

use vstd::prelude::*;
use vstd::string::StrSliceExecFns;
use vstd::utf8::{decode_utf8, encode_utf8, is_char_boundary};

use crate::session::SessionMeta;
use crate::text::is_ascii_text;

verus! {

/// The name of track `id` (official F1 24 numbering).
pub open spec fn track_name_text(id: i8) -> Seq<char> {
    match id {
        0 => "melbourne"@,
        1 => "paul_ricard"@,
        2 => "shanghai"@,
        3 => "sakhir"@,
        4 => "catalunya"@,
        5 => "monaco"@,
        6 => "montreal"@,
        7 => "silverstone"@,
        8 => "hockenheim"@,
        9 => "hungaroring"@,
        10 => "spa"@,
        11 => "monza"@,
        12 => "singapore"@,
        13 => "suzuka"@,
        14 => "abu_dhabi"@,
        15 => "texas"@,
        16 => "brazil"@,
        17 => "austria"@,
        18 => "sochi"@,
        19 => "mexico"@,
        20 => "baku"@,
        21 => "sakhir_short"@,
        22 => "silverstone_short"@,
        23 => "texas_short"@,
        24 => "suzuka_short"@,
        25 => "hanoi"@,
        26 => "zandvoort"@,
        27 => "imola"@,
        28 => "portimao"@,
        29 => "jeddah"@,
        30 => "miami"@,
        31 => "las_vegas"@,
        32 => "losail"@,
        _ => "unknown"@,
    }
}

/// Track ID to name mapping (official F1 24 spec).
pub fn track_name(id: i8) -> (r: &'static str)
    ensures
        r@ == track_name_text(id),
{
    match id {
        0 => "melbourne",
        1 => "paul_ricard",
        2 => "shanghai",
        3 => "sakhir",
        4 => "catalunya",
        5 => "monaco",
        6 => "montreal",
        7 => "silverstone",
        8 => "hockenheim",
        9 => "hungaroring",
        10 => "spa",
        11 => "monza",
        12 => "singapore",
        13 => "suzuka",
        14 => "abu_dhabi",
        15 => "texas",
        16 => "brazil",
        17 => "austria",
        18 => "sochi",
        19 => "mexico",
        20 => "baku",
        21 => "sakhir_short",
        22 => "silverstone_short",
        23 => "texas_short",
        24 => "suzuka_short",
        25 => "hanoi",
        26 => "zandvoort",
        27 => "imola",
        28 => "portimao",
        29 => "jeddah",
        30 => "miami",
        31 => "las_vegas",
        32 => "losail",
        _ => "unknown",
    }
}

/// The year of an RFC 3339 start time: the text of its first four bytes.
pub open spec fn year_text(start_time: Seq<char>) -> Seq<char> {
    decode_utf8(encode_utf8(start_time).subrange(0, 4))
}

/// The directory of a session below the storage directory, as its path
/// components: `sessions / {year} / {track} / {session_id}`.
pub open spec fn session_dir_parts(meta: crate::session::SessionMetaView) -> Seq<Seq<char>> {
    seq!["sessions"@, year_text(meta.start_time), track_name_text(meta.track_id), meta.session_id]
}

/// The session storage directory, as the path components to join onto the
/// storage directory (the caller joins them with `Path::join`, so the
/// platform's path rules apply).
pub fn session_dir(meta: &SessionMeta) -> (r: Vec<String>)
    requires
        is_char_boundary(encode_utf8(meta.start_time@), 4),
    ensures
        r@.len() == 4,
        forall|k: int| 0 <= k < 4 ==> (#[trigger] r@[k])@ == session_dir_parts(meta@)[k],
{
    let (year, _) = meta.start_time.as_str().split_at(4);  // ISO 8601 starts with year
    proof {
        vstd::utf8::encode_utf8_decode_utf8(year@);
        reveal_strlit("sessions");
    }
    let track = track_name(meta.track_id);
    let r = vec!["sessions".to_owned(), year.to_owned(), track.to_owned(), meta.session_id.clone()];
    assert forall|k: int| 0 <= k < 4 implies (#[trigger] r@[k])@ == session_dir_parts(meta@)[k] by {
        if k == 0 {
        } else if k == 1 {
        } else if k == 2 {
        } else {
        }
    }
    r
}

/// An ASCII start time of at least four chars (what `start_session`
/// records) can be cut after its fourth byte, and its year is its first
/// four chars.
pub proof fn lemma_ascii_year(t: Seq<char>)
    requires
        is_ascii_text(t),
        t.len() >= 4,
    ensures
        is_char_boundary(encode_utf8(t), 4),
        year_text(t) == t.subrange(0, 4),
{
    broadcast use vstd::utf8::encode_utf8_valid_utf8, vstd::utf8::encode_utf8_decode_utf8;

    let p = t.subrange(0, 4);
    assert(vstd::utf8::is_ascii_chars(p));
    vstd::utf8::is_ascii_chars_encode_utf8(t);
    vstd::utf8::is_ascii_chars_encode_utf8(p);
    let b = encode_utf8(t);
    if t.len() == 4 {
        assert(t =~= p);
        vstd::utf8::is_char_boundary_start_end_of_seq(b);
    } else {
        assert('\0' <= t[4] <= '\u{7f}');
        assert(b[4] == t[4] as u8);
        vstd::utf8::is_char_boundary_iff_not_is_continuation_byte(b, 4);
    }
    assert(b.subrange(0, 4) =~= encode_utf8(p)) by {
        assert forall|i: int| 0 <= i < 4 implies b.subrange(0, 4)[i] == encode_utf8(p)[i] by {
            assert(p[i] == t[i]);
        }
    }
}

/// A session is stored under `sessions`, then its year (the first four
/// chars of an ASCII start time), then its track's name, then its id.
pub proof fn lemma_session_dir_layout(meta: crate::session::SessionMetaView)
    requires
        is_ascii_text(meta.start_time),
        meta.start_time.len() >= 4,
    ensures
        session_dir_parts(meta) == seq![
            "sessions"@,
            meta.start_time.subrange(0, 4),
            track_name_text(meta.track_id),
            meta.session_id,
        ],
{
    lemma_ascii_year(meta.start_time);
}

} // verus!
