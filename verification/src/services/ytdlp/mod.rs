//! yt-dlp download jobs: format selection, command lines, progress lines and
//! the job state they drive.
use vstd::prelude::*;

pub mod command;
pub mod jobs;
pub mod lifecycle;
pub mod progress;
use crate::text::{chars_of, starts_with, str_eq, str_starts_with, string_of, sub_chars};

verus! {

/// The audio formats yt-dlp extracts to.
pub open spec fn is_audio_format(f: Seq<char>) -> bool {
    f == "m4a"@ || f == "mp3"@ || f == "opus"@ || f == "wav"@ || f == "flac"@
}

/// The yt-dlp `-f` selector and optional `-S` sort for a requested format and
/// quality.
pub open spec fn format_selector(format: Seq<char>, quality: Seq<char>) -> (
    Seq<char>,
    Option<Seq<char>>,
) {
    if starts_with(format, "custom:"@) {
        (format.skip(7), None)
    } else if format == "thumbnail"@ {
        ("bestaudio/best"@, None)
    } else if is_audio_format(format) {
        ("ba/b"@, Some("aext:"@ + format))
    } else if format == "mp4"@ || format == "any"@ {
        if quality == "audio"@ {
            ("ba/b"@, None)
        } else {
            let vres = if quality == "best"@ || quality == "best_ios"@ || quality == "worst"@ {
                Seq::<char>::empty()
            } else {
                "[height<="@ + quality + "]"@
            };
            (
                "bv*"@ + vres + "+ba/b"@,
                if format == "mp4"@ {
                    Some("res,vcodec:h264,acodec:aac,ext:mp4:m4a"@)
                } else {
                    None
                },
            )
        }
    } else {
        ("bestvideo+bestaudio/best"@, None)
    }
}

/// Resolves the yt-dlp format selector and sort flags for a requested format
/// and quality: `custom:<sel>` passes `<sel>` through, audio formats select
/// the best audio and sort by extension, `mp4`/`any` select video capped at
/// the requested height, anything else the best video and audio.
pub fn resolve_format_selector(format: &str, quality: &str) -> (r: (String, Option<String>))
    ensures
        r.0@ == format_selector(format@, quality@).0,
        match format_selector(format@, quality@).1 {
            Some(s) => r.1 matches Some(t) && t@ == s,
            None => r.1 is None,
        },
{
    proof {
        reveal_strlit("custom:");
    }
    if str_starts_with(format, "custom:") {
        let cs = chars_of(format);
        let rest = sub_chars(&cs, 7, cs.len());
        proof {
            assert(rest@ =~= format@.skip(7));
        }
        return (string_of(rest.as_slice()), None);
    }
    if str_eq(format, "thumbnail") {
        return (String::from_str("bestaudio/best"), None);
    }
    if str_eq(format, "m4a") || str_eq(format, "mp3") || str_eq(format, "opus") || str_eq(
        format,
        "wav",
    ) || str_eq(format, "flac") {
        let mut sort = String::from_str("aext:");
        sort.append(format);
        return (String::from_str("ba/b"), Some(sort));
    }
    let is_mp4 = str_eq(format, "mp4");
    if is_mp4 || str_eq(format, "any") {
        if str_eq(quality, "audio") {
            return (String::from_str("ba/b"), None);
        }
        let mut sel = String::from_str("bv*");
        if !(str_eq(quality, "best") || str_eq(quality, "best_ios") || str_eq(quality, "worst")) {
            sel.append("[height<=");
            sel.append(quality);
            sel.append("]");
        }
        sel.append("+ba/b");
        let sort = if is_mp4 {
            Some(String::from_str("res,vcodec:h264,acodec:aac,ext:mp4:m4a"))
        } else {
            None
        };
        return (sel, sort);
    }
    (String::from_str("bestvideo+bestaudio/best"), None)
}

/// For `mp4` and `any`, a quality other than `audio`, `best`, `best_ios` and
/// `worst` caps the video at that height: the selector is
/// `bv*[height<=QUALITY]+ba/b`. The two formats select alike for every
/// quality (they differ only in `mp4`'s sort).
pub proof fn law_video_height_cap(format: Seq<char>, quality: Seq<char>)
    ensures
        (format == "mp4"@ || format == "any"@) && quality != "audio"@ && quality != "best"@
            && quality != "best_ios"@ && quality != "worst"@ ==> format_selector(format, quality).0
            == "bv*[height<="@ + quality + "]+ba/b"@,
        format_selector("mp4"@, quality).0 == format_selector("any"@, quality).0,
{
    reveal_strlit("mp4");
    reveal_strlit("any");
    reveal_strlit("custom:");
    reveal_strlit("thumbnail");
    reveal_strlit("m4a");
    reveal_strlit("mp3");
    reveal_strlit("opus");
    reveal_strlit("wav");
    reveal_strlit("flac");
    reveal_strlit("bv*");
    reveal_strlit("[height<=");
    reveal_strlit("]");
    reveal_strlit("+ba/b");
    reveal_strlit("bv*[height<=");
    reveal_strlit("]+ba/b");
    assert(!starts_with("mp4"@, "custom:"@));
    assert(!starts_with("any"@, "custom:"@));
    assert("mp4"@ != "thumbnail"@);
    assert("any"@ != "thumbnail"@);
    assert("mp4"@[1] != "m4a"@[1] && "mp4"@[2] != "mp3"@[2] && "mp4"@[0] != "wav"@[0]);
    assert("mp4"@.len() != "opus"@.len() && "mp4"@.len() != "flac"@.len());
    assert("any"@[0] != "m4a"@[0] && "any"@[0] != "mp3"@[0] && "any"@[0] != "wav"@[0]);
    assert("any"@.len() != "opus"@.len() && "any"@.len() != "flac"@.len());
    assert(!is_audio_format("mp4"@));
    assert(!is_audio_format("any"@));
    assert("bv*"@ + ("[height<="@ + quality + "]"@) + "+ba/b"@ =~= "bv*[height<="@ + quality
        + "]+ba/b"@);
}

/// The other formats: `custom:SEL` passes `SEL` through unsorted; an audio
/// format selects the best audio, sorted by that extension; `mp4` or `any`
/// with quality `audio` selects the best audio; any other format the best
/// video and audio.
pub proof fn law_other_selectors(format: Seq<char>, quality: Seq<char>)
    ensures
        starts_with(format, "custom:"@) ==> format_selector(format, quality) == (
            format.skip(7),
            None::<Seq<char>>,
        ),
        is_audio_format(format) ==> format_selector(format, quality) == ("ba/b"@, Some(
            "aext:"@ + format,
        )),
        (format == "mp4"@ || format == "any"@) && quality == "audio"@ ==> format_selector(
            format,
            quality,
        ) == ("ba/b"@, None::<Seq<char>>),
        !starts_with(format, "custom:"@) && format != "thumbnail"@ && !is_audio_format(format)
            && format != "mp4"@ && format != "any"@ ==> format_selector(format, quality) == (
            "bestvideo+bestaudio/best"@,
            None::<Seq<char>>,
        ),
{
    reveal_strlit("custom:");
    reveal_strlit("thumbnail");
    reveal_strlit("m4a");
    reveal_strlit("mp3");
    reveal_strlit("opus");
    reveal_strlit("wav");
    reveal_strlit("flac");
    if is_audio_format(format) {
        assert(format.len() < 7);
        assert(format.len() != "thumbnail"@.len());
    }
    reveal_strlit("mp4");
    reveal_strlit("any");
    assert(!starts_with("mp4"@, "custom:"@));
    assert(!starts_with("any"@, "custom:"@));
    assert("mp4"@ != "thumbnail"@);
    assert("any"@ != "thumbnail"@);
    assert("mp4"@[1] != "m4a"@[1] && "mp4"@[2] != "mp3"@[2] && "mp4"@[0] != "wav"@[0]);
    assert("mp4"@.len() != "opus"@.len() && "mp4"@.len() != "flac"@.len());
    assert("any"@[0] != "m4a"@[0] && "any"@[0] != "mp3"@[0] && "any"@[0] != "wav"@[0]);
    assert("any"@.len() != "opus"@.len() && "any"@.len() != "flac"@.len());
    assert(!is_audio_format("mp4"@));
    assert(!is_audio_format("any"@));
}

} // verus!
