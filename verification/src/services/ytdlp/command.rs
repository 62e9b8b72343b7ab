//! The yt-dlp command line of a job and where its files go.
use vstd::prelude::*;
use crate::error::AppError;
use crate::services::ytdlp::{is_audio_format};
use crate::text::{
    chars_of, contains_seq, str_contains, str_eq, strs_view, string_of, trim, trim_chars,
};

verus! {

/// The downloader used when none is configured.
pub const ARIA2_DOWNLOADER: &'static str = "aria2c";

/// The arguments given to aria2c when none are configured.
pub const DEFAULT_ARIA2_DOWNLOADER_ARGS: &'static str = "aria2c:-x16 -j16 -s16 -k1M --file-allocation=none --summary-interval=0";

/// Whether `f` holds a `..` path segment.
pub open spec fn has_parent_segment(f: Seq<char>) -> bool {
    exists|i: int|
        0 <= i && i + 2 <= f.len() && (i == 0 || f[i - 1] == '/') && #[trigger] f[i] == '.' && f[i
            + 1] == '.' && (i + 2 == f.len() || f[i + 2] == '/')
}

/// `dir` with the relative path `f` appended, as `PathBuf::push` does.
pub open spec fn join_path(dir: Seq<char>, f: Seq<char>) -> Seq<char> {
    if dir.len() == 0 {
        f
    } else if dir.last() == '/' {
        dir + f
    } else {
        dir + "/"@ + f
    }
}

/// The message for a folder that could leave the download directory.
pub open spec fn unsafe_folder_message() -> Seq<char> {
    "folder must be a relative safe path"@
}

/// Where a job's files go: the download directory, or the requested
/// sub-folder of it; an absolute folder or one with a `..` segment is refused.
pub open spec fn output_dir_spec(download_dir: Seq<char>, folder: Option<Seq<char>>) -> Result<
    Seq<char>,
    Seq<char>,
> {
    match folder {
        Some(f) => if f.len() == 0 {
            Ok(download_dir)
        } else if f[0] == '/' || has_parent_segment(f) {
            Err(unsafe_folder_message())
        } else {
            Ok(join_path(download_dir, f))
        },
        None => Ok(download_dir),
    }
}

/// Whether `cs` holds a `..` segment.
fn parent_segment(cs: &Vec<char>) -> (r: bool)
    ensures
        r == has_parent_segment(cs@),
{
    let n = cs.len();
    let mut i: usize = 0;
    while i < n
        invariant
            n == cs@.len(),
            i <= n,
            forall|j: int|
                0 <= j < i ==> !(j + 2 <= cs@.len() && (j == 0 || cs@[j - 1] == '/')
                    && #[trigger] cs@[j] == '.' && cs@[j + 1] == '.' && (j + 2 == cs@.len() || cs@[j
                    + 2] == '/')),
        decreases n - i,
    {
        if i < n - 1 && (i == 0 || cs[i - 1] == '/') && cs[i] == '.' && cs[i + 1] == '.' && (i + 2
            == n || cs[i + 2] == '/') {
            return true;
        }
        i = i + 1;
    }
    false
}

/// Resolves the directory a job downloads into (see `output_dir_spec`).
pub fn resolve_output_dir(download_dir: &str, folder: &Option<String>) -> (r: Result<String, AppError>)
    ensures
        match output_dir_spec(
            download_dir@,
            match folder {
                Some(f) => Some(f@),
                None => None,
            },
        ) {
            Ok(d) => r matches Ok(s) && s@ == d,
            Err(m) => r matches Err(AppError::Validation(e)) && e@ == m,
        },
{
    match folder {
        None => Ok(String::from_str(download_dir)),
        Some(f) => {
            let cs = chars_of(f.as_str());
            if cs.len() == 0 {
                return Ok(String::from_str(download_dir));
            }
            if cs[0] == '/' || parent_segment(&cs) {
                return Err(AppError::Validation(String::from_str("folder must be a relative safe path")));
            }
            let dir = chars_of(download_dir);
            let mut r = String::from_str(download_dir);
            if dir.len() > 0 && dir[dir.len() - 1] != '/' {
                r.append("/");
            }
            r.append(f.as_str());
            proof {
                if dir@.len() > 0 {
                    assert(dir@.last() == dir@[dir@.len() - 1]);
                }
            }
            Ok(r)
        },
    }
}

/// A configured value, trimmed, where it is set and not blank.
pub open spec fn configured(o: Option<Seq<char>>) -> Option<Seq<char>> {
    match o {
        Some(v) => if trim(v).len() > 0 {
            Some(trim(v))
        } else {
            None
        },
        None => None,
    }
}

/// The downloader and the `--downloader-args` value: the configured
/// downloader (aria2c by default); the configured arguments, or aria2c's
/// defaults for aria2c; arguments without a `:` are prefixed with the
/// downloader's name.
pub open spec fn downloader_spec(cfg_downloader: Option<Seq<char>>, cfg_args: Option<Seq<char>>) -> (
    Seq<char>,
    Option<Seq<char>>,
) {
    let downloader = match configured(cfg_downloader) {
        Some(d) => d,
        None => ARIA2_DOWNLOADER@,
    };
    let default_args = if downloader == ARIA2_DOWNLOADER@ {
        DEFAULT_ARIA2_DOWNLOADER_ARGS@
    } else {
        Seq::empty()
    };
    let raw = match configured(cfg_args) {
        Some(a) => a,
        None => default_args,
    };
    (
        downloader,
        if raw.len() == 0 {
            None
        } else if contains_seq(raw, ":"@) {
            Some(raw)
        } else {
            Some(downloader + ":"@ + raw)
        },
    )
}

/// A configured value, trimmed, where it is set and not blank.
fn configured_value(o: &Option<String>) -> (r: Option<String>)
    ensures
        match configured(
            match o {
                Some(v) => Some(v@),
                None => None,
            },
        ) {
            Some(v) => r matches Some(s) && s@ == v,
            None => r is None,
        },
{
    match o {
        Some(v) => {
            let cs = chars_of(v.as_str());
            let t = trim_chars(&cs);
            if t.len() > 0 {
                Some(string_of(t.as_slice()))
            } else {
                None
            }
        },
        None => None,
    }
}

/// Picks the downloader and its arguments (see `downloader_spec`).
pub fn downloader_settings(cfg_downloader: &Option<String>, cfg_args: &Option<String>) -> (r: (
    String,
    Option<String>,
))
    ensures
        ({
            let s = downloader_spec(
                match cfg_downloader {
                    Some(v) => Some(v@),
                    None => None,
                },
                match cfg_args {
                    Some(v) => Some(v@),
                    None => None,
                },
            );
            &&& r.0@ == s.0
            &&& match s.1 {
                Some(a) => r.1 matches Some(t) && t@ == a,
                None => r.1 is None,
            }
        }),
{
    let downloader = match configured_value(cfg_downloader) {
        Some(d) => d,
        None => String::from_str(ARIA2_DOWNLOADER),
    };
    let default_args = if str_eq(downloader.as_str(), ARIA2_DOWNLOADER) {
        String::from_str(DEFAULT_ARIA2_DOWNLOADER_ARGS)
    } else {
        String::new()
    };
    let raw = match configured_value(cfg_args) {
        Some(a) => a,
        None => default_args,
    };
    if raw.as_str().is_empty() {
        (downloader, None)
    } else if str_contains(raw.as_str(), ":") {
        (downloader, Some(raw))
    } else {
        let mut a = downloader.clone();
        a.append(":");
        a.append(raw.as_str());
        (downloader, Some(a))
    }
}

/// The arguments yt-dlp is started with.
pub open spec fn ytdlp_args_spec(
    format_flag: Seq<char>,
    sort_flag: Option<Seq<char>>,
    format: Option<Seq<char>>,
    temp_dir: Seq<char>,
    id: Seq<char>,
    url: Seq<char>,
    downloader: Seq<char>,
    downloader_args: Option<Seq<char>>,
) -> Seq<Seq<char>> {
    seq![
        "--newline"@,
        "--no-warnings"@,
        "--ignore-errors"@,
        "--concurrent-fragments"@,
        "8"@,
        "--buffer-size"@,
        "16K"@,
        "-f"@,
        format_flag,
    ] + match sort_flag {
        Some(s) => seq!["-S"@, s],
        None => Seq::empty(),
    } + match format {
        Some(f) => if is_audio_format(f) {
            seq!["--extract-audio"@, "--audio-format"@, f]
        } else {
            Seq::empty()
        },
        None => Seq::empty(),
    } + seq!["-P"@, temp_dir, "-o"@, id + ".%(ext)s"@, url, "--downloader"@, downloader]
        + match downloader_args {
        Some(a) => seq!["--downloader-args"@, a],
        None => Seq::empty(),
    }
}

/// Appends `s` to the argument list.
fn arg(v: &mut Vec<String>, s: &str)
    ensures
        strs_view(final(v)@) == strs_view(old(v)@).push(s@),
{
    v.push(String::from_str(s));
    proof {
        assert(strs_view(final(v)@) =~= strs_view(old(v)@).push(s@));
    }
}

/// The yt-dlp arguments of a job: quiet line-by-line progress, eight
/// concurrent fragments, the format selector and sort, audio extraction for
/// audio formats, the temporary directory, the output template named after
/// the job, the URL, and the external downloader with its arguments.
pub fn ytdlp_args(
    format_flag: &str,
    sort_flag: &Option<String>,
    format: &Option<String>,
    temp_dir: &str,
    id: &str,
    url: &str,
    downloader: &str,
    downloader_args: &Option<String>,
) -> (r: Vec<String>)
    ensures
        strs_view(r@) == ytdlp_args_spec(
            format_flag@,
            match sort_flag {
                Some(s) => Some(s@),
                None => None,
            },
            match format {
                Some(f) => Some(f@),
                None => None,
            },
            temp_dir@,
            id@,
            url@,
            downloader@,
            match downloader_args {
                Some(a) => Some(a@),
                None => None,
            },
        ),
{
    let mut v: Vec<String> = Vec::new();
    arg(&mut v, "--newline");
    arg(&mut v, "--no-warnings");
    arg(&mut v, "--ignore-errors");
    arg(&mut v, "--concurrent-fragments");
    arg(&mut v, "8");
    arg(&mut v, "--buffer-size");
    arg(&mut v, "16K");
    arg(&mut v, "-f");
    arg(&mut v, format_flag);
    let ghost a0 = strs_view(v@);
    if let Some(s) = sort_flag {
        arg(&mut v, "-S");
        arg(&mut v, s.as_str());
    }
    let ghost a1 = strs_view(v@);
    if let Some(f) = format {
        if str_eq(f.as_str(), "m4a") || str_eq(f.as_str(), "mp3") || str_eq(f.as_str(), "opus")
            || str_eq(f.as_str(), "wav") || str_eq(f.as_str(), "flac") {
            arg(&mut v, "--extract-audio");
            arg(&mut v, "--audio-format");
            arg(&mut v, f.as_str());
        }
    }
    let ghost a2 = strs_view(v@);
    arg(&mut v, "-P");
    arg(&mut v, temp_dir);
    arg(&mut v, "-o");
    let mut out = String::from_str(id);
    out.append(".%(ext)s");
    arg(&mut v, out.as_str());
    arg(&mut v, url);
    arg(&mut v, "--downloader");
    arg(&mut v, downloader);
    let ghost a3 = strs_view(v@);
    if let Some(a) = downloader_args {
        arg(&mut v, "--downloader-args");
        arg(&mut v, a.as_str());
    }
    proof {
        assert(strs_view(v@) =~= ytdlp_args_spec(
            format_flag@,
            match sort_flag {
                Some(s) => Some(s@),
                None => None,
            },
            match format {
                Some(f) => Some(f@),
                None => None,
            },
            temp_dir@,
            id@,
            url@,
            downloader@,
            match downloader_args {
                Some(a) => Some(a@),
                None => None,
            },
        ));
    }
    v
}

} // verus!
