//! What of yt-dlp's progress lines the client may see: paths and secrets
//! are redacted.
use vstd::prelude::*;
use crate::services::ytdlp::jobs::{parse_u64_chars, parse_u64_spec};
use crate::text::{
    chars_of, contains_chars, contains_seq, is_whitespace, is_ws, join_with, occurs_at,
    starts_with, starts_with_chars, str_contains, string_of, sub_chars,
};

verus! {

/// The placeholder for a redacted path.
pub open spec fn redacted() -> Seq<char> {
    "[REDACTED_PATH]"@
}

/// An ASCII letter.
pub open spec fn is_ascii_alpha(c: char) -> bool {
    ('a' <= c <= 'z') || ('A' <= c <= 'Z')
}

/// A Windows drive path such as `c:/...`.
pub open spec fn windows_absolute(p: Seq<char>) -> bool {
    p.len() >= 3 && is_ascii_alpha(p[0]) && p[1] == ':' && p[2] == '/'
}

/// Whether `path` starts with a drive letter, `:` and `/`.
pub fn is_windows_absolute_path(path: &Vec<char>) -> (r: bool)
    ensures
        r == windows_absolute(path@),
{
    path.len() >= 3 && (('a' <= path[0] && path[0] <= 'z') || ('A' <= path[0] && path[0] <= 'Z'))
        && path[1] == ':' && path[2] == '/'
}

/// A quote or separator stripped from a token's ends.
pub open spec fn is_token_edge(c: char) -> bool {
    c == '"' || c == '\'' || c == ',' || c == ';'
}

/// `s` without leading quotes and separators.
pub open spec fn strip_edges_start(s: Seq<char>) -> Seq<char>
    decreases s.len(),
{
    if s.len() > 0 && is_token_edge(s[0]) {
        strip_edges_start(s.drop_first())
    } else {
        s
    }
}

/// `s` without trailing quotes and separators.
pub open spec fn strip_edges_end(s: Seq<char>) -> Seq<char>
    decreases s.len(),
{
    if s.len() > 0 && is_token_edge(s.last()) {
        strip_edges_end(s.drop_last())
    } else {
        s
    }
}

/// A character with `\` turned into `/` and ASCII letters lower-cased.
pub open spec fn normalize_char(c: char) -> char {
    if c == '\\' {
        '/'
    } else if 'A' <= c <= 'Z' {
        ((c as u32) + 32) as char
    } else {
        c
    }
}

/// Whether a token of a progress line names a secret or a private path:
/// once stripped of quotes and separators it is a `$` variable, or, with
/// slashes and case normalised, it mentions `/run/secrets` or `/home/app`,
/// starts with `/home/`, `/root/` or `//`, or is a Windows drive path.
pub open spec fn sensitive(token: Seq<char>) -> bool {
    let cleaned = strip_edges_end(strip_edges_start(token));
    let n = cleaned.map_values(|c: char| normalize_char(c));
    ||| starts_with(cleaned, "$"@)
    ||| contains_seq(n, "/run/secrets"@)
    ||| contains_seq(n, "/home/app"@)
    ||| starts_with(n, "/home/"@)
    ||| starts_with(n, "/root/"@)
    ||| starts_with(n, "//"@)
    ||| windows_absolute(n)
}

proof fn lemma_strip_start_skip(s: Seq<char>, i: int)
    requires
        0 <= i <= s.len(),
        forall|j: int| 0 <= j < i ==> is_token_edge(s[j]),
    ensures
        strip_edges_start(s) == strip_edges_start(s.skip(i)),
    decreases i,
{
    if i > 0 {
        assert(s.skip(1) =~= s.drop_first());
        lemma_strip_start_skip(s.drop_first(), i - 1);
        assert(s.drop_first().skip(i - 1) =~= s.skip(i));
    } else {
        assert(s.skip(0) =~= s);
    }
}

proof fn lemma_strip_end_take(s: Seq<char>, k: int)
    requires
        0 <= k <= s.len(),
        forall|j: int| k <= j < s.len() ==> is_token_edge(s[j]),
    ensures
        strip_edges_end(s) == strip_edges_end(s.take(k)),
    decreases s.len() - k,
{
    if k < s.len() {
        assert(s.take(s.len() - 1) =~= s.drop_last());
        lemma_strip_end_take(s.drop_last(), k);
        assert(s.drop_last().take(k) =~= s.take(k));
    } else {
        assert(s.take(k) =~= s);
    }
}

/// The token without the quotes and separators at its ends.
fn strip_edges(cs: &Vec<char>) -> (r: Vec<char>)
    ensures
        r@ == strip_edges_end(strip_edges_start(cs@)),
{
    let n = cs.len();
    let mut a: usize = 0;
    while a < n && (cs[a] == '"' || cs[a] == '\'' || cs[a] == ',' || cs[a] == ';')
        invariant
            a <= n,
            n == cs@.len(),
            forall|j: int| 0 <= j < a ==> is_token_edge(cs@[j]),
        decreases n - a,
    {
        a = a + 1;
    }
    proof {
        lemma_strip_start_skip(cs@, a as int);
    }
    let mut b: usize = n;
    while b > a && (cs[b - 1] == '"' || cs[b - 1] == '\'' || cs[b - 1] == ',' || cs[b - 1] == ';')
        invariant
            a <= b <= n,
            n == cs@.len(),
            forall|j: int| b <= j < n ==> is_token_edge(cs@[j]),
        decreases b - a,
    {
        b = b - 1;
    }
    let ghost t = cs@.skip(a as int);
    proof {
        assert(strip_edges_start(t) == t);
        assert forall|j: int| (b - a) <= j < t.len() implies is_token_edge(t[j]) by {}
        lemma_strip_end_take(t, b - a);
        assert(cs@.subrange(a as int, b as int) =~= t.take(b - a));
    }
    sub_chars(cs, a, b)
}

/// The token with slashes and ASCII case normalised.
fn normalize_token(cs: &Vec<char>) -> (r: Vec<char>)
    ensures
        r@ == cs@.map_values(|c: char| normalize_char(c)),
{
    let mut r: Vec<char> = Vec::new();
    let mut i: usize = 0;
    while i < cs.len()
        invariant
            i <= cs@.len(),
            r@ == cs@.take(i as int).map_values(|c: char| normalize_char(c)),
        decreases cs@.len() - i,
    {
        let c = cs[i];
        let d = if c == '\\' {
            '/'
        } else if 'A' <= c && c <= 'Z' {
            ((c as u8) + 32) as char
        } else {
            c
        };
        proof {
            if 'A' <= c && c <= 'Z' {
                assert((c as u8) as u32 == c as u32);
            }
        }
        r.push(d);
        i = i + 1;
        proof {
            assert(r@ =~= cs@.take(i as int).map_values(|c: char| normalize_char(c)));
        }
    }
    proof {
        assert(cs@.take(i as int) =~= cs@);
    }
    r
}

/// Whether a token names a secret or a private path (see `sensitive`).
pub fn is_sensitive_token(token: &Vec<char>) -> (r: bool)
    ensures
        r == sensitive(token@),
{
    let cleaned = strip_edges(token);
    let dollar: Vec<char> = vec!['$'];
    if starts_with_chars(&cleaned, &dollar) {
        proof {
            assert(dollar@ =~= "$"@) by {
                reveal_strlit("$");
            }
        }
        return true;
    }
    proof {
        assert(dollar@ =~= "$"@) by {
            reveal_strlit("$");
        }
    }
    let n = normalize_token(&cleaned);
    let secrets = chars_of("/run/secrets");
    let home_app = chars_of("/home/app");
    let home = chars_of("/home/");
    let root = chars_of("/root/");
    let unc = chars_of("//");
    contains_chars(&n, &secrets) || contains_chars(&n, &home_app) || starts_with_chars(&n, &home)
        || starts_with_chars(&n, &root) || starts_with_chars(&n, &unc) || is_windows_absolute_path(
        &n,
    )
}

/// The index just past the run of non-white-space characters at `p`.
pub open spec fn word_end(s: Seq<char>, p: int) -> int
    decreases s.len() - p,
{
    if p >= s.len() || p < 0 {
        s.len() as int
    } else if is_ws(s[p]) {
        p
    } else {
        word_end(s, p + 1)
    }
}

pub proof fn lemma_word_end(s: Seq<char>, p: int)
    requires
        0 <= p <= s.len(),
    ensures
        p <= word_end(s, p) <= s.len(),
        p < s.len() && !is_ws(s[p]) ==> word_end(s, p) > p,
        forall|j: int| p <= j < word_end(s, p) ==> !is_ws(s[j]),
        word_end(s, p) < s.len() ==> is_ws(s[word_end(s, p)]),
    decreases s.len() - p,
{
    if p < s.len() && !is_ws(s[p]) {
        lemma_word_end(s, p + 1);
    }
}

/// The white-space-separated words of `s` from position `p` on
/// (`str::split_whitespace`).
pub open spec fn words_from(s: Seq<char>, p: int) -> Seq<Seq<char>>
    decreases s.len() - p,
{
    if p >= s.len() || p < 0 {
        Seq::empty()
    } else if is_ws(s[p]) {
        words_from(s, p + 1)
    } else {
        proof {
            lemma_word_end(s, p);
        }
        seq![s.subrange(p, word_end(s, p))] + words_from(s, word_end(s, p))
    }
}

/// A word, or the placeholder if it is sensitive.
pub open spec fn redact_word(w: Seq<char>) -> Seq<char> {
    if sensitive(w) {
        redacted()
    } else {
        w
    }
}

/// The line shown to the client: a `Destination` line is replaced whole;
/// otherwise the words are kept, single-spaced, with sensitive ones redacted.
pub open spec fn redacted_line(line: Seq<char>) -> Seq<char> {
    if contains_seq(line, "Destination"@) {
        "[download] Destination: [REDACTED_PATH]"@
    } else {
        join_with(words_from(line, 0).map_values(|w: Seq<char>| redact_word(w)), " "@)
    }
}

/// Redacts a progress line for the client (see `redacted_line`).
pub fn redact_client_progress_line(line: &str) -> (r: String)
    ensures
        r@ == redacted_line(line@),
{
    if str_contains(line, "Destination") {
        return String::from_str("[download] Destination: [REDACTED_PATH]");
    }
    let cs = chars_of(line);
    let n = cs.len();
    let ghost s = cs@;
    let mut out = String::new();
    let mut count: usize = 0;
    let mut p: usize = 0;
    let ghost mut done: Seq<Seq<char>> = Seq::empty();
    while p < n
        invariant
            s == cs@,
            n == s.len(),
            p <= n,
            count == done.len(),
            count <= p,
            words_from(s, 0) == done + words_from(s, p as int),
            out@ == join_with(done.map_values(|w: Seq<char>| redact_word(w)), " "@),
        decreases n - p,
    {
        if is_whitespace(cs[p]) {
            p = p + 1;
        } else {
            let mut e: usize = p;
            while e < n && !is_whitespace(cs[e])
                invariant
                    s == cs@,
                    n == s.len(),
                    p <= e <= n,
                    word_end(s, p as int) == word_end(s, e as int),
                decreases n - e,
            {
                e = e + 1;
            }
            proof {
                lemma_word_end(s, p as int);
                lemma_word_end(s, e as int);
            }
            let word = sub_chars(&cs, p, e);
            let ghost before = done;
            proof {
                done = done.push(word@);
                assert(done.map_values(|w: Seq<char>| redact_word(w)).drop_last() =~= before.map_values(
                    |w: Seq<char>| redact_word(w),
                ));
                assert(seq![word@] + words_from(s, e as int) == words_from(s, p as int));
                assert(before + words_from(s, p as int) =~= done + words_from(s, e as int));
            }
            if count > 0 {
                out.append(" ");
            }
            if is_sensitive_token(&word) {
                out.append("[REDACTED_PATH]");
            } else {
                out.append(string_of(word.as_slice()).as_str());
            }
            count = count + 1;
            p = e;
        }
    }
    proof {
        assert(words_from(s, p as int) =~= Seq::<Seq<char>>::empty());
        assert(done + Seq::<Seq<char>>::empty() =~= done);
    }
    out
}

/// The text of the capture group named `group` in the first match of the
/// regular expression `pattern` in `text` (`regex::Regex::captures`), or
/// `None` when the pattern does not compile, nothing matches, or the group
/// took no part in the match.
pub uninterp spec fn regex_capture(pattern: Seq<char>, text: Seq<char>, group: Seq<char>) -> Option<Seq<char>>;

/// Calls `regex::Regex::new(pattern)`, then `captures(text)` and
/// `name(group)`; the contract claims that the text returned is the named
/// capture of these three arguments, and `None` exactly where that is `None`.
#[verifier::external_body]
fn first_capture(pattern: &str, text: &str, group: &str) -> (r: Option<String>)
    ensures
        match regex_capture(pattern@, text@, group@) {
            Some(t) => r matches Some(s) && s@ == t,
            None => r is None,
        },
{
    let re = regex::Regex::new(pattern).ok()?;
    re.captures(text).and_then(|c| c.name(group).map(|m| m.as_str().to_string()))
}

/// The pattern of aria2's queued-fragments marker, such as `(+12)`.
pub open spec fn queued_pattern() -> Seq<char> {
    "\\(\\+(?P<queued>\\d+)\\)"@
}

/// The number of queued fragments aria2 reports in a progress line, read as
/// `str::parse::<usize>` reads it.
pub fn extract_queued_fragments(line: &str) -> (r: Option<usize>)
    ensures
        match regex_capture(queued_pattern(), line@, "queued"@) {
            Some(t) => match parse_u64_spec(t) {
                Some(v) => if v <= usize::MAX {
                    r == Some(v as usize)
                } else {
                    r is None
                },
                None => r is None,
            },
            None => r is None,
        },
{
    match first_capture("\\(\\+(?P<queued>\\d+)\\)", line, "queued") {
        None => None,
        Some(t) => {
            let cs = chars_of(t.as_str());
            match parse_u64_chars(&cs) {
                Some(v) => {
                    if v <= usize::MAX as u64 {
                        Some(v as usize)
                    } else {
                        None
                    }
                },
                None => None,
            }
        },
    }
}

} // verus!
