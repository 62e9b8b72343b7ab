//! Job bookkeeping: ids, retention, and the messages a job keeps.
use vstd::prelude::*;
use vstd::utf8::{encode_utf8, is_ascii_chars_encode_utf8, is_char_boundary};
use crate::text::{
    chars_of, decimal, digit_char, digits_value, is_digit, all_digits, string_of, sub_chars,
    u64_decimal,
};

verus! {

/// Seconds a finished job is kept.
pub const RETENTION_SECS: u64 = 3600;

/// Seconds after which yt-dlp is stopped.
pub const YTDLP_TIMEOUT_SECS: u64 = 7200;

/// The id of the job numbered `counter`, created at `ts`: `ytdlp-<ts>-<counter>`.
pub open spec fn job_id_text(ts: u64, counter: u64) -> Seq<char> {
    "ytdlp-"@ + decimal(ts as nat) + "-"@ + decimal(counter as nat)
}

/// The id of the job numbered `counter`, created at `ts` (seconds since the
/// epoch).
pub fn job_id(ts: u64, counter: u64) -> (r: String)
    ensures
        r@ == job_id_text(ts, counter),
{
    let mut r = String::from_str("ytdlp-");
    let a = u64_decimal(ts);
    r.append(string_of(a.as_slice()).as_str());
    r.append("-");
    let b = u64_decimal(counter);
    r.append(string_of(b.as_slice()).as_str());
    r
}

/// What `str::parse::<u64>` gives: an optional `+`, then one or more digits
/// whose value fits in a `u64`.
pub open spec fn parse_u64_spec(s: Seq<char>) -> Option<nat> {
    let body = if s.len() > 0 && s[0] == '+' {
        s.drop_first()
    } else {
        s
    };
    if body.len() == 0 || !all_digits(body) || digits_value(body) > u64::MAX {
        None
    } else {
        Some(digits_value(body))
    }
}

/// The index of the first `'-'` in `s` at or after `p`, or the length of `s`.
pub open spec fn dash_at_or_after(s: Seq<char>, p: int) -> int
    decreases s.len() - p,
{
    if p >= s.len() || p < 0 {
        s.len() as int
    } else if s[p] == '-' {
        p
    } else {
        dash_at_or_after(s, p + 1)
    }
}

/// The second `-`-separated field of `s`, if `s` has a `-`.
pub open spec fn second_field(s: Seq<char>) -> Option<Seq<char>> {
    let a = dash_at_or_after(s, 0);
    if a >= s.len() {
        None
    } else {
        Some(s.subrange(a + 1, dash_at_or_after(s, a + 1)))
    }
}

/// The creation time written in a job id, if it reads as one.
pub open spec fn id_created_at(id: Seq<char>) -> Option<nat> {
    match second_field(id) {
        Some(f) => parse_u64_spec(f),
        None => None,
    }
}

proof fn lemma_dash_range(s: Seq<char>, p: int)
    requires
        0 <= p <= s.len(),
    ensures
        p <= dash_at_or_after(s, p) <= s.len(),
        dash_at_or_after(s, p) < s.len() ==> s[dash_at_or_after(s, p)] == '-',
        forall|j: int| p <= j < dash_at_or_after(s, p) ==> s[j] != '-',
    decreases s.len() - p,
{
    if p < s.len() && s[p] != '-' {
        lemma_dash_range(s, p + 1);
    }
}

proof fn lemma_dash_first(s: Seq<char>, p: int, q: int)
    requires
        0 <= p <= q <= s.len(),
        forall|j: int| p <= j < q ==> s[j] != '-',
        q < s.len() ==> s[q] == '-',
    ensures
        dash_at_or_after(s, p) == q,
    decreases q - p,
{
    if p < q {
        lemma_dash_first(s, p + 1, q);
    }
}

/// The decimal digits of a number, read back, give the number.
pub proof fn lemma_decimal_value(n: nat)
    ensures
        all_digits(decimal(n)),
        digits_value(decimal(n)) == n,
        decimal(n).len() > 0,
    decreases n,
{
    let d = (n % 10) as nat;
    assert(digit_char(d) as u32 == d + 48) by {
        assert(0 <= d < 10);
    }
    if n < 10 {
        assert(decimal(n).drop_last() =~= Seq::<char>::empty());
        assert(decimal(n).last() == digit_char(d));
        assert(is_digit(decimal(n)[0]));
        assert(d == n);
        assert(((decimal(n).last() as u32) - 48) as nat == d);
        assert(digits_value(decimal(n).drop_last()) == 0);
        assert(digits_value(decimal(n)) == digits_value(decimal(n).drop_last()) * 10 + d);
    } else {
        lemma_decimal_value(n / 10);
        assert(decimal(n).drop_last() =~= decimal(n / 10));
        assert(decimal(n).last() == digit_char(d));
        assert(n == (n / 10) * 10 + d);
        assert(((decimal(n).last() as u32) - 48) as nat == d);
        assert(digits_value(decimal(n)) == digits_value(decimal(n / 10)) * 10 + d);
        assert forall|i: int| 0 <= i < decimal(n).len() implies is_digit(#[trigger] decimal(n)[i]) by {
            if i < decimal(n).len() - 1 {
                assert(decimal(n)[i] == decimal(n / 10)[i]);
            }
        }
    }
}

/// Reads the creation time written in a job id.
pub fn created_at_of(id: &str) -> (r: Option<u64>)
    ensures
        match id_created_at(id@) {
            Some(t) => r == Some(t as u64),
            None => r is None,
        },
{
    let cs = chars_of(id);
    let n = cs.len();
    let mut a: usize = 0;
    while a < n && cs[a] != '-'
        invariant
            n == cs@.len(),
            a <= n,
            forall|j: int| 0 <= j < a ==> cs@[j] != '-',
        decreases n - a,
    {
        a = a + 1;
    }
    proof {
        lemma_dash_first(cs@, 0, a as int);
    }
    if a >= n {
        return None;
    }
    let mut b: usize = a + 1;
    while b < n && cs[b] != '-'
        invariant
            n == cs@.len(),
            a < n,
            a + 1 <= b <= n,
            forall|j: int| a + 1 <= j < b ==> cs@[j] != '-',
        decreases n - b,
    {
        b = b + 1;
    }
    proof {
        lemma_dash_first(cs@, a + 1, b as int);
    }
    let field = sub_chars(&cs, a + 1, b);
    parse_u64_chars(&field)
}

/// Parses a decimal `u64` as `str::parse::<u64>` does.
pub fn parse_u64_chars(s: &Vec<char>) -> (r: Option<u64>)
    ensures
        match parse_u64_spec(s@) {
            Some(v) => r == Some(v as u64),
            None => r is None,
        },
{
    let n = s.len();
    let start: usize = if n > 0 && s[0] == '+' {
        1
    } else {
        0
    };
    let ghost body = if s@.len() > 0 && s@[0] == '+' {
        s@.drop_first()
    } else {
        s@
    };
    proof {
        assert(body =~= s@.skip(start as int));
    }
    if start == n {
        return None;
    }
    let mut v: u64 = 0;
    let mut i: usize = start;
    while i < n
        invariant
            start <= i <= n,
            n == s@.len(),
            start < n,
            body == s@.skip(start as int),
            v == digits_value(body.take(i - start)),
            all_digits(body.take(i - start)),
            body == if s@.len() > 0 && s@[0] == '+' {
                s@.drop_first()
            } else {
                s@
            },
        decreases n - i,
    {
        let c = s[i];
        proof {
            assert(body.take(i - start + 1).drop_last() =~= body.take(i - start));
            assert(body[i - start] == c);
        }
        if !('0' <= c && c <= '9') {
            proof {
                assert(!is_digit(body[i - start]));
                assert(!all_digits(body));
            }
            return None;
        }
        let d: u64 = ((c as u32) - 48) as u64;
        proof {
            assert forall|j: int| 0 <= j < i - start + 1 implies is_digit(
                #[trigger] body.take(i - start + 1)[j],
            ) by {
                if j < i - start {
                    assert(body.take(i - start + 1)[j] == body.take(i - start)[j]);
                }
            }
        }
        if v > (u64::MAX - d) / 10 {
            proof {
                assert(digits_value(body.take(i - start + 1)) == v * 10 + d);
                assert(v * 10 + d > u64::MAX) by (nonlinear_arith)
                    requires
                        v > (u64::MAX - d) / 10,
                        d <= 9,
                ;
                lemma_value_prefix_le(body, i - start + 1);
                assert(all_digits(body) ==> digits_value(body) > u64::MAX);
            }
            return None;
        }
        proof {
            assert(v * 10 + d <= u64::MAX) by (nonlinear_arith)
                requires
                    v <= (u64::MAX - d) / 10,
                    d <= 9,
            ;
        }
        v = v * 10 + d;
        i = i + 1;
        proof {
            assert forall|j: int| 0 <= j < i - start implies is_digit(
                #[trigger] body.take(i - start)[j],
            ) by {
                if j < i - start - 1 {
                    assert(body.take(i - start)[j] == body.take(i - start - 1)[j]);
                }
            }
        }
    }
    proof {
        assert(body.take(i - start) =~= body);
    }
    Some(v)
}

/// A longer run of digits is worth at least as much as its prefix.
proof fn lemma_value_prefix_le(s: Seq<char>, k: int)
    requires
        0 <= k <= s.len(),
        all_digits(s.take(k)),
    ensures
        all_digits(s) ==> digits_value(s.take(k)) <= digits_value(s),
    decreases s.len() - k,
{
    if k < s.len() && all_digits(s) {
        let t = s.drop_last();
        assert(t.take(k) =~= s.take(k));
        assert forall|i: int| 0 <= i < t.len() implies is_digit(#[trigger] t[i]) by {
            assert(t[i] == s[i]);
        }
        lemma_value_prefix_le(t, k);
        assert(t =~= s.take(s.len() - 1));
    } else if k == s.len() {
        assert(s.take(k) =~= s);
    }
}

/// Whether a job is kept at instant `now`: a finished job for an hour, a
/// started one for two, a queued one for two hours after the time in its
/// id (and for ever if its id holds none).
pub open spec fn job_retained(finished: Option<u64>, started: Option<u64>, id: Seq<char>, now: u64) -> bool {
    match finished {
        Some(f) => (if now >= f {
            now - f
        } else {
            0
        }) < RETENTION_SECS,
        None => match started {
            Some(s) => (if now >= s {
                now - s
            } else {
                0
            }) < RETENTION_SECS * 2,
            None => match id_created_at(id) {
                Some(c) => (if now >= c {
                    now - c
                } else {
                    0
                }) < RETENTION_SECS * 2,
                None => true,
            },
        },
    }
}

/// Whether the periodic sweep keeps a job (see `job_retained`).
pub fn keep_job(finished: Option<u64>, started: Option<u64>, id: &str, now: u64) -> (r: bool)
    ensures
        r == job_retained(finished, started, id@, now),
{
    match finished {
        Some(f) => now.saturating_sub(f) < RETENTION_SECS,
        None => match started {
            Some(s) => now.saturating_sub(s) < RETENTION_SECS * 2,
            None => match created_at_of(id) {
                Some(c) => now.saturating_sub(c) < RETENTION_SECS * 2,
                None => true,
            },
        },
    }
}

/// The time a job id is minted with is the time read back from it, so a
/// queued job is kept for two hours from its creation.
pub proof fn law_job_id_records_creation(ts: u64, counter: u64)
    ensures
        id_created_at(job_id_text(ts, counter)) == Some(ts as nat),
{
    let s = job_id_text(ts, counter);
    let dt = decimal(ts as nat);
    let dc = decimal(counter as nat);
    lemma_decimal_value(ts as nat);
    lemma_decimal_value(counter as nat);
    reveal_strlit("ytdlp-");
    reveal_strlit("-");
    assert(s =~= "ytdlp-"@ + dt + "-"@ + dc);
    assert forall|j: int| 0 <= j < 5 implies s[j] != '-' by {
        assert(s[j] == "ytdlp-"@[j]);
    }
    assert(s[5] == '-');
    lemma_dash_first(s, 0, 5);
    let end: int = 6 + dt.len() as int;
    assert forall|j: int| 6 <= j < end implies s[j] != '-' by {
        assert(s[j] == dt[j - 6]);
        assert(is_digit(dt[j - 6]));
    }
    assert(s[end] == '-');
    lemma_dash_first(s, 6, end);
    assert(s.subrange(6, end) =~= dt);
    assert(dt.len() > 0 && dt[0] != '+') by {
        assert(is_digit(dt[0]));
    }
}

/// The two captured outputs as one text: stderr first, then stdout, each
/// left out when empty.
pub fn combine_outputs(stdout_output: String, stderr_output: String) -> (r: String)
    ensures
        r@ == (if stderr_output@.len() == 0 {
            stdout_output@
        } else if stdout_output@.len() == 0 {
            stderr_output@
        } else {
            stderr_output@ + "\n"@ + stdout_output@
        }),
{
    if stderr_output.as_str().is_empty() {
        stdout_output
    } else if stdout_output.as_str().is_empty() {
        stderr_output
    } else {
        let mut r = stderr_output;
        r.append("\n");
        r.append(stdout_output.as_str());
        r
    }
}

/// The first `max` characters of `message`, marked with `...` when cut.
pub fn truncate_message(message: &str, max: usize) -> (r: String)
    ensures
        r@ == (if message@.len() > max {
            message@.take(max as int) + "..."@
        } else {
            message@
        }),
{
    let cs = chars_of(message);
    if cs.len() > max {
        let head = sub_chars(&cs, 0, max);
        let mut r = string_of(head.as_slice());
        r.append("...");
        r
    } else {
        String::from_str(message)
    }
}

/// The failure message of a job stopped for taking too long.
pub fn timeout_message() -> (r: String)
    ensures
        r@ == "yt-dlp timed out after "@ + decimal(YTDLP_TIMEOUT_SECS as nat) + "s"@,
{
    let mut r = String::from_str("yt-dlp timed out after ");
    let d = u64_decimal(YTDLP_TIMEOUT_SECS);
    r.append(string_of(d.as_slice()).as_str());
    r.append("s");
    r
}

/// The most output bytes a job keeps.
pub const MAX_CAPTURED_OUTPUT_BYTES: usize = 8000;

/// UTF-8 encoding distributes over concatenation.
pub proof fn lemma_encode_concat(a: Seq<char>, b: Seq<char>)
    ensures
        encode_utf8(a + b) == encode_utf8(a) + encode_utf8(b),
    decreases a.len(),
{
    if a.len() > 0 {
        assert((a + b).drop_first() =~= a.drop_first() + b);
        lemma_encode_concat(a.drop_first(), b);
        assert((a + b)[0] == a[0]);
        assert(encode_utf8(a + b) =~= encode_utf8(a) + encode_utf8(b));
    } else {
        assert(a + b =~= b);
        assert(encode_utf8(a) =~= Seq::<u8>::empty());
        assert(encode_utf8(a) + encode_utf8(b) =~= encode_utf8(b));
    }
}

/// The room left for a line after `captured` (with its separating line
/// break), in bytes.
pub open spec fn room_after(captured: Seq<char>) -> int {
    let c = encode_utf8(captured).len() as int;
    let with_break = if captured.len() > 0 {
        c + 1
    } else {
        c
    };
    if with_break >= MAX_CAPTURED_OUTPUT_BYTES {
        0
    } else {
        MAX_CAPTURED_OUTPUT_BYTES - with_break
    }
}

/// Appends an output line to what a job keeps, line-broken, up to
/// `MAX_CAPTURED_OUTPUT_BYTES` bytes: once the limit is reached nothing more
/// is kept, and a line that does not fit is cut (at a character boundary,
/// which the caller guarantees).
pub fn append_captured_line(captured: &mut String, line: &str)
    requires
        encode_utf8(old(captured)@).len() + 1 + encode_utf8(line@).len() <= usize::MAX,
        encode_utf8(old(captured)@).len() < MAX_CAPTURED_OUTPUT_BYTES && encode_utf8(line@).len()
            > room_after(old(captured)@) ==> is_char_boundary(
            encode_utf8(line@),
            room_after(old(captured)@),
        ),
    ensures
        encode_utf8(old(captured)@).len() >= MAX_CAPTURED_OUTPUT_BYTES ==> final(captured)@ == old(
            captured,
        )@,
        encode_utf8(old(captured)@).len() < MAX_CAPTURED_OUTPUT_BYTES ==> encode_utf8(
            final(captured)@,
        ) == encode_utf8(old(captured)@) + (if old(captured)@.len() > 0 {
            seq![10u8]
        } else {
            Seq::empty()
        }) + (if encode_utf8(line@).len() <= room_after(old(captured)@) {
            encode_utf8(line@)
        } else {
            encode_utf8(line@).take(room_after(old(captured)@))
        }),
{
    if captured.as_str().len() >= MAX_CAPTURED_OUTPUT_BYTES {
        return;
    }
    let ghost before = captured@;
    if !captured.as_str().is_empty() {
        captured.append("\n");
        proof {
            reveal_strlit("\n");
            lemma_encode_concat(before, "\n"@);
            assert(encode_utf8("\n"@) =~= seq![10u8]) by {
                assert("\n"@ =~= seq!['\n']);
                assert(vstd::utf8::is_ascii_chars(seq!['\n']));
                is_ascii_chars_encode_utf8(seq!['\n']);
            }
        }
    }
    let ghost mid = captured@;
    let used = captured.as_str().len();
    let remaining = MAX_CAPTURED_OUTPUT_BYTES.saturating_sub(used);
    proof {
        assert(remaining == room_after(before));
    }
    if line.len() <= remaining {
        captured.append(line);
        proof {
            lemma_encode_concat(mid, line@);
        }
    } else {
        let (head, _) = line.split_at(remaining);
        captured.append(head);
        proof {
            lemma_encode_concat(mid, head@);
        }
    }
}

} // verus!
