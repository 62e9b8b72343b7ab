//! Script detection for user messages.
use vstd::prelude::*;
use crate::text::{alphanumeric, chars_of, contains_chars, contains_seq, is_alphanumeric, lowercase_of, to_lowercase};

verus! {

/// The writing system a message is in.
#[derive(Debug, Clone, Copy, PartialEq, Eq, Structural)]
pub enum ScriptType {
    Latin,
    Sinhala,
    Mixed,
}

/// A character of the Sinhala block, U+0D80 to U+0DFF.
pub open spec fn is_sinhala(c: char) -> bool {
    0x0D80 <= (c as u32) <= 0x0DFF
}

/// Number of alphanumeric characters in `s`.
pub open spec fn alnum_count(s: Seq<char>) -> nat
    decreases s.len(),
{
    if s.len() == 0 {
        0
    } else {
        alnum_count(s.drop_last()) + if alphanumeric(s.last()) {
            1nat
        } else {
            0nat
        }
    }
}

/// Number of alphanumeric Sinhala characters in `s`.
pub open spec fn sinhala_count(s: Seq<char>) -> nat
    decreases s.len(),
{
    if s.len() == 0 {
        0
    } else {
        sinhala_count(s.drop_last()) + if alphanumeric(s.last()) && is_sinhala(s.last()) {
            1nat
        } else {
            0nat
        }
    }
}

/// The romanised Sinhala words that mark a code-switched message.
pub open spec fn has_romanized(lower: Seq<char>) -> bool {
    contains_seq(lower, "amma"@) || contains_seq(lower, "aiya"@) || contains_seq(lower, "malli"@)
        || contains_seq(lower, "nangi"@) || contains_seq(lower, "eka"@) || contains_seq(
        lower,
        "denna"@,
    )
}

/// The script of `text`: Sinhala when more than three in ten of its
/// alphanumeric characters are Sinhala, mixed when its lower-cased form holds
/// a romanised Sinhala word, Latin otherwise (and for text with no
/// alphanumeric character).
pub open spec fn script_of(text: Seq<char>) -> ScriptType {
    let total = alnum_count(text);
    let sinhala = sinhala_count(text);
    if total == 0 {
        ScriptType::Latin
    } else if 10 * sinhala > 3 * total {
        ScriptType::Sinhala
    } else if has_romanized(lowercase_of(text)) {
        ScriptType::Mixed
    } else {
        ScriptType::Latin
    }
}

proof fn lemma_counts_bounded(s: Seq<char>)
    ensures
        sinhala_count(s) <= alnum_count(s) <= s.len(),
    decreases s.len(),
{
    if s.len() > 0 {
        lemma_counts_bounded(s.drop_last());
    }
}

fn mentions(m: &Vec<char>, p: &str) -> (r: bool)
    ensures
        r == contains_seq(m@, p@),
{
    let pc = chars_of(p);
    contains_chars(m, &pc)
}

/// Detects the script of a message. The share of Sinhala characters is
/// compared with 0.3 exactly, in integers.
pub fn detect_script(text: &str) -> (r: ScriptType)
    ensures
        r == script_of(text@),
{
    let cs = chars_of(text);
    let mut total: usize = 0;
    let mut sinhala: usize = 0;
    let mut i: usize = 0;
    while i < cs.len()
        invariant
            i <= cs@.len(),
            total == alnum_count(cs@.take(i as int)),
            sinhala == sinhala_count(cs@.take(i as int)),
        decreases cs@.len() - i,
    {
        let c = cs[i];
        proof {
            assert(cs@.take(i + 1).drop_last() =~= cs@.take(i as int));
            lemma_counts_bounded(cs@.take(i as int));
        }
        if is_alphanumeric(c) {
            total = total + 1;
            let code = c as u32;
            if 0x0D80 <= code && code <= 0x0DFF {
                sinhala = sinhala + 1;
            }
        }
        i = i + 1;
    }
    proof {
        assert(cs@.take(i as int) =~= cs@);
        lemma_counts_bounded(cs@);
    }
    if total == 0 {
        return ScriptType::Latin;
    }
    let ratio_high = (sinhala as u128) * 10 > (total as u128) * 3;
    let lower = to_lowercase(text);
    let lc = chars_of(lower.as_str());
    let has_romanized = mentions(&lc, "amma") || mentions(&lc, "aiya") || mentions(&lc, "malli")
        || mentions(&lc, "nangi") || mentions(&lc, "eka") || mentions(&lc, "denna");
    if ratio_high {
        ScriptType::Sinhala
    } else if has_romanized {
        ScriptType::Mixed
    } else {
        ScriptType::Latin
    }
}

} // verus!
