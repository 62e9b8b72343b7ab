//! Sri Lankan phone number normalisation.
use vstd::prelude::*;
use crate::error::MaleeError;
use crate::text::{chars_of, is_ascii_digit, is_digit, starts_with, string_of};

verus! {

/// The ASCII digits of `s`, in order.
pub open spec fn digits_of(s: Seq<char>) -> Seq<char> {
    s.filter(|c: char| is_digit(c))
}

/// The `94XXXXXXXXX` form of a Sri Lankan number, if its digits have one of the
/// accepted shapes: `94` plus 9 digits, `0` plus 9 digits, or 9 bare digits.
pub open spec fn sl_phone(raw: Seq<char>) -> Option<Seq<char>> {
    let d = digits_of(raw);
    if starts_with(d, seq!['9', '4']) && d.len() == 11 {
        Some(d)
    } else if starts_with(d, seq!['0']) && d.len() == 10 {
        Some(seq!['9', '4'] + d.skip(1))
    } else if d.len() == 9 {
        Some(seq!['9', '4'] + d)
    } else {
        None
    }
}

/// The digits of `cs`.
pub fn ascii_digits(cs: &Vec<char>) -> (r: Vec<char>)
    ensures
        r@ == digits_of(cs@),
{
    let mut r: Vec<char> = Vec::new();
    let mut i: usize = 0;
    while i < cs.len()
        invariant
            i <= cs@.len(),
            r@ == digits_of(cs@.take(i as int)),
        decreases cs@.len() - i,
    {
        proof {
            reveal_with_fuel(Seq::<_>::filter, 1);
            let t = cs@.take(i + 1);
            assert(t.drop_last() =~= cs@.take(i as int));
            assert(t.last() == cs@[i as int]);
        }
        if is_ascii_digit(cs[i]) {
            r.push(cs[i]);
        }
        i = i + 1;
    }
    proof {
        assert(cs@.take(i as int) =~= cs@);
    }
    r
}

/// The normalised number, or `None` when `raw` has no accepted shape.
pub fn normalize_sl_digits(raw: &str) -> (r: Option<String>)
    ensures
        match sl_phone(raw@) {
            Some(p) => r matches Some(s) && s@ == p,
            None => r is None,
        },
{
    let cs = chars_of(raw);
    let d = ascii_digits(&cs);
    let n = d.len();
    if n == 11 && d[0] == '9' && d[1] == '4' {
        proof {
            assert(d@.take(2) =~= seq!['9', '4']);
        }
        Some(string_of(d.as_slice()))
    } else if n == 10 && d[0] == '0' {
        proof {
            assert(d@.take(1) =~= seq!['0']);
            assert(!starts_with(d@, seq!['9', '4']));
        }
        let mut v: Vec<char> = Vec::new();
        v.push('9');
        v.push('4');
        let mut i: usize = 1;
        while i < n
            invariant
                1 <= i <= n,
                n == d@.len(),
                v@ == seq!['9', '4'] + d@.subrange(1, i as int),
            decreases n - i,
        {
            v.push(d[i]);
            i = i + 1;
        }
        proof {
            assert(d@.subrange(1, n as int) =~= d@.skip(1));
        }
        Some(string_of(v.as_slice()))
    } else if n == 9 {
        let mut v: Vec<char> = Vec::new();
        v.push('9');
        v.push('4');
        let mut i: usize = 0;
        while i < n
            invariant
                i <= n,
                n == d@.len(),
                v@ == seq!['9', '4'] + d@.take(i as int),
            decreases n - i,
        {
            v.push(d[i]);
            i = i + 1;
            proof {
                assert(d@.take(i as int) =~= d@.take(i - 1).push(d@[i - 1]));
            }
        }
        proof {
            assert(d@.take(n as int) =~= d@);
        }
        Some(string_of(v.as_slice()))
    } else {
        proof {
            if n == 11 {
                assert(d@.take(2)[0] == d@[0] && d@.take(2)[1] == d@[1]);
                assert(!(d@[0] == '9' && d@[1] == '4'));
                assert(!starts_with(d@, seq!['9', '4']));
            }
            if n == 10 {
                assert(d@.take(1)[0] == d@[0]);
                assert(!starts_with(d@, seq!['0']));
            }
        }
        None
    }
}

/// The message of the error for an unusable number.
pub open spec fn invalid_phone_message(raw: Seq<char>) -> Seq<char> {
    "Invalid phone number: "@ + raw
        + ". Must be a valid 10-digit Sri Lankan phone number (e.g., 0771234567)."@
}

/// Normalises a Sri Lankan phone number to the `94XXXXXXXXX` form (11 digits).
/// Accepted inputs are those whose digits read `0771234567`, `94771234567`
/// (also written `+94771234567`) or `771234567`; any other input is a
/// validation error naming the input.
pub fn normalize_sl_phone(raw: &str) -> (r: Result<String, MaleeError>)
    ensures
        match sl_phone(raw@) {
            Some(p) => r matches Ok(s) && s@ == p,
            None => r matches Err(MaleeError::Validation(m)) && m@ == invalid_phone_message(raw@),
        },
{
    match normalize_sl_digits(raw) {
        Some(s) => Ok(s),
        None => {
            let mut m = String::from_str("Invalid phone number: ");
            m.append(raw);
            m.append(
                ". Must be a valid 10-digit Sri Lankan phone number (e.g., 0771234567).",
            );
            Err(MaleeError::Validation(m))
        },
    }
}

proof fn lemma_digits_of_all_digits(s: Seq<char>)
    requires
        forall|i: int| 0 <= i < s.len() ==> is_digit(s[i]),
    ensures
        digits_of(s) == s,
    decreases s.len(),
{
    reveal_with_fuel(Seq::<_>::filter, 1);
    if s.len() > 0 {
        lemma_digits_of_all_digits(s.drop_last());
        assert(s.drop_last().push(s.last()) =~= s);
    }
}

proof fn lemma_digits_of_are_digits(s: Seq<char>)
    ensures
        forall|i: int| 0 <= i < digits_of(s).len() ==> is_digit(#[trigger] digits_of(s)[i]),
{
    broadcast use vstd::seq_lib::group_filter_ensures;

}

/// A normalised number is eleven digits starting with `94`, and normalising it
/// again gives it back unchanged.
pub proof fn law_sl_phone_normal_form(raw: Seq<char>)
    ensures
        sl_phone(raw) matches Some(p) ==> {
            &&& p.len() == 11
            &&& starts_with(p, seq!['9', '4'])
            &&& forall|i: int| 0 <= i < p.len() ==> is_digit(#[trigger] p[i])
            &&& sl_phone(p) == Some(p)
        },
{
    lemma_digits_of_are_digits(raw);
    let d = digits_of(raw);
    if let Some(p) = sl_phone(raw) {
        assert forall|i: int| 0 <= i < p.len() implies is_digit(#[trigger] p[i]) by {
            if !(starts_with(d, seq!['9', '4']) && d.len() == 11) && i >= 2 {
                if starts_with(d, seq!['0']) && d.len() == 10 {
                    assert(p[i] == d[i - 1]);
                } else {
                    assert(p[i] == d[i - 2]);
                }
            }
        }
        lemma_digits_of_all_digits(p);
        assert(p.take(2) =~= seq!['9', '4']);
    }
}

} // verus!
