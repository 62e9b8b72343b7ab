//! Hints inferred from a user message: who the gift is for, the occasion, the
//! budget, the city and the date.
use vstd::prelude::*;
use crate::models::malee::session::LanguageMode;
use crate::services::malee::language::detect::{detect_script, script_of, ScriptType};
use crate::services::malee::language::dict::{hint_view, hints_for, hints_of_word, HintKey, HintView};
use crate::services::malee::llm::pool::views;
use crate::text::{
    chars_of, is_ascii_punctuation, is_punct, is_whitespace, is_ws, lowercase_of, parse_i64,
    parse_i64_spec, string_of, to_lowercase,
};

verus! {

/// Hints read from one message.
#[derive(Debug)]
pub struct LanguageHints {
    pub script: ScriptType,
    pub detected_mode: LanguageMode,
    pub inferred_recipient: Option<String>,
    pub inferred_occasion: Option<String>,
    pub inferred_budget_max_lkr: Option<i64>,
    pub inferred_budget_min_lkr: Option<i64>,
    pub inferred_city_hint: Option<String>,
    pub inferred_date_hint: Option<String>,
}

/// A token separator: white space or ASCII punctuation.
pub open spec fn is_separator(c: char) -> bool {
    is_ws(c) || is_punct(c)
}

/// The non-empty runs of `s` between separators, after the run `cur` already begun.
pub open spec fn tokens_acc(s: Seq<char>, cur: Seq<char>) -> Seq<Seq<char>>
    decreases s.len(),
{
    if s.len() == 0 {
        if cur.len() > 0 {
            seq![cur]
        } else {
            seq![]
        }
    } else if is_separator(s[0]) {
        (if cur.len() > 0 {
            seq![cur]
        } else {
            seq![]
        }) + tokens_acc(s.drop_first(), seq![])
    } else {
        tokens_acc(s.drop_first(), cur.push(s[0]))
    }
}

/// The tokens of `s`.
pub open spec fn tokens_of(s: Seq<char>) -> Seq<Seq<char>> {
    tokens_acc(s, seq![])
}

/// Hints as plain values: recipient, occasion, budget max, budget min, city, date.
pub type HintsView = (
    Option<Seq<char>>,
    Option<Seq<char>>,
    Option<int>,
    Option<int>,
    Option<Seq<char>>,
    Option<Seq<char>>,
);

/// The hints after applying hint `hv` of token `i` of `toks`.
pub open spec fn apply_hint(h: HintsView, hv: HintView, toks: Seq<Seq<char>>, i: int) -> HintsView {
    match hv {
        HintView::Recipient(r) => (Some(r), h.1, h.2, h.3, h.4, h.5),
        HintView::Occasion(o) => (h.0, Some(o), h.2, h.3, h.4, h.5),
        HintView::BudgetMax => if i + 1 < toks.len() && parse_i64_spec(toks[i + 1]) is Some {
            (h.0, h.1, parse_i64_spec(toks[i + 1]), h.3, h.4, h.5)
        } else {
            h
        },
        HintView::BudgetMin => if i + 1 < toks.len() && parse_i64_spec(toks[i + 1]) is Some {
            (h.0, h.1, h.2, parse_i64_spec(toks[i + 1]), h.4, h.5)
        } else {
            h
        },
        HintView::CityHint => (h.0, h.1, h.2, h.3, Some(toks[i]), h.5),
        HintView::DateHint(d) => (h.0, h.1, h.2, h.3, h.4, Some(d)),
        HintView::DeliveryMarker => if i > 0 {
            (h.0, h.1, h.2, h.3, Some(toks[i - 1]), h.5)
        } else {
            h
        },
    }
}

/// The hints after applying the first `n` of `hs`, all for token `i`.
pub open spec fn apply_hints(h: HintsView, hs: Seq<HintView>, n: nat, toks: Seq<Seq<char>>, i: int) -> HintsView
    decreases n,
{
    if n == 0 {
        h
    } else {
        apply_hint(apply_hints(h, hs, (n - 1) as nat, toks, i), hs[n - 1], toks, i)
    }
}

/// The hints from the first `n` tokens of `toks`, the later ones winning.
pub open spec fn scan(toks: Seq<Seq<char>>, n: nat) -> HintsView
    decreases n,
{
    if n == 0 {
        (None, None, None, None, None, None)
    } else {
        let hs = hints_of_word(toks[n - 1]);
        apply_hints(scan(toks, (n - 1) as nat), hs, hs.len(), toks, n - 1)
    }
}

/// The hints of a message.
pub open spec fn hints_of(text: Seq<char>) -> HintsView {
    let toks = tokens_of(lowercase_of(text));
    scan(toks, toks.len())
}

/// The language mode that a script suggests.
pub open spec fn mode_of(s: ScriptType) -> LanguageMode {
    match s {
        ScriptType::Sinhala => LanguageMode::Sinhala,
        ScriptType::Mixed => LanguageMode::Mixed,
        ScriptType::Latin => LanguageMode::English,
    }
}

/// An optional string as plain values.
pub open spec fn opt_view(o: Option<String>) -> Option<Seq<char>> {
    match o {
        Some(s) => Some(s@),
        None => None,
    }
}

/// An optional `i64` as an optional integer.
pub open spec fn opt_int(o: Option<i64>) -> Option<int> {
    match o {
        Some(v) => Some(v as int),
        None => None,
    }
}

/// The plain values of a set of hints.
pub open spec fn hints_view(h: LanguageHints) -> HintsView {
    (
        opt_view(h.inferred_recipient),
        opt_view(h.inferred_occasion),
        opt_int(h.inferred_budget_max_lkr),
        opt_int(h.inferred_budget_min_lkr),
        opt_view(h.inferred_city_hint),
        opt_view(h.inferred_date_hint),
    )
}

/// Splits `s` into its tokens.
pub fn tokenize(s: &Vec<char>) -> (r: Vec<Vec<char>>)
    ensures
        views(r@) == tokens_of(s@),
{
    let mut done: Vec<Vec<char>> = Vec::new();
    let mut cur: Vec<char> = Vec::new();
    let mut i: usize = 0;
    proof {
        assert(s@.skip(0) =~= s@);
        assert(views(done@) + tokens_acc(s@.skip(0), cur@) =~= tokens_of(s@));
    }
    while i < s.len()
        invariant
            i <= s@.len(),
            views(done@) + tokens_acc(s@.skip(i as int), cur@) == tokens_of(s@),
        decreases s@.len() - i,
    {
        let ghost rest = s@.skip(i as int);
        proof {
            assert(rest.drop_first() =~= s@.skip(i + 1));
            assert(rest[0] == s@[i as int]);
        }
        let c = s[i];
        if is_whitespace(c) || is_ascii_punctuation(c) {
            if cur.len() > 0 {
                let ghost old_done = views(done@);
                let piece = cur;
                done.push(piece);
                proof {
                    assert(views(done@) =~= old_done + seq![piece@]);
                }
            }
            cur = Vec::new();
            proof {
                assert(views(done@) + tokens_acc(s@.skip(i + 1), cur@) =~= tokens_of(s@));
            }
        } else {
            cur.push(c);
        }
        i = i + 1;
    }
    if cur.len() > 0 {
        let ghost old_done = views(done@);
        let piece = cur;
        done.push(piece);
        proof {
            assert(views(done@) =~= old_done + seq![piece@]);
        }
    }
    proof {
        assert(s@.skip(i as int).len() == 0);
    }
    done
}

/// Reads the language hints of a user message: its script and language
/// mode, and, from its lower-cased tokens looked up in the dictionary, the
/// recipient, occasion, budget bounds (the number after a budget word), city
/// (a city word, or the word before a delivery marker) and relative date;
/// where several tokens give the same hint, the last one wins.
pub fn normalize(text: &str) -> (r: LanguageHints)
    ensures
        r.script == script_of(text@),
        r.detected_mode == mode_of(script_of(text@)),
        hints_view(r) == hints_of(text@),
{
    let script = detect_script(text);
    let detected_mode = match script {
        ScriptType::Sinhala => LanguageMode::Sinhala,
        ScriptType::Mixed => LanguageMode::Mixed,
        ScriptType::Latin => LanguageMode::English,
    };
    let mut hints = LanguageHints {
        script,
        detected_mode,
        inferred_recipient: None,
        inferred_occasion: None,
        inferred_budget_max_lkr: None,
        inferred_budget_min_lkr: None,
        inferred_city_hint: None,
        inferred_date_hint: None,
    };
    let lower = to_lowercase(text);
    let lc = chars_of(lower.as_str());
    let tokens = tokenize(&lc);
    let ghost toks = views(tokens@);
    let mut i: usize = 0;
    while i < tokens.len()
        invariant
            i <= tokens@.len(),
            toks == views(tokens@),
            toks == tokens_of(lowercase_of(text@)),
            hints_view(hints) == scan(toks, i as nat),
            hints.script == script,
            hints.detected_mode == detected_mode,
        decreases tokens@.len() - i,
    {
        let hs = hints_for(&tokens[i]);
        let ghost hsv = hs@.map_values(|k: HintKey| hint_view(k));
        proof {
            assert(toks[i as int] == tokens@[i as int]@);
        }
        let mut j: usize = 0;
        while j < hs.len()
            invariant
                j <= hs@.len(),
                i < tokens@.len(),
                toks == views(tokens@),
                hsv == hs@.map_values(|k: HintKey| hint_view(k)),
                hsv == hints_of_word(toks[i as int]),
                hints_view(hints) == apply_hints(scan(toks, i as nat), hsv, j as nat, toks, i as int),
                hints.script == script,
                hints.detected_mode == detected_mode,
            decreases hs@.len() - j,
        {
            proof {
                assert(hsv[j as int] == hint_view(hs@[j as int]));
            }
            match hs[j] {
                HintKey::Recipient(r) => {
                    hints.inferred_recipient = Some(String::from_str(r));
                },
                HintKey::Occasion(o) => {
                    hints.inferred_occasion = Some(String::from_str(o));
                },
                HintKey::BudgetMax => {
                    if i < tokens.len() - 1 {
                        proof {
                            assert(toks[i + 1] == tokens@[i + 1]@);
                        }
                        match parse_i64(&tokens[i + 1]) {
                            Some(v) => {
                                hints.inferred_budget_max_lkr = Some(v);
                            },
                            None => {},
                        }
                    }
                },
                HintKey::BudgetMin => {
                    if i < tokens.len() - 1 {
                        proof {
                            assert(toks[i + 1] == tokens@[i + 1]@);
                        }
                        match parse_i64(&tokens[i + 1]) {
                            Some(v) => {
                                hints.inferred_budget_min_lkr = Some(v);
                            },
                            None => {},
                        }
                    }
                },
                HintKey::CityHint => {
                    hints.inferred_city_hint = Some(string_of(tokens[i].as_slice()));
                },
                HintKey::DateHint(d) => {
                    hints.inferred_date_hint = Some(String::from_str(d));
                },
                HintKey::DeliveryMarker => {
                    if i > 0 {
                        proof {
                            assert(toks[i - 1] == tokens@[i - 1]@);
                        }
                        hints.inferred_city_hint = Some(string_of(tokens[i - 1].as_slice()));
                    }
                },
            }
            j = j + 1;
        }
        i = i + 1;
    }
    hints
}

} // verus!
