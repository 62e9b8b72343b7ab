//! The Sinhala/English hint dictionary.
use vstd::prelude::*;
use crate::text::{chars_equal, chars_of};

verus! {

/// What a dictionary word hints at.
#[derive(Debug, Clone, Copy, PartialEq, Eq)]
pub enum HintKey {
    /// The gift's recipient (canonical relation name).
    Recipient(&'static str),
    /// The occasion (canonical name).
    Occasion(&'static str),
    /// The next token is an upper budget.
    BudgetMax,
    /// The next token is a lower budget.
    BudgetMin,
    /// The word itself names a city.
    CityHint,
    /// A relative delivery date (canonical name).
    DateHint(&'static str),
    /// The previous token is the delivery city.
    DeliveryMarker,
}

/// A hint as plain values.
pub ghost enum HintView {
    Recipient(Seq<char>),
    Occasion(Seq<char>),
    BudgetMax,
    BudgetMin,
    CityHint,
    DateHint(Seq<char>),
    DeliveryMarker,
}

/// The plain values of a hint.
pub open spec fn hint_view(h: HintKey) -> HintView {
    match h {
        HintKey::Recipient(r) => HintView::Recipient(r@),
        HintKey::Occasion(o) => HintView::Occasion(o@),
        HintKey::BudgetMax => HintView::BudgetMax,
        HintKey::BudgetMin => HintView::BudgetMin,
        HintKey::CityHint => HintView::CityHint,
        HintKey::DateHint(d) => HintView::DateHint(d@),
        HintKey::DeliveryMarker => HintView::DeliveryMarker,
    }
}

/// `h` when `listed` holds, nothing otherwise.
pub open spec fn when_listed(listed: bool, h: HintView) -> Seq<HintView> {
    if listed {
        seq![h]
    } else {
        seq![]
    }
}

/// The hints of the dictionary entries that list `w`, in dictionary order.
/// The hints that the `k`-th dictionary entry gives the word `w`.
pub open spec fn dict_entry(k: int, w: Seq<char>) -> Seq<HintView> {
    if k == 0 {
        when_listed(w == "amma"@ || w == "ammi"@ || w == "mom"@ || w == "mother"@, HintView::Recipient("mother"@))
    } else if k == 1 {
        when_listed(w == "thaththa"@ || w == "appachchi"@ || w == "dad"@ || w == "father"@, HintView::Recipient("father"@))
    } else if k == 2 {
        when_listed(w == "akka"@ || w == "nangi"@ || w == "sister"@, HintView::Recipient("sister"@))
    } else if k == 3 {
        when_listed(w == "aiya"@ || w == "malli"@ || w == "brother"@, HintView::Recipient("brother"@))
    } else if k == 4 {
        when_listed(w == "birinda"@ || w == "wife"@, HintView::Recipient("wife"@))
    } else if k == 5 {
        when_listed(w == "mahaththaya"@ || w == "husband"@, HintView::Recipient("husband"@))
    } else if k == 6 {
        when_listed(w == "yaluwa"@ || w == "friend"@, HintView::Recipient("friend"@))
    } else if k == 7 {
        when_listed(w == "birthday"@ || w == "upandinaya"@, HintView::Occasion("birthday"@))
    } else if k == 8 {
        when_listed(w == "anniversary"@, HintView::Occasion("anniversary"@))
    } else if k == 9 {
        when_listed(w == "wedding"@ || w == "mangalya"@, HintView::Occasion("wedding"@))
    } else if k == 10 {
        when_listed(w == "avurudu"@, HintView::Occasion("new_year"@))
    } else if k == 11 {
        when_listed(w == "valentine"@ || w == "valentines"@, HintView::Occasion("valentine"@))
    } else if k == 12 {
        when_listed(w == "christmas"@ || w == "nattal"@, HintView::Occasion("christmas"@))
    } else if k == 13 {
        when_listed(w == "under"@ || w == "below"@ || w == "max"@ || w == "within"@ || w == "yata"@, HintView::BudgetMax)
    } else if k == 14 {
        when_listed(w == "above"@ || w == "over"@ || w == "min"@, HintView::BudgetMin)
    } else if k == 15 {
        when_listed(w == "colombo"@ || w == "kandy"@ || w == "galle"@ || w == "negombo"@ || w == "jaffna"@ || w == "matara"@ || w == "kurunegala"@ || w == "gampaha"@, HintView::CityHint)
    } else if k == 16 {
        when_listed(w == "today"@ || w == "ada"@, HintView::DateHint("today"@))
    } else if k == 17 {
        when_listed(w == "tomorrow"@ || w == "heta"@, HintView::DateHint("tomorrow"@))
    } else if k == 18 {
        when_listed(w == "walata"@ || w == "ta"@, HintView::DeliveryMarker)
    } else {
        seq![]
    }
}

/// Number of dictionary entries.
pub open spec fn dict_len() -> nat {
    19
}

/// The hints of the first `k` dictionary entries for `w`, in order.
pub open spec fn hints_upto(w: Seq<char>, k: nat) -> Seq<HintView>
    decreases k,
{
    if k == 0 {
        seq![]
    } else {
        hints_upto(w, (k - 1) as nat) + dict_entry(k - 1, w)
    }
}

/// The hints of the dictionary entries that list `w`, in dictionary order.
pub open spec fn hints_of_word(w: Seq<char>) -> Seq<HintView> {
    hints_upto(w, dict_len())
}

fn is(w: &Vec<char>, lit: &str) -> (r: bool)
    ensures
        r == (w@ == lit@),
{
    let c = chars_of(lit);
    chars_equal(w, &c)
}

fn entry_hint(k: usize, w: &Vec<char>) -> (r: Option<HintKey>)
    ensures
        dict_entry(k as int, w@) == match r {
            Some(h) => seq![hint_view(h)],
            None => Seq::<HintView>::empty(),
        },
{
    match k {
        0 => if is(w, "amma") || is(w, "ammi") || is(w, "mom") || is(w, "mother") {
            Some(HintKey::Recipient("mother"))
        } else {
            None
        },
        1 => if is(w, "thaththa") || is(w, "appachchi") || is(w, "dad") || is(w, "father") {
            Some(HintKey::Recipient("father"))
        } else {
            None
        },
        2 => if is(w, "akka") || is(w, "nangi") || is(w, "sister") {
            Some(HintKey::Recipient("sister"))
        } else {
            None
        },
        3 => if is(w, "aiya") || is(w, "malli") || is(w, "brother") {
            Some(HintKey::Recipient("brother"))
        } else {
            None
        },
        4 => if is(w, "birinda") || is(w, "wife") {
            Some(HintKey::Recipient("wife"))
        } else {
            None
        },
        5 => if is(w, "mahaththaya") || is(w, "husband") {
            Some(HintKey::Recipient("husband"))
        } else {
            None
        },
        6 => if is(w, "yaluwa") || is(w, "friend") {
            Some(HintKey::Recipient("friend"))
        } else {
            None
        },
        7 => if is(w, "birthday") || is(w, "upandinaya") {
            Some(HintKey::Occasion("birthday"))
        } else {
            None
        },
        8 => if is(w, "anniversary") {
            Some(HintKey::Occasion("anniversary"))
        } else {
            None
        },
        9 => if is(w, "wedding") || is(w, "mangalya") {
            Some(HintKey::Occasion("wedding"))
        } else {
            None
        },
        10 => if is(w, "avurudu") {
            Some(HintKey::Occasion("new_year"))
        } else {
            None
        },
        11 => if is(w, "valentine") || is(w, "valentines") {
            Some(HintKey::Occasion("valentine"))
        } else {
            None
        },
        12 => if is(w, "christmas") || is(w, "nattal") {
            Some(HintKey::Occasion("christmas"))
        } else {
            None
        },
        13 => if is(w, "under") || is(w, "below") || is(w, "max") || is(w, "within") || is(w, "yata") {
            Some(HintKey::BudgetMax)
        } else {
            None
        },
        14 => if is(w, "above") || is(w, "over") || is(w, "min") {
            Some(HintKey::BudgetMin)
        } else {
            None
        },
        15 => if is(w, "colombo") || is(w, "kandy") || is(w, "galle") || is(w, "negombo") || is(w, "jaffna") || is(w, "matara") || is(w, "kurunegala") || is(w, "gampaha") {
            Some(HintKey::CityHint)
        } else {
            None
        },
        16 => if is(w, "today") || is(w, "ada") {
            Some(HintKey::DateHint("today"))
        } else {
            None
        },
        17 => if is(w, "tomorrow") || is(w, "heta") {
            Some(HintKey::DateHint("tomorrow"))
        } else {
            None
        },
        18 => if is(w, "walata") || is(w, "ta") {
            Some(HintKey::DeliveryMarker)
        } else {
            None
        },
        _ => None,
    }
}

/// The hints of the dictionary entries that list the word `w`, in dictionary
/// order.
pub fn hints_for(w: &Vec<char>) -> (r: Vec<HintKey>)
    ensures
        r@.map_values(|k: HintKey| hint_view(k)) == hints_of_word(w@),
{
    let mut out: Vec<HintKey> = Vec::new();
    let mut k: usize = 0;
    proof {
        assert(out@.map_values(|h: HintKey| hint_view(h)) =~= hints_upto(w@, 0));
    }
    while k < 19
        invariant
            k <= 19,
            out@.map_values(|h: HintKey| hint_view(h)) == hints_upto(w@, k as nat),
        decreases 19 - k,
    {
        let ghost before = out@.map_values(|h: HintKey| hint_view(h));
        match entry_hint(k, w) {
            Some(h) => {
                out.push(h);
                proof {
                    assert(out@.map_values(|h: HintKey| hint_view(h)) =~= before + seq![hint_view(h)]);
                }
            },
            None => {
                proof {
                    assert(before =~= before + Seq::<HintView>::empty());
                }
            },
        }
        k = k + 1;
    }
    out
}

} // verus!
