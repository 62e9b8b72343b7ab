//! Checks a checkout draft and turns it into the connector's order arguments.
use vstd::prelude::*;
use vstd::utf8::encode_utf8;
use crate::models::malee::cart::{CartItem, CartState};
use crate::models::malee::checkout::{CheckoutDraft, DeliveryInfo, RecipientInfo, SenderInfo};
use crate::services::malee::connector::types::{
    CreateOrderArgs, McpCartItem, McpDelivery, McpRecipient, McpSender,
};
use crate::services::malee::llm::phone::{digits_of, normalize_sl_digits, sl_phone};
use crate::text::{
    chars_of, clone_opt, contains_seq, opt_chars, str_contains, string_of, strs_view, sub_chars,
    trim, trim_chars,
};
use crate::time::{format_ymd, today_utc, ymd_text, Day};

verus! {

/// How far ahead a delivery may be booked, in days.
pub const MAX_DELIVERY_AHEAD_DAYS: i64 = 90;

/// The longest gift message kept, in characters.
pub const GIFT_MESSAGE_MAX_CHARS: usize = 240;

/// The length of `s` in UTF-8 bytes, as `str::len` returns it.
pub open spec fn byte_len(s: Seq<char>) -> int {
    encode_utf8(s).len() as usize as int
}

/// A name must take 2 to 80 bytes.
pub open spec fn name_invalid(s: Seq<char>) -> bool {
    byte_len(s) < 2 || byte_len(s) > 80
}

/// `code`, where `cond` holds.
pub open spec fn when(cond: bool, code: Seq<char>) -> Seq<Seq<char>> {
    if cond {
        seq![code]
    } else {
        Seq::empty()
    }
}

/// What is wrong with the recipient part.
pub open spec fn recipient_errors(r: Option<RecipientInfo>) -> Seq<Seq<char>> {
    match r {
        Some(r) => when(name_invalid(r.name@), "recipient.name.invalid"@) + when(
            sl_phone(r.phone@) is None,
            "recipient.phone.invalid_sl_format"@,
        ) + when(byte_len(r.address_line1@) < 3, "recipient.address.too_short"@) + when(
            trim(r.city@).len() == 0,
            "recipient.city.missing"@,
        ),
        None => seq!["recipient.missing"@],
    }
}

/// What is wrong with the delivery part, on day `today`.
pub open spec fn delivery_errors(d: Option<DeliveryInfo>, today: int) -> Seq<Seq<char>> {
    match d {
        Some(d) => (if d.date.spec_days() < today {
            seq!["delivery.date.past"@]
        } else if d.date.spec_days() > today + MAX_DELIVERY_AHEAD_DAYS {
            seq!["delivery.date.too_far"@]
        } else {
            Seq::empty()
        }) + when(trim(d.city@).len() == 0, "delivery.city.missing"@),
        None => seq!["delivery.missing"@],
    }
}

/// What is wrong with the sender part.
pub open spec fn sender_errors(s: Option<SenderInfo>) -> Seq<Seq<char>> {
    match s {
        Some(s) => when(name_invalid(s.name@), "sender.name.invalid"@) + when(
            !contains_seq(s.email@, "@"@) || !contains_seq(s.email@, "."@),
            "sender.email.invalid"@,
        ) + when(sl_phone(s.phone@) is None, "sender.phone.invalid_sl_format"@),
        None => seq!["sender.missing"@],
    }
}

/// Every problem of the draft, in the order they are reported.
pub open spec fn checkout_errors(draft: CheckoutDraft, cart: CartState, today: int) -> Seq<
    Seq<char>,
> {
    when(cart.items@.len() == 0, "cart.empty"@) + recipient_errors(draft.recipient)
        + delivery_errors(draft.delivery, today) + sender_errors(draft.sender)
}

/// A separator of the address parts: a comma or a space.
pub open spec fn is_comma_space(c: char) -> bool {
    c == ',' || c == ' '
}

/// `s` without leading commas and spaces.
pub open spec fn trim_cs_start(s: Seq<char>) -> Seq<char>
    decreases s.len(),
{
    if s.len() > 0 && is_comma_space(s[0]) {
        trim_cs_start(s.drop_first())
    } else {
        s
    }
}

/// `s` without trailing commas and spaces.
pub open spec fn trim_cs_end(s: Seq<char>) -> Seq<char>
    decreases s.len(),
{
    if s.len() > 0 && is_comma_space(s.last()) {
        trim_cs_end(s.drop_last())
    } else {
        s
    }
}

/// The delivery address: `line1, line2` without the commas and spaces at
/// either end (a missing second line counts as empty).
pub open spec fn address_text(r: RecipientInfo) -> Seq<char> {
    trim_cs_end(trim_cs_start(r.address_line1@ + ", "@ + or_empty(r.address_line2)))
}

/// The text of an optional string, empty where there is none.
pub open spec fn or_empty(o: Option<String>) -> Seq<char> {
    match o {
        Some(s) => s@,
        None => Seq::empty(),
    }
}

/// A gift message cut to its first 240 characters.
pub open spec fn gift_text(m: Seq<char>) -> Seq<char> {
    if m.len() > GIFT_MESSAGE_MAX_CHARS {
        m.take(GIFT_MESSAGE_MAX_CHARS as int)
    } else {
        m
    }
}

/// The order line sent for each cart line.
pub open spec fn order_lines_match(lines: Seq<McpCartItem>, items: Seq<CartItem>) -> bool {
    &&& lines.len() == items.len()
    &&& forall|i: int|
        0 <= i < items.len() ==> {
            &&& #[trigger] lines[i].product_id@ == items[i].product_id@
            &&& lines[i].quantity == items[i].quantity
            &&& lines[i].icing_text is None
        }
}

/// The order arguments built from a complete, valid draft.
pub open spec fn order_args_match(a: CreateOrderArgs, draft: CheckoutDraft, cart: CartState) -> bool {
    let r = draft.recipient->0;
    let d = draft.delivery->0;
    let s = draft.sender->0;
    &&& order_lines_match(a.cart@, cart.items@)
    &&& a.recipient.name@ == r.name@
    &&& Some(a.recipient.phone@) == sl_phone(r.phone@)
    &&& a.delivery.address@ == address_text(r)
    &&& a.delivery.city@ == d.city@
    &&& a.delivery.date@ == ymd_text(d.date.spec_days())
    &&& opt_chars(a.delivery.instructions) == opt_chars(draft.special_instructions)
    &&& opt_chars(a.delivery.location_type) == (match draft.location_type {
        Some(l) => Some(l@),
        None => Some("house"@),
    })
    &&& a.sender.name@ == s.name@
    &&& opt_chars(a.sender.email) == Some(s.email@)
    &&& !a.sender.anonymous
    &&& opt_chars(a.gift_message) == (match draft.gift_message {
        Some(m) => Some(gift_text(m@)),
        None => None,
    })
    &&& a.currency@ == "LKR"@
    &&& a.response_format@ == "json"@
}

proof fn lemma_trim_cs_start_skip(s: Seq<char>, i: int)
    requires
        0 <= i <= s.len(),
        forall|j: int| 0 <= j < i ==> is_comma_space(s[j]),
    ensures
        trim_cs_start(s) == trim_cs_start(s.skip(i)),
    decreases i,
{
    if i > 0 {
        assert(s.skip(1) =~= s.drop_first());
        lemma_trim_cs_start_skip(s.drop_first(), i - 1);
        assert(s.drop_first().skip(i - 1) =~= s.skip(i));
    } else {
        assert(s.skip(0) =~= s);
    }
}

proof fn lemma_trim_cs_end_take(s: Seq<char>, k: int)
    requires
        0 <= k <= s.len(),
        forall|j: int| k <= j < s.len() ==> is_comma_space(s[j]),
    ensures
        trim_cs_end(s) == trim_cs_end(s.take(k)),
    decreases s.len() - k,
{
    if k < s.len() {
        assert(s.take(s.len() - 1) =~= s.drop_last());
        lemma_trim_cs_end_take(s.drop_last(), k);
        assert(s.drop_last().take(k) =~= s.take(k));
    } else {
        assert(s.take(k) =~= s);
    }
}

/// `cs` without the commas and spaces at either end.
fn trim_comma_space(cs: &Vec<char>) -> (r: Vec<char>)
    ensures
        r@ == trim_cs_end(trim_cs_start(cs@)),
{
    let n = cs.len();
    let mut a: usize = 0;
    while a < n && (cs[a] == ',' || cs[a] == ' ')
        invariant
            a <= n,
            n == cs@.len(),
            forall|j: int| 0 <= j < a ==> is_comma_space(cs@[j]),
        decreases n - a,
    {
        a = a + 1;
    }
    proof {
        lemma_trim_cs_start_skip(cs@, a as int);
    }
    let mut b: usize = n;
    while b > a && (cs[b - 1] == ',' || cs[b - 1] == ' ')
        invariant
            a <= b <= n,
            n == cs@.len(),
            forall|j: int| b <= j < n ==> is_comma_space(cs@[j]),
        decreases b - a,
    {
        b = b - 1;
    }
    let ghost t = cs@.skip(a as int);
    proof {
        assert(trim_cs_start(t) == t);
        assert forall|j: int| (b - a) <= j < t.len() implies is_comma_space(t[j]) by {}
        lemma_trim_cs_end_take(t, b - a);
        assert(cs@.subrange(a as int, b as int) =~= t.take(b - a));
    }
    sub_chars(cs, a, b)
}

/// `s` without the commas and spaces at either end.
pub fn trim_address(s: &str) -> (r: String)
    ensures
        r@ == trim_cs_end(trim_cs_start(s@)),
{
    let cs = chars_of(s);
    let t = trim_comma_space(&cs);
    string_of(t.as_slice())
}

/// The delivery address of `r` (see `address_text`).
fn delivery_address(r: &RecipientInfo) -> (s: String)
    ensures
        s@ == address_text(*r),
{
    let mut whole = r.address_line1.clone();
    whole.append(", ");
    match &r.address_line2 {
        Some(l) => whole.append(l.as_str()),
        None => {},
    }
    let cs = chars_of(whole.as_str());
    let t = trim_comma_space(&cs);
    proof {
        assert(cs@ =~= r.address_line1@ + ", "@ + or_empty(r.address_line2));
    }
    string_of(t.as_slice())
}

/// The gift message cut to 240 characters.
fn cut_gift_message(m: &Option<String>) -> (r: Option<String>)
    ensures
        opt_chars(r) == (match *m {
            Some(m) => Some(gift_text(m@)),
            None => None,
        }),
{
    match m {
        None => None,
        Some(msg) => {
            let cs = chars_of(msg.as_str());
            if cs.len() > GIFT_MESSAGE_MAX_CHARS {
                let t = sub_chars(&cs, 0, GIFT_MESSAGE_MAX_CHARS);
                Some(string_of(t.as_slice()))
            } else {
                Some(msg.clone())
            }
        },
    }
}

/// Whether a name's byte length is outside 2 to 80.
fn bad_name(name: &String) -> (r: bool)
    ensures
        r == name_invalid(name@),
{
    let n = name.as_str().len();
    n < 2 || n > 80
}

/// Whether `s` is empty once trimmed.
fn blank(s: &String) -> (r: bool)
    ensures
        r == (trim(s@).len() == 0),
{
    let cs = chars_of(s.as_str());
    let t = trim_chars(&cs);
    t.len() == 0
}

/// Appends `code` to `errors`.
fn report(errors: &mut Vec<String>, code: &str)
    ensures
        strs_view(final(errors)@) == strs_view(old(errors)@).push(code@),
{
    errors.push(String::from_str(code));
    proof {
        assert(strs_view(final(errors)@) =~= strs_view(old(errors)@).push(code@));
    }
}

/// The order lines of `items`.
fn order_lines(items: &Vec<CartItem>) -> (r: Vec<McpCartItem>)
    ensures
        order_lines_match(r@, items@),
{
    let mut r: Vec<McpCartItem> = Vec::new();
    let mut i: usize = 0;
    while i < items.len()
        invariant
            i <= items@.len(),
            r@.len() == i,
            forall|k: int|
                0 <= k < i ==> {
                    &&& #[trigger] r@[k].product_id@ == items@[k].product_id@
                    &&& r@[k].quantity == items@[k].quantity
                    &&& r@[k].icing_text is None
                },
        decreases items@.len() - i,
    {
        r.push(
            McpCartItem {
                product_id: items[i].product_id.clone(),
                quantity: items[i].quantity,
                icing_text: None,
            },
        );
        i = i + 1;
    }
    r
}

/// Reports the problems of the recipient part; gives its normalised phone.
fn check_recipient(errors: &mut Vec<String>, recipient: &Option<RecipientInfo>) -> (p: Option<String>)
    ensures
        strs_view(final(errors)@) == strs_view(old(errors)@) + recipient_errors(*recipient),
        recipient matches Some(r) ==> match sl_phone(r.phone@) {
            Some(q) => p matches Some(t) && t@ == q,
            None => p is None,
        },
{
    let ghost e = strs_view(errors@);
    let mut phone: Option<String> = None;
    match recipient {
        Some(r) => {
            if bad_name(&r.name) {
                report(errors, "recipient.name.invalid");
            }
            phone = normalize_sl_digits(r.phone.as_str());
            if phone.is_none() {
                report(errors, "recipient.phone.invalid_sl_format");
            }
            if r.address_line1.as_str().len() < 3 {
                report(errors, "recipient.address.too_short");
            }
            if blank(&r.city) {
                report(errors, "recipient.city.missing");
            }
        },
        None => {
            report(errors, "recipient.missing");
        },
    }
    proof {
        assert(strs_view(errors@) =~= e + recipient_errors(*recipient));
    }
    phone
}

/// Reports the problems of the delivery part on day `today`.
fn check_delivery(errors: &mut Vec<String>, delivery: &Option<DeliveryInfo>, today: Day)
    ensures
        strs_view(final(errors)@) == strs_view(old(errors)@) + delivery_errors(
            *delivery,
            today.spec_days(),
        ),
{
    let ghost e = strs_view(errors@);
    match delivery {
        Some(d) => {
            let day = d.date.days() as i64;
            let now = today.days() as i64;
            if day < now {
                report(errors, "delivery.date.past");
            } else if day > now + MAX_DELIVERY_AHEAD_DAYS {
                report(errors, "delivery.date.too_far");
            }
            if blank(&d.city) {
                report(errors, "delivery.city.missing");
            }
        },
        None => {
            report(errors, "delivery.missing");
        },
    }
    proof {
        assert(strs_view(errors@) =~= e + delivery_errors(*delivery, today.spec_days()));
    }
}

/// Reports the problems of the sender part.
fn check_sender(errors: &mut Vec<String>, sender: &Option<SenderInfo>)
    ensures
        strs_view(final(errors)@) == strs_view(old(errors)@) + sender_errors(*sender),
{
    let ghost e = strs_view(errors@);
    match sender {
        Some(s) => {
            if bad_name(&s.name) {
                report(errors, "sender.name.invalid");
            }
            if !str_contains(s.email.as_str(), "@") || !str_contains(s.email.as_str(), ".") {
                report(errors, "sender.email.invalid");
            }
            if normalize_sl_digits(s.phone.as_str()).is_none() {
                report(errors, "sender.phone.invalid_sl_format");
            }
        },
        None => {
            report(errors, "sender.missing");
        },
    }
    proof {
        assert(strs_view(errors@) =~= e + sender_errors(*sender));
    }
}

/// The order arguments of a complete draft whose recipient phone normalises
/// to `phone`.
fn build_order(
    draft: &CheckoutDraft,
    cart: &CartState,
    r: &RecipientInfo,
    d: &DeliveryInfo,
    s: &SenderInfo,
    phone: String,
) -> (a: CreateOrderArgs)
    requires
        draft.recipient == Some(*r),
        draft.delivery == Some(*d),
        draft.sender == Some(*s),
        sl_phone(r.phone@) == Some(phone@),
    ensures
        order_args_match(a, *draft, *cart),
{
    let location_type = match &draft.location_type {
        Some(l) => Some(l.clone()),
        None => Some(String::from_str("house")),
    };
    CreateOrderArgs {
        cart: order_lines(&cart.items),
        recipient: McpRecipient { name: r.name.clone(), phone },
        delivery: McpDelivery {
            address: delivery_address(r),
            city: d.city.clone(),
            date: format_ymd(d.date),
            instructions: clone_opt(&draft.special_instructions),
            location_type,
        },
        sender: McpSender { name: s.name.clone(), email: Some(s.email.clone()), anonymous: false },
        gift_message: cut_gift_message(&draft.gift_message),
        currency: String::from_str("LKR"),
        response_format: String::from_str("json"),
    }
}

/// Checks a checkout draft against the cart on day `today` and builds the
/// order arguments. Every problem is reported, by a stable code, in this
/// order: an empty cart; a missing recipient, or its name (2 to 80 bytes),
/// phone (a Sri Lankan number), address line (at least 3 bytes) and city (not
/// blank); a missing delivery, or its date (not before today, at most 90 days
/// ahead) and city; a missing sender, or its name, e-mail (holding `@` and `.`)
/// and phone. With no problem, the order carries the normalised phone, the
/// address lines joined, the printed date, the location type (`house` by
/// default) and the gift message cut to 240 characters.
pub fn validate_on(draft: &CheckoutDraft, cart: &CartState, today: Day) -> (r: Result<
    CreateOrderArgs,
    Vec<String>,
>)
    ensures
        checkout_errors(*draft, *cart, today.spec_days()).len() > 0 ==> (r matches Err(v)
            && strs_view(v@) == checkout_errors(*draft, *cart, today.spec_days())),
        checkout_errors(*draft, *cart, today.spec_days()).len() == 0 ==> (r matches Ok(a)
            && draft.recipient is Some && draft.delivery is Some && draft.sender is Some
            && order_args_match(a, *draft, *cart)),
{
    let mut errors: Vec<String> = Vec::new();
    if cart.items.len() == 0 {
        report(&mut errors, "cart.empty");
    }
    proof {
        assert(strs_view(errors@) =~= when(cart.items@.len() == 0, "cart.empty"@));
    }
    let phone = check_recipient(&mut errors, &draft.recipient);
    check_delivery(&mut errors, &draft.delivery, today);
    check_sender(&mut errors, &draft.sender);
    proof {
        assert(strs_view(errors@) =~= checkout_errors(*draft, *cart, today.spec_days()));
    }
    if errors.len() > 0 {
        return Err(errors);
    }
    match (&draft.recipient, &draft.delivery, &draft.sender, phone) {
        (Some(r), Some(d), Some(s), Some(p)) => Ok(build_order(draft, cart, r, d, s, p)),
        _ => Err(errors),
    }
}

/// Whether the digits of a phone number have a Sri Lankan shape: 9 digits,
/// `0` and 9 digits, or `94` and 9 digits.
pub open spec fn sl_shaped(digits: Seq<char>) -> bool {
    ||| digits.len() == 9
    ||| digits.len() == 10 && digits[0] == '0'
    ||| digits.len() == 11 && digits[0] == '9' && digits[1] == '4'
}

/// A number whose digits have no Sri Lankan shape has no normal form.
proof fn lemma_unshaped_phone(raw: Seq<char>)
    requires
        !sl_shaped(digits_of(raw)),
    ensures
        sl_phone(raw) is None,
{
    let d = digits_of(raw);
    if d.len() == 10 && crate::text::starts_with(d, seq!['0']) {
        assert(d.take(1)[0] == d[0]);
    }
    if d.len() == 11 && crate::text::starts_with(d, seq!['9', '4']) {
        assert(d.take(2)[0] == d[0]);
        assert(d.take(2)[1] == d[1]);
    }
}

/// A recipient whose phone has no Sri Lankan shape is refused: validation
/// fails, and among its problems is `recipient.phone.invalid_sl_format`.
pub proof fn law_invalid_recipient_phone_refused(
    draft: CheckoutDraft,
    cart: CartState,
    today: Day,
    r: Result<CreateOrderArgs, Vec<String>>,
)
    requires
        checkout_errors(draft, cart, today.spec_days()).len() > 0 ==> (r matches Err(v)
            && strs_view(v@) == checkout_errors(draft, cart, today.spec_days())),
        checkout_errors(draft, cart, today.spec_days()).len() == 0 ==> (r matches Ok(a)
            && draft.recipient is Some && draft.delivery is Some && draft.sender is Some
            && order_args_match(a, draft, cart)),
        draft.recipient matches Some(rc) && !sl_shaped(digits_of(rc.phone@)),
    ensures
        r matches Err(v) && exists|i: int|
            0 <= i < v@.len() && (#[trigger] v@[i])@ == "recipient.phone.invalid_sl_format"@,
{
    let rc = draft.recipient->0;
    lemma_unshaped_phone(rc.phone@);
    let a = when(cart.items@.len() == 0, "cart.empty"@);
    let n = when(name_invalid(rc.name@), "recipient.name.invalid"@);
    let rest = when(byte_len(rc.address_line1@) < 3, "recipient.address.too_short"@) + when(
        trim(rc.city@).len() == 0,
        "recipient.city.missing"@,
    );
    let e = checkout_errors(draft, cart, today.spec_days());
    let i: int = (a.len() + n.len()) as int;
    assert(recipient_errors(draft.recipient) == n + seq!["recipient.phone.invalid_sl_format"@] + rest);
    assert(e == a + (n + seq!["recipient.phone.invalid_sl_format"@] + rest) + delivery_errors(
        draft.delivery,
        today.spec_days(),
    ) + sender_errors(draft.sender));
    assert(e[i] == "recipient.phone.invalid_sl_format"@);
    let v = r->Err_0;
    assert(strs_view(v@)[i] == v@[i]@);
}

/// A sender whose phone has no Sri Lankan shape is refused: validation fails,
/// and among its problems (the last one, as the sender is checked last) is
/// `sender.phone.invalid_sl_format`.
pub proof fn law_invalid_sender_phone_refused(
    draft: CheckoutDraft,
    cart: CartState,
    today: Day,
    r: Result<CreateOrderArgs, Vec<String>>,
)
    requires
        checkout_errors(draft, cart, today.spec_days()).len() > 0 ==> (r matches Err(v)
            && strs_view(v@) == checkout_errors(draft, cart, today.spec_days())),
        checkout_errors(draft, cart, today.spec_days()).len() == 0 ==> (r matches Ok(a)
            && draft.recipient is Some && draft.delivery is Some && draft.sender is Some
            && order_args_match(a, draft, cart)),
        draft.sender matches Some(s) && !sl_shaped(digits_of(s.phone@)),
    ensures
        r matches Err(v) && v@.len() > 0 && v@.last()@ == "sender.phone.invalid_sl_format"@,
{
    let s = draft.sender->0;
    lemma_unshaped_phone(s.phone@);
    let e = checkout_errors(draft, cart, today.spec_days());
    assert(e.last() == "sender.phone.invalid_sl_format"@);
    let v = r->Err_0;
    assert(strs_view(v@)[v@.len() - 1] == v@.last()@);
}

/// The problem reported when today's date cannot be read from the clock.
pub const CLOCK_UNAVAILABLE: &'static str = "delivery.date_unchecked";

/// Checks a checkout draft against the cart on today's date (UTC); see
/// `validate_on` for what is checked and built. When the clock cannot be
/// read, the delivery date cannot be checked and that is the one problem
/// reported.
pub fn validate(draft: &CheckoutDraft, cart: &CartState) -> (r: Result<CreateOrderArgs, Vec<String>>)
    ensures
        (exists|today: Day|
            {
                &&& checkout_errors(*draft, *cart, today.spec_days()).len() > 0 ==> (r matches Err(v)
                    && strs_view(v@) == checkout_errors(*draft, *cart, today.spec_days()))
                &&& checkout_errors(*draft, *cart, today.spec_days()).len() == 0 ==> (r matches Ok(
                    a,
                ) && order_args_match(a, *draft, *cart))
            }) || (r matches Err(v) && strs_view(v@) == seq![CLOCK_UNAVAILABLE@]),
{
    match today_utc() {
        Some(today) => validate_on(draft, cart, today),
        None => {
            let mut v: Vec<String> = Vec::new();
            v.push(String::from_str(CLOCK_UNAVAILABLE));
            proof {
                assert(strs_view(v@) =~= seq![CLOCK_UNAVAILABLE@]);
            }
            Err(v)
        },
    }
}

} // verus!
