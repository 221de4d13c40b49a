//! What the upstream says of the charge for a video.
//!
//! Nothing the upstream says is taken as a charge: it is noted as a candidate,
//! and never as an amount.

use crate::json::{Json, JsonView};
use crate::outside;
use crate::text;
use crate::video::{BillingStatus, ReceiptView, VideoBillingReceipt};
use vstd::prelude::*;

verus! {

/// Every character is a decimal digit.
pub open spec fn all_digits(s: Seq<char>) -> bool {
    forall|i: int| 0 <= i < s.len() ==> '0' <= #[trigger] s[i] <= '9'
}

fn only_digits(s: &str) -> (r: bool)
    ensures
        r == all_digits(s@),
{
    let c = text::chars_of(s);
    let mut i: usize = 0;
    while i < c.len()
        invariant
            i <= c.len(),
            c@ == s@,
            forall|j: int| 0 <= j < i ==> '0' <= #[trigger] c@[j] <= '9',
        decreases c.len() - i,
    {
        if c[i] < '0' || c[i] > '9' {
            assert(!('0' <= s@[i as int] <= '9'));
            return false;
        }
        i = i + 1;
    }
    true
}

/// Zeros behind `digits`, up to six digits.
pub open spec fn six_digits(digits: Seq<char>) -> Seq<char>
    decreases 6 - digits.len(),
{
    if digits.len() >= 6 {
        digits
    } else {
        six_digits(digits.push('0'))
    }
}

/// The text of a number or of a string.
pub open spec fn amount_text(value: JsonView) -> Option<Seq<char>> {
    match value {
        JsonView::Number(n) => Some(n.text),
        JsonView::Text(s) => Some(text::trim(s)),
        _ => None,
    }
}

/// An amount of credits in the form with six decimal places, where it is a
/// plain decimal fraction of that precision.
pub open spec fn credit_amount(value: JsonView) -> Option<Seq<char>> {
    match amount_text(value) {
        None => None,
        Some(raw) => {
            let dot = text::index_of_char(raw, '.');
            let whole = raw.subrange(0, dot);
            let fraction = raw.subrange(dot + 1, raw.len() as int);
            let kept = text::strip_all(whole, "0"@);
            if raw.len() == 0 || text::byte_len(raw) > 64 || raw[0] == '-' || raw.contains('e')
                || raw.contains('E') || !raw.contains('.') {
                None
            } else if whole.len() == 0 || whole.len() > 24 || !all_digits(whole) || fraction.len()
                == 0 || fraction.len() > 6 || !all_digits(fraction) {
                None
            } else {
                Some(
                    if kept.len() == 0 {
                        "0"@
                    } else {
                        kept
                    } + "."@ + six_digits(fraction),
                )
            }
        },
    }
}

fn holds_char(s: &str, c: char) -> (r: bool)
    ensures
        r == s@.contains(c),
{
    let v = text::chars_of(s);
    let mut i: usize = 0;
    while i < v.len()
        invariant
            i <= v.len(),
            v@ == s@,
            forall|j: int| 0 <= j < i ==> v@[j] != c,
        decreases v.len() - i,
    {
        if v[i] == c {
            assert(s@[i as int] == c);
            return true;
        }
        i = i + 1;
    }
    false
}

/// An amount of credits in the form with six decimal places, where it is a
/// plain decimal fraction of that precision.
pub fn canonical_credit_amount(value: &Json) -> (r: Option<String>)
    ensures
        text::opt_view(r) == credit_amount(value@),
{
    let raw = match value {
        Json::Number(n) => n.text.as_str(),
        Json::Text(s) => text::trimmed(s.as_str()),
        _ => {
            return None;
        },
    };
    if raw.is_empty() || text::bytes_in(raw) > 64 || raw.get_char(0) == '-' || holds_char(raw, 'e')
        || holds_char(raw, 'E') {
        return None;
    }
    let (whole, fraction) = match text::split_at_char(raw, '.') {
        Some(parts) => parts,
        None => {
            return None;
        },
    };
    if whole.is_empty() || whole.unicode_len() > 24 || !only_digits(whole) || fraction.is_empty()
        || fraction.unicode_len() > 6 || !only_digits(fraction) {
        return None;
    }
    proof {
        reveal_strlit("0");
    }
    let kept = text::stripped_all(whole, "0");
    let mut digits = fraction.to_owned();
    let ghost plain = digits@;
    while digits.as_str().unicode_len() < 6
        invariant
            six_digits(digits@) == six_digits(plain),
        decreases 6 - digits@.len(),
    {
        digits.push('0');
    }
    let kept = if kept.is_empty() {
        "0"
    } else {
        kept
    };
    Some(text::join3(kept, ".", digits.as_str()))
}

/// The position of the first comma or closing brace, or the length.
pub open spec fn value_end(s: Seq<char>) -> int
    decreases s.len(),
{
    if s.len() == 0 || s[0] == ',' || s[0] == '}' {
        0
    } else {
        1 + value_end(s.subrange(1, s.len() as int))
    }
}

/// The end of a value lies within the text.
pub proof fn lemma_value_end(s: Seq<char>)
    ensures
        0 <= value_end(s) <= s.len(),
    decreases s.len(),
{
    if s.len() > 0 && s[0] != ',' && s[0] != '}' {
        lemma_value_end(s.subrange(1, s.len() as int));
    }
}

/// What follows the first `p` is no longer than the text.
pub proof fn lemma_after_first(s: Seq<char>, p: Seq<char>)
    requires
        p.len() > 0,
    ensures
        text::after_first(s, p) matches Some(rest) ==> rest.len() < s.len(),
    decreases s.len(),
{
    if !text::starts_with(s, p) && s.len() > 0 {
        lemma_after_first(s.subrange(1, s.len() as int), p);
    }
}

/// Some value behind a member name `credits`, in lower case text, holds an
/// `e`.
pub open spec fn exponent_behind_credits(s: Seq<char>) -> bool
    decreases s.len(),
{
    match text::after_first(s, "\"credits\""@) {
        None => false,
        Some(named) => match text::after_first(named, ":"@) {
            None => false,
            Some(value) => {
                proof {
                    reveal_strlit("\"credits\"");
                    reveal_strlit(":");
                    lemma_after_first(s, "\"credits\""@);
                    lemma_after_first(named, ":"@);
                    lemma_value_end(value);
                }
                value.subrange(0, value_end(value)).contains('e') || exponent_behind_credits(
                    value.subrange(value_end(value), value.len() as int),
                )
            },
        },
    }
}

fn find_value_end(s: &str) -> (r: usize)
    ensures
        r == value_end(s@),
        r <= s@.len(),
{
    let c = text::chars_of(s);
    let mut i: usize = 0;
    assert(s@.subrange(0, s@.len() as int) =~= s@);
    while i < c.len() && c[i] != ',' && c[i] != '}'
        invariant
            i <= c.len(),
            c@ == s@,
            value_end(s@) == i + value_end(s@.subrange(i as int, s@.len() as int)),
        decreases c.len() - i,
    {
        assert(s@.subrange(i as int, s@.len() as int).subrange(1, s@.len() - i) =~= s@.subrange(
            i + 1,
            s@.len() as int,
        ));
        i = i + 1;
    }
    i
}

fn scan_exponent(s: &str) -> (r: bool)
    ensures
        r == exponent_behind_credits(s@),
    decreases s@.len(),
{
    proof {
        reveal_strlit("\"credits\"");
        reveal_strlit(":");
        lemma_after_first(s@, "\"credits\""@);
    }
    match text::rest_after(s, "\"credits\"") {
        None => false,
        Some(named) => {
            proof {
                lemma_after_first(named@, ":"@);
            }
            match text::rest_after(named, ":") {
                None => false,
                Some(value) => {
                    let end = find_value_end(value);
                    let token = value.substring_char(0, end);
                    if holds_char(token, 'e') {
                        return true;
                    }
                    scan_exponent(value.substring_char(end, value.unicode_len()))
                },
            }
        },
    }
}

/// Some amount of credits in the text is written with an exponent.
pub fn credit_value_contains_exponent(data: &str) -> (r: bool)
    ensures
        r == exponent_behind_credits(text::lower(data@)),
{
    scan_exponent(text::lowered(data).as_str())
}

/// The document has a member that speaks of a charge.
pub open spec fn speaks_of_charge(object: JsonView) -> bool {
    ||| object.get("task_id"@) is Some
    ||| object.get("task_ref"@) is Some
    ||| object.get("usage"@) is Some
    ||| object.get("credits"@) is Some
    ||| object.get("unit"@) is Some
    ||| object.get("balance_before"@) is Some
    ||| object.get("balance_after"@) is Some
    ||| object.get("total_tokens"@) is Some
    ||| object.get("cost"@) is Some
}

/// The task that the document speaks of.
pub open spec fn task_named(object: JsonView) -> Option<Seq<char>> {
    match object.text_at("task_id"@) {
        Some(id) => Some(id),
        None => object.text_at("task_ref"@),
    }
}

/// The document states the usage of the task in credits.
pub open spec fn states_credits(object: JsonView, task_id: Seq<char>) -> bool {
    &&& task_named(object) == Some(task_id)
    &&& object.get("usage"@) matches Some(usage) && usage is Object && usage.text_at("unit"@)
        == Some("credits"@)
}

/// The document states an amount of credits that could be a charge.
pub open spec fn states_amount(object: JsonView) -> bool {
    object.get("usage"@) matches Some(usage) && usage.get("credits"@) matches Some(credits)
        && credit_amount(credits) is Some
}

/// The receipt of a task that the upstream names.
pub open spec fn candidate_receipt(task_id: Seq<char>, observed_at_ms: u64) -> ReceiptView {
    ReceiptView {
        unit: Some("credits"@),
        task_ref: Some(task_id),
        ..crate::video::unverified_receipt(observed_at_ms)
    }
}

/// The receipt from the first `n` documents read from the front, when no
/// earlier one decided; `seen` where one of them spoke of a charge.
pub open spec fn receipt_from(
    objects: Seq<JsonView>,
    i: nat,
    seen: bool,
    task_id: Seq<char>,
    exponent: bool,
    observed_at_ms: u64,
) -> ReceiptView
    decreases objects.len() - i,
{
    if i >= objects.len() {
        if seen {
            crate::video::unverified_receipt(observed_at_ms)
        } else {
            crate::video::absent_receipt()
        }
    } else {
        let object = objects[i as int];
        if states_credits(object, task_id) && exponent {
            crate::video::unverified_receipt(observed_at_ms)
        } else if states_credits(object, task_id) && states_amount(object) {
            candidate_receipt(task_id, observed_at_ms)
        } else {
            receipt_from(
                objects,
                i + 1,
                seen || speaks_of_charge(object),
                task_id,
                exponent,
                observed_at_ms,
            )
        }
    }
}

/// The document with the object under a name behind it, where there is one.
pub open spec fn nested(objects: Seq<JsonView>, value: JsonView, key: Seq<char>) -> Seq<JsonView> {
    match value.get(key) {
        Some(inner) => if inner is Object {
            objects.push(inner)
        } else {
            objects
        },
        None => objects,
    }
}

/// The documents in which a charge may be stated.
pub open spec fn charge_documents(value: JsonView) -> Seq<JsonView> {
    nested(
        nested(nested(nested(seq![value], value, "data"@), value, "result"@), value, "output"@),
        value,
        "video"@,
    )
}

/// The receipt that a document gives for a task.
pub open spec fn receipt_of(
    value: JsonView,
    task_id: Seq<char>,
    exponent: bool,
    observed_at_ms: u64,
) -> ReceiptView {
    receipt_from(charge_documents(value), 0, false, task_id, exponent, observed_at_ms)
}

spec fn refs(items: Seq<&Json>) -> Seq<JsonView> {
    Seq::new(items.len(), |i: int| items[i]@)
}

fn add_nested<'a>(objects: Vec<&'a Json>, value: &'a Json, key: &str) -> (r: Vec<&'a Json>)
    ensures
        refs(r@) == nested(refs(objects@), value@, key@),
{
    let mut objects = objects;
    let ghost before = refs(objects@);
    if let Some(inner) = value.get(key) {
        if let Json::Object(_) = inner {
            objects.push(inner);
            assert(refs(objects@) =~= before.push(inner@));
        }
    }
    objects
}

fn charge_signal(object: &Json) -> (r: bool)
    ensures
        r == speaks_of_charge(object@),
{
    object.get("task_id").is_some() || object.get("task_ref").is_some() || object.get(
        "usage",
    ).is_some() || object.get("credits").is_some() || object.get("unit").is_some() || object.get(
        "balance_before",
    ).is_some() || object.get("balance_after").is_some() || object.get("total_tokens").is_some()
        || object.get("cost").is_some()
}

fn credits_stated(object: &Json, task_id: &str) -> (r: bool)
    ensures
        r == states_credits(object@, task_id@),
{
    let named = match object.str_at("task_id") {
        Some(id) => Some(id),
        None => object.str_at("task_ref"),
    };
    let of_task = match named {
        Some(id) => text::same(id, task_id),
        None => false,
    };
    if !of_task {
        return false;
    }
    match object.get("usage") {
        Some(usage) => {
            if let Json::Object(_) = usage {
                match usage.str_at("unit") {
                    Some(unit) => text::same(unit, "credits"),
                    None => false,
                }
            } else {
                false
            }
        },
        None => false,
    }
}

fn amount_stated(object: &Json) -> (r: bool)
    ensures
        r == states_amount(object@),
{
    match object.get("usage") {
        Some(usage) => match usage.get("credits") {
            Some(credits) => canonical_credit_amount(credits).is_some(),
            None => false,
        },
        None => false,
    }
}

/// The receipt that a document gives for a task. A stated amount makes it a
/// candidate; the amount itself is never kept.
pub fn extract_billing_candidate_value(
    value: &Json,
    expected_task_id: &str,
    credit_value_has_exponent: bool,
    observed_at_ms: u64,
) -> (r: VideoBillingReceipt)
    ensures
        r@ == receipt_of(
            value@,
            expected_task_id@,
            credit_value_has_exponent,
            observed_at_ms,
        ),
{
    let mut objects: Vec<&Json> = Vec::new();
    objects.push(value);
    assert(refs(objects@) =~= seq![value@]);
    let objects = add_nested(objects, value, "data");
    let objects = add_nested(objects, value, "result");
    let objects = add_nested(objects, value, "output");
    let objects = add_nested(objects, value, "video");
    let ghost all = charge_documents(value@);
    let mut seen = false;
    let mut i: usize = 0;
    while i < objects.len()
        invariant
            i <= objects.len(),
            all == refs(objects@),
            receipt_of(value@, expected_task_id@, credit_value_has_exponent, observed_at_ms)
                == receipt_from(
                all,
                i as nat,
                seen,
                expected_task_id@,
                credit_value_has_exponent,
                observed_at_ms,
            ),
        decreases objects.len() - i,
    {
        let object = objects[i];
        assert(all[i as int] == object@);
        if credits_stated(object, expected_task_id) {
            if credit_value_has_exponent {
                return VideoBillingReceipt::unverified(observed_at_ms);
            }
            if amount_stated(object) {
                let mut candidate = VideoBillingReceipt::unverified(observed_at_ms);
                candidate.unit = Some("credits".to_owned());
                candidate.task_ref = Some(expected_task_id.to_owned());
                return candidate;
            }
        }
        seen = seen || charge_signal(object);
        i = i + 1;
    }
    if seen {
        VideoBillingReceipt::unverified(observed_at_ms)
    } else {
        VideoBillingReceipt::default()
    }
}

/// The view of a receipt or an error.
pub open spec fn receipt_result_view(r: Result<VideoBillingReceipt, String>) -> Result<
    ReceiptView,
    Seq<char>,
> {
    match r {
        Ok(receipt) => Ok(receipt@),
        Err(error) => Err(error@),
    }
}

/// The receipt that a parsed text gives for a task.
pub open spec fn receipt_of_text(
    parsed: Result<JsonView, Seq<char>>,
    data: Seq<char>,
    task_id: Seq<char>,
    observed_at_ms: u64,
) -> Result<ReceiptView, Seq<char>> {
    match parsed {
        Err(error) => Err("billing receipt JSON 无效: "@ + error),
        Ok(value) => Ok(
            receipt_of(
                value,
                task_id,
                exponent_behind_credits(text::lower(data)),
                observed_at_ms,
            ),
        ),
    }
}

/// The receipt that a text gives for a task.
pub fn extract_billing_candidate(data: &str, expected_task_id: &str, observed_at_ms: u64) -> (r:
    Result<VideoBillingReceipt, String>)
    ensures
        receipt_result_view(r) == receipt_of_text(
            outside::json_of_text(data@),
            data@,
            expected_task_id@,
            observed_at_ms,
        ),
{
    match outside::parse_text(data) {
        Err(error) => Err(text::join2("billing receipt JSON 无效: ", error.as_str())),
        Ok(value) => Ok(
            extract_billing_candidate_value(
                &value,
                expected_task_id,
                credit_value_contains_exponent(data),
                observed_at_ms,
            ),
        ),
    }
}

/// Whatever the upstream says, no receipt is verified by it and no receipt
/// holds an amount.
pub proof fn law_upstream_never_states_a_charge(
    value: JsonView,
    task_id: Seq<char>,
    exponent: bool,
    observed_at_ms: u64,
)
    ensures
        receipt_of(value, task_id, exponent, observed_at_ms).status != BillingStatus::Verified,
        receipt_of(value, task_id, exponent, observed_at_ms).actual_credits is None,
{
    lemma_receipt_from(
        charge_documents(value),
        0,
        false,
        task_id,
        exponent,
        observed_at_ms,
    );
}

proof fn lemma_receipt_from(
    objects: Seq<JsonView>,
    i: nat,
    seen: bool,
    task_id: Seq<char>,
    exponent: bool,
    observed_at_ms: u64,
)
    ensures
        ({
            let r = receipt_from(objects, i, seen, task_id, exponent, observed_at_ms);
            &&& r.status != BillingStatus::Verified
            &&& r.actual_credits is None
            &&& r.task_ref is Some ==> r.task_ref == Some(task_id)
        }),
    decreases objects.len() - i,
{
    if i < objects.len() {
        lemma_receipt_from(
            objects,
            i + 1,
            seen || speaks_of_charge(objects[i as int]),
            task_id,
            exponent,
            observed_at_ms,
        );
    }
}

/// A receipt names no task but the one it is for.
pub proof fn law_receipt_names_its_task(
    value: JsonView,
    task_id: Seq<char>,
    exponent: bool,
    observed_at_ms: u64,
)
    ensures
        receipt_of(value, task_id, exponent, observed_at_ms).task_ref matches Some(named) ==> named
            == task_id,
{
    lemma_receipt_from(
        charge_documents(value),
        0,
        false,
        task_id,
        exponent,
        observed_at_ms,
    );
}

} // verus!
