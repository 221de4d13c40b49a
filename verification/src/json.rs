//! JSON values.
//!
//! [`Json`] holds what the gateway reads of a JSON document, as plain values.
//! Its view, [`JsonView`], is the document as a mathematical tree; an object is
//! the sequence of its members in the order in which they were written.

use crate::text;
use vstd::prelude::*;

verus! {

/// A JSON number: its text as `serde_json` prints it, and its value where it
/// is an integer of the type in question.
#[derive(Debug, PartialEq, Eq)]
pub struct JsonNumber {
    pub text: String,
    pub unsigned: Option<u64>,
    pub signed: Option<i64>,
}

/// A JSON document.
#[derive(Debug, PartialEq, Eq)]
pub enum Json {
    Null,
    Bool(bool),
    Number(JsonNumber),
    Text(String),
    Array(Vec<Json>),
    Object(Vec<(String, Json)>),
}

/// The model of a JSON number.
#[verifier::ext_equal]
pub struct NumberView {
    pub text: Seq<char>,
    pub unsigned: Option<u64>,
    pub signed: Option<i64>,
}

/// The model of a JSON document.
#[verifier::ext_equal]
pub enum JsonView {
    Null,
    Bool(bool),
    Number(NumberView),
    Text(Seq<char>),
    Array(Seq<JsonView>),
    Object(Seq<(Seq<char>, JsonView)>),
}

impl Clone for JsonNumber {
    fn clone(&self) -> (r: JsonNumber)
        ensures
            r == *self,
    {
        JsonNumber { text: self.text.clone(), unsigned: self.unsigned, signed: self.signed }
    }
}

impl View for JsonNumber {
    type V = NumberView;

    open spec fn view(&self) -> NumberView {
        NumberView { text: self.text@, unsigned: self.unsigned, signed: self.signed }
    }
}

/// The model of `json`.
pub open spec fn model(json: Json) -> JsonView
    decreases json,
{
    match json {
        Json::Null => JsonView::Null,
        Json::Bool(b) => JsonView::Bool(b),
        Json::Number(n) => JsonView::Number(n@),
        Json::Text(s) => JsonView::Text(s@),
        Json::Array(items) => JsonView::Array(
            Seq::new(
                items@.len(),
                |i: int|
                    if 0 <= i < items@.len() {
                        model(items@[i])
                    } else {
                        JsonView::Null
                    },
            ),
        ),
        Json::Object(members) => JsonView::Object(
            Seq::new(
                members@.len(),
                |i: int|
                    if 0 <= i < members@.len() {
                        (members@[i].0@, model(members@[i].1))
                    } else {
                        (Seq::empty(), JsonView::Null)
                    },
            ),
        ),
    }
}

impl View for Json {
    type V = JsonView;

    open spec fn view(&self) -> JsonView {
        model(*self)
    }
}

/// The view of an optional document.
pub open spec fn opt_model(json: Option<Json>) -> Option<JsonView> {
    match json {
        Some(value) => Some(value@),
        None => None,
    }
}

impl JsonView {
    /// The value of a member, where the document is an object that has it.
    pub open spec fn get(self, key: Seq<char>) -> Option<JsonView> {
        match self {
            JsonView::Object(members) => crate::table::find(members, key),
            _ => None,
        }
    }

    /// The text, where the document is a string.
    pub open spec fn as_text(self) -> Option<Seq<char>> {
        match self {
            JsonView::Text(s) => Some(s),
            _ => None,
        }
    }

    /// The truth value, where the document is one.
    pub open spec fn as_bool(self) -> Option<bool> {
        match self {
            JsonView::Bool(b) => Some(b),
            _ => None,
        }
    }

    /// The value, where the document is a non-negative integer.
    pub open spec fn as_unsigned(self) -> Option<u64> {
        match self {
            JsonView::Number(n) => n.unsigned,
            _ => None,
        }
    }

    /// The value, where the document is an integer of 64 bits.
    pub open spec fn as_signed(self) -> Option<i64> {
        match self {
            JsonView::Number(n) => n.signed,
            _ => None,
        }
    }

    /// The number, where the document is one.
    pub open spec fn as_number(self) -> Option<NumberView> {
        match self {
            JsonView::Number(n) => Some(n),
            _ => None,
        }
    }

    /// The elements, where the document is an array.
    pub open spec fn as_array(self) -> Option<Seq<JsonView>> {
        match self {
            JsonView::Array(items) => Some(items),
            _ => None,
        }
    }

    /// The text of a member that is a string.
    pub open spec fn text_at(self, key: Seq<char>) -> Option<Seq<char>> {
        match self.get(key) {
            Some(value) => value.as_text(),
            None => None,
        }
    }

    /// The text of a member without the white space around it, where anything
    /// is left.
    pub open spec fn trimmed_at(self, key: Seq<char>) -> Option<Seq<char>> {
        match self.text_at(key) {
            Some(s) => if text::trim(s).len() == 0 {
                None
            } else {
                Some(text::trim(s))
            },
            None => None,
        }
    }

    /// The first element of a member that is an array.
    pub open spec fn first_at(self, key: Seq<char>) -> Option<JsonView> {
        match self.get(key) {
            Some(JsonView::Array(items)) => if items.len() > 0 {
                Some(items[0])
            } else {
                None
            },
            _ => None,
        }
    }

    /// The value of a member that is a truth value.
    pub open spec fn bool_at(self, key: Seq<char>) -> Option<bool> {
        match self.get(key) {
            Some(value) => value.as_bool(),
            None => None,
        }
    }

    /// The value of a member that is a non-negative integer.
    pub open spec fn unsigned_at(self, key: Seq<char>) -> Option<u64> {
        match self.get(key) {
            Some(value) => value.as_unsigned(),
            None => None,
        }
    }

    /// The empty object.
    pub open spec fn object() -> JsonView {
        JsonView::Object(Seq::empty())
    }

    /// The object with one more member at its end; another kind of document
    /// stays.
    pub open spec fn member(self, key: Seq<char>, value: JsonView) -> JsonView {
        match self {
            JsonView::Object(members) => JsonView::Object(members.push((key, value))),
            _ => self,
        }
    }

    /// The object without one member; another kind of document stays.
    pub open spec fn without(self, key: Seq<char>) -> JsonView {
        match self {
            JsonView::Object(members) => JsonView::Object(crate::table::without(members, key)),
            _ => self,
        }
    }

    /// The object with one member set, unless it has that member; another kind
    /// of document stays.
    pub open spec fn with_default(self, key: Seq<char>, value: JsonView) -> JsonView {
        if self.get(key) is Some {
            self
        } else {
            self.with(key, value)
        }
    }

    /// The object with one member set; another kind of document stays.
    pub open spec fn with(self, key: Seq<char>, value: JsonView) -> JsonView {
        match self {
            JsonView::Object(members) => JsonView::Object(crate::table::put(members, key, value)),
            _ => self,
        }
    }

    /// The document with one member set: nothing counts as the empty object, and
    /// another kind of document stays.
    pub open spec fn assigned(self, key: Seq<char>, value: JsonView) -> JsonView {
        match self {
            JsonView::Null => JsonView::object().with(key, value),
            _ => self.with(key, value),
        }
    }
}

impl JsonNumber {

    /// The two numbers are equal.
    pub fn same(&self, other: &JsonNumber) -> (r: bool)
        ensures
            r == same_number(self@, other@),
    {
        let a = self.text.as_str();
        let b = other.text.as_str();
        self.unsigned == other.unsigned && self.signed == other.signed && (self.unsigned.is_some()
            || self.signed.is_some() || text::same(a, b) || ((text::same(a, "0.0") || text::same(
            a,
            "-0.0",
        )) && (text::same(b, "0.0") || text::same(b, "-0.0"))))
    }

    /// The number `n`.
    pub fn from_unsigned(n: u64) -> (r: JsonNumber)
        ensures
            r@ == number(n),
    {
        let signed: Option<i64> = if n <= 0x7fff_ffff_ffff_ffff {
            Some(n as i64)
        } else {
            None
        };
        JsonNumber { text: text::decimal_text(n), unsigned: Some(n), signed }
    }
}

/// Two numbers are equal: integers by their value, and floating-point numbers
/// too, of which each but zero is written in one way alone. An integer is no
/// floating-point number.
pub open spec fn same_number(a: NumberView, b: NumberView) -> bool {
    &&& a.unsigned == b.unsigned
    &&& a.signed == b.signed
    &&& a.unsigned is Some || a.signed is Some || a.text == b.text || is_zero(a.text) && is_zero(
        b.text,
    )
}

/// The floating-point number is zero, of either sign.
pub open spec fn is_zero(text: Seq<char>) -> bool {
    text == "0.0"@ || text == "-0.0"@
}

/// Two documents say the same: the members of an object stand in any order.
pub open spec fn same_document(a: JsonView, b: JsonView) -> bool
    decreases a, 1int,
{
    match (a, b) {
        (JsonView::Null, JsonView::Null) => true,
        (JsonView::Bool(x), JsonView::Bool(y)) => x == y,
        (JsonView::Number(x), JsonView::Number(y)) => same_number(x, y),
        (JsonView::Text(x), JsonView::Text(y)) => x == y,
        (JsonView::Array(x), JsonView::Array(y)) => x.len() == y.len() && forall|i: int|
            0 <= i < x.len() ==> same_document(#[trigger] x[i], y[i]),
        (JsonView::Object(x), JsonView::Object(y)) => x.len() == y.len() && forall|i: int|
            0 <= i < x.len() ==> same_member(#[trigger] x[i], y),
        _ => false,
    }
}

/// The members hold one of that name that says the same.
pub open spec fn same_member(
    member: (Seq<char>, JsonView),
    members: Seq<(Seq<char>, JsonView)>,
) -> bool
    decreases member, 0int,
{
    match crate::table::find(members, member.0) {
        Some(value) => same_document(member.1, value),
        None => false,
    }
}

/// No object in the document has two members of one name.
pub open spec fn names_once(a: JsonView) -> bool
    decreases a,
{
    match a {
        JsonView::Array(items) => forall|i: int|
            0 <= i < items.len() ==> names_once(#[trigger] items[i]),
        JsonView::Object(members) => crate::table::unique(members) && forall|i: int|
            0 <= i < members.len() ==> names_once((#[trigger] members[i]).1),
        _ => true,
    }
}

/// A document says the same as itself.
pub proof fn lemma_same_as_itself(a: JsonView)
    requires
        names_once(a),
    ensures
        same_document(a, a),
    decreases a,
{
    match a {
        JsonView::Array(items) => {
            assert forall|i: int| 0 <= i < items.len() implies same_document(
                #[trigger] items[i],
                items[i],
            ) by {
                lemma_same_as_itself(items[i]);
            }
        },
        JsonView::Object(members) => {
            assert forall|i: int| 0 <= i < members.len() implies same_member(
                #[trigger] members[i],
                members,
            ) by {
                crate::table::lemma_find_at(members, i);
                lemma_same_as_itself(members[i].1);
            }
        },
        _ => {},
    }
}

/// The model of the integer `n`.
pub open spec fn number(n: u64) -> NumberView {
    NumberView {
        text: text::decimal(n as nat),
        unsigned: Some(n),
        signed: if n <= i64::MAX {
            Some(n as i64)
        } else {
            None
        },
    }
}

impl Json {
    /// A copy.
    pub fn dup(&self) -> (r: Json)
        ensures
            r@ == self@,
        decreases self,
    {
        match self {
            Json::Null => Json::Null,
            Json::Bool(b) => Json::Bool(*b),
            Json::Number(n) => Json::Number(n.clone()),
            Json::Text(s) => Json::Text(s.clone()),
            Json::Array(items) => {
                let mut copy: Vec<Json> = Vec::new();
                let mut i: usize = 0;
                while i < items.len()
                    invariant
                        i <= items.len(),
                        copy.len() == i,
                        *self == Json::Array(*items),
                        forall|j: int| 0 <= j < i ==> model(#[trigger] copy@[j]) == model(items@[j]),
                    decreases items.len() - i,
                {
                    assert(decreases_to!(items@ => items@[i as int]));
                    assert(decreases_to!(*self => self->Array_0));
                    assert(decreases_to!(*items => items@));
                    let item = items[i].dup();
                    copy.push(item);
                    i = i + 1;
                }
                let r = Json::Array(copy);
                assert(r@->Array_0 =~= self@->Array_0);
                r
            },
            Json::Object(members) => {
                let mut copy: Vec<(String, Json)> = Vec::new();
                let mut i: usize = 0;
                while i < members.len()
                    invariant
                        i <= members.len(),
                        copy.len() == i,
                        *self == Json::Object(*members),
                        forall|j: int|
                            0 <= j < i ==> (#[trigger] copy@[j]).0@ == members@[j].0@ && model(
                                copy@[j].1,
                            ) == model(members@[j].1),
                    decreases members.len() - i,
                {
                    assert(decreases_to!(members@[i as int] => members@[i as int].1));
                    assert(decreases_to!(members@ => members@[i as int]));
                    assert(decreases_to!(*self => self->Object_0));
                    assert(decreases_to!(*members => members@));
                    let item = members[i].1.dup();
                    copy.push((members[i].0.clone(), item));
                    i = i + 1;
                }
                let r = Json::Object(copy);
                assert(r@->Object_0 =~= self@->Object_0);
                r
            },
        }
    }

    /// The two documents say the same.
    pub fn same(&self, other: &Json) -> (r: bool)
        ensures
            r == same_document(self@, other@),
        decreases self,
    {
        match (self, other) {
            (Json::Null, Json::Null) => true,
            (Json::Bool(a), Json::Bool(b)) => *a == *b,
            (Json::Number(a), Json::Number(b)) => a.same(b),
            (Json::Text(a), Json::Text(b)) => text::same(a.as_str(), b.as_str()),
            (Json::Array(a), Json::Array(b)) => {
                let ghost x = self@->Array_0;
                let ghost y = other@->Array_0;
                if a.len() != b.len() {
                    return false;
                }
                let mut i: usize = 0;
                while i < a.len()
                    invariant
                        i <= a.len(),
                        a.len() == b.len(),
                        *self == Json::Array(*a),
                        *other == Json::Array(*b),
                        x == self@->Array_0,
                        y == other@->Array_0,
                        forall|j: int| 0 <= j < i ==> same_document(#[trigger] x[j], y[j]),
                    decreases a.len() - i,
                {
                    assert(decreases_to!(a@ => a@[i as int]));
                    assert(decreases_to!(*self => self->Array_0));
                    assert(decreases_to!(*a => a@));
                    assert(x[i as int] == a@[i as int]@ && y[i as int] == b@[i as int]@);
                    if !a[i].same(&b[i]) {
                        assert(!same_document(x[i as int], y[i as int]));
                        return false;
                    }
                    i = i + 1;
                }
                true
            },
            (Json::Object(a), Json::Object(b)) => {
                let ghost x = self@->Object_0;
                let ghost y = other@->Object_0;
                if a.len() != b.len() {
                    return false;
                }
                let mut i: usize = 0;
                while i < a.len()
                    invariant
                        i <= a.len(),
                        a.len() == b.len(),
                        *self == Json::Object(*a),
                        *other == Json::Object(*b),
                        x == self@->Object_0,
                        y == other@->Object_0,
                        forall|j: int| 0 <= j < i ==> same_member(#[trigger] x[j], y),
                    decreases a.len() - i,
                {
                    assert(decreases_to!(a@[i as int] => a@[i as int].1));
                    assert(decreases_to!(a@ => a@[i as int]));
                    assert(decreases_to!(*self => self->Object_0));
                    assert(decreases_to!(*a => a@));
                    assert(x[i as int] == (a@[i as int].0@, a@[i as int].1@));
                    let found = match other.get(a[i].0.as_str()) {
                        Some(value) => a[i].1.same(value),
                        None => false,
                    };
                    if !found {
                        assert(!same_member(x[i as int], y));
                        return false;
                    }
                    i = i + 1;
                }
                true
            },
            _ => false,
        }
    }

    /// The value of a member, where the document is an object that has it.
    pub fn get(&self, key: &str) -> (r: Option<&Json>)
        ensures
            match r {
                Some(value) => self@.get(key@) == Some(value@),
                None => self@.get(key@) is None,
            },
    {
        match self {
            Json::Object(members) => {
                let mut i: usize = 0;
                let ghost all = self@->Object_0;
                assert(all.subrange(0, all.len() as int) =~= all);
                while i < members.len()
                    invariant
                        i <= members.len(),
                        *self == Json::Object(*members),
                        all == self@->Object_0,
                        crate::table::find(all, key@) == crate::table::find(all.subrange(i as int, all.len() as int), key@),
                    decreases members.len() - i,
                {
                    assert(all[i as int] == (members@[i as int].0@, members@[i as int].1@));
                    if text::same(members[i].0.as_str(), key) {
                        return Some(&members[i].1);
                    }
                    assert(all.subrange(i as int, all.len() as int).subrange(1, all.len() - i)
                        =~= all.subrange(i + 1, all.len() as int));
                    i = i + 1;
                }
                None
            },
            _ => None,
        }
    }

    /// The text, where the document is a string.
    pub fn as_str(&self) -> (r: Option<&str>)
        ensures
            match r {
                Some(s) => self@.as_text() == Some(s@),
                None => self@.as_text() is None,
            },
    {
        match self {
            Json::Text(s) => Some(s.as_str()),
            _ => None,
        }
    }

    /// The truth value, where the document is one.
    pub fn as_bool(&self) -> (r: Option<bool>)
        ensures
            r == self@.as_bool(),
    {
        match self {
            Json::Bool(b) => Some(*b),
            _ => None,
        }
    }

    /// The value, where the document is a non-negative integer.
    pub fn as_u64(&self) -> (r: Option<u64>)
        ensures
            r == self@.as_unsigned(),
    {
        match self {
            Json::Number(n) => n.unsigned,
            _ => None,
        }
    }

    /// The value, where the document is an integer of 64 bits.
    pub fn as_i64(&self) -> (r: Option<i64>)
        ensures
            r == self@.as_signed(),
    {
        match self {
            Json::Number(n) => n.signed,
            _ => None,
        }
    }

    /// The number, where the document is one.
    pub fn as_number(&self) -> (r: Option<JsonNumber>)
        ensures
            match r {
                Some(n) => self@.as_number() == Some(n@),
                None => self@.as_number() is None,
            },
    {
        match self {
            Json::Number(n) => Some(n.clone()),
            _ => None,
        }
    }

    /// The elements, where the document is an array.
    pub fn as_array(&self) -> (r: Option<&Vec<Json>>)
        ensures
            match r {
                Some(items) => {
                    &&& *self == Json::Array(*items)
                    &&& self@.as_array() == Some(Seq::new(items@.len(), |i: int| items@[i]@))
                },
                None => self@.as_array() is None,
            },
    {
        match self {
            Json::Array(items) => {
                assert(self@->Array_0 =~= Seq::new(items@.len(), |i: int| items@[i]@));
                Some(items)
            },
            _ => None,
        }
    }

    /// The text of a member that is a string.
    pub fn str_at(&self, key: &str) -> (r: Option<&str>)
        ensures
            match r {
                Some(s) => self@.text_at(key@) == Some(s@),
                None => self@.text_at(key@) is None,
            },
    {
        match self.get(key) {
            Some(value) => value.as_str(),
            None => None,
        }
    }

    /// The text of a member without the white space around it, where anything
    /// is left.
    pub fn trimmed_at(&self, key: &str) -> (r: Option<&str>)
        ensures
            match r {
                Some(s) => self@.trimmed_at(key@) == Some(s@),
                None => self@.trimmed_at(key@) is None,
            },
    {
        match self.str_at(key) {
            Some(s) => {
                let trimmed = text::trimmed(s);
                if trimmed.is_empty() {
                    None
                } else {
                    Some(trimmed)
                }
            },
            None => None,
        }
    }

    /// The first element of a member that is an array.
    pub fn first_at(&self, key: &str) -> (r: Option<&Json>)
        ensures
            match r {
                Some(value) => self@.first_at(key@) == Some(value@),
                None => self@.first_at(key@) is None,
            },
    {
        match self.get(key) {
            Some(Json::Array(items)) => {
                if items.len() > 0 {
                    Some(&items[0])
                } else {
                    None
                }
            },
            _ => None,
        }
    }

    /// The value of a member that is a truth value.
    pub fn bool_at(&self, key: &str) -> (r: Option<bool>)
        ensures
            r == self@.bool_at(key@),
    {
        match self.get(key) {
            Some(value) => value.as_bool(),
            None => None,
        }
    }

    /// The value of a member that is a non-negative integer.
    pub fn u64_at(&self, key: &str) -> (r: Option<u64>)
        ensures
            r == self@.unsigned_at(key@),
    {
        match self.get(key) {
            Some(value) => value.as_u64(),
            None => None,
        }
    }

    /// The string `s`.
    pub fn text(s: &str) -> (r: Json)
        ensures
            r@ == JsonView::Text(s@),
    {
        Json::Text(s.to_owned())
    }

    /// The string, or null where there is none.
    pub fn text_or_null(s: &Option<String>) -> (r: Json)
        ensures
            r@ == opt_text_json(text::opt_view(*s)),
    {
        match s {
            Some(v) => Json::Text(v.clone()),
            None => Json::Null,
        }
    }

    /// The integer `n`.
    pub fn unsigned(n: u64) -> (r: Json)
        ensures
            r@ == JsonView::Number(number(n)),
    {
        Json::Number(JsonNumber::from_unsigned(n))
    }

    /// The empty object.
    pub fn object() -> (r: Json)
        ensures
            r@ == JsonView::object(),
    {
        let r = Json::Object(Vec::new());
        assert(r@->Object_0 =~= Seq::empty());
        r
    }

    /// The object with one more member at its end; another kind of document
    /// stays.
    pub fn member(self, key: &str, value: Json) -> (r: Json)
        ensures
            r@ == self@.member(key@, value@),
    {
        let ghost before = self@->Object_0;
        match self {
            Json::Object(members) => {
                let mut members = members;
                members.push((key.to_owned(), value));
                let r = Json::Object(members);
                assert(r@->Object_0 =~= before.push((key@, value@)));
                r
            },
            other => other,
        }
    }

    /// The array of these documents.
    pub fn array(items: Vec<Json>) -> (r: Json)
        ensures
            r@ == JsonView::Array(Seq::new(items@.len(), |i: int| items@[i]@)),
    {
        let ghost before = Seq::new(items@.len(), |i: int| items@[i]@);
        let r = Json::Array(items);
        assert(r@->Array_0 =~= before);
        r
    }

    /// The array of these strings.
    pub fn texts(items: &Vec<String>) -> (r: Json)
        ensures
            r@ == texts_json(text::views(items@)),
    {
        let mut copy: Vec<Json> = Vec::new();
        let mut i: usize = 0;
        while i < items.len()
            invariant
                i <= items.len(),
                copy.len() == i,
                forall|j: int| 0 <= j < i ==> model(#[trigger] copy@[j]) == JsonView::Text(items@[j]@),
            decreases items.len() - i,
        {
            copy.push(Json::Text(items[i].clone()));
            i = i + 1;
        }
        let r = Json::Array(copy);
        assert(r@->Array_0 =~= texts_json(text::views(items@))->Array_0);
        r
    }

    /// The object with one member set; another kind of document stays.
    pub fn with(self, key: &str, value: Json) -> (r: Json)
        ensures
            r@ == self@.with(key@, value@),
    {
        let ghost all = self@->Object_0;
        let ghost before = self;
        match self {
            Json::Object(members) => {
                let mut members = members;
                let ghost given = members@;
                let mut i: usize = 0;
                assert(all.subrange(0, all.len() as int) =~= all);
                assert(crate::table::put(all, key@, value@) =~= all.subrange(0, 0) + crate::table::put(all, key@, value@));
                while i < members.len() && !text::same(members[i].0.as_str(), key)
                    invariant
                        i <= members.len(),
                        members@ == given,
                        all.len() == given.len(),
                        forall|j: int|
                            0 <= j < given.len() ==> #[trigger] all[j] == (
                                given[j].0@,
                                model(given[j].1),
                            ),
                        crate::table::put(all, key@, value@) == all.subrange(0, i as int) + crate::table::put(
                            all.subrange(i as int, all.len() as int),
                            key@,
                            value@,
                        ),
                    decreases members.len() - i,
                {
                    let ghost rest = all.subrange(i as int, all.len() as int);
                    assert(rest[0] == all[i as int]);
                    assert(rest.subrange(1, rest.len() as int) =~= all.subrange(
                        i + 1,
                        all.len() as int,
                    ));
                    assert(all.subrange(0, i as int) + crate::table::put(rest, key@, value@) =~= all.subrange(
                        0,
                        i + 1,
                    ) + crate::table::put(all.subrange(i + 1, all.len() as int), key@, value@));
                    i = i + 1;
                }
                let ghost rest = all.subrange(i as int, all.len() as int);
                if i < members.len() {
                    assert(rest[0] == all[i as int]);
                    assert(rest.subrange(1, rest.len() as int) =~= all.subrange(
                        i + 1,
                        all.len() as int,
                    ));
                    members.set(i, (key.to_owned(), value));
                } else {
                    members.push((key.to_owned(), value));
                }
                let r = Json::Object(members);
                assert(r@->Object_0 =~= crate::table::put(all, key@, value@));
                r
            },
            other => other,
        }
    }

    /// The object with one member set, unless it has that member; another kind
    /// of document stays.
    pub fn with_default(self, key: &str, value: Json) -> (r: Json)
        ensures
            r@ == self@.with_default(key@, value@),
    {
        if self.get(key).is_some() {
            self
        } else {
            self.with(key, value)
        }
    }

    /// The document with one member set: nothing counts as the empty object, and
    /// another kind of document stays.
    pub fn assigned(self, key: &str, value: Json) -> (r: Json)
        ensures
            r@ == self@.assigned(key@, value@),
    {
        match self {
            Json::Null => Json::object().with(key, value),
            other => other.with(key, value),
        }
    }

    /// The object without one member; another kind of document stays.
    pub fn without(self, key: &str) -> (r: Json)
        ensures
            r@ == self@.without(key@),
    {
        let ghost all = self@->Object_0;
        match self {
            Json::Object(members) => {
                let mut members = members;
                let ghost given = members@;
                let mut i: usize = 0;
                while i < members.len() && !text::same(members[i].0.as_str(), key)
                    invariant
                        i <= members.len(),
                        members@ == given,
                        all.len() == given.len(),
                        forall|j: int|
                            0 <= j < given.len() ==> #[trigger] all[j] == (
                                given[j].0@,
                                model(given[j].1),
                            ),
                        forall|j: int| 0 <= j < i ==> (#[trigger] all[j]).0 != key@,
                    decreases members.len() - i,
                {
                    assert(all[i as int].0 == given[i as int].0@);
                    i = i + 1;
                }
                proof {
                    crate::table::lemma_position(all, key@, i as int);
                }
                if i < members.len() {
                    members.remove(i);
                }
                let r = Json::Object(members);
                assert(r@->Object_0 =~= crate::table::without(all, key@));
                r
            },
            other => other,
        }
    }

    /// Sets one member of an object; another kind of document stays.
    pub fn set(&mut self, key: &str, value: Json)
        ensures
            final(self)@ == old(self)@.with(key@, value@),
    {
        let mut whole = Json::Null;
        std::mem::swap(self, &mut whole);
        *self = whole.with(key, value);
    }
}

/// The string, or null where there is none.
pub open spec fn opt_text_json(s: Option<Seq<char>>) -> JsonView {
    match s {
        Some(v) => JsonView::Text(v),
        None => JsonView::Null,
    }
}

/// The array of these strings.
pub open spec fn texts_json(items: Seq<Seq<char>>) -> JsonView {
    JsonView::Array(Seq::new(items.len(), |i: int| JsonView::Text(items[i])))
}

/// What an object says of a name after one more member: as before, where it
/// had the name.
pub broadcast proof fn lemma_get_member(
    document: JsonView,
    key: Seq<char>,
    value: JsonView,
    name: Seq<char>,
)
    requires
        document is Object,
    ensures
        #[trigger] document.member(key, value).get(name) == (match document.get(name) {
            Some(found) => Some(found),
            None => if key == name {
                Some(value)
            } else {
                None
            },
        }),
{
    crate::table::lemma_find_push(document->Object_0, key, value, name);
}

/// The empty object has no member.
pub broadcast proof fn lemma_get_nothing(name: Seq<char>)
    ensures
        #[trigger] JsonView::object().get(name) is None,
{
}

/// What an object says of a name after a member was set.
pub broadcast proof fn lemma_get_with(
    document: JsonView,
    key: Seq<char>,
    value: JsonView,
    name: Seq<char>,
)
    requires
        document is Object,
    ensures
        #[trigger] document.with(key, value).get(name) == (if key == name {
            Some(value)
        } else {
            document.get(name)
        }),
{
    crate::table::lemma_find_put(document->Object_0, key, value);
}

/// What an object says of a name after a member got a default.
pub broadcast proof fn lemma_get_default(
    document: JsonView,
    key: Seq<char>,
    value: JsonView,
    name: Seq<char>,
)
    requires
        document is Object,
    ensures
        #[trigger] document.with_default(key, value).get(name) == (match document.get(name) {
            Some(found) => Some(found),
            None => if key == name {
                Some(value)
            } else {
                None
            },
        }),
{
    crate::table::lemma_find_put(document->Object_0, key, value);
}

/// What an object says of other names after a member was taken out.
pub broadcast proof fn lemma_get_without(document: JsonView, key: Seq<char>, name: Seq<char>)
    requires
        document is Object,
        name != key,
    ensures
        #[trigger] document.without(key).get(name) == document.get(name),
{
    crate::table::lemma_find_other(document->Object_0, key, name);
}

pub broadcast group group_members {
    lemma_get_member,
    lemma_get_nothing,
    lemma_get_with,
    lemma_get_default,
    lemma_get_without,
}

} // verus!
