//! JSON documents as the library reads them, and the decoding of JSON values
//! into typed values.

use vstd::prelude::*;
use crate::text::str_eq;

verus! {

/// A JSON value. Numbers keep their text, so that nothing is lost to binary
/// floating point. Object members stay in the order the parser hands them
/// over: serde_json's map sorts them by name and keeps the last of members
/// that share a name.
#[derive(Debug, PartialEq)]
pub enum JsonValue {
    Null,
    Bool(bool),
    Number(String),
    Str(String),
    Array(Vec<JsonValue>),
    Object(Vec<(String, JsonValue)>),
}

impl DeepView for JsonValue {
    type V = JsonValue;

    open spec fn deep_view(&self) -> JsonValue {
        *self
    }
}

/// serde_json's JSON tree, which the parser produces before it is rebuilt as
/// a `JsonValue`.
#[verifier::external_type_specification]
#[verifier::external_body]
pub struct ExValue(serde_json::Value);

/// The JSON document that a text holds, or `None` when it is not one
/// (as serde_json reads it).
pub uninterp spec fn json_of(text: Seq<char>) -> Option<JsonValue>;

/// Relies on `serde_json::from_str` (into `serde_json::Value`): it parses the
/// whole text as one JSON document, and fails on anything else.
#[verifier::external_body]
pub(crate) fn parse_json(text: &str) -> (r: Option<JsonValue>)
    ensures
        r == json_of(text@),
{
    serde_json::from_str::<serde_json::Value>(text).ok().map(from_serde)
}

/// Rebuilds a `serde_json::Value` node for node as a `JsonValue`; numbers
/// become their text (serde_json's `Display` of `Number`).
#[verifier::external_body]
fn from_serde(v: serde_json::Value) -> JsonValue {
    match v {
        serde_json::Value::Null => JsonValue::Null,
        serde_json::Value::Bool(b) => JsonValue::Bool(b),
        serde_json::Value::Number(n) => JsonValue::Number(n.to_string()),
        serde_json::Value::String(s) => JsonValue::Str(s),
        serde_json::Value::Array(a) => JsonValue::Array(a.into_iter().map(from_serde).collect()),
        serde_json::Value::Object(m) => JsonValue::Object(
            m.into_iter().map(|(k, x)| (k, from_serde(x))).collect(),
        ),
    }
}

/// A type whose values can be read from JSON values.
pub trait FromJson: Sized + DeepView {
    /// What `j` reads as, or `None` when `j` does not have this type's shape.
    spec fn json_model(j: JsonValue) -> Option<Self::V>;

    /// Reads a value from `j`.
    fn from_json(j: JsonValue) -> (r: Option<Self>)
        ensures
            match Self::json_model(j) {
                Some(m) => r matches Some(v) && v.deep_view() == m,
                None => r is None,
            },
    ;
}

impl FromJson for JsonValue {
    /// Any JSON value reads as itself.
    open spec fn json_model(j: JsonValue) -> Option<JsonValue> {
        Some(j)
    }

    fn from_json(j: JsonValue) -> (r: Option<JsonValue>) {
        Some(j)
    }
}

impl FromJson for String {
    /// A JSON string reads as its characters.
    open spec fn json_model(j: JsonValue) -> Option<Seq<char>> {
        match j {
            JsonValue::Str(s) => Some(s@),
            _ => None,
        }
    }

    fn from_json(j: JsonValue) -> (r: Option<String>) {
        match j {
            JsonValue::Str(s) => Some(s),
            _ => None,
        }
    }
}

/// The value of a decimal digit character, if it is one.
pub open spec fn digit_value(c: char) -> Option<int> {
    let u = c as u32;
    if 48 <= u <= 57 {
        Some(u - 48)
    } else {
        None
    }
}

/// Whether every character of `s` is a decimal digit.
pub open spec fn all_digits(s: Seq<char>) -> bool {
    forall|i: int| 0 <= i < s.len() ==> digit_value(#[trigger] s[i]) is Some
}

/// The number that a sequence of decimal digits denotes.
pub open spec fn digits_value(s: Seq<char>) -> int
    decreases s.len(),
{
    if s.len() == 0 {
        0
    } else {
        digits_value(s.drop_last()) * 10 + digit_value(s.last())->0
    }
}

/// The integer that a JSON number's text denotes when it is an integer
/// (digits, with an optional leading `-`), else `None`.
pub open spec fn integer_of_text(t: Seq<char>) -> Option<int> {
    if t.len() > 0 && t[0] == '-' {
        let d = t.drop_first();
        if d.len() > 0 && all_digits(d) {
            Some(-digits_value(d))
        } else {
            None
        }
    } else if t.len() > 0 && all_digits(t) {
        Some(digits_value(t))
    } else {
        None
    }
}

impl FromJson for i32 {
    /// A JSON number reads as an `i32` when it is an integer in range.
    open spec fn json_model(j: JsonValue) -> Option<i32> {
        match j {
            JsonValue::Number(t) => match integer_of_text(t@) {
                Some(n) => if i32::MIN <= n <= i32::MAX {
                    Some(n as i32)
                } else {
                    None
                },
                None => None,
            },
            _ => None,
        }
    }

    fn from_json(j: JsonValue) -> (r: Option<i32>) {
        match j {
            JsonValue::Number(t) => parse_i32(t.as_str()),
            _ => None,
        }
    }
}

/// Reads an `i32` from the text of a JSON number.
pub fn parse_i32(t: &str) -> (r: Option<i32>)
    ensures
        r == (match integer_of_text(t@) {
            Some(n) => if i32::MIN <= n <= i32::MAX {
                Some(n as i32)
            } else {
                None
            },
            None => None,
        }),
{
    let n = t.unicode_len();
    if n == 0 {
        return None;
    }
    let negative = t.get_char(0) == '-';
    let start: usize = if negative { 1 } else { 0 };
    if start == n {
        return None;
    }
    let ghost d = t@.skip(start as int);
    proof {
        if negative {
            assert(d =~= t@.drop_first());
        } else {
            assert(d =~= t@);
        }
        assert(t@.subrange(start as int, start as int) =~= Seq::<char>::empty());
    }
    // magnitude of the digits read so far, while it stays within 2^31
    let mut acc: i64 = 0;
    let mut i: usize = start;
    while i < n
        invariant
            n == t@.len(),
            start <= i <= n,
            start < n,
            negative == (t@[0] == '-'),
            start == (if negative { 1usize } else { 0usize }),
            d == t@.skip(start as int),
            negative ==> d == t@.drop_first(),
            !negative ==> d == t@,
            all_digits(t@.subrange(start as int, i as int)),
            acc == digits_value(t@.subrange(start as int, i as int)),
            0 <= acc <= 0x8000_0000,
        decreases n - i,
    {
        let c = t.get_char(i);
        let u = c as u32;
        if u < 48 || u > 57 {
            assert(!all_digits(d)) by {
                assert(d[i - start] == c);
            }
            return None;
        }
        let next = acc * 10 + (u - 48) as i64;
        assert(t@.subrange(start as int, i + 1).drop_last() =~= t@.subrange(start as int, i as int));
        assert(all_digits(t@.subrange(start as int, i + 1)));
        if next > 0x8000_0000 {
            proof {
                if all_digits(d) {
                    assert(d.take(i + 1 - start) =~= t@.subrange(start as int, i + 1));
                    lemma_digits_value_grows(d, (i + 1 - start) as int);
                }
            }
            return None;
        }
        acc = next;
        i = i + 1;
    }
    assert(t@.subrange(start as int, n as int) =~= d);
    if negative {
        assert(d =~= t@.drop_first());
        Some((-acc) as i32)
    } else {
        assert(d =~= t@);
        if acc > 0x7fff_ffff {
            None
        } else {
            Some(acc as i32)
        }
    }
}

/// The value of a digit sequence is at least that of any prefix.
pub proof fn lemma_digits_value_grows(s: Seq<char>, k: int)
    requires
        all_digits(s),
        0 <= k <= s.len(),
    ensures
        digits_value(s.take(k)) <= digits_value(s),
    decreases s.len(),
{
    if k < s.len() {
        assert(s.drop_last().take(k) =~= s.take(k));
        assert(all_digits(s.drop_last()));
        lemma_digits_value_grows(s.drop_last(), k);
        assert(digits_value(s.drop_last()) >= 0) by {
            lemma_digits_value_nonneg(s.drop_last());
        }
    } else {
        assert(s.take(k) =~= s);
    }
}

/// The value of a digit sequence is never negative.
pub proof fn lemma_digits_value_nonneg(s: Seq<char>)
    requires
        all_digits(s),
    ensures
        digits_value(s) >= 0,
    decreases s.len(),
{
    if s.len() > 0 {
        assert(all_digits(s.drop_last()));
        lemma_digits_value_nonneg(s.drop_last());
    }
}

impl<T: FromJson> FromJson for Vec<T> {
    /// A JSON array reads as a list when each of its elements reads as a `T`.
    open spec fn json_model(j: JsonValue) -> Option<Seq<T::V>> {
        match j {
            JsonValue::Array(items) => if forall|i: int|
                0 <= i < items@.len() ==> (#[trigger] T::json_model(items@[i])) is Some {
                Some(Seq::new(items@.len(), |i: int| T::json_model(items@[i])->0))
            } else {
                None
            },
            _ => None,
        }
    }

    fn from_json(j: JsonValue) -> (r: Option<Vec<T>>) {
        let ghost jv = j;
        match j {
            JsonValue::Array(items) => {
                let mut items = items;
                let ghost orig = items@;
                assert(jv->Array_0@ == orig);
                let mut out: Vec<T> = Vec::new();
                assert(items@ =~= orig.skip(0));
                while items.len() > 0
                    invariant
                        jv == j,
                        jv->Array_0@ == orig,
                        jv is Array,
                        out@.len() <= orig.len(),
                        items@ == orig.skip(out@.len() as int),
                        forall|i: int|
                            0 <= i < out@.len() ==> T::json_model(orig[i]) == Some(
                                #[trigger] out@[i].deep_view(),
                            ),
                    decreases items.len(),
                {
                    let ghost k = out@.len() as int;
                    let x = items.remove(0);
                    assert(x == orig[k]);
                    match T::from_json(x) {
                        Some(v) => {
                            out.push(v);
                            assert(items@ =~= orig.skip(out@.len() as int));
                        },
                        None => {
                            assert(T::json_model(orig[k]) is None);
                            return None;
                        },
                    }
                }
                assert(out@.len() == orig.len());
                assert forall|i: int| 0 <= i < orig.len() implies (#[trigger] T::json_model(
                    orig[i],
                )) is Some by {
                    assert(T::json_model(orig[i]) == Some(out@[i].deep_view()));
                }
                assert(out.deep_view() =~= Seq::new(orig.len(), |i: int| T::json_model(orig[i])->0));
                Some(out)
            },
            _ => None,
        }
    }
}

/// The value of the first member of an object named `key`.
pub open spec fn field_of(fields: Seq<(String, JsonValue)>, key: Seq<char>) -> Option<JsonValue>
    decreases fields.len(),
{
    if fields.len() == 0 {
        None
    } else if fields[0].0@ == key {
        Some(fields[0].1)
    } else {
        field_of(fields.drop_first(), key)
    }
}

/// Removing a member named otherwise leaves what a name finds unchanged.
pub proof fn lemma_field_of_remove(s: Seq<(String, JsonValue)>, i: int, k: Seq<char>)
    requires
        0 <= i < s.len(),
        s[i].0@ != k,
    ensures
        field_of(s.remove(i), k) == field_of(s, k),
    decreases s.len(),
{
    if i == 0 {
        assert(s.remove(0) =~= s.drop_first());
    } else if s[0].0@ != k {
        assert(s.remove(i).drop_first() =~= s.drop_first().remove(i - 1));
        lemma_field_of_remove(s.drop_first(), i - 1, k);
    }
}

/// Takes the first member named `key` out of an object's members.
pub fn take_field(fields: &mut Vec<(String, JsonValue)>, key: &str) -> (r: Option<JsonValue>)
    ensures
        r == field_of(old(fields)@, key@),
        forall|k: Seq<char>| k != key@ ==> field_of(final(fields)@, k) == field_of(old(fields)@, k),
{
    let n = fields.len();
    let mut i: usize = 0;
    assert(fields@.skip(0) =~= fields@);
    while i < n
        invariant
            n == fields@.len(),
            fields@ == old(fields)@,
            i <= n,
            forall|j: int| 0 <= j < i ==> fields@[j].0@ != key@,
            field_of(fields@, key@) == field_of(fields@.skip(i as int), key@),
        decreases n - i,
    {
        if str_eq(fields[i].0.as_str(), key) {
            let ghost s = fields@;
            let (_, v) = fields.remove(i);
            proof {
                assert forall|k: Seq<char>| k != key@ implies field_of(fields@, k) == field_of(
                    s,
                    k,
                ) by {
                    lemma_field_of_remove(s, i as int, k);
                }
            }
            return Some(v);
        }
        assert(fields@.skip(i as int).drop_first() =~= fields@.skip(i + 1));
        i = i + 1;
    }
    None
}

/// A required member: absent, or of the wrong shape, fails.
pub open spec fn required_model<T: FromJson>(fields: Seq<(String, JsonValue)>, key: Seq<char>) -> Option<
    T::V,
> {
    match field_of(fields, key) {
        Some(j) => T::json_model(j),
        None => None,
    }
}

/// A string member that reads as empty when absent.
pub open spec fn text_or_empty_model(fields: Seq<(String, JsonValue)>, key: Seq<char>) -> Option<
    Seq<char>,
> {
    match field_of(fields, key) {
        Some(j) => String::json_model(j),
        None => Some(Seq::empty()),
    }
}

/// An integer member that reads as zero when absent.
pub open spec fn int_or_zero_model(fields: Seq<(String, JsonValue)>, key: Seq<char>) -> Option<i32> {
    match field_of(fields, key) {
        Some(j) => i32::json_model(j),
        None => Some(0),
    }
}

/// A member of any shape, which reads as null when absent.
pub open spec fn json_or_null(fields: Seq<(String, JsonValue)>, key: Seq<char>) -> JsonValue {
    match field_of(fields, key) {
        Some(j) => j,
        None => JsonValue::Null,
    }
}

/// Reads the required member `key` as a `T`.
pub fn take_required<T: FromJson>(fields: &mut Vec<(String, JsonValue)>, key: &str) -> (r: Option<T>)
    ensures
        match required_model::<T>(old(fields)@, key@) {
            Some(m) => r matches Some(v) && v.deep_view() == m,
            None => r is None,
        },
        forall|k: Seq<char>| k != key@ ==> field_of(final(fields)@, k) == field_of(old(fields)@, k),
{
    match take_field(fields, key) {
        Some(j) => T::from_json(j),
        None => None,
    }
}

/// Reads the string member `key`, empty when absent.
pub fn take_text_or_empty(fields: &mut Vec<(String, JsonValue)>, key: &str) -> (r: Option<String>)
    ensures
        match text_or_empty_model(old(fields)@, key@) {
            Some(m) => r matches Some(v) && v@ == m,
            None => r is None,
        },
        forall|k: Seq<char>| k != key@ ==> field_of(final(fields)@, k) == field_of(old(fields)@, k),
{
    match take_field(fields, key) {
        Some(j) => String::from_json(j),
        None => Some(String::new()),
    }
}

/// Reads the integer member `key`, zero when absent.
pub fn take_int_or_zero(fields: &mut Vec<(String, JsonValue)>, key: &str) -> (r: Option<i32>)
    ensures
        r == int_or_zero_model(old(fields)@, key@),
        forall|k: Seq<char>| k != key@ ==> field_of(final(fields)@, k) == field_of(old(fields)@, k),
{
    match take_field(fields, key) {
        Some(j) => i32::from_json(j),
        None => Some(0),
    }
}

/// Takes the member `key` whatever its shape, null when absent.
pub fn take_json_or_null(fields: &mut Vec<(String, JsonValue)>, key: &str) -> (r: JsonValue)
    ensures
        r == json_or_null(old(fields)@, key@),
        forall|k: Seq<char>| k != key@ ==> field_of(final(fields)@, k) == field_of(old(fields)@, k),
{
    match take_field(fields, key) {
        Some(j) => j,
        None => JsonValue::Null,
    }
}

} // verus!
