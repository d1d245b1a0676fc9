//! JSON values as the Spotify Web API sends them, read through `serde_json`.
//!
//! `serde_json` does the parsing and the printing; the library holds what it
//! reads in [`JsonValue`], a tree of plain values, and navigates it with the
//! indexing rules of `serde_json::Value` (a missing key, a wrong kind of
//! value or an index out of bounds all give `null`).

use vstd::prelude::*;
use crate::text::{chars_of, decimal, digit_char, str_eq, string_of};

verus! {

/// The three kinds of JSON number that `serde_json` tells apart.
#[derive(Clone, Debug)]
pub enum NumberRepr {
    /// A non-negative integer.
    PosInt(u64),
    /// A negative integer.
    NegInt(i64),
    /// Any other number, by its printed form.
    Float(String),
}

/// A JSON number. A float can only come from parsing, so that its printed
/// form is always one that `serde_json` gave.
#[derive(Debug)]
pub struct JsonNumber {
    repr: NumberRepr,
}

/// A JSON value.
pub enum JsonValue {
    Null,
    Bool(bool),
    Number(JsonNumber),
    String(String),
    Array(Vec<JsonValue>),
    /// The members of an object, in the order `serde_json` keeps them.
    Object(Vec<(String, JsonValue)>),
}

impl JsonNumber {
    /// A negative integer is held as such only when it is below zero; every
    /// other integer is held as a non-negative one.
    #[verifier::type_invariant]
    closed spec fn sign_consistent(self) -> bool {
        self.repr matches NumberRepr::NegInt(n) ==> n < 0
    }

    /// The number `n`.
    pub fn from_u64(n: u64) -> (r: JsonNumber)
        ensures
            r.view() == NumberSpec::PosInt(n),
    {
        JsonNumber { repr: NumberRepr::PosInt(n) }
    }

    /// The number `n`: a non-negative integer when `n >= 0`, a negative one
    /// otherwise.
    pub fn from_i64(n: i64) -> (r: JsonNumber)
        ensures
            r.view() == (if n >= 0 { NumberSpec::PosInt(n as u64) } else { NumberSpec::NegInt(n) }),
    {
        if n >= 0 {
            JsonNumber { repr: NumberRepr::PosInt(n as u64) }
        } else {
            JsonNumber { repr: NumberRepr::NegInt(n) }
        }
    }

    /// `serde_json::Number::as_u64`.
    pub fn as_u64(&self) -> (r: Option<u64>)
        ensures
            r == (match self.view() {
                NumberSpec::PosInt(n) => Some(n),
                _ => None,
            }),
    {
        match &self.repr {
            NumberRepr::PosInt(n) => Some(*n),
            _ => None,
        }
    }

    /// The integer that the number is, widened, if it is an integer.
    pub fn as_i128(&self) -> (r: Option<i128>)
        ensures
            r == (match self.view() {
                NumberSpec::PosInt(n) => Some(n as i128),
                NumberSpec::NegInt(n) => Some(n as i128),
                NumberSpec::Float(_) => None,
            }),
    {
        match &self.repr {
            NumberRepr::PosInt(n) => Some(*n as i128),
            NumberRepr::NegInt(n) => Some(*n as i128),
            NumberRepr::Float(_) => None,
        }
    }

    /// A copy of the number.
    pub fn copy(&self) -> (r: JsonNumber)
        ensures
            r.view() == self.view(),
    {
        proof { use_type_invariant(self); }
        match &self.repr {
            NumberRepr::PosInt(n) => JsonNumber { repr: NumberRepr::PosInt(*n) },
            NumberRepr::NegInt(n) => JsonNumber { repr: NumberRepr::NegInt(*n) },
            NumberRepr::Float(t) => JsonNumber { repr: NumberRepr::Float(t.clone()) },
        }
    }
}

/// The value of the first member of `members` named `key`.
pub open spec fn member(members: Seq<(Seq<char>, JsonSpec)>, key: Seq<char>) -> Option<JsonSpec>
    decreases members.len(),
{
    if members.len() == 0 {
        None
    } else if members[0].0 == key {
        Some(members[0].1)
    } else {
        member(members.drop_first(), key)
    }
}

/// `value[key]` as `serde_json::Value` indexes by a string: the member of an
/// object, or `null` when the value is no object or has no such member.
pub open spec fn index_key(value: JsonSpec, key: Seq<char>) -> JsonSpec {
    match value {
        JsonSpec::Object(m) => match member(m, key) {
            Some(v) => v,
            None => JsonSpec::Null,
        },
        _ => JsonSpec::Null,
    }
}

/// `value[i]` as `serde_json::Value` indexes by a position: the element of
/// an array, or `null` when the value is no array or is too short.
pub open spec fn index_pos(value: JsonSpec, i: int) -> JsonSpec {
    match value {
        JsonSpec::Array(a) => if 0 <= i < a.len() {
            a[i]
        } else {
            JsonSpec::Null
        },
        _ => JsonSpec::Null,
    }
}

/// What a looked-up reference stands for, `null` when there is none.
pub open spec fn or_null(r: Option<&JsonValue>) -> JsonSpec {
    match r {
        Some(v) => v@,
        None => JsonSpec::Null,
    }
}

/// The string that a value is, if it is one.
pub open spec fn spec_str(value: JsonSpec) -> Option<Seq<char>> {
    match value {
        JsonSpec::String(s) => Some(s),
        _ => None,
    }
}

/// The non-negative integer that a value is, if it is one
/// (`serde_json::Value::as_u64`).
pub open spec fn spec_as_u64(value: JsonSpec) -> Option<u64> {
    match value {
        JsonSpec::Number(NumberSpec::PosInt(n)) => Some(n),
        _ => None,
    }
}

/// The elements of a value, if it is an array.
pub open spec fn spec_elements(value: JsonSpec) -> Option<Seq<JsonSpec>> {
    match value {
        JsonSpec::Array(a) => Some(a),
        _ => None,
    }
}

impl JsonValue {
    /// `self[key]`, with `None` standing for `null`.
    pub fn get(&self, key: &str) -> (r: Option<&JsonValue>)
        ensures
            or_null(r) == index_key(self@, key@),
    {
        match self {
            JsonValue::Object(m) => {
                let mut i: usize = 0;
                assert(m@.skip(0) =~= m@);
                while i < m.len()
                    invariant
                        0 <= i <= m@.len(),
                        *self == JsonValue::Object(*m),
                        member(view_members(m@), key@) == member(view_members(m@.skip(i as int)), key@),
                    decreases m@.len() - i,
                {
                    let ghost t = m@.skip(i as int);
                    assert(t.drop_first() =~= m@.skip(i + 1));
                    assert(t[0] == m@[i as int]);
                    assert(view_members(t) == seq![(t[0].0@, view_json(t[0].1))] + view_members(t.drop_first()));
                    assert(view_members(t)[0] == (t[0].0@, view_json(t[0].1)));
                    assert(view_members(t).drop_first() =~= view_members(t.drop_first()));
                    if str_eq(m[i].0.as_str(), key) {
                        return Some(&m[i].1);
                    }
                    i = i + 1;
                }
                None
            },
            _ => None,
        }
    }

    /// `self[i]`, with `None` standing for `null`.
    pub fn at(&self, i: usize) -> (r: Option<&JsonValue>)
        ensures
            or_null(r) == index_pos(self@, i as int),
    {
        match self {
            JsonValue::Array(a) => {
                if i < a.len() {
                    proof { lemma_view_elements_index(a@, i as int); }
                    Some(&a[i])
                } else {
                    proof { lemma_view_elements_len(a@); }
                    None
                }
            },
            _ => None,
        }
    }

    /// The elements, if the value is an array (`as_array`).
    pub fn as_array(&self) -> (r: Option<&Vec<JsonValue>>)
        ensures
            match r {
                Some(a) => spec_elements(self@) == Some(view_elements(a@)),
                None => spec_elements(self@) is None,
            },
    {
        match self {
            JsonValue::Array(a) => Some(a),
            _ => None,
        }
    }

    /// The string, if the value is one (`as_str`).
    pub fn as_str(&self) -> (r: Option<&str>)
        ensures
            match r {
                Some(s) => spec_str(self@) == Some(s@),
                None => spec_str(self@) is None,
            },
    {
        match self {
            JsonValue::String(s) => Some(s.as_str()),
            _ => None,
        }
    }

    /// Whether the value is an object.
    pub fn is_object(&self) -> (r: bool)
        ensures
            r == (self@ is Object),
    {
        match self {
            JsonValue::Object(_) => true,
            _ => false,
        }
    }

    /// The non-negative integer, if the value is one (`as_u64`).
    pub fn as_u64(&self) -> (r: Option<u64>)
        ensures
            r == spec_as_u64(self@),
    {
        match self {
            JsonValue::Number(n) => n.as_u64(),
            _ => None,
        }
    }
}



/// What a JSON number is, as a mathematical value.
pub enum NumberSpec {
    PosInt(u64),
    NegInt(i64),
    Float(Seq<char>),
}

/// What a JSON value is, as a mathematical value.
pub enum JsonSpec {
    Null,
    Bool(bool),
    Number(NumberSpec),
    String(Seq<char>),
    Array(Seq<JsonSpec>),
    Object(Seq<(Seq<char>, JsonSpec)>),
}

impl JsonNumber {
    pub closed spec fn view(self) -> NumberSpec {
        match self.repr {
            NumberRepr::PosInt(n) => NumberSpec::PosInt(n),
            NumberRepr::NegInt(n) => NumberSpec::NegInt(n),
            NumberRepr::Float(t) => NumberSpec::Float(t@),
        }
    }
}

/// The views of a sequence of values.
pub open spec fn view_elements(s: Seq<JsonValue>) -> Seq<JsonSpec>
    decreases s,
{
    if s.len() == 0 {
        Seq::empty()
    } else {
        seq![view_json(s[0])] + view_elements(s.drop_first())
    }
}

/// The views of a sequence of object members.
pub open spec fn view_members(s: Seq<(String, JsonValue)>) -> Seq<(Seq<char>, JsonSpec)>
    decreases s,
{
    if s.len() == 0 {
        Seq::empty()
    } else {
        seq![(s[0].0@, view_json(s[0].1))] + view_members(s.drop_first())
    }
}

/// The view of a value.
pub open spec fn view_json(v: JsonValue) -> JsonSpec
    decreases v,
{
    match v {
        JsonValue::Null => JsonSpec::Null,
        JsonValue::Bool(b) => JsonSpec::Bool(b),
        JsonValue::Number(n) => JsonSpec::Number(n.view()),
        JsonValue::String(s) => JsonSpec::String(s@),
        JsonValue::Array(a) => JsonSpec::Array(view_elements(a@)),
        JsonValue::Object(m) => JsonSpec::Object(view_members(m@)),
    }
}

proof fn lemma_view_elements_push(s: Seq<JsonValue>, e: JsonValue)
    ensures
        view_elements(s.push(e)) == view_elements(s).push(view_json(e)),
    decreases s.len(),
{
    if s.len() == 0 {
        assert(s.push(e).drop_first() =~= Seq::<JsonValue>::empty());
        assert(view_elements(s.push(e).drop_first()) =~= Seq::<JsonSpec>::empty());
        assert(view_elements(s) =~= Seq::<JsonSpec>::empty());
        assert(s.push(e)[0] == e);
        assert(view_elements(s.push(e)) =~= view_elements(s).push(view_json(e)));
    } else {
        assert(s.push(e).drop_first() =~= s.drop_first().push(e));
        lemma_view_elements_push(s.drop_first(), e);
        assert(view_elements(s.push(e)) =~= view_elements(s).push(view_json(e)));
    }
}

proof fn lemma_view_members_push(s: Seq<(String, JsonValue)>, e: (String, JsonValue))
    ensures
        view_members(s.push(e)) == view_members(s).push((e.0@, view_json(e.1))),
    decreases s.len(),
{
    if s.len() == 0 {
        assert(s.push(e).drop_first() =~= Seq::<(String, JsonValue)>::empty());
        assert(view_members(s.push(e).drop_first()) =~= Seq::<(Seq<char>, JsonSpec)>::empty());
        assert(view_members(s) =~= Seq::<(Seq<char>, JsonSpec)>::empty());
        assert(s.push(e)[0] == e);
        assert(view_members(s.push(e)) =~= view_members(s).push((e.0@, view_json(e.1))));
    } else {
        assert(s.push(e).drop_first() =~= s.drop_first().push(e));
        lemma_view_members_push(s.drop_first(), e);
        assert(view_members(s.push(e)) =~= view_members(s).push((e.0@, view_json(e.1))));
    }
}


pub proof fn lemma_view_elements_len(s: Seq<JsonValue>)
    ensures
        view_elements(s).len() == s.len(),
    decreases s.len(),
{
    if s.len() > 0 {
        lemma_view_elements_len(s.drop_first());
    }
}

pub proof fn lemma_view_elements_index(s: Seq<JsonValue>, i: int)
    requires
        0 <= i < s.len(),
    ensures
        view_elements(s).len() == s.len(),
        view_elements(s)[i] == view_json(s[i]),
    decreases s.len(),
{
    lemma_view_elements_len(s);
    if i > 0 {
        lemma_view_elements_index(s.drop_first(), i - 1);
    }
}

pub proof fn lemma_view_members_len(s: Seq<(String, JsonValue)>)
    ensures
        view_members(s).len() == s.len(),
    decreases s.len(),
{
    if s.len() > 0 {
        lemma_view_members_len(s.drop_first());
    }
}

pub proof fn lemma_view_members_index(s: Seq<(String, JsonValue)>, i: int)
    requires
        0 <= i < s.len(),
    ensures
        view_members(s).len() == s.len(),
        view_members(s)[i] == (s[i].0@, view_json(s[i].1)),
    decreases s.len(),
{
    lemma_view_members_len(s);
    if i > 0 {
        lemma_view_members_index(s.drop_first(), i - 1);
    }
}

impl View for JsonValue {
    type V = JsonSpec;

    open spec fn view(&self) -> JsonSpec {
        view_json(*self)
    }
}

impl JsonValue {
    /// A copy of the value.
    pub fn copy(&self) -> (r: JsonValue)
        ensures
            r@ == self@,
        decreases *self,
    {
        match self {
            JsonValue::Null => JsonValue::Null,
            JsonValue::Bool(b) => JsonValue::Bool(*b),
            JsonValue::Number(n) => JsonValue::Number(n.copy()),
            JsonValue::String(s) => JsonValue::String(s.clone()),
            JsonValue::Array(a) => {
                let mut out: Vec<JsonValue> = Vec::new();
                let mut i: usize = 0;
                while i < a.len()
                    invariant
                        i <= a@.len(),
                        *self == JsonValue::Array(*a),
                        view_elements(out@) == view_elements(a@.take(i as int)),
                    decreases a@.len() - i,
                {
                    proof {
                        let v = (*self)->Array_0;
                        assert(decreases_to!(*self => v));
                        assert(decreases_to!(v => v@));
                        assert(decreases_to!(v@ => v@[i as int]));
                    }
                    let e = a[i].copy();
                    proof {
                        lemma_view_elements_push(out@, e);
                        lemma_view_elements_push(a@.take(i as int), a@[i as int]);
                        assert(a@.take(i as int).push(a@[i as int]) =~= a@.take(i + 1));
                    }
                    out.push(e);
                    i = i + 1;
                }
                assert(a@.take(a@.len() as int) =~= a@);
                JsonValue::Array(out)
            },
            JsonValue::Object(m) => {
                let mut out: Vec<(String, JsonValue)> = Vec::new();
                let mut i: usize = 0;
                while i < m.len()
                    invariant
                        i <= m@.len(),
                        *self == JsonValue::Object(*m),
                        view_members(out@) == view_members(m@.take(i as int)),
                    decreases m@.len() - i,
                {
                    proof {
                        let v = (*self)->Object_0;
                        assert(decreases_to!(*self => v));
                        assert(decreases_to!(v => v@));
                        assert(decreases_to!(v@ => v@[i as int]));
                        assert(decreases_to!(v@[i as int] => v@[i as int].1));
                    }
                    let e = m[i].1.copy();
                    let k = m[i].0.clone();
                    proof {
                        lemma_view_members_push(out@, (k, e));
                        lemma_view_members_push(m@.take(i as int), m@[i as int]);
                        assert(m@.take(i as int).push(m@[i as int]) =~= m@.take(i + 1));
                    }
                    out.push((k, e));
                    i = i + 1;
                }
                assert(m@.take(m@.len() as int) =~= m@);
                JsonValue::Object(out)
            },
        }
    }
}



/// `v[key]` for a looked-up value (`null` stays `null`).
pub fn member_of<'a>(v: Option<&'a JsonValue>, key: &str) -> (r: Option<&'a JsonValue>)
    ensures
        or_null(r) == index_key(or_null(v), key@),
{
    match v {
        Some(x) => x.get(key),
        None => None,
    }
}

/// `v[i]` for a looked-up value (`null` stays `null`).
pub fn element_of<'a>(v: Option<&'a JsonValue>, i: usize) -> (r: Option<&'a JsonValue>)
    ensures
        or_null(r) == index_pos(or_null(v), i as int),
{
    match v {
        Some(x) => x.at(i),
        None => None,
    }
}

#[verifier::external_type_specification]
#[verifier::external_body]
pub struct ExJsonValue(serde_json::Value);

/// What `serde_json::from_str::<serde_json::Value>` makes of a text: the value
/// the text denotes, or `None` where `serde_json` refuses the text.
pub uninterp spec fn spec_parse_json(text: Seq<char>) -> Option<JsonSpec>;

/// What `serde_json` prints for a value (`Display` of `serde_json::Value`,
/// the compact form that `serde_json::to_string` gives too).
pub uninterp spec fn spec_json_text(value: JsonSpec) -> Seq<char>;

/// The lower-case hexadecimal digit for `d < 16`.
pub open spec fn hex_lower(d: u32) -> char {
    if d < 10 {
        digit_char(d as nat)
    } else if d == 10 { 'a' }
    else if d == 11 { 'b' }
    else if d == 12 { 'c' }
    else if d == 13 { 'd' }
    else if d == 14 { 'e' }
    else { 'f' }
}

/// How `serde_json` writes one character inside a string literal.
pub open spec fn escape_char(c: char) -> Seq<char> {
    if c == '"' {
        seq!['\\', '"']
    } else if c == '\\' {
        seq!['\\', '\\']
    } else if c == '\u{8}' {
        seq!['\\', 'b']
    } else if c == '\t' {
        seq!['\\', 't']
    } else if c == '\n' {
        seq!['\\', 'n']
    } else if c == '\u{c}' {
        seq!['\\', 'f']
    } else if c == '\r' {
        seq!['\\', 'r']
    } else if (c as u32) < 0x20 {
        seq!['\\', 'u', '0', '0', hex_lower((c as u32) / 16), hex_lower((c as u32) % 16)]
    } else {
        seq![c]
    }
}

/// How `serde_json` writes the characters of a string literal.
pub open spec fn escaped(s: Seq<char>) -> Seq<char>
    decreases s.len(),
{
    if s.len() == 0 {
        Seq::empty()
    } else {
        escape_char(s[0]) + escaped(s.drop_first())
    }
}

#[verifier::external_type_specification]
#[verifier::external_body]
pub struct ExJsonNumber(serde_json::Number);

#[verifier::external_body]
fn number_of_serde(n: serde_json::Number) -> JsonNumber {
    JsonNumber { repr: match (n.as_u64(), n.as_i64()) {
        (Some(u), _) => NumberRepr::PosInt(u),
        (None, Some(i)) => NumberRepr::NegInt(i),
        (None, None) => NumberRepr::Float(n.to_string()),
    } }
}

#[verifier::external_body]
fn json_of_serde(v: serde_json::Value) -> JsonValue {
    match v {
        serde_json::Value::Null => JsonValue::Null,
        serde_json::Value::Bool(b) => JsonValue::Bool(b),
        serde_json::Value::Number(n) => JsonValue::Number(number_of_serde(n)),
        serde_json::Value::String(s) => JsonValue::String(s),
        serde_json::Value::Array(a) => JsonValue::Array(a.into_iter().map(json_of_serde).collect()),
        serde_json::Value::Object(m) => JsonValue::Object(m.into_iter().map(|(k, e)| (k, json_of_serde(e))).collect()),
    }
}

#[verifier::external_body]
fn serde_of_number(n: &JsonNumber) -> serde_json::Number {
    match &n.repr {
        NumberRepr::PosInt(u) => serde_json::Number::from(*u),
        NumberRepr::NegInt(i) => serde_json::Number::from(*i),
        NumberRepr::Float(t) => t.parse::<serde_json::Number>().unwrap(),
    }
}

#[verifier::external_body]
fn serde_of_json(v: &JsonValue) -> serde_json::Value {
    match v {
        JsonValue::Null => serde_json::Value::Null,
        JsonValue::Bool(b) => serde_json::Value::Bool(*b),
        JsonValue::Number(n) => serde_json::Value::Number(serde_of_number(n)),
        JsonValue::String(s) => serde_json::Value::String(s.clone()),
        JsonValue::Array(a) => serde_json::Value::Array(a.iter().map(serde_of_json).collect()),
        JsonValue::Object(m) => serde_json::Value::Object(m.iter().map(|(k, e)| (k.clone(), serde_of_json(e))).collect()),
    }
}

/// Parses a text with `serde_json::from_str::<serde_json::Value>`. The
/// contract claims only that the result is the value that `serde_json`
/// denotes by the text (named, not spelt out), `None` where it refuses it.
#[verifier::external_body]
pub(crate) fn parse_json(text: &str) -> (r: Option<JsonValue>)
    ensures
        match r {
            Some(v) => spec_parse_json(text@) == Some(v@),
            None => spec_parse_json(text@) is None,
        },
{
    serde_json::from_str::<serde_json::Value>(text).ok().map(json_of_serde)
}

/// Prints a value with `serde_json` (`Display` of `serde_json::Value`). The
/// contract claims what `serde_json`'s printer does for `null`, booleans,
/// integers and strings (quoted, with `"`, `\` and control characters
/// escaped); for floats, arrays and objects it only names the text.
#[verifier::external_body]
pub(crate) fn json_text(v: &JsonValue) -> (r: String)
    ensures
        r@ == spec_json_text(v@),
        r@.len() > 0,
        v@ == JsonSpec::Null ==> r@ == seq!['n', 'u', 'l', 'l'],
        v@ == JsonSpec::Bool(true) ==> r@ == seq!['t', 'r', 'u', 'e'],
        v@ == JsonSpec::Bool(false) ==> r@ == seq!['f', 'a', 'l', 's', 'e'],
        v@ matches JsonSpec::Number(NumberSpec::PosInt(n)) ==> r@ == decimal(n as nat),
        v@ matches JsonSpec::Number(NumberSpec::NegInt(n)) ==> r@ == seq!['-'] + decimal((-n) as nat),
        v@ matches JsonSpec::String(s) ==> r@ == seq!['"'] + escaped(s) + seq!['"'],
{
    serde_of_json(v).to_string()
}

/// `s` without its first and its last character (the quotes of a printed
/// JSON string); empty when `s` has a single character.
pub open spec fn strip_outer(s: Seq<char>) -> Seq<char> {
    if s.len() <= 1 {
        Seq::empty()
    } else {
        s.subrange(1, s.len() - 1)
    }
}

/// Drops the first and the last character of `s`.
pub fn strip_outer_chars(s: &str) -> (r: String)
    requires
        s@.len() > 0,
    ensures
        r@ == strip_outer(s@),
{
    let cs = chars_of(s);
    if cs.len() <= 1 {
        String::new()
    } else {
        string_of(&cs, 1, cs.len() - 1)
    }
}

/// The printed form of a looked-up value, `null` when there is none.
pub open spec fn printed(v: Option<&JsonValue>) -> Seq<char> {
    spec_json_text(or_null(v))
}

/// The printed form of a looked-up value without its outer characters:
/// the contents of a JSON string, as the Spotify client reads names and
/// identifiers.
pub fn unquoted(v: Option<&JsonValue>) -> (r: String)
    ensures
        r@ == strip_outer(printed(v)),
{
    let text = match v {
        Some(x) => json_text(x),
        None => json_text(&JsonValue::Null),
    };
    strip_outer_chars(text.as_str())
}

/// `escaped(s)` is `s` itself when `s` holds no character that `serde_json`
/// escapes.
pub proof fn lemma_escaped_plain(s: Seq<char>)
    requires
        forall|i: int| 0 <= i < s.len() ==> is_plain_char(#[trigger] s[i]),
    ensures
        escaped(s) == s,
    decreases s.len(),
{
    if s.len() > 0 {
        lemma_escaped_plain(s.drop_first());
        assert(is_plain_char(s[0]));
        assert(escaped(s) =~= s);
    }
}

/// A character that `serde_json` writes as itself inside a string literal.
pub open spec fn is_plain_char(c: char) -> bool {
    c != '"' && c != '\\' && (c as u32) >= 0x20
}

} // verus!
