//! Reading the members of a JSON object into plain values, with the rules
//! by which `serde` fills the fields of a struct: a member that is absent
//! reads as `null`, `null` is `None` for an optional field and an error
//! otherwise, an integer must fit its field, and unknown members are left
//! aside.

use vstd::prelude::*;
use crate::json::{index_key, or_null, view_elements, view_members, JsonSpec, JsonValue, NumberSpec,
    lemma_view_elements_index, lemma_view_members_index};

verus! {

/// A string.
pub open spec fn dec_str(j: JsonSpec) -> Option<Seq<char>> {
    match j {
        JsonSpec::String(s) => Some(s),
        _ => None,
    }
}

/// An optional string.
pub open spec fn dec_opt_str(j: JsonSpec) -> Option<Option<Seq<char>>> {
    match j {
        JsonSpec::Null => Some(None),
        JsonSpec::String(s) => Some(Some(s)),
        _ => None,
    }
}

/// A boolean.
pub open spec fn dec_bool(j: JsonSpec) -> Option<bool> {
    match j {
        JsonSpec::Bool(b) => Some(b),
        _ => None,
    }
}

/// An optional boolean.
pub open spec fn dec_opt_bool(j: JsonSpec) -> Option<Option<bool>> {
    match j {
        JsonSpec::Null => Some(None),
        JsonSpec::Bool(b) => Some(Some(b)),
        _ => None,
    }
}

/// An unsigned 32-bit integer.
pub open spec fn dec_u32(j: JsonSpec) -> Option<u32> {
    match j {
        JsonSpec::Number(NumberSpec::PosInt(n)) => if n <= u32::MAX { Some(n as u32) } else { None },
        _ => None,
    }
}

/// An optional unsigned 32-bit integer.
pub open spec fn dec_opt_u32(j: JsonSpec) -> Option<Option<u32>> {
    match j {
        JsonSpec::Null => Some(None),
        _ => match dec_u32(j) {
            Some(n) => Some(Some(n)),
            None => None,
        },
    }
}

/// An unsigned 64-bit integer.
pub open spec fn dec_u64(j: JsonSpec) -> Option<u64> {
    match j {
        JsonSpec::Number(NumberSpec::PosInt(n)) => Some(n),
        _ => None,
    }
}

/// A signed 32-bit integer.
pub open spec fn dec_i32(j: JsonSpec) -> Option<i32> {
    match j {
        JsonSpec::Number(NumberSpec::PosInt(n)) => if n <= i32::MAX { Some(n as i32) } else { None },
        JsonSpec::Number(NumberSpec::NegInt(n)) => if i32::MIN <= n <= i32::MAX { Some(n as i32) } else { None },
        _ => None,
    }
}

/// A list of strings.
pub open spec fn dec_str_list(j: JsonSpec) -> Option<Seq<Seq<char>>> {
    match j {
        JsonSpec::Array(a) => if forall|i: int| 0 <= i < a.len() ==> (#[trigger] a[i]) is String {
            Some(a.map_values(|e: JsonSpec| e->String_0))
        } else {
            None
        },
        _ => None,
    }
}

/// An optional list of strings.
pub open spec fn dec_opt_str_list(j: JsonSpec) -> Option<Option<Seq<Seq<char>>>> {
    match j {
        JsonSpec::Null => Some(None),
        _ => match dec_str_list(j) {
            Some(l) => Some(Some(l)),
            None => None,
        },
    }
}

/// A map from strings to strings, as the members of an object.
pub open spec fn dec_str_map(j: JsonSpec) -> Option<Seq<(Seq<char>, Seq<char>)>> {
    match j {
        JsonSpec::Object(m) => if forall|i: int| 0 <= i < m.len() ==> (#[trigger] m[i]).1 is String {
            Some(m.map_values(|e: (Seq<char>, JsonSpec)| (e.0, e.1->String_0)))
        } else {
            None
        },
        _ => None,
    }
}

/// The views of a list of strings.
pub open spec fn str_views(v: Seq<String>) -> Seq<Seq<char>> {
    v.map_values(|s: String| s@)
}

/// The views of a list of pairs of strings.
pub open spec fn pair_views(v: Seq<(String, String)>) -> Seq<(Seq<char>, Seq<char>)> {
    v.map_values(|p: (String, String)| (p.0@, p.1@))
}

/// The views of an optional string.
pub open spec fn opt_str_view(v: Option<String>) -> Option<Seq<char>> {
    match v {
        Some(s) => Some(s@),
        None => None,
    }
}

/// The views of an optional list of strings.
pub open spec fn opt_str_views(v: Option<Vec<String>>) -> Option<Seq<Seq<char>>> {
    match v {
        Some(l) => Some(str_views(l@)),
        None => None,
    }
}

/// The looked-up value read as a string.
pub fn str_of(v: Option<&JsonValue>) -> (r: Option<String>)
    ensures
        match r {
            Some(s) => dec_str(or_null(v)) == Some(s@),
            None => dec_str(or_null(v)) is None,
        },
{
    match v {
        Some(JsonValue::String(s)) => Some(s.clone()),
        _ => None,
    }
}

/// The looked-up value read as an optional string.
pub fn opt_str_of(v: Option<&JsonValue>) -> (r: Option<Option<String>>)
    ensures
        match r {
            Some(s) => dec_opt_str(or_null(v)) == Some(opt_str_view(s)),
            None => dec_opt_str(or_null(v)) is None,
        },
{
    match v {
        None => Some(None),
        Some(JsonValue::Null) => Some(None),
        Some(JsonValue::String(s)) => Some(Some(s.clone())),
        _ => None,
    }
}

/// The looked-up value read as a boolean.
pub fn bool_of(v: Option<&JsonValue>) -> (r: Option<bool>)
    ensures
        r == dec_bool(or_null(v)),
{
    match v {
        Some(JsonValue::Bool(b)) => Some(*b),
        _ => None,
    }
}

/// The looked-up value read as an optional boolean.
pub fn opt_bool_of(v: Option<&JsonValue>) -> (r: Option<Option<bool>>)
    ensures
        r == dec_opt_bool(or_null(v)),
{
    match v {
        None => Some(None),
        Some(JsonValue::Null) => Some(None),
        Some(JsonValue::Bool(b)) => Some(Some(*b)),
        _ => None,
    }
}

/// The looked-up value read as an unsigned 64-bit integer.
pub fn u64_of(v: Option<&JsonValue>) -> (r: Option<u64>)
    ensures
        r == dec_u64(or_null(v)),
{
    match v {
        Some(x) => x.as_u64(),
        None => None,
    }
}

/// The looked-up value read as an unsigned 32-bit integer.
pub fn u32_of(v: Option<&JsonValue>) -> (r: Option<u32>)
    ensures
        r == dec_u32(or_null(v)),
{
    match u64_of(v) {
        Some(n) => if n <= 0xffff_ffff { Some(n as u32) } else { None },
        None => None,
    }
}

/// The looked-up value read as an optional unsigned 32-bit integer.
pub fn opt_u32_of(v: Option<&JsonValue>) -> (r: Option<Option<u32>>)
    ensures
        r == dec_opt_u32(or_null(v)),
{
    match v {
        None => Some(None),
        Some(JsonValue::Null) => Some(None),
        _ => match u32_of(v) {
            Some(n) => Some(Some(n)),
            None => None,
        },
    }
}

/// The looked-up value read as a signed 32-bit integer.
pub fn i32_of(v: Option<&JsonValue>) -> (r: Option<i32>)
    ensures
        r == dec_i32(or_null(v)),
{
    match v {
        Some(JsonValue::Number(n)) => {
            assert(or_null(v) == JsonSpec::Number(n.view()));
            match n.as_i128() {
                Some(x) => if -2147483648 <= x && x <= 2147483647 {
                    let y = x as i32;
                    assert(y as int == x as int);
                    proof {
                        match n.view() {
                            NumberSpec::PosInt(p) => { assert(p as int == x as int); assert((p as i32) as int == p as int); assert(p as i32 == y); },
                            NumberSpec::NegInt(p) => { assert(p as int == x as int); assert((p as i32) as int == p as int); assert(p as i32 == y); },
                            _ => {},
                        }
                    }
                    Some(y)
                } else {
                    proof {
                        match n.view() {
                            NumberSpec::PosInt(p) => { assert(p as int == x as int); assert(p > i32::MAX); },
                            NumberSpec::NegInt(p) => { assert(p as int == x as int); },
                            _ => {},
                        }
                    }
                    None
                },
                None => None,
            }
        },
        _ => None,
    }
}

/// The looked-up value read as a list of strings.
pub fn str_list_of(v: Option<&JsonValue>) -> (r: Option<Vec<String>>)
    ensures
        match r {
            Some(l) => dec_str_list(or_null(v)) == Some(str_views(l@)),
            None => dec_str_list(or_null(v)) is None,
        },
{
    match v {
        Some(JsonValue::Array(a)) => {
            let mut out: Vec<String> = Vec::new();
            let mut i: usize = 0;
            while i < a.len()
                invariant
                    i <= a@.len(),
                    or_null(v) == JsonSpec::Array(view_elements(a@)),
                    out@.len() == i,
                    forall|k: int| 0 <= k < i ==> view_elements(a@)[k] == JsonSpec::String((#[trigger] out@[k])@),
                decreases a@.len() - i,
            {
                proof { lemma_view_elements_index(a@, i as int); }
                match &a[i] {
                    JsonValue::String(s) => out.push(s.clone()),
                    _ => {
                        assert(!(view_elements(a@)[i as int] is String));
                        assert(dec_str_list(or_null(v)) is None);
                        return None;
                    },
                }
                i = i + 1;
            }
            proof {
                crate::json::lemma_view_elements_len(a@);
                let ev = view_elements(a@);
                assert forall|k: int| 0 <= k < ev.len() implies (#[trigger] ev[k]) is String by {
                    assert(ev[k] == JsonSpec::String(out@[k]@));
                }
                assert(ev.map_values(|e: JsonSpec| e->String_0) =~= str_views(out@));
            }
            Some(out)
        },
        _ => None,
    }
}

/// The looked-up value read as an optional list of strings.
pub fn opt_str_list_of(v: Option<&JsonValue>) -> (r: Option<Option<Vec<String>>>)
    ensures
        match r {
            Some(l) => dec_opt_str_list(or_null(v)) == Some(opt_str_views(l)),
            None => dec_opt_str_list(or_null(v)) is None,
        },
{
    match v {
        None => Some(None),
        Some(JsonValue::Null) => Some(None),
        _ => match str_list_of(v) {
            Some(l) => Some(Some(l)),
            None => None,
        },
    }
}

/// The looked-up value read as a map from strings to strings.
pub fn str_map_of(v: Option<&JsonValue>) -> (r: Option<Vec<(String, String)>>)
    ensures
        match r {
            Some(l) => dec_str_map(or_null(v)) == Some(pair_views(l@)),
            None => dec_str_map(or_null(v)) is None,
        },
{
    match v {
        Some(JsonValue::Object(m)) => {
            let mut out: Vec<(String, String)> = Vec::new();
            let mut i: usize = 0;
            while i < m.len()
                invariant
                    i <= m@.len(),
                    or_null(v) == JsonSpec::Object(view_members(m@)),
                    out@.len() == i,
                    forall|k: int| 0 <= k < i ==> view_members(m@)[k] == ((#[trigger] out@[k]).0@, JsonSpec::String(out@[k].1@)),
                decreases m@.len() - i,
            {
                proof { lemma_view_members_index(m@, i as int); }
                match &m[i].1 {
                    JsonValue::String(s) => out.push((m[i].0.clone(), s.clone())),
                    _ => {
                        assert(!(view_members(m@)[i as int].1 is String));
                        assert(dec_str_map(or_null(v)) is None);
                        return None;
                    },
                }
                i = i + 1;
            }
            proof {
                crate::json::lemma_view_members_len(m@);
                let ev = view_members(m@);
                assert forall|k: int| 0 <= k < ev.len() implies (#[trigger] ev[k]).1 is String by {
                    assert(ev[k] == (out@[k].0@, JsonSpec::String(out@[k].1@)));
                }
                assert(ev.map_values(|e: (Seq<char>, JsonSpec)| (e.0, e.1->String_0)) =~= pair_views(out@));
            }
            Some(out)
        },
        _ => None,
    }
}

/// A map from strings to optional JSON values, as the members of an object
/// (`null` members read as `None`).
pub open spec fn dec_opt_json_map(j: JsonSpec) -> Option<Seq<(Seq<char>, Option<JsonSpec>)>> {
    match j {
        JsonSpec::Object(m) => Some(m.map_values(|e: (Seq<char>, JsonSpec)| (e.0, if e.1 is Null { None } else { Some(e.1) }))),
        _ => None,
    }
}

/// The views of a list of keyed optional JSON values.
pub open spec fn opt_json_map_views(v: Seq<(String, Option<JsonValue>)>) -> Seq<(Seq<char>, Option<JsonSpec>)> {
    v.map_values(|p: (String, Option<JsonValue>)| (p.0@, match p.1 { Some(x) => Some(x@), None => None }))
}

/// The looked-up value read as a map from strings to optional JSON values.
pub fn opt_json_map_of(v: Option<&JsonValue>) -> (r: Option<Vec<(String, Option<JsonValue>)>>)
    ensures
        match r {
            Some(l) => dec_opt_json_map(or_null(v)) == Some(opt_json_map_views(l@)),
            None => dec_opt_json_map(or_null(v)) is None,
        },
{
    match v {
        Some(JsonValue::Object(m)) => {
            let mut out: Vec<(String, Option<JsonValue>)> = Vec::new();
            let mut i: usize = 0;
            while i < m.len()
                invariant
                    i <= m@.len(),
                    or_null(v) == JsonSpec::Object(view_members(m@)),
                    out@.len() == i,
                    forall|k: int| 0 <= k < i ==> ((#[trigger] out@[k]).0@, match out@[k].1 { Some(x) => Some(x@), None => None })
                        == (view_members(m@)[k].0, if view_members(m@)[k].1 is Null { None } else { Some(view_members(m@)[k].1) }),
                decreases m@.len() - i,
            {
                proof { lemma_view_members_index(m@, i as int); }
                let value = match &m[i].1 {
                    JsonValue::Null => None,
                    other => Some(other.copy()),
                };
                out.push((m[i].0.clone(), value));
                i = i + 1;
            }
            proof {
                crate::json::lemma_view_members_len(m@);
                let ev = view_members(m@);
                assert(ev.map_values(|e: (Seq<char>, JsonSpec)| (e.0, if e.1 is Null { None } else { Some(e.1) }))
                    =~= opt_json_map_views(out@));
            }
            Some(out)
        },
        _ => None,
    }
}

} // verus!
