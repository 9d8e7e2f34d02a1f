//! A JSON document held as plain values, and verified navigation over it.
//!
//! Response bodies arrive as text; a trusted call into `serde_json` turns the
//! text into a [`Json`] tree, and everything that reads the tree afterwards is
//! verified against the spec functions below.

use vstd::prelude::*;
use vstd::string::StrSliceExecFns;

verus! {

/// One JSON value. Numbers are held as signed 64-bit integers: the envelopes
/// this library reads carry only counts and flags, never fractions.
#[derive(Debug, PartialEq)]
pub enum Json {
    Null,
    Bool(bool),
    Int(i64),
    Str(String),
    Arr(Vec<Json>),
    Obj(Vec<(String, Json)>),
}

/// The value under `key` in an object's field list: the first binding wins.
pub open spec fn lookup_field(fields: Seq<(String, Json)>, key: Seq<char>) -> Option<Json>
    decreases fields.len(),
{
    if fields.len() == 0 {
        None
    } else if fields[0].0@ == key {
        Some(fields[0].1)
    } else {
        lookup_field(fields.skip(1), key)
    }
}

/// The value under `key` when `j` is an object; `None` otherwise.
pub open spec fn json_field(j: Json, key: Seq<char>) -> Option<Json> {
    match j {
        Json::Obj(fields) => lookup_field(fields@, key),
        _ => None,
    }
}

/// Character-for-character equality of two string slices.
pub fn str_eq(a: &str, b: &str) -> (r: bool)
    ensures
        r == (a@ == b@),
{
    let alen = a.unicode_len();
    let blen = b.unicode_len();
    if alen != blen {
        return false;
    }
    let mut i: usize = 0;
    while i < alen
        invariant
            alen == a@.len(),
            blen == b@.len(),
            alen == blen,
            i <= alen,
            forall|k: int| 0 <= k < i ==> a@[k] == b@[k],
        decreases alen - i,
    {
        if a.get_char(i) != b.get_char(i) {
            return false;
        }
        i = i + 1;
    }
    proof {
        assert(a@ =~= b@);
    }
    true
}

impl Json {
    /// The value stored under `key`, when this value is an object that has it.
    pub fn get<'a>(&'a self, key: &str) -> (r: Option<&'a Json>)
        ensures
            match r {
                Some(v) => json_field(*self, key@) == Some(*v),
                None => json_field(*self, key@) is None,
            },
    {
        match self {
            Json::Obj(fields) => {
                let n = fields.len();
                let mut i: usize = 0;
                proof {
                    assert(fields@.skip(0) =~= fields@);
                }
            while i < n
                invariant
                    n == fields@.len(),
                    i <= n,
                    json_field(*self, key@) == lookup_field(fields@, key@),
                    lookup_field(fields@, key@) == lookup_field(fields@.skip(i as int), key@),
                decreases n - i,
            {
                    proof {
                        assert(fields@.skip(i as int)[0] == fields@[i as int]);
                    }
                    if str_eq(fields[i].0.as_str(), key) {
                        proof {
                            assert(lookup_field(fields@.skip(i as int), key@)
                                == Some(fields@[i as int].1));
                        }
                        return Some(&fields[i].1);
                    }
                    proof {
                        assert(fields@.skip(i as int).skip(1) =~= fields@.skip(i as int + 1));
                    }
                    i = i + 1;
                }
                proof {
                    assert(fields@.skip(n as int) =~= Seq::<(String, Json)>::empty());
                }
                None
            },
            _ => None,
        }
    }

    /// The characters of this value, when it is a string.
    pub fn as_str<'a>(&'a self) -> (r: Option<&'a String>)
        ensures
            match r {
                Some(s) => *self == Json::Str(*s),
                None => !(*self is Str),
            },
    {
        match self {
            Json::Str(s) => Some(s),
            _ => None,
        }
    }

    /// The integer this value holds, when it is a number.
    pub fn as_int(&self) -> (r: Option<i64>)
        ensures
            match r {
                Some(n) => *self == Json::Int(n),
                None => !(*self is Int),
            },
    {
        match self {
            Json::Int(n) => Some(*n),
            _ => None,
        }
    }

    /// The truth value this value holds, when it is a boolean.
    pub fn as_bool(&self) -> (r: Option<bool>)
        ensures
            match r {
                Some(b) => *self == Json::Bool(b),
                None => !(*self is Bool),
            },
    {
        match self {
            Json::Bool(b) => Some(*b),
            _ => None,
        }
    }

    /// The elements of this value, when it is an array.
    pub fn as_arr<'a>(&'a self) -> (r: Option<&'a Vec<Json>>)
        ensures
            match r {
                Some(a) => *self == Json::Arr(*a),
                None => !(*self is Arr),
            },
    {
        match self {
            Json::Arr(a) => Some(a),
            _ => None,
        }
    }
}

/// A type that can be read off a JSON value, such as one element of a page's
/// `values` array. Contracts speak of the decoded value through its deep
/// view, so that freshly allocated strings compare by their characters.
pub trait FromJson: Sized + DeepView {
    /// Which value, if any, the JSON document `j` describes.
    spec fn json_decodes(j: Json) -> Option<Self::V>;

    /// Read a value off `j`, exactly as `json_decodes` says.
    fn from_json(j: &Json) -> (r: Option<Self>)
        ensures
            r.deep_view() == Self::json_decodes(*j),
    ;
}

impl FromJson for String {
    open spec fn json_decodes(j: Json) -> Option<Seq<char>> {
        match j {
            Json::Str(s) => Some(s@),
            _ => None,
        }
    }

    fn from_json(j: &Json) -> (r: Option<Self>)
        ensures
            r.deep_view() == Self::json_decodes(*j),
    {
        match j {
            Json::Str(s) => Some(s.clone()),
            _ => None,
        }
    }
}

/// The result of handing `s` to the JSON parser: the parsed document, or
/// nothing when `s` is not well-formed JSON.
pub uninterp spec fn json_of(s: Seq<char>) -> Option<Json>;

#[verifier::external_type_specification]
#[verifier::external_body]
pub struct ExSerdeJsonValue(serde_json::Value);

/// Relies on `serde_json::Value`: rebuilds a parsed document variant by
/// variant as plain values. Numbers outside `i64` are out of this library's
/// data model and are read as `Null`; the envelopes this library consumes
/// carry only counts and flags.
#[verifier::external_body]
fn value_to_json(v: &serde_json::Value) -> Json {
    match v {
        serde_json::Value::Null => Json::Null,
        serde_json::Value::Bool(b) => Json::Bool(*b),
        serde_json::Value::Number(n) => match n.as_i64() {
            Some(i) => Json::Int(i),
            None => Json::Null,
        },
        serde_json::Value::String(s) => Json::Str(s.clone()),
        serde_json::Value::Array(a) => Json::Arr(a.iter().map(value_to_json).collect()),
        serde_json::Value::Object(m) => Json::Obj(
            m.iter().map(|(k, w)| (k.clone(), value_to_json(w))).collect(),
        ),
    }
}

/// Relies on `serde_json::from_str`: parses `s` as one JSON document; whether
/// it parses, and what it parses to, depend on the characters of `s` alone.
/// A parse failure comes back as the parser's own account of it.
#[verifier::external_body]
pub fn parse_json(s: &str) -> (r: Result<Json, String>)
    ensures
        r matches Ok(j) ==> json_of(s@) == Some(j),
        r matches Err(_) ==> json_of(s@) is None,
{
    match serde_json::from_str::<serde_json::Value>(s) {
        Ok(v) => Ok(value_to_json(&v)),
        Err(e) => Err(e.to_string()),
    }
}

/// The items described by an array of JSON elements: every element must
/// decode, in order; one failing element fails the whole array.
pub open spec fn decode_values_of<T: FromJson>(elems: Seq<Json>) -> Option<Seq<T::V>>
    decreases elems.len(),
{
    if elems.len() == 0 {
        Some(Seq::empty())
    } else {
        match (T::json_decodes(elems[0]), decode_values_of::<T>(elems.skip(1))) {
            (Some(v), Some(rest)) => Some(seq![v] + rest),
            _ => None,
        }
    }
}

/// Decode every element of `elems`, in order.
pub fn decode_values<T: FromJson>(elems: &Vec<Json>) -> (r: Option<Vec<T>>)
    ensures
        r.deep_view() == decode_values_of::<T>(elems@),
{
    let mut out: Vec<T> = Vec::new();
    let n = elems.len();
    let mut i: usize = 0;
    proof {
        assert(elems@.skip(0) =~= elems@);
        assert(out.deep_view() =~= Seq::<T::V>::empty());
    }
    while i < n
        invariant
            n == elems@.len(),
            i <= n,
            decode_values_of::<T>(elems@.skip(i as int)) is None ==> decode_values_of::<T>(elems@)
                is None,
            forall|rest: Seq<T::V>|
                decode_values_of::<T>(elems@.skip(i as int)) == Some(rest)
                    ==> decode_values_of::<T>(elems@) == Some(out.deep_view() + rest),
        decreases n - i,
    {
        proof {
            assert(elems@.skip(i as int)[0] == elems@[i as int]);
            assert(elems@.skip(i as int).skip(1) =~= elems@.skip(i as int + 1));
        }
        match T::from_json(&elems[i]) {
            Some(v) => {
                let ghost pre = out.deep_view();
                let ghost vv = v.deep_view();
                out.push(v);
                proof {
                    assert(out.deep_view() =~= pre.push(vv));
                    assert forall|rest: Seq<T::V>|
                        decode_values_of::<T>(elems@.skip(i as int + 1)) == Some(rest) implies
                        decode_values_of::<T>(elems@) == Some(out.deep_view() + rest) by {
                        assert(decode_values_of::<T>(elems@.skip(i as int)) == Some(
                            seq![vv] + rest,
                        ));
                        assert(pre + (seq![vv] + rest) =~= pre.push(vv) + rest);
                    }
                }
            },
            None => {
                proof {
                    assert(decode_values_of::<T>(elems@.skip(i as int)) is None);
                }
                return None;
            },
        }
        i = i + 1;
    }
    proof {
        assert(elems@.skip(n as int) =~= Seq::<Json>::empty());
        assert(decode_values_of::<T>(elems@.skip(n as int)) == Some(Seq::<T::V>::empty()));
        assert(out.deep_view() + Seq::<T::V>::empty() =~= out.deep_view());
    }
    Some(out)
}

/// An array of JSON elements decodes to the sequence of its decoded
/// elements, in order.
impl<T: FromJson> FromJson for Vec<T> {
    open spec fn json_decodes(j: Json) -> Option<Seq<T::V>> {
        match j {
            Json::Arr(elems) => decode_values_of::<T>(elems@),
            _ => None,
        }
    }

    fn from_json(j: &Json) -> (r: Option<Self>) {
        match j {
            Json::Arr(elems) => decode_values::<T>(elems),
            _ => None,
        }
    }
}

/// A JSON boolean decodes to its truth value.
impl FromJson for bool {
    open spec fn json_decodes(j: Json) -> Option<bool> {
        match j {
            Json::Bool(b) => Some(b),
            _ => None,
        }
    }

    fn from_json(j: &Json) -> (r: Option<Self>) {
        match j {
            Json::Bool(b) => Some(*b),
            _ => None,
        }
    }
}

/// A JSON number decodes to a `u32` when it lies in range.
impl FromJson for u32 {
    open spec fn json_decodes(j: Json) -> Option<u32> {
        match j {
            Json::Int(n) => if 0 <= n <= u32::MAX {
                Some(n as u32)
            } else {
                None
            },
            _ => None,
        }
    }

    fn from_json(j: &Json) -> (r: Option<Self>) {
        match j {
            Json::Int(n) => if 0 <= *n && *n <= u32::MAX as i64 {
                Some(*n as u32)
            } else {
                None
            },
            _ => None,
        }
    }
}

/// A required field of `j` that must itself decode as `T`.
pub open spec fn decoded_field_of<T: FromJson>(j: Json, key: Seq<char>) -> Option<T::V> {
    match json_field(j, key) {
        Some(v) => T::json_decodes(v),
        None => None,
    }
}

/// Read a required field off `j`, decoding it as `T`.
pub fn read_decoded_field<T: FromJson>(j: &Json, key: &str) -> (r: Option<T>)
    ensures
        r.deep_view() == decoded_field_of::<T>(*j, key@),
{
    match j.get(key) {
        Some(v) => T::from_json(v),
        None => None,
    }
}

/// An optional field of `j`: absent and `null` both read as nothing, and a
/// present value must decode as `T`.
pub open spec fn opt_decoded_field_of<T: FromJson>(j: Json, key: Seq<char>) -> Option<
    Option<T::V>,
> {
    match json_field(j, key) {
        None => Some(None),
        Some(Json::Null) => Some(None),
        Some(v) => match T::json_decodes(v) {
            Some(m) => Some(Some(m)),
            None => None,
        },
    }
}

/// Read an optional field off `j`, decoding it as `T` when it is present.
pub fn read_opt_decoded_field<T: FromJson>(j: &Json, key: &str) -> (r: Option<Option<T>>)
    ensures
        r.deep_view() == opt_decoded_field_of::<T>(*j, key@),
{
    match j.get(key) {
        Some(v) => match v {
            Json::Null => Some(None),
            _ => match T::from_json(v) {
                Some(t) => Some(Some(t)),
                None => None,
            },
        },
        None => Some(None),
    }
}

} // verus!
