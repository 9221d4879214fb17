//! A plain-data model of decoded JSON.
//!
//! The remote API answers with JSON text.  serde_json does the textual
//! parsing (behind trusted wrappers); everything the library then reads out
//! of a decoded document — field lookups, integers, strings, flags — is
//! verified against the spec functions defined here.
//!
//! Numbers that fit in `u64` (identifiers, timestamps, error codes) are kept
//! as integers; any other number is carried as its decimal text, so the
//! library itself never touches floating point.

use vstd::prelude::*;

verus! {

/// A decoded JSON document.  Object fields keep the decoder's order.
pub enum JsonValue {
    Null,
    Bool(bool),
    UInt(u64),
    NumText(String),
    Text(String),
    Array(Vec<JsonValue>),
    Object(Vec<(String, JsonValue)>),
}

/// The value of the first field named `key`, if any.
pub open spec fn lookup_fields(fs: Seq<(String, JsonValue)>, key: Seq<char>) -> Option<JsonValue>
    decreases fs.len(),
{
    if fs.len() == 0 {
        Option::None
    } else if fs[0].0@ == key {
        Option::Some(fs[0].1)
    } else {
        lookup_fields(fs.drop_first(), key)
    }
}

impl JsonValue {
    /// Field lookup on an object; `None` on any other kind of value.
    pub open spec fn spec_field(self, key: Seq<char>) -> Option<JsonValue> {
        match self {
            JsonValue::Object(fs) => lookup_fields(fs@, key),
            _ => Option::None,
        }
    }

    pub open spec fn spec_u64(self) -> Option<u64> {
        match self {
            JsonValue::UInt(u) => Option::Some(u),
            _ => Option::None,
        }
    }

    pub open spec fn spec_text(self) -> Option<Seq<char>> {
        match self {
            JsonValue::Text(s) => Option::Some(s@),
            _ => Option::None,
        }
    }

    pub open spec fn spec_bool(self) -> Option<bool> {
        match self {
            JsonValue::Bool(b) => Option::Some(b),
            _ => Option::None,
        }
    }

    pub open spec fn spec_is_object(self) -> bool {
        self matches JsonValue::Object(_)
    }

    /// Looks up `key` on an object value.
    pub fn get<'a>(&'a self, key: &str) -> (r: Option<&'a JsonValue>)
        ensures
            match r {
                Option::Some(v) => self.spec_field(key@) == Option::Some(*v),
                Option::None => self.spec_field(key@) is None,
            },
    {
        match self {
            JsonValue::Object(fs) => {
                let ks: String = key.to_owned();
                let n = fs.len();
                let mut i: usize = 0;
                proof {
                    assert(fs@.skip(0) =~= fs@);
                    assert(self.spec_field(key@) == lookup_fields(fs@, key@));
                }
                while i < n
                    invariant
                        i <= n,
                        n == fs@.len(),
                        ks@ == key@,
                        self.spec_field(key@) == lookup_fields(fs@.skip(i as int), key@),
                    decreases n - i,
                {
                    let entry = &fs[i];
                    if entry.0 == ks {
                        proof {
                            assert(fs@.skip(i as int)[0] == fs@[i as int]);
                            assert(lookup_fields(fs@.skip(i as int), key@) == Option::Some(
                                fs@[i as int].1,
                            ));
                            assert(self.spec_field(key@) == Option::Some(fs@[i as int].1));
                            assert(entry.1 == fs@[i as int].1);
                        }
                        return Option::Some(&entry.1);
                    }
                    proof {
                        assert(fs@.skip(i as int).drop_first() =~= fs@.skip(i as int + 1));
                        assert(fs@.skip(i as int)[0] == fs@[i as int]);
                    }
                    i += 1;
                }
                proof {
                    assert(fs@.skip(n as int).len() == 0);
                }
                Option::None
            },
            _ => Option::None,
        }
    }

    /// The value as an unsigned integer, if it is one.
    pub fn get_u64(&self) -> (r: Option<u64>)
        ensures
            r == self.spec_u64(),
    {
        match self {
            JsonValue::UInt(u) => Option::Some(*u),
            _ => Option::None,
        }
    }

    /// The value as a boolean, if it is one.
    pub fn get_bool(&self) -> (r: Option<bool>)
        ensures
            r == self.spec_bool(),
    {
        match self {
            JsonValue::Bool(b) => Option::Some(*b),
            _ => Option::None,
        }
    }

    /// Whether the value is an object.
    pub fn is_object(&self) -> (r: bool)
        ensures
            r == self.spec_is_object(),
    {
        match self {
            JsonValue::Object(_) => true,
            _ => false,
        }
    }
}

#[verifier::external_type_specification]
#[verifier::external_body]
pub struct ExValue(serde_json::Value);

/// What decoding JSON text yields in the library's model: `None` on a
/// syntax error, and otherwise the value tree that [`parse_json`] builds.
/// The decoding is a function of the text alone, so contracts downstream
/// can speak of the result by this name.
pub uninterp spec fn parsed_of(body: Seq<char>) -> Option<JsonValue>;

/// Relies on serde_json's `Value` variants and `Number::as_u64` /
/// `to_string`: converts a decoded value, variant by variant, into the
/// library's plain model.  Numbers outside `u64` keep their decimal text.
/// Called only from [`parse_json`] below, whose contract covers it.
#[verifier::external_body]
fn convert_json(v: serde_json::Value) -> JsonValue {
    match v {
        serde_json::Value::Null => JsonValue::Null,
        serde_json::Value::Bool(b) => JsonValue::Bool(b),
        serde_json::Value::Number(n) => match n.as_u64() {
            Some(u) => JsonValue::UInt(u),
            None => JsonValue::NumText(n.to_string()),
        },
        serde_json::Value::String(s) => JsonValue::Text(s),
        serde_json::Value::Array(a) => JsonValue::Array(a.into_iter().map(convert_json).collect()),
        serde_json::Value::Object(m) => JsonValue::Object(
            m.into_iter().map(|(k, f)| (k, convert_json(f))).collect(),
        ),
    }
}

/// Relies on serde_json's `from_str`: decodes JSON text, `None` exactly on
/// a syntax error, and converts the decoded value (through `convert_json`
/// above) into the library's plain model, named by [`parsed_of`].
#[verifier::external_body]
pub(crate) fn parse_json(body: &str) -> (r: Option<JsonValue>)
    ensures
        r == parsed_of(body@),
{
    match serde_json::from_str::<serde_json::Value>(body) {
        Ok(v) => Some(convert_json(v)),
        Err(_) => None,
    }
}

} // verus!
