//! A JSON value as the rclone remote-control API exchanges it, with the
//! accessors that the sync logic reads it through (`get`, `as_str`, `as_u64`,
//! `as_array`, with serde_json's meaning).
use vstd::prelude::*;

verus! {

/// A JSON number, kept as serde_json keeps it: a non-negative integer, a
/// negative integer, or a float (held as its text, since only its rendering is
/// ever needed).
#[derive(Debug, Clone)]
pub enum JsonNumber {
    PosInt(u64),
    NegInt(i64),
    Float(String),
}

/// A JSON value. An object holds its members in order; where a key occurs
/// twice, its last occurrence counts, as when serde_json reads such an object.
#[derive(Debug)]
pub enum JsonValue {
    Null,
    Bool(bool),
    Number(JsonNumber),
    Str(String),
    Array(Vec<JsonValue>),
    Object(Vec<(String, JsonValue)>),
}

/// A parsed reply of the daemon together with its compact JSON text, which
/// the error messages quote. The text is supplied with the value by whoever
/// parses the reply (serde_json's rendering of it); nothing here derives one
/// from the other.
#[derive(Debug)]
pub struct JsonDoc {
    pub value: JsonValue,
    pub text: String,
}

/// The value of the last member named `key`.
pub open spec fn member(entries: Seq<(String, JsonValue)>, key: Seq<char>) -> Option<JsonValue>
    decreases entries.len(),
{
    if entries.len() == 0 {
        None
    } else if entries.last().0@ == key {
        Some(entries.last().1)
    } else {
        member(entries.drop_last(), key)
    }
}

/// Whether the members of an object have distinct keys.
pub open spec fn distinct_keys(entries: Seq<(String, JsonValue)>) -> bool {
    forall|i: int, j: int| 0 <= i < j < entries.len() ==> #[trigger] entries[i].0@ != #[trigger] entries[j].0@
}

impl JsonValue {
    /// `Value::get` with a string index: the member of an object, `None` for
    /// anything else.
    pub open spec fn get_spec(self, key: Seq<char>) -> Option<JsonValue> {
        match self {
            JsonValue::Object(entries) => member(entries@, key),
            _ => None,
        }
    }

    /// `Value::as_str`.
    pub open spec fn str_spec(self) -> Option<Seq<char>> {
        match self {
            JsonValue::Str(s) => Some(s@),
            _ => None,
        }
    }

    /// `Value::as_u64`: only a non-negative integer has one.
    pub open spec fn u64_spec(self) -> Option<u64> {
        match self {
            JsonValue::Number(JsonNumber::PosInt(n)) => Some(n),
            JsonValue::Number(JsonNumber::NegInt(i)) => if i >= 0 {
                Some(i as u64)
            } else {
                None
            },
            _ => None,
        }
    }

    /// Whether the value has the shape serde_json gives a value: a
    /// non-negative integer is held as `PosInt` (so `NegInt` holds only
    /// negative numbers), and the keys of each object are distinct.
    pub open spec fn well_formed(self) -> bool
        decreases self,
    {
        match self {
            JsonValue::Number(JsonNumber::NegInt(i)) => i < 0,
            JsonValue::Array(items) => forall|k: int|
                0 <= k < items@.len() ==> (#[trigger] items@[k]).well_formed(),
            JsonValue::Object(entries) => {
                &&& distinct_keys(entries@)
                &&& forall|k: int| 0 <= k < entries@.len() ==> (#[trigger] entries@[k]).1.well_formed()
            },
            _ => true,
        }
    }

    /// `Value::as_array`.
    pub open spec fn array_spec(self) -> Option<Seq<JsonValue>> {
        match self {
            JsonValue::Array(items) => Some(items@),
            _ => None,
        }
    }

    /// Looks up the member `key` of an object.
    pub fn get(&self, key: &str) -> (r: Option<&JsonValue>)
        ensures
            match r {
                Some(v) => self.get_spec(key@) == Some(*v),
                None => self.get_spec(key@) is None,
            },
    {
        match self {
            JsonValue::Object(entries) => {
                let k = String::from_str(key);
                let mut i: usize = entries.len();
                assert(entries@.subrange(0, entries@.len() as int) =~= entries@);
                while i > 0
                    invariant
                        self.get_spec(key@) == member(entries@, key@),
                        k@ == key@,
                        i <= entries.len(),
                        member(entries@, key@) == member(entries@.subrange(0, i as int), key@),
                    decreases i,
                {
                    assert(entries@.subrange(0, i as int).drop_last() =~= entries@.subrange(0, i - 1));
                    assert(entries@.subrange(0, i as int).last() == entries@[i - 1]);
                    if entries[i - 1].0 == k {
                        return Some(&entries[i - 1].1);
                    }
                    i = i - 1;
                }
                None
            },
            _ => None,
        }
    }

    /// The text of a string value.
    pub fn as_str(&self) -> (r: Option<&String>)
        ensures
            match r {
                Some(s) => self.str_spec() == Some(s@),
                None => self.str_spec() is None,
            },
    {
        match self {
            JsonValue::Str(s) => Some(s),
            _ => None,
        }
    }

    /// The value of a non-negative integer.
    pub fn as_u64(&self) -> (r: Option<u64>)
        ensures
            r == self.u64_spec(),
    {
        match self {
            JsonValue::Number(JsonNumber::PosInt(n)) => Some(*n),
            JsonValue::Number(JsonNumber::NegInt(i)) => if *i >= 0 {
                Some(*i as u64)
            } else {
                None
            },
            _ => None,
        }
    }

    /// The items of an array.
    pub fn as_array(&self) -> (r: Option<&Vec<JsonValue>>)
        ensures
            match r {
                Some(items) => self.array_spec() == Some(items@),
                None => self.array_spec() is None,
            },
    {
        match self {
            JsonValue::Array(items) => Some(items),
            _ => None,
        }
    }
}

} // verus!
