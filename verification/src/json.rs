//! The document model: a JSON value as the schema engine reads it.
//!
//! A number keeps the three shapes a JSON parser tells apart: a non-negative
//! integer, a negative integer, and a binary floating-point number, the last
//! one carried as its IEEE 754 bit pattern.

use vstd::prelude::*;

verus! {

/// A JSON number.
#[derive(Debug, Clone, Copy, PartialEq, Eq, Structural)]
pub enum JsonNumber {
    /// An integer that is zero or more.
    PosInt(u64),
    /// An integer below zero.
    NegInt(i64),
    /// A number written with a fraction or an exponent, as the bits of an `f64`.
    Float(u64),
}

/// One member of a JSON object.
#[derive(Debug)]
pub struct JsonField {
    pub key: String,
    pub value: JsonValue,
}

/// A JSON value.
#[derive(Debug)]
pub enum JsonValue {
    Null,
    Bool(bool),
    Number(JsonNumber),
    String(String),
    Array(Vec<JsonValue>),
    Object(JsonObject),
}

/// A JSON object: members in the order they were first inserted, no key twice.
#[derive(Debug)]
pub struct JsonObject {
    pub fields: Vec<JsonField>,
}

/// The keys of a sequence of members, in order.
pub open spec fn field_keys(fields: Seq<JsonField>) -> Seq<Seq<char>> {
    fields.map_values(|f: JsonField| f.key@)
}

/// No key occurs twice among `keys`.
pub open spec fn distinct_keys(keys: Seq<Seq<char>>) -> bool {
    forall|i: int, j: int| 0 <= i < j < keys.len() ==> keys[i] != keys[j]
}

/// The position of the first member with key `key`, or the length where there is none.
pub open spec fn position_of(keys: Seq<Seq<char>>, key: Seq<char>) -> int
    decreases keys.len(),
{
    if keys.len() == 0 {
        0
    } else if keys[0] == key {
        0
    } else {
        1 + position_of(keys.drop_first(), key)
    }
}

pub proof fn lemma_position_of(keys: Seq<Seq<char>>, key: Seq<char>)
    ensures
        0 <= position_of(keys, key) <= keys.len(),
        position_of(keys, key) < keys.len() ==> keys[position_of(keys, key)] == key,
        forall|i: int| 0 <= i < position_of(keys, key) ==> keys[i] != key,
        keys.contains(key) <==> position_of(keys, key) < keys.len(),
    decreases keys.len(),
{
    if keys.len() == 0 {
    } else if keys[0] == key {
    } else {
        let rest = keys.drop_first();
        lemma_position_of(rest, key);
        let p = position_of(rest, key);
        assert forall|i: int| 0 <= i < 1 + p implies keys[i] != key by {
            if i > 0 {
                assert(keys[i] == rest[i - 1]);
            }
        }
        if p < rest.len() {
            assert(keys[1 + p] == rest[p]);
        }
        if keys.contains(key) {
            let i = choose|i: int| 0 <= i < keys.len() && keys[i] == key;
            assert(rest[i - 1] == key);
        }
    }
}

/// The position of a key is the only index that holds the key and has no earlier one that does.
pub proof fn lemma_position_unique(keys: Seq<Seq<char>>, key: Seq<char>, p: int)
    requires
        0 <= p <= keys.len(),
        p < keys.len() ==> keys[p] == key,
        forall|i: int| 0 <= i < p ==> keys[i] != key,
    ensures
        position_of(keys, key) == p,
{
    lemma_position_of(keys, key);
    let q = position_of(keys, key);
    if q < p {
        assert(keys[q] == key);
    } else if p < q {
        assert(keys[p] == key);
    }
}

impl JsonNumber {
    /// The number as a signed 64-bit integer, where it is one.
    pub open spec fn int_value(self) -> Option<i64> {
        match self {
            JsonNumber::PosInt(v) => if v <= i64::MAX { Some(v as i64) } else { None },
            JsonNumber::NegInt(v) => Some(v),
            JsonNumber::Float(_) => None,
        }
    }

    /// The number as an `i64`, if it is an integer in that range.
    pub fn as_i64(&self) -> (r: Option<i64>)
        ensures
            r == self.int_value(),
    {
        match self {
            JsonNumber::PosInt(v) => if *v <= 0x7fff_ffff_ffff_ffffu64 { Some(*v as i64) } else { None },
            JsonNumber::NegInt(v) => Some(*v),
            JsonNumber::Float(_) => None,
        }
    }
}

impl JsonValue {
    /// The text of a string value.
    pub open spec fn text(self) -> Option<Seq<char>> {
        match self {
            JsonValue::String(s) => Some(s@),
            _ => None,
        }
    }

    /// The integer of a number value that fits in an `i64`.
    pub open spec fn int_value(self) -> Option<i64> {
        match self {
            JsonValue::Number(n) => n.int_value(),
            _ => None,
        }
    }

    pub fn is_null(&self) -> (r: bool)
        ensures
            r == (*self is Null),
    {
        match self {
            JsonValue::Null => true,
            _ => false,
        }
    }

    /// The object, if the value is one.
    pub fn as_object(&self) -> (r: Option<&JsonObject>)
        ensures
            match *self {
                JsonValue::Object(o) => r == Some(&o),
                _ => r is None,
            },
    {
        match self {
            JsonValue::Object(o) => Some(o),
            _ => None,
        }
    }

    /// The text, if the value is a string.
    pub fn as_str(&self) -> (r: Option<&str>)
        ensures
            r is Some <==> self.text() is Some,
            r is Some ==> r->0@ == self.text()->0,
    {
        match self {
            JsonValue::String(s) => Some(s.as_str()),
            _ => None,
        }
    }

    /// The integer, if the value is a number that fits in an `i64`.
    pub fn as_i64(&self) -> (r: Option<i64>)
        ensures
            r == self.int_value(),
    {
        match self {
            JsonValue::Number(n) => n.as_i64(),
            _ => None,
        }
    }
}

impl JsonObject {
    /// The keys, in order.
    pub open spec fn keys(self) -> Seq<Seq<char>> {
        field_keys(self.fields@)
    }

    /// No key occurs twice.
    pub open spec fn wf(self) -> bool {
        distinct_keys(self.keys())
    }

    /// An object without members.
    pub fn new() -> (r: JsonObject)
        ensures
            r.fields@.len() == 0,
            r.wf(),
    {
        JsonObject { fields: Vec::new() }
    }

    pub fn len(&self) -> (r: usize)
        ensures
            r == self.fields@.len(),
    {
        self.fields.len()
    }

    /// The position of the member with key `key`.
    pub fn find(&self, key: &str) -> (r: Option<usize>)
        ensures
            match r {
                Some(i) => i == position_of(self.keys(), key@) && i < self.fields@.len(),
                None => position_of(self.keys(), key@) == self.fields@.len(),
            },
    {
        let mut i: usize = 0;
        proof {
            lemma_position_of(self.keys(), key@);
        }
        while i < self.fields.len()
            invariant
                0 <= i <= self.fields@.len(),
                forall|j: int| 0 <= j < i ==> self.keys()[j] != key@,
                position_of(self.keys(), key@) >= i,
            decreases self.fields@.len() - i,
        {
            if *self.fields[i].key.as_str() == *key {
                proof {
                    lemma_position_of(self.keys(), key@);
                    assert(self.keys()[i as int] == key@);
                }
                return Some(i);
            }
            proof {
                lemma_position_of(self.keys(), key@);
                assert(self.keys()[i as int] != key@);
            }
            i = i + 1;
        }
        None
    }

    /// The value under `key`.
    pub fn get(&self, key: &str) -> (r: Option<&JsonValue>)
        ensures
            match r {
                Some(v) => self.keys().contains(key@) && *v == self.fields@[position_of(
                    self.keys(),
                    key@,
                )].value,
                None => !self.keys().contains(key@),
            },
    {
        proof {
            lemma_position_of(self.keys(), key@);
        }
        match self.find(key) {
            Some(i) => Some(&self.fields[i].value),
            None => None,
        }
    }

    /// Puts `value` under `key`: in place of the value that was there, or as a new last member.
    pub fn insert(&mut self, key: String, value: JsonValue) -> (r: Option<JsonValue>)
        ensures
            old(self).wf() ==> final(self).wf(),
            match r {
                Some(previous) => {
                    let i = position_of(old(self).keys(), key@);
                    &&& old(self).keys().contains(key@)
                    &&& previous == old(self).fields@[i].value
                    &&& final(self).keys() == old(self).keys()
                    &&& final(self).fields@.len() == old(self).fields@.len()
                    &&& final(self).fields@[i].value == value
                    &&& forall|j: int|
                        0 <= j < old(self).fields@.len() && j != i ==> final(self).fields@[j]
                            == old(self).fields@[j]
                },
                None => {
                    &&& !old(self).keys().contains(key@)
                    &&& final(self).fields@ == old(self).fields@.push(
                        JsonField { key: key, value: value },
                    )
                },
            },
    {
        proof {
            lemma_position_of(self.keys(), key@);
        }
        match self.find(key.as_str()) {
            Some(i) => {
                let ghost before = self.fields@;
                let mut slot = self.fields.remove(i);
                let previous = slot.value;
                slot.value = value;
                self.fields.insert(i, slot);
                proof {
                    assert(self.fields@.len() == before.len());
                    assert forall|j: int| 0 <= j < before.len() implies #[trigger] self.keys()[j]
                        == field_keys(before)[j] by {}
                    assert(self.keys() =~= field_keys(before));
                }
                Some(previous)
            },
            None => {
                let ghost before = self.fields@;
                self.fields.push(JsonField { key, value });
                proof {
                    assert forall|i: int, j: int|
                        old(self).wf() && 0 <= i < j < self.keys().len() implies self.keys()[i]
                        != self.keys()[j] by {
                        assert(self.keys()[i] == field_keys(before)[i]);
                        if j < before.len() {
                            assert(self.keys()[j] == field_keys(before)[j]);
                        } else {
                            assert(self.keys()[j] == key@);
                        }
                    }
                }
                None
            },
        }
    }
}

} // verus!
