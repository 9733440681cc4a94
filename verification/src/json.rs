use vstd::prelude::*;

verus! {

/// A JSON number as the JSON reader holds it: a non-negative integer, a
/// negative integer, or any other number as a finite IEEE-754 double, carried
/// by its bit pattern (`f64::to_bits`).
pub enum JsonNumber {
    PosInt(u64),
    NegInt(i64),
    Float(u64),
}

/// The sign bit of an IEEE-754 double.
pub const DOUBLE_SIGN_BIT: u64 = 0x8000_0000_0000_0000;

/// For a finite double with bit pattern `bits` and a positive finite double
/// `bound` with bit pattern `bound_bits`: whether the first is below the
/// second. Negative doubles (sign bit set, `-0.0` included) are below any
/// positive bound; among non-negative doubles, the order of the values is the
/// order of their bit patterns.
pub open spec fn double_below(bits: u64, bound_bits: u64) -> bool {
    bits >= DOUBLE_SIGN_BIT || bits < bound_bits
}

/// One `key: value` pair of a JSON object.
pub struct JsonMember {
    pub key: String,
    pub value: JsonValue,
}

/// A JSON document.
pub enum JsonValue {
    Null,
    Bool(bool),
    Number(JsonNumber),
    Text(String),
    Array(Vec<JsonValue>),
    Object(Vec<JsonMember>),
}

/// The value stored under `key` among `members`: the first member with that key.
pub open spec fn lookup_member(members: Seq<JsonMember>, key: Seq<char>) -> Option<JsonValue>
    decreases members.len(),
{
    if members.len() == 0 {
        None
    } else if members[0].key@ == key {
        Some(members[0].value)
    } else {
        lookup_member(members.drop_first(), key)
    }
}

impl JsonValue {
    /// The value as a signed 64-bit integer: an integer number that fits, and
    /// nothing for anything else.
    pub open spec fn to_i64(self) -> Option<i64> {
        match self {
            JsonValue::Number(JsonNumber::PosInt(u)) => if u <= i64::MAX {
                Some(u as i64)
            } else {
                None
            },
            JsonValue::Number(JsonNumber::NegInt(i)) => Some(i),
            _ => None,
        }
    }

    /// The value as a signed 64-bit integer, where it is one.
    pub fn as_i64(&self) -> (r: Option<i64>)
        ensures
            r == self.to_i64(),
    {
        match self {
            JsonValue::Number(JsonNumber::PosInt(u)) => if *u <= 9223372036854775807u64 {
                Some(*u as i64)
            } else {
                None
            },
            JsonValue::Number(JsonNumber::NegInt(i)) => Some(*i),
            _ => None,
        }
    }

    /// An object with no members.
    pub open spec fn is_empty_object(self) -> bool {
        self matches JsonValue::Object(members) && members@.len() == 0
    }

    /// The member `key` of an object; nothing for any other value.
    pub open spec fn member(self, key: Seq<char>) -> Option<JsonValue> {
        match self {
            JsonValue::Object(members) => lookup_member(members@, key),
            _ => None,
        }
    }

    /// The member `key` of an object (the first with that key), where there is one.
    pub fn get(&self, key: &String) -> (r: Option<&JsonValue>)
        ensures
            match r {
                Some(v) => self.member(key@) == Some(*v),
                None => self.member(key@) is None,
            },
    {
        match self {
            JsonValue::Object(members) => {
                let mut i: usize = 0;
                assert(members@.skip(0) =~= members@);
                while i < members.len()
                    invariant
                        0 <= i <= members@.len(),
                        self.member(key@) == lookup_member(members@, key@),
                        lookup_member(members@, key@) == lookup_member(members@.skip(i as int), key@),
                    decreases members@.len() - i,
                {
                    assert(members@.skip(i as int).drop_first() =~= members@.skip(i + 1));
                    if members[i].key == *key {
                        assert(members@.skip(i as int)[0] == members@[i as int]);
                        return Some(&members[i].value);
                    }
                    i = i + 1;
                }
                None
            },
            _ => None,
        }
    }
}

} // verus!
