//! A JSON document as the request handlers read it.

use vstd::prelude::*;

verus! {

/// A parsed JSON value. Object members keep the order they were given in;
/// a lookup finds the first member with the key.
#[derive(Debug, PartialEq, Eq)]
pub enum JsonValue {
    Null,
    Bool(bool),
    /// A number written without fraction or exponent that fits in an `i64`.
    Int(i64),
    /// A non-negative number without fraction or exponent, beyond `i64`.
    UInt(u64),
    /// A number with a fraction or an exponent; its value is never read here.
    NonInteger,
    Str(String),
    Array(Vec<JsonValue>),
    Object(Vec<(String, JsonValue)>),
}

/// The value of the first member of `members` whose key is `key`.
pub open spec fn member_of(members: Seq<(String, JsonValue)>, key: Seq<char>) -> Option<JsonValue>
    decreases members.len(),
{
    if members.len() == 0 {
        None
    } else if members[0].0@ == key {
        Some(members[0].1)
    } else {
        member_of(members.drop_first(), key)
    }
}

/// The text held by `v`, if `v` is a string.
pub open spec fn text_of(v: Option<JsonValue>) -> Option<String> {
    match v {
        Some(JsonValue::Str(s)) => Some(s),
        _ => None,
    }
}

/// The value held by `v`, if `v` is a whole number that fits in an `i32`.
pub open spec fn int32_of(v: Option<JsonValue>) -> Option<i32> {
    match v {
        Some(JsonValue::Int(n)) => if i32::MIN <= n <= i32::MAX {
            Some(n as i32)
        } else {
            None
        },
        Some(JsonValue::UInt(n)) => if n <= i32::MAX {
            Some(n as i32)
        } else {
            None
        },
        _ => None,
    }
}

/// The texts held by `v`, if `v` is an array whose every element is a string.
pub open spec fn texts_of(v: Option<JsonValue>) -> Option<Seq<String>> {
    match v {
        Some(JsonValue::Array(items)) => if forall|i: int| 0 <= i < items@.len() ==> (#[trigger] items@[i]) is Str {
            Some(items@.map_values(|item: JsonValue| item->Str_0))
        } else {
            None
        },
        _ => None,
    }
}

impl JsonValue {
    /// The member `key` of an object; nothing for any other value.
    pub open spec fn field(self, key: Seq<char>) -> Option<JsonValue> {
        match self {
            JsonValue::Object(members) => member_of(members@, key),
            _ => None,
        }
    }

    /// Looks up the member `key` of an object.
    pub fn find(&self, key: &str) -> (r: Option<&JsonValue>)
        ensures
            r matches Some(v) ==> self.field(key@) == Some(*v),
            r is None ==> self.field(key@) is None,
    {
        match self {
            JsonValue::Object(members) => {
                let k = String::from_str(key);
                let mut i: usize = 0;
                assert(members@.subrange(0, members@.len() as int) =~= members@);
                while i < members.len()
                    invariant
                        0 <= i <= members.len(),
                        k@ == key@,
                        self.field(key@) == member_of(members@, key@),
                        member_of(members@, key@) == member_of(members@.subrange(i as int, members@.len() as int), key@),
                    decreases members.len() - i,
                {
                    proof {
                        let rest = members@.subrange(i as int, members@.len() as int);
                        assert(rest.drop_first() =~= members@.subrange(i + 1, members@.len() as int));
                        assert(rest[0] == members@[i as int]);
                    }
                    if members[i].0 == k {
                        return Some(&members[i].1);
                    }
                    i = i + 1;
                }
                None
            },
            _ => None,
        }
    }
}

impl JsonValue {
    /// The text of a string value.
    pub fn as_text(&self) -> (r: Option<String>)
        ensures
            r == text_of(Some(*self)),
    {
        match self {
            JsonValue::Str(s) => Some(s.clone()),
            _ => None,
        }
    }

    /// The value of a whole number that fits in an `i32`.
    pub fn as_i32(&self) -> (r: Option<i32>)
        ensures
            r == int32_of(Some(*self)),
    {
        match self {
            JsonValue::Int(n) => if i32::MIN as i64 <= *n && *n <= i32::MAX as i64 {
                Some(*n as i32)
            } else {
                None
            },
            JsonValue::UInt(n) => if *n <= i32::MAX as u64 {
                Some(*n as i32)
            } else {
                None
            },
            _ => None,
        }
    }

    /// The texts of an array of strings; nothing if any element is not a string.
    pub fn as_texts(&self) -> (r: Option<Vec<String>>)
        ensures
            r matches Some(t) ==> texts_of(Some(*self)) == Some(t@),
            r is None ==> texts_of(Some(*self)) is None,
    {
        match self {
            JsonValue::Array(items) => {
                let mut out: Vec<String> = Vec::new();
                let mut i: usize = 0;
                while i < items.len()
                    invariant
                        0 <= i <= items.len(),
                        out@.len() == i,
                        *self == JsonValue::Array(*items),
                        forall|j: int| 0 <= j < i ==> (#[trigger] items@[j]) is Str && out@[j] == items@[j]->Str_0,
                    decreases items.len() - i,
                {
                    match &items[i] {
                        JsonValue::Str(s) => out.push(s.clone()),
                        _ => {
                            assert(!(items@[i as int] is Str));
                            return None;
                        },
                    }
                    i = i + 1;
                }
                assert(out@ =~= items@.map_values(|item: JsonValue| item->Str_0));
                Some(out)
            },
            _ => None,
        }
    }
}

impl JsonValue {
    /// The text of member `key`, if it is a string.
    pub fn text_at(&self, key: &str) -> (r: Option<String>)
        ensures
            r == text_of(self.field(key@)),
    {
        match self.find(key) {
            Some(v) => v.as_text(),
            None => None,
        }
    }

    /// The value of member `key`, if it is a whole number that fits in an `i32`.
    pub fn i32_at(&self, key: &str) -> (r: Option<i32>)
        ensures
            r == int32_of(self.field(key@)),
    {
        match self.find(key) {
            Some(v) => v.as_i32(),
            None => None,
        }
    }

    /// The texts of member `key`, if it is an array of strings.
    pub fn texts_at(&self, key: &str) -> (r: Option<Vec<String>>)
        ensures
            r matches Some(t) ==> texts_of(self.field(key@)) == Some(t@),
            r is None ==> texts_of(self.field(key@)) is None,
    {
        match self.find(key) {
            Some(v) => v.as_texts(),
            None => None,
        }
    }

    /// Whether the value is an object with a member `key`.
    pub fn has(&self, key: &str) -> (r: bool)
        ensures
            r == self.field(key@) is Some,
    {
        self.find(key).is_some()
    }
}

} // verus!
