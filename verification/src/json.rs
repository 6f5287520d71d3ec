use vstd::prelude::*;

verus! {

/// A JSON document as plain values. A number keeps its decimal text, so that
/// no floating-point value is needed to hold it.
#[derive(Debug)]
pub enum JsonValue {
    Null,
    Bool(bool),
    Number(String),
    String(String),
    Array(Vec<JsonValue>),
    Object(Vec<(String, JsonValue)>),
}

/// The value of the first member named `key`, if any.
pub open spec fn find_member(members: Seq<(String, JsonValue)>, key: Seq<char>) -> Option<JsonValue>
    decreases members.len(),
{
    if members.len() == 0 {
        None
    } else if members[0].0@ == key {
        Some(members[0].1)
    } else {
        find_member(members.drop_first(), key)
    }
}

/// The member `key` of an object; `None` for a missing member or a value that
/// is not an object (as indexing a `serde_json::Value` gives `Null` there).
pub open spec fn member_of(v: JsonValue, key: Seq<char>) -> Option<JsonValue> {
    match v {
        JsonValue::Object(members) => find_member(members@, key),
        _ => None,
    }
}

/// The element `i` of an array; `None` past its end or for a value that is not an array.
pub open spec fn element_of(v: JsonValue, i: int) -> Option<JsonValue> {
    match v {
        JsonValue::Array(items) => if 0 <= i < items@.len() {
            Some(items@[i])
        } else {
            None
        },
        _ => None,
    }
}

/// `v` is the string `s`.
pub open spec fn is_text(v: JsonValue, s: Seq<char>) -> bool {
    v matches JsonValue::String(t) && t@ == s
}

/// `v` is the number written `digits`.
pub open spec fn is_number(v: JsonValue, digits: Seq<char>) -> bool {
    v matches JsonValue::Number(t) && t@ == digits
}

/// `v` is an object whose members carry exactly `keys`, in that order.
pub open spec fn has_members(v: JsonValue, keys: Seq<Seq<char>>) -> bool {
    v matches JsonValue::Object(m) && m@.len() == keys.len() && forall|i: int|
        0 <= i < keys.len() ==> #[trigger] m@[i].0@ == keys[i]
}

/// The value of the member at position `i` of an object.
pub open spec fn member_at(v: JsonValue, i: int) -> JsonValue {
    match v {
        JsonValue::Object(m) => m@[i].1,
        _ => JsonValue::Null,
    }
}

/// `v` is an array of `n` elements.
pub open spec fn is_array_of(v: JsonValue, n: nat) -> bool {
    v matches JsonValue::Array(items) && items@.len() == n
}

/// The element at position `i` of an array.
pub open spec fn item_at(v: JsonValue, i: int) -> JsonValue {
    match v {
        JsonValue::Array(items) => items@[i],
        _ => JsonValue::Null,
    }
}

impl JsonValue {
    /// The member `key`, as indexing an object by a string does.
    pub fn member(&self, key: &String) -> (res: Option<&JsonValue>)
        ensures
            match res {
                Some(r) => member_of(*self, key@) == Some(*r),
                None => member_of(*self, key@) is None,
            },
    {
        match self {
            JsonValue::Object(members) => {
                assert(member_of(*self, key@) == find_member(members@, key@));
                let mut i: usize = 0;
                assert(members@.skip(0) == members@);
                while i < members.len()
                    invariant
                        i <= members@.len(),
                        member_of(*self, key@) == find_member(members@.skip(i as int), key@),
                    decreases members@.len() - i,
                {
                    assert(members@.skip(i as int).drop_first() == members@.skip(i + 1));
                    assert(members@.skip(i as int)[0] == members@[i as int]);
                    if members[i].0 == *key {
                        assert(find_member(members@.skip(i as int), key@) == Some(members@[i as int].1));
                        return Some(&members[i].1);
                    }
                    i = i + 1;
                }
                None
            },
            _ => None,
        }
    }

    /// The element `i`, as indexing an array by a number does.
    pub fn element(&self, i: usize) -> (res: Option<&JsonValue>)
        ensures
            match res {
                Some(r) => element_of(*self, i as int) == Some(*r),
                None => element_of(*self, i as int) is None,
            },
    {
        match self {
            JsonValue::Array(items) => if i < items.len() {
                Some(&items[i])
            } else {
                None
            },
            _ => None,
        }
    }
}

} // verus!
