//! JSON values as the library reads and builds them.
use vstd::prelude::*;

use crate::text::same_text;

verus! {

/// A JSON value. Numbers are kept as an unsigned integer, a negative
/// integer, or, for any other number, its decimal text.
#[derive(Debug, PartialEq)]
pub enum Json {
    Null,
    Bool(bool),
    UInt(u64),
    Int(i64),
    Decimal(String),
    Str(String),
    Array(Vec<Json>),
    /// The names of the members, and their values in the same order.
    Object(Vec<String>, Vec<Json>),
}


/// The value of the first member named `key`.
pub open spec fn member_of(keys: Seq<String>, values: Seq<Json>, key: Seq<char>) -> Option<Json>
    decreases keys.len(),
{
    if keys.len() == 0 || values.len() == 0 {
        None
    } else if keys[0]@ == key {
        Some(values[0])
    } else {
        member_of(keys.drop_first(), values.drop_first(), key)
    }
}

proof fn lemma_member_of_prefix(keys: Seq<String>, values: Seq<Json>, key: Seq<char>, i: int)
    requires
        0 <= i <= keys.len(),
        i <= values.len(),
        forall|j: int| 0 <= j < i ==> (#[trigger] keys[j])@ != key,
    ensures
        member_of(keys, values, key) == member_of(keys.skip(i), values.skip(i), key),
    decreases i,
{
    if i > 0 {
        assert(keys[0]@ != key);
        assert(member_of(keys, values, key) == member_of(keys.drop_first(), values.drop_first(), key));
        assert forall|j: int| 0 <= j < i - 1 implies (#[trigger] keys.drop_first()[j])@ != key by {
            assert(keys.drop_first()[j] == keys[j + 1]);
        }
        lemma_member_of_prefix(keys.drop_first(), values.drop_first(), key, i - 1);
        assert(keys.drop_first().skip(i - 1) =~= keys.skip(i));
        assert(values.drop_first().skip(i - 1) =~= values.skip(i));
    } else {
        assert(keys.skip(0) =~= keys);
        assert(values.skip(0) =~= values);
    }
}

proof fn lemma_member_found(keys: Seq<String>, values: Seq<Json>, key: Seq<char>, i: int)
    requires
        0 <= i < keys.len(),
        i < values.len(),
        keys[i]@ == key,
        forall|j: int| 0 <= j < i ==> (#[trigger] keys[j])@ != key,
    ensures
        member_of(keys, values, key) == Some(values[i]),
{
    lemma_member_of_prefix(keys, values, key, i);
    assert(keys.skip(i)[0] == keys[i]);
    assert(values.skip(i)[0] == values[i]);
}

proof fn lemma_member_absent(keys: Seq<String>, values: Seq<Json>, key: Seq<char>, i: int)
    requires
        0 <= i <= keys.len(),
        i <= values.len(),
        i == keys.len() || i == values.len(),
        forall|j: int| 0 <= j < i ==> (#[trigger] keys[j])@ != key,
    ensures
        member_of(keys, values, key) is None,
{
    lemma_member_of_prefix(keys, values, key, i);
    assert(keys.skip(i).len() == 0 || values.skip(i).len() == 0);
}

proof fn lemma_member_of_remove(keys: Seq<String>, values: Seq<Json>, i: int, key: Seq<char>)
    requires
        0 <= i < keys.len(),
        i < values.len(),
        keys[i]@ != key,
    ensures
        member_of(keys.remove(i), values.remove(i), key) == member_of(keys, values, key)
            || exists|j: int| 0 <= j < i && (#[trigger] keys[j])@ == keys[i]@,
    decreases i,
{
    if i == 0 {
        assert(keys.remove(0) =~= keys.drop_first());
        assert(values.remove(0) =~= values.drop_first());
    } else {
        assert(keys.remove(i)[0] == keys[0]);
        assert(values.remove(i)[0] == values[0]);
        if keys[0]@ != key && keys[0]@ != keys[i]@ {
            assert(keys.remove(i).drop_first() =~= keys.drop_first().remove(i - 1));
            assert(values.remove(i).drop_first() =~= values.drop_first().remove(i - 1));
            lemma_member_of_remove(keys.drop_first(), values.drop_first(), i - 1, key);
            if exists|j: int| 0 <= j < i - 1 && (#[trigger] keys.drop_first()[j])@ == keys[i]@ {
                let j = choose|j: int| 0 <= j < i - 1 && (#[trigger] keys.drop_first()[j])@ == keys[i]@;
                assert(keys[j + 1]@ == keys[i]@);
            }
        }
    }
}

proof fn lemma_member_of_push(keys: Seq<String>, values: Seq<Json>, a: String, v: Json, k: Seq<char>)
    requires
        keys.len() == values.len(),
    ensures
        member_of(keys.push(a), values.push(v), k) == match member_of(keys, values, k) {
            Some(x) => Some(x),
            None => if a@ == k {
                Some(v)
            } else {
                None
            },
        },
    decreases keys.len(),
{
    if keys.len() == 0 {
        assert(keys.push(a).drop_first() =~= Seq::<String>::empty());
        assert(keys.push(a)[0] == a);
        assert(values.push(v)[0] == v);
        if a@ != k {
            assert(member_of(keys.push(a), values.push(v), k) == member_of(
                keys.push(a).drop_first(),
                values.push(v).drop_first(),
                k,
            ));
        }
    } else {
        assert(keys.push(a)[0] == keys[0]);
        assert(values.push(v)[0] == values[0]);
        assert(keys.push(a).drop_first() =~= keys.drop_first().push(a));
        assert(values.push(v).drop_first() =~= values.drop_first().push(v));
        lemma_member_of_push(keys.drop_first(), values.drop_first(), a, v, k);
        if keys[0]@ != k {
            assert(member_of(keys.push(a), values.push(v), k) == member_of(
                keys.drop_first().push(a),
                values.drop_first().push(v),
                k,
            ));
            assert(member_of(keys, values, k) == member_of(keys.drop_first(), values.drop_first(), k));
        }
    }
}

impl Json {
    /// The member `key` of an object; nothing for other values.
    pub open spec fn get_spec(self, key: Seq<char>) -> Option<Json> {
        match self {
            Json::Object(k, v) => member_of(k@, v@, key),
            _ => None,
        }
    }

    pub open spec fn text_spec(self) -> Option<Seq<char>> {
        match self {
            Json::Str(s) => Some(s@),
            _ => None,
        }
    }

    pub fn get(&self, key: &str) -> (r: Option<&Json>)
        ensures
            r matches Some(v) ==> self.get_spec(key@) == Some(*v),
            r is None ==> self.get_spec(key@) is None,
    {
        match self {
            Json::Object(keys, values) => {
                let ghost expected = member_of(keys@, values@, key@);
                assert(self.get_spec(key@) == expected);
                let mut i: usize = 0;
                while i < keys.len() && i < values.len()
                    invariant
                        expected == member_of(keys@, values@, key@),
                        expected == self.get_spec(key@),
                        i <= keys@.len(),
                        i <= values@.len(),
                        forall|j: int| 0 <= j < i ==> (#[trigger] keys@[j])@ != key@,
                    decreases keys.len() - i,
                {
                    if same_text(keys[i].as_str(), key) {
                        proof {
                            lemma_member_found(keys@, values@, key@, i as int);
                        }
                        return Some(&values[i]);
                    }
                    i = i + 1;
                }
                proof {
                    lemma_member_absent(keys@, values@, key@, i as int);
                }
                None
            },
            _ => None,
        }
    }

    /// Whether the object has a member `key`.
    pub fn has(&self, key: &str) -> (r: bool)
        ensures
            r == self.get_spec(key@) is Some,
    {
        self.get(key).is_some()
    }

    /// Takes the member `key` out of the value.
    pub fn take(self, key: &str) -> (r: Option<Json>)
        ensures
            r == self.get_spec(key@),
    {
        let ghost expected = self.get_spec(key@);
        match self {
            Json::Object(keys, values) => {
                let mut values = values;
                let mut i: usize = 0;
                while i < keys.len() && i < values.len()
                    invariant
                        expected == member_of(keys@, values@, key@),
                        expected == self.get_spec(key@),
                        i <= keys@.len(),
                        i <= values@.len(),
                        forall|j: int| 0 <= j < i ==> (#[trigger] keys@[j])@ != key@,
                    decreases keys.len() - i,
                {
                    if same_text(keys[i].as_str(), key) {
                        proof {
                            lemma_member_found(keys@, values@, key@, i as int);
                        }
                        return Some(values.remove(i));
                    }
                    i = i + 1;
                }
                proof {
                    lemma_member_absent(keys@, values@, key@, i as int);
                }
                None
            },
            _ => None,
        }
    }

    /// Takes the member `key` out of an object; every other member stays.
    pub fn remove(&mut self, key: &str) -> (r: Option<Json>)
        ensures
            r == old(self).get_spec(key@),
            forall|k: Seq<char>| k != key@ ==> #[trigger] final(self).get_spec(k) == old(self).get_spec(k),
    {
        let ghost before = *old(self);
        let mut taken = Json::Null;
        core::mem::swap(&mut taken, self);
        assert(taken == before);
        match taken {
            Json::Object(keys, values) => {
                let ghost ks = keys@;
                let ghost vs = values@;
                assert(forall|k: Seq<char>| before.get_spec(k) == member_of(ks, vs, k));
                let mut keys = keys;
                let mut values = values;
                let mut i: usize = 0;
                while i < keys.len() && i < values.len()
                    invariant
                        keys@ == ks,
                        values@ == vs,
                        i <= ks.len(),
                        i <= vs.len(),
                        forall|j: int| 0 <= j < i ==> (#[trigger] ks[j])@ != key@,
                        forall|k: Seq<char>| before.get_spec(k) == member_of(ks, vs, k),
                        before == *old(self),
                    decreases keys.len() - i,
                {
                    if same_text(keys[i].as_str(), key) {
                        proof {
                            lemma_member_found(ks, vs, key@, i as int);
                            assert forall|k: Seq<char>| k != key@ implies member_of(
                                ks.remove(i as int),
                                vs.remove(i as int),
                                k,
                            ) == member_of(ks, vs, k) by {
                                lemma_member_of_remove(ks, vs, i as int, k);
                            }
                        }
                        keys.remove(i);
                        let v = values.remove(i);
                        *self = Json::Object(keys, values);
                        return Some(v);
                    }
                    i = i + 1;
                }
                proof {
                    lemma_member_absent(ks, vs, key@, i as int);
                }
                *self = Json::Object(keys, values);
                None
            },
            other => {
                *self = other;
                None
            },
        }
    }

    /// The text of a JSON string.
    pub fn as_text(&self) -> (r: Option<&String>)
        ensures
            r matches Some(s) ==> self.text_spec() == Some(s@),
            r is None ==> self.text_spec() is None,
    {
        match self {
            Json::Str(s) => Some(s),
            _ => None,
        }
    }

    /// A non-negative integer.
    pub fn as_u64(&self) -> (r: Option<u64>)
        ensures
            r == match *self {
                Json::UInt(n) => Some(n),
                _ => None::<u64>,
            },
    {
        match self {
            Json::UInt(n) => Some(*n),
            _ => None,
        }
    }

    /// An integer that fits in an `i64`.
    pub fn as_i64(&self) -> (r: Option<i64>)
        ensures
            r == match *self {
                Json::Int(n) => Some(n),
                Json::UInt(n) => if n <= i64::MAX as u64 {
                    Some(n as i64)
                } else {
                    None::<i64>
                },
                _ => None::<i64>,
            },
    {
        match self {
            Json::Int(n) => Some(*n),
            Json::UInt(n) => if *n <= i64::MAX as u64 {
                Some(*n as i64)
            } else {
                None
            },
            _ => None,
        }
    }

    /// The elements of an array.
    pub fn into_items(self) -> (r: Option<Vec<Json>>)
        ensures
            self matches Json::Array(v) ==> r == Some(v),
            !(self is Array) ==> r is None,
    {
        match self {
            Json::Array(v) => Some(v),
            _ => None,
        }
    }
}

/// The names of an object's members, in order.
pub open spec fn keys_of(keys: Seq<String>) -> Seq<Seq<char>> {
    keys.map_values(|k: String| k@)
}

/// The text of the string member `key`.
pub open spec fn text_member(j: Json, key: Seq<char>) -> Option<Seq<char>> {
    match j.get_spec(key) {
        Some(v) => v.text_spec(),
        None => None,
    }
}

/// An object without members.
pub open spec fn is_empty_object(j: Json) -> bool {
    j matches Json::Object(k, v) && k@.len() == 0 && v@.len() == 0
}

/// The JSON string `s`.
pub fn json_str(s: &str) -> (r: Json)
    ensures
        r matches Json::Str(t) && t@ == s@,
{
    Json::Str(s.to_owned())
}

/// An object under construction: member names and values, in order.
pub struct ObjectBuilder {
    pub keys: Vec<String>,
    pub values: Vec<Json>,
}

impl ObjectBuilder {
    pub fn new() -> (r: Self)
        ensures
            r.keys@.len() == 0,
            r.values@.len() == 0,
            forall|k: Seq<char>| #[trigger] r.member(k) is None,
    {
        ObjectBuilder { keys: Vec::new(), values: Vec::new() }
    }

    pub open spec fn member(&self, k: Seq<char>) -> Option<Json> {
        member_of(self.keys@, self.values@, k)
    }

    /// Adds the member `key` after those already there; a name already
    /// present keeps its first value.
    pub fn push(&mut self, key: &str, value: Json)
        requires
            old(self).keys@.len() == old(self).values@.len(),
        ensures
            final(self).keys@.len() == final(self).values@.len(),
            forall|k: Seq<char>| #[trigger] final(self).member(k) == match old(self).member(k) {
                Some(x) => Some(x),
                None => if k == key@ {
                    Some(value)
                } else {
                    None
                },
            },
            keys_of(final(self).keys@) == keys_of(old(self).keys@).push(key@),
            final(self).keys@.len() == old(self).keys@.len() + 1,
            final(self).values@ == old(self).values@.push(value),
            final(self).keys@.drop_last() == old(self).keys@,
            final(self).keys@.last()@ == key@,
    {
        let ghost before = self.keys@;
        self.keys.push(key.to_owned());
        self.values.push(value);
        assert(self.keys@.drop_last() =~= before);
        proof {
            assert forall|k: Seq<char>| #[trigger] final(self).member(k) == match old(self).member(k) {
                Some(x) => Some(x),
                None => if k == key@ {
                    Some(value)
                } else {
                    None
                },
            } by {
                lemma_member_of_push(old(self).keys@, old(self).values@, self.keys@.last(), value, k);
                assert(self.keys@ =~= old(self).keys@.push(self.keys@.last()));
            }
        }
        assert(keys_of(self.keys@) =~= keys_of(before).push(key@));
    }

    pub fn build(self) -> (r: Json)
        ensures
            r == Json::Object(self.keys, self.values),
            forall|k: Seq<char>| #[trigger] r.get_spec(k) == self.member(k),
    {
        Json::Object(self.keys, self.values)
    }
}

/// An object with the one member `key`.
pub fn object1(key: &str, value: Json) -> (r: Json)
    ensures
        r.get_spec(key@) == Some(value),
        r matches Json::Object(k, v) && keys_of(k@) == seq![key@],
{
    let mut b = ObjectBuilder::new();
    b.push(key, value);
    let r = b.build();
    assert(r.get_spec(key@) == Some(value));
    r
}

} // verus!
