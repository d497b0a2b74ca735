//! A JSON value type of the library's own and its mathematical model.

use vstd::prelude::*;

verus! {

/// A JSON value whose object members keep their insertion order.
#[derive(Debug)]
pub enum JsonValue {
    Null,
    Bool(bool),
    Number(i64),
    Str(String),
    Array(Vec<JsonValue>),
    Object(Vec<(String, JsonValue)>),
}

/// Mathematical model of a JSON value.
#[verifier::ext_equal]
pub enum Json {
    Null,
    Bool(bool),
    Number(int),
    Str(Seq<char>),
    Array(Seq<Json>),
    Object(Seq<(Seq<char>, Json)>),
}

/// The model of a JSON value.
pub open spec fn json_view(j: JsonValue) -> Json
    decreases j, 0nat,
{
    match j {
        JsonValue::Null => Json::Null,
        JsonValue::Bool(b) => Json::Bool(b),
        JsonValue::Number(n) => Json::Number(n as int),
        JsonValue::Str(s) => Json::Str(s@),
        JsonValue::Array(v) => Json::Array(json_seq_view(v@)),
        JsonValue::Object(m) => Json::Object(json_members_view(m@)),
    }
}

/// The models of a sequence of JSON values.
pub open spec fn json_seq_view(s: Seq<JsonValue>) -> Seq<Json>
    decreases s, s.len(),
{
    if s.len() == 0 {
        Seq::empty()
    } else {
        json_seq_view(s.drop_last()).push(json_view(s.last()))
    }
}

/// The models of the members of a JSON object.
pub open spec fn json_members_view(s: Seq<(String, JsonValue)>) -> Seq<(Seq<char>, Json)>
    decreases s, s.len(),
{
    if s.len() == 0 {
        Seq::empty()
    } else {
        json_members_view(s.drop_last()).push((s.last().0@, json_view(s.last().1)))
    }
}

impl View for JsonValue {
    type V = Json;

    open spec fn view(&self) -> Json {
        json_view(*self)
    }
}

/// The models of a sequence of JSON values, element by element.
pub proof fn lemma_json_seq_view(s: Seq<JsonValue>)
    ensures
        json_seq_view(s).len() == s.len(),
        forall|i: int| 0 <= i < s.len() ==> json_seq_view(s)[i] == json_view(#[trigger] s[i]),
    decreases s.len(),
{
    if s.len() > 0 {
        let t = s.drop_last();
        lemma_json_seq_view(t);
        assert forall|i: int| 0 <= i < s.len() implies json_seq_view(s)[i] == json_view(
            #[trigger] s[i],
        ) by {
            if i < s.len() - 1 {
                assert(t[i] == s[i]);
            }
        }
    }
}

/// The models of the members of an object, member by member.
pub proof fn lemma_json_members_view(s: Seq<(String, JsonValue)>)
    ensures
        json_members_view(s).len() == s.len(),
        forall|i: int|
            0 <= i < s.len() ==> json_members_view(s)[i] == ((#[trigger] s[i]).0@, json_view(
                s[i].1,
            )),
    decreases s.len(),
{
    if s.len() > 0 {
        let t = s.drop_last();
        lemma_json_members_view(t);
        assert forall|i: int| 0 <= i < s.len() implies json_members_view(s)[i] == (
            (#[trigger] s[i]).0@,
            json_view(s[i].1),
        ) by {
            if i < s.len() - 1 {
                assert(t[i] == s[i]);
            }
        }
    }
}

/// Adding a member adds its model.
pub proof fn lemma_json_members_push(s: Seq<(String, JsonValue)>, x: (String, JsonValue))
    ensures
        json_members_view(s.push(x)) == json_members_view(s).push((x.0@, json_view(x.1))),
{
    assert(s.push(x).drop_last() =~= s);
}

/// The value of the first member named `key` among `m`.
pub open spec fn members_get(m: Seq<(Seq<char>, Json)>, key: Seq<char>) -> Option<Json>
    decreases m.len(),
{
    if m.len() == 0 {
        None
    } else if m[0].0 == key {
        Some(m[0].1)
    } else {
        members_get(m.drop_first(), key)
    }
}

/// The value of the first member named `key` of an object; `None` for a value that
/// is not an object or has no such member.
pub open spec fn json_get(j: Json, key: Seq<char>) -> Option<Json> {
    match j {
        Json::Object(m) => members_get(m, key),
        _ => None,
    }
}

impl JsonValue {
    /// The value of the first member named `key`, for an object
    pub fn get(&self, key: &str) -> (r: Option<&JsonValue>)
        ensures
            match r {
                Some(v) => json_get(self@, key@) == Some(v@),
                None => json_get(self@, key@) is None,
            },
    {
        match self {
            JsonValue::Object(members) => {
                proof {
                    lemma_json_members_view(members@);
                }
                let ghost m = json_members_view(members@);
                let mut i: usize = 0;
                assert(m.subrange(0, m.len() as int) =~= m);
                assert(self@ == Json::Object(m));
                while i < members.len()
                    invariant
                        i <= members@.len(),
                        m == json_members_view(members@),
                        m.len() == members@.len(),
                        self@ == Json::Object(m),
                        forall|j: int|
                            0 <= j < members@.len() ==> m[j] == ((#[trigger] members@[j]).0@,
                            json_view(members@[j].1)),
                        members_get(m, key@) == members_get(m.subrange(i as int, m.len() as int), key@),
                    decreases members.len() - i,
                {
                    assert(m.subrange(i as int, m.len() as int)[0] == m[i as int]);
                    if crate::text::str_eq(members[i].0.as_str(), key) {
                        assert(m[i as int].0 == key@);
                        return Some(&members[i].1);
                    }
                    assert(m.subrange(i as int, m.len() as int).drop_first() =~= m.subrange(
                        i + 1,
                        m.len() as int,
                    ));
                    i += 1;
                }
                assert(self@ == Json::Object(m));
                None
            },
            _ => None,
        }
    }
}

impl Clone for JsonValue {
    fn clone(&self) -> (r: Self)
        ensures
            r@ == self@,
        decreases self,
    {
        match self {
            JsonValue::Null => JsonValue::Null,
            JsonValue::Bool(b) => JsonValue::Bool(*b),
            JsonValue::Number(n) => JsonValue::Number(*n),
            JsonValue::Str(s) => JsonValue::Str(s.clone()),
            JsonValue::Array(v) => {
                let mut out: Vec<JsonValue> = Vec::new();
                let mut i: usize = 0;
                while i < v.len()
                    invariant
                        i <= v@.len(),
                        *self == JsonValue::Array(*v),
                        out@.len() == i,
                        forall|k: int| 0 <= k < i ==> json_view(#[trigger] out@[k]) == json_view(v@[k]),
                    decreases v.len() - i,
                {
                    assert(decreases_to!(*self => (*self)->Array_0));
                    assert(decreases_to!(*v => v@));
                    assert(decreases_to!(v@ => v@[i as int]));
                    let c = v[i].clone();
                    out.push(c);
                    i += 1;
                }
                proof {
                    lemma_json_seq_view(out@);
                    lemma_json_seq_view(v@);
                    assert forall|k: int| 0 <= k < v@.len() implies json_seq_view(out@)[k]
                        == json_seq_view(v@)[k] by {
                        assert(json_view(out@[k]) == json_view(v@[k]));
                    }
                    assert(json_seq_view(out@) =~= json_seq_view(v@));
                }
                JsonValue::Array(out)
            },
            JsonValue::Object(m) => {
                let mut out: Vec<(String, JsonValue)> = Vec::new();
                let mut i: usize = 0;
                while i < m.len()
                    invariant
                        i <= m@.len(),
                        *self == JsonValue::Object(*m),
                        out@.len() == i,
                        forall|k: int|
                            0 <= k < i ==> (#[trigger] out@[k]).0@ == m@[k].0@ && json_view(out@[k].1)
                                == json_view(m@[k].1),
                    decreases m.len() - i,
                {
                    assert(decreases_to!(*self => (*self)->Object_0));
                    assert(decreases_to!(*m => m@));
                    assert(decreases_to!(m@ => m@[i as int]));
                    assert(decreases_to!(m@[i as int] => m@[i as int].1));
                    let c = m[i].1.clone();
                    let k = m[i].0.clone();
                    out.push((k, c));
                    i += 1;
                }
                proof {
                    lemma_json_members_view(out@);
                    lemma_json_members_view(m@);
                    assert forall|k: int| 0 <= k < m@.len() implies json_members_view(out@)[k]
                        == json_members_view(m@)[k] by {
                        assert(out@[k].0@ == m@[k].0@);
                    }
                    assert(json_members_view(out@) =~= json_members_view(m@));
                }
                JsonValue::Object(out)
            },
        }
    }
}

} // verus!
