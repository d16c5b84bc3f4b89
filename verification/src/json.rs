//! A JSON document model.
//!
//! Schemas, command arguments and response data are free-form JSON. The
//! library holds them as `JsonValue`; its view `Json` is the mathematical
//! document the contracts speak of.

use vstd::prelude::*;
use vstd::string::*;

verus! {

broadcast use vstd::std_specs::vec::group_vec_axioms, vstd::string::group_string_axioms;

/// Mathematical JSON document.
pub enum Json {
    Null,
    Bool(bool),
    /// A number, by its literal text.
    Number(Seq<char>),
    Str(Seq<char>),
    Array(Seq<Json>),
    /// Object members in order.
    Object(Seq<(Seq<char>, Json)>),
}

impl Json {
    /// The value of the first member named `key`, when `self` is an object.
    pub open spec fn get(self, key: Seq<char>) -> Option<Json> {
        match self {
            Json::Object(members) => member(members, key),
            _ => None,
        }
    }

    /// The text of a string document.
    pub open spec fn as_str(self) -> Option<Seq<char>> {
        match self {
            Json::Str(s) => Some(s),
            _ => None,
        }
    }
}

/// The value of the first member named `key`.
pub open spec fn member(members: Seq<(Seq<char>, Json)>, key: Seq<char>) -> Option<Json>
    decreases members.len(),
{
    if members.len() == 0 {
        None
    } else if members[0].0 == key {
        Some(members[0].1)
    } else {
        member(members.drop_first(), key)
    }
}

/// `member` finds the first member whose name matches.
pub proof fn lemma_member_first(members: Seq<(Seq<char>, Json)>, key: Seq<char>, i: int)
    requires
        0 <= i <= members.len(),
        forall|j: int| 0 <= j < i ==> members[j].0 != key,
    ensures
        i < members.len() && members[i].0 == key ==> member(members, key) == Some(members[i].1),
        i == members.len() ==> member(members, key) is None,
    decreases i,
{
    if i > 0 {
        lemma_member_first(members.drop_first(), key, i - 1);
    }
}

/// Looking a key up in two lists of members one after the other.
pub proof fn lemma_member_append(a: Seq<(Seq<char>, Json)>, b: Seq<(Seq<char>, Json)>, key: Seq<char>)
    ensures
        member(a + b, key) == match member(a, key) {
            Some(v) => Some(v),
            None => member(b, key),
        },
    decreases a.len(),
{
    if a.len() > 0 {
        assert((a + b).drop_first() =~= a.drop_first() + b);
        lemma_member_append(a.drop_first(), b, key);
    } else {
        assert(a + b =~= b);
    }
}

/// No two members share a key.
pub open spec fn distinct_keys(members: Seq<(Seq<char>, Json)>) -> bool {
    forall|i: int, j: int|
        0 <= i < members.len() && 0 <= j < members.len() && i != j ==> members[i].0 != members[j].0
}

/// Two lists hold the same members, perhaps in another order.
pub open spec fn same_members(a: Seq<(Seq<char>, Json)>, b: Seq<(Seq<char>, Json)>) -> bool {
    &&& forall|i: int| 0 <= i < a.len() ==> b.contains(a[i])
    &&& forall|j: int| 0 <= j < b.len() ==> a.contains(b[j])
}

/// Where keys are distinct, a key is found with the value of its member,
/// wherever that member stands.
pub proof fn lemma_member_at(members: Seq<(Seq<char>, Json)>, i: int)
    requires
        distinct_keys(members),
        0 <= i < members.len(),
    ensures
        member(members, members[i].0) == Some(members[i].1),
{
    lemma_member_first(members, members[i].0, i);
}

/// A key that no member has is not found.
pub proof fn lemma_member_absent(members: Seq<(Seq<char>, Json)>, key: Seq<char>)
    requires
        forall|i: int| 0 <= i < members.len() ==> members[i].0 != key,
    ensures
        member(members, key) is None,
{
    lemma_member_first(members, key, members.len() as int);
}

/// Where keys are distinct, looking a key up does not depend on the order of
/// the members.
pub proof fn lemma_member_order_free(a: Seq<(Seq<char>, Json)>, b: Seq<(Seq<char>, Json)>, key: Seq<char>)
    requires
        distinct_keys(a),
        distinct_keys(b),
        same_members(a, b),
    ensures
        member(a, key) == member(b, key),
{
    if exists|i: int| 0 <= i < a.len() && a[i].0 == key {
        let i = choose|i: int| 0 <= i < a.len() && a[i].0 == key;
        assert(b.contains(a[i]));
        let j = choose|j: int| 0 <= j < b.len() && b[j] == a[i];
        lemma_member_at(a, i);
        lemma_member_at(b, j);
    } else {
        lemma_member_absent(a, key);
        assert forall|j: int| 0 <= j < b.len() implies b[j].0 != key by {
            assert(a.contains(b[j]));
        }
        lemma_member_absent(b, key);
    }
}

/// A JSON document.
#[derive(Debug)]
pub enum JsonValue {
    Null,
    Bool(bool),
    /// A number, by its literal text (e.g. `"2"`, `"-1.5e3"`).
    Number(String),
    Str(String),
    Array(Vec<JsonValue>),
    /// Object members in order; a key names at most one member.
    Object(Vec<(String, JsonValue)>),
}

impl JsonValue {
    /// The document a value denotes.
    pub open spec fn doc(&self) -> Json
        decreases self,
    {
        match self {
            JsonValue::Null => Json::Null,
            JsonValue::Bool(b) => Json::Bool(*b),
            JsonValue::Number(n) => Json::Number(n@),
            JsonValue::Str(s) => Json::Str(s@),
            JsonValue::Array(items) => Json::Array(
                Seq::new(
                    items@.len(),
                    |i: int|
                        if 0 <= i < items@.len() {
                            items@[i].doc()
                        } else {
                            Json::Null
                        },
                ),
            ),
            JsonValue::Object(members) => Json::Object(
                Seq::new(
                    members@.len(),
                    |i: int|
                        if 0 <= i < members@.len() {
                            (members@[i].0@, members@[i].1.doc())
                        } else {
                            (Seq::empty(), Json::Null)
                        },
                ),
            ),
        }
    }
}

/// The documents of a list of values.
pub open spec fn item_docs(items: Seq<JsonValue>) -> Seq<Json> {
    items.map_values(|v: JsonValue| v.doc())
}

/// The member documents of a list of members.
pub open spec fn member_docs(members: Seq<(String, JsonValue)>) -> Seq<(Seq<char>, Json)> {
    members.map_values(|m: (String, JsonValue)| (m.0@, m.1.doc()))
}

/// The document of an array is the list of its items' documents.
pub proof fn lemma_array_doc(items: Vec<JsonValue>)
    ensures
        JsonValue::Array(items).doc() == Json::Array(item_docs(items@)),
{
    assert(JsonValue::Array(items).doc()->Array_0 =~= item_docs(items@));
}

/// The document of an object is the list of its members' documents.
pub proof fn lemma_object_doc(members: Vec<(String, JsonValue)>)
    ensures
        JsonValue::Object(members).doc() == Json::Object(member_docs(members@)),
{
    assert(JsonValue::Object(members).doc()->Object_0 =~= member_docs(members@));
}

impl JsonValue {
    /// A copy of the value, denoting the same document.
    #[verifier::loop_isolation(false)]
    pub fn copy(&self) -> (r: JsonValue)
        ensures
            r.doc() == self.doc(),
        decreases self,
    {
        match self {
            JsonValue::Null => JsonValue::Null,
            JsonValue::Bool(b) => JsonValue::Bool(*b),
            JsonValue::Number(n) => JsonValue::Number(n.clone()),
            JsonValue::Str(s) => JsonValue::Str(s.clone()),
            JsonValue::Array(items) => {
                let mut out: Vec<JsonValue> = Vec::new();
                let mut i: usize = 0;
                while i < items.len()
                    invariant
                        i <= items@.len(),
                        out@.len() == i,
                        forall|j: int| #![trigger out@[j]] 0 <= j < i ==> out@[j].doc() == items@[j].doc(),
                    decreases items@.len() - i,
                {
                    proof {
                        assert(decreases_to!(*items => items@));
                        assert(decreases_to!(*items => items@[i as int]));
                    }
                    let c = items[i].copy();
                    out.push(c);
                    i = i + 1;
                }
                let r = JsonValue::Array(out);
                assert(r.doc()->Array_0 =~= self.doc()->Array_0);
                r
            },
            JsonValue::Object(members) => {
                let mut out: Vec<(String, JsonValue)> = Vec::new();
                let mut i: usize = 0;
                while i < members.len()
                    invariant
                        i <= members@.len(),
                        out@.len() == i,
                        forall|j: int|
                            0 <= j < i ==> #[trigger] out@[j].0@ == members@[j].0@ && out@[j].1.doc()
                                == members@[j].1.doc(),
                    decreases members@.len() - i,
                {
                    proof {
                        assert(decreases_to!(*members => members@[i as int]));
                    }
                    let v = members[i].1.copy();
                    out.push((members[i].0.clone(), v));
                    i = i + 1;
                }
                let r = JsonValue::Object(out);
                assert(r.doc()->Object_0 =~= self.doc()->Object_0);
                r
            },
        }
    }

    /// The member named `key`, when `self` is an object that has one.
    pub fn get(&self, key: &str) -> (r: Option<&JsonValue>)
        ensures
            match r {
                Some(v) => self.doc().get(key@) == Some(v.doc()),
                None => self.doc().get(key@) is None,
            },
    {
        match self {
            JsonValue::Object(members) => {
                let ghost ms = self.doc()->Object_0;
                assert(self.doc() == Json::Object(ms));
                let wanted = key.to_string();
                let mut i: usize = 0;
                while i < members.len()
                    invariant
                        i <= members@.len(),
                        self.doc() == Json::Object(ms),
                        ms.len() == members@.len(),
                        forall|j: int|
                            0 <= j < members@.len() ==> #[trigger] ms[j] == (
                                members@[j].0@,
                                members@[j].1.doc(),
                            ),
                        forall|j: int| 0 <= j < i ==> ms[j].0 != key@,
                        wanted@ == key@,
                    decreases members@.len() - i,
                {
                    if members[i].0 == wanted {
                        proof {
                            assert(ms[i as int] == (members@[i as int].0@, members@[i as int].1.doc()));
                            lemma_member_first(ms, key@, i as int);
                        }
                        return Some(&members[i].1);
                    }
                    i = i + 1;
                }
                proof {
                    lemma_member_first(ms, key@, i as int);
                }
                None
            },
            _ => None,
        }
    }

    /// The text of a string value.
    pub fn as_str(&self) -> (r: Option<&String>)
        ensures
            match r {
                Some(s) => self.doc().as_str() == Some(s@),
                None => self.doc().as_str() is None,
            },
    {
        match self {
            JsonValue::Str(s) => Some(s),
            _ => None,
        }
    }
}

} // verus!
