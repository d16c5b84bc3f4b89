//! Capabilities exchanged during the Negotiate phase, and the typed view of a
//! command declaration.
//!
//! Each side declares the commands it handles and the events it produces and
//! accepts. The events one side may emit are those it produces that the other
//! side accepts.

use vstd::prelude::*;
use vstd::string::*;

use crate::json::{
    distinct_keys, lemma_member_absent, lemma_member_at, lemma_member_order_free, same_members, Json,
    JsonValue,
};

verus! {

broadcast use vstd::seq_lib::group_seq_properties, vstd::seq::group_seq_axioms;

/// Capabilities declared by one side during Negotiate.
///
/// Every entry is a JSON schema; an event schema is known by its `name` member.
#[derive(Debug)]
pub struct Capabilities {
    /// Schemas of the commands this side can handle.
    pub commands: Vec<JsonValue>,
    /// Schemas of the events this side may emit.
    pub produce_events: Vec<JsonValue>,
    /// Schemas of the events this side can receive.
    pub accept_events: Vec<JsonValue>,
}

/// What negotiation yields for the application.
#[derive(Debug)]
pub struct EffectiveCapabilities {
    /// Schemas of the commands the remote side can handle.
    pub remote_commands: Vec<JsonValue>,
    /// Names of the events this side may send: produced locally and accepted remotely.
    pub emit_events: Vec<String>,
}

/// The documents of a list of values.
pub open spec fn docs(values: Seq<JsonValue>) -> Seq<Json> {
    values.map_values(|v: JsonValue| v.doc())
}

/// The texts of a list of strings.
pub open spec fn texts(strings: Seq<String>) -> Seq<Seq<char>> {
    strings.map_values(|s: String| s@)
}

/// The name a schema declares: its `name` member, when that is a string.
pub open spec fn schema_name(schema: Json) -> Option<Seq<char>> {
    match schema.get("name"@) {
        Some(Json::Str(name)) => Some(name),
        _ => None,
    }
}

/// The names declared by a list of schemas, in order; schemas without a name are skipped.
pub open spec fn schema_names(schemas: Seq<Json>) -> Seq<Seq<char>> {
    schemas.filter_map(|schema: Json| schema_name(schema))
}

/// The names of the events `local` may send to `remote`: the names that
/// `local` produces, in its order, kept when `remote` accepts them.
pub open spec fn emit_names(local: &Capabilities, remote: &Capabilities) -> Seq<Seq<char>> {
    let accepted = schema_names(docs(remote.accept_events@));
    schema_names(docs(local.produce_events@)).filter(|name: Seq<char>| accepted.contains(name))
}

/// A schema's name is the text of its `name` member, wherever that member
/// stands; a schema with no string `name` member has none.
pub proof fn lemma_schema_name_by_key(ms: Seq<(Seq<char>, Json)>, i: int)
    requires
        distinct_keys(ms),
        0 <= i < ms.len(),
        ms[i].0 == "name"@,
    ensures
        ms[i].1 is Str ==> schema_name(Json::Object(ms)) == Some(ms[i].1->Str_0),
        !(ms[i].1 is Str) ==> schema_name(Json::Object(ms)) is None,
{
    lemma_member_at(ms, i);
}

/// A schema without a `name` member has no name.
pub proof fn lemma_schema_without_name(ms: Seq<(Seq<char>, Json)>)
    requires
        forall|i: int| 0 <= i < ms.len() ==> ms[i].0 != "name"@,
    ensures
        schema_name(Json::Object(ms)) is None,
{
    lemma_member_absent(ms, "name"@);
}

/// A schema's name does not depend on the order of its members.
pub proof fn lemma_schema_name_order_free(a: Seq<(Seq<char>, Json)>, b: Seq<(Seq<char>, Json)>)
    requires
        distinct_keys(a),
        distinct_keys(b),
        same_members(a, b),
    ensures
        schema_name(Json::Object(a)) == schema_name(Json::Object(b)),
{
    lemma_member_order_free(a, b, "name"@);
}

proof fn lemma_schema_names_has(schemas: Seq<Json>, p: int)
    requires
        0 <= p < schemas.len(),
        schema_name(schemas[p]) is Some,
    ensures
        schema_names(schemas).contains(schema_name(schemas[p])->0),
    decreases schemas.len(),
{
    let f = |schema: Json| schema_name(schema);
    let rest = schemas.drop_last();
    let n = schema_name(schemas[p])->0;
    if p == schemas.len() - 1 {
        assert(schema_names(schemas) == rest.filter_map(f) + seq![n]);
        assert((rest.filter_map(f) + seq![n])[rest.filter_map(f).len() as int] == n);
    } else {
        assert(rest[p] == schemas[p]);
        lemma_schema_names_has(rest, p);
        let k = choose|k: int| 0 <= k < schema_names(rest).len() && schema_names(rest)[k] == n;
        match f(schemas.last()) {
            Some(t) => {
                assert(schema_names(schemas) == rest.filter_map(f) + seq![t]);
                assert((rest.filter_map(f) + seq![t])[k] == n);
            },
            None => {
                assert(schema_names(schemas) == rest.filter_map(f));
            },
        }
    }
}

/// An event that the local side produces and the remote side accepts, each
/// schema naming it by its `name` member wherever that member stands, may be
/// emitted.
pub proof fn lemma_emit_by_named_schemas(
    local: &Capabilities,
    remote: &Capabilities,
    p: int,
    produced: Seq<(Seq<char>, Json)>,
    pk: int,
    a: int,
    accepted: Seq<(Seq<char>, Json)>,
    ak: int,
    name: Seq<char>,
)
    requires
        0 <= p < local.produce_events@.len(),
        local.produce_events@[p].doc() == Json::Object(produced),
        distinct_keys(produced),
        0 <= pk < produced.len(),
        produced[pk] == ("name"@, Json::Str(name)),
        0 <= a < remote.accept_events@.len(),
        remote.accept_events@[a].doc() == Json::Object(accepted),
        distinct_keys(accepted),
        0 <= ak < accepted.len(),
        accepted[ak] == ("name"@, Json::Str(name)),
    ensures
        emit_names(local, remote).contains(name),
{
    let pd = docs(local.produce_events@);
    let ad = docs(remote.accept_events@);
    assert(pd[p] == Json::Object(produced));
    assert(ad[a] == Json::Object(accepted));
    lemma_schema_name_by_key(produced, pk);
    lemma_schema_name_by_key(accepted, ak);
    lemma_schema_names_has(pd, p);
    lemma_schema_names_has(ad, a);
    lemma_emit_names_intersection(local, remote, name);
}

/// A name may be emitted exactly when the local side produces an event of
/// that name and the remote side accepts one.
pub proof fn lemma_emit_names_intersection(local: &Capabilities, remote: &Capabilities, name: Seq<char>)
    ensures
        emit_names(local, remote).contains(name) <==> (schema_names(
            docs(local.produce_events@),
        ).contains(name) && schema_names(docs(remote.accept_events@)).contains(name)),
{
    let produced = schema_names(docs(local.produce_events@));
    let accepted = schema_names(docs(remote.accept_events@));
    let pred = |n: Seq<char>| accepted.contains(n);
    let kept = produced.filter(pred);
    assert(kept == emit_names(local, remote));
    if kept.contains(name) {
        produced.lemma_filter_contains_rev(pred, name);
        let k = choose|k: int| 0 <= k < kept.len() && kept[k] == name;
        produced.lemma_filter_pred(pred, k);
    }
    if produced.contains(name) && accepted.contains(name) {
        let i = choose|i: int| 0 <= i < produced.len() && produced[i] == name;
        produced.lemma_filter_contains(pred, i);
    }
}

impl Capabilities {
    /// Capabilities that declare nothing.
    pub fn empty() -> (r: Capabilities)
        ensures
            r.commands@.len() == 0,
            r.produce_events@.len() == 0,
            r.accept_events@.len() == 0,
    {
        Capabilities { commands: Vec::new(), produce_events: Vec::new(), accept_events: Vec::new() }
    }
}

impl Capabilities {
    /// A copy of the capabilities, declaring the same schemas.
    pub fn copy(&self) -> (r: Capabilities)
        ensures
            docs(r.commands@) == docs(self.commands@),
            docs(r.produce_events@) == docs(self.produce_events@),
            docs(r.accept_events@) == docs(self.accept_events@),
    {
        Capabilities {
            commands: copy_values(&self.commands),
            produce_events: copy_values(&self.produce_events),
            accept_events: copy_values(&self.accept_events),
        }
    }
}

/// Copies a list of values, element by element.
pub fn copy_values(values: &Vec<JsonValue>) -> (r: Vec<JsonValue>)
    ensures
        docs(r@) == docs(values@),
{
    let mut out: Vec<JsonValue> = Vec::new();
    let mut i: usize = 0;
    while i < values.len()
        invariant
            i <= values@.len(),
            out@.len() == i,
            forall|j: int| #![trigger out@[j]] 0 <= j < i ==> out@[j].doc() == values@[j].doc(),
        decreases values@.len() - i,
    {
        out.push(values[i].copy());
        i = i + 1;
    }
    assert(docs(out@) =~= docs(values@));
    out
}

/// The names declared by a list of schemas.
#[verifier::loop_isolation(false)]
fn extract_names(schemas: &Vec<JsonValue>) -> (names: Vec<String>)
    ensures
        texts(names@) == schema_names(docs(schemas@)),
{
    let ghost f = |schema: Json| schema_name(schema);
    let mut names: Vec<String> = Vec::new();
    let mut i: usize = 0;
    while i < schemas.len()
        invariant
            i <= schemas@.len(),
            texts(names@) == docs(schemas@).take(i as int).filter_map(f),
        decreases schemas@.len() - i,
    {
        let ghost ds = docs(schemas@);
        proof {
            assert(ds.take(i + 1).drop_last() =~= ds.take(i as int));
            assert(ds.take(i + 1).last() == schemas@[i as int].doc());
        }
        match schemas[i].get("name") {
            Some(v) => match v.as_str() {
                Some(name) => {
                    names.push(name.clone());
                    assert(texts(names@) =~= ds.take(i + 1).filter_map(f));
                },
                None => {
                    assert(texts(names@) =~= ds.take(i + 1).filter_map(f));
                },
            },
            None => {
                assert(f(ds.take(i + 1).last()) is None);
                assert(texts(names@) =~= ds.take(i + 1).filter_map(f));
            },
        }
        i = i + 1;
    }
    assert(docs(schemas@).take(schemas@.len() as int) =~= docs(schemas@));
    names
}

/// Whether `name` occurs in `names`.
fn contains_name(names: &Vec<String>, name: &String) -> (r: bool)
    ensures
        r == texts(names@).contains(name@),
{
    let mut i: usize = 0;
    while i < names.len()
        invariant
            i <= names@.len(),
            forall|j: int| 0 <= j < i ==> names@[j]@ != name@,
        decreases names@.len() - i,
    {
        if names[i] == *name {
            assert(texts(names@)[i as int] == name@);
            return true;
        }
        i = i + 1;
    }
    assert forall|j: int| 0 <= j < texts(names@).len() implies texts(names@)[j] != name@ by {
        assert(texts(names@)[j] == names@[j]@);
    }
    false
}

impl Default for EffectiveCapabilities {
    /// No remote commands and no events to emit.
    fn default() -> (r: Self)
        ensures
            r.remote_commands@.len() == 0,
            r.emit_events@.len() == 0,
    {
        EffectiveCapabilities { remote_commands: Vec::new(), emit_events: Vec::new() }
    }
}

impl EffectiveCapabilities {
    /// Effective capabilities of `local` towards `remote`: the remote command
    /// schemas, and the names of the events `local` produces that `remote` accepts.
    #[verifier::loop_isolation(false)]
    pub fn from_capabilities(local: &Capabilities, remote: &Capabilities) -> (r: Self)
        ensures
            docs(r.remote_commands@) == docs(remote.commands@),
            texts(r.emit_events@) == emit_names(local, remote),
    {
        let remote_commands = copy_values(&remote.commands);
        let local_produce = extract_names(&local.produce_events);
        let remote_accept = extract_names(&remote.accept_events);
        let ghost accepted = schema_names(docs(remote.accept_events@));
        let ghost pred = |name: Seq<char>| accepted.contains(name);
        let mut emit_events: Vec<String> = Vec::new();
        let mut i: usize = 0;
        while i < local_produce.len()
            invariant
                i <= local_produce@.len(),
                texts(remote_accept@) == accepted,
                texts(emit_events@) == texts(local_produce@).take(i as int).filter(pred),
            decreases local_produce@.len() - i,
        {
            let ghost produced = texts(local_produce@);
            proof {
                assert(produced.take(i + 1) =~= produced.take(i as int).push(local_produce@[i as int]@));
                produced.take(i as int).lemma_filter_push(local_produce@[i as int]@, pred);
            }
            let ghost before = emit_events@;
            if contains_name(&remote_accept, &local_produce[i]) {
                emit_events.push(local_produce[i].clone());
                assert(pred(local_produce@[i as int]@));
                assert(emit_events@ == before.push(local_produce@[i as int]));
                assert(texts(emit_events@) =~= texts(before).push(local_produce@[i as int]@));
                assert(texts(emit_events@) =~= texts(local_produce@).take(i + 1).filter(pred));
            } else {
                assert(!pred(local_produce@[i as int]@));
                assert(texts(emit_events@) =~= texts(local_produce@).take(i + 1).filter(pred));
            }
            i = i + 1;
        }
        assert(texts(local_produce@).take(local_produce@.len() as int) =~= texts(local_produce@));
        EffectiveCapabilities { remote_commands, emit_events }
    }
}

} // verus!
