//! The typed view of one command declaration schema (an element of
//! `Capabilities::commands`).
//!
//! Wire keys are camelCase. Unknown members are ignored when decoding; unknown
//! `dispatcher` and `extraScopes` words are kept verbatim as `Unknown`.

use vstd::prelude::*;
use vstd::string::*;

use crate::json::{
    distinct_keys, item_docs, lemma_array_doc, lemma_member_absent, lemma_member_append,
    lemma_member_at, lemma_member_order_free, lemma_object_doc, member, member_docs, same_members,
    Json, JsonValue,
};

verus! {

broadcast use vstd::seq_lib::group_seq_properties, vstd::seq::group_seq_axioms,
    vstd::string::group_string_axioms;

/// Command dispatch surface.
///
/// The wire words are `"tool"` and `"bridge"`; any other word is kept as `Unknown`.
/// An absent dispatcher means bridge semantics.
#[derive(Debug)]
pub enum Dispatcher {
    /// Routed into the model tool surface (`"tool"`).
    Tool,
    /// Bridge semantics, declared explicitly (`"bridge"`).
    Bridge,
    /// Unrecognized dispatcher word, kept verbatim.
    Unknown(String),
}

/// Mathematical dispatcher.
pub enum DispatcherModel {
    Tool,
    Bridge,
    Unknown(Seq<char>),
}

/// Additional exposure scope of a command declaration.
///
/// The only wire word is `"compact"`; any other word is kept as `Unknown`.
#[derive(Debug)]
pub enum ExtraScope {
    /// Also exposed in the compact (compaction thread) surface.
    Compact,
    /// Unrecognized scope word, kept verbatim.
    Unknown(String),
}

/// Mathematical scope.
pub enum ScopeModel {
    Compact,
    Unknown(Seq<char>),
}

/// The single currently defined evaluation entry.
#[derive(Debug)]
pub struct RequireToolCall {
    /// Name of the tool the model must call.
    pub require: String,
    /// Message used to bounce the turn back when the tool was not called.
    pub on_failure: String,
}

/// Evaluation policy declared alongside a command.
#[derive(Debug)]
pub struct EvaluationPolicy {
    /// Require the model to call a specific tool.
    pub require_tool_call: Option<RequireToolCall>,
}

/// Typed representation of one command declaration schema.
#[derive(Debug)]
pub struct CommandDeclaration {
    /// Command name. Required.
    pub name: String,
    /// Human-readable description.
    pub description: Option<String>,
    /// JSON Schema of the parameters.
    pub parameters: Option<JsonValue>,
    /// Dispatch surface; absent means bridge semantics.
    pub dispatcher: Option<Dispatcher>,
    /// Evaluation policy attached by the declaring side.
    pub evaluation_policy: Option<EvaluationPolicy>,
    /// Additional exposure scopes; empty means the default conversation surface only.
    pub extra_scopes: Vec<ExtraScope>,
}

/// A JSON value that does not describe a command declaration.
#[derive(Debug)]
pub struct InvalidDeclaration;

/// Mathematical `requireToolCall` entry.
pub struct RequireModel {
    pub require: Seq<char>,
    pub on_failure: Seq<char>,
}

/// Mathematical evaluation policy.
pub struct PolicyModel {
    pub require_tool_call: Option<RequireModel>,
}

/// Mathematical command declaration.
pub struct DeclarationModel {
    pub name: Seq<char>,
    pub description: Option<Seq<char>>,
    pub parameters: Option<Json>,
    pub dispatcher: Option<DispatcherModel>,
    pub evaluation_policy: Option<PolicyModel>,
    pub extra_scopes: Seq<ScopeModel>,
}

impl View for Dispatcher {
    type V = DispatcherModel;

    open spec fn view(&self) -> DispatcherModel {
        match self {
            Dispatcher::Tool => DispatcherModel::Tool,
            Dispatcher::Bridge => DispatcherModel::Bridge,
            Dispatcher::Unknown(s) => DispatcherModel::Unknown(s@),
        }
    }
}

impl View for ExtraScope {
    type V = ScopeModel;

    open spec fn view(&self) -> ScopeModel {
        match self {
            ExtraScope::Compact => ScopeModel::Compact,
            ExtraScope::Unknown(s) => ScopeModel::Unknown(s@),
        }
    }
}

impl View for RequireToolCall {
    type V = RequireModel;

    open spec fn view(&self) -> RequireModel {
        RequireModel { require: self.require@, on_failure: self.on_failure@ }
    }
}

impl View for EvaluationPolicy {
    type V = PolicyModel;

    open spec fn view(&self) -> PolicyModel {
        PolicyModel {
            require_tool_call: match self.require_tool_call {
                Some(r) => Some(r@),
                None => None,
            },
        }
    }
}

/// The models of a list of scopes.
pub open spec fn scope_models(scopes: Seq<ExtraScope>) -> Seq<ScopeModel> {
    scopes.map_values(|s: ExtraScope| s@)
}

impl View for CommandDeclaration {
    type V = DeclarationModel;

    open spec fn view(&self) -> DeclarationModel {
        DeclarationModel {
            name: self.name@,
            description: match self.description {
                Some(d) => Some(d@),
                None => None,
            },
            parameters: match self.parameters {
                Some(p) => Some(p.doc()),
                None => None,
            },
            dispatcher: match self.dispatcher {
                Some(d) => Some(d@),
                None => None,
            },
            evaluation_policy: match self.evaluation_policy {
                Some(p) => Some(p@),
                None => None,
            },
            extra_scopes: scope_models(self.extra_scopes@),
        }
    }
}

// ---- Wire words ----

/// The dispatcher a wire word denotes.
pub open spec fn dispatcher_from_wire(word: Seq<char>) -> DispatcherModel {
    if word == "tool"@ {
        DispatcherModel::Tool
    } else if word == "bridge"@ {
        DispatcherModel::Bridge
    } else {
        DispatcherModel::Unknown(word)
    }
}

/// The wire word of a dispatcher.
pub open spec fn dispatcher_wire(d: DispatcherModel) -> Seq<char> {
    match d {
        DispatcherModel::Tool => "tool"@,
        DispatcherModel::Bridge => "bridge"@,
        DispatcherModel::Unknown(word) => word,
    }
}

/// The scope a wire word denotes.
pub open spec fn scope_from_wire(word: Seq<char>) -> ScopeModel {
    if word == "compact"@ {
        ScopeModel::Compact
    } else {
        ScopeModel::Unknown(word)
    }
}

/// The wire word of a scope.
pub open spec fn scope_wire(s: ScopeModel) -> Seq<char> {
    match s {
        ScopeModel::Compact => "compact"@,
        ScopeModel::Unknown(word) => word,
    }
}


// ---- Decoding and encoding ----

/// The document of an optional value.
pub open spec fn field_doc(field: Option<&JsonValue>) -> Option<Json> {
    match field {
        Some(v) => Some(v.doc()),
        None => None,
    }
}

/// The element at `i` of an array, if there is one.
pub open spec fn element(items: Seq<Json>, i: int) -> Option<Json> {
    if 0 <= i < items.len() {
        Some(items[i])
    } else {
        None
    }
}

/// A required string field: present and a string.
pub open spec fn decode_required_text(field: Option<Json>) -> Option<Seq<char>> {
    match field {
        Some(Json::Str(s)) => Some(s),
        _ => None,
    }
}

/// An optional string field: absent or `null` gives `None`; a string gives
/// `Some`; anything else is rejected (outer `None`).
pub open spec fn decode_optional_text(field: Option<Json>) -> Option<Option<Seq<char>>> {
    match field {
        None => Some(None),
        Some(Json::Null) => Some(None),
        Some(Json::Str(s)) => Some(Some(s)),
        _ => None,
    }
}

/// An optional free-form field: absent or `null` gives `None`, anything else is kept.
pub open spec fn decode_optional_value(field: Option<Json>) -> Option<Json> {
    match field {
        None => None,
        Some(Json::Null) => None,
        Some(j) => Some(j),
    }
}

/// An optional dispatcher field: absent or `null` gives `None`; a string gives its dispatcher.
pub open spec fn decode_optional_dispatcher(field: Option<Json>) -> Option<Option<DispatcherModel>> {
    match field {
        None => Some(None),
        Some(Json::Null) => Some(None),
        Some(Json::Str(s)) => Some(Some(dispatcher_from_wire(s))),
        _ => None,
    }
}

/// The scopes of an array of strings.
pub open spec fn scopes_of(items: Seq<Json>) -> Seq<ScopeModel> {
    items.map_values(|j: Json| scope_from_wire(j->Str_0))
}

/// The scopes field: absent gives no scope; an array of strings gives their scopes.
pub open spec fn decode_scopes(field: Option<Json>) -> Option<Seq<ScopeModel>> {
    match field {
        None => Some(Seq::empty()),
        Some(Json::Array(items)) => if forall|i: int| 0 <= i < items.len() ==> #[trigger] items[i] is Str {
            Some(scopes_of(items))
        } else {
            None
        },
        _ => None,
    }
}

/// A `requireToolCall` entry, from an object or from a two-element array.
pub open spec fn decode_require(j: Json) -> Option<RequireModel> {
    let fields = match j {
        Json::Object(ms) => Some((member(ms, "require"@), member(ms, "onFailure"@))),
        Json::Array(items) => if items.len() <= 2 {
            Some((element(items, 0), element(items, 1)))
        } else {
            None
        },
        _ => None,
    };
    match fields {
        Some((require, on_failure)) => match (
            decode_required_text(require),
            decode_required_text(on_failure),
        ) {
            (Some(r), Some(f)) => Some(RequireModel { require: r, on_failure: f }),
            _ => None,
        },
        None => None,
    }
}

/// An optional `requireToolCall` field.
pub open spec fn decode_optional_require(field: Option<Json>) -> Option<Option<RequireModel>> {
    match field {
        None => Some(None),
        Some(Json::Null) => Some(None),
        Some(j) => match decode_require(j) {
            Some(r) => Some(Some(r)),
            None => None,
        },
    }
}

/// An evaluation policy, from an object or from an array of at most one element.
pub open spec fn decode_policy(j: Json) -> Option<PolicyModel> {
    let field = match j {
        Json::Object(ms) => Some(member(ms, "requireToolCall"@)),
        Json::Array(items) => if items.len() <= 1 {
            Some(element(items, 0))
        } else {
            None
        },
        _ => None,
    };
    match field {
        Some(f) => match decode_optional_require(f) {
            Some(r) => Some(PolicyModel { require_tool_call: r }),
            None => None,
        },
        None => None,
    }
}

/// An optional evaluation policy field.
pub open spec fn decode_optional_policy(field: Option<Json>) -> Option<Option<PolicyModel>> {
    match field {
        None => Some(None),
        Some(Json::Null) => Some(None),
        Some(j) => match decode_policy(j) {
            Some(p) => Some(Some(p)),
            None => None,
        },
    }
}

/// A declaration from its six fields, each absent or present.
pub open spec fn decode_fields(
    name: Option<Json>,
    description: Option<Json>,
    parameters: Option<Json>,
    dispatcher: Option<Json>,
    policy: Option<Json>,
    scopes: Option<Json>,
) -> Option<DeclarationModel> {
    match (
        decode_required_text(name),
        decode_optional_text(description),
        decode_optional_dispatcher(dispatcher),
        decode_optional_policy(policy),
        decode_scopes(scopes),
    ) {
        (Some(n), Some(d), Some(dp), Some(p), Some(sc)) => Some(
            DeclarationModel {
                name: n,
                description: d,
                parameters: decode_optional_value(parameters),
                dispatcher: dp,
                evaluation_policy: p,
                extra_scopes: sc,
            },
        ),
        _ => None,
    }
}

/// The declaration a JSON document describes: an object with the camelCase
/// members (unknown members ignored), or an array holding the fields in
/// order, of which the first (the name) is required.
pub open spec fn decode_declaration(j: Json) -> Option<DeclarationModel> {
    match j {
        Json::Object(ms) => decode_fields(
            member(ms, "name"@),
            member(ms, "description"@),
            member(ms, "parameters"@),
            member(ms, "dispatcher"@),
            member(ms, "evaluationPolicy"@),
            member(ms, "extraScopes"@),
        ),
        Json::Array(items) => if items.len() <= 6 {
            decode_fields(
                element(items, 0),
                element(items, 1),
                element(items, 2),
                element(items, 3),
                element(items, 4),
                element(items, 5),
            )
        } else {
            None
        },
        _ => None,
    }
}

/// A member when the value is present, nothing otherwise.
pub open spec fn optional_member(key: Seq<char>, value: Option<Json>) -> Seq<(Seq<char>, Json)> {
    match value {
        Some(j) => seq![(key, j)],
        None => Seq::empty(),
    }
}

/// The document of a `requireToolCall` entry.
pub open spec fn encode_require(r: RequireModel) -> Json {
    Json::Object(seq![("require"@, Json::Str(r.require)), ("onFailure"@, Json::Str(r.on_failure))])
}

/// The document of an evaluation policy.
pub open spec fn encode_policy(p: PolicyModel) -> Json {
    Json::Object(
        optional_member(
            "requireToolCall"@,
            match p.require_tool_call {
                Some(r) => Some(encode_require(r)),
                None => None,
            },
        ),
    )
}

/// The documents of a list of scopes.
pub open spec fn encode_scopes(scopes: Seq<ScopeModel>) -> Seq<Json> {
    scopes.map_values(|s: ScopeModel| Json::Str(scope_wire(s)))
}

/// The document of a declaration: absent fields and an empty scope list are omitted.
pub open spec fn encode_declaration(d: DeclarationModel) -> Json {
    Json::Object(
        seq![("name"@, Json::Str(d.name))] + optional_member(
            "description"@,
            match d.description {
                Some(t) => Some(Json::Str(t)),
                None => None,
            },
        ) + optional_member("parameters"@, d.parameters) + optional_member(
            "dispatcher"@,
            match d.dispatcher {
                Some(x) => Some(Json::Str(dispatcher_wire(x))),
                None => None,
            },
        ) + optional_member(
            "evaluationPolicy"@,
            match d.evaluation_policy {
                Some(p) => Some(encode_policy(p)),
                None => None,
            },
        ) + if d.extra_scopes.len() == 0 {
            Seq::empty()
        } else {
            seq![("extraScopes"@, Json::Array(encode_scopes(d.extra_scopes)))]
        },
    )
}

/// A declaration that encoding does not blur: no `null` parameters, and no
/// `Unknown` dispatcher or scope that holds a known word.
pub open spec fn is_canonical(d: DeclarationModel) -> bool {
    &&& d.parameters != Some(Json::Null)
    &&& d.dispatcher matches Some(DispatcherModel::Unknown(w)) ==> w != "tool"@ && w != "bridge"@
    &&& forall|i: int|
        0 <= i < d.extra_scopes.len() ==> (#[trigger] d.extra_scopes[i] matches ScopeModel::Unknown(w)
            ==> w != "compact"@)
}

proof fn lemma_keys_distinct()
    ensures
        "name"@ != "description"@,
        "name"@ != "parameters"@,
        "name"@ != "dispatcher"@,
        "name"@ != "evaluationPolicy"@,
        "name"@ != "extraScopes"@,
        "description"@ != "parameters"@,
        "description"@ != "dispatcher"@,
        "description"@ != "evaluationPolicy"@,
        "description"@ != "extraScopes"@,
        "parameters"@ != "dispatcher"@,
        "parameters"@ != "evaluationPolicy"@,
        "parameters"@ != "extraScopes"@,
        "dispatcher"@ != "evaluationPolicy"@,
        "dispatcher"@ != "extraScopes"@,
        "evaluationPolicy"@ != "extraScopes"@,
        "require"@ != "onFailure"@,
{
    reveal_strlit("name");
    reveal_strlit("description");
    reveal_strlit("parameters");
    reveal_strlit("dispatcher");
    reveal_strlit("evaluationPolicy");
    reveal_strlit("extraScopes");
    reveal_strlit("require");
    reveal_strlit("onFailure");
    assert("description"@[0] != "extraScopes"@[0]);
    assert("parameters"@[0] != "dispatcher"@[0]);
    assert("name"@.len() == 4 && "description"@.len() == 11 && "parameters"@.len() == 10);
    assert("dispatcher"@.len() == 10 && "evaluationPolicy"@.len() == 16 && "extraScopes"@.len() == 11);
    assert("require"@.len() == 7 && "onFailure"@.len() == 9);
}

/// Decoding an object depends on its members by key, not on their order:
/// the same members in any order give the same declaration, or are refused
/// alike.
pub proof fn lemma_decode_order_free(a: Seq<(Seq<char>, Json)>, b: Seq<(Seq<char>, Json)>)
    requires
        distinct_keys(a),
        distinct_keys(b),
        same_members(a, b),
    ensures
        decode_declaration(Json::Object(a)) == decode_declaration(Json::Object(b)),
{
    lemma_member_order_free(a, b, "name"@);
    lemma_member_order_free(a, b, "description"@);
    lemma_member_order_free(a, b, "parameters"@);
    lemma_member_order_free(a, b, "dispatcher"@);
    lemma_member_order_free(a, b, "evaluationPolicy"@);
    lemma_member_order_free(a, b, "extraScopes"@);
}

/// An object with a string `name` member, wherever it stands, and otherwise
/// only a string `description` or members the declaration does not know,
/// decodes: its name is that string, its description that of the
/// `description` member if there is one, and every other field is absent.
pub proof fn lemma_decode_name_anywhere(ms: Seq<(Seq<char>, Json)>, i: int, n: Seq<char>)
    requires
        distinct_keys(ms),
        0 <= i < ms.len(),
        ms[i] == ("name"@, Json::Str(n)),
        forall|j: int|
            0 <= j < ms.len() && j != i ==> {
                &&& ms[j].0 != "parameters"@
                &&& ms[j].0 != "dispatcher"@
                &&& ms[j].0 != "evaluationPolicy"@
                &&& ms[j].0 != "extraScopes"@
                &&& (ms[j].0 == "description"@ ==> ms[j].1 is Str)
            },
    ensures
        decode_declaration(Json::Object(ms)) matches Some(d) && d.name == n && d.parameters is None
            && d.dispatcher is None && d.evaluation_policy is None && d.extra_scopes.len() == 0,
        forall|k: int|
            0 <= k < ms.len() && ms[k].0 == "description"@ ==> (decode_declaration(Json::Object(ms)) matches Some(d)
                && d.description == Some(ms[k].1->Str_0)),
        (forall|k: int| 0 <= k < ms.len() ==> ms[k].0 != "description"@) ==> (decode_declaration(
            Json::Object(ms),
        ) matches Some(d) && d.description is None),
{
    lemma_keys_distinct();
    lemma_member_at(ms, i);
    lemma_member_absent(ms, "parameters"@);
    lemma_member_absent(ms, "dispatcher"@);
    lemma_member_absent(ms, "evaluationPolicy"@);
    lemma_member_absent(ms, "extraScopes"@);
    if exists|k: int| 0 <= k < ms.len() && ms[k].0 == "description"@ {
        let k = choose|k: int| 0 <= k < ms.len() && ms[k].0 == "description"@;
        lemma_member_at(ms, k);
        assert forall|k2: int| 0 <= k2 < ms.len() && ms[k2].0 == "description"@ implies k2 == k by {}
    } else {
        lemma_member_absent(ms, "description"@);
    }
}

/// The first value found in a list of lookups.
pub open spec fn first_found(lookups: Seq<Option<Json>>) -> Option<Json>
    decreases lookups.len(),
{
    if lookups.len() == 0 {
        None
    } else if lookups[0] is Some {
        lookups[0]
    } else {
        first_found(lookups.drop_first())
    }
}

proof fn lemma_optional_member(key: Seq<char>, value: Option<Json>, other: Seq<char>)
    ensures
        member(optional_member(key, value), key) == value,
        other != key ==> member(optional_member(key, value), other) is None,
{
    let ms = optional_member(key, value);
    if value is Some {
        assert(ms.len() == 1 && ms[0].0 == key && ms[0].1 == value->Some_0);
        assert(ms.drop_first() =~= Seq::<(Seq<char>, Json)>::empty());
        assert(member(ms.drop_first(), other) is None);
    } else {
        assert(ms.len() == 0);
    }
}

/// Decoding the encoding of a policy gives the policy back.
proof fn lemma_policy_roundtrip(p: PolicyModel)
    ensures
        decode_policy(encode_policy(p)) == Some(p),
{
    lemma_keys_distinct();
    lemma_optional_member(
        "requireToolCall"@,
        match p.require_tool_call {
            Some(r) => Some(encode_require(r)),
            None => None,
        },
        "requireToolCall"@,
    );
    if let Some(r) = p.require_tool_call {
        let ms = seq![("require"@, Json::Str(r.require)), ("onFailure"@, Json::Str(r.on_failure))];
        assert(ms.drop_first() == seq![("onFailure"@, Json::Str(r.on_failure))]);
        assert(ms.drop_first().drop_first() =~= Seq::<(Seq<char>, Json)>::empty());
        assert(member(ms.drop_first(), "onFailure"@) == Some(Json::Str(r.on_failure)));
        assert(member(ms, "onFailure"@) == Some(Json::Str(r.on_failure)));
        assert(decode_require(encode_require(r)) == Some(r));
    }
}

/// Decoding the encoding of a declaration gives the declaration back, for
/// every declaration that encoding does not blur.
pub proof fn lemma_declaration_roundtrip(d: DeclarationModel)
    requires
        is_canonical(d),
    ensures
        decode_declaration(encode_declaration(d)) == Some(d),
{
    lemma_keys_distinct();
    let desc = match d.description {
        Some(t) => Some(Json::Str(t)),
        None => None,
    };
    let disp = match d.dispatcher {
        Some(x) => Some(Json::Str(dispatcher_wire(x))),
        None => None,
    };
    let pol = match d.evaluation_policy {
        Some(p) => Some(encode_policy(p)),
        None => None,
    };
    let scopes: Seq<(Seq<char>, Json)> = if d.extra_scopes.len() == 0 {
        Seq::empty()
    } else {
        seq![("extraScopes"@, Json::Array(encode_scopes(d.extra_scopes)))]
    };
    let m0 = seq![("name"@, Json::Str(d.name))];
    let m1 = optional_member("description"@, desc);
    let m2 = optional_member("parameters"@, d.parameters);
    let m3 = optional_member("dispatcher"@, disp);
    let m4 = optional_member("evaluationPolicy"@, pol);
    let ms = m0 + m1 + m2 + m3 + m4 + scopes;
    assert(encode_declaration(d) == Json::Object(ms));
    assert(m0.drop_first() =~= Seq::<(Seq<char>, Json)>::empty());
    if scopes.len() > 0 {
        assert(scopes.drop_first() =~= Seq::<(Seq<char>, Json)>::empty());
    }
    let keys = seq!["name"@, "description"@, "parameters"@, "dispatcher"@, "evaluationPolicy"@, "extraScopes"@];
    assert forall|k: int| 0 <= k < 6 implies {
        let key = #[trigger] keys[k];
        member(ms, key) == first_found(
            seq![member(m0, key), member(m1, key), member(m2, key), member(m3, key), member(m4, key), member(scopes, key)],
        )
    } by {
        let key = keys[k];
        lemma_member_append(m0, m1, key);
        lemma_member_append(m0 + m1, m2, key);
        lemma_member_append(m0 + m1 + m2, m3, key);
        lemma_member_append(m0 + m1 + m2 + m3, m4, key);
        lemma_member_append(m0 + m1 + m2 + m3 + m4, scopes, key);
        reveal_with_fuel(first_found, 7);
    }
    assert forall|k: int| 0 <= k < 6 implies {
        let key = #[trigger] keys[k];
        &&& (key != "name"@ ==> member(m0, key) is None)
        &&& (key != "description"@ ==> member(m1, key) is None)
        &&& (key != "parameters"@ ==> member(m2, key) is None)
        &&& (key != "dispatcher"@ ==> member(m3, key) is None)
        &&& (key != "evaluationPolicy"@ ==> member(m4, key) is None)
        &&& (key != "extraScopes"@ ==> member(scopes, key) is None)
    } by {
        let key = keys[k];
        assert(m0[0].0 == "name"@);
        assert(member(m0.drop_first(), key) is None);
        if scopes.len() > 0 {
            assert(scopes[0].0 == "extraScopes"@);
            assert(member(scopes.drop_first(), key) is None);
        }
        lemma_optional_member("description"@, desc, key);
        lemma_optional_member("parameters"@, d.parameters, key);
        lemma_optional_member("dispatcher"@, disp, key);
        lemma_optional_member("evaluationPolicy"@, pol, key);
    }
    reveal_with_fuel(first_found, 7);
    assert(keys[0] == "name"@ && keys[1] == "description"@ && keys[2] == "parameters"@);
    assert(keys[3] == "dispatcher"@ && keys[4] == "evaluationPolicy"@ && keys[5] == "extraScopes"@);
    assert(member(ms, keys[0]) == Some(Json::Str(d.name)));
    lemma_optional_member("description"@, desc, "description"@);
    assert(member(ms, keys[1]) == desc);
    lemma_optional_member("parameters"@, d.parameters, "parameters"@);
    assert(member(ms, keys[2]) == d.parameters);
    lemma_optional_member("dispatcher"@, disp, "dispatcher"@);
    assert(member(ms, keys[3]) == disp);
    lemma_optional_member("evaluationPolicy"@, pol, "evaluationPolicy"@);
    assert(member(ms, keys[4]) == pol);
    if let Some(x) = d.dispatcher {
        lemma_dispatcher_roundtrip(x);
    }
    if let Some(p) = d.evaluation_policy {
        lemma_policy_roundtrip(p);
    }
    if d.extra_scopes.len() > 0 {
        let items = encode_scopes(d.extra_scopes);
        assert forall|i: int| 0 <= i < items.len() implies #[trigger] items[i] is Str by {}
        assert forall|i: int| 0 <= i < d.extra_scopes.len() implies scopes_of(items)[i]
            == d.extra_scopes[i] by {
            lemma_scope_roundtrip(d.extra_scopes[i]);
        }
        assert(scopes_of(items) =~= d.extra_scopes);
        assert(member(ms, keys[5]) == Some(Json::Array(items)));
    } else {
        assert(member(ms, keys[5]) is None);
        assert(d.extra_scopes =~= Seq::<ScopeModel>::empty());
    }
}

impl Dispatcher {
    /// The dispatcher a wire word denotes; unrecognized words are kept verbatim.
    pub fn from_wire(word: String) -> (d: Dispatcher)
        ensures
            d@ == dispatcher_from_wire(word@),
    {
        if word == String::from_str("tool") {
            Dispatcher::Tool
        } else if word == String::from_str("bridge") {
            Dispatcher::Bridge
        } else {
            Dispatcher::Unknown(word)
        }
    }

    /// The wire word of a dispatcher.
    pub fn to_wire(&self) -> (word: String)
        ensures
            word@ == dispatcher_wire(self@),
    {
        match self {
            Dispatcher::Tool => String::from_str("tool"),
            Dispatcher::Bridge => String::from_str("bridge"),
            Dispatcher::Unknown(word) => word.clone(),
        }
    }

    /// A copy of the dispatcher.
    pub fn copy(&self) -> (d: Dispatcher)
        ensures
            d@ == self@,
    {
        match self {
            Dispatcher::Tool => Dispatcher::Tool,
            Dispatcher::Bridge => Dispatcher::Bridge,
            Dispatcher::Unknown(word) => Dispatcher::Unknown(word.clone()),
        }
    }
}

impl ExtraScope {
    /// The scope a wire word denotes; unrecognized words are kept verbatim.
    pub fn from_wire(word: String) -> (s: ExtraScope)
        ensures
            s@ == scope_from_wire(word@),
    {
        if word == String::from_str("compact") {
            ExtraScope::Compact
        } else {
            ExtraScope::Unknown(word)
        }
    }

    /// The wire word of a scope.
    pub fn to_wire(&self) -> (word: String)
        ensures
            word@ == scope_wire(self@),
    {
        match self {
            ExtraScope::Compact => String::from_str("compact"),
            ExtraScope::Unknown(word) => word.clone(),
        }
    }
}

/// Every wire word comes back verbatim from the dispatcher it denotes.
pub proof fn lemma_dispatcher_word_preserved(word: Seq<char>)
    ensures
        dispatcher_wire(dispatcher_from_wire(word)) == word,
{
}

/// A dispatcher comes back from its wire word, unless it is an `Unknown`
/// that holds one of the known words.
pub proof fn lemma_dispatcher_roundtrip(d: DispatcherModel)
    requires
        d is Unknown ==> d->Unknown_0 != "tool"@ && d->Unknown_0 != "bridge"@,
    ensures
        dispatcher_from_wire(dispatcher_wire(d)) == d,
{
    reveal_strlit("tool");
    reveal_strlit("bridge");
    assert("tool"@ != "bridge"@) by {
        assert("tool"@.len() != "bridge"@.len());
    }
}

/// Every wire word comes back verbatim from the scope it denotes.
pub proof fn lemma_scope_word_preserved(word: Seq<char>)
    ensures
        scope_wire(scope_from_wire(word)) == word,
{
}

/// A scope comes back from its wire word, unless it is an `Unknown` that
/// holds the known word.
pub proof fn lemma_scope_roundtrip(s: ScopeModel)
    requires
        s is Unknown ==> s->Unknown_0 != "compact"@,
    ensures
        scope_from_wire(scope_wire(s)) == s,
{
}


/// The texts of an optional string.
pub open spec fn text_opt(t: Option<String>) -> Option<Seq<char>> {
    match t {
        Some(s) => Some(s@),
        None => None,
    }
}

fn item_at(items: &Vec<JsonValue>, i: usize) -> (r: Option<&JsonValue>)
    ensures
        field_doc(r) == element(item_docs(items@), i as int),
{
    if i < items.len() {
        Some(&items[i])
    } else {
        None
    }
}

fn decode_required_text_field(field: Option<&JsonValue>) -> (r: Option<String>)
    ensures
        decode_required_text(field_doc(field)) == text_opt(r),
{
    match field {
        Some(JsonValue::Str(s)) => Some(s.clone()),
        _ => None,
    }
}

fn decode_optional_text_field(field: Option<&JsonValue>) -> (r: Result<Option<String>, InvalidDeclaration>)
    ensures
        match r {
            Ok(t) => decode_optional_text(field_doc(field)) == Some(text_opt(t)),
            Err(_) => decode_optional_text(field_doc(field)) is None,
        },
{
    match field {
        None => Ok(None),
        Some(JsonValue::Null) => Ok(None),
        Some(JsonValue::Str(s)) => Ok(Some(s.clone())),
        _ => Err(InvalidDeclaration),
    }
}

fn decode_optional_value_field(field: Option<&JsonValue>) -> (r: Option<JsonValue>)
    ensures
        decode_optional_value(field_doc(field)) == match r {
            Some(v) => Some(v.doc()),
            None => None,
        },
{
    match field {
        None => None,
        Some(JsonValue::Null) => None,
        Some(v) => Some(v.copy()),
    }
}

fn decode_optional_dispatcher_field(field: Option<&JsonValue>) -> (r: Result<
    Option<Dispatcher>,
    InvalidDeclaration,
>)
    ensures
        match r {
            Ok(d) => decode_optional_dispatcher(field_doc(field)) == Some(
                match d {
                    Some(x) => Some(x@),
                    None => None,
                },
            ),
            Err(_) => decode_optional_dispatcher(field_doc(field)) is None,
        },
{
    match field {
        None => Ok(None),
        Some(JsonValue::Null) => Ok(None),
        Some(JsonValue::Str(s)) => Ok(Some(Dispatcher::from_wire(s.clone()))),
        _ => Err(InvalidDeclaration),
    }
}

fn decode_scopes_field(field: Option<&JsonValue>) -> (r: Result<Vec<ExtraScope>, InvalidDeclaration>)
    ensures
        match r {
            Ok(v) => decode_scopes(field_doc(field)) == Some(scope_models(v@)),
            Err(_) => decode_scopes(field_doc(field)) is None,
        },
{
    match field {
        None => {
            let v: Vec<ExtraScope> = Vec::new();
            assert(scope_models(v@) =~= Seq::<ScopeModel>::empty());
            Ok(v)
        },
        Some(JsonValue::Array(items)) => {
            let ghost ds = item_docs(items@);
            proof {
                lemma_array_doc(*items);
            }
            let mut out: Vec<ExtraScope> = Vec::new();
            let mut i: usize = 0;
            while i < items.len()
                invariant
                    i <= items@.len(),
                    ds == item_docs(items@),
                    field_doc(field) == Some(Json::Array(ds)),
                    out@.len() == i,
                    forall|j: int| 0 <= j < i ==> #[trigger] ds[j] is Str,
                    scope_models(out@) == scopes_of(ds.take(i as int)),
                decreases items@.len() - i,
            {
                match &items[i] {
                    JsonValue::Str(s) => {
                        let ghost before = out@;
                        assert(ds[i as int] == Json::Str(s@));
                        out.push(ExtraScope::from_wire(s.clone()));
                        assert(scopes_of(ds.take(i + 1)) =~= scopes_of(ds.take(i as int)).push(
                            scope_from_wire(s@),
                        ));
                        assert(scope_models(out@) =~= scope_models(before).push(out@[i as int]@));
                        assert(scope_models(out@) =~= scopes_of(ds.take(i + 1)));
                    },
                    _ => {
                        assert(!(ds[i as int] is Str));
                        return Err(InvalidDeclaration);
                    },
                }
                i = i + 1;
            }
            assert(ds.take(i as int) =~= ds);
            Ok(out)
        },
        _ => Err(InvalidDeclaration),
    }
}

fn decode_require_value(value: &JsonValue) -> (r: Result<RequireToolCall, InvalidDeclaration>)
    ensures
        match r {
            Ok(x) => decode_require(value.doc()) == Some(x@),
            Err(_) => decode_require(value.doc()) is None,
        },
{
    let (require, on_failure) = match value {
        JsonValue::Object(_) => (value.get("require"), value.get("onFailure")),
        JsonValue::Array(items) => {
            proof {
                lemma_array_doc(*items);
            }
            if items.len() > 2 {
                return Err(InvalidDeclaration);
            }
            (item_at(items, 0), item_at(items, 1))
        },
        _ => {
            return Err(InvalidDeclaration);
        },
    };
    match (decode_required_text_field(require), decode_required_text_field(on_failure)) {
        (Some(r), Some(f)) => Ok(RequireToolCall { require: r, on_failure: f }),
        _ => Err(InvalidDeclaration),
    }
}

fn decode_optional_require_field(field: Option<&JsonValue>) -> (r: Result<
    Option<RequireToolCall>,
    InvalidDeclaration,
>)
    ensures
        match r {
            Ok(x) => decode_optional_require(field_doc(field)) == Some(
                match x {
                    Some(v) => Some(v@),
                    None => None,
                },
            ),
            Err(_) => decode_optional_require(field_doc(field)) is None,
        },
{
    match field {
        None => Ok(None),
        Some(JsonValue::Null) => Ok(None),
        Some(v) => match decode_require_value(v) {
            Ok(x) => Ok(Some(x)),
            Err(e) => Err(e),
        },
    }
}

fn decode_policy_value(value: &JsonValue) -> (r: Result<EvaluationPolicy, InvalidDeclaration>)
    ensures
        match r {
            Ok(p) => decode_policy(value.doc()) == Some(p@),
            Err(_) => decode_policy(value.doc()) is None,
        },
{
    let field = match value {
        JsonValue::Object(_) => value.get("requireToolCall"),
        JsonValue::Array(items) => {
            proof {
                lemma_array_doc(*items);
            }
            if items.len() > 1 {
                return Err(InvalidDeclaration);
            }
            item_at(items, 0)
        },
        _ => {
            return Err(InvalidDeclaration);
        },
    };
    match decode_optional_require_field(field) {
        Ok(x) => Ok(EvaluationPolicy { require_tool_call: x }),
        Err(e) => Err(e),
    }
}

fn decode_optional_policy_field(field: Option<&JsonValue>) -> (r: Result<
    Option<EvaluationPolicy>,
    InvalidDeclaration,
>)
    ensures
        match r {
            Ok(x) => decode_optional_policy(field_doc(field)) == Some(
                match x {
                    Some(p) => Some(p@),
                    None => None,
                },
            ),
            Err(_) => decode_optional_policy(field_doc(field)) is None,
        },
{
    match field {
        None => Ok(None),
        Some(JsonValue::Null) => Ok(None),
        Some(v) => match decode_policy_value(v) {
            Ok(p) => Ok(Some(p)),
            Err(e) => Err(e),
        },
    }
}

fn decode_declaration_fields(
    name: Option<&JsonValue>,
    description: Option<&JsonValue>,
    parameters: Option<&JsonValue>,
    dispatcher: Option<&JsonValue>,
    policy: Option<&JsonValue>,
    scopes: Option<&JsonValue>,
) -> (r: Result<CommandDeclaration, InvalidDeclaration>)
    ensures
        match r {
            Ok(d) => decode_fields(
                field_doc(name),
                field_doc(description),
                field_doc(parameters),
                field_doc(dispatcher),
                field_doc(policy),
                field_doc(scopes),
            ) == Some(d@),
            Err(_) => decode_fields(
                field_doc(name),
                field_doc(description),
                field_doc(parameters),
                field_doc(dispatcher),
                field_doc(policy),
                field_doc(scopes),
            ) is None,
        },
{
    let name = match decode_required_text_field(name) {
        Some(n) => n,
        None => {
            return Err(InvalidDeclaration);
        },
    };
    let description = match decode_optional_text_field(description) {
        Ok(d) => d,
        Err(e) => {
            return Err(e);
        },
    };
    let dispatcher = match decode_optional_dispatcher_field(dispatcher) {
        Ok(d) => d,
        Err(e) => {
            return Err(e);
        },
    };
    let evaluation_policy = match decode_optional_policy_field(policy) {
        Ok(p) => p,
        Err(e) => {
            return Err(e);
        },
    };
    let extra_scopes = match decode_scopes_field(scopes) {
        Ok(s) => s,
        Err(e) => {
            return Err(e);
        },
    };
    let parameters = decode_optional_value_field(parameters);
    Ok(CommandDeclaration { name, description, parameters, dispatcher, evaluation_policy, extra_scopes })
}

fn encode_scope_list(scopes: &Vec<ExtraScope>) -> (r: Vec<JsonValue>)
    ensures
        item_docs(r@) == encode_scopes(scope_models(scopes@)),
{
    let mut out: Vec<JsonValue> = Vec::new();
    let mut i: usize = 0;
    while i < scopes.len()
        invariant
            i <= scopes@.len(),
            out@.len() == i,
            item_docs(out@) == encode_scopes(scope_models(scopes@)).take(i as int),
        decreases scopes@.len() - i,
    {
        let word = scopes[i].to_wire();
        let ghost before = out@;
        out.push(JsonValue::Str(word));
        assert(out@[i as int].doc() == Json::Str(scope_wire(scopes@[i as int]@)));
        assert(item_docs(out@) =~= item_docs(before).push(out@[i as int].doc()));
        assert(encode_scopes(scope_models(scopes@)).take(i + 1) =~= encode_scopes(
            scope_models(scopes@),
        ).take(i as int).push(Json::Str(scope_wire(scopes@[i as int]@))));
        assert(item_docs(out@) =~= encode_scopes(scope_models(scopes@)).take(i + 1));
        i = i + 1;
    }
    assert(encode_scopes(scope_models(scopes@)).take(i as int) =~= encode_scopes(scope_models(scopes@)));
    out
}

fn encode_require_value(r: &RequireToolCall) -> (v: JsonValue)
    ensures
        v.doc() == encode_require(r@),
{
    let mut members: Vec<(String, JsonValue)> = Vec::new();
    members.push((String::from_str("require"), JsonValue::Str(r.require.clone())));
    members.push((String::from_str("onFailure"), JsonValue::Str(r.on_failure.clone())));
    proof {
        lemma_object_doc(members);
        assert(member_docs(members@) =~= encode_require(r@)->Object_0);
    }
    JsonValue::Object(members)
}

fn encode_policy_value(p: &EvaluationPolicy) -> (v: JsonValue)
    ensures
        v.doc() == encode_policy(p@),
{
    let mut members: Vec<(String, JsonValue)> = Vec::new();
    match &p.require_tool_call {
        Some(r) => {
            members.push((String::from_str("requireToolCall"), encode_require_value(r)));
        },
        None => {},
    }
    proof {
        lemma_object_doc(members);
        assert(member_docs(members@) =~= encode_policy(p@)->Object_0);
    }
    JsonValue::Object(members)
}

impl CommandDeclaration {
    /// Parses a typed declaration from a raw schema value.
    pub fn from_value(value: &JsonValue) -> (r: Result<Self, InvalidDeclaration>)
        ensures
            match r {
                Ok(d) => decode_declaration(value.doc()) == Some(d@),
                Err(_) => decode_declaration(value.doc()) is None,
            },
    {
        match value {
            JsonValue::Object(_) => decode_declaration_fields(
                value.get("name"),
                value.get("description"),
                value.get("parameters"),
                value.get("dispatcher"),
                value.get("evaluationPolicy"),
                value.get("extraScopes"),
            ),
            JsonValue::Array(items) => {
                proof {
                    lemma_array_doc(*items);
                }
                if items.len() > 6 {
                    return Err(InvalidDeclaration);
                }
                decode_declaration_fields(
                    item_at(items, 0),
                    item_at(items, 1),
                    item_at(items, 2),
                    item_at(items, 3),
                    item_at(items, 4),
                    item_at(items, 5),
                )
            },
            _ => Err(InvalidDeclaration),
        }
    }

    /// Converts back to the raw schema value; this never fails.
    pub fn to_value(&self) -> (r: Result<JsonValue, InvalidDeclaration>)
        ensures
            r matches Ok(v) && v.doc() == encode_declaration(self@),
    {
        let ghost d = self@;
        let mut members: Vec<(String, JsonValue)> = Vec::new();
        members.push((String::from_str("name"), JsonValue::Str(self.name.clone())));
        let ghost m0 = member_docs(members@);
        match &self.description {
            Some(t) => members.push((String::from_str("description"), JsonValue::Str(t.clone()))),
            None => {},
        }
        let ghost m1 = member_docs(members@);
        match &self.parameters {
            Some(p) => members.push((String::from_str("parameters"), p.copy())),
            None => {},
        }
        let ghost m2 = member_docs(members@);
        match &self.dispatcher {
            Some(x) => members.push((String::from_str("dispatcher"), JsonValue::Str(x.to_wire()))),
            None => {},
        }
        let ghost m3 = member_docs(members@);
        match &self.evaluation_policy {
            Some(p) => members.push((String::from_str("evaluationPolicy"), encode_policy_value(p))),
            None => {},
        }
        let ghost m4 = member_docs(members@);
        if self.extra_scopes.len() > 0 {
            let items = encode_scope_list(&self.extra_scopes);
            proof {
                lemma_array_doc(items);
            }
            members.push((String::from_str("extraScopes"), JsonValue::Array(items)));
        }
        proof {
            lemma_object_doc(members);
            assert(m0 =~= seq![("name"@, Json::Str(d.name))]);
            assert(m1 =~= m0 + optional_member(
                "description"@,
                match d.description {
                    Some(t) => Some(Json::Str(t)),
                    None => None,
                },
            ));
            assert(m2 =~= m1 + optional_member("parameters"@, d.parameters));
            assert(m3 =~= m2 + optional_member(
                "dispatcher"@,
                match d.dispatcher {
                    Some(x) => Some(Json::Str(dispatcher_wire(x))),
                    None => None,
                },
            ));
            assert(m4 =~= m3 + optional_member(
                "evaluationPolicy"@,
                match d.evaluation_policy {
                    Some(p) => Some(encode_policy(p)),
                    None => None,
                },
            ));
            assert(member_docs(members@) =~= encode_declaration(d)->Object_0);
        }
        Ok(JsonValue::Object(members))
    }

    /// True when the command is routed into the model tool surface: only an
    /// explicit `Tool` dispatcher is.
    pub fn is_tool_facing(&self) -> (r: bool)
        ensures
            r == (self@.dispatcher == Some(DispatcherModel::Tool)),
    {
        match &self.dispatcher {
            Some(Dispatcher::Tool) => true,
            _ => false,
        }
    }

    /// The `requireToolCall` evaluation entry, if declared.
    pub fn require_tool_call(&self) -> (r: Option<&RequireToolCall>)
        ensures
            match r {
                Some(x) => self@.evaluation_policy matches Some(p) && p.require_tool_call == Some(x@),
                None => !(self@.evaluation_policy matches Some(p) && p.require_tool_call is Some),
            },
    {
        match &self.evaluation_policy {
            Some(p) => match &p.require_tool_call {
                Some(x) => Some(x),
                None => None,
            },
            None => None,
        }
    }

    /// True when the command is additionally exposed in the compact scope.
    pub fn has_compact_scope(&self) -> (r: bool)
        ensures
            r == self@.extra_scopes.contains(ScopeModel::Compact),
    {
        let mut i: usize = 0;
        while i < self.extra_scopes.len()
            invariant
                i <= self.extra_scopes@.len(),
                forall|j: int| 0 <= j < i ==> !(self.extra_scopes@[j] is Compact),
            decreases self.extra_scopes@.len() - i,
        {
            match &self.extra_scopes[i] {
                ExtraScope::Compact => {
                    assert(self@.extra_scopes[i as int] == ScopeModel::Compact);
                    return true;
                },
                _ => {},
            }
            i = i + 1;
        }
        assert forall|j: int| 0 <= j < self@.extra_scopes.len() implies self@.extra_scopes[j]
            != ScopeModel::Compact by {
            assert(self@.extra_scopes[j] == self.extra_scopes@[j]@);
        }
        false
    }
}

} // verus!
