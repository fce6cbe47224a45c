//! The answer of the API: the services as JSON.
use crate::store::{ServiceModel, ServiceState};
use vstd::prelude::*;

verus! {

/// A JSON value.
#[verifier::external_type_specification]
#[verifier::external_body]
pub struct ExJsonValue(serde_json::Value);

/// The members of a JSON object.
#[verifier::external_type_specification]
#[verifier::external_body]
#[verifier::reject_recursive_types(K)]
#[verifier::reject_recursive_types(V)]
pub struct ExJsonMap<K, V>(serde_json::Map<K, V>);

/// The text of a JSON string; nothing for another value.
pub uninterp spec fn string_of(v: serde_json::Value) -> Option<Seq<char>>;

/// The elements of a JSON array; nothing for another value.
pub uninterp spec fn elements_of(v: serde_json::Value) -> Option<Seq<serde_json::Value>>;

/// The members of a JSON object, by their keys; nothing for another value.
pub uninterp spec fn members_of(v: serde_json::Value) -> Option<
    Map<Seq<char>, serde_json::Value>,
>;

/// The members that a map holds, by their keys.
pub uninterp spec fn entries_of(
    m: serde_json::Map<String, serde_json::Value>,
) -> Map<Seq<char>, serde_json::Value>;

/// Calls `serde_json::Value::from` on a string. Trusted: the value is that string.
#[verifier::external_body]
fn json_string(s: &str) -> (r: serde_json::Value)
    ensures
        string_of(r) == Some(s@),
{
    serde_json::Value::from(s)
}

/// Calls `serde_json::Value::from` on a vector of values. Trusted: the value is the array of
/// those values, in their order.
#[verifier::external_body]
fn json_array(items: Vec<serde_json::Value>) -> (r: serde_json::Value)
    ensures
        elements_of(r) == Some(items@),
{
    serde_json::Value::from(items)
}

/// Calls `serde_json::Map::new`. Trusted: the map holds nothing.
#[verifier::external_body]
fn json_members() -> (r: serde_json::Map<String, serde_json::Value>)
    ensures
        entries_of(r) =~= map![],
{
    serde_json::Map::new()
}

/// Calls `serde_json::Map::insert`. Trusted: afterwards the map holds `value` under `key`, and
/// what it held under other keys.
#[verifier::external_body]
fn json_insert(
    m: &mut serde_json::Map<String, serde_json::Value>,
    key: &str,
    value: serde_json::Value,
)
    ensures
        entries_of(*final(m)) == entries_of(*old(m)).insert(key@, value),
{
    m.insert(key.to_owned(), value);
}

/// Calls `serde_json::Value::from` on a map. Trusted: the value is the object with the members of
/// the map.
#[verifier::external_body]
fn json_object(m: serde_json::Map<String, serde_json::Value>) -> (r: serde_json::Value)
    ensures
        members_of(r) == Some(entries_of(m)),
{
    serde_json::Value::from(m)
}

/// Whether `v` is the object with the name, the status and the time of the last check of a
/// service, and nothing else.
pub open spec fn is_service_json(v: serde_json::Value, state: ServiceModel) -> bool {
    &&& members_of(v) is Some
    &&& members_of(v)->0.dom() == set!["service"@, "status"@, "last_checked"@]
    &&& string_of(members_of(v)->0["service"@]) == Some(state.service)
    &&& string_of(members_of(v)->0["status"@]) == Some(state.last_status)
    &&& string_of(members_of(v)->0["last_checked"@]) == Some(state.last_checked)
}

/// The object of a service.
fn service_json(state: &ServiceState) -> (r: serde_json::Value)
    ensures
        is_service_json(r, state.deep_view()),
{
    let mut members = json_members();
    json_insert(&mut members, "service", json_string(state.service.as_str()));
    json_insert(&mut members, "status", json_string(state.last_status.as_str()));
    json_insert(&mut members, "last_checked", json_string(state.last_checked.as_str()));
    proof {
        reveal_strlit("service");
        reveal_strlit("status");
        reveal_strlit("last_checked");
        assert("service"@.len() == 7);
        assert("status"@.len() == 6);
        assert("last_checked"@.len() == 12);
        assert(entries_of(members).dom() =~= set!["service"@, "status"@, "last_checked"@]);
    }
    json_object(members)
}

/// The answer of the API: an array with the object of every service, in the order of `states`.
pub fn api_services(states: &Vec<ServiceState>) -> (r: serde_json::Value)
    ensures
        elements_of(r) is Some,
        elements_of(r)->0.len() == states@.len(),
        forall|i: int|
            0 <= i < states@.len() ==> is_service_json(
                #[trigger] elements_of(r)->0[i],
                states.deep_view()[i],
            ),
{
    let mut items: Vec<serde_json::Value> = Vec::new();
    let mut i: usize = 0;
    while i < states.len()
        invariant
            i <= states@.len(),
            items@.len() == i,
            forall|k: int|
                0 <= k < i ==> is_service_json(#[trigger] items@[k], states.deep_view()[k]),
        decreases states@.len() - i,
    {
        items.push(service_json(&states[i]));
        i = i + 1;
    }
    json_array(items)
}

/// The answer of the API, in full: an array as long as the list of services, and at each place an
/// object with three members and no others, which hold the name, the last status and the time of
/// the last check of the service at that place.
pub proof fn law_answers_in_full(
    states: Vec<ServiceState>,
    answer: serde_json::Value,
    i: int,
    key: Seq<char>,
)
    requires
        call_ensures(api_services, (&states,), answer),
        0 <= i < states@.len(),
    ensures
        elements_of(answer) is Some,
        elements_of(answer)->0.len() == states@.len(),
        ({
            let members = members_of(elements_of(answer)->0[i]);
            &&& members is Some
            &&& members->0.contains_key(key) <==> key == "service"@ || key == "status"@ || key
                == "last_checked"@
            &&& string_of(members->0["service"@]) == Some(states@[i].service@)
            &&& string_of(members->0["status"@]) == Some(states@[i].last_status@)
            &&& string_of(members->0["last_checked"@]) == Some(states@[i].last_checked@)
        }),
{
    assert(states.deep_view()[i] == states@[i].deep_view());
    assert(is_service_json(elements_of(answer)->0[i], states.deep_view()[i]));
}

} // verus!
