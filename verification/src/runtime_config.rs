//! The configuration the core runs: a subscription's configuration with its
//! inbounds replaced by the ones the local runtime needs and the outbound
//! interface detected automatically. serde_json reads, holds and prints the
//! document; this module decides, in verified code, what goes into it.

use vstd::prelude::*;

use crate::system_proxy::{TrafficMode, LOCAL_MIXED_PORT};
use crate::text::decimal_spec;

verus! {

#[verifier::external_type_specification]
#[verifier::external_body]
pub struct ExJsonValue(serde_json::Value);

#[verifier::external_type_specification]
#[verifier::external_body]
#[verifier::reject_recursive_types(K)]
#[verifier::reject_recursive_types(V)]
pub struct ExJsonMap<K, V>(serde_json::Map<K, V>);

#[verifier::external_type_specification]
#[verifier::external_body]
pub struct ExJsonError(serde_json::Error);

/// A JSON value as plain values.
pub enum JsonModel {
    Null,
    Bool(bool),
    /// A number, by the text serde_json writes for it.
    Number(Seq<char>),
    Str(Seq<char>),
    Array(Seq<JsonModel>),
    /// An object, by the value under each key. (Without serde_json's
    /// `preserve_order` feature, which this build does not enable, an object
    /// keeps its keys sorted, so the keys fix the order it is written in.)
    Object(Map<Seq<char>, JsonModel>),
}

/// What a `serde_json::Value` holds, as plain values.
pub uninterp spec fn value_model(v: serde_json::Value) -> JsonModel;

/// What a `serde_json::Map` holds: the value under each key.
pub uninterp spec fn map_model(m: serde_json::Map<String, serde_json::Value>) -> Map<Seq<char>, JsonModel>;

/// What `serde_json::from_str::<serde_json::Value>` makes of a text: the
/// value it holds, or nothing when the text is not one JSON value.
pub uninterp spec fn parsed_json(text: Seq<char>) -> Option<JsonModel>;

/// The text `serde_json::to_string_pretty` writes for a value.
pub uninterp spec fn pretty_json(doc: JsonModel) -> Seq<char>;

/// Parses a text into a JSON document (`serde_json::from_str` into a
/// `serde_json::Value`). The claim: the parse depends on the text alone,
/// fails exactly when [`parsed_json`] has nothing, and otherwise holds what
/// [`parsed_json`] names.
#[verifier::external_body]
fn parse_json(text: &str) -> (r: Result<serde_json::Value, serde_json::Error>)
    ensures
        match r {
            Ok(v) => parsed_json(text@) == Some(value_model(v)),
            Err(_) => parsed_json(text@) is None,
        },
{
    serde_json::from_str::<serde_json::Value>(text)
}

/// Prints a document with `serde_json::to_string_pretty`. Serialising a
/// `serde_json::Value` into memory cannot fail (its map keys are strings
/// and its numbers finite), and the text is [`pretty_json`] of what the
/// value holds.
#[verifier::external_body]
fn pretty(document: &serde_json::Value) -> (r: Result<String, serde_json::Error>)
    ensures
        match r {
            Ok(s) => s@ == pretty_json(value_model(*document)),
            Err(_) => false,
        },
{
    serde_json::to_string_pretty(document)
}

/// Opens an object (the map inside `Value::Object`); any other value is
/// handed back as it was.
#[verifier::external_body]
fn into_object(v: serde_json::Value) -> (r: Result<serde_json::Map<String, serde_json::Value>, serde_json::Value>)
    ensures
        match value_model(v) {
            JsonModel::Object(m) => r matches Ok(map) && map_model(map) == m,
            _ => r matches Err(w) && value_model(w) == value_model(v),
        },
{
    match v {
        serde_json::Value::Object(map) => Ok(map),
        other => Err(other),
    }
}

/// `Value::is_null`.
#[verifier::external_body]
fn is_null(v: &serde_json::Value) -> (r: bool)
    ensures
        r == (value_model(*v) == JsonModel::Null),
{
    v.is_null()
}

/// `Value::Object`: the object holding `map`.
#[verifier::external_body]
fn object_value(map: serde_json::Map<String, serde_json::Value>) -> (v: serde_json::Value)
    ensures
        value_model(v) == JsonModel::Object(map_model(map)),
{
    serde_json::Value::Object(map)
}

/// `Value::Array`: the array holding `items` in order.
#[verifier::external_body]
fn array_value(items: Vec<serde_json::Value>) -> (v: serde_json::Value)
    ensures
        value_model(v) == JsonModel::Array(items@.map_values(|x: serde_json::Value| value_model(x))),
{
    serde_json::Value::Array(items)
}

/// `Value::String`.
#[verifier::external_body]
fn string_value(s: String) -> (v: serde_json::Value)
    ensures
        value_model(v) == JsonModel::Str(s@),
{
    serde_json::Value::String(s)
}

/// `Value::Bool`.
#[verifier::external_body]
fn bool_value(b: bool) -> (v: serde_json::Value)
    ensures
        value_model(v) == JsonModel::Bool(b),
{
    serde_json::Value::Bool(b)
}

/// `Value::from(u64)`: a number serde_json writes in decimal.
#[verifier::external_body]
fn number_value(n: u64) -> (v: serde_json::Value)
    ensures
        value_model(v) == JsonModel::Number(decimal_spec(n as nat)),
{
    serde_json::Value::from(n)
}

/// An object with no keys.
pub open spec fn no_fields() -> Map<Seq<char>, JsonModel> {
    Map::empty()
}

/// `Map::new`: an empty object map.
#[verifier::external_body]
fn new_map() -> (m: serde_json::Map<String, serde_json::Value>)
    ensures
        map_model(m) == no_fields(),
{
    serde_json::Map::new()
}

/// `Map::insert`: `key` now holds `value`, in place of what it held.
#[verifier::external_body]
fn map_insert(map: &mut serde_json::Map<String, serde_json::Value>, key: String, value: serde_json::Value)
    ensures
        map_model(*final(map)) == map_model(*old(map)).insert(key@, value_model(value)),
{
    map.insert(key, value);
}

/// `Map::remove`: takes out what `key` held, if anything.
#[verifier::external_body]
fn map_remove(map: &mut serde_json::Map<String, serde_json::Value>, key: &str) -> (r: Option<serde_json::Value>)
    ensures
        map_model(*final(map)) == map_model(*old(map)).remove(key@),
        match r {
            Some(v) => map_model(*old(map)).contains_key(key@) && value_model(v) == map_model(*old(map))[key@],
            None => !map_model(*old(map)).contains_key(key@),
        },
{
    map.remove(key)
}

/// What a text is as a JSON document.
#[derive(Clone, Copy, Debug, PartialEq, Eq, Structural)]
pub enum JsonKind {
    /// Not one JSON value.
    Invalid,
    /// A JSON object, or `null` (which gains fields like an empty object).
    ObjectOrNull,
    /// Any other JSON value: an array, a string, a number or a boolean.
    Other,
}

/// The kind of JSON document a text is.
pub open spec fn json_kind(text: Seq<char>) -> JsonKind {
    match parsed_json(text) {
        None => JsonKind::Invalid,
        Some(doc) => match doc {
            JsonModel::Null => JsonKind::ObjectOrNull,
            JsonModel::Object(_) => JsonKind::ObjectOrNull,
            _ => JsonKind::Other,
        },
    }
}

/// The system-proxy inbound: a mixed proxy listening on the loopback
/// address at the local mixed port.
pub open spec fn mixed_inbound_model() -> JsonModel {
    JsonModel::Object(
        Map::empty().insert("type"@, JsonModel::Str("mixed"@)).insert("tag"@, JsonModel::Str("mixed-in"@)).insert(
            "listen"@,
            JsonModel::Str("127.0.0.1"@),
        ).insert("listen_port"@, JsonModel::Number(decimal_spec(LOCAL_MIXED_PORT as nat))),
    )
}

/// The TUN inbound: its own addresses, a large MTU, automatic and strict
/// routing, and the mixed stack.
pub open spec fn tun_inbound_model() -> JsonModel {
    JsonModel::Object(
        Map::empty().insert("type"@, JsonModel::Str("tun"@)).insert("tag"@, JsonModel::Str("tun-in"@)).insert(
            "address"@,
            JsonModel::Array(
                seq![JsonModel::Str("172.19.0.1/30"@), JsonModel::Str("fdfe:dcba:9876::1/126"@)],
            ),
        ).insert("mtu"@, JsonModel::Number(decimal_spec(9000))).insert("auto_route"@, JsonModel::Bool(true)).insert(
            "strict_route"@,
            JsonModel::Bool(true),
        ).insert("stack"@, JsonModel::Str("mixed"@)),
    )
}

/// The inbound list the local runtime needs in `mode`: one mixed inbound for
/// the system proxy, one TUN inbound for TUN.
pub open spec fn local_inbounds_model(mode: TrafficMode) -> JsonModel {
    match mode {
        TrafficMode::SystemProxy => JsonModel::Array(seq![mixed_inbound_model()]),
        TrafficMode::Tun => JsonModel::Array(seq![tun_inbound_model()]),
    }
}

fn text_value(s: &str) -> (v: serde_json::Value)
    ensures
        value_model(v) == JsonModel::Str(s@),
{
    string_value(s.to_string())
}

fn put(map: &mut serde_json::Map<String, serde_json::Value>, key: &str, value: serde_json::Value)
    ensures
        map_model(*final(map)) == map_model(*old(map)).insert(key@, value_model(value)),
{
    map_insert(map, key.to_string(), value);
}

/// The inbound list the local runtime puts in place of the subscription's.
pub fn local_inbounds(mode: TrafficMode) -> (v: serde_json::Value)
    ensures
        value_model(v) == local_inbounds_model(mode),
{
    let mut inbound = new_map();
    match mode {
        TrafficMode::SystemProxy => {
            put(&mut inbound, "type", text_value("mixed"));
            put(&mut inbound, "tag", text_value("mixed-in"));
            put(&mut inbound, "listen", text_value("127.0.0.1"));
            put(&mut inbound, "listen_port", number_value(LOCAL_MIXED_PORT as u64));
        },
        TrafficMode::Tun => {
            put(&mut inbound, "type", text_value("tun"));
            put(&mut inbound, "tag", text_value("tun-in"));
            let mut address: Vec<serde_json::Value> = Vec::new();
            address.push(text_value("172.19.0.1/30"));
            address.push(text_value("fdfe:dcba:9876::1/126"));
            let ghost items = address@;
            let addresses = array_value(address);
            assert(items.map_values(|x: serde_json::Value| value_model(x)) =~= seq![
                JsonModel::Str("172.19.0.1/30"@),
                JsonModel::Str("fdfe:dcba:9876::1/126"@),
            ]);
            put(&mut inbound, "address", addresses);
            put(&mut inbound, "mtu", number_value(9000));
            put(&mut inbound, "auto_route", bool_value(true));
            put(&mut inbound, "strict_route", bool_value(true));
            put(&mut inbound, "stack", text_value("mixed"));
        },
    }
    let mut list: Vec<serde_json::Value> = Vec::new();
    list.push(object_value(inbound));
    let ghost items = list@;
    let v = array_value(list);
    assert(items.map_values(|x: serde_json::Value| value_model(x)) =~= seq![value_model(items[0])]);
    v
}

/// The top-level object with its `route` section, where that is an object,
/// set to detect the outbound interface automatically; everything else as
/// it was.
pub open spec fn route_adapted(m: Map<Seq<char>, JsonModel>) -> Map<Seq<char>, JsonModel> {
    if m.contains_key("route"@) {
        match m["route"@] {
            JsonModel::Object(route) => m.insert(
                "route"@,
                JsonModel::Object(route.insert("auto_detect_interface"@, JsonModel::Bool(true))),
            ),
            _ => m,
        }
    } else {
        m
    }
}

/// The configuration the core runs for a subscription's document `doc`:
/// `inbounds` holds the local inbound list for `mode`, a `route` object
/// detects the outbound interface automatically, and every other key keeps
/// its value. A `null` document becomes an object holding just the
/// inbounds.
pub open spec fn adapted_spec(doc: JsonModel, mode: TrafficMode) -> JsonModel {
    match doc {
        JsonModel::Object(m) => JsonModel::Object(route_adapted(m).insert("inbounds"@, local_inbounds_model(mode))),
        _ => JsonModel::Object(Map::empty().insert("inbounds"@, local_inbounds_model(mode))),
    }
}

/// Why a configuration could not be adapted.
#[derive(Clone, Copy, Debug, PartialEq, Eq, Structural)]
pub enum AdaptError {
    /// The configuration is not JSON.
    NotJson,
}

/// Rewrites a subscription's configuration for the local runtime (see
/// [`adapted_spec`]) and writes it out pretty-printed. A text that is not
/// JSON is refused; a JSON value that is not an object (or null) has no
/// inbounds field to replace and is left out.
pub fn adapt_inbounds(config_text: &str, mode: TrafficMode) -> (r: Result<String, AdaptError>)
    requires
        json_kind(config_text@) != JsonKind::Other,
    ensures
        match parsed_json(config_text@) {
            None => r == Err::<String, AdaptError>(AdaptError::NotJson),
            Some(doc) => r matches Ok(s) && s@ == pretty_json(adapted_spec(doc, mode)),
        },
{
    let document = match parse_json(config_text) {
        Ok(v) => v,
        Err(_) => return Err(AdaptError::NotJson),
    };
    let ghost doc = value_model(document);
    let mut map = if is_null(&document) {
        new_map()
    } else {
        match into_object(document) {
            Ok(m) => m,
            Err(_) => return Err(AdaptError::NotJson),
        }
    };
    let ghost start = map_model(map);
    assert(start == match doc {
        JsonModel::Object(m) => m,
        _ => Map::<Seq<char>, JsonModel>::empty(),
    });
    match map_remove(&mut map, "route") {
        Some(route) => {
            let ghost old_route = value_model(route);
            let restored = match into_object(route) {
                Ok(mut fields) => {
                    map_insert(&mut fields, "auto_detect_interface".to_string(), bool_value(true));
                    object_value(fields)
                },
                Err(other) => other,
            };
            map_insert(&mut map, "route".to_string(), restored);
            proof {
                assert(start["route"@] == old_route);
                assert(map_model(map) =~= route_adapted(start));
            }
        },
        None => {
            assert(map_model(map) =~= route_adapted(start));
        },
    }
    map_insert(&mut map, "inbounds".to_string(), local_inbounds(mode));
    let adapted = object_value(map);
    assert(value_model(adapted) == adapted_spec(doc, mode));
    match pretty(&adapted) {
        Ok(text) => Ok(text),
        Err(_) => Err(AdaptError::NotJson),
    }
}

/// What a configuration text is as a JSON document.
pub fn config_kind(config_text: &str) -> (k: JsonKind)
    ensures
        k == json_kind(config_text@),
{
    match parse_json(config_text) {
        Ok(v) => {
            if is_null(&v) {
                JsonKind::ObjectOrNull
            } else {
                match into_object(v) {
                    Ok(_) => JsonKind::ObjectOrNull,
                    Err(_) => JsonKind::Other,
                }
            }
        },
        Err(_) => JsonKind::Invalid,
    }
}

/// [`adapt_inbounds`] for any text: `None` for a JSON value that is not an
/// object (or null), which has no inbounds to replace.
pub fn adapt_config(config_text: &str, mode: TrafficMode) -> (r: Option<Result<String, AdaptError>>)
    ensures
        match parsed_json(config_text@) {
            None => r == Some(Err::<String, AdaptError>(AdaptError::NotJson)),
            Some(doc) => if json_kind(config_text@) == JsonKind::Other {
                r is None
            } else {
                r matches Some(Ok(s)) && s@ == pretty_json(adapted_spec(doc, mode))
            },
        },
{
    match config_kind(config_text) {
        JsonKind::Other => None,
        _ => Some(adapt_inbounds(config_text, mode)),
    }
}

} // verus!
