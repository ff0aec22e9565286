//! JSON documents as values of the library's own, and the walk through the
//! report of the system profiler that finds the current network in it.

use vstd::prelude::*;
use crate::location::text::text_of;

verus! {

/// A JSON value. A number is kept without its digits: nothing here reads
/// them. The members of an object are a list of keys and values; where a
/// key occurs more than once, its first occurrence counts.
pub enum Json {
    Null,
    Bool(bool),
    Number,
    Text(String),
    Array(Vec<Json>),
    Object(Vec<(String, Json)>),
}

/// `serde_json::Value`, the document tree of `serde_json`. Nothing here
/// looks inside one: a tree is read from text and turned into a [`Json`].
#[verifier::external_type_specification]
#[verifier::external_body]
pub struct ExValue(serde_json::Value);

/// The tree that `serde_json::from_str` reads in a text, or `None` where it
/// reports an error.
pub uninterp spec fn parsed_value(text: Seq<char>) -> Option<serde_json::Value>;

/// The [`Json`] that stands for a tree of `serde_json`.
pub uninterp spec fn json_of_value(value: serde_json::Value) -> Json;

/// `serde_json::from_str::<serde_json::Value>`: reads one JSON document from
/// the text. The error, where there is one, is dropped.
#[verifier::external_body]
fn read_value(text: &str) -> (value: Option<serde_json::Value>)
    ensures
        value == parsed_value(text@),
{
    serde_json::from_str::<serde_json::Value>(text).ok()
}

/// Turns a tree of `serde_json` into a [`Json`], variant by variant: the
/// digits of a number are left behind, everything else is moved over.
#[verifier::external_body]
fn convert_value(value: serde_json::Value) -> (json: Json)
    ensures
        json == json_of_value(value),
{
    match value {
        serde_json::Value::Null => Json::Null,
        serde_json::Value::Bool(flag) => Json::Bool(flag),
        serde_json::Value::Number(_) => Json::Number,
        serde_json::Value::String(text) => Json::Text(text),
        serde_json::Value::Array(items) => Json::Array(
            items.into_iter().map(convert_value).collect(),
        ),
        serde_json::Value::Object(members) => Json::Object(
            members.into_iter().map(|(key, member)| (key, convert_value(member))).collect(),
        ),
    }
}

/// The document a text holds, where it holds one.
pub open spec fn json_document(text: Seq<char>) -> Option<Json> {
    match parsed_value(text) {
        Some(value) => Some(json_of_value(value)),
        None => None,
    }
}

/// Reads one JSON document from the text.
pub fn parse_json(text: &str) -> (json: Option<Json>)
    ensures
        json == json_document(text@),
{
    match read_value(text) {
        Some(value) => Some(convert_value(value)),
        None => None,
    }
}

/// The key under which the profiler lists the wireless interfaces.
pub const PROFILER_ROOT_KEY: &'static str = "SPAirPortDataType";

/// The key under which an interface lists the networks it knows.
pub const PROFILER_NETWORKS_KEY: &'static str = "spairport_airport_other";

/// The key of a network's name.
pub const PROFILER_NAME_KEY: &'static str = "_name";

/// The key that only the network in use carries.
pub const PROFILER_CURRENT_KEY: &'static str = "spairport_network_cc";

/// The first member of `entries`, from position `from` on, whose key is
/// `key`.
pub open spec fn member_from(entries: Seq<(String, Json)>, key: Seq<char>, from: int) -> Option<
    Json,
>
    decreases entries.len() - from,
{
    if from < 0 || from >= entries.len() {
        None
    } else if entries[from].0@ == key {
        Some(entries[from].1)
    } else {
        member_from(entries, key, from + 1)
    }
}

impl Json {
    /// The member of an object under `key`; `None` for a value that is no
    /// object or has no such member.
    pub open spec fn member(self, key: Seq<char>) -> Option<Json> {
        match self {
            Json::Object(entries) => member_from(entries@, key, 0),
            _ => None,
        }
    }

    /// The elements of an array; `None` for a value that is no array.
    pub open spec fn elements(self) -> Option<Seq<Json>> {
        match self {
            Json::Array(items) => Some(items@),
            _ => None,
        }
    }

    /// The characters of a string; `None` for a value that is no string.
    pub open spec fn text(self) -> Option<Seq<char>> {
        match self {
            Json::Text(text) => Some(text@),
            _ => None,
        }
    }

    /// Looks a member of an object up by its key.
    pub fn get(&self, key: &str) -> (found: Option<&Json>)
        ensures
            match found {
                Some(value) => self.member(key@) == Some(*value),
                None => self.member(key@) is None,
            },
    {
        match self {
            Json::Object(entries) => {
                let wanted = String::from_str(key);
                let mut i: usize = 0;
                while i < entries.len()
                    invariant
                        i <= entries@.len(),
                        wanted@ == key@,
                        self.member(key@) == member_from(entries@, key@, i as int),
                    decreases entries@.len() - i,
                {
                    if entries[i].0 == wanted {
                        return Some(&entries[i].1);
                    }
                    i = i + 1;
                }
                None
            },
            _ => None,
        }
    }

    /// The elements of an array.
    pub fn as_array(&self) -> (items: Option<&Vec<Json>>)
        ensures
            match items {
                Some(items) => self.elements() == Some(items@),
                None => self.elements() is None,
            },
    {
        match self {
            Json::Array(items) => Some(items),
            _ => None,
        }
    }

    /// The text of a string.
    pub fn as_str(&self) -> (text: Option<&str>)
        ensures
            match text {
                Some(text) => self.text() == Some(text@),
                None => self.text() is None,
            },
    {
        match self {
            Json::Text(text) => Some(text.as_str()),
            _ => None,
        }
    }
}

/// The name of the network, if the network is the one in use and its name
/// is a string.
pub open spec fn current_network_name(network: Json) -> Option<Seq<char>> {
    match network.member(PROFILER_NAME_KEY@) {
        Some(name) => match name.text() {
            Some(text) => if network.member(PROFILER_CURRENT_KEY@) is Some {
                Some(text)
            } else {
                None
            },
            None => None,
        },
        None => None,
    }
}

/// The name of the first network in use among `networks`, from position
/// `from` on.
pub open spec fn first_current_network(networks: Seq<Json>, from: int) -> Option<Seq<char>>
    decreases networks.len() - from,
{
    if from < 0 || from >= networks.len() {
        None
    } else {
        match current_network_name(networks[from]) {
            Some(name) => Some(name),
            None => first_current_network(networks, from + 1),
        }
    }
}

/// The name of the network in use on the interface.
pub open spec fn interface_network(interface: Json) -> Option<Seq<char>> {
    match interface.member(PROFILER_NETWORKS_KEY@) {
        Some(networks) => match networks.elements() {
            Some(items) => first_current_network(items, 0),
            None => None,
        },
        None => None,
    }
}

/// The name of the network in use on the first interface that has one,
/// among `interfaces` from position `from` on.
pub open spec fn first_interface_network(interfaces: Seq<Json>, from: int) -> Option<Seq<char>>
    decreases interfaces.len() - from,
{
    if from < 0 || from >= interfaces.len() {
        None
    } else {
        match interface_network(interfaces[from]) {
            Some(name) => Some(name),
            None => first_interface_network(interfaces, from + 1),
        }
    }
}

/// The name of the network in use that a profiler report gives.
pub open spec fn spec_parse_system_profiler_json(json: Json) -> Option<Seq<char>> {
    match json.member(PROFILER_ROOT_KEY@) {
        Some(data) => match data.elements() {
            Some(interfaces) => first_interface_network(interfaces, 0),
            None => None,
        },
        None => None,
    }
}

fn network_name(network: &Json) -> (name: Option<String>)
    ensures
        text_of(name) == current_network_name(*network),
{
    match network.get(PROFILER_NAME_KEY) {
        Some(name) => match name.as_str() {
            Some(text) => {
                if network.get(PROFILER_CURRENT_KEY).is_some() {
                    Some(String::from_str(text))
                } else {
                    None
                }
            },
            None => None,
        },
        None => None,
    }
}

fn network_of_interface(interface: &Json) -> (name: Option<String>)
    ensures
        text_of(name) == interface_network(*interface),
{
    match interface.get(PROFILER_NETWORKS_KEY) {
        Some(networks) => match networks.as_array() {
            Some(items) => {
                let mut i: usize = 0;
                while i < items.len()
                    invariant
                        i <= items@.len(),
                        interface_network(*interface) == first_current_network(items@, i as int),
                    decreases items@.len() - i,
                {
                    let name = network_name(&items[i]);
                    if name.is_some() {
                        return name;
                    }
                    i = i + 1;
                }
                None
            },
            None => None,
        },
        None => None,
    }
}

/// Finds the name of the network in use in a report of the system
/// profiler: that of the first network, on the first interface, that is
/// marked as current and has a string for its name.
pub fn parse_system_profiler_json(json: &Json) -> (ssid: Option<String>)
    ensures
        text_of(ssid) == spec_parse_system_profiler_json(*json),
{
    match json.get(PROFILER_ROOT_KEY) {
        Some(data) => match data.as_array() {
            Some(interfaces) => {
                let mut i: usize = 0;
                while i < interfaces.len()
                    invariant
                        i <= interfaces@.len(),
                        spec_parse_system_profiler_json(*json) == first_interface_network(
                            interfaces@,
                            i as int,
                        ),
                    decreases interfaces@.len() - i,
                {
                    let name = network_of_interface(&interfaces[i]);
                    if name.is_some() {
                        return name;
                    }
                    i = i + 1;
                }
                None
            },
            None => None,
        },
        None => None,
    }
}

} // verus!
