//! The fixed settings the service runs with: where it listens, where its
//! spans go, and what it tells the collector about itself.

use vstd::prelude::*;
use opentelemetry::KeyValue;
use opentelemetry_sdk::Resource;

verus! {

/// The address the service listens on: every interface.
pub const LISTEN_OCTETS: [u8; 4] = [0, 0, 0, 0];

/// The port the service listens on.
pub const LISTEN_PORT: u16 = 3000;

/// Where the collector takes spans.
pub const COLLECTOR_ENDPOINT: &'static str = "http://alloy:4317";

/// What is logged: everything from `info` up, and this service from `debug` up.
pub const LOG_FILTER: &'static str = "info,atlas_rust_api=debug";

/// The attribute that names the service.
pub const SERVICE_NAME_KEY: &'static str = "service.name";

/// The service's name.
pub const SERVICE_NAME: &'static str = "atlas-rust-api";

/// The attribute that names the environment.
pub const ENVIRONMENT_KEY: &'static str = "env";

/// The environment the service runs in.
pub const ENVIRONMENT: &'static str = "atlas-local";

/// `opentelemetry_sdk::Resource`, carried as it is: nothing inside it is read
/// here.
#[verifier::external_type_specification]
#[verifier::external_body]
pub struct ExResource(opentelemetry_sdk::Resource);

/// The attributes that a resource holds, each key with its value, where the
/// value is a text.
pub uninterp spec fn resource_attributes(resource: Resource) -> Map<Seq<char>, Seq<char>>;

/// The attributes that a list of pairs gives: each key with the value of the
/// pair that has it (of the last such pair, if there are several).
pub open spec fn attributes_of(pairs: Seq<(&'static str, &'static str)>) -> Map<
    Seq<char>,
    Seq<char>,
>
    decreases pairs.len(),
{
    if pairs.len() == 0 {
        Map::empty()
    } else {
        attributes_of(pairs.drop_last()).insert(pairs.last().0@, pairs.last().1@)
    }
}

/// Whether no two of the pairs have the same key.
pub open spec fn keys_differ(pairs: Seq<(&'static str, &'static str)>) -> bool {
    forall|i: int, j: int| 0 <= i < j < pairs.len() ==> pairs[i].0@ != pairs[j].0@
}

/// `opentelemetry_sdk::Resource::new` on the pairs, each made a key-value by
/// `opentelemetry::KeyValue::new`. The resource starts empty and takes every
/// pair, its key and its value as the texts they are: it holds what
/// `attributes_of` gives, and nothing else is claimed of it. It is asked only
/// for pairs whose keys differ, so that nothing rests on which of two values
/// under one key would stay.
#[verifier::external_body]
fn resource_from_pairs(pairs: Vec<(&'static str, &'static str)>) -> (resource: Resource)
    requires
        keys_differ(pairs@),
    ensures
        resource_attributes(resource) == attributes_of(pairs@),
{
    Resource::new(pairs.into_iter().map(|pair| KeyValue::new(pair.0, pair.1)))
}

/// What the service tells the collector about itself.
pub open spec fn service_attributes() -> Map<Seq<char>, Seq<char>> {
    map![SERVICE_NAME_KEY@ => SERVICE_NAME@, ENVIRONMENT_KEY@ => ENVIRONMENT@]
}

/// The resource that every span of the service is tagged with: the service's
/// name and its environment, and no other attribute.
pub fn service_resource() -> (resource: Resource)
    ensures
        resource_attributes(resource) == service_attributes(),
{
    let mut pairs: Vec<(&'static str, &'static str)> = Vec::new();
    pairs.push((SERVICE_NAME_KEY, SERVICE_NAME));
    pairs.push((ENVIRONMENT_KEY, ENVIRONMENT));
    proof {
        let both = pairs@;
        let first = both.drop_last();
        assert(first.len() == 1 && first.last() == both[0]);
        assert(first.drop_last().len() == 0);
        reveal_with_fuel(attributes_of, 3);
        assert(attributes_of(both) == service_attributes());
        assert(keys_differ(both)) by {
            reveal_strlit("service.name");
            reveal_strlit("env");
            assert(SERVICE_NAME_KEY@.len() != ENVIRONMENT_KEY@.len());
        }
    }
    resource_from_pairs(pairs)
}

} // verus!
