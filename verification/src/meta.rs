//! Request metadata: what a caller may not set, and what is kept for later requests.

use vstd::prelude::*;
use vstd::string::*;

use crate::duplicate::Duplicate;
use crate::json::{Json, JsonMap};
use crate::string_map::StringMap;

verus! {

/// Metadata key of the protocol version, owned by the client.
pub const PROTOCOL_VERSION_META_KEY: &'static str = "io.modelcontextprotocol/protocolVersion";

/// Metadata key of the client's identity, owned by the client.
pub const CLIENT_INFO_META_KEY: &'static str = "io.modelcontextprotocol/clientInfo";

/// Metadata key of the client's capabilities, owned by the client.
pub const CLIENT_CAPABILITIES_META_KEY: &'static str = "io.modelcontextprotocol/clientCapabilities";

/// Metadata key of the W3C trace parent.
pub const TRACEPARENT_META_KEY: &'static str = "traceparent";

/// Metadata key of the W3C trace state.
pub const TRACESTATE_META_KEY: &'static str = "tracestate";

/// The keys that belong to the client and that no call may set.
pub open spec fn reserved_keys() -> Set<Seq<char>> {
    set![PROTOCOL_VERSION_META_KEY@, CLIENT_INFO_META_KEY@, CLIENT_CAPABILITIES_META_KEY@]
}

/// The keys that are kept for the later requests of a deferred execution.
pub open spec fn trace_keys() -> Set<Seq<char>> {
    set![TRACEPARENT_META_KEY@, TRACESTATE_META_KEY@]
}

/// Metadata without the keys that belong to the client.
pub open spec fn without_reserved(meta: Map<Seq<char>, Seq<char>>) -> Map<Seq<char>, Seq<char>> {
    meta.remove_keys(reserved_keys())
}

/// The trace entries of metadata.
pub open spec fn trace_of(meta: Option<Map<Seq<char>, Seq<char>>>) -> Map<Seq<char>, Seq<char>> {
    match meta {
        Some(meta) => meta.restrict(trace_keys()),
        None => Map::empty(),
    }
}

/// The metadata that trace entries make; none where there are no entries.
pub open spec fn meta_of_trace(trace: Map<Seq<char>, Seq<char>>) -> Option<
    Map<Seq<char>, Seq<char>>,
> {
    if trace == Map::<Seq<char>, Seq<char>>::empty() {
        None
    } else {
        Some(trace)
    }
}

/// Takes the keys out of a call's metadata that belong to the client.
pub fn without_reserved_client_meta(meta: Option<JsonMap>) -> (sanitized: Option<JsonMap>)
    ensures
        sanitized.deep_view() == match meta.deep_view() {
            Some(entries) => Some(without_reserved(entries)),
            None => None,
        },
{
    match meta {
        Some(meta) => {
            let mut sanitized = meta;
            let _ = sanitized.take(PROTOCOL_VERSION_META_KEY);
            let _ = sanitized.take(CLIENT_INFO_META_KEY);
            let _ = sanitized.take(CLIENT_CAPABILITIES_META_KEY);
            assert(sanitized.deep_view() =~= without_reserved(meta.deep_view()));
            Some(sanitized)
        },
        None => None,
    }
}

/// Copies the entry of `key`, if there is one.
fn retain(from: &JsonMap, key: &str, into: &mut JsonMap)
    ensures
        final(into).deep_view() == if from.deep_view().contains_key(key@) {
            old(into).deep_view().insert(key@, from.deep_view()[key@])
        } else {
            old(into).deep_view()
        },
{
    match from.lookup(key) {
        Some(value) => {
            let value: Json = value.duplicate();
            into.put(key.to_owned(), value);
        },
        None => {},
    }
}

/// The trace entries of a call's metadata.
pub fn retained_trace_meta(meta: Option<&JsonMap>) -> (trace: JsonMap)
    ensures
        trace.deep_view() == trace_of(
            match meta {
                Some(entries) => Some(entries.deep_view()),
                None => None,
            },
        ),
{
    let mut trace: JsonMap = StringMap::new();
    assert(trace.deep_view() =~= Map::<Seq<char>, Seq<char>>::empty());
    match meta {
        Some(meta) => {
            retain(meta, TRACEPARENT_META_KEY, &mut trace);
            retain(meta, TRACESTATE_META_KEY, &mut trace);
            assert(trace.deep_view() =~= trace_of(Some(meta.deep_view())));
        },
        None => {},
    }
    trace
}

/// The metadata of a later request, made of the kept trace entries.
pub fn request_meta_from_trace(trace_meta: &JsonMap) -> (meta: Option<JsonMap>)
    ensures
        meta.deep_view() == meta_of_trace(trace_meta.deep_view()),
{
    if trace_meta.is_empty() {
        assert(trace_meta.deep_view() =~= Map::<Seq<char>, Seq<char>>::empty());
        None
    } else {
        proof {
            if trace_meta.deep_view() == Map::<Seq<char>, Seq<char>>::empty() {
                assert forall|key: Seq<char>| !trace_meta@.contains_key(key) by {
                    assert(trace_meta.deep_view().contains_key(key) == trace_meta@.contains_key(key));
                }
                assert(trace_meta@ =~= Map::<Seq<char>, Json>::empty());
            }
        }
        Some(trace_meta.duplicate())
    }
}

/// A call's metadata can never replace what belongs to the client, and every other entry stays.
pub proof fn reserved_meta_never_survives(meta: Map<Seq<char>, Seq<char>>, key: Seq<char>)
    ensures
        reserved_keys().contains(key) ==> !without_reserved(meta).contains_key(key),
        !reserved_keys().contains(key) ==> without_reserved(meta).contains_key(key)
            == meta.contains_key(key),
        without_reserved(meta).contains_key(key) ==> without_reserved(meta)[key] == meta[key],
{
}

/// Later requests of a deferred execution carry the trace entries of the original call unchanged,
/// and nothing else of its metadata.
pub proof fn trace_survives_and_nothing_else(meta: Map<Seq<char>, Seq<char>>, key: Seq<char>)
    ensures
        ({
            let later = meta_of_trace(trace_of(Some(meta)));
            let carried = later is Some && later->0.contains_key(key);
            &&& carried <==> trace_keys().contains(key) && meta.contains_key(key)
            &&& carried ==> later->0[key] == meta[key]
        }),
{
    let trace = trace_of(Some(meta));
    if trace_keys().contains(key) && meta.contains_key(key) {
        assert(trace.contains_key(key));
    }
}

/// Three keys belong to the client, and two carry the trace; no other key is special.
pub proof fn special_keys_are_these(key: Seq<char>)
    ensures
        reserved_keys().contains(key) <==> key == "io.modelcontextprotocol/protocolVersion"@ || key
            == "io.modelcontextprotocol/clientInfo"@ || key
            == "io.modelcontextprotocol/clientCapabilities"@,
        trace_keys().contains(key) <==> key == "traceparent"@ || key == "tracestate"@,
{
}

/// A call without metadata has no trace, and a request without a trace carries no metadata.
pub proof fn no_trace_makes_no_metadata(trace: Map<Seq<char>, Seq<char>>, key: Seq<char>)
    ensures
        trace_of(None) == Map::<Seq<char>, Seq<char>>::empty(),
        trace.contains_key(key) ==> meta_of_trace(trace) == Some(trace),
        meta_of_trace(trace) is None <==> trace == Map::<Seq<char>, Seq<char>>::empty(),
        meta_of_trace(trace) matches Some(meta) ==> meta == trace,
{
}

} // verus!
