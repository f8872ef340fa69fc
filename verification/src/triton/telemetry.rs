//! Carrying trace context from an inbound HTTP request to an outbound call.
//!
//! A propagation format names the headers it travels in (for W3C trace
//! context: `traceparent` and `tracestate`). Propagating means copying the
//! values of exactly those headers from the inbound request into the metadata
//! of the outbound call. Headers outside the key set are left behind, and
//! nothing is made up when the inbound request carries no context.

use crate::triton::UpstreamCall;
use axum::http::HeaderMap;
use axum::http::HeaderValue;
use vstd::prelude::*;

verus! {

/// `http::HeaderMap`, as `axum` hands it to a handler. Opaque here: its
/// contents are known only as [`header_fields`].
#[verifier::external_type_specification]
#[verifier::external_body]
#[verifier::reject_recursive_types(T)]
pub struct ExHeaderMap<T>(HeaderMap<T>);

/// `http::HeaderValue`, the type of the values in a `HeaderMap`. Opaque here.
#[verifier::external_type_specification]
#[verifier::external_body]
pub struct ExHeaderValue(HeaderValue);

/// The text fields of a header map: each header name that the map holds
/// whose first value consists of visible ASCII characters only, with that
/// value. The map keeps its names in lower case, so the names here are in
/// lower case too.
pub uninterp spec fn header_fields(headers: HeaderMap) -> Map<Seq<char>, Seq<char>>;

/// A name with each ASCII capital replaced by its small letter.
pub open spec fn ascii_lower(name: Seq<char>) -> Seq<char> {
    name.map_values(|c: char| if 'A' <= c && c <= 'Z' { ((c as u8) + 32) as char } else { c })
}

/// Looks a header up as text: `HeaderMap::get` with a string key, then
/// `HeaderValue::to_str` on the value found.
///
/// Not proved, taken from the `http` crate: `get` folds the ASCII capitals of
/// `key` before it compares, returns the first value stored under the name and
/// `None` where there is none or where `key` is no header name; `to_str`
/// succeeds exactly on values made of visible ASCII only, and returns their
/// bytes as they are.
#[verifier::external_body]
fn header_text(headers: &HeaderMap, key: &str) -> (text: Option<String>)
    ensures
        text matches Some(value) ==> header_fields(*headers).contains_key(ascii_lower(key@))
            && value@ == header_fields(*headers)[ascii_lower(key@)],
        text is None ==> !header_fields(*headers).contains_key(ascii_lower(key@)),
{
    match headers.get(key) {
        Some(value) => match value.to_str() {
            Ok(text) => Some(text.to_string()),
            Err(_) => None,
        },
        None => None,
    }
}

/// What one key of the format yields: the key with the value found under it,
/// or nothing where the fields hold no such name.
pub open spec fn carried_entry(fields: Map<Seq<char>, Seq<char>>, key: Seq<char>) -> Option<
    (Seq<char>, Seq<char>),
> {
    if fields.contains_key(ascii_lower(key)) {
        Some((key, fields[ascii_lower(key)]))
    } else {
        None
    }
}

/// The trace context that a format with key set `keys` carries out of
/// `fields`: one entry for each key that is present, in the order of `keys`.
pub open spec fn carried(fields: Map<Seq<char>, Seq<char>>, keys: Seq<Seq<char>>) -> Seq<
    (Seq<char>, Seq<char>),
> {
    keys.filter_map(|key: Seq<char>| carried_entry(fields, key))
}

/// The trace context of one request, between the inbound headers it was taken
/// from and the outbound metadata it is written to.
#[derive(Clone, Debug, PartialEq, Eq)]
pub struct TraceCarrier {
    pub entries: Vec<(String, String)>,
}

impl View for TraceCarrier {
    type V = Seq<(Seq<char>, Seq<char>)>;

    open spec fn view(&self) -> Seq<(Seq<char>, Seq<char>)> {
        self.entries.deep_view()
    }
}

/// Takes the trace context out of the inbound headers: the value of each key
/// of the format that the headers hold, and nothing else.
pub fn extract(headers: &HeaderMap, keys: &Vec<String>) -> (carrier: TraceCarrier)
    ensures
        carrier@ == carried(header_fields(*headers), keys.deep_view()),
{
    let ghost fields = header_fields(*headers);
    let ghost all = keys.deep_view();
    let ghost pick = |key: Seq<char>| carried_entry(fields, key);
    let mut entries: Vec<(String, String)> = Vec::new();
    let mut i: usize = 0;
    while i < keys.len()
        invariant
            i <= keys.len(),
            fields == header_fields(*headers),
            all == keys.deep_view(),
            pick == |key: Seq<char>| carried_entry(fields, key),
            entries.deep_view() =~= all.take(i as int).filter_map(pick),
        decreases keys.len() - i,
    {
        let key = &keys[i];
        proof {
            all.lemma_filter_map_take_succ(pick, i as int);
        }
        match header_text(headers, key.as_str()) {
            Some(value) => entries.push((key.clone(), value)),
            None => {},
        }
        i += 1;
    }
    assert(all.take(keys.len() as int) =~= all);
    TraceCarrier { entries }
}

/// Writes a trace context into the metadata of an outbound call, after what
/// the call already carries. The message is left as it is.
pub fn inject<M>(carrier: TraceCarrier, request: &mut UpstreamCall<M>)
    ensures
        final(request).message == old(request).message,
        final(request).metadata.deep_view() == old(request).metadata.deep_view() + carrier@,
{
    let mut entries = carrier.entries;
    request.metadata.append(&mut entries);
}

/// Copies the trace context of the inbound request into the outbound call.
///
/// `keys` is the key set of the propagation format in use. For each key, in
/// order, that `headers` holds as text, the call's metadata gains the key with
/// that value. Nothing else about the call changes, and the function cannot
/// fail.
pub fn propagate_context<M>(
    request: &mut UpstreamCall<M>,
    headers: &HeaderMap,
    keys: &Vec<String>,
)
    ensures
        final(request).message == old(request).message,
        final(request).metadata.deep_view() == old(request).metadata.deep_view() + carried(
            header_fields(*headers),
            keys.deep_view(),
        ),
{
    let carrier = extract(headers, keys);
    inject(carrier, request);
}

/// Propagation never makes context up: where the inbound fields hold none of
/// the format's keys, nothing is carried, and the metadata of the outbound
/// call stays as it was.
pub proof fn lemma_no_trace_headers_no_metadata(
    fields: Map<Seq<char>, Seq<char>>,
    keys: Seq<Seq<char>>,
    metadata: Seq<(Seq<char>, Seq<char>)>,
)
    requires
        forall|i: int| 0 <= i < keys.len() ==> !fields.contains_key(ascii_lower(#[trigger] keys[i])),
    ensures
        carried(fields, keys) == Seq::<(Seq<char>, Seq<char>)>::empty(),
        metadata + carried(fields, keys) == metadata,
    decreases keys.len(),
{
    if keys.len() > 0 {
        lemma_no_trace_headers_no_metadata(fields, keys.drop_last(), metadata);
    }
}

/// Propagation keeps what is there: each key of the format that the inbound
/// fields hold is carried with the value found under it, and so stands in the
/// metadata of the outbound call, whatever that held before.
pub proof fn lemma_present_key_is_carried(
    fields: Map<Seq<char>, Seq<char>>,
    keys: Seq<Seq<char>>,
    i: int,
    metadata: Seq<(Seq<char>, Seq<char>)>,
)
    requires
        0 <= i < keys.len(),
        fields.contains_key(ascii_lower(keys[i])),
    ensures
        carried(fields, keys).contains((keys[i], fields[ascii_lower(keys[i])])),
        (metadata + carried(fields, keys)).contains((keys[i], fields[ascii_lower(keys[i])])),
    decreases keys.len(),
{
    let entry = (keys[i], fields[ascii_lower(keys[i])]);
    let rest = keys.drop_last();
    let front = carried(fields, rest);
    if i == keys.len() - 1 {
        assert((front + seq![entry])[front.len() as int] == entry);
    } else {
        lemma_present_key_is_carried(fields, rest, i, metadata);
        let at = choose|at: int| 0 <= at < front.len() && front[at] == entry;
        match carried_entry(fields, keys.last()) {
            Some(last) => {
                assert((front + seq![last])[at] == entry);
            },
            None => {},
        }
    }
    let all = carried(fields, keys);
    let at = choose|at: int| 0 <= at < all.len() && all[at] == entry;
    assert((metadata + all)[metadata.len() + at] == entry);
}

/// Propagation drops what the format does not name: every entry carried has
/// one of the format's keys, and the value that the inbound fields hold for
/// it.
pub proof fn lemma_carried_comes_from_keys(
    fields: Map<Seq<char>, Seq<char>>,
    keys: Seq<Seq<char>>,
    entry: (Seq<char>, Seq<char>),
)
    requires
        carried(fields, keys).contains(entry),
    ensures
        keys.contains(entry.0),
        fields.contains_key(ascii_lower(entry.0)),
        entry.1 == fields[ascii_lower(entry.0)],
{
    keys.lemma_filter_map_contains(|key: Seq<char>| carried_entry(fields, key), entry);
}

/// Header names ignore case: a key finds the same field however its letters
/// are cased.
pub proof fn lemma_lookup_ignores_case(fields: Map<Seq<char>, Seq<char>>, key: Seq<char>)
    ensures
        ascii_lower(ascii_lower(key)) == ascii_lower(key),
        carried_entry(fields, key) is Some <==> carried_entry(fields, ascii_lower(key)) is Some,
        carried_entry(fields, key) matches Some(entry) ==> carried_entry(
            fields,
            ascii_lower(key),
        ) == Some((ascii_lower(key), entry.1)),
{
}

} // verus!
