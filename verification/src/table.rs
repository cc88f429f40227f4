//! The table of in-flight requests: for each request identity that awaits
//! its result, who asked, when, and where the result has to go.
//!
//! The table is a `dashmap::DashMap`. Verus sees none of its code; what the
//! three functions at the end of this file state about it is taken on trust
//! from its source.

use crate::error::TonClientError;
use crate::types::TonResult;
use dashmap::DashMap;
use tokio::sync::oneshot;
use vstd::prelude::*;

verus! {

/// What a request resolves to: the engine's answer, or why there is none.
pub type InvokeResult = Result<TonResult, TonClientError>;

/// The bookkeeping for one request in flight.
#[derive(Debug)]
pub struct RequestData {
    /// The name of the call, for diagnostics.
    pub method: &'static str,
    /// When the request was handed to the engine.
    pub send_time: u64,
    /// The sending half of the channel that the caller waits on.
    pub sender: oneshot::Sender<InvokeResult>,
}

/// `dashmap::DashMap`: a hash map whose methods all take `&self`.
#[verifier::external_type_specification]
#[verifier::external_body]
#[verifier::reject_recursive_types(K)]
#[verifier::reject_recursive_types(V)]
#[verifier::reject_recursive_types(S)]
pub struct ExDashMap<K, V, S>(DashMap<K, V, S>);

/// The entries that a map of requests holds.
pub uninterp spec fn entries(map: DashMap<u32, RequestData>) -> Map<u32, RequestData>;

/// The requests in flight, by request identity.
///
/// The table has one owner: every change goes through `&mut self`, so what
/// a contract says of the table before and after a call is all that happened
/// to it in between.
#[derive(Debug)]
pub struct RequestTable {
    map: DashMap<u32, RequestData>,
}

impl View for RequestTable {
    type V = Map<u32, RequestData>;

    closed spec fn view(&self) -> Map<u32, RequestData> {
        entries(self.map)
    }
}

/// What a lookup-and-remove of `id` gives on a table that holds `pending`.
pub open spec fn taken(pending: Map<u32, RequestData>, id: u32) -> Option<RequestData> {
    if pending.contains_key(id) {
        Some(pending[id])
    } else {
        None
    }
}

impl RequestTable {
    /// A table with no request in flight.
    pub fn new() -> (table: RequestTable)
        ensures
            table@ == Map::<u32, RequestData>::empty(),
    {
        RequestTable { map: map_new() }
    }

    /// Registers `data` under `id` and returns what was registered under
    /// `id` before, if anything was.
    pub fn insert(&mut self, id: u32, data: RequestData) -> (previous: Option<RequestData>)
        ensures
            final(self)@ == old(self)@.insert(id, data),
            previous == taken(old(self)@, id),
    {
        map_insert(&mut self.map, id, data)
    }

    /// Takes the request registered under `id` out of the table. A second
    /// removal of the same identity finds nothing and changes nothing.
    pub fn remove(&mut self, id: u32) -> (found: Option<RequestData>)
        ensures
            final(self)@ == old(self)@.remove(id),
            found == taken(old(self)@, id),
    {
        map_remove(&mut self.map, id)
    }
}

/// Removing an identity that is not in flight leaves the table as it was.
pub proof fn lemma_remove_absent(pending: Map<u32, RequestData>, id: u32)
    requires
        !pending.contains_key(id),
    ensures
        pending.remove(id) == pending,
{
}

/// Removing the same identity twice is removing it once.
pub proof fn lemma_remove_twice(pending: Map<u32, RequestData>, id: u32)
    ensures
        pending.remove(id).remove(id) == pending.remove(id),
        taken(pending.remove(id), id) is None,
{
}

/// Calls `DashMap::new`: the new map holds no entry.
#[verifier::external_body]
fn map_new() -> (fresh: DashMap<u32, RequestData>)
    ensures
        entries(fresh) =~= Map::empty(),
{
    DashMap::new()
}

/// Calls `DashMap::insert` on a map that nobody else can reach meanwhile:
/// afterwards `id` maps to `data`, every other entry is as before, and the
/// value that `id` mapped to before, if any, is returned.
#[verifier::external_body]
fn map_insert(map: &mut DashMap<u32, RequestData>, id: u32, data: RequestData) -> (previous: Option<
    RequestData,
>)
    ensures
        entries(*final(map)) == entries(*old(map)).insert(id, data),
        previous == taken(entries(*old(map)), id),
{
    map.insert(id, data)
}

/// Calls `DashMap::remove` on a map that nobody else can reach meanwhile:
/// afterwards `id` has no entry, every other entry is as before, and the
/// value that `id` mapped to before, if any, is returned.
#[verifier::external_body]
fn map_remove(map: &mut DashMap<u32, RequestData>, id: u32) -> (found: Option<RequestData>)
    ensures
        entries(*final(map)) == entries(*old(map)).remove(id),
        found == taken(entries(*old(map)), id),
{
    match map.remove(&id) {
        Some((_, data)) => Some(data),
        None => None,
    }
}

} // verus!
