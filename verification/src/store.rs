//! The invoice store and the idempotency index: two concurrent maps, each
//! read and written through contracts over what it holds.

use crate::invoice::{Invoice, InvoiceView};
use crate::status::InvoiceStatus;
use dashmap::DashMap;
use vstd::prelude::*;
use vstd::string::StringExecFns;

verus! {

/// The sharded concurrent map that both collections are kept in.
#[verifier::external_type_specification]
#[verifier::external_body]
#[verifier::reject_recursive_types(K)]
#[verifier::reject_recursive_types(V)]
#[verifier::reject_recursive_types(S)]
pub struct ExDashMap<K, V, S>(DashMap<K, V, S>);

/// The invoices that a map holds, by identifier.
pub uninterp spec fn invoice_entries(map: DashMap<u128, Invoice>) -> Map<u128, InvoiceView>;

/// The identifiers that a map holds, by idempotency key.
pub uninterp spec fn key_entries(map: DashMap<String, u128>) -> Map<Seq<char>, u128>;

/// `DashMap::new` makes a map with nothing in it.
#[verifier::external_body]
fn new_invoice_map() -> (made: DashMap<u128, Invoice>)
    ensures
        invoice_entries(made).dom() == Set::<u128>::empty(),
{
    DashMap::new()
}

/// `DashMap::insert` puts the value under the key, replacing what was there,
/// and leaves every other entry as it was.
#[verifier::external_body]
fn invoice_map_insert(map: &mut DashMap<u128, Invoice>, id: u128, invoice: Invoice)
    ensures
        invoice_entries(*final(map)) == invoice_entries(*old(map)).insert(id, invoice@),
{
    map.insert(id, invoice);
}

/// `DashMap::get` finds the entry under a key, if there is one; the wrapper
/// hands out a clone of its value.
#[verifier::external_body]
fn invoice_map_get(map: &DashMap<u128, Invoice>, id: u128) -> (found: Option<Invoice>)
    ensures
        found is Some <==> invoice_entries(*map).contains_key(id),
        found matches Some(inv) ==> inv@ == invoice_entries(*map)[id],
{
    map.get(&id).map(|entry| entry.value().clone())
}

/// `DashMap::new` makes a map with nothing in it.
#[verifier::external_body]
fn new_key_map() -> (made: DashMap<String, u128>)
    ensures
        key_entries(made).dom() == Set::<Seq<char>>::empty(),
{
    DashMap::new()
}

/// `DashMap::insert` puts the value under the key, replacing what was there,
/// and leaves every other entry as it was. Keys are compared as strings, so
/// by their characters.
#[verifier::external_body]
fn key_map_insert(map: &mut DashMap<String, u128>, key: String, id: u128)
    ensures
        key_entries(*final(map)) == key_entries(*old(map)).insert(key@, id),
{
    map.insert(key, id);
}

/// `DashMap::get` finds the entry under a key, if there is one; the wrapper
/// hands out a copy of its value.
#[verifier::external_body]
fn key_map_get(map: &DashMap<String, u128>, key: &str) -> (found: Option<u128>)
    ensures
        found is Some <==> key_entries(*map).contains_key(key@),
        found matches Some(id) ==> id == key_entries(*map)[key@],
{
    map.get(key).map(|entry| *entry.value())
}

/// The store of all invoices, by identifier.
pub struct InvoiceStore {
    map: DashMap<u128, Invoice>,
}

impl View for InvoiceStore {
    type V = Map<u128, InvoiceView>;

    closed spec fn view(&self) -> Map<u128, InvoiceView> {
        invoice_entries(self.map)
    }
}

/// Every record is filed under its own identifier.
pub open spec fn filed_by_id(invoices: Map<u128, InvoiceView>) -> bool {
    forall|id: u128| #[trigger] invoices.contains_key(id) ==> invoices[id].id == id
}

impl InvoiceStore {
    /// Whether every record is filed under its own identifier.
    pub open spec fn wf(&self) -> bool {
        filed_by_id(self@)
    }

    /// An empty store.
    pub fn new() -> (store: InvoiceStore)
        ensures
            store@ == Map::<u128, InvoiceView>::empty(),
            store.wf(),
    {
        let store = InvoiceStore { map: new_invoice_map() };
        assert(store@ =~= Map::<u128, InvoiceView>::empty());
        store
    }

    /// Inserts the invoice under its identifier, replacing any record there.
    pub fn put(&mut self, invoice: Invoice)
        ensures
            final(self)@ == old(self)@.insert(invoice.id, invoice@),
            old(self).wf() ==> final(self).wf(),
    {
        let id = invoice.id;
        invoice_map_insert(&mut self.map, id, invoice);
    }

    /// A copy of the record under `id`, if there is one.
    pub fn get(&self, id: u128) -> (found: Option<Invoice>)
        ensures
            found is Some <==> self@.contains_key(id),
            found matches Some(inv) ==> inv@ == self@[id],
    {
        invoice_map_get(&self.map, id)
    }

    /// Sets the status of the record under `id` and returns the record as it
    /// then stands; does nothing where there is no such record.
    pub fn update(&mut self, id: u128, status: InvoiceStatus) -> (updated: Option<Invoice>)
        requires
            old(self).wf(),
        ensures
            final(self).wf(),
            updated is Some <==> old(self)@.contains_key(id),
            updated matches Some(inv) ==> inv@ == old(self)@[id].with_status(status),
            final(self)@ == (if old(self)@.contains_key(id) {
                old(self)@.insert(id, old(self)@[id].with_status(status))
            } else {
                old(self)@
            }),
    {
        match self.get(id) {
            Some(mut inv) => {
                inv.status = status;
                self.put(inv.clone());
                Some(inv)
            },
            None => None,
        }
    }
}

/// What a claim on an idempotency key found.
#[derive(Debug, Clone, Copy, PartialEq, Eq, Structural)]
pub enum Claim {
    /// The key was claimed before, for this invoice.
    Existing(u128),
    /// The key was free and now belongs to the offered invoice.
    Claimed,
}

/// The index from idempotency keys to the invoices created under them.
pub struct IdempotencyIndex {
    map: DashMap<String, u128>,
}

impl View for IdempotencyIndex {
    type V = Map<Seq<char>, u128>;

    closed spec fn view(&self) -> Map<Seq<char>, u128> {
        key_entries(self.map)
    }
}

impl IdempotencyIndex {
    /// An empty index.
    pub fn new() -> (index: IdempotencyIndex)
        ensures
            index@ == Map::<Seq<char>, u128>::empty(),
    {
        let index = IdempotencyIndex { map: new_key_map() };
        assert(index@ =~= Map::<Seq<char>, u128>::empty());
        index
    }

    /// The invoice that `key` was claimed for, if it was claimed.
    pub fn get(&self, key: &str) -> (found: Option<u128>)
        ensures
            found == (if self@.contains_key(key@) {
                Some(self@[key@])
            } else {
                None
            }),
    {
        key_map_get(&self.map, key)
    }

    /// Returns the invoice that `key` was claimed for; where it is free,
    /// claims it for `id`. A claimed key is never given to another invoice.
    pub fn get_or_claim(&mut self, key: &str, id: u128) -> (claim: Claim)
        ensures
            claim == (if old(self)@.contains_key(key@) {
                Claim::Existing(old(self)@[key@])
            } else {
                Claim::Claimed
            }),
            final(self)@ == (if old(self)@.contains_key(key@) {
                old(self)@
            } else {
                old(self)@.insert(key@, id)
            }),
    {
        match key_map_get(&self.map, key) {
            Some(existing) => Claim::Existing(existing),
            None => {
                key_map_insert(&mut self.map, String::from_str(key), id);
                Claim::Claimed
            },
        }
    }
}

} // verus!
