//! What holds of the acquirer over whole runs: the status a response shows,
//! idempotent replay, and the single settlement of each invoice.

use crate::acquirer::{
    after_create, after_emit, create_outcome, not_found_message, replays, AppStateView, HTTP_OK,
};
use crate::clock::Timestamp;
use crate::dispatch::{delivery_of, dispatcher_for, DispatcherView};
use crate::ident::id_text;
use crate::invoice::{created_invoice, CreateInvoiceView, InvoiceView};
use crate::signing::signature_of;
use crate::status::{settled_status, InvoiceStatus};
use vstd::prelude::*;

verus! {

/// Every creation request is answered with the initial status, whatever
/// delay and terminal status it asks for, and whether it creates an invoice
/// or replays one, settled or not.
pub proof fn law_response_shows_initial_status(
    s: AppStateView,
    key: Option<Seq<char>>,
    req: CreateInvoiceView,
    id: u128,
    now: Timestamp,
)
    ensures
        create_outcome(s, key, req, id, now).response.status == InvoiceStatus::Created,
        !replays(s, key) ==> after_create(s, key, req, id, now).invoices[id].status
            == InvoiceStatus::Created,
{
}

/// Two creation requests under one idempotency key get the same answer,
/// whatever the second one asks for: the invoice of the first, with the
/// first's amount, in the initial status. The second stores nothing and
/// schedules no dispatcher.
pub proof fn law_same_key_same_invoice(
    s: AppStateView,
    key: Seq<char>,
    first: CreateInvoiceView,
    id1: u128,
    now1: Timestamp,
    second: CreateInvoiceView,
    id2: u128,
    now2: Timestamp,
)
    requires
        s.wf(),
    ensures
        ({
            let s1 = after_create(s, Some(key), first, id1, now1);
            let o1 = create_outcome(s, Some(key), first, id1, now1);
            let o2 = create_outcome(s1, Some(key), second, id2, now2);
            &&& o2.response == o1.response
            &&& o2.response.id == o1.response.id
            &&& o2.response.amount == o1.response.amount
            &&& o2.response.status == InvoiceStatus::Created
            &&& !replays(s, Some(key)) ==> o2.response.amount == first.amount
            &&& o2.status_code == HTTP_OK
            &&& o2.dispatcher is None
            &&& after_create(s1, Some(key), second, id2, now2) == s1
        }),
{
}

/// Whether `later` keeps all that `earlier` holds: every claimed key with its
/// invoice, and every invoice with the terms it was created with.
pub open spec fn extends(earlier: AppStateView, later: AppStateView) -> bool {
    &&& forall|k: Seq<char>| #[trigger]
        earlier.keys.contains_key(k) ==> later.keys.contains_key(k) && later.keys[k]
            == earlier.keys[k]
    &&& forall|id: u128| #[trigger]
        earlier.invoices.contains_key(id) ==> later.invoices.contains_key(id)
            && earlier.invoices[id].same_terms(later.invoices[id])
    &&& later.secret == earlier.secret
}

/// Keeping is reflexive and transitive.
pub proof fn law_extends_is_a_preorder(a: AppStateView, b: AppStateView, c: AppStateView)
    ensures
        extends(a, a),
        extends(a, b) && extends(b, c) ==> extends(a, c),
{
    if extends(a, b) && extends(b, c) {
        assert forall|k: Seq<char>| #[trigger] a.keys.contains_key(k) implies c.keys.contains_key(
            k,
        ) && c.keys[k] == a.keys[k] by {
            assert(b.keys.contains_key(k));
        }
        assert forall|id: u128| #[trigger] a.invoices.contains_key(id) implies c.invoices.contains_key(
            id,
        ) && a.invoices[id].same_terms(c.invoices[id]) by {
            assert(b.invoices.contains_key(id));
        }
    }
}

/// No request deletes an invoice, releases a key or changes what an invoice
/// was created with: a creation keeps everything, provided that a new
/// invoice gets an identifier not yet in use, and so does every dispatcher.
pub proof fn law_nothing_is_lost(
    s: AppStateView,
    key: Option<Seq<char>>,
    req: CreateInvoiceView,
    id: u128,
    now: Timestamp,
    task: DispatcherView,
)
    ensures
        replays(s, key) || !s.invoices.contains_key(id) ==> extends(
            s,
            after_create(s, key, req, id, now),
        ),
        extends(s, after_emit(s, task)),
{
}

/// Once a key is claimed, every later request under it is answered with the
/// invoice it was claimed for, on the terms that invoice was created with and
/// in the initial status, and schedules no dispatcher.
pub proof fn law_claimed_key_replays(
    earlier: AppStateView,
    later: AppStateView,
    key: Seq<char>,
    req: CreateInvoiceView,
    id: u128,
    now: Timestamp,
)
    requires
        earlier.wf(),
        later.wf(),
        extends(earlier, later),
        earlier.keys.contains_key(key),
    ensures
        ({
            let first = earlier.invoices[earlier.keys[key]];
            let out = create_outcome(later, Some(key), req, id, now);
            &&& out.response.id == earlier.keys[key]
            &&& out.response.amount == first.amount
            &&& out.response.currency == first.currency
            &&& out.response.webhook_url == first.webhook_url
            &&& out.response.created_at == first.created_at
            &&& out.response.metadata == first.metadata
            &&& out.response.status == InvoiceStatus::Created
            &&& out.status_code == HTTP_OK
            &&& out.dispatcher is None
            &&& after_create(later, Some(key), req, id, now) == later
        }),
{
    assert(later.keys.contains_key(key));
    assert(earlier.invoices.contains_key(earlier.keys[key]));
}

/// The acquirer together with the dispatchers that were scheduled and have
/// not run yet, by invoice.
pub struct Run {
    pub state: AppStateView,
    pub pending: Map<u128, DispatcherView>,
}

impl Run {
    /// A run that has seen no request.
    pub open spec fn start(secret: Seq<char>) -> Run {
        Run {
            state: AppStateView { invoices: Map::empty(), keys: Map::empty(), secret },
            pending: Map::empty(),
        }
    }

    /// The run after a creation request: a new invoice's dispatcher is
    /// pending; a replay adds none.
    pub open spec fn create(
        self,
        key: Option<Seq<char>>,
        req: CreateInvoiceView,
        id: u128,
        now: Timestamp,
    ) -> Run {
        Run {
            state: after_create(self.state, key, req, id, now),
            pending: if replays(self.state, key) {
                self.pending
            } else {
                self.pending.insert(id, dispatcher_for(req, id))
            },
        }
    }

    /// The run after the pending dispatcher of invoice `id` has run.
    pub open spec fn emit(self, id: u128) -> Run {
        Run { state: after_emit(self.state, self.pending[id]), pending: self.pending.remove(id) }
    }

    /// The state is well formed, and an invoice stands in the initial status
    /// exactly as long as its dispatcher is pending; that dispatcher is bound
    /// to it and settles into a terminal status.
    pub open spec fn consistent(self) -> bool {
        &&& self.state.wf()
        &&& forall|id: u128| #[trigger]
            self.pending.contains_key(id) ==> {
                &&& self.state.invoices.contains_key(id)
                &&& self.state.invoices[id].status == InvoiceStatus::Created
                &&& self.pending[id].id == id
                &&& self.pending[id].final_status != InvoiceStatus::Created
            }
        &&& forall|id: u128| #[trigger]
            self.state.invoices.contains_key(id) ==> (self.state.invoices[id].status
                == InvoiceStatus::Created ==> self.pending.contains_key(id))
    }
}

/// A run is consistent before any request, and every creation that gives a
/// new invoice an unused identifier, and every run of a pending dispatcher,
/// keeps it.
pub proof fn law_consistency_is_kept(
    run: Run,
    secret: Seq<char>,
    key: Option<Seq<char>>,
    req: CreateInvoiceView,
    id: u128,
    now: Timestamp,
    settling: u128,
)
    ensures
        Run::start(secret).consistent(),
        run.consistent() && (replays(run.state, key) || !run.state.invoices.contains_key(id))
            ==> run.create(key, req, id, now).consistent(),
        run.consistent() && run.pending.contains_key(settling) ==> run.emit(settling).consistent(),
{
    if run.consistent() && (replays(run.state, key) || !run.state.invoices.contains_key(id)) {
        let next = run.create(key, req, id, now);
        assert forall|k: Seq<char>| #[trigger]
            next.state.keys.contains_key(k) implies next.state.invoices.contains_key(
            next.state.keys[k],
        ) by {
            if !replays(run.state, key) && key != Some(k) {
                assert(run.state.keys.contains_key(k));
            }
        }
        assert forall|i: u128| #[trigger] next.pending.contains_key(i) implies {
            &&& next.state.invoices.contains_key(i)
            &&& next.state.invoices[i].status == InvoiceStatus::Created
            &&& next.pending[i].id == i
            &&& next.pending[i].final_status != InvoiceStatus::Created
        } by {
            if replays(run.state, key) || i != id {
                assert(run.pending.contains_key(i));
            }
        }
        assert forall|i: u128| #[trigger]
            next.state.invoices.contains_key(i) && next.state.invoices[i].status
                == InvoiceStatus::Created implies next.pending.contains_key(i) by {
            if replays(run.state, key) || i != id {
                assert(run.state.invoices.contains_key(i));
            }
        }
    }
    if run.consistent() && run.pending.contains_key(settling) {
        let next = run.emit(settling);
        assert forall|k: Seq<char>| #[trigger]
            next.state.keys.contains_key(k) implies next.state.invoices.contains_key(
            next.state.keys[k],
        ) by {
            assert(run.state.keys.contains_key(k));
        }
        assert forall|i: u128| #[trigger] next.pending.contains_key(i) implies {
            &&& next.state.invoices.contains_key(i)
            &&& next.state.invoices[i].status == InvoiceStatus::Created
            &&& next.pending[i].id == i
            &&& next.pending[i].final_status != InvoiceStatus::Created
        } by {
            assert(run.pending.contains_key(i));
        }
        assert forall|i: u128| #[trigger]
            next.state.invoices.contains_key(i) && next.state.invoices[i].status
                == InvoiceStatus::Created implies next.pending.contains_key(i) by {
            assert(run.state.invoices.contains_key(i));
        }
    }
}

/// An invoice settles when its dispatcher runs, into the terminal status
/// that its creation request asked for, and keeps the terms it was created
/// with; its dispatcher is then spent.
pub proof fn law_settles_as_requested(
    run: Run,
    key: Option<Seq<char>>,
    req: CreateInvoiceView,
    id: u128,
    now: Timestamp,
)
    requires
        run.consistent(),
        !replays(run.state, key),
        !run.state.invoices.contains_key(id),
    ensures
        ({
            let created = run.create(key, req, id, now);
            let done = created.emit(id);
            &&& created.state.invoices[id] == created_invoice(req, id, now)
            &&& created.pending.contains_key(id)
            &&& created.pending[id].delay_ms == req.emit_after_ms
            &&& done.state.invoices[id] == created_invoice(req, id, now).with_status(
                settled_status(req.emit_status),
            )
            &&& done.state.invoices[id].status != InvoiceStatus::Created
            &&& !done.pending.contains_key(id)
        }),
{
}

/// Nothing but its own dispatcher changes an invoice: a creation that gives
/// a new invoice an unused identifier, and the run of any other pending
/// dispatcher, leave the record as it was.
pub proof fn law_only_its_dispatcher_changes_an_invoice(
    run: Run,
    invoice: u128,
    key: Option<Seq<char>>,
    req: CreateInvoiceView,
    id: u128,
    now: Timestamp,
    other: u128,
)
    requires
        run.consistent(),
        run.state.invoices.contains_key(invoice),
    ensures
        replays(run.state, key) || !run.state.invoices.contains_key(id) ==> run.create(
            key,
            req,
            id,
            now,
        ).state.invoices[invoice] == run.state.invoices[invoice],
        run.pending.contains_key(other) && other != invoice ==> run.emit(
            other,
        ).state.invoices[invoice] == run.state.invoices[invoice],
{
    if run.pending.contains_key(other) && other != invoice {
        assert(run.pending[other].id == other);
    }
}

/// A settled invoice never changes again: it has no pending dispatcher, so
/// no step of a run touches it.
pub proof fn law_settled_is_final(
    run: Run,
    invoice: u128,
    key: Option<Seq<char>>,
    req: CreateInvoiceView,
    id: u128,
    now: Timestamp,
    settling: u128,
)
    requires
        run.consistent(),
        run.state.invoices.contains_key(invoice),
        run.state.invoices[invoice].status != InvoiceStatus::Created,
    ensures
        !run.pending.contains_key(invoice),
        replays(run.state, key) || !run.state.invoices.contains_key(id) ==> run.create(
            key,
            req,
            id,
            now,
        ).state.invoices[invoice] == run.state.invoices[invoice],
        run.pending.contains_key(settling) ==> run.emit(settling).state.invoices[invoice]
            == run.state.invoices[invoice],
{
    if run.pending.contains_key(settling) {
        assert(run.pending[settling].id == settling);
    }
}

/// Whoever holds the secret and recomputes the signature over the delivered
/// body gets the delivered signature.
pub proof fn law_signature_recomputes(secret: Seq<char>, url: Seq<char>, body: Seq<char>)
    ensures
        delivery_of(secret, url, body).signature == signature_of(
            secret,
            delivery_of(secret, url, body).body,
        ),
{
}

/// The message of a failed lookup spells out the identifier asked for.
pub proof fn law_not_found_names_the_id(id: u128)
    ensures
        not_found_message(id).len() == 54,
        not_found_message(id).subrange(8, 44) == id_text(id),
{
    reveal_strlit("Invoice ");
    reveal_strlit(" not found");
    assert(not_found_message(id).subrange(8, 44) =~= id_text(id));
}

} // verus!
