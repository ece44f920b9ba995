//! The acquirer's state and its request handlers: creating an invoice, with
//! idempotent replay, and looking one up.

use crate::clock::{now_utc, Timestamp};
use crate::dispatch::{
    delivery_of, dispatcher_for, payload_of, settled, DispatchError, DispatcherView,
    PendingWebhook, WebhookDelivery, WebhookDispatcher,
};
use crate::ident::{fresh_id, id_text, id_to_string, is_random_id};
use crate::invoice::{
    created_invoice, representation_of, CreateInvoice, CreateInvoiceResponse,
    CreateInvoiceResponseView, CreateInvoiceView, Invoice, InvoiceView,
};
use crate::signing::signature_of;
use crate::status::InvoiceStatus;
use crate::store::{filed_by_id, Claim, IdempotencyIndex, InvoiceStore};
use vstd::pervasive::unreached;
use vstd::prelude::*;
use vstd::string::StringExecFns;

verus! {

/// The request header that carries a caller's idempotency key.
pub const IDEMPOTENCY_KEY_HEADER: &'static str = "Idempotency-Key";

/// The status code of a response that found or replayed a resource.
pub const HTTP_OK: u16 = 200;

/// The status code of a response that created a resource.
pub const HTTP_CREATED: u16 = 201;

/// The status code of a response to a lookup that found nothing.
pub const HTTP_NOT_FOUND: u16 = 404;

/// Everything the acquirer keeps between requests.
pub struct AppState {
    pub(crate) invoices: InvoiceStore,
    pub(crate) idempotency: IdempotencyIndex,
    pub(crate) webhook_secret: String,
}

/// What the acquirer's state holds.
pub struct AppStateView {
    /// The stored invoices, by identifier.
    pub invoices: Map<u128, InvoiceView>,
    /// The claimed idempotency keys, each with the invoice created under it.
    pub keys: Map<Seq<char>, u128>,
    /// The secret that webhooks are signed with.
    pub secret: Seq<char>,
}

impl AppStateView {
    /// Every record is filed under its own identifier, and every claimed key
    /// leads to a stored invoice.
    pub open spec fn wf(self) -> bool {
        &&& filed_by_id(self.invoices)
        &&& forall|k: Seq<char>| #[trigger]
            self.keys.contains_key(k) ==> self.invoices.contains_key(self.keys[k])
    }
}

impl View for AppState {
    type V = AppStateView;

    closed spec fn view(&self) -> AppStateView {
        AppStateView {
            invoices: self.invoices@,
            keys: self.idempotency@,
            secret: self.webhook_secret@,
        }
    }
}

/// The characters of an optional idempotency key.
pub open spec fn key_view(key: Option<&str>) -> Option<Seq<char>> {
    match key {
        Some(k) => Some(k@),
        None => None,
    }
}

/// Whether a request under `key` repeats an earlier one: it carries a key
/// that is already claimed.
pub open spec fn replays(s: AppStateView, key: Option<Seq<char>>) -> bool {
    key matches Some(k) && s.keys.contains_key(k)
}

/// The state after a creation request. A replay changes nothing; otherwise
/// the new invoice is stored under `id` and the key, if any, is claimed for it.
pub open spec fn after_create(
    s: AppStateView,
    key: Option<Seq<char>>,
    req: CreateInvoiceView,
    id: u128,
    now: Timestamp,
) -> AppStateView {
    if replays(s, key) {
        s
    } else {
        AppStateView {
            invoices: s.invoices.insert(id, created_invoice(req, id, now)),
            keys: match key {
                Some(k) => s.keys.insert(k, id),
                None => s.keys,
            },
            secret: s.secret,
        }
    }
}

/// What a creation request is answered with.
#[derive(Debug)]
pub struct CreateOutcome {
    /// `HTTP_CREATED` for a new invoice, `HTTP_OK` for a replay.
    pub status_code: u16,
    /// The invoice's representation.
    pub response: CreateInvoiceResponse,
    /// The task that will settle a new invoice; none for a replay.
    pub dispatcher: Option<WebhookDispatcher>,
}

/// What a creation outcome holds.
pub struct CreateOutcomeView {
    pub status_code: u16,
    pub response: CreateInvoiceResponseView,
    pub dispatcher: Option<DispatcherView>,
}

impl View for CreateOutcome {
    type V = CreateOutcomeView;

    open spec fn view(&self) -> CreateOutcomeView {
        CreateOutcomeView {
            status_code: self.status_code,
            response: self.response@,
            dispatcher: match self.dispatcher {
                Some(d) => Some(d@),
                None => None,
            },
        }
    }
}

/// The answer to a creation request. A replay returns the answer that the
/// first request under the key got: the invoice that the key was claimed for,
/// in the initial status even where it has settled since, and schedules
/// nothing. Otherwise the answer shows the new invoice and carries the one
/// task that will settle it. Either way the status shown is the initial one;
/// a lookup shows the status as it stands.
pub open spec fn create_outcome(
    s: AppStateView,
    key: Option<Seq<char>>,
    req: CreateInvoiceView,
    id: u128,
    now: Timestamp,
) -> CreateOutcomeView {
    if replays(s, key) {
        CreateOutcomeView {
            status_code: HTTP_OK,
            response: representation_of(
                s.invoices[s.keys[key->0]].with_status(InvoiceStatus::Created),
            ),
            dispatcher: None,
        }
    } else {
        CreateOutcomeView {
            status_code: HTTP_CREATED,
            response: representation_of(created_invoice(req, id, now)),
            dispatcher: Some(dispatcher_for(req, id)),
        }
    }
}

/// The state after a dispatcher has run: its invoice is settled, and the
/// claimed keys and the secret are as they were.
pub open spec fn after_emit(s: AppStateView, task: DispatcherView) -> AppStateView {
    AppStateView { invoices: settled(s.invoices, task), keys: s.keys, secret: s.secret }
}

/// The body of the answer to a lookup that found nothing.
#[derive(Debug)]
pub struct NotFound {
    /// Always `HTTP_NOT_FOUND`.
    pub status_code: u16,
    /// A fixed tag for the kind of error.
    pub error: String,
    /// A sentence that names the identifier asked for.
    pub message: String,
}

/// The message of a lookup that found nothing under `id`.
pub open spec fn not_found_message(id: u128) -> Seq<char> {
    "Invoice "@ + id_text(id) + " not found"@
}

impl AppState {
    /// A state with no invoices and no claimed keys, signing with `webhook_secret`.
    pub fn new(webhook_secret: String) -> (state: AppState)
        ensures
            state@.invoices == Map::<u128, InvoiceView>::empty(),
            state@.keys == Map::<Seq<char>, u128>::empty(),
            state@.secret == webhook_secret@,
            state@.wf(),
    {
        AppState { invoices: InvoiceStore::new(), idempotency: IdempotencyIndex::new(), webhook_secret }
    }

    /// Handles a creation request with a given identifier and creation time.
    pub fn create_invoice_with(
        &mut self,
        key: Option<&str>,
        payload: CreateInvoice,
        id: u128,
        now: Timestamp,
    ) -> (out: CreateOutcome)
        requires
            old(self)@.wf(),
        ensures
            final(self)@.wf(),
            final(self)@ == after_create(old(self)@, key_view(key), payload@, id, now),
            out@ == create_outcome(old(self)@, key_view(key), payload@, id, now),
    {
        let claim = match key {
            Some(k) => self.idempotency.get_or_claim(k, id),
            None => Claim::Claimed,
        };
        match claim {
            Claim::Existing(existing) => {
                match self.invoices.get(existing) {
                    Some(mut inv) => {
                        inv.status = InvoiceStatus::Created;
                        CreateOutcome {
                            status_code: HTTP_OK,
                            response: inv.representation(),
                            dispatcher: None,
                        }
                    },
                    None => unreached(),
                }
            },
            Claim::Claimed => {
                let invoice = Invoice::create(&payload, id, now);
                let response = invoice.representation();
                self.invoices.put(invoice);
                let dispatcher = WebhookDispatcher::schedule(&payload, id);
                CreateOutcome { status_code: HTTP_CREATED, response, dispatcher: Some(dispatcher) }
            },
        }
    }

    /// Handles a creation request: draws a random identifier, reads the
    /// clock, and creates or replays accordingly.
    pub fn create_invoice(&mut self, key: Option<&str>, payload: CreateInvoice) -> (out:
        CreateOutcome)
        requires
            old(self)@.wf(),
        ensures
            final(self)@.wf(),
            exists|id: u128, now: Timestamp|
                {
                    &&& is_random_id(id)
                    &&& now.valid()
                    &&& final(self)@ == #[trigger] after_create(
                        old(self)@,
                        key_view(key),
                        payload@,
                        id,
                        now,
                    )
                    &&& out@ == create_outcome(old(self)@, key_view(key), payload@, id, now)
                },
    {
        let id = fresh_id();
        let now = now_utc();
        self.create_invoice_with(key, payload, id, now)
    }

    /// Runs a dispatcher whose delay has passed, at time `now`: settles its
    /// invoice and builds the notification. Where the invoice is gone, gives
    /// up and changes nothing.
    pub fn emit_webhook_at(&mut self, dispatcher: WebhookDispatcher, now: Timestamp) -> (result:
        Result<PendingWebhook, DispatchError>)
        requires
            old(self)@.wf(),
        ensures
            final(self)@.wf(),
            final(self)@ == after_emit(old(self)@, dispatcher@),
            result is Ok <==> old(self)@.invoices.contains_key(dispatcher@.id),
            result matches Ok(pending) ==> {
                &&& pending@.webhook_url == dispatcher@.webhook_url
                &&& pending@.payload == payload_of(final(self)@.invoices[dispatcher@.id], now)
                &&& pending@.payload.status == dispatcher@.final_status
                &&& pending@.payload.status != InvoiceStatus::Created
            },
            result matches Err(e) ==> e == DispatchError::InvoiceNotFound(dispatcher@.id),
    {
        let result = dispatcher.emit_at(&mut self.invoices, now);
        assert forall|k: Seq<char>| #[trigger] self@.keys.contains_key(k) implies self@.invoices.contains_key(
            self@.keys[k],
        ) by {
            assert(old(self)@.keys.contains_key(k));
        }
        result
    }

    /// Runs a dispatcher whose delay has passed: reads the clock, settles
    /// the invoice and builds the notification.
    pub fn emit_webhook(&mut self, dispatcher: WebhookDispatcher) -> (result: Result<
        PendingWebhook,
        DispatchError,
    >)
        requires
            old(self)@.wf(),
        ensures
            final(self)@.wf(),
            final(self)@ == after_emit(old(self)@, dispatcher@),
            result is Ok <==> old(self)@.invoices.contains_key(dispatcher@.id),
            result matches Ok(pending) ==> {
                &&& pending@.webhook_url == dispatcher@.webhook_url
                &&& pending@.payload.emitted_at.valid()
                &&& pending@.payload == payload_of(
                    final(self)@.invoices[dispatcher@.id],
                    pending@.payload.emitted_at,
                )
                &&& pending@.payload.status == dispatcher@.final_status
                &&& pending@.payload.status != InvoiceStatus::Created
            },
            result matches Err(e) ==> e == DispatchError::InvoiceNotFound(dispatcher@.id),
    {
        let now = now_utc();
        self.emit_webhook_at(dispatcher, now)
    }

    /// Signs a serialized notification with the acquirer's secret and builds
    /// the request that delivers it.
    pub fn sign_webhook(&self, pending: PendingWebhook, body: String) -> (delivery:
        WebhookDelivery)
        ensures
            delivery@ == delivery_of(self@.secret, pending@.webhook_url, body@),
            delivery@.signature == signature_of(self@.secret, delivery@.body),
    {
        pending.sign(self.webhook_secret.as_str(), body)
    }

    /// Looks an invoice up by identifier.
    pub fn get_invoice(&self, id: u128) -> (found: Result<Invoice, NotFound>)
        ensures
            found is Ok <==> self@.invoices.contains_key(id),
            found matches Ok(inv) ==> inv@ == self@.invoices[id],
            found matches Err(e) ==> {
                &&& e.status_code == HTTP_NOT_FOUND
                &&& e.error@ == "invoice_not_found"@
                &&& e.message@ == not_found_message(id)
            },
    {
        match self.invoices.get(id) {
            Some(inv) => Ok(inv),
            None => {
                let mut message = String::from_str("Invoice ");
                let text = id_to_string(id);
                message.append(text.as_str());
                message.append(" not found");
                Err(
                    NotFound {
                        status_code: HTTP_NOT_FOUND,
                        error: String::from_str("invoice_not_found"),
                        message,
                    },
                )
            },
        }
    }
}

} // verus!
