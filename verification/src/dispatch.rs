//! The deferred task that settles an invoice and prepares its signed webhook.

use crate::clock::Timestamp;
use crate::invoice::{CreateInvoice, CreateInvoiceView, InvoiceView};
use crate::signing::{hmac_hex, signature_of};
use crate::status::{map_emit_status, settled_status, InvoiceStatus};
use crate::store::InvoiceStore;
use vstd::prelude::*;
use vstd::string::StringExecFns;

verus! {

/// The one task bound to a new invoice: after its delay it settles the
/// invoice and notifies the caller's server. It cannot be copied, and
/// settling consumes it.
#[derive(Debug)]
pub struct WebhookDispatcher {
    id: u128,
    delay_ms: u64,
    final_status: InvoiceStatus,
    webhook_url: String,
}

/// What a dispatcher holds.
pub struct DispatcherView {
    /// The invoice to settle.
    pub id: u128,
    /// How long to wait before settling, in milliseconds.
    pub delay_ms: u64,
    /// The status to settle into.
    pub final_status: InvoiceStatus,
    /// Where to deliver the notification.
    pub webhook_url: Seq<char>,
}

impl View for WebhookDispatcher {
    type V = DispatcherView;

    closed spec fn view(&self) -> DispatcherView {
        DispatcherView {
            id: self.id,
            delay_ms: self.delay_ms,
            final_status: self.final_status,
            webhook_url: self.webhook_url@,
        }
    }
}

/// The dispatcher that a creation request asks for, bound to invoice `id`.
pub open spec fn dispatcher_for(req: CreateInvoiceView, id: u128) -> DispatcherView {
    DispatcherView {
        id,
        delay_ms: req.emit_after_ms,
        final_status: settled_status(req.emit_status),
        webhook_url: req.webhook_url,
    }
}

/// The notification sent when an invoice settles.
#[derive(Debug)]
pub struct WebhookPayload {
    pub event: String,
    pub id: u128,
    pub status: InvoiceStatus,
    pub amount: u64,
    pub currency: String,
    pub emitted_at: Timestamp,
    pub metadata: serde_json::Value,
}

/// What a notification holds.
pub struct WebhookPayloadView {
    pub event: Seq<char>,
    pub id: u128,
    pub status: InvoiceStatus,
    pub amount: u64,
    pub currency: Seq<char>,
    pub emitted_at: Timestamp,
    pub metadata: serde_json::Value,
}

impl View for WebhookPayload {
    type V = WebhookPayloadView;

    open spec fn view(&self) -> WebhookPayloadView {
        WebhookPayloadView {
            event: self.event@,
            id: self.id,
            status: self.status,
            amount: self.amount,
            currency: self.currency@,
            emitted_at: self.emitted_at,
            metadata: self.metadata,
        }
    }
}

impl Clone for WebhookPayload {
    fn clone(&self) -> (copy: WebhookPayload)
        ensures
            copy == *self,
    {
        WebhookPayload {
            event: self.event.clone(),
            id: self.id,
            status: self.status,
            amount: self.amount,
            currency: self.currency.clone(),
            emitted_at: self.emitted_at,
            metadata: self.metadata.clone(),
        }
    }
}

/// The notification about an invoice as it stands, emitted at `now`.
pub open spec fn payload_of(inv: InvoiceView, now: Timestamp) -> WebhookPayloadView {
    WebhookPayloadView {
        event: "invoice.updated"@,
        id: inv.id,
        status: inv.status,
        amount: inv.amount,
        currency: inv.currency,
        emitted_at: now,
        metadata: inv.metadata,
    }
}

/// A notification that waits to be serialized, signed and delivered.
#[derive(Debug)]
pub struct PendingWebhook {
    /// Where to deliver it.
    pub webhook_url: String,
    /// What to deliver.
    pub payload: WebhookPayload,
}

/// What a pending notification holds.
pub struct PendingWebhookView {
    pub webhook_url: Seq<char>,
    pub payload: WebhookPayloadView,
}

impl View for PendingWebhook {
    type V = PendingWebhookView;

    open spec fn view(&self) -> PendingWebhookView {
        PendingWebhookView { webhook_url: self.webhook_url@, payload: self.payload@ }
    }
}

/// Why a dispatcher gave up.
#[derive(Debug, Clone, Copy, PartialEq, Eq, Structural)]
pub enum DispatchError {
    /// The store holds no invoice under the dispatcher's identifier.
    InvoiceNotFound(u128),
}

/// The store after a dispatcher has run: its invoice, where there is one,
/// stands in the dispatcher's terminal status, and nothing else has changed.
pub open spec fn settled(invoices: Map<u128, InvoiceView>, task: DispatcherView) -> Map<
    u128,
    InvoiceView,
> {
    if invoices.contains_key(task.id) {
        invoices.insert(task.id, invoices[task.id].with_status(task.final_status))
    } else {
        invoices
    }
}

/// The request header that says how the body is encoded.
pub const CONTENT_TYPE_HEADER: &'static str = "Content-Type";

/// The request header that names the event.
pub const EVENT_HEADER: &'static str = "X-Event";

/// The request header that carries the signature of the body.
pub const SIGNATURE_HEADER: &'static str = "X-Signature";

/// One outbound request: a POST of `body` to `url` with these three headers.
#[derive(Debug)]
pub struct WebhookDelivery {
    /// The destination.
    pub url: String,
    /// The value of the `Content-Type` header.
    pub content_type: String,
    /// The value of the `X-Event` header.
    pub event: String,
    /// The value of the `X-Signature` header.
    pub signature: String,
    /// The request body, exactly as signed.
    pub body: String,
}

/// What an outbound request holds.
pub struct WebhookDeliveryView {
    pub url: Seq<char>,
    pub content_type: Seq<char>,
    pub event: Seq<char>,
    pub signature: Seq<char>,
    pub body: Seq<char>,
}

impl View for WebhookDelivery {
    type V = WebhookDeliveryView;

    open spec fn view(&self) -> WebhookDeliveryView {
        WebhookDeliveryView {
            url: self.url@,
            content_type: self.content_type@,
            event: self.event@,
            signature: self.signature@,
            body: self.body@,
        }
    }
}

/// The request that delivers `body` to `url`, signed with `secret`.
pub open spec fn delivery_of(secret: Seq<char>, url: Seq<char>, body: Seq<char>) -> WebhookDeliveryView {
    WebhookDeliveryView {
        url,
        content_type: "application/json"@,
        event: "invoice.updated"@,
        signature: signature_of(secret, body),
        body,
    }
}

impl WebhookDispatcher {
    /// A dispatcher never settles an invoice back into the initial status.
    #[verifier::type_invariant]
    spec fn terminal(self) -> bool {
        self.final_status != InvoiceStatus::Created
    }

    /// Binds a dispatcher to invoice `id`, with the delay, the terminal status
    /// and the destination that the request asks for.
    pub(crate) fn schedule(req: &CreateInvoice, id: u128) -> (task: WebhookDispatcher)
        ensures
            task@ == dispatcher_for(req@, id),
    {
        WebhookDispatcher {
            id,
            delay_ms: req.emit_after_ms,
            final_status: map_emit_status(&req.emit_status),
            webhook_url: req.webhook_url.clone(),
        }
    }

    /// The invoice that this dispatcher settles.
    pub fn id(&self) -> (id: u128)
        ensures
            id == self@.id,
    {
        self.id
    }

    /// How long to wait before settling, in milliseconds.
    pub fn delay_ms(&self) -> (ms: u64)
        ensures
            ms == self@.delay_ms,
    {
        self.delay_ms
    }

    /// The status that this dispatcher settles its invoice into: never the
    /// initial one.
    pub fn final_status(&self) -> (status: InvoiceStatus)
        ensures
            status == self@.final_status,
            status != InvoiceStatus::Created,
    {
        proof {
            use_type_invariant(self);
        }
        self.final_status
    }

    /// Where the notification goes.
    pub fn webhook_url(&self) -> (url: &str)
        ensures
            url@ == self@.webhook_url,
    {
        self.webhook_url.as_str()
    }

    /// Runs the dispatcher once its delay has passed, at time `now`: re-reads
    /// the invoice, writes it back in the terminal status, and builds the
    /// notification about it. Where the invoice is gone, gives up and leaves
    /// the store as it was.
    pub fn emit_at(self, store: &mut InvoiceStore, now: Timestamp) -> (result: Result<
        PendingWebhook,
        DispatchError,
    >)
        requires
            old(store).wf(),
        ensures
            final(store).wf(),
            final(store)@ == settled(old(store)@, self@),
            result is Ok <==> old(store)@.contains_key(self@.id),
            result matches Ok(pending) ==> {
                &&& pending@.webhook_url == self@.webhook_url
                &&& pending@.payload == payload_of(final(store)@[self@.id], now)
                &&& pending@.payload.status == self@.final_status
                &&& pending@.payload.status != InvoiceStatus::Created
            },
            result matches Err(e) ==> e == DispatchError::InvoiceNotFound(self@.id),
    {
        proof {
            use_type_invariant(&self);
        }
        match store.update(self.id, self.final_status) {
            Some(inv) => {
                let payload = WebhookPayload {
                    event: String::from_str("invoice.updated"),
                    id: inv.id,
                    status: inv.status,
                    amount: inv.amount,
                    currency: inv.currency,
                    emitted_at: now,
                    metadata: inv.metadata,
                };
                Ok(PendingWebhook { webhook_url: self.webhook_url, payload })
            },
            None => Err(DispatchError::InvoiceNotFound(self.id)),
        }
    }
}

impl PendingWebhook {
    /// Signs the serialized notification and builds the request that
    /// delivers it. The signature is the one that anyone holding the secret
    /// recomputes from the delivered body.
    pub fn sign(self, secret: &str, body: String) -> (delivery: WebhookDelivery)
        ensures
            delivery@ == delivery_of(secret@, self@.webhook_url, body@),
            delivery@.signature == signature_of(secret@, delivery@.body),
    {
        let signature = hmac_hex(secret, body.as_str());
        WebhookDelivery {
            url: self.webhook_url,
            content_type: String::from_str("application/json"),
            event: String::from_str("invoice.updated"),
            signature,
            body,
        }
    }
}

} // verus!
