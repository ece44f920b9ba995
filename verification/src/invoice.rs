//! Invoice records and the requests and responses that carry them.

use crate::clock::Timestamp;
use crate::ident::{id_text, id_to_string};
use crate::status::{EmitStatus, InvoiceStatus};
use vstd::prelude::*;
use vstd::string::StringExecFns;

verus! {

/// Caller-supplied JSON, carried through untouched.
#[verifier::external_type_specification]
#[verifier::external_body]
pub struct ExJsonValue(serde_json::Value);

/// `serde_json::Value` clones to an equal value.
pub assume_specification[ <serde_json::Value as Clone>::clone ](v: &serde_json::Value) -> (copy:
    serde_json::Value)
    ensures
        copy == *v,
;

/// A simulated payment request and its lifecycle status.
#[derive(Debug)]
pub struct Invoice {
    pub id: u128,
    pub amount: u64,
    pub currency: String,
    pub status: InvoiceStatus,
    pub webhook_url: String,
    pub created_at: Timestamp,
    pub metadata: serde_json::Value,
}

/// What an invoice holds.
pub struct InvoiceView {
    pub id: u128,
    pub amount: u64,
    pub currency: Seq<char>,
    pub status: InvoiceStatus,
    pub webhook_url: Seq<char>,
    pub created_at: Timestamp,
    pub metadata: serde_json::Value,
}

impl View for Invoice {
    type V = InvoiceView;

    open spec fn view(&self) -> InvoiceView {
        InvoiceView {
            id: self.id,
            amount: self.amount,
            currency: self.currency@,
            status: self.status,
            webhook_url: self.webhook_url@,
            created_at: self.created_at,
            metadata: self.metadata,
        }
    }
}

impl Clone for Invoice {
    fn clone(&self) -> (copy: Invoice)
        ensures
            copy == *self,
    {
        Invoice {
            id: self.id,
            amount: self.amount,
            currency: self.currency.clone(),
            status: self.status,
            webhook_url: self.webhook_url.clone(),
            created_at: self.created_at,
            metadata: self.metadata.clone(),
        }
    }
}

impl InvoiceView {
    /// The same invoice with another status.
    pub open spec fn with_status(self, status: InvoiceStatus) -> InvoiceView {
        InvoiceView { status, ..self }
    }

    /// Whether two records agree on everything that is fixed at creation.
    pub open spec fn same_terms(self, other: InvoiceView) -> bool {
        self.with_status(other.status) == other
    }
}

/// A request to create an invoice.
#[derive(Debug)]
pub struct CreateInvoice {
    pub amount: u64,
    pub currency: String,
    pub webhook_url: String,
    /// Milliseconds to wait before emitting the webhook.
    pub emit_after_ms: u64,
    /// Final status to emit in the webhook.
    pub emit_status: EmitStatus,
    /// Arbitrary extra fields, echoed back.
    pub metadata: serde_json::Value,
}

impl Clone for CreateInvoice {
    fn clone(&self) -> (copy: CreateInvoice)
        ensures
            copy == *self,
    {
        CreateInvoice {
            amount: self.amount,
            currency: self.currency.clone(),
            webhook_url: self.webhook_url.clone(),
            emit_after_ms: self.emit_after_ms,
            emit_status: self.emit_status,
            metadata: self.metadata.clone(),
        }
    }
}

/// What a creation request holds.
pub struct CreateInvoiceView {
    pub amount: u64,
    pub currency: Seq<char>,
    pub webhook_url: Seq<char>,
    pub emit_after_ms: u64,
    pub emit_status: EmitStatus,
    pub metadata: serde_json::Value,
}

impl View for CreateInvoice {
    type V = CreateInvoiceView;

    open spec fn view(&self) -> CreateInvoiceView {
        CreateInvoiceView {
            amount: self.amount,
            currency: self.currency@,
            webhook_url: self.webhook_url@,
            emit_after_ms: self.emit_after_ms,
            emit_status: self.emit_status,
            metadata: self.metadata,
        }
    }
}

/// The invoice that a request creates under `id` at `now`: always in the
/// initial status.
pub open spec fn created_invoice(req: CreateInvoiceView, id: u128, now: Timestamp) -> InvoiceView {
    InvoiceView {
        id,
        amount: req.amount,
        currency: req.currency,
        status: InvoiceStatus::Created,
        webhook_url: req.webhook_url,
        created_at: now,
        metadata: req.metadata,
    }
}

/// The body of a creation response.
#[derive(Debug)]
pub struct CreateInvoiceResponse {
    pub id: u128,
    pub status: InvoiceStatus,
    pub amount: u64,
    pub currency: String,
    pub created_at: Timestamp,
    pub webhook_url: String,
    pub checkout_url: String,
    pub metadata: serde_json::Value,
}

/// What a creation response holds.
pub struct CreateInvoiceResponseView {
    pub id: u128,
    pub status: InvoiceStatus,
    pub amount: u64,
    pub currency: Seq<char>,
    pub created_at: Timestamp,
    pub webhook_url: Seq<char>,
    pub checkout_url: Seq<char>,
    pub metadata: serde_json::Value,
}

impl View for CreateInvoiceResponse {
    type V = CreateInvoiceResponseView;

    open spec fn view(&self) -> CreateInvoiceResponseView {
        CreateInvoiceResponseView {
            id: self.id,
            status: self.status,
            amount: self.amount,
            currency: self.currency@,
            created_at: self.created_at,
            webhook_url: self.webhook_url@,
            checkout_url: self.checkout_url@,
            metadata: self.metadata,
        }
    }
}

/// The checkout reference of an invoice: a fixed prefix and the identifier.
pub open spec fn checkout_url_of(id: u128) -> Seq<char> {
    "https://checkout.local/invoice/"@ + id_text(id)
}

/// The representation of an invoice in a creation response.
pub open spec fn representation_of(inv: InvoiceView) -> CreateInvoiceResponseView {
    CreateInvoiceResponseView {
        id: inv.id,
        status: inv.status,
        amount: inv.amount,
        currency: inv.currency,
        created_at: inv.created_at,
        webhook_url: inv.webhook_url,
        checkout_url: checkout_url_of(inv.id),
        metadata: inv.metadata,
    }
}

/// The currency an invoice is created in when the request names none.
pub fn default_currency() -> (code: String)
    ensures
        code@ == "BRL"@,
{
    String::from_str("BRL")
}

/// The delay before the webhook when the request names none, in milliseconds.
pub fn default_emit_after_ms() -> (ms: u64)
    ensures
        ms == 5_000,
{
    5_000
}

/// Builds the checkout reference of an invoice.
pub fn checkout_url(id: u128) -> (url: String)
    ensures
        url@ == checkout_url_of(id),
{
    let mut url = String::from_str("https://checkout.local/invoice/");
    let text = id_to_string(id);
    url.append(text.as_str());
    url
}

impl Invoice {
    /// Builds the invoice that `req` asks for, under `id`, created at `now`.
    pub fn create(req: &CreateInvoice, id: u128, now: Timestamp) -> (inv: Invoice)
        ensures
            inv@ == created_invoice(req@, id, now),
    {
        Invoice {
            id,
            amount: req.amount,
            currency: req.currency.clone(),
            status: InvoiceStatus::Created,
            webhook_url: req.webhook_url.clone(),
            created_at: now,
            metadata: req.metadata.clone(),
        }
    }

    /// Builds the response body that represents this invoice.
    pub fn representation(&self) -> (resp: CreateInvoiceResponse)
        ensures
            resp@ == representation_of(self@),
    {
        CreateInvoiceResponse {
            id: self.id,
            status: self.status,
            amount: self.amount,
            currency: self.currency.clone(),
            created_at: self.created_at,
            webhook_url: self.webhook_url.clone(),
            checkout_url: checkout_url(self.id),
            metadata: self.metadata.clone(),
        }
    }
}

} // verus!
