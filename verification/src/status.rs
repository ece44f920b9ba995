//! Invoice statuses and the settlement a caller may ask for.

use vstd::prelude::*;

verus! {

/// The lifecycle status of an invoice.
#[derive(Debug, Clone, Copy, PartialEq, Eq, Structural)]
pub enum InvoiceStatus {
    Created,
    Paid,
    Failed,
    Canceled,
    Expired,
    Chargeback,
}

/// The terminal status a caller asks an invoice to settle into.
#[derive(Debug, Clone, Copy, PartialEq, Eq, Structural)]
pub enum EmitStatus {
    Paid,
    Failed,
    Canceled,
    Expired,
    Chargeback,
}

/// The invoice status that a requested settlement stands for.
pub open spec fn settled_status(s: EmitStatus) -> InvoiceStatus {
    match s {
        EmitStatus::Paid => InvoiceStatus::Paid,
        EmitStatus::Failed => InvoiceStatus::Failed,
        EmitStatus::Canceled => InvoiceStatus::Canceled,
        EmitStatus::Expired => InvoiceStatus::Expired,
        EmitStatus::Chargeback => InvoiceStatus::Chargeback,
    }
}

/// Maps a requested settlement to the invoice status it produces.
pub fn map_emit_status(s: &EmitStatus) -> (status: InvoiceStatus)
    ensures
        status == settled_status(*s),
        status != InvoiceStatus::Created,
{
    match s {
        EmitStatus::Paid => InvoiceStatus::Paid,
        EmitStatus::Failed => InvoiceStatus::Failed,
        EmitStatus::Canceled => InvoiceStatus::Canceled,
        EmitStatus::Expired => InvoiceStatus::Expired,
        EmitStatus::Chargeback => InvoiceStatus::Chargeback,
    }
}

} // verus!
