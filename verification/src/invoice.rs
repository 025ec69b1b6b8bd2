//! Issuing and voiding invoices.
use vstd::prelude::*;

use crate::date::Date;
use crate::error::AppError;
use crate::folio::{Folio, FolioStatus};
use crate::money::{amount_is_positive, is_positive, Money};
use crate::settlement::{FundsApplication, Receivable, ReceivableStatus, SettlementTransitionType};
use crate::text::{is_blank, is_blank_str};

verus! {

/// Where an invoice stands.
#[derive(Clone, Copy, Debug, PartialEq, Eq, Structural)]
pub enum InvoiceStatus {
    Issued,
    Voided,
}

/// An invoice issued for a closed folio.
#[derive(Clone, Debug)]
pub struct Invoice {
    pub id: u128,
    pub folio_id: u128,
    pub billing_account_id: u128,
    pub invoice_number: String,
    pub issued_amount: Money,
    pub due_date: Date,
    pub status: InvoiceStatus,
}

/// A newly issued invoice, its receivable, and the settlement transitions to record (each with
/// the issued amount).
#[derive(Clone, Debug)]
pub struct IssuedInvoice {
    pub invoice: Invoice,
    pub receivable: Receivable,
    pub transitions: Vec<SettlementTransitionType>,
}

/// The facts looked up for issuing an invoice.
#[derive(Clone, Copy, Debug)]
pub struct InvoiceIssueContext {
    /// The folio to invoice, if found.
    pub folio: Option<Folio>,
    /// Whether the billing account assigned to the folio exists.
    pub billing_account_found: bool,
    /// Whether the folio already has an invoice.
    pub folio_already_invoiced: bool,
    /// Whether the invoice number is already used.
    pub invoice_number_taken: bool,
}

/// The refusal of issuing an invoice, in the order the service checks; `None` where it goes.
pub open spec fn issue_refusal(
    ctx: InvoiceIssueContext,
    invoice_number: Seq<char>,
    issued_amount: Money,
) -> Option<AppError> {
    if ctx.folio is None {
        Some(AppError::FolioNotFound)
    } else if ctx.folio->0.status != FolioStatus::Closed {
        Some(AppError::InvoiceRequiresClosedFolio)
    } else if ctx.folio->0.billing_account_id is None {
        Some(AppError::BillingAccountNotAssigned)
    } else if !ctx.billing_account_found {
        Some(AppError::BillingAccountNotFound)
    } else if is_blank(invoice_number) {
        Some(AppError::InvoiceNumberEmpty)
    } else if !is_positive(issued_amount) {
        Some(AppError::IssuedAmountNotPositive)
    } else if ctx.folio_already_invoiced {
        Some(AppError::InvoiceAlreadyExistsForFolio)
    } else if ctx.invoice_number_taken {
        Some(AppError::InvoiceNumberExists)
    } else {
        None
    }
}

/// Issuing an invoice for a closed folio with an assigned billing account.  The invoice is
/// issued to that account for the given amount, and a receivable for the whole amount is opened.
pub fn issue_invoice(
    ctx: InvoiceIssueContext,
    invoice_number: String,
    issued_amount: Money,
    due_date: Date,
    invoice_id: u128,
    receivable_id: u128,
) -> (r: Result<IssuedInvoice, AppError>)
    ensures
        match issue_refusal(ctx, invoice_number@, issued_amount) {
            Some(e) => r == Err::<IssuedInvoice, AppError>(e),
            None => r matches Ok(issued) && {
                &&& issued.invoice.id == invoice_id
                &&& issued.invoice.folio_id == ctx.folio->0.id
                &&& issued.invoice.billing_account_id == ctx.folio->0.billing_account_id->0
                &&& issued.invoice.invoice_number@ == invoice_number@
                &&& issued.invoice.issued_amount == issued_amount
                &&& issued.invoice.due_date == due_date
                &&& issued.invoice.status == InvoiceStatus::Issued
                &&& issued.receivable.id == receivable_id
                &&& issued.receivable.invoice_id == invoice_id
                &&& issued.receivable.status == ReceivableStatus::Open
                &&& issued.receivable.outstanding_amount == issued_amount
                &&& issued.transitions@ == seq![
                    SettlementTransitionType::InvoiceIssued,
                    SettlementTransitionType::ReceivableOpened,
                ]
            },
        },
{
    let folio = match ctx.folio {
        Some(f) => f,
        None => {
            return Err(AppError::FolioNotFound);
        },
    };
    if folio.status != FolioStatus::Closed {
        return Err(AppError::InvoiceRequiresClosedFolio);
    }
    let billing_account_id = match folio.billing_account_id {
        Some(id) => id,
        None => {
            return Err(AppError::BillingAccountNotAssigned);
        },
    };
    if !ctx.billing_account_found {
        return Err(AppError::BillingAccountNotFound);
    }
    if is_blank_str(invoice_number.as_str()) {
        return Err(AppError::InvoiceNumberEmpty);
    }
    if !amount_is_positive(issued_amount) {
        return Err(AppError::IssuedAmountNotPositive);
    }
    if ctx.folio_already_invoiced {
        return Err(AppError::InvoiceAlreadyExistsForFolio);
    }
    if ctx.invoice_number_taken {
        return Err(AppError::InvoiceNumberExists);
    }
    let mut transitions: Vec<SettlementTransitionType> = Vec::new();
    transitions.push(SettlementTransitionType::InvoiceIssued);
    transitions.push(SettlementTransitionType::ReceivableOpened);
    Ok(
        IssuedInvoice {
            invoice: Invoice {
                id: invoice_id,
                folio_id: folio.id,
                billing_account_id,
                invoice_number,
                issued_amount,
                due_date,
                status: InvoiceStatus::Issued,
            },
            receivable: Receivable {
                id: receivable_id,
                invoice_id,
                status: ReceivableStatus::Open,
                outstanding_amount: issued_amount,
            },
            transitions,
        },
    )
}

/// An invoice voided together with its receivable, and the transitions to record (each with
/// the issued amount).
#[derive(Clone, Debug)]
pub struct VoidedInvoice {
    pub invoice: Invoice,
    pub receivable: Receivable,
    pub transitions: Vec<SettlementTransitionType>,
}

/// The refusal of voiding an invoice, in the order the service checks; `None` where it goes.
pub open spec fn void_refusal(
    invoice: Option<Invoice>,
    receivable: Option<Receivable>,
    allocations: Seq<FundsApplication>,
) -> Option<AppError> {
    if invoice is None {
        Some(AppError::InvoiceNotFound)
    } else if invoice->0.status != InvoiceStatus::Issued {
        Some(AppError::OnlyIssuedInvoicesVoidable)
    } else if receivable is None {
        Some(AppError::ReceivableNotFound)
    } else if receivable->0.status != ReceivableStatus::Open && receivable->0.status
        != ReceivableStatus::Disputed {
        Some(AppError::ReceivableCannotBeVoided)
    } else if exists|i: int| 0 <= i < allocations.len() && !(#[trigger] allocations[i]).reversed {
        Some(AppError::InvoiceHasActiveAllocations)
    } else {
        None
    }
}

/// An invoice just issued can be voided as long as nothing has been applied to it: its
/// receivable is open, and an invoice with no allocation in force is not refused.
pub proof fn lemma_issued_invoice_is_voidable(issued: IssuedInvoice, allocations: Seq<FundsApplication>)
    requires
        issued.invoice.status == InvoiceStatus::Issued,
        issued.receivable.status == ReceivableStatus::Open,
        forall|i: int| 0 <= i < allocations.len() ==> (#[trigger] allocations[i]).reversed,
    ensures
        void_refusal(Some(issued.invoice), Some(issued.receivable), allocations) is None,
{
}

/// Voiding an issued invoice whose receivable is open or disputed and has no allocation that
/// is still in force; invoice and receivable both become voided.
pub fn void_invoice(
    invoice: Option<Invoice>,
    receivable: Option<Receivable>,
    allocations: &Vec<FundsApplication>,
) -> (r: Result<VoidedInvoice, AppError>)
    ensures
        match void_refusal(invoice, receivable, allocations@) {
            Some(e) => r == Err::<VoidedInvoice, AppError>(e),
            None => r matches Ok(v) && {
                &&& v.invoice == Invoice { status: InvoiceStatus::Voided, ..invoice->0 }
                &&& v.receivable == Receivable {
                    status: ReceivableStatus::Voided,
                    ..receivable->0
                }
                &&& v.transitions@ == seq![
                    SettlementTransitionType::InvoiceVoided,
                    SettlementTransitionType::ReceivableVoided,
                ]
            },
        },
{
    let inv = match invoice {
        Some(inv) => inv,
        None => {
            return Err(AppError::InvoiceNotFound);
        },
    };
    if inv.status != InvoiceStatus::Issued {
        return Err(AppError::OnlyIssuedInvoicesVoidable);
    }
    let rec = match receivable {
        Some(rec) => rec,
        None => {
            return Err(AppError::ReceivableNotFound);
        },
    };
    if rec.status != ReceivableStatus::Open && rec.status != ReceivableStatus::Disputed {
        return Err(AppError::ReceivableCannotBeVoided);
    }
    let mut i: usize = 0;
    while i < allocations.len()
        invariant
            i <= allocations@.len(),
            invoice == Some(inv),
            receivable == Some(rec),
            inv.status == InvoiceStatus::Issued,
            rec.status == ReceivableStatus::Open || rec.status == ReceivableStatus::Disputed,
            forall|j: int| 0 <= j < i ==> (#[trigger] allocations@[j]).reversed,
        decreases allocations@.len() - i,
    {
        if !allocations[i].reversed {
            assert(!allocations@[i as int].reversed);
            return Err(AppError::InvoiceHasActiveAllocations);
        }
        i = i + 1;
    }
    let mut transitions: Vec<SettlementTransitionType> = Vec::new();
    transitions.push(SettlementTransitionType::InvoiceVoided);
    transitions.push(SettlementTransitionType::ReceivableVoided);
    Ok(
        VoidedInvoice {
            invoice: Invoice { status: InvoiceStatus::Voided, ..inv },
            receivable: Receivable { status: ReceivableStatus::Voided, ..rec },
            transitions,
        },
    )
}

/// Only an open or disputed receivable is voided with its invoice: for an issued invoice,
/// voiding is refused with `ReceivableCannotBeVoided` where the receivable is settled,
/// written off or already voided, and goes ahead only where it is open or disputed.
pub proof fn lemma_only_open_or_disputed_receivables_are_voided(
    invoice: Invoice,
    receivable: Receivable,
    allocations: Seq<FundsApplication>,
)
    requires
        invoice.status == InvoiceStatus::Issued,
    ensures
        void_refusal(Some(invoice), Some(receivable), allocations) is None ==> (receivable.status
            == ReceivableStatus::Open || receivable.status == ReceivableStatus::Disputed),
        receivable.status == ReceivableStatus::Settled || receivable.status
            == ReceivableStatus::WrittenOff || receivable.status == ReceivableStatus::Voided
            ==> void_refusal(Some(invoice), Some(receivable), allocations) == Some(
            AppError::ReceivableCannotBeVoided,
        ),
{
}

} // verus!
