//! Receivables and their settlement by payments and deposits.
//!
//! A receivable is opened for an issued invoice and carries an outstanding amount.  Payments
//! and deposits of the same folio are applied to it; an application lowers the outstanding
//! amount and settles the receivable when nothing is left.  Reversing an application gives the
//! amount back and reopens the receivable.
use vstd::prelude::*;

use crate::error::AppError;
use crate::money::{
    amount_is_positive, amount_is_zero, checked_add_amounts, checked_sub_amounts, common_scale,
    compare_amounts, decimal_checked_add, decimal_checked_sub, exact_difference, exact_sum,
    fits_mantissa, is_positive, lemma_at_scale_sign, lemma_compare_aligned, lemma_positive_below,
    lemma_same_value_at_scale, pow10, same_value, value_le, AmountOrder, Money,
};

verus! {

/// Where a receivable stands.
#[derive(Clone, Copy, Debug, PartialEq, Eq, Structural)]
pub enum ReceivableStatus {
    Open,
    Settled,
    Disputed,
    WrittenOff,
    Voided,
}

/// What the settlement history records about a receivable.
#[derive(Clone, Copy, Debug, PartialEq, Eq, Structural)]
pub enum SettlementTransitionType {
    InvoiceIssued,
    ReceivableOpened,
    PaymentAllocated,
    DepositApplied,
    ReceivableSettled,
    PaymentAllocationReversed,
    DepositApplicationReversed,
    ReceivableDisputed,
    InvoiceVoided,
    ReceivableVoided,
}

/// The amount still owed on an issued invoice.
#[derive(Clone, Copy, Debug)]
pub struct Receivable {
    pub id: u128,
    pub invoice_id: u128,
    pub status: ReceivableStatus,
    pub outstanding_amount: Money,
}

/// A payment or a deposit, as far as applying it is concerned.
#[derive(Clone, Copy, Debug)]
pub struct FundsSource {
    pub id: u128,
    pub folio_id: u128,
    pub unapplied_amount: Money,
}

/// A payment allocation or a deposit application: part of a source applied to a receivable.
#[derive(Clone, Copy, Debug)]
pub struct FundsApplication {
    pub id: u128,
    pub source_id: u128,
    pub receivable_id: u128,
    pub amount: Money,
    pub reversed: bool,
}

/// A receivable after an application or a reversal, and the settlement transitions to record,
/// in order; each transition is recorded with the amount applied or reversed.
#[derive(Clone, Debug)]
pub struct ReceivableSettlement {
    pub receivable: Receivable,
    pub transitions: Vec<SettlementTransitionType>,
}

/// A payment or deposit, the application made from it, and the receivable it is applied to,
/// after an application or a reversal, with the settlement transitions to record, in order;
/// each transition is recorded with the amount applied or reversed.
#[derive(Clone, Debug)]
pub struct FundsSettlement {
    pub source: FundsSource,
    pub application: FundsApplication,
    pub receivable: Receivable,
    pub transitions: Vec<SettlementTransitionType>,
}

/// The receivable's side of a settlement of funds.
pub open spec fn receivable_part(r: Result<FundsSettlement, AppError>) -> Result<
    ReceivableSettlement,
    AppError,
> {
    match r {
        Ok(f) => Ok(ReceivableSettlement { receivable: f.receivable, transitions: f.transitions }),
        Err(e) => Err(e),
    }
}

/// `after` is what drawing `amount` from `src` leaves: the same payment or deposit, whose
/// unapplied amount is `rust_decimal`'s difference, exact where the unapplied amount, at the
/// scale of both amounts, fits in 96 bits.
pub open spec fn drawn_source(src: FundsSource, amount: Money, after: FundsSource) -> bool {
    let u = src.unapplied_amount;
    &&& after.id == src.id
    &&& after.folio_id == src.folio_id
    &&& decimal_checked_sub(u.mantissa_of(), u.scale_of(), amount.mantissa_of(), amount.scale_of())
        == Some((after.unapplied_amount.mantissa_of(), after.unapplied_amount.scale_of()))
    &&& fits_mantissa(u.at_scale(common_scale(u, amount))) ==> (
    after.unapplied_amount.mantissa_of() == exact_difference(u, amount)
        && after.unapplied_amount.scale_of() == common_scale(u, amount))
}

/// `after` is what giving `amount` back to `src` leaves: the same payment or deposit, whose
/// unapplied amount is `rust_decimal`'s sum, exact where that sum fits in 96 bits.
pub open spec fn restored_source(src: FundsSource, amount: Money, after: FundsSource) -> bool {
    let u = src.unapplied_amount;
    &&& after.id == src.id
    &&& after.folio_id == src.folio_id
    &&& decimal_checked_add(u.mantissa_of(), u.scale_of(), amount.mantissa_of(), amount.scale_of())
        == Some((after.unapplied_amount.mantissa_of(), after.unapplied_amount.scale_of()))
    &&& u.mantissa_of() == 0 ==> after.unapplied_amount == amount
    &&& (u.mantissa_of() != 0 && amount.mantissa_of() != 0 && fits_mantissa(exact_sum(u, amount)))
        ==> (after.unapplied_amount.mantissa_of() == exact_sum(u, amount)
        && after.unapplied_amount.scale_of() == common_scale(u, amount))
}

/// What applying `amount` from `src` to the open receivable `rec` yields, as recorded in `r`:
/// the amount leaves the payment or deposit first (`SubtractionOverflowed` where
/// `rust_decimal` cannot subtract, where its `-` would panic), then reaches the receivable as
/// in `applied_outcome`, and a new application `application_id` of the amount, in force,
/// links the two.
pub open spec fn funds_applied(
    src: FundsSource,
    rec: Receivable,
    amount: Money,
    kind: SettlementTransitionType,
    application_id: u128,
    r: Result<FundsSettlement, AppError>,
) -> bool {
    let u = src.unapplied_amount;
    &&& fits_mantissa(u.at_scale(common_scale(u, amount))) ==> decimal_checked_sub(
        u.mantissa_of(),
        u.scale_of(),
        amount.mantissa_of(),
        amount.scale_of(),
    ) is Some
    &&& match decimal_checked_sub(u.mantissa_of(), u.scale_of(), amount.mantissa_of(), amount.scale_of()) {
        None => r == Err::<FundsSettlement, AppError>(AppError::SubtractionOverflowed),
        Some(_) => {
            &&& applied_outcome(rec, amount, kind, receivable_part(r))
            &&& r matches Ok(x) ==> {
                &&& drawn_source(src, amount, x.source)
                &&& x.application == (FundsApplication {
                    id: application_id,
                    source_id: src.id,
                    receivable_id: rec.id,
                    amount,
                    reversed: false,
                })
            }
        },
    }
}

/// What reversing `application` yields, as recorded in `r`: its amount goes back to the
/// payment or deposit first (`AdditionOverflowed` where `rust_decimal` cannot add, where its
/// `+` would panic), then to the receivable as in `reversed_outcome`, and the application is
/// marked reversed.
pub open spec fn funds_restored(
    src: FundsSource,
    rec: Receivable,
    application: FundsApplication,
    kind: SettlementTransitionType,
    r: Result<FundsSettlement, AppError>,
) -> bool {
    let u = src.unapplied_amount;
    let a = application.amount;
    &&& (u.mantissa_of() == 0 || a.mantissa_of() == 0 || fits_mantissa(exact_sum(u, a)))
        ==> decimal_checked_add(u.mantissa_of(), u.scale_of(), a.mantissa_of(), a.scale_of()) is Some
    &&& match decimal_checked_add(u.mantissa_of(), u.scale_of(), a.mantissa_of(), a.scale_of()) {
        None => r == Err::<FundsSettlement, AppError>(AppError::AdditionOverflowed),
        Some(_) => {
            &&& reversed_outcome(rec, a, kind, receivable_part(r))
            &&& r matches Ok(x) ==> {
                &&& restored_source(src, a, x.source)
                &&& x.application == (FundsApplication { reversed: true, ..application })
            }
        },
    }
}

/// The receivable keeps its identity.
pub open spec fn same_receivable(a: Receivable, b: Receivable) -> bool {
    a.id == b.id && a.invoice_id == b.invoice_id
}

/// What applying `amount` to the open receivable `before` yields, as recorded in `r`:
/// the outstanding amount is `rust_decimal`'s difference, and the receivable is settled
/// exactly when that difference is zero.
pub open spec fn applied_outcome(
    before: Receivable,
    amount: Money,
    kind: SettlementTransitionType,
    r: Result<ReceivableSettlement, AppError>,
) -> bool {
    let o = before.outstanding_amount;
    &&& match decimal_checked_sub(
        o.mantissa_of(),
        o.scale_of(),
        amount.mantissa_of(),
        amount.scale_of(),
    ) {
        None => r == Err::<ReceivableSettlement, AppError>(AppError::SubtractionOverflowed),
        Some((m, s)) => r matches Ok(u) && {
            &&& same_receivable(u.receivable, before)
            &&& u.receivable.outstanding_amount.mantissa_of() == m
            &&& u.receivable.outstanding_amount.scale_of() == s
            &&& u.receivable.status == if m == 0 {
                ReceivableStatus::Settled
            } else {
                ReceivableStatus::Open
            }
            &&& u.transitions@ == if m == 0 {
                seq![kind, SettlementTransitionType::ReceivableSettled]
            } else {
                seq![kind]
            }
        },
    }
    &&& fits_mantissa(o.at_scale(common_scale(o, amount))) ==> (r matches Ok(u)
        && u.receivable.outstanding_amount.mantissa_of() == exact_difference(o, amount)
        && u.receivable.outstanding_amount.scale_of() == common_scale(o, amount))
}

/// What reversing an application of `amount` to `before` yields, as recorded in `r`:
/// the outstanding amount is `rust_decimal`'s sum, and the receivable is open again.
pub open spec fn reversed_outcome(
    before: Receivable,
    amount: Money,
    kind: SettlementTransitionType,
    r: Result<ReceivableSettlement, AppError>,
) -> bool {
    let o = before.outstanding_amount;
    &&& match decimal_checked_add(
        o.mantissa_of(),
        o.scale_of(),
        amount.mantissa_of(),
        amount.scale_of(),
    ) {
        None => r == Err::<ReceivableSettlement, AppError>(AppError::AdditionOverflowed),
        Some((m, s)) => r matches Ok(u) && {
            &&& same_receivable(u.receivable, before)
            &&& u.receivable.outstanding_amount.mantissa_of() == m
            &&& u.receivable.outstanding_amount.scale_of() == s
            &&& u.receivable.status == ReceivableStatus::Open
            &&& u.transitions@ == seq![kind]
        },
    }
    &&& o.mantissa_of() == 0 ==> (r matches Ok(u) && u.receivable.outstanding_amount == amount)
    &&& (o.mantissa_of() != 0 && amount.mantissa_of() != 0 && fits_mantissa(exact_sum(o, amount)))
        ==> (r matches Ok(u) && u.receivable.outstanding_amount.mantissa_of() == exact_sum(o, amount)
        && u.receivable.outstanding_amount.scale_of() == common_scale(o, amount))
}

/// Applies a positive amount, at most the outstanding amount, to an open receivable.
fn apply_to_receivable(
    receivable: Receivable,
    amount: Money,
    kind: SettlementTransitionType,
) -> (r: Result<ReceivableSettlement, AppError>)
    requires
        receivable.status == ReceivableStatus::Open,
        is_positive(amount),
        value_le(amount, receivable.outstanding_amount),
    ensures
        applied_outcome(receivable, amount, kind, r),
{
    let o = receivable.outstanding_amount;
    proof {
        lemma_positive_below(amount, o);
        let s = common_scale(o, amount);
        lemma_compare_aligned(amount, o);
        assert(common_scale(amount, o) == s);
        lemma_at_scale_sign(amount, s);
    }
    let next = match checked_sub_amounts(o, amount) {
        Some(v) => v,
        None => {
            return Err(AppError::SubtractionOverflowed);
        },
    };
    proof {
        let s = common_scale(o, amount);
        assert(common_scale(amount, o) == s);
        if fits_mantissa(o.at_scale(s)) {
            assert(fits_mantissa(exact_difference(o, amount)));
            assert(next.mantissa_of() == exact_difference(o, amount));
        }
    }
    let settled = amount_is_zero(next);
    let mut transitions: Vec<SettlementTransitionType> = Vec::new();
    transitions.push(kind);
    let status = if settled {
        transitions.push(SettlementTransitionType::ReceivableSettled);
        ReceivableStatus::Settled
    } else {
        ReceivableStatus::Open
    };
    assert(transitions@ == if next.mantissa_of() == 0 {
        seq![kind, SettlementTransitionType::ReceivableSettled]
    } else {
        seq![kind]
    });
    Ok(
        ReceivableSettlement {
            receivable: Receivable {
                id: receivable.id,
                invoice_id: receivable.invoice_id,
                status,
                outstanding_amount: next,
            },
            transitions,
        },
    )
}

/// Gives an applied amount back to a receivable and reopens it.
fn restore_to_receivable(
    receivable: Receivable,
    amount: Money,
    kind: SettlementTransitionType,
) -> (r: Result<ReceivableSettlement, AppError>)
    ensures
        reversed_outcome(receivable, amount, kind, r),
{
    let next = match checked_add_amounts(receivable.outstanding_amount, amount) {
        Some(v) => v,
        None => {
            return Err(AppError::AdditionOverflowed);
        },
    };
    let mut transitions: Vec<SettlementTransitionType> = Vec::new();
    transitions.push(kind);
    Ok(
        ReceivableSettlement {
            receivable: Receivable {
                id: receivable.id,
                invoice_id: receivable.invoice_id,
                status: ReceivableStatus::Open,
                outstanding_amount: next,
            },
            transitions,
        },
    )
}

/// Draws a positive amount, at most the unapplied amount, from a payment or deposit.
fn draw_from_source(src: FundsSource, amount: Money) -> (r: Result<FundsSource, AppError>)
    requires
        is_positive(amount),
        value_le(amount, src.unapplied_amount),
    ensures
        match r {
            Ok(after) => drawn_source(src, amount, after),
            Err(e) => e == AppError::SubtractionOverflowed && decimal_checked_sub(
                src.unapplied_amount.mantissa_of(),
                src.unapplied_amount.scale_of(),
                amount.mantissa_of(),
                amount.scale_of(),
            ) is None,
        },
        fits_mantissa(src.unapplied_amount.at_scale(common_scale(src.unapplied_amount, amount)))
            ==> r is Ok,
{
    let u = src.unapplied_amount;
    proof {
        lemma_positive_below(amount, u);
        let s = common_scale(u, amount);
        lemma_compare_aligned(amount, u);
        assert(common_scale(amount, u) == s);
        lemma_at_scale_sign(amount, s);
    }
    let next = match checked_sub_amounts(u, amount) {
        Some(v) => v,
        None => {
            return Err(AppError::SubtractionOverflowed);
        },
    };
    proof {
        let s = common_scale(u, amount);
        assert(common_scale(amount, u) == s);
        if fits_mantissa(u.at_scale(s)) {
            assert(fits_mantissa(exact_difference(u, amount)));
        }
    }
    Ok(FundsSource { id: src.id, folio_id: src.folio_id, unapplied_amount: next })
}

/// Gives an amount back to a payment or deposit.
fn restore_to_source(src: FundsSource, amount: Money) -> (r: Result<FundsSource, AppError>)
    ensures
        match r {
            Ok(after) => restored_source(src, amount, after),
            Err(e) => e == AppError::AdditionOverflowed && decimal_checked_add(
                src.unapplied_amount.mantissa_of(),
                src.unapplied_amount.scale_of(),
                amount.mantissa_of(),
                amount.scale_of(),
            ) is None,
        },
        (src.unapplied_amount.mantissa_of() == 0 || amount.mantissa_of() == 0 || fits_mantissa(
            exact_sum(src.unapplied_amount, amount),
        )) ==> r is Ok,
{
    match checked_add_amounts(src.unapplied_amount, amount) {
        Some(v) => Ok(FundsSource { id: src.id, folio_id: src.folio_id, unapplied_amount: v }),
        None => Err(AppError::AdditionOverflowed),
    }
}

/// `amount <= limit`, compared with `rust_decimal`.
fn within(amount: Money, limit: Money) -> (r: bool)
    ensures
        r == value_le(amount, limit),
{
    compare_amounts(amount, limit) != AmountOrder::Greater
}

/// Receiving a new payment for a receivable and allocating all of it there.
///
/// The receivable and the folio of its invoice are given as found (`None`: not found).
pub fn allocate_receivable_payment(
    amount: Money,
    receivable: Option<Receivable>,
    invoice_folio_id: Option<u128>,
) -> (r: Result<ReceivableSettlement, AppError>)
    ensures
        !is_positive(amount) ==> r == Err::<ReceivableSettlement, AppError>(
            AppError::PaymentAmountNotPositive,
        ),
        is_positive(amount) ==> match receivable {
            None => r == Err::<ReceivableSettlement, AppError>(AppError::ReceivableNotFound),
            Some(rec) => if rec.status != ReceivableStatus::Open {
                r == Err::<ReceivableSettlement, AppError>(AppError::ReceivableNotOpen)
            } else if !value_le(amount, rec.outstanding_amount) {
                r == Err::<ReceivableSettlement, AppError>(AppError::PaymentExceedsOutstanding)
            } else if invoice_folio_id is None {
                r == Err::<ReceivableSettlement, AppError>(AppError::InvoiceNotFound)
            } else {
                applied_outcome(rec, amount, SettlementTransitionType::PaymentAllocated, r)
            },
        },
{
    if !amount_is_positive(amount) {
        return Err(AppError::PaymentAmountNotPositive);
    }
    let rec = match receivable {
        Some(rec) => rec,
        None => {
            return Err(AppError::ReceivableNotFound);
        },
    };
    if rec.status != ReceivableStatus::Open {
        return Err(AppError::ReceivableNotOpen);
    }
    if !within(amount, rec.outstanding_amount) {
        return Err(AppError::PaymentExceedsOutstanding);
    }
    if invoice_folio_id.is_none() {
        return Err(AppError::InvoiceNotFound);
    }
    apply_to_receivable(rec, amount, SettlementTransitionType::PaymentAllocated)
}

/// The refusals shared by allocating an existing payment and applying a deposit, in the order
/// the service checks them; `None` where the application may go ahead.
pub open spec fn application_refusal(
    amount: Money,
    source: Option<FundsSource>,
    receivable: Option<Receivable>,
    invoice_folio_id: Option<u128>,
    from_deposit: bool,
) -> Option<AppError> {
    if !is_positive(amount) {
        Some(
            if from_deposit {
                AppError::DepositApplicationAmountNotPositive
            } else {
                AppError::AllocationAmountNotPositive
            },
        )
    } else if source is None {
        Some(
            if from_deposit {
                AppError::DepositNotFound
            } else {
                AppError::PaymentNotFound
            },
        )
    } else if receivable is None {
        Some(AppError::ReceivableNotFound)
    } else if invoice_folio_id is None {
        Some(AppError::InvoiceNotFound)
    } else if receivable->0.status != ReceivableStatus::Open {
        Some(AppError::ReceivableNotOpen)
    } else if source->0.folio_id != invoice_folio_id->0 {
        Some(
            if from_deposit {
                AppError::DepositFolioMismatch
            } else {
                AppError::PaymentFolioMismatch
            },
        )
    } else if !value_le(amount, source->0.unapplied_amount) {
        Some(
            if from_deposit {
                AppError::DepositApplicationExceedsUnapplied
            } else {
                AppError::AllocationExceedsUnapplied
            },
        )
    } else if !value_le(amount, receivable->0.outstanding_amount) {
        Some(
            if from_deposit {
                AppError::DepositApplicationExceedsOutstanding
            } else {
                AppError::AllocationExceedsOutstanding
            },
        )
    } else {
        None
    }
}

fn apply_funds(
    amount: Money,
    source: Option<FundsSource>,
    receivable: Option<Receivable>,
    invoice_folio_id: Option<u128>,
    from_deposit: bool,
    application_id: u128,
) -> (r: Result<FundsSettlement, AppError>)
    ensures
        match application_refusal(amount, source, receivable, invoice_folio_id, from_deposit) {
            Some(e) => r == Err::<FundsSettlement, AppError>(e),
            None => funds_applied(
                source->0,
                receivable->0,
                amount,
                if from_deposit {
                    SettlementTransitionType::DepositApplied
                } else {
                    SettlementTransitionType::PaymentAllocated
                },
                application_id,
                r,
            ),
        },
{
    if !amount_is_positive(amount) {
        return Err(
            if from_deposit {
                AppError::DepositApplicationAmountNotPositive
            } else {
                AppError::AllocationAmountNotPositive
            },
        );
    }
    let src = match source {
        Some(s) => s,
        None => {
            return Err(
                if from_deposit {
                    AppError::DepositNotFound
                } else {
                    AppError::PaymentNotFound
                },
            );
        },
    };
    let rec = match receivable {
        Some(rec) => rec,
        None => {
            return Err(AppError::ReceivableNotFound);
        },
    };
    let folio_id = match invoice_folio_id {
        Some(f) => f,
        None => {
            return Err(AppError::InvoiceNotFound);
        },
    };
    if rec.status != ReceivableStatus::Open {
        return Err(AppError::ReceivableNotOpen);
    }
    if src.folio_id != folio_id {
        return Err(
            if from_deposit {
                AppError::DepositFolioMismatch
            } else {
                AppError::PaymentFolioMismatch
            },
        );
    }
    if !within(amount, src.unapplied_amount) {
        return Err(
            if from_deposit {
                AppError::DepositApplicationExceedsUnapplied
            } else {
                AppError::AllocationExceedsUnapplied
            },
        );
    }
    if !within(amount, rec.outstanding_amount) {
        return Err(
            if from_deposit {
                AppError::DepositApplicationExceedsOutstanding
            } else {
                AppError::AllocationExceedsOutstanding
            },
        );
    }
    let kind = if from_deposit {
        SettlementTransitionType::DepositApplied
    } else {
        SettlementTransitionType::PaymentAllocated
    };
    let drawn = match draw_from_source(src, amount) {
        Ok(d) => d,
        Err(e) => {
            return Err(e);
        },
    };
    let settled = match apply_to_receivable(rec, amount, kind) {
        Ok(u) => u,
        Err(e) => {
            return Err(e);
        },
    };
    let application = FundsApplication {
        id: application_id,
        source_id: src.id,
        receivable_id: rec.id,
        amount,
        reversed: false,
    };
    Ok(
        FundsSettlement {
            source: drawn,
            application,
            receivable: settled.receivable,
            transitions: settled.transitions,
        },
    )
}

/// What applying `amount` from `source` to `receivable` returns: the refusal that
/// `application_refusal` names, or the outcome `funds_applied` describes.
pub open spec fn application_outcome(
    amount: Money,
    source: Option<FundsSource>,
    receivable: Option<Receivable>,
    invoice_folio_id: Option<u128>,
    from_deposit: bool,
    application_id: u128,
    r: Result<FundsSettlement, AppError>,
) -> bool {
    match application_refusal(amount, source, receivable, invoice_folio_id, from_deposit) {
        Some(e) => r == Err::<FundsSettlement, AppError>(e),
        None => funds_applied(
            source->0,
            receivable->0,
            amount,
            if from_deposit {
                SettlementTransitionType::DepositApplied
            } else {
                SettlementTransitionType::PaymentAllocated
            },
            application_id,
            r,
        ),
    }
}

/// Allocating part of an existing payment to a receivable of the same folio: what leaves the
/// payment's unapplied amount is what reaches the receivable, recorded as allocation
/// `allocation_id`.
pub fn allocate_existing_payment(
    amount: Money,
    payment: Option<FundsSource>,
    receivable: Option<Receivable>,
    invoice_folio_id: Option<u128>,
    allocation_id: u128,
) -> (r: Result<FundsSettlement, AppError>)
    ensures
        application_outcome(amount, payment, receivable, invoice_folio_id, false, allocation_id, r),
{
    apply_funds(amount, payment, receivable, invoice_folio_id, false, allocation_id)
}

/// Applying part of a deposit to a receivable of the same folio: what leaves the deposit's
/// unapplied amount is what reaches the receivable, recorded as application `application_id`.
pub fn apply_deposit_to_receivable(
    amount: Money,
    deposit: Option<FundsSource>,
    receivable: Option<Receivable>,
    invoice_folio_id: Option<u128>,
    application_id: u128,
) -> (r: Result<FundsSettlement, AppError>)
    ensures
        application_outcome(amount, deposit, receivable, invoice_folio_id, true, application_id, r),
{
    apply_funds(amount, deposit, receivable, invoice_folio_id, true, application_id)
}

/// The refusal of reversing a payment allocation, in the order the service checks; `None`
/// where the reversal may go ahead.
pub open spec fn payment_reversal_refusal(
    allocation: Option<FundsApplication>,
    receivable: Option<Receivable>,
    payment: Option<FundsSource>,
) -> Option<AppError> {
    if allocation is None {
        Some(AppError::PaymentAllocationNotFound)
    } else if allocation->0.reversed {
        Some(AppError::PaymentAllocationAlreadyReversed)
    } else if receivable is None {
        Some(AppError::ReceivableNotFound)
    } else if payment is None {
        Some(AppError::PaymentNotFound)
    } else {
        None
    }
}

/// What reversing a payment allocation returns: the refusal that `payment_reversal_refusal`
/// names, or the outcome `funds_restored` describes.
pub open spec fn payment_reversal_outcome(
    allocation: Option<FundsApplication>,
    receivable: Option<Receivable>,
    payment: Option<FundsSource>,
    r: Result<FundsSettlement, AppError>,
) -> bool {
    match payment_reversal_refusal(allocation, receivable, payment) {
        Some(e) => r == Err::<FundsSettlement, AppError>(e),
        None => funds_restored(
            payment->0,
            receivable->0,
            allocation->0,
            SettlementTransitionType::PaymentAllocationReversed,
            r,
        ),
    }
}

/// Gives an application's amount back to its source and to its receivable, and marks it
/// reversed.
fn reverse_funds(
    application: FundsApplication,
    source: FundsSource,
    receivable: Receivable,
    kind: SettlementTransitionType,
) -> (r: Result<FundsSettlement, AppError>)
    ensures
        funds_restored(source, receivable, application, kind, r),
{
    let restored = match restore_to_source(source, application.amount) {
        Ok(s) => s,
        Err(e) => {
            return Err(e);
        },
    };
    let settled = match restore_to_receivable(receivable, application.amount, kind) {
        Ok(u) => u,
        Err(e) => {
            return Err(e);
        },
    };
    Ok(
        FundsSettlement {
            source: restored,
            application: FundsApplication { reversed: true, ..application },
            receivable: settled.receivable,
            transitions: settled.transitions,
        },
    )
}

/// Reversing a payment allocation: the allocated amount goes back to the payment's unapplied
/// amount and to the receivable, which is reopened whatever its status, and the allocation is
/// marked reversed, so that it cannot be reversed again.
pub fn reverse_payment_allocation(
    allocation: Option<FundsApplication>,
    receivable: Option<Receivable>,
    payment: Option<FundsSource>,
) -> (r: Result<FundsSettlement, AppError>)
    ensures
        payment_reversal_outcome(allocation, receivable, payment, r),
{
    let a = match allocation {
        Some(a) => a,
        None => {
            return Err(AppError::PaymentAllocationNotFound);
        },
    };
    if a.reversed {
        return Err(AppError::PaymentAllocationAlreadyReversed);
    }
    let rec = match receivable {
        Some(rec) => rec,
        None => {
            return Err(AppError::ReceivableNotFound);
        },
    };
    let pay = match payment {
        Some(p) => p,
        None => {
            return Err(AppError::PaymentNotFound);
        },
    };
    reverse_funds(a, pay, rec, SettlementTransitionType::PaymentAllocationReversed)
}

/// The refusal of reversing a deposit application, in the order the service checks;
/// `None` where the reversal may go ahead.
pub open spec fn deposit_reversal_refusal(
    application: Option<FundsApplication>,
    deposit: Option<FundsSource>,
    receivable: Option<Receivable>,
    invoice_folio_id: Option<u128>,
) -> Option<AppError> {
    if application is None {
        Some(AppError::DepositApplicationNotFound)
    } else if application->0.reversed {
        Some(AppError::DepositApplicationAlreadyReversed)
    } else if deposit is None {
        Some(AppError::DepositNotFound)
    } else if receivable is None {
        Some(AppError::ReceivableNotFound)
    } else if invoice_folio_id is None {
        Some(AppError::InvoiceNotFound)
    } else if deposit->0.folio_id != invoice_folio_id->0 {
        Some(AppError::DepositFolioMismatch)
    } else {
        match receivable->0.status {
            ReceivableStatus::Open | ReceivableStatus::Settled => None,
            ReceivableStatus::Disputed => Some(AppError::ReverseForDisputedReceivable),
            ReceivableStatus::WrittenOff => Some(AppError::ReverseForWrittenOffReceivable),
            ReceivableStatus::Voided => Some(AppError::ReverseForVoidedReceivable),
        }
    }
}

/// What reversing a deposit application returns: the refusal that
/// `deposit_reversal_refusal` names, or the outcome `funds_restored` describes.
pub open spec fn deposit_reversal_outcome(
    application: Option<FundsApplication>,
    deposit: Option<FundsSource>,
    receivable: Option<Receivable>,
    invoice_folio_id: Option<u128>,
    r: Result<FundsSettlement, AppError>,
) -> bool {
    match deposit_reversal_refusal(application, deposit, receivable, invoice_folio_id) {
        Some(e) => r == Err::<FundsSettlement, AppError>(e),
        None => funds_restored(
            deposit->0,
            receivable->0,
            application->0,
            SettlementTransitionType::DepositApplicationReversed,
            r,
        ),
    }
}

/// Reversing a deposit application, allowed for open and settled receivables only: the
/// amount goes back to the deposit's unapplied amount and to the receivable, which is
/// reopened, and the application is marked reversed.
pub fn reverse_deposit_application(
    application: Option<FundsApplication>,
    deposit: Option<FundsSource>,
    receivable: Option<Receivable>,
    invoice_folio_id: Option<u128>,
) -> (r: Result<FundsSettlement, AppError>)
    ensures
        deposit_reversal_outcome(application, deposit, receivable, invoice_folio_id, r),
{
    let a = match application {
        Some(a) => a,
        None => {
            return Err(AppError::DepositApplicationNotFound);
        },
    };
    if a.reversed {
        return Err(AppError::DepositApplicationAlreadyReversed);
    }
    let dep = match deposit {
        Some(d) => d,
        None => {
            return Err(AppError::DepositNotFound);
        },
    };
    let rec = match receivable {
        Some(rec) => rec,
        None => {
            return Err(AppError::ReceivableNotFound);
        },
    };
    let folio_id = match invoice_folio_id {
        Some(f) => f,
        None => {
            return Err(AppError::InvoiceNotFound);
        },
    };
    if dep.folio_id != folio_id {
        return Err(AppError::DepositFolioMismatch);
    }
    match rec.status {
        ReceivableStatus::Open | ReceivableStatus::Settled => {},
        ReceivableStatus::Disputed => {
            return Err(AppError::ReverseForDisputedReceivable);
        },
        ReceivableStatus::WrittenOff => {
            return Err(AppError::ReverseForWrittenOffReceivable);
        },
        ReceivableStatus::Voided => {
            return Err(AppError::ReverseForVoidedReceivable);
        },
    }
    reverse_funds(a, dep, rec, SettlementTransitionType::DepositApplicationReversed)
}

/// An amount recorded as changed: before and after do not denote the same number (the
/// comparison `rust_decimal`'s `!=` makes).
pub fn amount_changed(before: Money, after: Money) -> (r: bool)
    ensures
        r == !same_value(before, after),
{
    compare_amounts(before, after) != AmountOrder::Equal
}

/// A field of a receivable that an operation records as changed.
#[derive(Clone, Copy, Debug, PartialEq, Eq, Structural)]
pub enum ReceivableField {
    OutstandingAmount,
    Status,
}

/// The fields of a receivable that changed, in the order they are recorded: the outstanding
/// amount where its value changed, then the status where it changed.
pub fn changed_receivable_fields(before: Receivable, after: Receivable) -> (r: Vec<ReceivableField>)
    ensures
        r@ == (if same_value(before.outstanding_amount, after.outstanding_amount) {
            Seq::<ReceivableField>::empty()
        } else {
            seq![ReceivableField::OutstandingAmount]
        }) + (if before.status == after.status {
            Seq::<ReceivableField>::empty()
        } else {
            seq![ReceivableField::Status]
        }),
{
    let mut fields: Vec<ReceivableField> = Vec::new();
    if amount_changed(before.outstanding_amount, after.outstanding_amount) {
        fields.push(ReceivableField::OutstandingAmount);
    }
    if before.status != after.status {
        fields.push(ReceivableField::Status);
    }
    assert(fields@ =~= (if same_value(before.outstanding_amount, after.outstanding_amount) {
        Seq::<ReceivableField>::empty()
    } else {
        seq![ReceivableField::OutstandingAmount]
    }) + (if before.status == after.status {
        Seq::<ReceivableField>::empty()
    } else {
        seq![ReceivableField::Status]
    }));
    fields
}

/// A field that a reversal of an application records as changed.
#[derive(Clone, Copy, Debug, PartialEq, Eq, Structural)]
pub enum ReversalField {
    ReversedAt,
    SourceUnappliedAmount,
    ReceivableOutstandingAmount,
    ReceivableStatus,
}

/// `field` where `changed`, nothing otherwise.
pub open spec fn listed_if(changed: bool, field: ReversalField) -> Seq<ReversalField> {
    if changed {
        seq![field]
    } else {
        Seq::empty()
    }
}

/// The fields a reversal records as changed, in the order the service records them: the
/// reversal mark always; then, where they changed, the receivable's status, its outstanding
/// amount and the payment's unapplied amount (a payment allocation), or the deposit's
/// unapplied amount, the receivable's outstanding amount and its status (a deposit
/// application).
pub open spec fn reversal_fields(
    source_before: FundsSource,
    receivable_before: Receivable,
    after: FundsSettlement,
    from_deposit: bool,
) -> Seq<ReversalField> {
    let unapplied = listed_if(
        !same_value(source_before.unapplied_amount, after.source.unapplied_amount),
        ReversalField::SourceUnappliedAmount,
    );
    let outstanding = listed_if(
        !same_value(receivable_before.outstanding_amount, after.receivable.outstanding_amount),
        ReversalField::ReceivableOutstandingAmount,
    );
    let status = listed_if(
        receivable_before.status != after.receivable.status,
        ReversalField::ReceivableStatus,
    );
    seq![ReversalField::ReversedAt] + if from_deposit {
        unapplied + outstanding + status
    } else {
        status + outstanding + unapplied
    }
}

/// The fields a reversal records as changed (see `reversal_fields`).
pub fn reversal_changed_fields(
    source_before: &FundsSource,
    receivable_before: &Receivable,
    after: &FundsSettlement,
    from_deposit: bool,
) -> (r: Vec<ReversalField>)
    ensures
        r@ == reversal_fields(*source_before, *receivable_before, *after, from_deposit),
{
    let unapplied = amount_changed(source_before.unapplied_amount, after.source.unapplied_amount);
    let outstanding = amount_changed(
        receivable_before.outstanding_amount,
        after.receivable.outstanding_amount,
    );
    let status = receivable_before.status != after.receivable.status;
    let mut fields: Vec<ReversalField> = Vec::new();
    fields.push(ReversalField::ReversedAt);
    if from_deposit {
        if unapplied {
            fields.push(ReversalField::SourceUnappliedAmount);
        }
        if outstanding {
            fields.push(ReversalField::ReceivableOutstandingAmount);
        }
        if status {
            fields.push(ReversalField::ReceivableStatus);
        }
    } else {
        if status {
            fields.push(ReversalField::ReceivableStatus);
        }
        if outstanding {
            fields.push(ReversalField::ReceivableOutstandingAmount);
        }
        if unapplied {
            fields.push(ReversalField::SourceUnappliedAmount);
        }
    }
    assert(fields@ =~= reversal_fields(*source_before, *receivable_before, *after, from_deposit));
    fields
}

/// Disputing a receivable: only an open one, which becomes disputed.
pub fn dispute_receivable(receivable: Option<Receivable>) -> (r: Result<Receivable, AppError>)
    ensures
        match receivable {
            None => r == Err::<Receivable, AppError>(AppError::ReceivableNotFound),
            Some(rec) => if rec.status != ReceivableStatus::Open {
                r == Err::<Receivable, AppError>(AppError::OnlyOpenReceivablesDisputable)
            } else {
                r matches Ok(u) && same_receivable(u, rec) && u.status
                    == ReceivableStatus::Disputed && u.outstanding_amount == rec.outstanding_amount
            },
        },
{
    let rec = match receivable {
        Some(rec) => rec,
        None => {
            return Err(AppError::ReceivableNotFound);
        },
    };
    if rec.status != ReceivableStatus::Open {
        return Err(AppError::OnlyOpenReceivablesDisputable);
    }
    Ok(
        Receivable {
            id: rec.id,
            invoice_id: rec.invoice_id,
            status: ReceivableStatus::Disputed,
            outstanding_amount: rec.outstanding_amount,
        },
    )
}

/// The checks before refunding part of a payment (`from_deposit == false`) or a deposit.
pub fn check_refund_request(amount: Money, source_found: bool, from_deposit: bool) -> (r: Result<
    (),
    AppError,
>)
    ensures
        !is_positive(amount) ==> r == Err::<(), AppError>(
            if from_deposit {
                AppError::DepositRefundAmountNotPositive
            } else {
                AppError::RefundAmountNotPositive
            },
        ),
        is_positive(amount) && !source_found ==> r == Err::<(), AppError>(
            if from_deposit {
                AppError::DepositNotFound
            } else {
                AppError::PaymentNotFound
            },
        ),
        is_positive(amount) && source_found ==> r is Ok,
{
    if !amount_is_positive(amount) {
        return Err(
            if from_deposit {
                AppError::DepositRefundAmountNotPositive
            } else {
                AppError::RefundAmountNotPositive
            },
        );
    }
    if !source_found {
        return Err(
            if from_deposit {
                AppError::DepositNotFound
            } else {
                AppError::PaymentNotFound
            },
        );
    }
    Ok(())
}

/// Applying an amount and then reversing that application gives the receivable back the
/// outstanding amount it had, as a number: the difference is exact, and so is the sum that
/// restores it (the requirement is that the outstanding amount, written at the scale of the
/// two amounts together, fits in `rust_decimal`'s 96 bits).
pub proof fn lemma_reversal_restores_outstanding(
    outstanding: Money,
    amount: Money,
    after: Money,
    restored: Money,
)
    requires
        is_positive(amount),
        value_le(amount, outstanding),
        fits_mantissa(outstanding.at_scale(common_scale(outstanding, amount))),
        after.mantissa_of() == exact_difference(outstanding, amount),
        after.scale_of() == common_scale(outstanding, amount),
        after.mantissa_of() == 0 ==> restored == amount,
        after.mantissa_of() != 0 && fits_mantissa(exact_sum(after, amount)) ==> (
        restored.mantissa_of() == exact_sum(after, amount) && restored.scale_of() == common_scale(
            after,
            amount,
        )),
    ensures
        after.mantissa_of() != 0 ==> fits_mantissa(exact_sum(after, amount)),
        same_value(restored, outstanding),
{
    let s = common_scale(outstanding, amount);
    lemma_compare_aligned(amount, outstanding);
    assert(common_scale(amount, outstanding) == s);
    assert(common_scale(after, amount) == s);
    assert(pow10(0) == 1);
    assert(after.at_scale(s) == after.mantissa_of());
    if after.mantissa_of() == 0 {
        lemma_compare_aligned(restored, outstanding);
    } else {
        assert(exact_sum(after, amount) == outstanding.at_scale(s));
        lemma_same_value_at_scale(restored, outstanding, s);
    }
}

/// Applying an amount keeps the outstanding amount between zero and what it was, and the
/// receivable is settled exactly when the amount applied is the whole outstanding amount
/// (where the outstanding amount, at the scale of both amounts, fits in 96 bits).
pub proof fn lemma_application_bounds(outstanding: Money, amount: Money, after: Money)
    requires
        is_positive(amount),
        value_le(amount, outstanding),
        fits_mantissa(outstanding.at_scale(common_scale(outstanding, amount))),
        after.mantissa_of() == exact_difference(outstanding, amount),
        after.scale_of() == common_scale(outstanding, amount),
    ensures
        after.mantissa_of() >= 0,
        value_le(after, outstanding),
        after.mantissa_of() == 0 <==> same_value(amount, outstanding),
{
    let s = common_scale(outstanding, amount);
    lemma_compare_aligned(amount, outstanding);
    assert(common_scale(amount, outstanding) == s);
    lemma_at_scale_sign(amount, s);
    assert(common_scale(after, outstanding) == s);
    assert(pow10(0) == 1);
    assert(after.at_scale(s) == after.mantissa_of());
    lemma_compare_aligned(after, outstanding);
}

/// Giving back an amount applied from `outstanding` gives a sum that fits in 96 bits.
proof fn lemma_restoring_sum_fits(outstanding: Money, amount: Money, after: Money)
    requires
        is_positive(amount),
        value_le(amount, outstanding),
        fits_mantissa(outstanding.at_scale(common_scale(outstanding, amount))),
        after.mantissa_of() == exact_difference(outstanding, amount),
        after.scale_of() == common_scale(outstanding, amount),
    ensures
        fits_mantissa(exact_sum(after, amount)),
{
    let s = common_scale(outstanding, amount);
    lemma_compare_aligned(amount, outstanding);
    assert(common_scale(amount, outstanding) == s);
    assert(common_scale(after, amount) == s);
    assert(pow10(0) == 1);
    assert(after.at_scale(s) == after.mantissa_of());
    assert(exact_sum(after, amount) == outstanding.at_scale(s));
}

/// The amounts of an application and of its reversal: where the payment's or deposit's
/// unapplied amount and the receivable's outstanding amount, each at the scale it shares with
/// the amount, fit in 96 bits, the reversal of what an application left succeeds and gives
/// both their numbers back; the receivable is open and the application reversed.
proof fn lemma_round_trip_amounts(
    source: FundsSource,
    receivable: Receivable,
    amount: Money,
    apply_kind: SettlementTransitionType,
    application_id: u128,
    applied: FundsSettlement,
    receivable_now: Receivable,
    reverse_kind: SettlementTransitionType,
    reversed: Result<FundsSettlement, AppError>,
)
    requires
        is_positive(amount),
        value_le(amount, source.unapplied_amount),
        value_le(amount, receivable.outstanding_amount),
        fits_mantissa(
            source.unapplied_amount.at_scale(common_scale(source.unapplied_amount, amount)),
        ),
        fits_mantissa(
            receivable.outstanding_amount.at_scale(
                common_scale(receivable.outstanding_amount, amount),
            ),
        ),
        funds_applied(source, receivable, amount, apply_kind, application_id, Ok(applied)),
        receivable_now.id == applied.receivable.id,
        receivable_now.invoice_id == applied.receivable.invoice_id,
        receivable_now.outstanding_amount == applied.receivable.outstanding_amount,
        funds_restored(applied.source, receivable_now, applied.application, reverse_kind, reversed),
    ensures
        reversed matches Ok(y) && {
            &&& same_value(y.source.unapplied_amount, source.unapplied_amount)
            &&& same_value(y.receivable.outstanding_amount, receivable.outstanding_amount)
            &&& y.source.id == source.id
            &&& y.receivable.id == receivable.id
            &&& y.receivable.status == ReceivableStatus::Open
            &&& y.application.id == application_id
            &&& y.application.reversed
        },
{
    let u = source.unapplied_amount;
    let o = receivable.outstanding_amount;
    let u1 = applied.source.unapplied_amount;
    let o1 = applied.receivable.outstanding_amount;
    assert(applied.application.amount == amount);
    lemma_restoring_sum_fits(u, amount, u1);
    lemma_restoring_sum_fits(o, amount, o1);
    assert(receivable_part(reversed) is Ok);
    let y = reversed->Ok_0;
    lemma_reversal_restores_outstanding(u, amount, u1, y.source.unapplied_amount);
    lemma_reversal_restores_outstanding(o, amount, o1, y.receivable.outstanding_amount);
}

/// Allocating part of a payment to an open receivable and then reversing that allocation
/// puts both back where they were: the reversal succeeds, the payment's unapplied amount and
/// the receivable's outstanding amount denote the numbers they had, the receivable is open,
/// and the allocation is marked reversed, so that reversing it again is refused.  (The
/// requirement is that each of the two amounts, at the scale it shares with the allocated
/// amount, fits in `rust_decimal`'s 96 bits.)
pub proof fn lemma_payment_allocation_round_trip(
    payment: FundsSource,
    receivable: Receivable,
    amount: Money,
    allocation_id: u128,
    allocated: Result<FundsSettlement, AppError>,
    reversed: Result<FundsSettlement, AppError>,
    reversed_again: Result<FundsSettlement, AppError>,
)
    requires
        receivable.status == ReceivableStatus::Open,
        is_positive(amount),
        value_le(amount, payment.unapplied_amount),
        value_le(amount, receivable.outstanding_amount),
        fits_mantissa(
            payment.unapplied_amount.at_scale(common_scale(payment.unapplied_amount, amount)),
        ),
        fits_mantissa(
            receivable.outstanding_amount.at_scale(
                common_scale(receivable.outstanding_amount, amount),
            ),
        ),
        application_outcome(
            amount,
            Some(payment),
            Some(receivable),
            Some(payment.folio_id),
            false,
            allocation_id,
            allocated,
        ),
        allocated matches Ok(x) ==> payment_reversal_outcome(
            Some(x.application),
            Some(x.receivable),
            Some(x.source),
            reversed,
        ),
        reversed matches Ok(y) ==> payment_reversal_outcome(
            Some(y.application),
            Some(y.receivable),
            Some(y.source),
            reversed_again,
        ),
    ensures
        allocated is Ok,
        reversed matches Ok(y) && {
            &&& same_value(y.source.unapplied_amount, payment.unapplied_amount)
            &&& same_value(y.receivable.outstanding_amount, receivable.outstanding_amount)
            &&& y.source.id == payment.id
            &&& y.receivable.id == receivable.id
            &&& y.receivable.status == ReceivableStatus::Open
            &&& y.application.id == allocation_id
            &&& y.application.reversed
        },
        reversed_again == Err::<FundsSettlement, AppError>(
            AppError::PaymentAllocationAlreadyReversed,
        ),
{
    let x = allocated->Ok_0;
    lemma_round_trip_amounts(
        payment,
        receivable,
        amount,
        SettlementTransitionType::PaymentAllocated,
        allocation_id,
        x,
        x.receivable,
        SettlementTransitionType::PaymentAllocationReversed,
        reversed,
    );
}

/// Applying part of a deposit to an open receivable and then reversing that application,
/// with the receivable's status since become `status` and its amount unchanged: a disputed,
/// written-off or voided receivable refuses the reversal; an open or settled one takes it,
/// the deposit's unapplied amount and the receivable's outstanding amount denote the numbers
/// they had, the receivable is open, and the application is marked reversed, so that
/// reversing it again is refused.  (The requirement is that each of the two amounts, at the
/// scale it shares with the applied amount, fits in `rust_decimal`'s 96 bits.)
pub proof fn lemma_deposit_application_round_trip(
    deposit: FundsSource,
    receivable: Receivable,
    amount: Money,
    application_id: u128,
    status: ReceivableStatus,
    applied: Result<FundsSettlement, AppError>,
    reversed: Result<FundsSettlement, AppError>,
    reversed_again: Result<FundsSettlement, AppError>,
)
    requires
        receivable.status == ReceivableStatus::Open,
        is_positive(amount),
        value_le(amount, deposit.unapplied_amount),
        value_le(amount, receivable.outstanding_amount),
        fits_mantissa(
            deposit.unapplied_amount.at_scale(common_scale(deposit.unapplied_amount, amount)),
        ),
        fits_mantissa(
            receivable.outstanding_amount.at_scale(
                common_scale(receivable.outstanding_amount, amount),
            ),
        ),
        application_outcome(
            amount,
            Some(deposit),
            Some(receivable),
            Some(deposit.folio_id),
            true,
            application_id,
            applied,
        ),
        applied matches Ok(x) ==> deposit_reversal_outcome(
            Some(x.application),
            Some(x.source),
            Some(Receivable { status, ..x.receivable }),
            Some(deposit.folio_id),
            reversed,
        ),
        reversed matches Ok(y) ==> deposit_reversal_outcome(
            Some(y.application),
            Some(y.source),
            Some(y.receivable),
            Some(deposit.folio_id),
            reversed_again,
        ),
    ensures
        applied is Ok,
        status == ReceivableStatus::Disputed ==> reversed == Err::<FundsSettlement, AppError>(
            AppError::ReverseForDisputedReceivable,
        ),
        status == ReceivableStatus::WrittenOff ==> reversed == Err::<FundsSettlement, AppError>(
            AppError::ReverseForWrittenOffReceivable,
        ),
        status == ReceivableStatus::Voided ==> reversed == Err::<FundsSettlement, AppError>(
            AppError::ReverseForVoidedReceivable,
        ),
        status == ReceivableStatus::Open || status == ReceivableStatus::Settled ==> {
            &&& reversed matches Ok(y) && {
                &&& same_value(y.source.unapplied_amount, deposit.unapplied_amount)
                &&& same_value(y.receivable.outstanding_amount, receivable.outstanding_amount)
                &&& y.source.id == deposit.id
                &&& y.receivable.id == receivable.id
                &&& y.receivable.status == ReceivableStatus::Open
                &&& y.application.id == application_id
                &&& y.application.reversed
            }
            &&& reversed_again == Err::<FundsSettlement, AppError>(
                AppError::DepositApplicationAlreadyReversed,
            )
        },
{
    let x = applied->Ok_0;
    if status == ReceivableStatus::Open || status == ReceivableStatus::Settled {
        lemma_round_trip_amounts(
            deposit,
            receivable,
            amount,
            SettlementTransitionType::DepositApplied,
            application_id,
            x,
            Receivable { status, ..x.receivable },
            SettlementTransitionType::DepositApplicationReversed,
            reversed,
        );
    }
}

} // verus!
