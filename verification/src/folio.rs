//! Folios: the running accounts of a reservation, and their entries.
use vstd::prelude::*;

use crate::error::AppError;
use crate::money::{
    checked_add_amounts, checked_sub_amounts, decimal_checked_add, decimal_checked_sub,
    exact_add, exact_neg, fits_mantissa, lemma_checked_difference_is_exact,
    lemma_checked_sum_is_exact, lemma_pow10_positive, negate_amount, pow10, represents, Money,
};
use crate::reservation::ReservationStatus;

verus! {

/// Where a folio stands.
#[derive(Clone, Copy, Debug, PartialEq, Eq, Structural)]
pub enum FolioStatus {
    Open,
    Locked,
    Closed,
}

/// A folio.
#[derive(Clone, Copy, Debug)]
pub struct Folio {
    pub id: u128,
    pub reservation_id: u128,
    pub billing_account_id: Option<u128>,
    pub status: FolioStatus,
}

/// The kinds of folio entries.
#[derive(Clone, Copy, Debug, PartialEq, Eq, Structural)]
pub enum FolioEntryType {
    RoomCharge,
    TaxCharge,
    RateCorrection,
    TaxCorrection,
    ManualAdjustment,
    TransferIn,
    InvoiceIssued,
    RefundApplied,
    DepositReceived,
    PaymentApplied,
    TransferOut,
    Writeoff,
    InvoiceVoided,
}

/// One line of a folio.
#[derive(Clone, Copy, Debug)]
pub struct FolioEntry {
    pub id: u128,
    pub folio_id: u128,
    pub entry_type: FolioEntryType,
    pub amount: Money,
}

/// The totals of a folio: charges, payments and the balance still owed.
#[derive(Clone, Copy, Debug)]
pub struct FolioTotals {
    pub total_charges: Money,
    pub total_payments: Money,
    pub balance: Money,
}

/// Closing a folio: an open or locked folio becomes closed; a closed one is refused.
pub fn close_folio(folio: Option<Folio>) -> (r: Result<Folio, AppError>)
    ensures
        match folio {
            None => r == Err::<Folio, AppError>(AppError::FolioNotFound),
            Some(f) => if f.status == FolioStatus::Closed {
                r == Err::<Folio, AppError>(AppError::FolioAlreadyClosed)
            } else {
                r == Ok::<Folio, AppError>(Folio { status: FolioStatus::Closed, ..f })
            },
        },
{
    let f = match folio {
        Some(f) => f,
        None => {
            return Err(AppError::FolioNotFound);
        },
    };
    match f.status {
        FolioStatus::Open | FolioStatus::Locked => Ok(Folio { status: FolioStatus::Closed, ..f }),
        FolioStatus::Closed => Err(AppError::FolioAlreadyClosed),
    }
}

/// Making a billing account responsible for an open folio.
pub fn assign_billing_account(
    folio: Option<Folio>,
    billing_account_id: u128,
    billing_account_found: bool,
) -> (r: Result<Folio, AppError>)
    ensures
        match folio {
            None => r == Err::<Folio, AppError>(AppError::FolioNotFound),
            Some(f) => if f.status != FolioStatus::Open {
                r == Err::<Folio, AppError>(AppError::FolioNotOpenForBillingAccount)
            } else if !billing_account_found {
                r == Err::<Folio, AppError>(AppError::BillingAccountNotFound)
            } else {
                r == Ok::<Folio, AppError>(
                    Folio { billing_account_id: Some(billing_account_id), ..f },
                )
            },
        },
{
    let f = match folio {
        Some(f) => f,
        None => {
            return Err(AppError::FolioNotFound);
        },
    };
    if f.status != FolioStatus::Open {
        return Err(AppError::FolioNotOpenForBillingAccount);
    }
    if !billing_account_found {
        return Err(AppError::BillingAccountNotFound);
    }
    Ok(Folio { billing_account_id: Some(billing_account_id), ..f })
}

/// The check before posting an entry: the folio exists and is open.
pub fn check_entry_posting(folio: Option<Folio>) -> (r: Result<(), AppError>)
    ensures
        match folio {
            None => r == Err::<(), AppError>(AppError::FolioNotFound),
            Some(f) => if f.status != FolioStatus::Open {
                r == Err::<(), AppError>(AppError::FolioNotOpen)
            } else {
                r is Ok
            },
        },
{
    match folio {
        None => Err(AppError::FolioNotFound),
        Some(f) => if f.status != FolioStatus::Open {
            Err(AppError::FolioNotOpen)
        } else {
            Ok(())
        },
    }
}

/// The check before receiving a payment: the folio exists and is open.
pub fn check_payment_receipt(folio: Option<Folio>) -> (r: Result<(), AppError>)
    ensures
        match folio {
            None => r == Err::<(), AppError>(AppError::FolioNotFound),
            Some(f) => if f.status != FolioStatus::Open {
                r == Err::<(), AppError>(AppError::PaymentRequiresOpenFolio)
            } else {
                r is Ok
            },
        },
{
    match folio {
        None => Err(AppError::FolioNotFound),
        Some(f) => if f.status != FolioStatus::Open {
            Err(AppError::PaymentRequiresOpenFolio)
        } else {
            Ok(())
        },
    }
}

/// A folio that still takes entries: open or locked.
pub open spec fn is_active_folio(f: Folio) -> bool {
    f.status == FolioStatus::Open || f.status == FolioStatus::Locked
}

/// The folio `open_reservation_folio` opens for a reservation with the given status and
/// folios, or why it refuses: the reservation must be confirmed or a no-show, and none of its
/// folios may be active.  The new folio is open, with no billing account.
pub open spec fn opened_folio(
    reservation_id: u128,
    reservation_status: Option<ReservationStatus>,
    existing: Seq<Folio>,
    new_folio_id: u128,
) -> Result<Folio, AppError> {
    match reservation_status {
        None => Err(AppError::ReservationNotFound),
        Some(st) => if st != ReservationStatus::Confirmed && st != ReservationStatus::NoShow {
            Err(AppError::InactiveReservationFolio)
        } else if exists|i: int| 0 <= i < existing.len() && is_active_folio(#[trigger] existing[i]) {
            Err(AppError::ActiveFolioExists)
        } else {
            Ok(
                Folio {
                    id: new_folio_id,
                    reservation_id,
                    billing_account_id: None,
                    status: FolioStatus::Open,
                },
            )
        },
    }
}

/// Opening a folio for a reservation: the reservation must be confirmed or a no-show, and
/// none of its folios may be active.  The new folio is open, with no billing account.
pub fn open_reservation_folio(
    reservation_id: u128,
    reservation_status: Option<ReservationStatus>,
    existing_folios: &Vec<Folio>,
    new_folio_id: u128,
) -> (r: Result<Folio, AppError>)
    ensures
        r == opened_folio(reservation_id, reservation_status, existing_folios@, new_folio_id),
{
    let st = match reservation_status {
        Some(st) => st,
        None => {
            return Err(AppError::ReservationNotFound);
        },
    };
    if st != ReservationStatus::Confirmed && st != ReservationStatus::NoShow {
        return Err(AppError::InactiveReservationFolio);
    }
    let mut i: usize = 0;
    while i < existing_folios.len()
        invariant
            i <= existing_folios@.len(),
            reservation_status == Some(st),
            st == ReservationStatus::Confirmed || st == ReservationStatus::NoShow,
            forall|j: int| 0 <= j < i ==> !is_active_folio(#[trigger] existing_folios@[j]),
        decreases existing_folios@.len() - i,
    {
        let f = existing_folios[i];
        if f.status == FolioStatus::Open || f.status == FolioStatus::Locked {
            assert(is_active_folio(existing_folios@[i as int]));
            return Err(AppError::ActiveFolioExists);
        }
        i = i + 1;
    }
    Ok(
        Folio {
            id: new_folio_id,
            reservation_id,
            billing_account_id: None,
            status: FolioStatus::Open,
        },
    )
}

/// No reservation has two active folios among `folios`.
pub open spec fn at_most_one_active_per_reservation(folios: Seq<Folio>) -> bool {
    forall|i: int, j: int|
        0 <= i < folios.len() && 0 <= j < folios.len() && is_active_folio(#[trigger] folios[i])
            && is_active_folio(#[trigger] folios[j]) && folios[i].reservation_id
            == folios[j].reservation_id ==> i == j
}

/// Opening a folio keeps every reservation at most one active folio: where the folios kept
/// (`all`) have at most one active folio per reservation, and `existing` lists the folios of
/// the reservation, the folio that `open_reservation_folio` opens, added to them, leaves at
/// most one active folio per reservation, and it is the reservation's only active one.
pub proof fn lemma_opening_keeps_one_active_folio(
    all: Seq<Folio>,
    existing: Seq<Folio>,
    reservation_id: u128,
    reservation_status: Option<ReservationStatus>,
    new_folio_id: u128,
)
    requires
        at_most_one_active_per_reservation(all),
        forall|i: int|
            0 <= i < all.len() && (#[trigger] all[i]).reservation_id == reservation_id ==> existing.contains(all[i]),
        opened_folio(reservation_id, reservation_status, existing, new_folio_id) is Ok,
    ensures
        ({
            let f = opened_folio(reservation_id, reservation_status, existing, new_folio_id)->Ok_0;
            let after = all.push(f);
            &&& at_most_one_active_per_reservation(after)
            &&& is_active_folio(f)
            &&& f.reservation_id == reservation_id
            &&& forall|i: int|
                0 <= i < after.len() && is_active_folio(#[trigger] after[i])
                    && after[i].reservation_id == reservation_id ==> i == all.len()
        }),
{
    let f = opened_folio(reservation_id, reservation_status, existing, new_folio_id)->Ok_0;
    let after = all.push(f);
    assert forall|i: int|
        0 <= i < after.len() && is_active_folio(#[trigger] after[i]) && after[i].reservation_id
            == reservation_id implies i == all.len() by {
        if i < all.len() {
            assert(after[i] == all[i]);
            assert(existing.contains(all[i]));
            let k = choose|k: int| 0 <= k < existing.len() && existing[k] == all[i];
            assert(is_active_folio(existing[k]));
        }
    }
    assert forall|i: int, j: int|
        0 <= i < after.len() && 0 <= j < after.len() && is_active_folio(#[trigger] after[i])
            && is_active_folio(#[trigger] after[j]) && after[i].reservation_id
            == after[j].reservation_id implies i == j by {
        if i < all.len() && j < all.len() {
            assert(after[i] == all[i] && after[j] == all[j]);
        } else if i < all.len() {
            assert(after[i] == all[i]);
            assert(after[i].reservation_id == reservation_id);
        } else if j < all.len() {
            assert(after[j] == all[j]);
            assert(after[j].reservation_id == reservation_id);
        }
    }
}

/// Entry types that add to what the guest owes.
pub open spec fn is_charge_type(t: FolioEntryType) -> bool {
    match t {
        FolioEntryType::RoomCharge | FolioEntryType::TaxCharge | FolioEntryType::RateCorrection
        | FolioEntryType::TaxCorrection | FolioEntryType::ManualAdjustment
        | FolioEntryType::TransferIn | FolioEntryType::InvoiceIssued
        | FolioEntryType::RefundApplied => true,
        _ => false,
    }
}

/// The mantissa of an entry's effect on the balance (its scale is the entry amount's).
pub open spec fn signed_mantissa(e: FolioEntry) -> int {
    if is_charge_type(e.entry_type) {
        e.amount.mantissa_of() as int
    } else {
        -e.amount.mantissa_of()
    }
}

/// An entry's effect on the balance: charges count as they are, payments and credits negated.
pub fn signed_balance_amount(entry: &FolioEntry) -> (r: Money)
    ensures
        r.mantissa_of() == signed_mantissa(*entry),
        r.scale_of() == entry.amount.scale_of(),
{
    match entry.entry_type {
        FolioEntryType::RoomCharge | FolioEntryType::TaxCharge | FolioEntryType::RateCorrection
        | FolioEntryType::TaxCorrection | FolioEntryType::ManualAdjustment
        | FolioEntryType::TransferIn | FolioEntryType::InvoiceIssued
        | FolioEntryType::RefundApplied => entry.amount,
        FolioEntryType::DepositReceived | FolioEntryType::PaymentApplied
        | FolioEntryType::TransferOut | FolioEntryType::Writeoff
        | FolioEntryType::InvoiceVoided => negate_amount(entry.amount),
    }
}

/// The running totals (charges, payments) after the given entries, each as the mantissa and
/// scale `rust_decimal` produces; `None` where a sum leaves its range.
///
/// An entry with a non-negative effect adds its effect to the charges; an entry with a
/// negative effect adds the negation of its effect to the payments.
pub open spec fn running_totals(entries: Seq<FolioEntry>) -> Option<((i128, u32), (i128, u32))>
    decreases entries.len(),
{
    if entries.len() == 0 {
        Some(((0i128, 0u32), (0i128, 0u32)))
    } else {
        match running_totals(entries.drop_last()) {
            None => None,
            Some((c, p)) => {
                let e = entries.last();
                let m = signed_mantissa(e);
                if m >= 0 {
                    match decimal_checked_add(c.0, c.1, m as i128, e.amount.scale_of()) {
                        Some(c2) => Some((c2, p)),
                        None => None,
                    }
                } else {
                    match decimal_checked_add(p.0, p.1, (-m) as i128, e.amount.scale_of()) {
                        Some(p2) => Some((c, p2)),
                        None => None,
                    }
                }
            },
        }
    }
}

/// Once a running total leaves the range, the totals of every longer list do too.
proof fn lemma_overflow_persists(s: Seq<FolioEntry>, k: int)
    requires
        0 <= k <= s.len(),
        running_totals(s.take(k)) is None,
    ensures
        running_totals(s) is None,
    decreases s.len() - k,
{
    if k < s.len() {
        assert(s.take(k + 1).drop_last() =~= s.take(k));
        lemma_overflow_persists(s, k + 1);
    } else {
        assert(s.take(k) =~= s);
    }
}

/// The exact charges and payments after the given entries: the effect of each entry, at its
/// own scale, added exactly to the charges where it is not negative and, negated, to the
/// payments where it is.
pub open spec fn exact_totals(entries: Seq<FolioEntry>) -> ((int, nat), (int, nat))
    decreases entries.len(),
{
    if entries.len() == 0 {
        ((0, 0), (0, 0))
    } else {
        let (c, p) = exact_totals(entries.drop_last());
        let e = entries.last();
        let m = signed_mantissa(e);
        let sc = e.amount.scale_of() as nat;
        if m >= 0 {
            (exact_add(c, (m, sc)), p)
        } else {
            (c, exact_add(p, (-m, sc)))
        }
    }
}

/// Charges and payments are never negative: charges only take entries whose effect is not
/// negative, and payments take the others negated.
pub proof fn lemma_exact_totals_not_negative(entries: Seq<FolioEntry>)
    ensures
        exact_totals(entries).0.0 >= 0,
        exact_totals(entries).1.0 >= 0,
    decreases entries.len(),
{
    if entries.len() > 0 {
        lemma_exact_totals_not_negative(entries.drop_last());
        let (c, p) = exact_totals(entries.drop_last());
        let e = entries.last();
        let m = signed_mantissa(e);
        let sc = e.amount.scale_of() as nat;
        let x = if m >= 0 { c } else { p };
        let y: (int, nat) = if m >= 0 { (m, sc) } else { (-m, sc) };
        let big = if x.1 >= y.1 { x.1 } else { y.1 };
        lemma_pow10_positive((big - x.1) as nat);
        lemma_pow10_positive((big - y.1) as nat);
        let px = pow10((big - x.1) as nat);
        let py = pow10((big - y.1) as nat);
        assert(x.0 * px + y.0 * py >= 0) by (nonlinear_arith)
            requires
                x.0 >= 0,
                y.0 >= 0,
                px >= 1,
                py >= 1,
        ;
    }
}

/// The exact balance: charges minus payments.
pub open spec fn exact_balance(entries: Seq<FolioEntry>) -> (int, nat) {
    exact_add(exact_totals(entries).0, exact_neg(exact_totals(entries).1))
}

/// None of the sums the totals go through needs more than 96 bits, so `rust_decimal` computes
/// each of them exactly.
pub open spec fn totals_fit(entries: Seq<FolioEntry>) -> bool {
    &&& forall|k: int|
        0 <= k <= entries.len() ==> fits_mantissa(#[trigger] exact_totals(entries.take(k)).0.0)
            && fits_mantissa(exact_totals(entries.take(k)).1.0)
    &&& fits_mantissa(exact_balance(entries).0)
}

/// The totals of a folio.  Where a sum leaves `rust_decimal`'s range, its `+` and `-` panic;
/// this function reports `AdditionOverflowed` or `SubtractionOverflowed` instead.  Where no sum needs more than 96
/// bits, the charges are the exact sum of the charges, the payments that of the payments and
/// credits, and the balance the exact difference.
pub fn folio_totals(entries: &Vec<FolioEntry>) -> (r: Result<FolioTotals, AppError>)
    ensures
        match running_totals(entries@) {
            None => r == Err::<FolioTotals, AppError>(AppError::AdditionOverflowed),
            Some((c, p)) => match decimal_checked_sub(c.0, c.1, p.0, p.1) {
                None => r == Err::<FolioTotals, AppError>(AppError::SubtractionOverflowed),
                Some(b) => r matches Ok(t) && t.total_charges.mantissa_of() == c.0
                    && t.total_charges.scale_of() == c.1 && t.total_payments.mantissa_of() == p.0
                    && t.total_payments.scale_of() == p.1 && t.balance.mantissa_of() == b.0
                    && t.balance.scale_of() == b.1,
            },
        },
        totals_fit(entries@) ==> (r matches Ok(t) && represents(
            t.total_charges,
            exact_totals(entries@).0,
        ) && represents(t.total_payments, exact_totals(entries@).1) && represents(
            t.balance,
            exact_balance(entries@),
        )),
{
    let mut charges = Money::zero();
    let mut payments = Money::zero();
    let mut i: usize = 0;
    assert(entries@.take(0) =~= Seq::<FolioEntry>::empty());
    assert(pow10(0) == 1);
    while i < entries.len()
        invariant
            i <= entries@.len(),
            running_totals(entries@.take(i as int)) == Some(
                (
                    (charges.mantissa_of(), charges.scale_of()),
                    (payments.mantissa_of(), payments.scale_of()),
                ),
            ),
            totals_fit(entries@) ==> represents(charges, exact_totals(entries@.take(i as int)).0)
                && represents(payments, exact_totals(entries@.take(i as int)).1),
        decreases entries@.len() - i,
    {
        let entry = &entries[i];
        let signed = signed_balance_amount(entry);
        assert(entries@.take(i + 1).drop_last() =~= entries@.take(i as int));
        assert(entries@.take(i + 1).last() == entries@[i as int]);
        let ghost next = exact_totals(entries@.take(i + 1));
        if signed.mantissa() >= 0 {
            let sum = checked_add_amounts(charges, signed);
            proof {
                if totals_fit(entries@) {
                    assert(fits_mantissa(next.0.0));
                    lemma_checked_sum_is_exact(
                        charges,
                        exact_totals(entries@.take(i as int)).0,
                        signed,
                        sum,
                    );
                }
            }
            match sum {
                Some(c) => {
                    charges = c;
                },
                None => {
                    proof {
                        lemma_overflow_persists(entries@, i + 1);
                    }
                    return Err(AppError::AdditionOverflowed);
                },
            }
        } else {
            let credit = negate_amount(signed);
            let sum = checked_add_amounts(payments, credit);
            proof {
                if totals_fit(entries@) {
                    assert(fits_mantissa(exact_totals(entries@.take(i + 1)).0.0));
                    assert(fits_mantissa(next.1.0));
                    lemma_checked_sum_is_exact(
                        payments,
                        exact_totals(entries@.take(i as int)).1,
                        credit,
                        sum,
                    );
                }
            }
            match sum {
                Some(p) => {
                    payments = p;
                },
                None => {
                    proof {
                        lemma_overflow_persists(entries@, i + 1);
                    }
                    return Err(AppError::AdditionOverflowed);
                },
            }
        }
        i = i + 1;
    }
    assert(entries@.take(entries@.len() as int) =~= entries@);
    let difference = checked_sub_amounts(charges, payments);
    proof {
        if totals_fit(entries@) {
            lemma_checked_difference_is_exact(
                charges,
                exact_totals(entries@).0,
                payments,
                exact_totals(entries@).1,
                difference,
            );
        }
    }
    match difference {
        Some(balance) => Ok(FolioTotals { total_charges: charges, total_payments: payments, balance }),
        None => Err(AppError::SubtractionOverflowed),
    }
}

/// The effect of each kind of entry on the balance: the charges (room, tax, rate and tax
/// corrections, manual adjustments, transfers in, issued invoices, applied refunds) count as
/// they are; the credits (deposits received, payments applied, transfers out, write-offs,
/// voided invoices) count negated.
pub proof fn lemma_entry_effect_by_kind(e: FolioEntry)
    ensures
        e.entry_type == FolioEntryType::RoomCharge || e.entry_type == FolioEntryType::TaxCharge
            || e.entry_type == FolioEntryType::RateCorrection || e.entry_type
            == FolioEntryType::TaxCorrection || e.entry_type == FolioEntryType::ManualAdjustment
            || e.entry_type == FolioEntryType::TransferIn || e.entry_type
            == FolioEntryType::InvoiceIssued || e.entry_type == FolioEntryType::RefundApplied
            ==> signed_mantissa(e) == e.amount.mantissa_of(),
        e.entry_type == FolioEntryType::DepositReceived || e.entry_type
            == FolioEntryType::PaymentApplied || e.entry_type == FolioEntryType::TransferOut
            || e.entry_type == FolioEntryType::Writeoff || e.entry_type
            == FolioEntryType::InvoiceVoided ==> signed_mantissa(e) == -e.amount.mantissa_of(),
{
}

/// A credit entry (deposit received, payment applied, transfer out, write-off, voided
/// invoice) with a positive amount adds that amount to the payments and leaves the charges as
/// they were; a charge entry with an amount that is not negative adds it to the charges and
/// leaves the payments.
pub proof fn lemma_entry_goes_to_its_total(entries: Seq<FolioEntry>, e: FolioEntry)
    ensures
        (e.entry_type == FolioEntryType::DepositReceived || e.entry_type
            == FolioEntryType::PaymentApplied || e.entry_type == FolioEntryType::TransferOut
            || e.entry_type == FolioEntryType::Writeoff || e.entry_type
            == FolioEntryType::InvoiceVoided) && e.amount.mantissa_of() > 0 ==> {
            &&& exact_totals(entries.push(e)).0 == exact_totals(entries).0
            &&& exact_totals(entries.push(e)).1 == exact_add(
                exact_totals(entries).1,
                (e.amount.mantissa_of() as int, e.amount.scale_of() as nat),
            )
        },
        (e.entry_type == FolioEntryType::RoomCharge || e.entry_type == FolioEntryType::TaxCharge
            || e.entry_type == FolioEntryType::RateCorrection || e.entry_type
            == FolioEntryType::TaxCorrection || e.entry_type == FolioEntryType::ManualAdjustment
            || e.entry_type == FolioEntryType::TransferIn || e.entry_type
            == FolioEntryType::InvoiceIssued || e.entry_type == FolioEntryType::RefundApplied)
            && e.amount.mantissa_of() >= 0 ==> {
            &&& exact_totals(entries.push(e)).1 == exact_totals(entries).1
            &&& exact_totals(entries.push(e)).0 == exact_add(
                exact_totals(entries).0,
                (e.amount.mantissa_of() as int, e.amount.scale_of() as nat),
            )
        },
{
    assert(entries.push(e).drop_last() =~= entries);
    assert(entries.push(e).last() == e);
    lemma_entry_effect_by_kind(e);
}

} // verus!
