use backend::date::Date;
use backend::error::AppError;
use backend::folio::{
    assign_billing_account, check_entry_posting, check_payment_receipt, close_folio,
    folio_totals, open_reservation_folio, signed_balance_amount, Folio, FolioEntry,
    FolioEntryType, FolioStatus,
};
use backend::invoice::{
    issue_invoice, void_invoice, Invoice, InvoiceIssueContext, InvoiceStatus,
};
use backend::money::{Money, MAX_MANTISSA};
use backend::reservation::ReservationStatus;
use backend::settlement::{FundsApplication, Receivable, ReceivableStatus, SettlementTransitionType};

fn m(mantissa: i128, scale: u32) -> Money {
    Money::new(mantissa, scale).unwrap()
}

fn parts(x: Money) -> (i128, u32) {
    (x.mantissa(), x.scale())
}

fn folio(status: FolioStatus, billing: Option<u128>) -> Folio {
    Folio { id: 11, reservation_id: 22, billing_account_id: billing, status }
}

fn entry(entry_type: FolioEntryType, amount: Money) -> FolioEntry {
    FolioEntry { id: 1, folio_id: 11, entry_type, amount }
}

#[test]
fn closing_a_folio() {
    assert_eq!(close_folio(None).unwrap_err(), AppError::FolioNotFound);
    let closed = close_folio(Some(folio(FolioStatus::Open, None))).unwrap();
    assert_eq!(closed.status, FolioStatus::Closed);
    assert_eq!(closed.id, 11);
    assert_eq!(close_folio(Some(folio(FolioStatus::Locked, None))).unwrap().status, FolioStatus::Closed);
    assert_eq!(
        close_folio(Some(folio(FolioStatus::Closed, None))).unwrap_err(),
        AppError::FolioAlreadyClosed
    );
}

#[test]
fn assigning_a_billing_account() {
    assert_eq!(assign_billing_account(None, 5, true).unwrap_err(), AppError::FolioNotFound);
    assert_eq!(
        assign_billing_account(Some(folio(FolioStatus::Locked, None)), 5, true).unwrap_err(),
        AppError::FolioNotOpenForBillingAccount
    );
    assert_eq!(
        assign_billing_account(Some(folio(FolioStatus::Open, None)), 5, false).unwrap_err(),
        AppError::BillingAccountNotFound
    );
    let f = assign_billing_account(Some(folio(FolioStatus::Open, Some(4))), 5, true).unwrap();
    assert_eq!(f.billing_account_id, Some(5));
    assert_eq!(f.status, FolioStatus::Open);
}

#[test]
fn postings_and_payments_need_an_open_folio() {
    assert_eq!(check_entry_posting(None).unwrap_err(), AppError::FolioNotFound);
    assert_eq!(
        check_entry_posting(Some(folio(FolioStatus::Closed, None))).unwrap_err(),
        AppError::FolioNotOpen
    );
    assert!(check_entry_posting(Some(folio(FolioStatus::Open, None))).is_ok());
    assert_eq!(check_payment_receipt(None).unwrap_err(), AppError::FolioNotFound);
    assert_eq!(
        check_payment_receipt(Some(folio(FolioStatus::Locked, None))).unwrap_err(),
        AppError::PaymentRequiresOpenFolio
    );
    assert!(check_payment_receipt(Some(folio(FolioStatus::Open, None))).is_ok());
}

#[test]
fn opening_a_reservation_folio() {
    let none: Vec<Folio> = vec![];
    assert_eq!(
        open_reservation_folio(22, None, &none, 9).unwrap_err(),
        AppError::ReservationNotFound
    );
    assert_eq!(
        open_reservation_folio(22, Some(ReservationStatus::Cancelled), &none, 9).unwrap_err(),
        AppError::InactiveReservationFolio
    );
    let with_active = vec![folio(FolioStatus::Closed, None), folio(FolioStatus::Locked, None)];
    assert_eq!(
        open_reservation_folio(22, Some(ReservationStatus::Confirmed), &with_active, 9)
            .unwrap_err(),
        AppError::ActiveFolioExists
    );
    let only_closed = vec![folio(FolioStatus::Closed, None)];
    let f = open_reservation_folio(22, Some(ReservationStatus::NoShow), &only_closed, 9).unwrap();
    assert_eq!(f.id, 9);
    assert_eq!(f.reservation_id, 22);
    assert_eq!(f.billing_account_id, None);
    assert_eq!(f.status, FolioStatus::Open);
}

#[test]
fn entry_signs() {
    assert_eq!(parts(signed_balance_amount(&entry(FolioEntryType::RoomCharge, m(1000, 2)))), (1000, 2));
    assert_eq!(parts(signed_balance_amount(&entry(FolioEntryType::RefundApplied, m(5, 0)))), (5, 0));
    assert_eq!(
        parts(signed_balance_amount(&entry(FolioEntryType::PaymentApplied, m(1000, 2)))),
        (-1000, 2)
    );
    assert_eq!(parts(signed_balance_amount(&entry(FolioEntryType::InvoiceVoided, m(3, 1)))), (-3, 1));
    assert_eq!(
        parts(signed_balance_amount(&entry(FolioEntryType::ManualAdjustment, m(-250, 2)))),
        (-250, 2)
    );
}

#[test]
fn totals_of_a_folio() {
    let entries = vec![
        entry(FolioEntryType::RoomCharge, m(10000, 2)),
        entry(FolioEntryType::TaxCharge, m(1000, 2)),
        entry(FolioEntryType::PaymentApplied, m(50, 0)),
        entry(FolioEntryType::ManualAdjustment, m(-5, 0)),
    ];
    let t = folio_totals(&entries).unwrap();
    assert_eq!(parts(t.total_charges), (11000, 2));
    assert_eq!(parts(t.total_payments), (55, 0));
    assert_eq!(parts(t.balance), (5500, 2));
    let empty: Vec<FolioEntry> = vec![];
    let t = folio_totals(&empty).unwrap();
    assert_eq!(t.balance.mantissa(), 0);
}

#[test]
fn totals_that_leave_the_range() {
    let entries = vec![
        entry(FolioEntryType::RoomCharge, m(MAX_MANTISSA, 0)),
        entry(FolioEntryType::RoomCharge, m(1, 0)),
    ];
    assert_eq!(folio_totals(&entries).unwrap_err(), AppError::AdditionOverflowed);
}

fn ctx(f: Option<Folio>) -> InvoiceIssueContext {
    InvoiceIssueContext {
        folio: f,
        billing_account_found: true,
        folio_already_invoiced: false,
        invoice_number_taken: false,
    }
}

fn due() -> Date {
    Date::from_day_number(739000).unwrap()
}

#[test]
fn issuing_an_invoice() {
    let closed = Some(folio(FolioStatus::Closed, Some(5)));
    let issued =
        issue_invoice(ctx(closed), "INV-1".to_string(), m(12000, 2), due(), 100, 200).unwrap();
    assert_eq!(issued.invoice.id, 100);
    assert_eq!(issued.invoice.folio_id, 11);
    assert_eq!(issued.invoice.billing_account_id, 5);
    assert_eq!(issued.invoice.invoice_number, "INV-1");
    assert_eq!(parts(issued.invoice.issued_amount), (12000, 2));
    assert_eq!(issued.invoice.due_date, due());
    assert_eq!(issued.invoice.status, InvoiceStatus::Issued);
    assert_eq!(issued.receivable.id, 200);
    assert_eq!(issued.receivable.invoice_id, 100);
    assert_eq!(issued.receivable.status, ReceivableStatus::Open);
    assert_eq!(parts(issued.receivable.outstanding_amount), (12000, 2));
    assert_eq!(
        issued.transitions,
        vec![SettlementTransitionType::InvoiceIssued, SettlementTransitionType::ReceivableOpened]
    );
}

#[test]
fn invoice_refusals_in_order() {
    let closed = Some(folio(FolioStatus::Closed, Some(5)));
    let issue = |c: InvoiceIssueContext, number: &str, amount: Money| {
        issue_invoice(c, number.to_string(), amount, due(), 100, 200).unwrap_err()
    };
    assert_eq!(issue(ctx(None), "X", m(1, 0)), AppError::FolioNotFound);
    assert_eq!(
        issue(ctx(Some(folio(FolioStatus::Open, Some(5)))), "X", m(1, 0)),
        AppError::InvoiceRequiresClosedFolio
    );
    assert_eq!(
        issue(ctx(Some(folio(FolioStatus::Closed, None))), "X", m(1, 0)),
        AppError::BillingAccountNotAssigned
    );
    let mut c = ctx(closed);
    c.billing_account_found = false;
    assert_eq!(issue(c, "X", m(1, 0)), AppError::BillingAccountNotFound);
    assert_eq!(issue(ctx(closed), " \t ", m(1, 0)), AppError::InvoiceNumberEmpty);
    assert_eq!(issue(ctx(closed), "X", m(0, 2)), AppError::IssuedAmountNotPositive);
    let mut c = ctx(closed);
    c.folio_already_invoiced = true;
    c.invoice_number_taken = true;
    assert_eq!(issue(c, "X", m(1, 0)), AppError::InvoiceAlreadyExistsForFolio);
    let mut c = ctx(closed);
    c.invoice_number_taken = true;
    assert_eq!(issue(c, "X", m(1, 0)), AppError::InvoiceNumberExists);
}

fn invoice(status: InvoiceStatus) -> Invoice {
    Invoice {
        id: 100,
        folio_id: 11,
        billing_account_id: 5,
        invoice_number: "INV-1".to_string(),
        issued_amount: m(120, 0),
        due_date: due(),
        status,
    }
}

fn receivable(status: ReceivableStatus) -> Receivable {
    Receivable { id: 200, invoice_id: 100, status, outstanding_amount: m(120, 0) }
}

fn allocation(reversed: bool) -> FundsApplication {
    FundsApplication { id: 1, source_id: 2, receivable_id: 200, amount: m(10, 0), reversed }
}

#[test]
fn voiding_an_invoice() {
    let reversed_only = vec![allocation(true)];
    let v = void_invoice(
        Some(invoice(InvoiceStatus::Issued)),
        Some(receivable(ReceivableStatus::Disputed)),
        &reversed_only,
    )
    .unwrap();
    assert_eq!(v.invoice.status, InvoiceStatus::Voided);
    assert_eq!(v.invoice.invoice_number, "INV-1");
    assert_eq!(v.receivable.status, ReceivableStatus::Voided);
    assert_eq!(parts(v.receivable.outstanding_amount), (120, 0));
    assert_eq!(
        v.transitions,
        vec![SettlementTransitionType::InvoiceVoided, SettlementTransitionType::ReceivableVoided]
    );
}

#[test]
fn void_refusals_in_order() {
    let none: Vec<FundsApplication> = vec![];
    let active = vec![allocation(true), allocation(false)];
    let open = Some(receivable(ReceivableStatus::Open));
    assert_eq!(void_invoice(None, open, &none).unwrap_err(), AppError::InvoiceNotFound);
    assert_eq!(
        void_invoice(Some(invoice(InvoiceStatus::Voided)), open, &none).unwrap_err(),
        AppError::OnlyIssuedInvoicesVoidable
    );
    assert_eq!(
        void_invoice(Some(invoice(InvoiceStatus::Issued)), None, &none).unwrap_err(),
        AppError::ReceivableNotFound
    );
    assert_eq!(
        void_invoice(
            Some(invoice(InvoiceStatus::Issued)),
            Some(receivable(ReceivableStatus::Settled)),
            &none
        )
        .unwrap_err(),
        AppError::ReceivableCannotBeVoided
    );
    assert_eq!(
        void_invoice(Some(invoice(InvoiceStatus::Issued)), open, &active).unwrap_err(),
        AppError::InvoiceHasActiveAllocations
    );
}

#[test]
fn totals_are_exact_across_scales() {
    let entries = vec![
        entry(FolioEntryType::RoomCharge, m(1, 0)),
        entry(FolioEntryType::TaxCharge, m(5, 3)),
        entry(FolioEntryType::DepositReceived, m(25, 2)),
        entry(FolioEntryType::Writeoff, m(1, 1)),
        entry(FolioEntryType::RateCorrection, m(-3, 2)),
    ];
    let t = folio_totals(&entries).unwrap();
    // 1 + 0.005 = 1.005; 0.25 + 0.1 + 0.03 = 0.38; 1.005 - 0.38 = 0.625
    assert_eq!(parts(t.total_charges), (1005, 3));
    assert_eq!(parts(t.total_payments), (38, 2));
    assert_eq!(parts(t.balance), (625, 3));
}
