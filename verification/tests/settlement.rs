use backend::error::AppError;
use backend::money::Money;
use rust_decimal::Decimal;
use backend::settlement::{
    allocate_existing_payment, allocate_receivable_payment, apply_deposit_to_receivable,
    check_refund_request, dispute_receivable, reverse_deposit_application,
    reverse_payment_allocation, FundsApplication, FundsSource, Receivable, ReceivableStatus,
    amount_changed, changed_receivable_fields, reversal_changed_fields, ReceivableField,
    ReversalField,
    SettlementTransitionType,
};

fn m(mantissa: i128, scale: u32) -> Money {
    Money::new(mantissa, scale).unwrap()
}

fn receivable(status: ReceivableStatus, outstanding: Money) -> Receivable {
    Receivable { id: 7, invoice_id: 70, status, outstanding_amount: outstanding }
}

fn source(folio_id: u128, unapplied: Money) -> FundsSource {
    FundsSource { id: 3, folio_id, unapplied_amount: unapplied }
}

fn value(x: Money) -> Decimal {
    Decimal::from_i128_with_scale(x.mantissa(), x.scale())
}

fn parts(x: Money) -> (i128, u32) {
    (x.mantissa(), x.scale())
}

#[test]
fn new_payment_partially_settles_an_open_receivable() {
    let r = allocate_receivable_payment(
        m(4000, 2),
        Some(receivable(ReceivableStatus::Open, m(100, 0))),
        Some(1),
    )
    .unwrap();
    assert_eq!(parts(r.receivable.outstanding_amount), (6000, 2));
    assert_eq!(r.receivable.status, ReceivableStatus::Open);
    assert_eq!(r.receivable.id, 7);
    assert_eq!(r.receivable.invoice_id, 70);
    assert_eq!(r.transitions, vec![SettlementTransitionType::PaymentAllocated]);
}

#[test]
fn new_payment_of_the_whole_amount_settles_the_receivable() {
    let r = allocate_receivable_payment(
        m(10000, 2),
        Some(receivable(ReceivableStatus::Open, m(100, 0))),
        Some(1),
    )
    .unwrap();
    assert_eq!(r.receivable.outstanding_amount.mantissa(), 0);
    assert_eq!(r.receivable.status, ReceivableStatus::Settled);
    assert_eq!(
        r.transitions,
        vec![SettlementTransitionType::PaymentAllocated, SettlementTransitionType::ReceivableSettled]
    );
}

#[test]
fn new_payment_refusals_in_order() {
    let open = Some(receivable(ReceivableStatus::Open, m(100, 0)));
    assert_eq!(
        allocate_receivable_payment(m(0, 0), None, None).unwrap_err(),
        AppError::PaymentAmountNotPositive
    );
    assert_eq!(
        allocate_receivable_payment(m(-5, 0), open, Some(1)).unwrap_err(),
        AppError::PaymentAmountNotPositive
    );
    assert_eq!(
        allocate_receivable_payment(m(5, 0), None, Some(1)).unwrap_err(),
        AppError::ReceivableNotFound
    );
    assert_eq!(
        allocate_receivable_payment(
            m(5, 0),
            Some(receivable(ReceivableStatus::Disputed, m(100, 0))),
            Some(1)
        )
        .unwrap_err(),
        AppError::ReceivableNotOpen
    );
    assert_eq!(
        allocate_receivable_payment(m(10001, 2), open, Some(1)).unwrap_err(),
        AppError::PaymentExceedsOutstanding
    );
    assert_eq!(
        allocate_receivable_payment(m(5, 0), open, None).unwrap_err(),
        AppError::InvoiceNotFound
    );
}

#[test]
fn existing_payment_refusals_in_order() {
    let open = Some(receivable(ReceivableStatus::Open, m(100, 0)));
    let pay = Some(source(1, m(50, 0)));
    let cases = [
        (allocate_existing_payment(m(0, 0), pay, open, Some(1), 99), AppError::AllocationAmountNotPositive),
        (allocate_existing_payment(m(5, 0), None, open, Some(1), 99), AppError::PaymentNotFound),
        (allocate_existing_payment(m(5, 0), pay, None, Some(1), 99), AppError::ReceivableNotFound),
        (allocate_existing_payment(m(5, 0), pay, open, None, 99), AppError::InvoiceNotFound),
        (
            allocate_existing_payment(
                m(5, 0),
                pay,
                Some(receivable(ReceivableStatus::Settled, m(0, 0))),
                Some(1),
                99,
            ),
            AppError::ReceivableNotOpen,
        ),
        (allocate_existing_payment(m(5, 0), pay, open, Some(2), 99), AppError::PaymentFolioMismatch),
        (allocate_existing_payment(m(51, 0), pay, open, Some(1), 99), AppError::AllocationExceedsUnapplied),
        (
            allocate_existing_payment(
                m(40, 0),
                pay,
                Some(receivable(ReceivableStatus::Open, m(30, 0))),
                Some(1),
                99,
            ),
            AppError::AllocationExceedsOutstanding,
        ),
    ];
    for (result, expected) in cases {
        assert_eq!(result.unwrap_err(), expected);
    }
}

#[test]
fn existing_payment_allocation_lowers_the_outstanding_amount() {
    let r = allocate_existing_payment(
        m(255, 1),
        Some(source(1, m(50, 0))),
        Some(receivable(ReceivableStatus::Open, m(100, 0))),
        Some(1),
        99,
    )
    .unwrap();
    assert_eq!(parts(r.receivable.outstanding_amount), (745, 1));
    // What leaves the payment is what reaches the receivable.
    assert_eq!(parts(r.source.unapplied_amount), (245, 1));
    assert_eq!((r.source.id, r.source.folio_id), (3, 1));
    assert_eq!((r.application.id, r.application.source_id, r.application.receivable_id), (99, 3, 7));
    assert_eq!(parts(r.application.amount), (255, 1));
    assert!(!r.application.reversed);
    assert_eq!(r.transitions, vec![SettlementTransitionType::PaymentAllocated]);
}

#[test]
fn deposit_application_refusals_in_order() {
    let open = Some(receivable(ReceivableStatus::Open, m(100, 0)));
    let dep = Some(source(1, m(50, 0)));
    let cases = [
        (apply_deposit_to_receivable(m(-1, 0), dep, open, Some(1), 99), AppError::DepositApplicationAmountNotPositive),
        (apply_deposit_to_receivable(m(5, 0), None, open, Some(1), 99), AppError::DepositNotFound),
        (apply_deposit_to_receivable(m(5, 0), dep, None, Some(1), 99), AppError::ReceivableNotFound),
        (apply_deposit_to_receivable(m(5, 0), dep, open, None, 99), AppError::InvoiceNotFound),
        (
            apply_deposit_to_receivable(
                m(5, 0),
                dep,
                Some(receivable(ReceivableStatus::Voided, m(100, 0))),
                Some(1),
                99,
            ),
            AppError::ReceivableNotOpen,
        ),
        (apply_deposit_to_receivable(m(5, 0), dep, open, Some(9), 99), AppError::DepositFolioMismatch),
        (
            apply_deposit_to_receivable(m(60, 0), dep, open, Some(1), 99),
            AppError::DepositApplicationExceedsUnapplied,
        ),
        (
            apply_deposit_to_receivable(
                m(40, 0),
                dep,
                Some(receivable(ReceivableStatus::Open, m(30, 0))),
                Some(1),
                99,
            ),
            AppError::DepositApplicationExceedsOutstanding,
        ),
    ];
    for (result, expected) in cases {
        assert_eq!(result.unwrap_err(), expected);
    }
}

#[test]
fn deposit_application_can_settle() {
    let r = apply_deposit_to_receivable(
        m(30, 0),
        Some(source(1, m(50, 0))),
        Some(receivable(ReceivableStatus::Open, m(300, 1))),
        Some(1),
        98,
    )
    .unwrap();
    assert_eq!(r.receivable.status, ReceivableStatus::Settled);
    assert_eq!(parts(r.source.unapplied_amount), (20, 0));
    assert_eq!(r.application.id, 98);
    assert_eq!(
        r.transitions,
        vec![SettlementTransitionType::DepositApplied, SettlementTransitionType::ReceivableSettled]
    );
}

fn application(amount: Money, reversed: bool) -> FundsApplication {
    FundsApplication { id: 11, source_id: 3, receivable_id: 7, amount, reversed }
}

#[test]
fn reversing_a_payment_allocation_reopens_the_receivable() {
    let r = reverse_payment_allocation(
        Some(application(m(2550, 2), false)),
        Some(receivable(ReceivableStatus::Settled, m(0, 0))),
        Some(source(1, m(1, 0))),
    )
    .unwrap();
    assert_eq!(r.receivable.status, ReceivableStatus::Open);
    assert_eq!(parts(r.receivable.outstanding_amount), (2550, 2));
    assert_eq!(parts(r.source.unapplied_amount), (2650, 2));
    assert!(r.application.reversed);
    assert_eq!(r.application.id, 11);
    assert_eq!(r.transitions, vec![SettlementTransitionType::PaymentAllocationReversed]);
    // A voided receivable is reopened as well.
    let r = reverse_payment_allocation(
        Some(application(m(5, 0), false)),
        Some(receivable(ReceivableStatus::Voided, m(10, 0))),
        Some(source(1, m(0, 0))),
    )
    .unwrap();
    assert_eq!(r.receivable.status, ReceivableStatus::Open);
    assert_eq!(parts(r.receivable.outstanding_amount), (15, 0));
}

#[test]
fn reversing_a_payment_allocation_refusals() {
    let open = Some(receivable(ReceivableStatus::Open, m(10, 0)));
    let pay = Some(source(1, m(10, 0)));
    assert_eq!(
        reverse_payment_allocation(None, open, pay).unwrap_err(),
        AppError::PaymentAllocationNotFound
    );
    assert_eq!(
        reverse_payment_allocation(Some(application(m(1, 0), true)), open, pay).unwrap_err(),
        AppError::PaymentAllocationAlreadyReversed
    );
    assert_eq!(
        reverse_payment_allocation(Some(application(m(1, 0), false)), None, pay).unwrap_err(),
        AppError::ReceivableNotFound
    );
    assert_eq!(
        reverse_payment_allocation(Some(application(m(1, 0), false)), open, None).unwrap_err(),
        AppError::PaymentNotFound
    );
}

#[test]
fn reversing_a_deposit_application_refusals() {
    let app = Some(application(m(5, 0), false));
    let dep = Some(source(1, m(0, 0)));
    let rec = |s| Some(receivable(s, m(10, 0)));
    let cases = [
        (reverse_deposit_application(None, dep, rec(ReceivableStatus::Open), Some(1)), AppError::DepositApplicationNotFound),
        (
            reverse_deposit_application(Some(application(m(5, 0), true)), dep, rec(ReceivableStatus::Open), Some(1)),
            AppError::DepositApplicationAlreadyReversed,
        ),
        (reverse_deposit_application(app, None, rec(ReceivableStatus::Open), Some(1)), AppError::DepositNotFound),
        (reverse_deposit_application(app, dep, None, Some(1)), AppError::ReceivableNotFound),
        (reverse_deposit_application(app, dep, rec(ReceivableStatus::Open), None), AppError::InvoiceNotFound),
        (reverse_deposit_application(app, dep, rec(ReceivableStatus::Open), Some(2)), AppError::DepositFolioMismatch),
        (
            reverse_deposit_application(app, dep, rec(ReceivableStatus::Disputed), Some(1)),
            AppError::ReverseForDisputedReceivable,
        ),
        (
            reverse_deposit_application(app, dep, rec(ReceivableStatus::WrittenOff), Some(1)),
            AppError::ReverseForWrittenOffReceivable,
        ),
        (
            reverse_deposit_application(app, dep, rec(ReceivableStatus::Voided), Some(1)),
            AppError::ReverseForVoidedReceivable,
        ),
    ];
    for (result, expected) in cases {
        assert_eq!(result.unwrap_err(), expected);
    }
}

#[test]
fn reversing_a_deposit_application_on_a_settled_receivable() {
    let r = reverse_deposit_application(
        Some(application(m(5, 0), false)),
        Some(source(1, m(0, 0))),
        Some(receivable(ReceivableStatus::Settled, m(0, 0))),
        Some(1),
    )
    .unwrap();
    assert_eq!(r.receivable.status, ReceivableStatus::Open);
    assert_eq!(parts(r.receivable.outstanding_amount), (5, 0));
    assert_eq!(parts(r.source.unapplied_amount), (5, 0));
    assert!(r.application.reversed);
    assert_eq!(r.transitions, vec![SettlementTransitionType::DepositApplicationReversed]);
}

#[test]
fn application_then_reversal_restores_both_sides() {
    let cases = [(m(100, 0), m(2550, 2)), (m(7, 1), m(7, 1)), (m(999, 2), m(1, 0))];
    for (outstanding, amount) in cases {
        let unapplied = m(1000, 0);
        let applied = allocate_existing_payment(
            amount,
            Some(source(1, unapplied)),
            Some(receivable(ReceivableStatus::Open, outstanding)),
            Some(1),
            42,
        )
        .unwrap();
        let restored = reverse_payment_allocation(
            Some(applied.application),
            Some(applied.receivable),
            Some(applied.source),
        )
        .unwrap();
        assert_eq!(value(restored.receivable.outstanding_amount), value(outstanding));
        assert_eq!(value(restored.source.unapplied_amount), value(unapplied));
        assert_eq!(restored.receivable.status, ReceivableStatus::Open);
        assert!(restored.application.reversed);
        // A second reversal is refused.
        assert_eq!(
            reverse_payment_allocation(
                Some(restored.application),
                Some(restored.receivable),
                Some(restored.source),
            )
            .unwrap_err(),
            AppError::PaymentAllocationAlreadyReversed
        );
    }
}

#[test]
fn deposit_application_then_reversal_restores_both_sides() {
    let applied = apply_deposit_to_receivable(
        m(125, 1),
        Some(source(1, m(50, 0))),
        Some(receivable(ReceivableStatus::Open, m(20, 0))),
        Some(1),
        43,
    )
    .unwrap();
    let restored = reverse_deposit_application(
        Some(applied.application),
        Some(applied.source),
        Some(applied.receivable),
        Some(1),
    )
    .unwrap();
    assert_eq!(value(restored.source.unapplied_amount), value(m(50, 0)));
    assert_eq!(value(restored.receivable.outstanding_amount), value(m(20, 0)));
    assert_eq!(
        reverse_deposit_application(
            Some(restored.application),
            Some(restored.source),
            Some(restored.receivable),
            Some(1),
        )
        .unwrap_err(),
        AppError::DepositApplicationAlreadyReversed
    );
}

#[test]
fn changed_receivable_fields_are_listed_in_order() {
    let before = receivable(ReceivableStatus::Open, m(100, 0));
    let same_value = receivable(ReceivableStatus::Open, m(10000, 2));
    assert!(changed_receivable_fields(before, same_value).is_empty());
    let settled = receivable(ReceivableStatus::Settled, m(0, 0));
    assert_eq!(
        changed_receivable_fields(before, settled),
        vec![ReceivableField::OutstandingAmount, ReceivableField::Status]
    );
    let lowered = receivable(ReceivableStatus::Open, m(60, 0));
    assert_eq!(changed_receivable_fields(before, lowered), vec![ReceivableField::OutstandingAmount]);
    assert!(!amount_changed(m(1, 0), m(100, 2)));
    assert!(amount_changed(m(1, 0), m(101, 2)));
}

#[test]
fn disputing_only_open_receivables() {
    let d = dispute_receivable(Some(receivable(ReceivableStatus::Open, m(10, 0)))).unwrap();
    assert_eq!(d.status, ReceivableStatus::Disputed);
    assert_eq!(parts(d.outstanding_amount), (10, 0));
    assert_eq!(dispute_receivable(None).unwrap_err(), AppError::ReceivableNotFound);
    assert_eq!(
        dispute_receivable(Some(receivable(ReceivableStatus::Disputed, m(10, 0)))).unwrap_err(),
        AppError::OnlyOpenReceivablesDisputable
    );
}

#[test]
fn refund_checks() {
    assert_eq!(check_refund_request(m(0, 0), true, false).unwrap_err(), AppError::RefundAmountNotPositive);
    assert_eq!(
        check_refund_request(m(-1, 0), true, true).unwrap_err(),
        AppError::DepositRefundAmountNotPositive
    );
    assert_eq!(check_refund_request(m(1, 0), false, false).unwrap_err(), AppError::PaymentNotFound);
    assert_eq!(check_refund_request(m(1, 0), false, true).unwrap_err(), AppError::DepositNotFound);
    assert!(check_refund_request(m(1, 0), true, true).is_ok());
}

#[test]
fn reversal_fields_are_listed_in_the_recorded_order() {
    let applied = allocate_existing_payment(
        m(100, 0),
        Some(source(1, m(100, 0))),
        Some(receivable(ReceivableStatus::Open, m(100, 0))),
        Some(1),
        5,
    )
    .unwrap();
    let restored = reverse_payment_allocation(
        Some(applied.application),
        Some(applied.receivable),
        Some(applied.source),
    )
    .unwrap();
    assert_eq!(
        reversal_changed_fields(&applied.source, &applied.receivable, &restored, false),
        vec![
            ReversalField::ReversedAt,
            ReversalField::ReceivableStatus,
            ReversalField::ReceivableOutstandingAmount,
            ReversalField::SourceUnappliedAmount,
        ]
    );
    assert_eq!(
        reversal_changed_fields(&applied.source, &applied.receivable, &restored, true),
        vec![
            ReversalField::ReversedAt,
            ReversalField::SourceUnappliedAmount,
            ReversalField::ReceivableOutstandingAmount,
            ReversalField::ReceivableStatus,
        ]
    );
    // Nothing changed but the mark.
    assert_eq!(
        reversal_changed_fields(&restored.source, &restored.receivable, &restored, true),
        vec![ReversalField::ReversedAt]
    );
}

#[test]
fn deposit_reversal_depends_on_the_receivable_status_since() {
    let applied = apply_deposit_to_receivable(
        m(10, 0),
        Some(source(1, m(50, 0))),
        Some(receivable(ReceivableStatus::Open, m(10, 0))),
        Some(1),
        6,
    )
    .unwrap();
    assert_eq!(applied.receivable.status, ReceivableStatus::Settled);
    for (status, expected) in [
        (ReceivableStatus::Disputed, AppError::ReverseForDisputedReceivable),
        (ReceivableStatus::WrittenOff, AppError::ReverseForWrittenOffReceivable),
        (ReceivableStatus::Voided, AppError::ReverseForVoidedReceivable),
    ] {
        let now = Receivable { status, ..applied.receivable };
        assert_eq!(
            reverse_deposit_application(Some(applied.application), Some(applied.source), Some(now), Some(1))
                .unwrap_err(),
            expected
        );
    }
    let restored = reverse_deposit_application(
        Some(applied.application),
        Some(applied.source),
        Some(applied.receivable),
        Some(1),
    )
    .unwrap();
    assert_eq!(restored.receivable.status, ReceivableStatus::Open);
    assert_eq!(value(restored.source.unapplied_amount), value(m(50, 0)));
    assert_eq!(value(restored.receivable.outstanding_amount), value(m(10, 0)));
}
