use backend::billing_audit::{
    billing_audit_from_fields, extract_billing_audit, read_decimal, read_payment_method,
    read_string, read_uuid,
    BillingAuditFields, JsonFieldValue,
};
use backend::error::AppError;

const FOLIO: &str = "6f1c2d3e-4a5b-4c6d-8e7f-901234567890";
const PAYMENT: &str = "00000000-0000-0000-0000-00000000002a";

fn methods() -> Vec<String> {
    vec!["cash".to_string(), "card".to_string(), "bank_transfer".to_string()]
}

fn parts(x: Option<backend::money::Money>) -> Option<(i128, u32)> {
    x.map(|m| (m.mantissa(), m.scale()))
}

#[test]
fn a_payment_snapshot() {
    let json = format!(
        r#"{{"payment_id":"{}","folio_id":"{}","amount":"120.50","method":"cash","external_reference":"R-1","status":"open"}}"#,
        PAYMENT, FOLIO
    );
    let x = extract_billing_audit(&json, &methods()).unwrap();
    assert_eq!(x.payment_id, Some(42));
    assert_eq!(x.folio_id, Some(uuid::Uuid::parse_str(FOLIO).unwrap().as_u128()));
    assert_eq!(parts(x.amount), Some((12050, 2)));
    assert_eq!(x.payment_method, Some("cash".to_string()));
    assert_eq!(x.payment_reference, Some("R-1".to_string()));
    assert_eq!(x.invoice_id, None);
    assert_eq!(x.invoice_number, None);
    assert!(x.issued_amount.is_none());
}

#[test]
fn fallback_keys_and_numbers() {
    let json = r#"{"payment_amount": 75.25, "payment_method": "card", "payment_reference": "X",
                   "invoice_number": "INV-9", "issued_amount": 300, "folio_entry_id": null}"#;
    let x = extract_billing_audit(json, &methods()).unwrap();
    assert_eq!(parts(x.amount), Some((7525, 2)));
    assert_eq!(x.payment_method, Some("card".to_string()));
    assert_eq!(x.payment_reference, Some("X".to_string()));
    assert_eq!(x.invoice_number, Some("INV-9".to_string()));
    assert_eq!(parts(x.issued_amount), Some((300, 0)));
    assert_eq!(x.folio_entry_id, None);
    // The primary key wins over its fallback.
    let json = r#"{"amount": "1", "payment_amount": "2", "method": "card", "payment_method": "cash"}"#;
    let x = extract_billing_audit(json, &methods()).unwrap();
    assert_eq!(parts(x.amount), Some((1, 0)));
    assert_eq!(x.payment_method, Some("card".to_string()));
}

#[test]
fn unreadable_snapshots() {
    assert_eq!(extract_billing_audit("{not json", &methods()).unwrap_err(), AppError::AuditJsonMalformed);
    assert_eq!(
        extract_billing_audit(r#"{"folio_id": "not-an-id"}"#, &methods()).unwrap_err(),
        AppError::AuditIdMalformed
    );
    assert_eq!(
        extract_billing_audit(r#"{"amount": "12x"}"#, &methods()).unwrap_err(),
        AppError::AuditAmountMalformed
    );
    // A broken fallback amount is read, and refused, even where the amount is present.
    assert_eq!(
        extract_billing_audit(r#"{"amount": "1", "payment_amount": "abc"}"#, &methods()).unwrap_err(),
        AppError::AuditAmountMalformed
    );
    // Amounts are read before ids.
    assert_eq!(
        extract_billing_audit(r#"{"folio_id": "x", "issued_amount": "y", "amount": "z"}"#, &methods())
            .unwrap_err(),
        AppError::AuditAmountMalformed
    );
    // A document that is not an object has none of the fields.
    let x = extract_billing_audit("[1, 2]", &methods()).unwrap();
    assert!(x.amount.is_none() && x.folio_id.is_none());
}

#[test]
fn single_fields() {
    assert_eq!(read_uuid(&JsonFieldValue::Text(PAYMENT.to_string())).unwrap(), Some(42));
    assert_eq!(read_uuid(&JsonFieldValue::Number("42".to_string())).unwrap(), None);
    assert_eq!(read_uuid(&JsonFieldValue::Text("42".to_string())).unwrap_err(), AppError::AuditIdMalformed);
    assert_eq!(read_string(&JsonFieldValue::Text("a".to_string())), Some("a".to_string()));
    assert_eq!(read_string(&JsonFieldValue::Other), None);
    assert_eq!(parts(read_decimal(&JsonFieldValue::Text("-0.010".to_string())).unwrap()), Some((-10, 3)));
    assert_eq!(parts(read_decimal(&JsonFieldValue::Absent).unwrap()), None);
}

#[test]
fn from_fields() {
    let f = BillingAuditFields {
        amount: JsonFieldValue::Absent,
        payment_amount: JsonFieldValue::Number("5".to_string()),
        method: JsonFieldValue::Other,
        payment_method: JsonFieldValue::Text("bank_transfer".to_string()),
        external_reference: JsonFieldValue::Absent,
        payment_reference: JsonFieldValue::Absent,
        folio_id: JsonFieldValue::Absent,
        folio_entry_id: JsonFieldValue::Absent,
        payment_id: JsonFieldValue::Absent,
        invoice_id: JsonFieldValue::Absent,
        invoice_number: JsonFieldValue::Absent,
        issued_amount: JsonFieldValue::Absent,
        billing_account_id: JsonFieldValue::Text("bad".to_string()),
    };
    assert_eq!(billing_audit_from_fields(&f, &methods()).unwrap_err(), AppError::AuditIdMalformed);
    let f = BillingAuditFields { billing_account_id: JsonFieldValue::Absent, ..f };
    let x = billing_audit_from_fields(&f, &methods()).unwrap();
    assert_eq!(parts(x.amount), Some((5, 0)));
    assert_eq!(x.payment_method, Some("bank_transfer".to_string()));
}

#[test]
fn unknown_payment_methods_are_refused() {
    assert_eq!(
        extract_billing_audit(r#"{"method": "barter"}"#, &methods()).unwrap_err(),
        AppError::AuditPaymentMethodInvalid
    );
    // The fallback key is read, and refused, even where the method is known.
    assert_eq!(
        extract_billing_audit(r#"{"method": "cash", "payment_method": ""}"#, &methods()).unwrap_err(),
        AppError::AuditPaymentMethodInvalid
    );
    // Methods are read after the amounts and before the ids.
    assert_eq!(
        extract_billing_audit(r#"{"amount": "x", "method": "barter"}"#, &methods()).unwrap_err(),
        AppError::AuditAmountMalformed
    );
    assert_eq!(
        extract_billing_audit(r#"{"folio_id": "x", "method": "barter"}"#, &methods()).unwrap_err(),
        AppError::AuditPaymentMethodInvalid
    );
    // A method that is not a string is no method.
    let x = extract_billing_audit(r#"{"method": 3, "payment_method": "card"}"#, &methods()).unwrap();
    assert_eq!(x.payment_method, Some("card".to_string()));
    assert_eq!(
        read_payment_method(&JsonFieldValue::Text("cash".to_string()), &vec![]).unwrap_err(),
        AppError::AuditPaymentMethodInvalid
    );
    assert_eq!(read_payment_method(&JsonFieldValue::Absent, &vec![]).unwrap(), None);
}
