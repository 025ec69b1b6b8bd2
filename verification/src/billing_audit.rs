//! Reading the billing facts back out of the JSON snapshot stored with an operation event.
use vstd::prelude::*;

use crate::error::AppError;
use crate::money::{decimal_text_value, option_parts, parse_exact_amount, Money};

verus! {

/// What a JSON document holds under one key, as far as the audit reader looks at it.
#[derive(Clone, Debug)]
pub enum JsonFieldValue {
    /// The key is missing (or the document is not an object).
    Absent,
    /// A string.
    Text(String),
    /// A number, with the text `serde_json` writes for it.
    Number(String),
    /// Anything else: `null`, a boolean, an array or an object.
    Other,
}

/// The mathematical content of a `JsonFieldValue`.
pub enum JsonField {
    Absent,
    Text(Seq<char>),
    Number(Seq<char>),
    Other,
}

impl View for JsonFieldValue {
    type V = JsonField;

    open spec fn view(&self) -> JsonField {
        match self {
            JsonFieldValue::Absent => JsonField::Absent,
            JsonFieldValue::Text(s) => JsonField::Text(s@),
            JsonFieldValue::Number(s) => JsonField::Number(s@),
            JsonFieldValue::Other => JsonField::Other,
        }
    }
}

/// What `serde_json` finds under `key` in the document `json` (parsed with `from_str` into a
/// `Value`, then looked up with `get`); `None` where the document is not valid JSON.
pub uninterp spec fn json_field_of(json: Seq<char>, key: Seq<char>) -> Option<JsonField>;

/// What `uuid::Uuid::parse_str` makes of a text, as the id's 128 bits; `None` where it
/// reports an error.
pub uninterp spec fn uuid_text_value(text: Seq<char>) -> Option<u128>;

/// Looks up one key of a JSON document with `serde_json`.
///
/// Trusted: the result is named `json_field_of`; the body parses the text with
/// `serde_json::from_str` and tells the variants of the value under `key` apart.
#[verifier::external_body]
fn json_field(json: &str, key: &str) -> (r: Option<JsonFieldValue>)
    ensures
        match r {
            None => json_field_of(json@, key@) is None,
            Some(f) => json_field_of(json@, key@) == Some(f@),
        },
{
    let value: serde_json::Value = serde_json::from_str(json).ok()?;
    Some(
        match value.get(key) {
            None => JsonFieldValue::Absent,
            Some(serde_json::Value::String(s)) => JsonFieldValue::Text(s.clone()),
            Some(serde_json::Value::Number(n)) => JsonFieldValue::Number(n.to_string()),
            Some(_) => JsonFieldValue::Other,
        },
    )
}

/// Reads an id written as text with `uuid::Uuid::parse_str`.
///
/// Trusted: the result is named `uuid_text_value`.
#[verifier::external_body]
fn parse_uuid(text: &str) -> (r: Option<u128>)
    ensures
        r == uuid_text_value(text@),
{
    uuid::Uuid::parse_str(text).ok().map(|u| u.as_u128())
}

/// The text of a string field.
pub open spec fn field_text(f: JsonField) -> Option<Seq<char>> {
    match f {
        JsonField::Text(s) => Some(s),
        _ => None,
    }
}

/// A string field read as an id: none where the field is not a string, an error where the
/// string is not an id.
pub open spec fn id_reading(f: JsonField) -> Result<Option<u128>, AppError> {
    match f {
        JsonField::Text(s) => match uuid_text_value(s) {
            Some(id) => Ok(Some(id)),
            None => Err(AppError::AuditIdMalformed),
        },
        _ => Ok(None),
    }
}

/// A string or number field read as an amount (mantissa and scale): none where the field is
/// neither, an error where its text is not an exact decimal.
pub open spec fn amount_reading(f: JsonField) -> Result<Option<(i128, u32)>, AppError> {
    match f {
        JsonField::Text(s) => match decimal_text_value(s) {
            Some(p) => Ok(Some(p)),
            None => Err(AppError::AuditAmountMalformed),
        },
        JsonField::Number(s) => match decimal_text_value(s) {
            Some(p) => Ok(Some(p)),
            None => Err(AppError::AuditAmountMalformed),
        },
        _ => Ok(None),
    }
}

pub open spec fn text_view(value: Option<String>) -> Option<Seq<char>> {
    match value {
        Some(v) => Some(v@),
        None => None,
    }
}

/// The id under a field.
pub fn read_uuid(field: &JsonFieldValue) -> (r: Result<Option<u128>, AppError>)
    ensures
        r == id_reading(field@),
{
    match field {
        JsonFieldValue::Text(s) => match parse_uuid(s.as_str()) {
            Some(id) => Ok(Some(id)),
            None => Err(AppError::AuditIdMalformed),
        },
        _ => Ok(None),
    }
}

/// The text under a field, where it is a string.
pub fn read_string(field: &JsonFieldValue) -> (r: Option<String>)
    ensures
        text_view(r) == field_text(field@),
{
    match field {
        JsonFieldValue::Text(s) => Some(s.clone()),
        _ => None,
    }
}

/// The amount under a field, written as a string or as a number.
pub fn read_decimal(field: &JsonFieldValue) -> (r: Result<Option<Money>, AppError>)
    ensures
        match amount_reading(field@) {
            Err(e) => r == Err::<Option<Money>, AppError>(e),
            Ok(p) => r matches Ok(m) && option_parts(m) == p,
        },
{
    let text = match field {
        JsonFieldValue::Text(s) => s,
        JsonFieldValue::Number(s) => s,
        _ => {
            return Ok(None);
        },
    };
    match parse_exact_amount(text.as_str()) {
        Some(m) => Ok(Some(m)),
        None => Err(AppError::AuditAmountMalformed),
    }
}

/// The fields of a billing snapshot that the audit reader looks at.
#[derive(Clone, Debug)]
pub struct BillingAuditFields {
    pub amount: JsonFieldValue,
    pub payment_amount: JsonFieldValue,
    pub method: JsonFieldValue,
    pub payment_method: JsonFieldValue,
    pub external_reference: JsonFieldValue,
    pub payment_reference: JsonFieldValue,
    pub folio_id: JsonFieldValue,
    pub folio_entry_id: JsonFieldValue,
    pub payment_id: JsonFieldValue,
    pub invoice_id: JsonFieldValue,
    pub invoice_number: JsonFieldValue,
    pub issued_amount: JsonFieldValue,
    pub billing_account_id: JsonFieldValue,
}

/// The billing facts of an operation.  The payment method is the snake-case name stored in
/// the snapshot, checked against the names of the payment methods there are.
#[derive(Clone, Debug)]
pub struct BillingAuditExtract {
    pub folio_id: Option<u128>,
    pub folio_entry_id: Option<u128>,
    pub payment_id: Option<u128>,
    pub invoice_id: Option<u128>,
    pub amount: Option<Money>,
    pub payment_method: Option<String>,
    pub payment_reference: Option<String>,
    pub invoice_number: Option<String>,
    pub issued_amount: Option<Money>,
    pub billing_account_id: Option<u128>,
}

/// The content of the fields of a billing snapshot.
pub struct BillingAuditSnapshot {
    pub amount: JsonField,
    pub payment_amount: JsonField,
    pub method: JsonField,
    pub payment_method: JsonField,
    pub external_reference: JsonField,
    pub payment_reference: JsonField,
    pub folio_id: JsonField,
    pub folio_entry_id: JsonField,
    pub payment_id: JsonField,
    pub invoice_id: JsonField,
    pub invoice_number: JsonField,
    pub issued_amount: JsonField,
    pub billing_account_id: JsonField,
}

impl View for BillingAuditFields {
    type V = BillingAuditSnapshot;

    open spec fn view(&self) -> BillingAuditSnapshot {
        BillingAuditSnapshot {
            amount: self.amount@,
            payment_amount: self.payment_amount@,
            method: self.method@,
            payment_method: self.payment_method@,
            external_reference: self.external_reference@,
            payment_reference: self.payment_reference@,
            folio_id: self.folio_id@,
            folio_entry_id: self.folio_entry_id@,
            payment_id: self.payment_id@,
            invoice_id: self.invoice_id@,
            invoice_number: self.invoice_number@,
            issued_amount: self.issued_amount@,
            billing_account_id: self.billing_account_id@,
        }
    }
}

/// The texts that name payment methods, as views.
pub open spec fn method_names(names: Seq<String>) -> Seq<Seq<char>> {
    names.map_values(|n: String| n@)
}

/// A string field read as a payment method: none where the field is not a string, an error
/// where the string is not one of the payment methods' names.
pub open spec fn method_reading(f: JsonField, names: Seq<Seq<char>>) -> Result<
    Option<Seq<char>>,
    AppError,
> {
    match f {
        JsonField::Text(s) => if names.contains(s) {
            Ok(Some(s))
        } else {
            Err(AppError::AuditPaymentMethodInvalid)
        },
        _ => Ok(None),
    }
}

/// The payment method under a field, checked against the names of the payment methods.
pub fn read_payment_method(field: &JsonFieldValue, payment_methods: &Vec<String>) -> (r: Result<
    Option<String>,
    AppError,
>)
    ensures
        match method_reading(field@, method_names(payment_methods@)) {
            Err(e) => r == Err::<Option<String>, AppError>(e),
            Ok(t) => r matches Ok(m) && text_view(m) == t,
        },
{
    let text = match field {
        JsonFieldValue::Text(s) => s,
        _ => {
            return Ok(None);
        },
    };
    let ghost names = method_names(payment_methods@);
    let mut i: usize = 0;
    while i < payment_methods.len()
        invariant
            i <= payment_methods@.len(),
            names == method_names(payment_methods@),
            field@ == JsonField::Text(text@),
            forall|j: int| 0 <= j < i ==> names[j] != text@,
        decreases payment_methods@.len() - i,
    {
        if payment_methods[i] == *text {
            assert(names[i as int] == text@);
            assert(names.contains(text@));
            let found = text.clone();
            assert(found@ == text@);
            return Ok(Some(found));
        }
        i = i + 1;
    }
    assert(!names.contains(text@));
    Err(AppError::AuditPaymentMethodInvalid)
}

/// The first field that cannot be read, in the order the reader goes: the amounts, the
/// payment methods, the ids, the issued amount, the billing account.
pub open spec fn audit_refusal(f: BillingAuditSnapshot, names: Seq<Seq<char>>) -> Option<AppError> {
    if amount_reading(f.amount) is Err {
        Some(amount_reading(f.amount)->Err_0)
    } else if amount_reading(f.payment_amount) is Err {
        Some(amount_reading(f.payment_amount)->Err_0)
    } else if method_reading(f.method, names) is Err {
        Some(AppError::AuditPaymentMethodInvalid)
    } else if method_reading(f.payment_method, names) is Err {
        Some(AppError::AuditPaymentMethodInvalid)
    } else if id_reading(f.folio_id) is Err {
        Some(id_reading(f.folio_id)->Err_0)
    } else if id_reading(f.folio_entry_id) is Err {
        Some(id_reading(f.folio_entry_id)->Err_0)
    } else if id_reading(f.payment_id) is Err {
        Some(id_reading(f.payment_id)->Err_0)
    } else if id_reading(f.invoice_id) is Err {
        Some(id_reading(f.invoice_id)->Err_0)
    } else if amount_reading(f.issued_amount) is Err {
        Some(amount_reading(f.issued_amount)->Err_0)
    } else if id_reading(f.billing_account_id) is Err {
        Some(id_reading(f.billing_account_id)->Err_0)
    } else {
        None
    }
}

/// The first of two optional values that is present.
pub open spec fn first_of<T>(a: Option<T>, b: Option<T>) -> Option<T> {
    match a {
        Some(x) => Some(x),
        None => b,
    }
}

/// `x` holds what the readable fields `f` say: the amount falls back on `payment_amount`, the
/// method on `payment_method`, the reference on `payment_reference`.
pub open spec fn extract_matches(
    x: BillingAuditExtract,
    f: BillingAuditSnapshot,
    names: Seq<Seq<char>>,
) -> bool {
    &&& Ok::<Option<u128>, AppError>(x.folio_id) == id_reading(f.folio_id)
    &&& Ok::<Option<u128>, AppError>(x.folio_entry_id) == id_reading(f.folio_entry_id)
    &&& Ok::<Option<u128>, AppError>(x.payment_id) == id_reading(f.payment_id)
    &&& Ok::<Option<u128>, AppError>(x.invoice_id) == id_reading(f.invoice_id)
    &&& Ok::<Option<u128>, AppError>(x.billing_account_id) == id_reading(f.billing_account_id)
    &&& Ok::<Option<(i128, u32)>, AppError>(option_parts(x.amount)) == match amount_reading(
        f.amount,
    ) {
        Ok(Some(p)) => Ok(Some(p)),
        _ => amount_reading(f.payment_amount),
    }
    &&& Ok::<Option<(i128, u32)>, AppError>(option_parts(x.issued_amount)) == amount_reading(
        f.issued_amount,
    )
    &&& text_view(x.payment_method) == first_of(
        method_reading(f.method, names)->Ok_0,
        method_reading(f.payment_method, names)->Ok_0,
    )
    &&& text_view(x.payment_reference) == first_of(
        field_text(f.external_reference),
        field_text(f.payment_reference),
    )
    &&& text_view(x.invoice_number) == field_text(f.invoice_number)
}

/// The billing facts of a snapshot, from the fields it holds; `payment_methods` names the
/// payment methods there are.
pub fn billing_audit_from_fields(f: &BillingAuditFields, payment_methods: &Vec<String>) -> (r:
    Result<BillingAuditExtract, AppError>)
    ensures
        match audit_refusal(f@, method_names(payment_methods@)) {
            Some(e) => r == Err::<BillingAuditExtract, AppError>(e),
            None => r matches Ok(x) && extract_matches(x, f@, method_names(payment_methods@)),
        },
{
    let amount = match read_decimal(&f.amount) {
        Ok(a) => a,
        Err(e) => {
            return Err(e);
        },
    };
    let payment_amount = match read_decimal(&f.payment_amount) {
        Ok(a) => a,
        Err(e) => {
            return Err(e);
        },
    };
    let amount = match amount {
        Some(a) => Some(a),
        None => payment_amount,
    };
    let method = match read_payment_method(&f.method, payment_methods) {
        Ok(m) => m,
        Err(e) => {
            return Err(e);
        },
    };
    let fallback_method = match read_payment_method(&f.payment_method, payment_methods) {
        Ok(m) => m,
        Err(e) => {
            return Err(e);
        },
    };
    let payment_method = match method {
        Some(m) => Some(m),
        None => fallback_method,
    };
    let payment_reference = match read_string(&f.external_reference) {
        Some(s) => Some(s),
        None => read_string(&f.payment_reference),
    };
    let folio_id = match read_uuid(&f.folio_id) {
        Ok(id) => id,
        Err(e) => {
            return Err(e);
        },
    };
    let folio_entry_id = match read_uuid(&f.folio_entry_id) {
        Ok(id) => id,
        Err(e) => {
            return Err(e);
        },
    };
    let payment_id = match read_uuid(&f.payment_id) {
        Ok(id) => id,
        Err(e) => {
            return Err(e);
        },
    };
    let invoice_id = match read_uuid(&f.invoice_id) {
        Ok(id) => id,
        Err(e) => {
            return Err(e);
        },
    };
    let invoice_number = read_string(&f.invoice_number);
    let issued_amount = match read_decimal(&f.issued_amount) {
        Ok(a) => a,
        Err(e) => {
            return Err(e);
        },
    };
    let billing_account_id = match read_uuid(&f.billing_account_id) {
        Ok(id) => id,
        Err(e) => {
            return Err(e);
        },
    };
    Ok(
        BillingAuditExtract {
            folio_id,
            folio_entry_id,
            payment_id,
            invoice_id,
            amount,
            payment_method,
            payment_reference,
            invoice_number,
            issued_amount,
            billing_account_id,
        },
    )
}

/// The fields of the snapshot `json` as `serde_json` finds them; `None` where the snapshot is
/// not valid JSON.
pub open spec fn snapshot_fields(json: Seq<char>) -> Option<BillingAuditSnapshot> {
    if json_field_of(json, "amount"@) is None
        || json_field_of(json, "payment_amount"@) is None
        || json_field_of(json, "method"@) is None
        || json_field_of(json, "payment_method"@) is None
        || json_field_of(json, "external_reference"@) is None
        || json_field_of(json, "payment_reference"@) is None
        || json_field_of(json, "folio_id"@) is None
        || json_field_of(json, "folio_entry_id"@) is None
        || json_field_of(json, "payment_id"@) is None
        || json_field_of(json, "invoice_id"@) is None
        || json_field_of(json, "invoice_number"@) is None
        || json_field_of(json, "issued_amount"@) is None
        || json_field_of(json, "billing_account_id"@) is None {
        None
    } else {
        Some(
            BillingAuditSnapshot {
                amount: json_field_of(json, "amount"@)->0,
                payment_amount: json_field_of(json, "payment_amount"@)->0,
                method: json_field_of(json, "method"@)->0,
                payment_method: json_field_of(json, "payment_method"@)->0,
                external_reference: json_field_of(json, "external_reference"@)->0,
                payment_reference: json_field_of(json, "payment_reference"@)->0,
                folio_id: json_field_of(json, "folio_id"@)->0,
                folio_entry_id: json_field_of(json, "folio_entry_id"@)->0,
                payment_id: json_field_of(json, "payment_id"@)->0,
                invoice_id: json_field_of(json, "invoice_id"@)->0,
                invoice_number: json_field_of(json, "invoice_number"@)->0,
                issued_amount: json_field_of(json, "issued_amount"@)->0,
                billing_account_id: json_field_of(json, "billing_account_id"@)->0,
            },
        )
    }
}

/// The billing facts recorded in the JSON snapshot of an operation event; `payment_methods`
/// names the payment methods there are.
pub fn extract_billing_audit(json: &str, payment_methods: &Vec<String>) -> (r: Result<
    BillingAuditExtract,
    AppError,
>)
    ensures
        match snapshot_fields(json@) {
            None => r == Err::<BillingAuditExtract, AppError>(AppError::AuditJsonMalformed),
            Some(f) => match audit_refusal(f, method_names(payment_methods@)) {
                Some(e) => r == Err::<BillingAuditExtract, AppError>(e),
                None => r matches Ok(x) && extract_matches(x, f, method_names(payment_methods@)),
            },
        },
{
    let amount = match json_field(json, "amount") {
        Some(v) => v,
        None => {
            return Err(AppError::AuditJsonMalformed);
        },
    };
    let payment_amount = match json_field(json, "payment_amount") {
        Some(v) => v,
        None => {
            return Err(AppError::AuditJsonMalformed);
        },
    };
    let method = match json_field(json, "method") {
        Some(v) => v,
        None => {
            return Err(AppError::AuditJsonMalformed);
        },
    };
    let payment_method = match json_field(json, "payment_method") {
        Some(v) => v,
        None => {
            return Err(AppError::AuditJsonMalformed);
        },
    };
    let external_reference = match json_field(json, "external_reference") {
        Some(v) => v,
        None => {
            return Err(AppError::AuditJsonMalformed);
        },
    };
    let payment_reference = match json_field(json, "payment_reference") {
        Some(v) => v,
        None => {
            return Err(AppError::AuditJsonMalformed);
        },
    };
    let folio_id = match json_field(json, "folio_id") {
        Some(v) => v,
        None => {
            return Err(AppError::AuditJsonMalformed);
        },
    };
    let folio_entry_id = match json_field(json, "folio_entry_id") {
        Some(v) => v,
        None => {
            return Err(AppError::AuditJsonMalformed);
        },
    };
    let payment_id = match json_field(json, "payment_id") {
        Some(v) => v,
        None => {
            return Err(AppError::AuditJsonMalformed);
        },
    };
    let invoice_id = match json_field(json, "invoice_id") {
        Some(v) => v,
        None => {
            return Err(AppError::AuditJsonMalformed);
        },
    };
    let invoice_number = match json_field(json, "invoice_number") {
        Some(v) => v,
        None => {
            return Err(AppError::AuditJsonMalformed);
        },
    };
    let issued_amount = match json_field(json, "issued_amount") {
        Some(v) => v,
        None => {
            return Err(AppError::AuditJsonMalformed);
        },
    };
    let billing_account_id = match json_field(json, "billing_account_id") {
        Some(v) => v,
        None => {
            return Err(AppError::AuditJsonMalformed);
        },
    };
    let fields = BillingAuditFields {
        amount,
        payment_amount,
        method,
        payment_method,
        external_reference,
        payment_reference,
        folio_id,
        folio_entry_id,
        payment_id,
        invoice_id,
        invoice_number,
        issued_amount,
        billing_account_id,
    };
    billing_audit_from_fields(&fields, payment_methods)
}

/// The id written as text under `f`, where it is one.
pub open spec fn written_id(f: JsonField) -> Option<u128> {
    match f {
        JsonField::Text(t) => uuid_text_value(t),
        _ => None,
    }
}

/// Each id read from a snapshot is the one written under its own key: the folio, folio entry,
/// payment, invoice and billing account ids are what `uuid` reads from the text under
/// `folio_id`, `folio_entry_id`, `payment_id`, `invoice_id` and `billing_account_id`
/// respectively, and none where that key holds no string.
pub proof fn lemma_ids_come_from_their_own_keys(
    x: BillingAuditExtract,
    f: BillingAuditSnapshot,
    names: Seq<Seq<char>>,
)
    requires
        audit_refusal(f, names) is None,
        extract_matches(x, f, names),
    ensures
        x.folio_id == written_id(f.folio_id),
        x.folio_entry_id == written_id(f.folio_entry_id),
        x.payment_id == written_id(f.payment_id),
        x.invoice_id == written_id(f.invoice_id),
        x.billing_account_id == written_id(f.billing_account_id),
        !(f.billing_account_id is Text) ==> x.billing_account_id is None,
{
}

} // verus!
