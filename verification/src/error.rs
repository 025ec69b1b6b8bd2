//! The reasons for which a use case refuses a request.
use vstd::prelude::*;

verus! {

/// The class of a refusal, as the service reports it.
#[derive(Clone, Copy, Debug, PartialEq, Eq, Structural)]
pub enum ErrorKind {
    /// The request itself is malformed.
    Validation,
    /// The request conflicts with the current state.
    Conflict,
    /// A record the request names does not exist.
    NotFound,
    /// A domain rule refused the change.
    Domain,
    /// A decimal computation left the range of `rust_decimal`.
    Overflow,
    /// Stored data could not be read back.
    Infrastructure,
}

/// Why a use case refused a request.
#[derive(Clone, Copy, Debug, PartialEq, Eq, Structural)]
pub enum AppError {
    PaymentAmountNotPositive,
    AllocationAmountNotPositive,
    DepositApplicationAmountNotPositive,
    RefundAmountNotPositive,
    DepositRefundAmountNotPositive,
    ReceivableNotFound,
    PaymentNotFound,
    DepositNotFound,
    InvoiceNotFound,
    FolioNotFound,
    BillingAccountNotFound,
    PaymentAllocationNotFound,
    DepositApplicationNotFound,
    ReceivableNotOpen,
    PaymentExceedsOutstanding,
    PaymentFolioMismatch,
    AllocationExceedsUnapplied,
    AllocationExceedsOutstanding,
    DepositFolioMismatch,
    DepositApplicationExceedsUnapplied,
    DepositApplicationExceedsOutstanding,
    PaymentAllocationAlreadyReversed,
    DepositApplicationAlreadyReversed,
    ReverseForDisputedReceivable,
    ReverseForWrittenOffReceivable,
    ReverseForVoidedReceivable,
    OnlyOpenReceivablesDisputable,
    OnlyIssuedInvoicesVoidable,
    ReceivableCannotBeVoided,
    InvoiceHasActiveAllocations,
    InvoiceRequiresClosedFolio,
    BillingAccountNotAssigned,
    InvoiceNumberEmpty,
    IssuedAmountNotPositive,
    InvoiceAlreadyExistsForFolio,
    InvoiceNumberExists,
    FolioNotOpenForBillingAccount,
    FolioAlreadyClosed,
    FolioNotOpen,
    InactiveReservationFolio,
    ActiveFolioExists,
    PaymentRequiresOpenFolio,
    AdditionOverflowed,
    SubtractionOverflowed,
    ReservationNotFound,
    OpenBusinessDateNotFound,
    ClosingBusinessDateNotFound,
    ActiveBusinessDateNotOpen,
    ActiveBusinessDateNotFound,
    ActiveBusinessDateNotClosing,
    UnresolvedArrivals,
    UnresolvedDepartures,
    UnpostedRoomCharges,
    RoomChargeBlockers,
    RoomChargesHaveBlockers,
    OperationDateMismatch,
    ExtendRequiresCheckedIn,
    ExtensionNotDue,
    RoomNotAssigned,
    DeferRequiresConfirmedArrival,
    DeferCheckInMismatch,
    DeferRequiresMultiNightStay,
    OpenFolioNotFound,
    NoShowNotDue,
    NoShowRequiresConfirmedArrival,
    BodyRequired,
    DepartmentCodeRequiredForTrace,
    DepartmentCodeOnlyForTrace,
    DepartmentCodeRequired,
    ReservationNoteNotFound,
    ReservationNoteAlreadyDeleted,
    ReservationTraceNotFound,
    ReservationTraceAlreadyDeleted,
    ActorIdRequired,
    LeaseMinutesOutOfRange,
    PlanCodeEmpty,
    PackageCodeEmpty,
    SortOrderNegative,
    RatePlanNotFound,
    RatePlanInactive,
    PackageNotFound,
    PackageInactive,
    PackageDisplayNameEmpty,
    DepartmentCodeEmpty,
    AccountCodeEmpty,
    PlanDisplayNameEmpty,
    GuestNotFound,
    PreferenceValueRequired,
    RoomNotFound,
    YearMonthMalformed,
    AuditJsonMalformed,
    AuditIdMalformed,
    AuditAmountMalformed,
    AuditPaymentMethodInvalid,
}

impl AppError {
    pub open spec fn spec_kind(self) -> ErrorKind {
        match self {
            AppError::PaymentAmountNotPositive => ErrorKind::Validation,
            AppError::AllocationAmountNotPositive => ErrorKind::Validation,
            AppError::DepositApplicationAmountNotPositive => ErrorKind::Validation,
            AppError::RefundAmountNotPositive => ErrorKind::Validation,
            AppError::DepositRefundAmountNotPositive => ErrorKind::Validation,
            AppError::ReceivableNotFound => ErrorKind::NotFound,
            AppError::PaymentNotFound => ErrorKind::NotFound,
            AppError::DepositNotFound => ErrorKind::NotFound,
            AppError::InvoiceNotFound => ErrorKind::NotFound,
            AppError::FolioNotFound => ErrorKind::NotFound,
            AppError::BillingAccountNotFound => ErrorKind::NotFound,
            AppError::PaymentAllocationNotFound => ErrorKind::NotFound,
            AppError::DepositApplicationNotFound => ErrorKind::NotFound,
            AppError::ReceivableNotOpen => ErrorKind::Conflict,
            AppError::PaymentExceedsOutstanding => ErrorKind::Conflict,
            AppError::PaymentFolioMismatch => ErrorKind::Conflict,
            AppError::AllocationExceedsUnapplied => ErrorKind::Conflict,
            AppError::AllocationExceedsOutstanding => ErrorKind::Conflict,
            AppError::DepositFolioMismatch => ErrorKind::Conflict,
            AppError::DepositApplicationExceedsUnapplied => ErrorKind::Conflict,
            AppError::DepositApplicationExceedsOutstanding => ErrorKind::Conflict,
            AppError::PaymentAllocationAlreadyReversed => ErrorKind::Conflict,
            AppError::DepositApplicationAlreadyReversed => ErrorKind::Conflict,
            AppError::ReverseForDisputedReceivable => ErrorKind::Conflict,
            AppError::ReverseForWrittenOffReceivable => ErrorKind::Conflict,
            AppError::ReverseForVoidedReceivable => ErrorKind::Conflict,
            AppError::OnlyOpenReceivablesDisputable => ErrorKind::Conflict,
            AppError::OnlyIssuedInvoicesVoidable => ErrorKind::Conflict,
            AppError::ReceivableCannotBeVoided => ErrorKind::Conflict,
            AppError::InvoiceHasActiveAllocations => ErrorKind::Conflict,
            AppError::InvoiceRequiresClosedFolio => ErrorKind::Conflict,
            AppError::BillingAccountNotAssigned => ErrorKind::Conflict,
            AppError::InvoiceNumberEmpty => ErrorKind::Validation,
            AppError::IssuedAmountNotPositive => ErrorKind::Validation,
            AppError::InvoiceAlreadyExistsForFolio => ErrorKind::Conflict,
            AppError::InvoiceNumberExists => ErrorKind::Conflict,
            AppError::FolioNotOpenForBillingAccount => ErrorKind::Conflict,
            AppError::FolioAlreadyClosed => ErrorKind::Conflict,
            AppError::FolioNotOpen => ErrorKind::Domain,
            AppError::InactiveReservationFolio => ErrorKind::Conflict,
            AppError::ActiveFolioExists => ErrorKind::Conflict,
            AppError::PaymentRequiresOpenFolio => ErrorKind::Conflict,
            AppError::AdditionOverflowed => ErrorKind::Overflow,
            AppError::SubtractionOverflowed => ErrorKind::Overflow,
            AppError::ReservationNotFound => ErrorKind::NotFound,
            AppError::OpenBusinessDateNotFound => ErrorKind::Conflict,
            AppError::ClosingBusinessDateNotFound => ErrorKind::Conflict,
            AppError::ActiveBusinessDateNotOpen => ErrorKind::Conflict,
            AppError::ActiveBusinessDateNotFound => ErrorKind::Conflict,
            AppError::ActiveBusinessDateNotClosing => ErrorKind::Conflict,
            AppError::UnresolvedArrivals => ErrorKind::Conflict,
            AppError::UnresolvedDepartures => ErrorKind::Conflict,
            AppError::UnpostedRoomCharges => ErrorKind::Conflict,
            AppError::RoomChargeBlockers => ErrorKind::Conflict,
            AppError::RoomChargesHaveBlockers => ErrorKind::Conflict,
            AppError::OperationDateMismatch => ErrorKind::Conflict,
            AppError::ExtendRequiresCheckedIn => ErrorKind::Conflict,
            AppError::ExtensionNotDue => ErrorKind::Conflict,
            AppError::RoomNotAssigned => ErrorKind::Conflict,
            AppError::DeferRequiresConfirmedArrival => ErrorKind::Conflict,
            AppError::DeferCheckInMismatch => ErrorKind::Conflict,
            AppError::DeferRequiresMultiNightStay => ErrorKind::Conflict,
            AppError::OpenFolioNotFound => ErrorKind::Conflict,
            AppError::NoShowNotDue => ErrorKind::Conflict,
            AppError::NoShowRequiresConfirmedArrival => ErrorKind::Conflict,
            AppError::BodyRequired => ErrorKind::Validation,
            AppError::DepartmentCodeRequiredForTrace => ErrorKind::Validation,
            AppError::DepartmentCodeOnlyForTrace => ErrorKind::Validation,
            AppError::DepartmentCodeRequired => ErrorKind::Validation,
            AppError::ReservationNoteNotFound => ErrorKind::NotFound,
            AppError::ReservationNoteAlreadyDeleted => ErrorKind::Conflict,
            AppError::ReservationTraceNotFound => ErrorKind::NotFound,
            AppError::ReservationTraceAlreadyDeleted => ErrorKind::Conflict,
            AppError::ActorIdRequired => ErrorKind::Validation,
            AppError::LeaseMinutesOutOfRange => ErrorKind::Validation,
            AppError::PlanCodeEmpty => ErrorKind::Validation,
            AppError::PackageCodeEmpty => ErrorKind::Validation,
            AppError::SortOrderNegative => ErrorKind::Validation,
            AppError::RatePlanNotFound => ErrorKind::NotFound,
            AppError::RatePlanInactive => ErrorKind::Conflict,
            AppError::PackageNotFound => ErrorKind::NotFound,
            AppError::PackageInactive => ErrorKind::Conflict,
            AppError::PackageDisplayNameEmpty => ErrorKind::Validation,
            AppError::DepartmentCodeEmpty => ErrorKind::Validation,
            AppError::AccountCodeEmpty => ErrorKind::Validation,
            AppError::PlanDisplayNameEmpty => ErrorKind::Validation,
            AppError::GuestNotFound => ErrorKind::NotFound,
            AppError::PreferenceValueRequired => ErrorKind::Validation,
            AppError::RoomNotFound => ErrorKind::NotFound,
            AppError::YearMonthMalformed => ErrorKind::Validation,
            AppError::AuditJsonMalformed => ErrorKind::Infrastructure,
            AppError::AuditIdMalformed => ErrorKind::Infrastructure,
            AppError::AuditAmountMalformed => ErrorKind::Infrastructure,
            AppError::AuditPaymentMethodInvalid => ErrorKind::Infrastructure,
        }
    }

    pub open spec fn spec_message(self) -> Seq<char> {
        match self {
            AppError::PaymentAmountNotPositive => "payment amount must be positive"@,
            AppError::AllocationAmountNotPositive => "allocation amount must be positive"@,
            AppError::DepositApplicationAmountNotPositive => "deposit application amount must be positive"@,
            AppError::RefundAmountNotPositive => "refund amount must be positive"@,
            AppError::DepositRefundAmountNotPositive => "deposit refund amount must be positive"@,
            AppError::ReceivableNotFound => "receivable not found"@,
            AppError::PaymentNotFound => "payment not found"@,
            AppError::DepositNotFound => "deposit not found"@,
            AppError::InvoiceNotFound => "invoice not found"@,
            AppError::FolioNotFound => "folio not found"@,
            AppError::BillingAccountNotFound => "billing account not found"@,
            AppError::PaymentAllocationNotFound => "payment allocation not found"@,
            AppError::DepositApplicationNotFound => "deposit application not found"@,
            AppError::ReceivableNotOpen => "receivable is not open"@,
            AppError::PaymentExceedsOutstanding => "payment amount exceeds outstanding receivable amount"@,
            AppError::PaymentFolioMismatch => "payment and receivable belong to different folios"@,
            AppError::AllocationExceedsUnapplied => "allocation amount exceeds payment unapplied amount"@,
            AppError::AllocationExceedsOutstanding => "allocation amount exceeds outstanding receivable amount"@,
            AppError::DepositFolioMismatch => "deposit and receivable belong to different folios"@,
            AppError::DepositApplicationExceedsUnapplied => "deposit application amount exceeds deposit unapplied amount"@,
            AppError::DepositApplicationExceedsOutstanding => "deposit application amount exceeds outstanding receivable amount"@,
            AppError::PaymentAllocationAlreadyReversed => "payment allocation already reversed"@,
            AppError::DepositApplicationAlreadyReversed => "deposit application already reversed"@,
            AppError::ReverseForDisputedReceivable => "cannot reverse deposit application for disputed receivable"@,
            AppError::ReverseForWrittenOffReceivable => "cannot reverse deposit application for written off receivable"@,
            AppError::ReverseForVoidedReceivable => "cannot reverse deposit application for voided receivable"@,
            AppError::OnlyOpenReceivablesDisputable => "only open receivables can be disputed"@,
            AppError::OnlyIssuedInvoicesVoidable => "only issued invoices can be voided"@,
            AppError::ReceivableCannotBeVoided => "invoice receivable cannot be voided"@,
            AppError::InvoiceHasActiveAllocations => "invoice with active payment allocations cannot be voided"@,
            AppError::InvoiceRequiresClosedFolio => "cannot issue invoice unless folio is closed"@,
            AppError::BillingAccountNotAssigned => "billing account not assigned"@,
            AppError::InvoiceNumberEmpty => "invoice number must not be empty"@,
            AppError::IssuedAmountNotPositive => "issued amount must be positive"@,
            AppError::InvoiceAlreadyExistsForFolio => "invoice already exists for folio"@,
            AppError::InvoiceNumberExists => "invoice number already exists"@,
            AppError::FolioNotOpenForBillingAccount => "cannot change billing responsibility unless folio is open"@,
            AppError::FolioAlreadyClosed => "folio already closed"@,
            AppError::FolioNotOpen => "folio is not open"@,
            AppError::InactiveReservationFolio => "cannot open folio for inactive reservation"@,
            AppError::ActiveFolioExists => "reservation already has an active folio"@,
            AppError::PaymentRequiresOpenFolio => "payment can only be received for open folio"@,
            AppError::AdditionOverflowed => "Addition overflowed"@,
            AppError::SubtractionOverflowed => "Subtraction overflowed"@,
            AppError::ReservationNotFound => "reservation not found"@,
            AppError::OpenBusinessDateNotFound => "open business date not found"@,
            AppError::ClosingBusinessDateNotFound => "closing business date not found"@,
            AppError::ActiveBusinessDateNotOpen => "active business date is not open"@,
            AppError::ActiveBusinessDateNotFound => "active business date not found"@,
            AppError::ActiveBusinessDateNotClosing => "active business date is not closing"@,
            AppError::UnresolvedArrivals => "night audit has unresolved arrivals"@,
            AppError::UnresolvedDepartures => "night audit has unresolved departures"@,
            AppError::UnpostedRoomCharges => "night audit has unposted room charges"@,
            AppError::RoomChargeBlockers => "night audit has room charge blockers"@,
            AppError::RoomChargesHaveBlockers => "night audit room charges have blockers"@,
            AppError::OperationDateMismatch => "operation date must match current business date"@,
            AppError::ExtendRequiresCheckedIn => "only checked-in confirmed stays can be extended during night audit"@,
            AppError::ExtensionNotDue => "night audit departure extension must be due by current business date"@,
            AppError::RoomNotAssigned => "room not assigned"@,
            AppError::DeferRequiresConfirmedArrival => "only confirmed arrivals can be deferred"@,
            AppError::DeferCheckInMismatch => "reservation check-in must match closing business date"@,
            AppError::DeferRequiresMultiNightStay => "arrival can only be deferred for multi-night stays"@,
            AppError::OpenFolioNotFound => "open folio not found"@,
            AppError::NoShowNotDue => "night audit no-show arrival must be due by current business date"@,
            AppError::NoShowRequiresConfirmedArrival => "only unresolved confirmed arrivals can be marked no-show during night audit"@,
            AppError::BodyRequired => "body required"@,
            AppError::DepartmentCodeRequiredForTrace => "department_code required for department trace"@,
            AppError::DepartmentCodeOnlyForTrace => "department_code is only allowed for department trace"@,
            AppError::DepartmentCodeRequired => "department_code required"@,
            AppError::ReservationNoteNotFound => "reservation note not found"@,
            AppError::ReservationNoteAlreadyDeleted => "reservation note already deleted"@,
            AppError::ReservationTraceNotFound => "reservation trace not found"@,
            AppError::ReservationTraceAlreadyDeleted => "reservation trace already deleted"@,
            AppError::ActorIdRequired => "actor_id is required"@,
            AppError::LeaseMinutesOutOfRange => "lease_minutes must be between 1 and 120"@,
            AppError::PlanCodeEmpty => "plan code must not be empty"@,
            AppError::PackageCodeEmpty => "package code must not be empty"@,
            AppError::SortOrderNegative => "sort order must not be negative"@,
            AppError::RatePlanNotFound => "rate plan not found"@,
            AppError::RatePlanInactive => "rate plan inactive"@,
            AppError::PackageNotFound => "package not found"@,
            AppError::PackageInactive => "package inactive"@,
            AppError::PackageDisplayNameEmpty => "package display name must not be empty"@,
            AppError::DepartmentCodeEmpty => "department code must not be empty"@,
            AppError::AccountCodeEmpty => "account code must not be empty"@,
            AppError::PlanDisplayNameEmpty => "plan display name must not be empty"@,
            AppError::GuestNotFound => "guest not found"@,
            AppError::PreferenceValueRequired => "guest preference value is required"@,
            AppError::RoomNotFound => "room not found"@,
            AppError::YearMonthMalformed => "year_month must be YYYY-MM"@,
            AppError::AuditJsonMalformed => "audit snapshot is not valid JSON"@,
            AppError::AuditIdMalformed => "audit snapshot holds a malformed id"@,
            AppError::AuditAmountMalformed => "audit snapshot holds a malformed amount"@,
            AppError::AuditPaymentMethodInvalid => "invalid payment method"@,
        }
    }

    /// The class of the refusal.
    pub fn kind(&self) -> (r: ErrorKind)
        ensures
            r == self.spec_kind(),
    {
        match self {
            AppError::PaymentAmountNotPositive => ErrorKind::Validation,
            AppError::AllocationAmountNotPositive => ErrorKind::Validation,
            AppError::DepositApplicationAmountNotPositive => ErrorKind::Validation,
            AppError::RefundAmountNotPositive => ErrorKind::Validation,
            AppError::DepositRefundAmountNotPositive => ErrorKind::Validation,
            AppError::ReceivableNotFound => ErrorKind::NotFound,
            AppError::PaymentNotFound => ErrorKind::NotFound,
            AppError::DepositNotFound => ErrorKind::NotFound,
            AppError::InvoiceNotFound => ErrorKind::NotFound,
            AppError::FolioNotFound => ErrorKind::NotFound,
            AppError::BillingAccountNotFound => ErrorKind::NotFound,
            AppError::PaymentAllocationNotFound => ErrorKind::NotFound,
            AppError::DepositApplicationNotFound => ErrorKind::NotFound,
            AppError::ReceivableNotOpen => ErrorKind::Conflict,
            AppError::PaymentExceedsOutstanding => ErrorKind::Conflict,
            AppError::PaymentFolioMismatch => ErrorKind::Conflict,
            AppError::AllocationExceedsUnapplied => ErrorKind::Conflict,
            AppError::AllocationExceedsOutstanding => ErrorKind::Conflict,
            AppError::DepositFolioMismatch => ErrorKind::Conflict,
            AppError::DepositApplicationExceedsUnapplied => ErrorKind::Conflict,
            AppError::DepositApplicationExceedsOutstanding => ErrorKind::Conflict,
            AppError::PaymentAllocationAlreadyReversed => ErrorKind::Conflict,
            AppError::DepositApplicationAlreadyReversed => ErrorKind::Conflict,
            AppError::ReverseForDisputedReceivable => ErrorKind::Conflict,
            AppError::ReverseForWrittenOffReceivable => ErrorKind::Conflict,
            AppError::ReverseForVoidedReceivable => ErrorKind::Conflict,
            AppError::OnlyOpenReceivablesDisputable => ErrorKind::Conflict,
            AppError::OnlyIssuedInvoicesVoidable => ErrorKind::Conflict,
            AppError::ReceivableCannotBeVoided => ErrorKind::Conflict,
            AppError::InvoiceHasActiveAllocations => ErrorKind::Conflict,
            AppError::InvoiceRequiresClosedFolio => ErrorKind::Conflict,
            AppError::BillingAccountNotAssigned => ErrorKind::Conflict,
            AppError::InvoiceNumberEmpty => ErrorKind::Validation,
            AppError::IssuedAmountNotPositive => ErrorKind::Validation,
            AppError::InvoiceAlreadyExistsForFolio => ErrorKind::Conflict,
            AppError::InvoiceNumberExists => ErrorKind::Conflict,
            AppError::FolioNotOpenForBillingAccount => ErrorKind::Conflict,
            AppError::FolioAlreadyClosed => ErrorKind::Conflict,
            AppError::FolioNotOpen => ErrorKind::Domain,
            AppError::InactiveReservationFolio => ErrorKind::Conflict,
            AppError::ActiveFolioExists => ErrorKind::Conflict,
            AppError::PaymentRequiresOpenFolio => ErrorKind::Conflict,
            AppError::AdditionOverflowed => ErrorKind::Overflow,
            AppError::SubtractionOverflowed => ErrorKind::Overflow,
            AppError::ReservationNotFound => ErrorKind::NotFound,
            AppError::OpenBusinessDateNotFound => ErrorKind::Conflict,
            AppError::ClosingBusinessDateNotFound => ErrorKind::Conflict,
            AppError::ActiveBusinessDateNotOpen => ErrorKind::Conflict,
            AppError::ActiveBusinessDateNotFound => ErrorKind::Conflict,
            AppError::ActiveBusinessDateNotClosing => ErrorKind::Conflict,
            AppError::UnresolvedArrivals => ErrorKind::Conflict,
            AppError::UnresolvedDepartures => ErrorKind::Conflict,
            AppError::UnpostedRoomCharges => ErrorKind::Conflict,
            AppError::RoomChargeBlockers => ErrorKind::Conflict,
            AppError::RoomChargesHaveBlockers => ErrorKind::Conflict,
            AppError::OperationDateMismatch => ErrorKind::Conflict,
            AppError::ExtendRequiresCheckedIn => ErrorKind::Conflict,
            AppError::ExtensionNotDue => ErrorKind::Conflict,
            AppError::RoomNotAssigned => ErrorKind::Conflict,
            AppError::DeferRequiresConfirmedArrival => ErrorKind::Conflict,
            AppError::DeferCheckInMismatch => ErrorKind::Conflict,
            AppError::DeferRequiresMultiNightStay => ErrorKind::Conflict,
            AppError::OpenFolioNotFound => ErrorKind::Conflict,
            AppError::NoShowNotDue => ErrorKind::Conflict,
            AppError::NoShowRequiresConfirmedArrival => ErrorKind::Conflict,
            AppError::BodyRequired => ErrorKind::Validation,
            AppError::DepartmentCodeRequiredForTrace => ErrorKind::Validation,
            AppError::DepartmentCodeOnlyForTrace => ErrorKind::Validation,
            AppError::DepartmentCodeRequired => ErrorKind::Validation,
            AppError::ReservationNoteNotFound => ErrorKind::NotFound,
            AppError::ReservationNoteAlreadyDeleted => ErrorKind::Conflict,
            AppError::ReservationTraceNotFound => ErrorKind::NotFound,
            AppError::ReservationTraceAlreadyDeleted => ErrorKind::Conflict,
            AppError::ActorIdRequired => ErrorKind::Validation,
            AppError::LeaseMinutesOutOfRange => ErrorKind::Validation,
            AppError::PlanCodeEmpty => ErrorKind::Validation,
            AppError::PackageCodeEmpty => ErrorKind::Validation,
            AppError::SortOrderNegative => ErrorKind::Validation,
            AppError::RatePlanNotFound => ErrorKind::NotFound,
            AppError::RatePlanInactive => ErrorKind::Conflict,
            AppError::PackageNotFound => ErrorKind::NotFound,
            AppError::PackageInactive => ErrorKind::Conflict,
            AppError::PackageDisplayNameEmpty => ErrorKind::Validation,
            AppError::DepartmentCodeEmpty => ErrorKind::Validation,
            AppError::AccountCodeEmpty => ErrorKind::Validation,
            AppError::PlanDisplayNameEmpty => ErrorKind::Validation,
            AppError::GuestNotFound => ErrorKind::NotFound,
            AppError::PreferenceValueRequired => ErrorKind::Validation,
            AppError::RoomNotFound => ErrorKind::NotFound,
            AppError::YearMonthMalformed => ErrorKind::Validation,
            AppError::AuditJsonMalformed => ErrorKind::Infrastructure,
            AppError::AuditIdMalformed => ErrorKind::Infrastructure,
            AppError::AuditAmountMalformed => ErrorKind::Infrastructure,
            AppError::AuditPaymentMethodInvalid => ErrorKind::Infrastructure,
        }
    }

    /// The message the service reports with the refusal.
    pub fn message(&self) -> (r: &'static str)
        ensures
            r@ == self.spec_message(),
    {
        match self {
            AppError::PaymentAmountNotPositive => "payment amount must be positive",
            AppError::AllocationAmountNotPositive => "allocation amount must be positive",
            AppError::DepositApplicationAmountNotPositive => "deposit application amount must be positive",
            AppError::RefundAmountNotPositive => "refund amount must be positive",
            AppError::DepositRefundAmountNotPositive => "deposit refund amount must be positive",
            AppError::ReceivableNotFound => "receivable not found",
            AppError::PaymentNotFound => "payment not found",
            AppError::DepositNotFound => "deposit not found",
            AppError::InvoiceNotFound => "invoice not found",
            AppError::FolioNotFound => "folio not found",
            AppError::BillingAccountNotFound => "billing account not found",
            AppError::PaymentAllocationNotFound => "payment allocation not found",
            AppError::DepositApplicationNotFound => "deposit application not found",
            AppError::ReceivableNotOpen => "receivable is not open",
            AppError::PaymentExceedsOutstanding => "payment amount exceeds outstanding receivable amount",
            AppError::PaymentFolioMismatch => "payment and receivable belong to different folios",
            AppError::AllocationExceedsUnapplied => "allocation amount exceeds payment unapplied amount",
            AppError::AllocationExceedsOutstanding => "allocation amount exceeds outstanding receivable amount",
            AppError::DepositFolioMismatch => "deposit and receivable belong to different folios",
            AppError::DepositApplicationExceedsUnapplied => "deposit application amount exceeds deposit unapplied amount",
            AppError::DepositApplicationExceedsOutstanding => "deposit application amount exceeds outstanding receivable amount",
            AppError::PaymentAllocationAlreadyReversed => "payment allocation already reversed",
            AppError::DepositApplicationAlreadyReversed => "deposit application already reversed",
            AppError::ReverseForDisputedReceivable => "cannot reverse deposit application for disputed receivable",
            AppError::ReverseForWrittenOffReceivable => "cannot reverse deposit application for written off receivable",
            AppError::ReverseForVoidedReceivable => "cannot reverse deposit application for voided receivable",
            AppError::OnlyOpenReceivablesDisputable => "only open receivables can be disputed",
            AppError::OnlyIssuedInvoicesVoidable => "only issued invoices can be voided",
            AppError::ReceivableCannotBeVoided => "invoice receivable cannot be voided",
            AppError::InvoiceHasActiveAllocations => "invoice with active payment allocations cannot be voided",
            AppError::InvoiceRequiresClosedFolio => "cannot issue invoice unless folio is closed",
            AppError::BillingAccountNotAssigned => "billing account not assigned",
            AppError::InvoiceNumberEmpty => "invoice number must not be empty",
            AppError::IssuedAmountNotPositive => "issued amount must be positive",
            AppError::InvoiceAlreadyExistsForFolio => "invoice already exists for folio",
            AppError::InvoiceNumberExists => "invoice number already exists",
            AppError::FolioNotOpenForBillingAccount => "cannot change billing responsibility unless folio is open",
            AppError::FolioAlreadyClosed => "folio already closed",
            AppError::FolioNotOpen => "folio is not open",
            AppError::InactiveReservationFolio => "cannot open folio for inactive reservation",
            AppError::ActiveFolioExists => "reservation already has an active folio",
            AppError::PaymentRequiresOpenFolio => "payment can only be received for open folio",
            AppError::AdditionOverflowed => "Addition overflowed",
            AppError::SubtractionOverflowed => "Subtraction overflowed",
            AppError::ReservationNotFound => "reservation not found",
            AppError::OpenBusinessDateNotFound => "open business date not found",
            AppError::ClosingBusinessDateNotFound => "closing business date not found",
            AppError::ActiveBusinessDateNotOpen => "active business date is not open",
            AppError::ActiveBusinessDateNotFound => "active business date not found",
            AppError::ActiveBusinessDateNotClosing => "active business date is not closing",
            AppError::UnresolvedArrivals => "night audit has unresolved arrivals",
            AppError::UnresolvedDepartures => "night audit has unresolved departures",
            AppError::UnpostedRoomCharges => "night audit has unposted room charges",
            AppError::RoomChargeBlockers => "night audit has room charge blockers",
            AppError::RoomChargesHaveBlockers => "night audit room charges have blockers",
            AppError::OperationDateMismatch => "operation date must match current business date",
            AppError::ExtendRequiresCheckedIn => "only checked-in confirmed stays can be extended during night audit",
            AppError::ExtensionNotDue => "night audit departure extension must be due by current business date",
            AppError::RoomNotAssigned => "room not assigned",
            AppError::DeferRequiresConfirmedArrival => "only confirmed arrivals can be deferred",
            AppError::DeferCheckInMismatch => "reservation check-in must match closing business date",
            AppError::DeferRequiresMultiNightStay => "arrival can only be deferred for multi-night stays",
            AppError::OpenFolioNotFound => "open folio not found",
            AppError::NoShowNotDue => "night audit no-show arrival must be due by current business date",
            AppError::NoShowRequiresConfirmedArrival => "only unresolved confirmed arrivals can be marked no-show during night audit",
            AppError::BodyRequired => "body required",
            AppError::DepartmentCodeRequiredForTrace => "department_code required for department trace",
            AppError::DepartmentCodeOnlyForTrace => "department_code is only allowed for department trace",
            AppError::DepartmentCodeRequired => "department_code required",
            AppError::ReservationNoteNotFound => "reservation note not found",
            AppError::ReservationNoteAlreadyDeleted => "reservation note already deleted",
            AppError::ReservationTraceNotFound => "reservation trace not found",
            AppError::ReservationTraceAlreadyDeleted => "reservation trace already deleted",
            AppError::ActorIdRequired => "actor_id is required",
            AppError::LeaseMinutesOutOfRange => "lease_minutes must be between 1 and 120",
            AppError::PlanCodeEmpty => "plan code must not be empty",
            AppError::PackageCodeEmpty => "package code must not be empty",
            AppError::SortOrderNegative => "sort order must not be negative",
            AppError::RatePlanNotFound => "rate plan not found",
            AppError::RatePlanInactive => "rate plan inactive",
            AppError::PackageNotFound => "package not found",
            AppError::PackageInactive => "package inactive",
            AppError::PackageDisplayNameEmpty => "package display name must not be empty",
            AppError::DepartmentCodeEmpty => "department code must not be empty",
            AppError::AccountCodeEmpty => "account code must not be empty",
            AppError::PlanDisplayNameEmpty => "plan display name must not be empty",
            AppError::GuestNotFound => "guest not found",
            AppError::PreferenceValueRequired => "guest preference value is required",
            AppError::RoomNotFound => "room not found",
            AppError::YearMonthMalformed => "year_month must be YYYY-MM",
            AppError::AuditJsonMalformed => "audit snapshot is not valid JSON",
            AppError::AuditIdMalformed => "audit snapshot holds a malformed id",
            AppError::AuditAmountMalformed => "audit snapshot holds a malformed amount",
            AppError::AuditPaymentMethodInvalid => "invalid payment method",
        }
    }
}

} // verus!
