//! Rate plans and the packages they are made of.
use vstd::prelude::*;

use crate::error::AppError;
use crate::text::{is_blank, is_blank_str};

verus! {

/// A package: a sellable component of a plan, booked to a department and an account.
#[derive(Clone, Debug)]
pub struct PackageDefinition {
    pub package_code: String,
    pub display_name: String,
    pub department_code: String,
    pub account_code: String,
    pub is_active: bool,
}

/// A rate plan.
#[derive(Clone, Debug)]
pub struct RatePlanDefinition {
    pub plan_code: String,
    pub display_name: String,
    pub is_active: bool,
}

/// A package placed in a rate plan.
#[derive(Clone, Debug)]
pub struct RatePlanPackage {
    pub plan_code: String,
    pub package_code: String,
    pub sort_order: i32,
}

/// The first field of a package definition that is blank, in the order checked.
pub open spec fn package_refusal(p: PackageDefinition) -> Option<AppError> {
    if is_blank(p.package_code@) {
        Some(AppError::PackageCodeEmpty)
    } else if is_blank(p.display_name@) {
        Some(AppError::PackageDisplayNameEmpty)
    } else if is_blank(p.department_code@) {
        Some(AppError::DepartmentCodeEmpty)
    } else if is_blank(p.account_code@) {
        Some(AppError::AccountCodeEmpty)
    } else {
        None
    }
}

/// Validating a new package: code, display name, department code and account code are all
/// required.
pub fn validate_package(package: &PackageDefinition) -> (r: Result<(), AppError>)
    ensures
        match package_refusal(*package) {
            Some(e) => r == Err::<(), AppError>(e),
            None => r is Ok,
        },
{
    if is_blank_str(package.package_code.as_str()) {
        return Err(AppError::PackageCodeEmpty);
    }
    if is_blank_str(package.display_name.as_str()) {
        return Err(AppError::PackageDisplayNameEmpty);
    }
    if is_blank_str(package.department_code.as_str()) {
        return Err(AppError::DepartmentCodeEmpty);
    }
    if is_blank_str(package.account_code.as_str()) {
        return Err(AppError::AccountCodeEmpty);
    }
    Ok(())
}

/// Validating a changed package definition: the package must exist; display name, department
/// code and account code are required.
pub fn validate_package_update(existing_found: bool, package: &PackageDefinition) -> (r: Result<
    (),
    AppError,
>)
    ensures
        !existing_found ==> r == Err::<(), AppError>(AppError::PackageNotFound),
        existing_found && is_blank(package.display_name@) ==> r == Err::<(), AppError>(
            AppError::PackageDisplayNameEmpty,
        ),
        existing_found && !is_blank(package.display_name@) && is_blank(package.department_code@)
            ==> r == Err::<(), AppError>(AppError::DepartmentCodeEmpty),
        existing_found && !is_blank(package.display_name@) && !is_blank(package.department_code@)
            && is_blank(package.account_code@) ==> r == Err::<(), AppError>(
            AppError::AccountCodeEmpty,
        ),
        existing_found && !is_blank(package.display_name@) && !is_blank(package.department_code@)
            && !is_blank(package.account_code@) ==> r is Ok,
{
    if !existing_found {
        return Err(AppError::PackageNotFound);
    }
    if is_blank_str(package.display_name.as_str()) {
        return Err(AppError::PackageDisplayNameEmpty);
    }
    if is_blank_str(package.department_code.as_str()) {
        return Err(AppError::DepartmentCodeEmpty);
    }
    if is_blank_str(package.account_code.as_str()) {
        return Err(AppError::AccountCodeEmpty);
    }
    Ok(())
}

/// Validating a new rate plan: code and display name are required.
pub fn validate_rate_plan(plan: &RatePlanDefinition) -> (r: Result<(), AppError>)
    ensures
        is_blank(plan.plan_code@) ==> r == Err::<(), AppError>(AppError::PlanCodeEmpty),
        !is_blank(plan.plan_code@) && is_blank(plan.display_name@) ==> r == Err::<(), AppError>(
            AppError::PlanDisplayNameEmpty,
        ),
        !is_blank(plan.plan_code@) && !is_blank(plan.display_name@) ==> r is Ok,
{
    if is_blank_str(plan.plan_code.as_str()) {
        return Err(AppError::PlanCodeEmpty);
    }
    if is_blank_str(plan.display_name.as_str()) {
        return Err(AppError::PlanDisplayNameEmpty);
    }
    Ok(())
}

/// The refusal of placing a package in a plan, in the order checked; `None` where it goes.
/// `plan_active` and `package_active` are `None` where the plan or the package is not found.
pub open spec fn assignment_refusal(
    a: RatePlanPackage,
    plan_active: Option<bool>,
    package_active: Option<bool>,
) -> Option<AppError> {
    if is_blank(a.plan_code@) {
        Some(AppError::PlanCodeEmpty)
    } else if is_blank(a.package_code@) {
        Some(AppError::PackageCodeEmpty)
    } else if a.sort_order < 0 {
        Some(AppError::SortOrderNegative)
    } else if plan_active is None {
        Some(AppError::RatePlanNotFound)
    } else if !plan_active->0 {
        Some(AppError::RatePlanInactive)
    } else if package_active is None {
        Some(AppError::PackageNotFound)
    } else if !package_active->0 {
        Some(AppError::PackageInactive)
    } else {
        None
    }
}

/// Validating the placement of a package in a plan: both codes are required, the sort order
/// must not be negative, and plan and package must exist and be active.
pub fn validate_package_assignment(
    assignment: &RatePlanPackage,
    plan_active: Option<bool>,
    package_active: Option<bool>,
) -> (r: Result<(), AppError>)
    ensures
        match assignment_refusal(*assignment, plan_active, package_active) {
            Some(e) => r == Err::<(), AppError>(e),
            None => r is Ok,
        },
{
    if is_blank_str(assignment.plan_code.as_str()) {
        return Err(AppError::PlanCodeEmpty);
    }
    if is_blank_str(assignment.package_code.as_str()) {
        return Err(AppError::PackageCodeEmpty);
    }
    if assignment.sort_order < 0 {
        return Err(AppError::SortOrderNegative);
    }
    match plan_active {
        None => {
            return Err(AppError::RatePlanNotFound);
        },
        Some(false) => {
            return Err(AppError::RatePlanInactive);
        },
        Some(true) => {},
    }
    match package_active {
        None => {
            return Err(AppError::PackageNotFound);
        },
        Some(false) => {
            return Err(AppError::PackageInactive);
        },
        Some(true) => {},
    }
    Ok(())
}

/// Activating or deactivating a package.
pub fn set_package_activation(package: Option<PackageDefinition>, is_active: bool) -> (r: Result<
    PackageDefinition,
    AppError,
>)
    ensures
        match package {
            None => r == Err::<PackageDefinition, AppError>(AppError::PackageNotFound),
            Some(p) => r == Ok::<PackageDefinition, AppError>(PackageDefinition { is_active, ..p }),
        },
{
    match package {
        None => Err(AppError::PackageNotFound),
        Some(p) => Ok(PackageDefinition { is_active, ..p }),
    }
}

/// Activating or deactivating a rate plan.
pub fn set_rate_plan_activation(plan: Option<RatePlanDefinition>, is_active: bool) -> (r: Result<
    RatePlanDefinition,
    AppError,
>)
    ensures
        match plan {
            None => r == Err::<RatePlanDefinition, AppError>(AppError::RatePlanNotFound),
            Some(p) => r == Ok::<RatePlanDefinition, AppError>(RatePlanDefinition { is_active, ..p }),
        },
{
    match plan {
        None => Err(AppError::RatePlanNotFound),
        Some(p) => Ok(RatePlanDefinition { is_active, ..p }),
    }
}

} // verus!
