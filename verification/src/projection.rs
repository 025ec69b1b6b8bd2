//! Which read models have to be refreshed after a change.
use vstd::prelude::*;

use crate::date::{date_month_text, date_text, naive_date_month_text, naive_date_text, Date};

verus! {

/// The read models kept from the operational records.
#[derive(Clone, Copy, Debug, PartialEq, Eq, Structural)]
pub enum ProjectionNode {
    GuestAggregate,
    ChangePattern,
    InventoryAggregate,
    DailyRoomClassKpiAggregate,
    DailyHotelKpiAggregate,
    MonthlyRoomClassKpiAggregate,
    MonthlyHotelKpiAggregate,
}

/// The area a refresh belongs to.
#[derive(Clone, Copy, Debug, PartialEq, Eq, Structural)]
pub enum ProjectionScope {
    Guest,
    Timeline,
    Inventory,
}

/// What part of a read model is refreshed.
#[derive(Clone, Debug)]
pub enum ProjectionRefreshTarget {
    Guest { guest_id: u128 },
    OperationEvent { event_id: u128 },
    InventoryDate { date: String },
    KpiDate { date: String },
    KpiMonth { year_month: String },
}

/// One refresh to run.
#[derive(Clone, Debug)]
pub struct ProjectionInvalidation {
    pub node: ProjectionNode,
    pub scope: ProjectionScope,
    pub target: ProjectionRefreshTarget,
}

/// The text a refresh target carries, if any.
pub open spec fn target_text(t: ProjectionRefreshTarget) -> Option<Seq<char>> {
    match t {
        ProjectionRefreshTarget::InventoryDate { date } => Some(date@),
        ProjectionRefreshTarget::KpiDate { date } => Some(date@),
        ProjectionRefreshTarget::KpiMonth { year_month } => Some(year_month@),
        _ => None,
    }
}

/// `r` lists the refreshes of the inventory and KPI read models for one service date, in the
/// order they run: the inventory of the day, the daily room-class and hotel KPIs, and the
/// monthly room-class and hotel KPIs of the day's month.
pub open spec fn inventory_refresh_plan(r: Seq<ProjectionInvalidation>, service_date: Date) -> bool {
    &&& r.len() == 5
    &&& r[0].node == ProjectionNode::InventoryAggregate
    &&& r[1].node == ProjectionNode::DailyRoomClassKpiAggregate
    &&& r[2].node == ProjectionNode::DailyHotelKpiAggregate
    &&& r[3].node == ProjectionNode::MonthlyRoomClassKpiAggregate
    &&& r[4].node == ProjectionNode::MonthlyHotelKpiAggregate
    &&& forall|i: int| 0 <= i < 5 ==> (#[trigger] r[i]).scope == ProjectionScope::Inventory
    &&& r[0].target is InventoryDate
    &&& r[1].target is KpiDate
    &&& r[2].target is KpiDate
    &&& r[3].target is KpiMonth
    &&& r[4].target is KpiMonth
    &&& forall|i: int|
        0 <= i < 3 ==> target_text(#[trigger] r[i].target) == Some(
            naive_date_text(service_date.day_of() as i32),
        )
    &&& forall|i: int|
        3 <= i < 5 ==> target_text(#[trigger] r[i].target) == Some(
            naive_date_month_text(service_date.day_of() as i32),
        )
}

/// The refreshes of the inventory and KPI read models for one service date.
pub fn inventory_refreshes(service_date: Date) -> (r: Vec<ProjectionInvalidation>)
    ensures
        inventory_refresh_plan(r@, service_date),
{
    let mut out: Vec<ProjectionInvalidation> = Vec::new();
    out.push(
        ProjectionInvalidation {
            node: ProjectionNode::InventoryAggregate,
            scope: ProjectionScope::Inventory,
            target: ProjectionRefreshTarget::InventoryDate { date: date_text(service_date) },
        },
    );
    out.push(
        ProjectionInvalidation {
            node: ProjectionNode::DailyRoomClassKpiAggregate,
            scope: ProjectionScope::Inventory,
            target: ProjectionRefreshTarget::KpiDate { date: date_text(service_date) },
        },
    );
    out.push(
        ProjectionInvalidation {
            node: ProjectionNode::DailyHotelKpiAggregate,
            scope: ProjectionScope::Inventory,
            target: ProjectionRefreshTarget::KpiDate { date: date_text(service_date) },
        },
    );
    out.push(
        ProjectionInvalidation {
            node: ProjectionNode::MonthlyRoomClassKpiAggregate,
            scope: ProjectionScope::Inventory,
            target: ProjectionRefreshTarget::KpiMonth { year_month: date_month_text(service_date) },
        },
    );
    out.push(
        ProjectionInvalidation {
            node: ProjectionNode::MonthlyHotelKpiAggregate,
            scope: ProjectionScope::Inventory,
            target: ProjectionRefreshTarget::KpiMonth { year_month: date_month_text(service_date) },
        },
    );
    out
}

/// The refreshes after a departure is extended: the aggregate of each guest on the stay, the
/// change pattern of the operation event, then the inventory of the extension night and of
/// the new check-out date.
pub fn departure_extension_refreshes(
    guest_ids: &Vec<u128>,
    event_id: u128,
    extension_night: Date,
    new_check_out: Date,
) -> (r: Vec<ProjectionInvalidation>)
    ensures
        r@.len() == guest_ids@.len() + 11,
        forall|i: int|
            0 <= i < guest_ids@.len() ==> (#[trigger] r@[i]).node == ProjectionNode::GuestAggregate
                && r@[i].scope == ProjectionScope::Guest && r@[i].target
                == (ProjectionRefreshTarget::Guest { guest_id: guest_ids@[i] }),
        r@[guest_ids@.len() as int].node == ProjectionNode::ChangePattern,
        r@[guest_ids@.len() as int].scope == ProjectionScope::Timeline,
        r@[guest_ids@.len() as int].target == (ProjectionRefreshTarget::OperationEvent { event_id }),
        inventory_refresh_plan(r@.subrange(guest_ids@.len() + 1int, guest_ids@.len() + 6int), extension_night),
        inventory_refresh_plan(r@.subrange(guest_ids@.len() + 6int, guest_ids@.len() + 11int), new_check_out),
{
    let mut out: Vec<ProjectionInvalidation> = Vec::new();
    let mut i: usize = 0;
    while i < guest_ids.len()
        invariant
            i <= guest_ids@.len(),
            out@.len() == i,
            forall|j: int|
                0 <= j < i ==> (#[trigger] out@[j]).node == ProjectionNode::GuestAggregate
                    && out@[j].scope == ProjectionScope::Guest && out@[j].target
                    == (ProjectionRefreshTarget::Guest { guest_id: guest_ids@[j] }),
        decreases guest_ids@.len() - i,
    {
        out.push(
            ProjectionInvalidation {
                node: ProjectionNode::GuestAggregate,
                scope: ProjectionScope::Guest,
                target: ProjectionRefreshTarget::Guest { guest_id: guest_ids[i] },
            },
        );
        i = i + 1;
    }
    out.push(
        ProjectionInvalidation {
            node: ProjectionNode::ChangePattern,
            scope: ProjectionScope::Timeline,
            target: ProjectionRefreshTarget::OperationEvent { event_id },
        },
    );
    let mut first = inventory_refreshes(extension_night);
    let mut second = inventory_refreshes(new_check_out);
    let ghost prefix = out@;
    let ghost a = first@;
    let ghost b = second@;
    out.append(&mut first);
    out.append(&mut second);
    assert(out@ == prefix + a + b);
    assert(out@.subrange(guest_ids@.len() + 1int, guest_ids@.len() + 6int) =~= a);
    assert(out@.subrange(guest_ids@.len() + 6int, guest_ids@.len() + 11int) =~= b);
    out
}

} // verus!
