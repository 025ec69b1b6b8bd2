//! Reading the operation history: which folio an event belongs to, the order in which events
//! are listed, and the folio and room history shown with a reservation.
use vstd::prelude::*;
#[allow(unused_imports)]
use vstd::string::StringExecFns;

use crate::folio::{Folio, FolioStatus};

verus! {

/// How the folio of an operation event is found from the kind of record it changed.
#[derive(Clone, Copy, Debug, PartialEq, Eq, Structural)]
pub enum FolioResolution {
    /// The record is the folio itself.
    IsFolio,
    /// The record is an invoice; its folio.
    ViaInvoice,
    /// The record is a receivable; the folio of its invoice.
    ViaReceivable,
    /// The record is a payment allocation; the folio of its receivable's invoice.
    ViaPaymentAllocation,
    /// The record is a deposit application; the folio of its deposit.
    ViaDepositApplication,
    /// The record is a payment; its folio.
    ViaPayment,
    /// The record is a deposit; its folio.
    ViaDeposit,
    /// The record belongs to no folio.
    Unrelated,
}

pub open spec fn resolution_of(aggregate_type: Seq<char>) -> FolioResolution {
    if aggregate_type == "folio"@ {
        FolioResolution::IsFolio
    } else if aggregate_type == "invoice"@ {
        FolioResolution::ViaInvoice
    } else if aggregate_type == "receivable"@ {
        FolioResolution::ViaReceivable
    } else if aggregate_type == "payment_allocation"@ {
        FolioResolution::ViaPaymentAllocation
    } else if aggregate_type == "deposit_application"@ {
        FolioResolution::ViaDepositApplication
    } else if aggregate_type == "payment"@ {
        FolioResolution::ViaPayment
    } else if aggregate_type == "deposit"@ {
        FolioResolution::ViaDeposit
    } else {
        FolioResolution::Unrelated
    }
}

/// How to find the folio of an event on a record of the given aggregate type.
pub fn folio_resolution(aggregate_type: &String) -> (r: FolioResolution)
    ensures
        r == resolution_of(aggregate_type@),
{
    if *aggregate_type == String::from_str("folio") {
        FolioResolution::IsFolio
    } else if *aggregate_type == String::from_str("invoice") {
        FolioResolution::ViaInvoice
    } else if *aggregate_type == String::from_str("receivable") {
        FolioResolution::ViaReceivable
    } else if *aggregate_type == String::from_str("payment_allocation") {
        FolioResolution::ViaPaymentAllocation
    } else if *aggregate_type == String::from_str("deposit_application") {
        FolioResolution::ViaDepositApplication
    } else if *aggregate_type == String::from_str("payment") {
        FolioResolution::ViaPayment
    } else if *aggregate_type == String::from_str("deposit") {
        FolioResolution::ViaDeposit
    } else {
        FolioResolution::Unrelated
    }
}

/// The positions, in order, of the events whose folio is `folio_id`.
pub open spec fn positions_of_folio(resolved: Seq<Option<u128>>, folio_id: u128) -> Seq<usize>
    decreases resolved.len(),
{
    if resolved.len() == 0 {
        Seq::empty()
    } else {
        let rest = positions_of_folio(resolved.drop_last(), folio_id);
        if resolved.last() == Some(folio_id) {
            rest.push((resolved.len() - 1) as usize)
        } else {
            rest
        }
    }
}

/// The events of a folio's history: the positions, in order, of the events whose resolved
/// folio is `folio_id` (events that belong to no folio are left out).
pub fn events_of_folio(resolved: &Vec<Option<u128>>, folio_id: u128) -> (r: Vec<usize>)
    ensures
        r@ == positions_of_folio(resolved@, folio_id),
{
    let mut out: Vec<usize> = Vec::new();
    let mut i: usize = 0;
    assert(resolved@.take(0) =~= Seq::<Option<u128>>::empty());
    while i < resolved.len()
        invariant
            i <= resolved@.len(),
            out@ == positions_of_folio(resolved@.take(i as int), folio_id),
        decreases resolved@.len() - i,
    {
        assert(resolved@.take(i + 1).drop_last() =~= resolved@.take(i as int));
        assert(resolved@.take(i + 1).last() == resolved@[i as int]);
        if resolved[i] == Some(folio_id) {
            out.push(i);
        }
        i = i + 1;
    }
    assert(resolved@.take(resolved@.len() as int) =~= resolved@);
    out
}

/// Entry `i` is listed before entry `j`: it happened earlier, or at the same time and was
/// read earlier.
pub open spec fn listed_before(keys: Seq<i64>, i: int, j: int) -> bool {
    keys[i] < keys[j] || (keys[i] == keys[j] && i < j)
}

/// `order` lists positions of `keys` by time, ties in the order they were read.
pub open spec fn is_time_order(keys: Seq<i64>, order: Seq<usize>, n: int) -> bool {
    &&& order.len() == n
    &&& forall|a: int| 0 <= a < n ==> (#[trigger] order[a]) < keys.len()
    &&& forall|a: int, b: int|
        0 <= a < b < n ==> listed_before(keys, #[trigger] order[a] as int, #[trigger] order[b] as int)
}

/// The order in which events are listed: by occurrence time, events of the same time in the
/// order they were read (a stable sort).  The result lists every position exactly once.
pub fn order_by_occurred_at(occurred_at: &Vec<i64>) -> (r: Vec<usize>)
    ensures
        is_time_order(occurred_at@, r@, occurred_at@.len() as int),
        forall|x: usize| x < occurred_at@.len() ==> #[trigger] r@.contains(x),
{
    let keys = occurred_at;
    let n = keys.len();
    let mut order: Vec<usize> = Vec::new();
    let mut i: usize = 0;
    while i < n
        invariant
            n == keys@.len(),
            i <= n,
            order@.len() == i,
            forall|a: int| 0 <= a < i ==> (#[trigger] order@[a]) < i,
            forall|a: int, b: int|
                0 <= a < b < i ==> listed_before(
                    keys@,
                    #[trigger] order@[a] as int,
                    #[trigger] order@[b] as int,
                ),
            forall|x: usize| x < i ==> #[trigger] order@.contains(x),
        decreases n - i,
    {
        let key = keys[i];
        let mut pos: usize = i;
        while pos > 0 && keys[order[pos - 1]] > key
            invariant
                n == keys@.len(),
                i < n,
                key == keys@[i as int],
                order@.len() == i,
                pos <= i,
                forall|a: int| 0 <= a < i ==> (#[trigger] order@[a]) < i,
                forall|a: int| pos <= a < i ==> keys@[(#[trigger] order@[a]) as int] > key,
            decreases pos,
        {
            pos = pos - 1;
        }
        let ghost before = order@;
        order.insert(pos, i);
        proof {
            assert(order@ == before.insert(pos as int, i));
            assert forall|a: int| 0 <= a < i + 1 implies (#[trigger] order@[a]) < i + 1 by {
                if a < pos {
                    assert(order@[a] == before[a]);
                } else if a > pos {
                    assert(order@[a] == before[a - 1]);
                }
            }
            assert forall|a: int, b: int| 0 <= a < b < i + 1 implies listed_before(
                keys@,
                #[trigger] order@[a] as int,
                #[trigger] order@[b] as int,
            ) by {
                if pos > 0 {
                    assert(keys@[before[pos - 1] as int] <= key);
                }
                if b < pos {
                    assert(order@[a] == before[a] && order@[b] == before[b]);
                } else if b == pos {
                    assert(order@[a] == before[a]);
                    assert(order@[b] == i);
                    if a < pos - 1 {
                        assert(listed_before(keys@, before[a] as int, before[pos - 1] as int));
                    }
                } else if a == pos {
                    assert(order@[a] == i);
                    assert(order@[b] == before[b - 1]);
                } else if a < pos {
                    assert(order@[a] == before[a] && order@[b] == before[b - 1]);
                } else {
                    assert(order@[a] == before[a - 1] && order@[b] == before[b - 1]);
                }
            }
            assert forall|x: usize| x < i + 1 implies #[trigger] order@.contains(x) by {
                if x == i {
                    assert(order@[pos as int] == i);
                } else {
                    assert(before.contains(x));
                    let w = choose|w: int| 0 <= w < before.len() && before[w] == x;
                    if w < pos {
                        assert(order@[w] == x);
                    } else {
                        assert(order@[w + 1] == x);
                    }
                }
            }
        }
        i = i + 1;
    }
    order
}

/// A folio as listed with a reservation.
#[derive(Clone, Copy, Debug)]
pub struct ReservationDetailFolioLink {
    pub folio_id: u128,
    pub status: FolioStatus,
}

/// The position of the first active (open or locked) folio.
pub open spec fn first_active_folio(folios: Seq<Folio>) -> Option<int>
    decreases folios.len(),
{
    if folios.len() == 0 {
        None
    } else if folios[0].status == FolioStatus::Open || folios[0].status == FolioStatus::Locked {
        Some(0)
    } else {
        match first_active_folio(folios.drop_first()) {
            Some(i) => Some(i + 1),
            None => None,
        }
    }
}

/// The folio a reservation is currently billed on (its first active folio) and the list of
/// all its folios.
pub fn reservation_folio_summary(folios: &Vec<Folio>) -> (r: (
    Option<u128>,
    Vec<ReservationDetailFolioLink>,
))
    ensures
        match first_active_folio(folios@) {
            Some(i) => r.0 == Some(folios@[i].id),
            None => r.0 is None,
        },
        r.1@.len() == folios@.len(),
        forall|k: int|
            0 <= k < folios@.len() ==> (#[trigger] r.1@[k]).folio_id == folios@[k].id
                && r.1@[k].status == folios@[k].status,
{
    let mut current: Option<u128> = None;
    let mut links: Vec<ReservationDetailFolioLink> = Vec::new();
    let mut i: usize = folios.len();
    assert(folios@.skip(folios@.len() as int) =~= Seq::<Folio>::empty());
    while i > 0
        invariant
            i <= folios@.len(),
            match first_active_folio(folios@.skip(i as int)) {
                Some(k) => current == Some(folios@[k + i].id),
                None => current is None,
            },
        decreases i,
    {
        i = i - 1;
        assert(folios@.skip(i as int).drop_first() =~= folios@.skip(i + 1));
        let f = folios[i];
        if f.status == FolioStatus::Open || f.status == FolioStatus::Locked {
            current = Some(f.id);
        }
    }
    assert(folios@.skip(0) =~= folios@);
    let mut k: usize = 0;
    while k < folios.len()
        invariant
            k <= folios@.len(),
            links@.len() == k,
            forall|j: int|
                0 <= j < k ==> (#[trigger] links@[j]).folio_id == folios@[j].id && links@[j].status
                    == folios@[j].status,
        decreases folios@.len() - k,
    {
        links.push(ReservationDetailFolioLink { folio_id: folios[k].id, status: folios[k].status });
        k = k + 1;
    }
    (current, links)
}

/// A recorded change of one field of a reservation.  `occurred_at` is in microseconds since
/// the Unix epoch (UTC).
#[derive(Clone, Debug)]
pub struct ReservationTransition {
    pub id: u128,
    pub reservation_id: u128,
    pub field_name: String,
    pub before_value: String,
    pub after_value: String,
    pub occurred_at: i64,
}

/// The transitions that changed the room, in order.
pub open spec fn room_changes(s: Seq<ReservationTransition>) -> Seq<ReservationTransition>
    decreases s.len(),
{
    if s.len() == 0 {
        Seq::empty()
    } else {
        let rest = room_changes(s.drop_last());
        if s.last().field_name@ == "room_id"@ {
            rest.push(s.last())
        } else {
            rest
        }
    }
}

/// The room history of a reservation: its transitions of the field `room_id`.
pub fn room_history(transitions: Vec<ReservationTransition>) -> (r: Vec<ReservationTransition>)
    ensures
        r@ == room_changes(transitions@),
{
    let room_field = String::from_str("room_id");
    let ghost given = transitions@;
    let mut rest = transitions;
    let mut out: Vec<ReservationTransition> = Vec::new();
    let ghost mut k: int = 0;
    assert(given.take(0) =~= Seq::<ReservationTransition>::empty());
    assert(given.skip(0) =~= given);
    while rest.len() > 0
        invariant
            0 <= k <= given.len(),
            rest@ == given.skip(k),
            room_field@ == "room_id"@,
            out@ == room_changes(given.take(k)),
        decreases rest@.len(),
    {
        let t = rest.remove(0);
        proof {
            assert(given.take(k + 1).drop_last() =~= given.take(k));
            assert(given.take(k + 1).last() == given[k]);
            assert(rest@ =~= given.skip(k + 1));
            k = k + 1;
        }
        if t.field_name == room_field {
            out.push(t);
        }
    }
    assert(given.take(given.len() as int) =~= given);
    out
}

} // verus!
