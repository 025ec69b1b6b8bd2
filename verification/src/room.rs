//! Rooms, their updates, and which reservation a room is shown as assigned to.
use vstd::prelude::*;
use vstd::std_specs::hash::group_hash_axioms;
use std::collections::HashMap;

use crate::error::AppError;
use crate::reservation::{Reservation, ReservationStatus, StayStatus};

verus! {

broadcast use group_hash_axioms;

/// A room.  `A` is the type in which the room's area is kept.
#[derive(Clone, Debug)]
pub struct Room<A> {
    pub id: u128,
    pub room_no: String,
    pub room_class: String,
    pub capacity: Option<i32>,
    pub area_sqm: A,
    pub is_physical: bool,
    pub is_active: bool,
}

/// The changes requested for a room; `None` leaves a field as it is.
#[derive(Clone, Debug)]
pub struct RoomUpdate<A> {
    pub room_no: Option<String>,
    pub room_class: Option<String>,
    pub capacity: Option<Option<i32>>,
    pub area_sqm: Option<A>,
    pub is_physical: Option<bool>,
}

/// A room as the reservation detail shows it.
#[derive(Clone, Debug)]
pub struct ReservationDetailRoom<A> {
    pub room: Room<A>,
}

/// Applies an update to a room.  A room that is made non-physical loses its capacity, whatever
/// capacity the same update gives.
pub fn update_room<A>(room: Option<Room<A>>, update: RoomUpdate<A>) -> (r: Result<Room<A>, AppError>)
    ensures
        match room {
            None => r == Err::<Room<A>, AppError>(AppError::RoomNotFound),
            Some(old) => r matches Ok(new) && {
                &&& new.id == old.id
                &&& new.is_active == old.is_active
                &&& new.room_no == match update.room_no {
                    Some(v) => v,
                    None => old.room_no,
                }
                &&& new.room_class == match update.room_class {
                    Some(v) => v,
                    None => old.room_class,
                }
                &&& new.area_sqm == match update.area_sqm {
                    Some(v) => v,
                    None => old.area_sqm,
                }
                &&& new.is_physical == match update.is_physical {
                    Some(v) => v,
                    None => old.is_physical,
                }
                &&& new.capacity == if update.is_physical == Some(false) {
                    None
                } else {
                    match update.capacity {
                        Some(c) => c,
                        None => old.capacity,
                    }
                }
            },
        },
{
    let mut room = match room {
        Some(room) => room,
        None => {
            return Err(AppError::RoomNotFound);
        },
    };
    let RoomUpdate { room_no, room_class, capacity, area_sqm, is_physical } = update;
    if let Some(room_no) = room_no {
        room.room_no = room_no;
    }
    if let Some(room_class) = room_class {
        room.room_class = room_class;
    }
    if let Some(capacity) = capacity {
        room.capacity = capacity;
    }
    if let Some(area_sqm) = area_sqm {
        room.area_sqm = area_sqm;
    }
    if let Some(is_physical) = is_physical {
        room.is_physical = is_physical;
        if !is_physical {
            room.capacity = None;
        }
    }
    Ok(room)
}

/// Activating or deactivating a room.
pub fn update_room_activation<A>(room: Option<Room<A>>, is_active: bool) -> (r: Result<
    Room<A>,
    AppError,
>)
    ensures
        match room {
            None => r == Err::<Room<A>, AppError>(AppError::RoomNotFound),
            Some(old) => r == Ok::<Room<A>, AppError>(Room { is_active, ..old }),
        },
{
    match room {
        None => Err(AppError::RoomNotFound),
        Some(old) => Ok(Room { is_active, ..old }),
    }
}

/// Which reservation a room is shown with on a service date.
#[derive(Clone, Debug)]
pub enum RoomAssignmentVisibility {
    /// The room is taken by this reservation.
    Assigned(Reservation),
    /// The room is held only by a no-show: worth a warning.
    NoShowWarning(Reservation),
    /// Nothing holds the room.
    Unassigned,
}

/// Cancelled reservations and finished stays do not hold a room.
pub open spec fn is_released(r: Reservation) -> bool {
    r.reservation_status == ReservationStatus::Cancelled || r.stay_status == Some(
        StayStatus::CheckedOut,
    )
}

/// A no-show that still sits on the room.
pub open spec fn is_no_show_hold(r: Reservation) -> bool {
    !is_released(r) && (r.reservation_status == ReservationStatus::NoShow || r.stay_status == Some(
        StayStatus::NoShow,
    ))
}

/// A confirmed reservation that is expected or in house.
pub open spec fn is_assignment(r: Reservation) -> bool {
    &&& !is_released(r)
    &&& !is_no_show_hold(r)
    &&& r.reservation_status == ReservationStatus::Confirmed
    &&& (r.stay_status == Some(StayStatus::Confirmed) || r.stay_status == Some(
        StayStatus::CheckedIn,
    ))
}

/// The position of the first reservation that is an assignment.
pub open spec fn first_assignment(s: Seq<Reservation>) -> Option<int>
    decreases s.len(),
{
    if s.len() == 0 {
        None
    } else if is_assignment(s[0]) {
        Some(0)
    } else {
        match first_assignment(s.drop_first()) {
            Some(i) => Some(i + 1),
            None => None,
        }
    }
}

/// The position of the first no-show hold.
pub open spec fn first_no_show_hold(s: Seq<Reservation>) -> Option<int>
    decreases s.len(),
{
    if s.len() == 0 {
        None
    } else if is_no_show_hold(s[0]) {
        Some(0)
    } else {
        match first_no_show_hold(s.drop_first()) {
            Some(i) => Some(i + 1),
            None => None,
        }
    }
}

/// What the room shows, given the reservations assigned to it on the date in the order listed:
/// the first assignment if there is one; otherwise a warning about the first no-show;
/// otherwise nothing.
pub open spec fn visibility_of(s: Seq<Reservation>) -> RoomAssignmentVisibility {
    match first_assignment(s) {
        Some(i) => RoomAssignmentVisibility::Assigned(s[i]),
        None => match first_no_show_hold(s) {
            Some(j) => RoomAssignmentVisibility::NoShowWarning(s[j]),
            None => RoomAssignmentVisibility::Unassigned,
        },
    }
}

/// What a room shows is sound: an assigned reservation is an active assignment; a no-show
/// warning names a no-show and is only shown when no reservation is an active assignment;
/// an unassigned room has neither.
pub proof fn lemma_visibility_is_sound(s: Seq<Reservation>)
    ensures
        visibility_of(s) matches RoomAssignmentVisibility::Assigned(r) ==> is_assignment(r),
        visibility_of(s) matches RoomAssignmentVisibility::NoShowWarning(r) ==> is_no_show_hold(r)
            && forall|k: int| 0 <= k < s.len() ==> !is_assignment(#[trigger] s[k]),
        visibility_of(s) matches RoomAssignmentVisibility::Unassigned ==> forall|k: int|
            0 <= k < s.len() ==> !is_assignment(#[trigger] s[k]) && !is_no_show_hold(s[k]),
{
    lemma_first_index_bounds(s);
}

proof fn lemma_first_index_bounds(s: Seq<Reservation>)
    ensures
        first_assignment(s) matches Some(i) ==> 0 <= i < s.len() && is_assignment(s[i]),
        first_no_show_hold(s) matches Some(j) ==> 0 <= j < s.len() && is_no_show_hold(s[j]),
        first_assignment(s) is None ==> forall|k: int| 0 <= k < s.len() ==> !is_assignment(s[k]),
        first_no_show_hold(s) is None ==> forall|k: int|
            0 <= k < s.len() ==> !is_no_show_hold(s[k]),
    decreases s.len(),
{
    if s.len() > 0 {
        lemma_first_index_bounds(s.drop_first());
        assert forall|k: int| 0 < k < s.len() implies s.drop_first()[k - 1] == s[k] by {}
    }
}

/// What a room shows for the reservations assigned to it on a service date.
pub fn build_assignment_visibility(reservations: Vec<Reservation>) -> (r: RoomAssignmentVisibility)
    ensures
        r == visibility_of(reservations@),
{
    let ghost input = reservations@;
    let mut list = reservations;
    let mut warning: Option<usize> = None;
    let mut i: usize = 0;
    assert(list@.skip(0) =~= list@);
    while i < list.len()
        invariant
            list@ == input,
            input == reservations@,
            i <= list@.len(),
            first_assignment(list@) == match first_assignment(list@.skip(i as int)) {
                Some(k) => Some(k + i),
                None => None::<int>,
            },
            match warning {
                Some(w) => first_no_show_hold(list@) == Some(w as int) && w < i,
                None => first_no_show_hold(list@) == match first_no_show_hold(
                    list@.skip(i as int),
                ) {
                    Some(k) => Some(k + i),
                    None => None::<int>,
                },
            },
        decreases list@.len() - i,
    {
        assert(list@.skip(i as int).drop_first() =~= list@.skip(i + 1));
        assert(list@.skip(i as int)[0] == list@[i as int]);
        let res = &list[i];
        let released = res.reservation_status == ReservationStatus::Cancelled || match res.stay_status {
            Some(StayStatus::CheckedOut) => true,
            _ => false,
        };
        if !released {
            let no_show = res.reservation_status == ReservationStatus::NoShow || match res.stay_status {
                Some(StayStatus::NoShow) => true,
                _ => false,
            };
            if no_show {
                if warning.is_none() {
                    warning = Some(i);
                }
            } else {
                let expected = match res.stay_status {
                    Some(StayStatus::Confirmed) | Some(StayStatus::CheckedIn) => true,
                    _ => false,
                };
                if res.reservation_status == ReservationStatus::Confirmed && expected {
                    assert(first_assignment(input.skip(i as int)) == Some(0int));
                    let chosen = list.remove(i);
                    return RoomAssignmentVisibility::Assigned(chosen);
                }
            }
        }
        i = i + 1;
    }
    assert(list@.skip(i as int).len() == 0);
    match warning {
        Some(w) => {
            let chosen = list.remove(w);
            RoomAssignmentVisibility::NoShowWarning(chosen)
        },
        None => RoomAssignmentVisibility::Unassigned,
    }
}

/// The reservations with a room, grouped by room, each group in the order listed.
pub open spec fn grouped_by_room(s: Seq<Reservation>) -> Map<u128, Seq<Reservation>>
    decreases s.len(),
{
    if s.len() == 0 {
        Map::empty()
    } else {
        let m = grouped_by_room(s.drop_last());
        let r = s.last();
        match r.room_id {
            Some(id) => m.insert(
                id,
                if m.contains_key(id) {
                    m[id]
                } else {
                    Seq::empty()
                }.push(r),
            ),
            None => m,
        }
    }
}

/// Groups reservations by the room they are assigned to; reservations without a room are left
/// out.
pub fn group_reservations_by_room_id(reservations: Vec<Reservation>) -> (r: HashMap<
    u128,
    Vec<Reservation>,
>)
    ensures
        r@.dom() == grouped_by_room(reservations@).dom(),
        forall|k: u128| #[trigger]
            r@.contains_key(k) ==> r@[k]@ == grouped_by_room(reservations@)[k],
{
    let ghost given = reservations@;
    let mut rest = reservations;
    let mut grouped: HashMap<u128, Vec<Reservation>> = HashMap::new();
    let ghost mut k: int = 0;
    assert(given.take(0) =~= Seq::<Reservation>::empty());
    assert(given.skip(0) =~= given);
    assert(grouped@.dom() =~= grouped_by_room(given.take(0)).dom());
    while rest.len() > 0
        invariant
            0 <= k <= given.len(),
            rest@ == given.skip(k),
            grouped@.dom() == grouped_by_room(given.take(k)).dom(),
            forall|key: u128| #[trigger]
                grouped@.contains_key(key) ==> grouped@[key]@ == grouped_by_room(
                    given.take(k),
                )[key],
        decreases rest@.len(),
    {
        let res = rest.remove(0);
        let ghost before = grouped@;
        proof {
            assert(given.take(k + 1).drop_last() =~= given.take(k));
            assert(given.take(k + 1).last() == given[k]);
            assert(rest@ =~= given.skip(k + 1));
            k = k + 1;
        }
        match res.room_id {
            Some(room_id) => {
                let group = match grouped.remove(&room_id) {
                    Some(mut v) => {
                        v.push(res);
                        v
                    },
                    None => {
                        let mut v: Vec<Reservation> = Vec::new();
                        v.push(res);
                        v
                    },
                };
                grouped.insert(room_id, group);
                assert(grouped@.dom() =~= grouped_by_room(given.take(k)).dom());
            },
            None => {},
        }
    }
    assert(given.take(given.len() as int) =~= given);
    grouped
}

/// The daily state listed for the room `room_id` among `states` (pairs of a room and its
/// state on one date): the last one listed, as collecting them into a map by room keeps it.
pub open spec fn last_state_of<D>(states: Seq<(u128, D)>, room_id: u128) -> Option<D>
    decreases states.len(),
{
    if states.len() == 0 {
        None
    } else if states.last().0 == room_id {
        Some(states.last().1)
    } else {
        last_state_of(states.drop_last(), room_id)
    }
}

/// The daily state of a room on the listed date (see `last_state_of`).
pub fn last_daily_state<D: Copy>(states: &Vec<(u128, D)>, room_id: u128) -> (r: Option<D>)
    ensures
        r == last_state_of(states@, room_id),
{
    let mut k: usize = states.len();
    assert(states@.take(k as int) =~= states@);
    while k > 0
        invariant
            k <= states@.len(),
            last_state_of(states@, room_id) == last_state_of(states@.take(k as int), room_id),
        decreases k,
    {
        assert(states@.take(k as int).last() == states@[k - 1]);
        assert(states@.take(k as int).drop_last() =~= states@.take(k - 1));
        if states[k - 1].0 == room_id {
            return Some(states[k - 1].1);
        }
        k = k - 1;
    }
    None
}

/// What a room shows, taking its group out of the grouped reservations: the visibility of the
/// room's reservations, or nothing where the room has none.
pub fn take_room_assignment(grouped: &mut HashMap<u128, Vec<Reservation>>, room_id: u128) -> (r:
    RoomAssignmentVisibility)
    ensures
        final(grouped)@ == old(grouped)@.remove(room_id),
        old(grouped)@.contains_key(room_id) ==> r == visibility_of(old(grouped)@[room_id]@),
        !old(grouped)@.contains_key(room_id) ==> r == RoomAssignmentVisibility::Unassigned,
{
    match grouped.remove(&room_id) {
        Some(list) => build_assignment_visibility(list),
        None => RoomAssignmentVisibility::Unassigned,
    }
}

/// Every reservation grouped under a room is assigned to that room.
pub proof fn lemma_grouped_by_room_is_faithful(s: Seq<Reservation>)
    ensures
        forall|id: u128, j: int|
            grouped_by_room(s).contains_key(id) && 0 <= j < grouped_by_room(s)[id].len()
                ==> (#[trigger] grouped_by_room(s)[id][j]).room_id == Some(id),
    decreases s.len(),
{
    if s.len() > 0 {
        lemma_grouped_by_room_is_faithful(s.drop_last());
    }
}

} // verus!
