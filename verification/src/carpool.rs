//! Carpools to events: who drives and who rides with them.

use crate::member::Member;
use vstd::prelude::*;

verus! {

/// A car going to an event.
#[derive(Debug)]
pub struct Carpool {
    /// The ID of the carpool.
    pub id: i32,
    /// The ID of the event.
    pub event: i32,
    /// The email of the driver.
    pub driver: String,
}

/// A carpool to store for an event.
#[derive(Debug)]
pub struct NewCarpool {
    /// The ID of the event.
    pub event: i32,
    /// The email of the driver.
    pub driver: String,
}

/// A carpool as an officer sets it up: the driver and the passengers.
#[derive(Debug)]
pub struct UpdatedCarpool {
    /// The ID of the carpool, if it already exists.
    pub id: Option<i32>,
    /// The email of the driver.
    pub driver: String,
    /// The emails of the passengers.
    pub passengers: Vec<String>,
}

/// A member riding in a carpool.
#[derive(Debug)]
pub struct RidesIn {
    /// The email of the member.
    pub member: String,
    /// The ID of the carpool.
    pub carpool: i32,
}

/// A carpool of an event with its driver and passengers.
#[derive(Debug)]
pub struct EventCarpool {
    /// The driver.
    pub driver: Member,
    /// The carpool.
    pub carpool: Carpool,
    /// The passengers, in the order their rides were listed.
    pub passengers: Vec<Member>,
}

/// Whether the `i`-th carpool is the first with ID `id`.
pub open spec fn first_carpool_with_id(carpools: Seq<(Carpool, Member)>, id: i32, i: int) -> bool {
    &&& 0 <= i < carpools.len()
    &&& carpools[i].0.id == id
    &&& forall|j: int| 0 <= j < i ==> (#[trigger] carpools[j]).0.id != id
}

/// The passengers of the `i`-th carpool: the members of the rides in it,
/// in order, where a ride belongs to the first carpool with its ID.
pub open spec fn passengers_of(rides: Seq<(RidesIn, Member)>, carpools: Seq<(Carpool, Member)>, i: int) -> Seq<Member>
    decreases rides.len(),
{
    if rides.len() == 0 {
        Seq::empty()
    } else {
        let rest = passengers_of(rides.drop_last(), carpools, i);
        if first_carpool_with_id(carpools, rides.last().0.carpool, i) {
            rest.push(rides.last().1)
        } else {
            rest
        }
    }
}

/// The rides of the first `k` carpools of a new set, the `k`-th numbered
/// with the `k`-th ID.
pub open spec fn rides_upto(ids: Seq<i32>, carpools: Seq<UpdatedCarpool>, k: int) -> Seq<RidesIn>
    decreases k,
{
    if k <= 0 {
        Seq::empty()
    } else {
        rides_upto(ids, carpools, k - 1) + carpools[k - 1].passengers@.map_values(
            |passenger: String| RidesIn { member: passenger, carpool: ids[k - 1] },
        )
    }
}

fn is_first_carpool_with_id(carpools: &Vec<(Carpool, Member)>, id: i32, i: usize) -> (first: bool)
    requires
        i < carpools@.len(),
    ensures
        first == first_carpool_with_id(carpools@, id, i as int),
{
    if carpools[i].0.id != id {
        return false;
    }
    let mut j: usize = 0;
    while j < i
        invariant
            0 <= j <= i < carpools@.len(),
            forall|q: int| 0 <= q < j ==> (#[trigger] carpools@[q]).0.id != id,
        decreases i - j,
    {
        if carpools[j].0.id == id {
            return false;
        }
        j += 1;
    }
    true
}

impl Carpool {
    /// The carpools of an event with their drivers and passengers, given
    /// the carpools with their drivers (by ID) and the rides in them with
    /// their members. A ride joins the first carpool with its ID; a ride in
    /// no listed carpool is left out.
    pub fn load_for_event(
        carpool_driver_pairs: &Vec<(Carpool, Member)>,
        passenger_pairs: &Vec<(RidesIn, Member)>,
    ) -> (carpools: Vec<EventCarpool>)
        ensures
            carpools@.len() == carpool_driver_pairs@.len(),
            forall|i: int|
                0 <= i < carpools@.len() ==> (#[trigger] carpools@[i]).carpool == carpool_driver_pairs@[i].0
                    && carpools@[i].driver == carpool_driver_pairs@[i].1 && carpools@[i].passengers@
                    == passengers_of(passenger_pairs@, carpool_driver_pairs@, i),
    {
        let mut carpools: Vec<EventCarpool> = Vec::new();
        let mut i: usize = 0;
        while i < carpool_driver_pairs.len()
            invariant
                0 <= i <= carpool_driver_pairs@.len(),
                carpools@.len() == i,
                forall|q: int|
                    0 <= q < i ==> (#[trigger] carpools@[q]).carpool == carpool_driver_pairs@[q].0
                        && carpools@[q].driver == carpool_driver_pairs@[q].1 && carpools@[q].passengers@
                        == passengers_of(passenger_pairs@, carpool_driver_pairs@, q),
            decreases carpool_driver_pairs@.len() - i,
        {
            let mut passengers: Vec<Member> = Vec::new();
            let mut k: usize = 0;
            while k < passenger_pairs.len()
                invariant
                    0 <= i < carpool_driver_pairs@.len(),
                    0 <= k <= passenger_pairs@.len(),
                    passengers@ == passengers_of(passenger_pairs@.take(k as int), carpool_driver_pairs@, i as int),
                decreases passenger_pairs@.len() - k,
            {
                assert(passenger_pairs@.take(k as int + 1).drop_last() =~= passenger_pairs@.take(k as int));
                if is_first_carpool_with_id(carpool_driver_pairs, passenger_pairs[k].0.carpool, i) {
                    passengers.push(passenger_pairs[k].1.copy());
                }
                k += 1;
            }
            assert(passenger_pairs@.take(passenger_pairs@.len() as int) =~= passenger_pairs@);
            let pair = &carpool_driver_pairs[i];
            carpools.push(
                EventCarpool {
                    driver: pair.1.copy(),
                    carpool: Carpool { id: pair.0.id, event: pair.0.event, driver: pair.0.driver.clone() },
                    passengers,
                },
            );
            i += 1;
        }
        carpools
    }

    /// The carpools to store for an event's new set of carpools, in order.
    pub fn new_carpools(given_event_id: i32, new_carpools: &Vec<UpdatedCarpool>) -> (stored: Vec<NewCarpool>)
        ensures
            stored@.len() == new_carpools@.len(),
            forall|i: int|
                0 <= i < stored@.len() ==> #[trigger] stored@[i] == (NewCarpool {
                    event: given_event_id,
                    driver: new_carpools@[i].driver,
                }),
    {
        let mut stored: Vec<NewCarpool> = Vec::new();
        let mut i: usize = 0;
        while i < new_carpools.len()
            invariant
                0 <= i <= new_carpools@.len(),
                stored@.len() == i,
                forall|q: int|
                    0 <= q < i ==> #[trigger] stored@[q] == (NewCarpool {
                        event: given_event_id,
                        driver: new_carpools@[q].driver,
                    }),
            decreases new_carpools@.len() - i,
        {
            stored.push(NewCarpool { event: given_event_id, driver: new_carpools[i].driver.clone() });
            i += 1;
        }
        stored
    }

    /// The rides to store for an event's new set of carpools, given the IDs
    /// the stored carpools got, in the order the carpools were given (the
    /// order they were stored in): the passengers of the `k`-th carpool of
    /// the set ride in the carpool with the `k`-th ID, as far as both lists
    /// go.
    pub fn rides_for(new_carpool_ids: &Vec<i32>, new_carpools: &Vec<UpdatedCarpool>) -> (rides: Vec<RidesIn>)
        ensures
            rides@ == rides_upto(
                new_carpool_ids@,
                new_carpools@,
                if new_carpool_ids@.len() < new_carpools@.len() {
                    new_carpool_ids@.len() as int
                } else {
                    new_carpools@.len() as int
                },
            ),
    {
        let count = if new_carpool_ids.len() < new_carpools.len() {
            new_carpool_ids.len()
        } else {
            new_carpools.len()
        };
        let mut rides: Vec<RidesIn> = Vec::new();
        let mut k: usize = 0;
        while k < count
            invariant
                count <= new_carpool_ids@.len(),
                count <= new_carpools@.len(),
                0 <= k <= count,
                rides@ == rides_upto(new_carpool_ids@, new_carpools@, k as int),
            decreases count - k,
        {
            let passengers = &new_carpools[k].passengers;
            let ghost before = rides@;
            let mut p: usize = 0;
            while p < passengers.len()
                invariant
                    k < count <= new_carpool_ids@.len(),
                    count <= new_carpools@.len(),
                    passengers@ == new_carpools@[k as int].passengers@,
                    0 <= p <= passengers@.len(),
                    rides@ == before + passengers@.take(p as int).map_values(
                        |passenger: String| RidesIn { member: passenger, carpool: new_carpool_ids@[k as int] },
                    ),
                decreases passengers@.len() - p,
            {
                let ghost mid = rides@;
                rides.push(RidesIn { member: passengers[p].clone(), carpool: new_carpool_ids[k] });
                assert(passengers@.take(p as int + 1).map_values(
                    |passenger: String| RidesIn { member: passenger, carpool: new_carpool_ids@[k as int] },
                ) =~= passengers@.take(p as int).map_values(
                    |passenger: String| RidesIn { member: passenger, carpool: new_carpool_ids@[k as int] },
                ).push(RidesIn { member: passengers@[p as int], carpool: new_carpool_ids@[k as int] }));
                assert(rides@ =~= before + passengers@.take(p as int + 1).map_values(
                    |passenger: String| RidesIn { member: passenger, carpool: new_carpool_ids@[k as int] },
                ));
                p += 1;
            }
            assert(passengers@.take(passengers@.len() as int) =~= passengers@);
            k += 1;
        }
        rides
    }
}

/// A ride joins at most one carpool: only one carpool is the first with
/// the ride's carpool ID.
pub proof fn law_a_ride_joins_one_carpool(carpools: Seq<(Carpool, Member)>, id: i32, i1: int, i2: int)
    requires
        first_carpool_with_id(carpools, id, i1),
        first_carpool_with_id(carpools, id, i2),
    ensures
        i1 == i2,
{
    if i1 < i2 {
        assert(carpools[i1].0.id == id);
    } else if i2 < i1 {
        assert(carpools[i2].0.id == id);
    }
}

/// What the store hands back for carpools just stored: each stored carpool
/// in the order stored, with the ID it got and its driver's record, and
/// each stored ride, in order, with the rider's record.
pub open spec fn read_back(
    stored: Seq<NewCarpool>,
    ids: Seq<i32>,
    rides: Seq<RidesIn>,
    carpools_read: Seq<(Carpool, Member)>,
    rides_read: Seq<(RidesIn, Member)>,
) -> bool {
    &&& carpools_read.len() == stored.len()
    &&& forall|j: int|
        0 <= j < stored.len() ==> (#[trigger] carpools_read[j]).0.id == ids[j] && carpools_read[j].0.event
            == stored[j].event && carpools_read[j].0.driver == stored[j].driver && carpools_read[j].1.email
            == stored[j].driver
    &&& rides_read.len() == rides.len()
    &&& forall|j: int|
        0 <= j < rides.len() ==> (#[trigger] rides_read[j]).0 == rides[j] && rides_read[j].1.email == rides[j].member
}

/// The emails of the passengers that the first `m` rides read back give
/// the `i`-th carpool.
pub open spec fn passenger_emails(
    rides_read: Seq<(RidesIn, Member)>,
    carpools_read: Seq<(Carpool, Member)>,
    i: int,
    m: int,
) -> Seq<String> {
    passengers_of(rides_read.take(m), carpools_read, i).map_values(|member: Member| member.email)
}

proof fn lemma_rides_upto_prefix(ids: Seq<i32>, carpools: Seq<UpdatedCarpool>, k: int, n: int, j: int)
    requires
        0 <= k <= n,
        0 <= j < rides_upto(ids, carpools, k).len(),
    ensures
        rides_upto(ids, carpools, k).len() <= rides_upto(ids, carpools, n).len(),
        rides_upto(ids, carpools, n)[j] == rides_upto(ids, carpools, k)[j],
    decreases n - k,
{
    if n > k {
        lemma_rides_upto_prefix(ids, carpools, k, n - 1, j);
    }
}

proof fn lemma_rides_upto_len(ids: Seq<i32>, carpools: Seq<UpdatedCarpool>, k: int, n: int)
    requires
        0 <= k <= n,
    ensures
        rides_upto(ids, carpools, k).len() <= rides_upto(ids, carpools, n).len(),
    decreases n - k,
{
    if n > k {
        lemma_rides_upto_len(ids, carpools, k, n - 1);
    }
}

/// What the rides read back give the `i`-th carpool once the rides of the
/// first `k` carpools and `p` of the `k`-th carpool's rides are read.
proof fn lemma_passengers_read_back(
    carpools: Seq<UpdatedCarpool>,
    ids: Seq<i32>,
    carpools_read: Seq<(Carpool, Member)>,
    rides_read: Seq<(RidesIn, Member)>,
    i: int,
    k: int,
    p: int,
)
    requires
        0 <= k < carpools.len(),
        0 <= i < carpools.len(),
        0 <= p <= carpools[k].passengers@.len(),
        ids.len() == carpools.len(),
        carpools_read.len() == carpools.len(),
        forall|j: int| 0 <= j < carpools.len() ==> (#[trigger] carpools_read[j]).0.id == ids[j],
        forall|j1: int, j2: int| 0 <= j1 < j2 < ids.len() ==> ids[j1] != ids[j2],
        rides_read.len() == rides_upto(ids, carpools, carpools.len() as int).len(),
        forall|j: int|
            0 <= j < rides_read.len() ==> (#[trigger] rides_read[j]).0 == rides_upto(
                ids,
                carpools,
                carpools.len() as int,
            )[j] && rides_read[j].1.email == rides_read[j].0.member,
    ensures
        rides_upto(ids, carpools, k).len() + p <= rides_read.len(),
        passenger_emails(rides_read, carpools_read, i, rides_upto(ids, carpools, k).len() + p) == if i < k {
            carpools[i].passengers@
        } else if i == k {
            carpools[k].passengers@.take(p)
        } else {
            Seq::empty()
        },
    decreases k, p,
{
    let n = carpools.len() as int;
    let base = rides_upto(ids, carpools, k).len() as int;
    lemma_rides_upto_len(ids, carpools, k + 1, n);
    assert(rides_upto(ids, carpools, k + 1).len() == base + carpools[k].passengers@.len());
    if p == 0 {
        if k == 0 {
            assert(rides_read.take(0) =~= Seq::<(RidesIn, Member)>::empty());
            assert(passenger_emails(rides_read, carpools_read, i, 0) =~= Seq::<String>::empty());
            if i == 0 {
                assert(carpools[0].passengers@.take(0) =~= Seq::<String>::empty());
            }
        } else {
            let full = carpools[k - 1].passengers@.len() as int;
            lemma_passengers_read_back(carpools, ids, carpools_read, rides_read, i, k - 1, full);
            assert(carpools[k - 1].passengers@.take(full) =~= carpools[k - 1].passengers@);
            if i == k {
                assert(carpools[k].passengers@.take(0) =~= Seq::<String>::empty());
            }
        }
    } else {
        lemma_passengers_read_back(carpools, ids, carpools_read, rides_read, i, k, p - 1);
        let m = base + p - 1;
        assert(rides_read.take(m + 1).drop_last() =~= rides_read.take(m));
        assert(rides_read.take(m + 1).last() == rides_read[m]);
        lemma_rides_upto_prefix(ids, carpools, k + 1, n, m);
        let ride = RidesIn { member: carpools[k].passengers@[p - 1], carpool: ids[k] };
        assert(rides_upto(ids, carpools, k + 1)[m] == ride);
        assert(rides_read[m].0 == ride);
        if i == k {
            assert(first_carpool_with_id(carpools_read, ids[k], i));
            assert(carpools[k].passengers@.take(p) =~= carpools[k].passengers@.take(p - 1).push(
                carpools[k].passengers@[p - 1],
            ));
            assert(passenger_emails(rides_read, carpools_read, i, m + 1) =~= passenger_emails(
                rides_read,
                carpools_read,
                i,
                m,
            ).push(rides_read[m].1.email));
        } else {
            assert(carpools_read[i].0.id == ids[i]);
            assert(ids[i] != ids[k]);
            assert(passenger_emails(rides_read, carpools_read, i, m + 1) =~= passenger_emails(
                rides_read,
                carpools_read,
                i,
                m,
            ));
        }
    }
}

/// Storing an event's new set of carpools and reading them back gives each
/// carpool of the set back: it belongs to the event, its driver is the
/// given driver, and its passengers are the given passengers, in order.
/// The stored carpools are those `new_carpools` makes, the IDs they got
/// (distinct, in the order stored) are `ids`, and the rides are those
/// `rides_for` makes from them.
pub proof fn law_stored_carpools_read_back(
    event_id: i32,
    carpools: Seq<UpdatedCarpool>,
    stored: Seq<NewCarpool>,
    ids: Seq<i32>,
    carpools_read: Seq<(Carpool, Member)>,
    rides_read: Seq<(RidesIn, Member)>,
    i: int,
)
    requires
        stored.len() == carpools.len(),
        forall|j: int|
            0 <= j < stored.len() ==> #[trigger] stored[j] == (NewCarpool { event: event_id, driver: carpools[j].driver }),
        ids.len() == carpools.len(),
        forall|j1: int, j2: int| 0 <= j1 < j2 < ids.len() ==> ids[j1] != ids[j2],
        read_back(stored, ids, rides_upto(ids, carpools, carpools.len() as int), carpools_read, rides_read),
        0 <= i < carpools.len(),
    ensures
        carpools_read[i].0.event == event_id,
        carpools_read[i].1.email == carpools[i].driver,
        passengers_of(rides_read, carpools_read, i).map_values(|member: Member| member.email)
            == carpools[i].passengers@,
{
    let n = carpools.len() as int;
    let rides = rides_upto(ids, carpools, n);
    assert(stored[i] == (NewCarpool { event: event_id, driver: carpools[i].driver }));
    assert forall|j: int| 0 <= j < n implies (#[trigger] carpools_read[j]).0.id == ids[j] by {
        assert(stored[j] == (NewCarpool { event: event_id, driver: carpools[j].driver }));
    }
    assert forall|j: int| 0 <= j < rides_read.len() implies (#[trigger] rides_read[j]).0 == rides[j]
        && rides_read[j].1.email == rides_read[j].0.member by {
    }
    let full = carpools[n - 1].passengers@.len() as int;
    lemma_passengers_read_back(carpools, ids, carpools_read, rides_read, i, n - 1, full);
    assert(rides_upto(ids, carpools, n - 1).len() + full == rides.len());
    assert(rides_read.take(rides_read.len() as int) =~= rides_read);
    assert(carpools[n - 1].passengers@.take(full) =~= carpools[n - 1].passengers@);
}

} // verus!
