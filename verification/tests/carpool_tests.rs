use grease::carpool::{Carpool, RidesIn, UpdatedCarpool};
use grease::member::Member;

fn member(email: &str) -> Member {
    Member {
        email: email.to_owned(),
        first_name: "F".to_owned(),
        preferred_name: None,
        last_name: "L".to_owned(),
        pass_hash: "h".to_owned(),
        phone_number: "1".to_owned(),
        picture: None,
        passengers: 2,
        location: "here".to_owned(),
        on_campus: None,
        about: None,
        major: None,
        minor: None,
        hometown: None,
        arrived_at_tech: None,
        gateway_drug: None,
        conflicts: None,
        dietary_restrictions: None,
    }
}

#[test]
fn passengers_join_their_carpools() {
    let carpools = vec![
        (Carpool { id: 1, event: 9, driver: "d1".to_owned() }, member("d1")),
        (Carpool { id: 2, event: 9, driver: "d2".to_owned() }, member("d2")),
    ];
    let rides = vec![
        (RidesIn { member: "p1".to_owned(), carpool: 2 }, member("p1")),
        (RidesIn { member: "p2".to_owned(), carpool: 1 }, member("p2")),
        (RidesIn { member: "p3".to_owned(), carpool: 2 }, member("p3")),
        (RidesIn { member: "p4".to_owned(), carpool: 8 }, member("p4")),
    ];
    let loaded = Carpool::load_for_event(&carpools, &rides);
    assert_eq!(loaded.len(), 2);
    assert_eq!(loaded[0].driver.email, "d1");
    assert_eq!(loaded[0].passengers.iter().map(|m| m.email.clone()).collect::<Vec<_>>(), vec!["p2"]);
    assert_eq!(loaded[1].passengers.iter().map(|m| m.email.clone()).collect::<Vec<_>>(), vec!["p1", "p3"]);
}

#[test]
fn new_carpools_and_their_rides() {
    let set = vec![
        UpdatedCarpool { id: None, driver: "d1".to_owned(), passengers: vec!["a".to_owned(), "b".to_owned()] },
        UpdatedCarpool { id: None, driver: "d2".to_owned(), passengers: vec!["c".to_owned()] },
    ];
    let stored = Carpool::new_carpools(9, &set);
    assert_eq!(stored.len(), 2);
    assert_eq!(stored[1].driver, "d2");
    assert_eq!(stored[0].event, 9);
    let rides = Carpool::rides_for(&vec![40, 41], &set);
    let pairs = rides.iter().map(|r| (r.member.clone(), r.carpool)).collect::<Vec<_>>();
    assert_eq!(pairs, vec![("a".to_owned(), 40), ("b".to_owned(), 40), ("c".to_owned(), 41)]);
    let fewer_ids = Carpool::rides_for(&vec![40], &set);
    assert_eq!(fewer_ids.len(), 2);
}

#[test]
fn stored_carpools_read_back_as_given() {
    let set = vec![
        UpdatedCarpool { id: None, driver: "d1".to_owned(), passengers: vec!["a".to_owned(), "b".to_owned()] },
        UpdatedCarpool { id: None, driver: "d2".to_owned(), passengers: vec!["c".to_owned()] },
    ];
    let stored = Carpool::new_carpools(9, &set);
    let ids = vec![40, 41];
    let rides = Carpool::rides_for(&ids, &set);
    let carpools_read = stored
        .iter()
        .zip(ids.iter())
        .map(|(c, id)| (Carpool { id: *id, event: c.event, driver: c.driver.clone() }, member(&c.driver)))
        .collect::<Vec<_>>();
    let rides_read = rides
        .iter()
        .map(|r| (RidesIn { member: r.member.clone(), carpool: r.carpool }, member(&r.member)))
        .collect::<Vec<_>>();
    let loaded = Carpool::load_for_event(&carpools_read, &rides_read);
    assert_eq!(loaded.len(), 2);
    for (carpool, given) in loaded.iter().zip(set.iter()) {
        assert_eq!(carpool.carpool.event, 9);
        assert_eq!(carpool.driver.email, given.driver);
        assert_eq!(carpool.passengers.iter().map(|m| m.email.clone()).collect::<Vec<_>>(), given.passengers);
    }
}
