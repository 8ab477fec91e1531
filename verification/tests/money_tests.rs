use grease::error::GreaseError;
use grease::member::{Member, MemberForSemester};
use grease::money::{Fee, Transaction};

fn fee(name: &str) -> Fee {
    Fee { name: name.to_owned(), description: "Semester dues".to_owned(), amount: 20 }
}

fn member_for_semester(email: &str) -> MemberForSemester {
    MemberForSemester {
        member: Member {
            email: email.to_owned(),
            first_name: "F".to_owned(),
            preferred_name: None,
            last_name: "L".to_owned(),
            pass_hash: "h".to_owned(),
            phone_number: "1".to_owned(),
            picture: None,
            passengers: 0,
            location: "x".to_owned(),
            on_campus: None,
            about: None,
            major: None,
            minor: None,
            hometown: None,
            arrived_at_tech: None,
            gateway_drug: None,
            conflicts: None,
            dietary_restrictions: None,
        },
        active_semester: None,
    }
}

#[test]
fn fee_transaction_types() {
    assert_eq!(fee("dues").transaction_type(Some("Ignored".to_owned())), "Dues");
    assert_eq!(fee("latedues").transaction_type(None), "Dues");
    assert_eq!(fee("Deposit").transaction_type(Some("Deposit".to_owned())), "Deposit");
    assert_eq!(fee("Deposit").transaction_type(None), "Other");
}

#[test]
fn charging_a_fee_once_per_semester() {
    let members = vec![member_for_semester("a@x"), member_for_semester("b@x")];
    let charges = fee("dues").charge_for_the_semester(&"Dues".to_owned(), &vec![], &members, &"Fall 2024".to_owned()).unwrap();
    assert_eq!(charges.len(), 2);
    assert_eq!(charges[1].member, "b@x");
    assert_eq!(charges[0].amount, 20);
    assert_eq!(charges[0].semester, Some("Fall 2024".to_owned()));
    assert_eq!(charges[0].type_, "Dues");
    assert!(charges[0].resolved);
    let earlier = Transaction {
        id: 1,
        member: "a@x".to_owned(),
        time: 0,
        amount: 20,
        description: "Semester dues".to_owned(),
        semester: Some("Fall 2024".to_owned()),
        type_: "Dues".to_owned(),
        resolved: false,
    };
    match fee("dues").charge_for_the_semester(&"Dues".to_owned(), &vec![earlier], &members, &"Fall 2024".to_owned()) {
        Err(GreaseError::BadRequest(message)) => {
            assert_eq!(message, "Fee of type dues has already been charged for the current semester")
        }
        _ => panic!("expected an error"),
    }
}
