use grease::error::GreaseError;
use grease::semester::{NewSemester, Semester};

const WEEK: i64 = 7 * 86_400;

fn semester(name: &str, current: bool) -> Semester {
    Semester { name: name.to_owned(), start_date: 1_700_000_000, end_date: 1_710_000_000, gig_requirement: 5, current }
}

fn message<T>(result: Result<T, GreaseError>) -> String {
    match result {
        Err(GreaseError::BadRequest(m)) => m,
        _ => panic!("expected a bad request"),
    }
}

#[test]
fn new_semesters_must_end_after_they_begin() {
    let backwards = NewSemester { name: "Fall".to_owned(), start_date: 10, end_date: 10, gig_requirement: 5 };
    assert_eq!(message(Semester::validate_new_semester(&backwards)), "The new semester must end after it begins.");
    let created = Semester::create(NewSemester { name: "Fall".to_owned(), start_date: 10, end_date: 20, gig_requirement: 3 }).unwrap();
    assert!(!created.current);
    assert_eq!(created.gig_requirement, 3);
}

#[test]
fn exactly_one_semester_is_current_after_setting_it() {
    let updated = Semester::set_current(vec![semester("Fall 2023", true), semester("Spring 2024", false)], &"Spring 2024".to_owned());
    assert_eq!(updated.iter().map(|s| s.current).collect::<Vec<_>>(), vec![false, true]);
    assert_eq!(updated[0].name, "Fall 2023");
    assert_eq!(updated[1].end_date, 1_710_000_000);
}

#[test]
fn deleting_semesters() {
    assert_eq!(message(Semester::delete(&"Fall 2023".to_owned(), &vec![semester("Fall 2023", true)])), "You cannot delete the last semester.");
    let all = vec![semester("Fall 2023", true), semester("Spring 2024", false)];
    assert_eq!(message(Semester::delete(&"Summer".to_owned(), &all)), "No semester exists with the name \"Summer\".");
    let deletion = Semester::delete(&"Fall 2023".to_owned(), &all).unwrap();
    assert_eq!(deletion.current, "Spring 2024");
    assert!(deletion.newly_current);
    let kept = Semester::delete(&"Spring 2024".to_owned(), &all).unwrap();
    assert_eq!(kept.current, "Fall 2023");
    assert!(!kept.newly_current);
}

#[test]
fn most_recent_semester_or_a_new_one() {
    let (recent, created) = Semester::load_most_recent_at(vec![semester("Spring 2024", true), semester("Fall 2023", false)], 0);
    assert_eq!(recent.name, "Spring 2024");
    assert!(!created);
    let (fresh, created) = Semester::load_most_recent_at(vec![], 1_000);
    assert!(created && fresh.current);
    assert_eq!(fresh.name, "New Semester");
    assert_eq!(fresh.end_date, 1_000 + 12 * WEEK);
    assert_eq!(fresh.gig_requirement, 5);
    let (now_fresh, _) = Semester::load_most_recent(vec![]);
    assert_eq!(now_fresh.end_date - now_fresh.start_date, 12 * WEEK);
}
