use memo_cache::adder::{add_one, add_two, greeting, internal_adder, setup, Guess};
use memo_cache::shapes::{area, build_user, Rectangle};

#[test]
fn exploration() {
    assert_eq!(2 + 2, 4);
}

#[test]
fn larger_can_hold_smaller() {
    let larger = Rectangle { width: 8, height: 7 };
    let smaller = Rectangle { width: 6, height: 1 };
    assert!(larger.can_hold(&smaller));
}

#[test]
fn smaller_cannot_hold_larger() {
    let larger = Rectangle { width: 8, height: 7 };
    let smaller = Rectangle { width: 6, height: 1 };
    assert!(!smaller.can_hold(&larger));
}

#[test]
fn equal_sides_cannot_hold() {
    let a = Rectangle { width: 8, height: 7 };
    let b = Rectangle { width: 8, height: 1 };
    assert!(!a.can_hold(&b));
}

#[test]
fn areas() {
    let rect1 = Rectangle { width: 30, height: 50 };
    assert_eq!(rect1.area(), 1500);
    assert_eq!(area(&rect1), 1500);
    assert_eq!(Rectangle::square(4), Rectangle { width: 4, height: 4 });
}

#[test]
fn new_user_is_active() {
    let u = build_user(String::from("someone@example.com"), String::from("someusername123"));
    assert_eq!(u.email, "someone@example.com");
    assert_eq!(u.username, "someusername123");
    assert!(u.active);
    assert_eq!(u.sign_in_count, 1);
}

#[test]
fn testing_it_adds_two() {
    setup();
    assert_eq!(4, add_two(2));
    assert_eq!(6, add_two(4));
}

#[test]
fn testing_greeting_contains_name() {
    let result = greeting("Carol");
    assert!(
        result.contains("Carol"),
        "Greeting did not contain name, value was `{}`",
        result
    );
}

#[test]
fn greeting_is_exact() {
    assert_eq!(greeting("Carol"), "Hello Carol!");
    assert_eq!(greeting(""), "Hello !");
}

#[test]
fn testing_it_works() -> Result<(), String> {
    if 2 + 2 == 4 {
        Ok(())
    } else {
        Err(String::from("two plus two does not equal four"))
    }
}

#[test]
fn add_two_and_two() {
    assert_eq!(4, add_two(2));
}

#[test]
fn add_three_and_two() {
    assert_eq!(5, add_two(3));
}

#[test]
fn one_hundred() {
    assert_eq!(102, add_two(100));
}

#[test]
fn internal() {
    assert_eq!(4, internal_adder(2, 2));
}

#[test]
fn adds_one() {
    assert_eq!(add_one(-1), 0);
    assert_eq!(add_one(41), 42);
}

#[test]
fn guess_keeps_its_value() {
    assert_eq!(Guess::new(1).value(), 1);
    assert_eq!(Guess::new(100).value(), 100);
}
