use memo_cache::counting::{shoes_in_my_size, Counter, Shoe};
use memo_cache::memo::Cacher;

#[test]
fn call_with_different_values() {
    let mut c = Cacher::new(|a| a);
    let _v1 = c.value(1);
    let v2 = c.value(2);
    assert_eq!(v2, 2);
}

#[test]
fn cacher_remembers_first_result() {
    let mut c = Cacher::new(|a| a * 3);
    assert_eq!(c.value(4), 12);
    assert_eq!(c.value(4), 12);
    assert_eq!(c.value(5), 15);
}

#[test]
fn iterator_demonstration() {
    let v1 = vec![1, 2, 3];
    let mut v1_iter = v1.iter();
    assert_eq!(v1_iter.next(), Some(&1));
    assert_eq!(v1_iter.next(), Some(&2));
    assert_eq!(v1_iter.next(), Some(&3));
    assert_eq!(v1_iter.next(), None);
}

#[test]
fn iterator_sum() {
    let v1 = vec![1, 2, 3];
    let v1_iter = v1.iter();
    let total: i32 = v1_iter.sum();
    assert_eq!(total, 6);
}

#[test]
fn filters_by_size() {
    let shoes = vec![
        Shoe { size: 10, style: String::from("sneaker") },
        Shoe { size: 13, style: String::from("sandal") },
        Shoe { size: 10, style: String::from("boot") },
    ];
    let in_my_size = shoes_in_my_size(shoes, 10);
    assert_eq!(
        in_my_size,
        vec![
            Shoe { size: 10, style: String::from("sneaker") },
            Shoe { size: 10, style: String::from("boot") },
        ]
    );
}

#[test]
fn filters_nothing_from_empty() {
    assert_eq!(shoes_in_my_size(vec![], 10), vec![]);
}

#[test]
fn calling_next_directly() {
    let mut counter = Counter::new();
    assert_eq!(counter.next(), Some(1));
    assert_eq!(counter.next(), Some(2));
    assert_eq!(counter.next(), Some(3));
    assert_eq!(counter.next(), Some(4));
    assert_eq!(counter.next(), Some(5));
    assert_eq!(counter.next(), None);
    assert_eq!(counter.next(), None);
}

struct Steps(Counter);

impl Iterator for Steps {
    type Item = u32;
    fn next(&mut self) -> Option<u32> {
        self.0.next()
    }
}

#[test]
fn using_other_iterator_trait_methods() {
    let sum: u32 = Steps(Counter::new())
        .zip(Steps(Counter::new()).skip(1))
        .map(|(a, b)| a * b)
        .filter(|x| x % 3 == 0)
        .sum();
    assert_eq!(sum, 18);
}

use memo_cache::company::Company;
use memo_cache::memo::{generate_workout, Workout};

#[test]
fn workout_computes_once_for_both_exercises() {
    let calls = std::cell::Cell::new(0u32);
    let mut expensive = Cacher::new(|n| {
        calls.set(calls.get() + 1);
        n
    });
    assert_eq!(
        generate_workout(30, 7, &mut expensive),
        Workout::Exercises { pushups: 30, situps: 30 }
    );
    assert_eq!(calls.get(), 1);
    assert_eq!(generate_workout(10, 3, &mut expensive), Workout::Break);
    assert_eq!(calls.get(), 1);
    assert_eq!(generate_workout(10, 7, &mut expensive), Workout::Run { minutes: 10 });
    assert_eq!(calls.get(), 2);
    assert_eq!(generate_workout(25, 4, &mut expensive), Workout::Run { minutes: 25 });
}

#[test]
fn employees_by_department() {
    let mut company = Company::new();
    assert!(company.employees_by_department(String::from("engineering")).is_empty());
    company.add_employees_by_department(
        String::from("engineering"),
        vec![String::from("bradford"), String::from("josce"), String::from("alex")],
    );
    assert_eq!(
        company.employees_by_department(String::from("engineering")),
        vec![String::from("bradford"), String::from("josce"), String::from("alex")]
    );
    assert!(company.employees_by_department(String::from("sales")).is_empty());
    company.add_employees_by_department(String::from("engineering"), vec![String::from("sally")]);
    assert_eq!(
        company.employees_by_department(String::from("engineering")),
        vec![String::from("sally")]
    );
}
