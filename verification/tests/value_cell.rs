use learning_cell::Cell::{Immutable, ValueCell};

#[test]
fn default_value_record_holds_the_initial_values() {
    let mut record = Immutable::default();
    assert_eq!(record.regular, 1);
    assert_eq!(record.special.get(), 42);
    assert_eq!(record.special_nocopy.replace(String::new()), "hi");
}

#[test]
fn set_overwrites_a_copy_value() {
    let mut record = Immutable::default();
    record.special.set(2);
    assert_eq!(record.special.get(), 2);
    assert_eq!(record.regular, 1);
}

#[test]
fn set_overwrites_a_value_that_cannot_be_copied() {
    let mut record = Immutable::default();
    record.special_nocopy.set("bye".to_string());
    assert_eq!(record.special_nocopy.replace(String::new()), "bye");
}

#[test]
fn set_then_replace_returns_what_was_set() {
    let mut cell = ValueCell::new(String::from("hi"));
    cell.set(String::from("bye"));
    let previous = cell.replace(String::from("HI!"));
    assert_eq!(previous, "bye");
    assert_eq!(cell.replace(String::new()), "HI!");
}

#[test]
fn replace_returns_the_initial_value_first() {
    let mut record = Immutable::default();
    let previous = record.special_nocopy.replace("HI!".to_string());
    assert_eq!(previous, "hi");
    let previous = record.special.replace(24);
    assert_eq!(previous, 42);
    assert_eq!(record.special.get(), 24);
}

#[test]
fn get_sees_the_last_set() {
    let mut cell = ValueCell::new(0u8);
    cell.set(7);
    assert_eq!(cell.get(), 7);
    cell.set(9);
    assert_eq!(cell.get(), 9);
}

#[test]
fn get_sees_the_last_replace() {
    let mut cell = ValueCell::new(-3i64);
    assert_eq!(cell.replace(11), -3);
    assert_eq!(cell.get(), 11);
}

#[test]
fn get_leaves_the_value_in_place() {
    let cell = ValueCell::new(42i32);
    assert_eq!(cell.get(), 42);
    assert_eq!(cell.get(), 42);
}

#[test]
fn swap_with_trades_the_two_values() {
    let mut left = ValueCell::new(String::from("left"));
    let mut right = ValueCell::new(String::from("right"));
    left.swap_with(&mut right);
    assert_eq!(left.replace(String::new()), "right");
    assert_eq!(right.replace(String::new()), "left");
}

#[test]
fn swap_with_twice_restores_both() {
    let mut left = ValueCell::new(1u32);
    let mut right = ValueCell::new(2u32);
    left.swap_with(&mut right);
    assert_eq!((left.get(), right.get()), (2, 1));
    left.swap_with(&mut right);
    assert_eq!((left.get(), right.get()), (1, 2));
}

#[test]
fn swap_with_between_two_records() {
    let mut first = Immutable::default();
    let mut second = Immutable::default();
    second.special.set(7);
    first.special.swap_with(&mut second.special);
    assert_eq!(first.special.get(), 7);
    assert_eq!(second.special.get(), 42);
}
