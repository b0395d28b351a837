use borrow_bag::append::Append;
use borrow_bag::handle::{Handle, Skip, Take};
use borrow_bag::lookup::Lookup;

#[test]
fn append_test() {
    let list = ();
    let (list, _): ((u8, ()), Handle<u8, Take>) = list.append(1u8);
    let (list, _) = list.append(2u8);
    let (list, _) = list.append(3u8);

    assert_eq!(list.0, 1);
    assert_eq!((list.1).0, 2);
    assert_eq!(((list.1).1).0, 3);
}

#[test]
fn append_to_empty_makes_a_single_element_list() {
    let (list, _): ((&str, ()), Handle<&str, Take>) = ().append("only");
    assert_eq!(list, ("only", ()));
}

#[test]
fn append_puts_the_value_behind_the_others() {
    let list = (1u8, (2u16, ()));
    let (list, _): ((u8, (u16, (u32, ()))), Handle<u32, (Skip, (Skip, Take))>) = list.append(3u32);
    assert_eq!(list, (1u8, (2u16, (3u32, ()))));
}

#[test]
fn append_leaves_the_earlier_elements_in_place() {
    let before = (String::from("a"), (vec![1u8, 2], ()));
    let expected_head = before.0.clone();
    let expected_next = (before.1).0.clone();
    let (after, _) = before.append(9i64);
    assert_eq!(after.0, expected_head);
    assert_eq!((after.1).0, expected_next);
    assert_eq!(((after.1).1).0, 9i64);
}

#[test]
fn get_from_take_returns_the_head() {
    let list = (5u8, (6u8, ()));
    let found: &u8 = Lookup::<u8, Take>::get_from(&list);
    assert_eq!(*found, 5);
}

#[test]
fn get_from_skip_goes_into_the_tail() {
    let list = (5u8, (6u8, (7u8, ())));
    let second: &u8 = Lookup::<u8, (Skip, Take)>::get_from(&list);
    let third: &u8 = Lookup::<u8, (Skip, (Skip, Take))>::get_from(&list);
    assert_eq!(*second, 6);
    assert_eq!(*third, 7);
}

#[test]
fn get_from_finds_what_append_placed() {
    let list = (1u8, ("two", ()));
    let (list, _): (_, Handle<bool, (Skip, (Skip, Take))>) = list.append(true);
    let found: &bool = Lookup::<bool, (Skip, (Skip, Take))>::get_from(&list);
    assert_eq!(*found, true);
}
