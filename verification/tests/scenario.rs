use cons_list::cons::{ConsList, ConsNode};
use cons_list::list::List;
use std::rc::Rc;

#[test]
fn full_scenario_keeps_old_version() {
    let list = ConsList::<String>::empty()
        .add(String::from("yo"))
        .add(String::from("lo"));
    let v = list.collect();
    assert_eq!(2, v.len());
    assert_eq!("yo", v[0].as_str());
    assert_eq!("lo", v[1].as_str());

    let target = String::from("lo");
    let found = list.find(&target);
    assert!(found.is_some());
    let removed = list.remove(found.unwrap());
    let v2 = removed.collect();
    assert_eq!(1, v2.len());
    assert_eq!("yo", v2[0].as_str());

    let v3 = list.collect();
    assert_eq!(2, v3.len());
    assert_eq!("yo", v3[0].as_str());
    assert_eq!("lo", v3[1].as_str());
}

#[test]
fn find_in_empty_is_none() {
    let list = ConsList::<u8>::empty();
    assert!(list.find(&7).is_none());
}

#[test]
fn removing_the_terminator_changes_nothing() {
    let list = ConsList::<u8>::empty().add(1).add(2);
    let nil: Rc<ConsNode<u8>> = Rc::new(ConsNode::Nil);
    let same = list.remove(&nil);
    let v = same.collect();
    assert_eq!(2, v.len());
    assert_eq!(1, *v[0]);
    assert_eq!(2, *v[1]);
}

#[test]
fn find_prefers_the_most_recent_match() {
    let list = ConsList::<u8>::empty().add(1).add(2).add(1);
    let found = list.find(&1);
    assert!(found.is_some());
    let removed = list.remove(found.unwrap());
    let v = removed.collect();
    assert_eq!(2, v.len());
    assert_eq!(1, *v[0]);
    assert_eq!(2, *v[1]);
}

#[test]
fn remove_middle_keeps_both_neighbours() {
    let list = ConsList::<u8>::empty().add(10).add(20).add(30);
    let found = list.find(&20);
    assert!(found.is_some());
    let removed = list.remove(found.unwrap());
    let v = removed.collect();
    assert_eq!(2, v.len());
    assert_eq!(10, *v[0]);
    assert_eq!(30, *v[1]);
}

#[test]
fn remove_earliest_keeps_the_rest_in_order() {
    let list = ConsList::<u8>::empty().add(10).add(20).add(30);
    let found = list.find(&10);
    assert!(found.is_some());
    let removed = list.remove(found.unwrap());
    let v = removed.collect();
    assert_eq!(2, v.len());
    assert_eq!(20, *v[0]);
    assert_eq!(30, *v[1]);
}

#[test]
fn collect_on_integers_is_insertion_order() {
    let list = ConsList::<u8>::empty().add(4).add(5).add(6);
    let v = list.collect();
    assert_eq!(3, v.len());
    assert_eq!(4, *v[0]);
    assert_eq!(5, *v[1]);
    assert_eq!(6, *v[2]);
}

#[test]
fn suite_runs_on_integers_too() {
    cons_list::suite::test_empty::<u8, ConsList<u8>>();
    cons_list::suite::test_one::<u8, ConsList<u8>>(3);
    cons_list::suite::test_two::<u8, ConsList<u8>>(3, 4);
    cons_list::suite::test_found::<u8, ConsList<u8>>(3, 4);
    cons_list::suite::test_not_found::<u8, ConsList<u8>>(3, 4, 5);
    cons_list::suite::test_remove_first::<u8, ConsList<u8>>(3, 4);
    cons_list::suite::test_remove_second::<u8, ConsList<u8>>(3, 4);
    cons_list::suite::test_remove_third::<u8, ConsList<u8>>(3, 4, 5);
}

#[test]
fn equal_values_in_a_pair_still_remove_cleanly() {
    cons_list::suite::test_remove_first::<u8, ConsList<u8>>(9, 9);
    cons_list::suite::test_remove_second::<u8, ConsList<u8>>(9, 9);
}
