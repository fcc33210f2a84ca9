use cons_list::cons::ConsList;
use cons_list::list::List;
use cons_list::suite;

#[test]
fn test_empty() {
    suite::test_empty::<String, ConsList<String>>();
}

#[test]
fn test_one() {
    suite::test_one::<String, ConsList<String>>(String::from("yo"));
}

#[test]
fn test_two() {
    suite::test_two::<String, ConsList<String>>(String::from("yo"), String::from("lo"));
}

#[test]
fn test_found() {
    suite::test_found::<String, ConsList<String>>(String::from("yo"), String::from("lo"));
}

#[test]
fn test_not_found() {
    suite::test_not_found::<String, ConsList<String>>(
        String::from("yo"),
        String::from("lo"),
        String::from("no"),
    );
}

#[test]
fn test_remove_first() {
    suite::test_remove_first::<String, ConsList<String>>(String::from("yo"), String::from("lo"));
}

#[test]
fn test_remove_second() {
    suite::test_remove_second::<String, ConsList<String>>(String::from("yo"), String::from("lo"));
}

#[test]
fn test_remove_third() {
    suite::test_remove_third::<String, ConsList<String>>(
        String::from("yo"),
        String::from("lo"),
        String::from("go"),
    );
}

#[test]
fn test_nondestructive_add() {
    let list = ConsList::<String>::empty().add(String::from("yo"));
    suite::test_add_is_nondestructive(&list, String::from("lo"));
    let v = list.collect();
    assert_eq!(1, v.len());
    assert_eq!("yo", v[0].as_str());
}
