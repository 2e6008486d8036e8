use web_tester::params::ParameterSet;

fn s(text: &str) -> String {
    text.to_string()
}

fn pairs(set: &ParameterSet) -> Vec<(String, String)> {
    set.iterate()
}

#[test]
fn new_set_is_empty() {
    let set = ParameterSet::new();
    assert_eq!(set.len(), 0);
    assert!(set.is_empty());
    assert!(pairs(&set).is_empty());
    assert_eq!(set.get(&s("a")), None);
}

#[test]
fn add_appends_new_fields_in_order() {
    let mut set = ParameterSet::new();
    set.add(s("b"), s("2"));
    set.add(s("a"), s("1"));
    set.add(s("c"), s("3"));
    assert_eq!(pairs(&set), vec![(s("b"), s("2")), (s("a"), s("1")), (s("c"), s("3"))]);
    assert_eq!(set.len(), 3);
    assert!(!set.is_empty());
}

#[test]
fn add_again_overwrites_value_and_keeps_position() {
    let mut set = ParameterSet::new();
    set.add(s("a"), s("1"));
    set.add(s("b"), s("2"));
    set.add(s("c"), s("3"));
    set.add(s("a"), s("9"));
    assert_eq!(pairs(&set), vec![(s("a"), s("9")), (s("b"), s("2")), (s("c"), s("3"))]);
    assert_eq!(set.get(&s("a")), Some(s("9")));
}

#[test]
fn repeated_adds_leave_one_entry_per_field() {
    let mut set = ParameterSet::new();
    let calls = [("x", "1"), ("y", "2"), ("x", "3"), ("z", "4"), ("y", "5"), ("x", "6")];
    for (field, value) in calls {
        set.add(s(field), s(value));
    }
    assert_eq!(pairs(&set), vec![(s("x"), s("6")), (s("y"), s("5")), (s("z"), s("4"))]);
}

#[test]
fn add_accepts_the_empty_field() {
    let mut set = ParameterSet::new();
    set.add(s(""), s("v"));
    set.add(s("k"), s(""));
    assert_eq!(pairs(&set), vec![(s(""), s("v")), (s("k"), s(""))]);
    assert_eq!(set.get(&s("")), Some(s("v")));
    assert_eq!(set.get(&s("k")), Some(s("")));
}

#[test]
fn field_names_are_case_sensitive() {
    let mut set = ParameterSet::new();
    set.add(s("a"), s("1"));
    set.add(s("A"), s("2"));
    assert_eq!(set.len(), 2);
    assert_eq!(set.get(&s("A")), Some(s("2")));
}

#[test]
fn remove_takes_the_field_out() {
    let mut set = ParameterSet::new();
    set.add(s("a"), s("1"));
    set.add(s("b"), s("2"));
    set.add(s("c"), s("3"));
    set.remove(&s("b"));
    assert_eq!(pairs(&set), vec![(s("a"), s("1")), (s("c"), s("3"))]);
    assert_eq!(set.get(&s("b")), None);
    assert_eq!(set.get(&s("c")), Some(s("3")));
}

#[test]
fn remove_of_an_absent_field_changes_nothing() {
    let mut set = ParameterSet::new();
    set.add(s("a"), s("1"));
    set.remove(&s("zz"));
    assert_eq!(pairs(&set), vec![(s("a"), s("1"))]);
    let mut empty = ParameterSet::new();
    empty.remove(&s("a"));
    assert!(empty.is_empty());
}

#[test]
fn a_removed_field_comes_back_at_the_end() {
    let mut set = ParameterSet::new();
    set.add(s("a"), s("1"));
    set.add(s("b"), s("2"));
    set.remove(&s("a"));
    set.add(s("a"), s("3"));
    assert_eq!(pairs(&set), vec![(s("b"), s("2")), (s("a"), s("3"))]);
}

#[test]
fn get_reads_present_and_absent_fields() {
    let mut set = ParameterSet::new();
    set.add(s("a"), s("1"));
    set.add(s("b"), s("2"));
    assert_eq!(set.get(&s("a")), Some(s("1")));
    assert_eq!(set.get(&s("b")), Some(s("2")));
    assert_eq!(set.get(&s("c")), None);
}
