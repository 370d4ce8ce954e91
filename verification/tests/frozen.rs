use dx::frozen::Frozen;

#[test]
fn frozen_value_reads_back() {
    let frozen = Frozen::new(41 + 1);

    assert_eq!(*frozen.get(), 42);
    assert_eq!(*frozen, 42);
}

#[test]
fn frozen_list_keeps_length_order_and_contents() {
    let frozen = Frozen::new(vec!["c", "a", "b", "a"]);

    assert_eq!(frozen.len(), 4);
    assert_eq!(frozen.get(), &vec!["c", "a", "b", "a"]);
    assert_eq!(frozen[0], "c");
    assert_eq!(frozen.iter().copied().collect::<Vec<_>>(), vec!["c", "a", "b", "a"]);
}

#[test]
fn frozen_value_is_the_same_at_every_reading() {
    let frozen = Frozen::new(String::from("name"));

    let first = frozen.get().clone();
    let second = frozen.get().clone();

    assert_eq!(first, "name");
    assert_eq!(second, "name");
    assert_eq!(frozen.as_str(), "name");
}

#[test]
fn change_to_a_copy_leaves_the_frozen_value() {
    let frozen = Frozen::new(vec![1, 2, 3]);

    let mut copy = frozen.get().clone();
    copy.push(4);
    copy[0] = 9;

    assert_eq!(frozen.get(), &vec![1, 2, 3]);
}
