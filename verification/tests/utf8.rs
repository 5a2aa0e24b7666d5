use xcb_util::util::utf8;

#[test]
fn empty_data_holds_no_item() {
    assert!(utf8::into("").is_empty());
}

#[test]
fn lone_terminator_holds_one_empty_item() {
    assert_eq!(utf8::into("\0"), vec![""]);
}

#[test]
fn terminator_does_not_start_an_item() {
    assert_eq!(utf8::into("one\0two\0"), vec!["one", "two"]);
}

#[test]
fn missing_terminator_keeps_last_item() {
    assert_eq!(utf8::into("one\0two"), vec!["one", "two"]);
}

#[test]
fn only_one_trailing_empty_item_is_dropped() {
    assert_eq!(utf8::into("one\0\0"), vec!["one", ""]);
}

#[test]
fn empty_items_inside_are_kept() {
    assert_eq!(utf8::into("\0\0x"), vec!["", "", "x"]);
}

#[test]
fn characters_of_several_bytes_stay_whole() {
    assert_eq!(utf8::into("\u{e9}t\u{e9}\0\u{4e16}\u{754c}\0\u{1f600}"), vec!["\u{e9}t\u{e9}", "\u{4e16}\u{754c}", "\u{1f600}"]);
}

#[test]
fn list_is_written_with_terminators() {
    assert_eq!(utf8::from(&["ab", "", "c"]), b"ab\0\0c\0".to_vec());
}

#[test]
fn empty_list_is_written_as_nothing() {
    assert_eq!(utf8::from(&[]), Vec::<u8>::new());
}

#[test]
fn non_ascii_items_are_written_as_utf8() {
    assert_eq!(utf8::from(&["\u{e9}"]), vec![0xc3, 0xa9, 0]);
}

#[test]
fn written_list_reads_back() {
    let lists: [&[&str]; 5] = [&[], &[""], &["a"], &["desk 1", "", "\u{4e16}\u{754c}"], &["", ""]];
    for list in lists {
        let wire = String::from_utf8(utf8::from(list)).unwrap();
        assert_eq!(utf8::into(&wire), list.to_vec());
    }
}

#[test]
fn read_data_writes_back_with_terminator() {
    assert_eq!(utf8::from(&utf8::into("a\0b")), b"a\0b\0".to_vec());
    assert_eq!(utf8::from(&utf8::into("a\0b\0")), b"a\0b\0".to_vec());
    assert_eq!(utf8::from(&utf8::into("")), b"".to_vec());
}

#[test]
fn read_items_hold_no_nul() {
    for item in utf8::into("x\0\0yz\0w") {
        assert!(!item.contains('\0'));
    }
}
