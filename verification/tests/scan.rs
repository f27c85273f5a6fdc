use ralf::strings::{find_string, strings, StringAddr};

#[test]
fn find_string_reports_a_long_enough_run() {
    let data = b"abcd\x00xy";
    assert_eq!(find_string(0, 4, data), StringAddr::Addr(0));
    assert_eq!(find_string(1, 3, data), StringAddr::Addr(1));
}

#[test]
fn find_string_reports_a_short_run() {
    // the run is cut by a non-printable byte before min_len bytes
    let data = b"ab\x00cdef";
    assert_eq!(find_string(0, 4, data), StringAddr::NoString);
    assert_eq!(find_string(2, 1, data), StringAddr::NoString);
}

#[test]
fn find_string_reports_end_of_buffer() {
    let data = b"abc";
    assert_eq!(find_string(0, 4, data), StringAddr::EOF);
    assert_eq!(find_string(3, 1, data), StringAddr::EOF);
    assert_eq!(find_string(0, 0, data), StringAddr::Addr(0));
}

#[test]
fn strings_keeps_a_nul_terminator() {
    let out = strings(4, b"hello\x00rest\x01");
    assert_eq!(out, vec![b"hello\x00".to_vec(), b"rest".to_vec()]);
}

#[test]
fn strings_drops_another_terminator() {
    let out = strings(4, b"abcd\x01efgh\x00");
    assert_eq!(out, vec![b"abcd".to_vec(), b"efgh\x00".to_vec()]);
}

#[test]
fn strings_skips_short_runs() {
    let out = strings(4, b"ab\x00cd\x00efghij\x00");
    assert_eq!(out, vec![b"efghij\x00".to_vec()]);
}

#[test]
fn strings_drops_an_unterminated_trailing_run() {
    // a run that reaches the end of the buffer ends the scan unemitted
    let out = strings(4, b"abcdef");
    assert_eq!(out, Vec::<Vec<u8>>::new());
    let out = strings(4, b"one\x00longtail");
    assert_eq!(out, Vec::<Vec<u8>>::new());
    let out = strings(3, b"one\x00longtail");
    assert_eq!(out, vec![b"one\x00".to_vec()]);
}

#[test]
fn strings_of_empty_buffer() {
    assert_eq!(strings(4, b""), Vec::<Vec<u8>>::new());
    assert_eq!(strings(0, b""), Vec::<Vec<u8>>::new());
}
