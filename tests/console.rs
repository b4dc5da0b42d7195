use rcore::console::{chars_of, print, write_chars};

fn codes(s: &str) -> Vec<usize> {
    s.chars().map(|c| c as usize).collect()
}

#[test]
fn print_sends_hello_world_without_newline() {
    let text = format!("{}", "hello, world");
    let out = print(&text);
    assert_eq!(out.len(), 12);
    assert_eq!(out, codes("hello, world"));
}

#[test]
fn println_appends_exactly_one_newline() {
    let out = rcore::console::println("Hello World!");
    assert_eq!(out, codes("Hello World!\n"));
    assert_eq!(out.iter().filter(|c| **c == '\n' as usize).count(), 1);
}

#[test]
fn print_keeps_every_unicode_scalar_in_order() {
    let out = print("héllo, 世界 🦀");
    assert_eq!(out, vec![104, 233, 108, 108, 111, 44, 32, 0x4E16, 0x754C, 32, 0x1F980]);
}

#[test]
fn print_of_empty_text_sends_nothing() {
    assert!(print("").is_empty());
    assert_eq!(rcore::console::println(""), vec![10]);
}

#[test]
fn chars_and_codes_agree() {
    let cs = chars_of("a\u{1b}z");
    assert_eq!(cs, vec!['a', '\u{1b}', 'z']);
    assert_eq!(write_chars(&cs), vec![97, 27, 122]);
}
