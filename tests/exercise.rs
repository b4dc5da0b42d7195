use rcore::exercise::{print_mem_layout, region_text};
use rcore::logging::{init, Logger};

#[test]
fn region_text_in_hex() {
    let text: String = region_text(".text", 0x8020_0000, 0x8020_2000).into_iter().collect();
    assert_eq!(text, ".text [0x80200000, 0x80202000)");
}

#[test]
fn mem_layout_reports_three_sections() {
    let mut logger = Logger::new();
    init(&mut logger).unwrap();
    let out = print_mem_layout(&logger, 0x1000, 0x2000, 0x2000, 0x2a00, 0x3000, 0x3010);
    let text: String = out.into_iter().map(|c| char::from_u32(c as u32).unwrap()).collect();
    assert_eq!(
        text,
        "\x1b[34m[INFO] - .text [0x1000, 0x2000)\x1b[0m\n\
         \x1b[32m[DEBUG] - .rodata [0x2000, 0x2a00)\x1b[0m\n\
         \x1b[31m[ERROR] - .data [0x3000, 0x3010)\x1b[0m\n"
    );
}

#[test]
fn mem_layout_of_empty_sections_at_zero() {
    let mut logger = Logger::new();
    init(&mut logger).unwrap();
    let out = print_mem_layout(&logger, 0, 0, 0, 0, 0, 0);
    let text: String = out.into_iter().map(|c| char::from_u32(c as u32).unwrap()).collect();
    assert!(text.starts_with("\x1b[34m[INFO] - .text [0x0, 0x0)\x1b[0m\n"));
    assert_eq!(text.lines().count(), 3);
}

#[test]
fn mem_layout_before_init_prints_nothing() {
    let logger = Logger::new();
    let out = print_mem_layout(&logger, 0x1000, 0x2000, 0x2000, 0x2a00, 0x3000, 0x3010);
    assert!(out.is_empty());
}
