use rcore::boot::clear_bss;

#[test]
fn clear_bss_zeroes_sixteen_garbage_bytes() {
    let mut memory: Vec<u8> = (1..=16).map(|b| b * 7).collect();
    clear_bss(&mut memory, 0, 16);
    assert_eq!(memory, vec![0u8; 16]);
}

#[test]
fn clear_bss_leaves_bytes_outside_untouched() {
    let mut memory: Vec<u8> = vec![0xAA; 24];
    clear_bss(&mut memory, 4, 20);
    for (i, b) in memory.iter().enumerate() {
        if (4..20).contains(&i) {
            assert_eq!(*b, 0);
        } else {
            assert_eq!(*b, 0xAA);
        }
    }
}

#[test]
fn clear_bss_empty_range_changes_nothing() {
    let mut memory: Vec<u8> = vec![1, 2, 3, 4];
    clear_bss(&mut memory, 2, 2);
    assert_eq!(memory, vec![1, 2, 3, 4]);
}
