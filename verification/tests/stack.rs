use zeroos::{generate_random_bytes, DownwardStack};

#[test]
fn test_generate_random_bytes() {
    let entropy1 = [0x1234567890abcdef_u64, 0xfedcba0987654321_u64];
    let entropy2 = [0x1234567890abcdef_u64, 0xfedcba0987654321_u64];
    let entropy3 = [0x0000000000000000_u64, 0x0000000000000000_u64];

    let (low1, high1) = generate_random_bytes(&entropy1);
    let (low2, high2) = generate_random_bytes(&entropy2);
    let (low3, high3) = generate_random_bytes(&entropy3);

    assert_eq!(low1, low2);
    assert_eq!(high1, high2);

    assert_ne!(low1, low3);
    assert_ne!(high1, high3);

    // The mixing formula, pinned on two concrete inputs.
    assert_eq!((low3, high3), (0x1755bdc529eba41f, 0x2c12ebc6e8eb4f90));
    assert_eq!((low1, high1), (0x6d393f5bd49e4c3f, 0xc57ee3769eeed9a8));
}

#[test]
fn downward_stack_moves_down_one_word_per_push() {
    let word = std::mem::size_of::<usize>();
    let top = 0x1000usize;
    let mut ds = DownwardStack::new(top, top - 64);
    assert_eq!(ds.sp(), top);
    ds.push(1);
    ds.push(2);
    ds.push(3);
    assert_eq!(ds.sp(), top - 3 * word);
}
