use dlmm_monitor::notify::{swap_message, u64_to_dec};

#[test]
fn decimal_rendering_is_exact() {
    assert_eq!(u64_to_dec(0), "0");
    assert_eq!(u64_to_dec(7), "7");
    assert_eq!(u64_to_dec(10), "10");
    assert_eq!(u64_to_dec(950), "950");
    assert_eq!(u64_to_dec(1000), "1000");
    assert_eq!(u64_to_dec(u64::MAX), "18446744073709551615");
}

#[test]
fn swap_message_lays_out_symbols_and_amounts() {
    let m = swap_message("USDC", "SOL", 1000, 950);
    assert_eq!(
        m,
        "Swap Instruction:\nToken X: USDC\nToken Y: SOL\nAmount In: 1000\nMin Amount Out: 950"
    );
    let m2 = swap_message("", "", 0, 0);
    assert_eq!(m2, "Swap Instruction:\nToken X: \nToken Y: \nAmount In: 0\nMin Amount Out: 0");
}
