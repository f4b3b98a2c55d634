use nesemulator::ppu::shift_register::ShiftRegister;

#[test]
fn test_shift_register_get_set() {
    let mut a = ShiftRegister::new(2);
    assert!(a.get() == 0);
    a.set(0x56);
    assert!(a.get() == 0);
    a.set(0xfd);
    assert!(a.get() == 0);
}

#[test]
fn test_shift_register_shift_bytes() {
    let mut a = ShiftRegister::new(2);
    assert!(a.get() == 0);
    a.set(0x56);
    a.shift_bytes();
    assert!(a.get() == 0x56);
    a.shift_bytes();
    assert!(a.get() == 0x00);
    a.shift_bytes();
    assert!(a.get() == 0x00);
    a.shift_bytes();
    assert!(a.get() == 0x00);
}

#[test]
fn test_shift_register_shift_bits() {
    let mut a = ShiftRegister::new(2);
    assert!(a.get() == 0);
    a.set(0b000_0101);
    assert!(a.get() == 0);
    a.shift_bits();
    let mut b = 0b1000_0000;
    assert!(a.get() == b);
    a.shift_bits();
    b >>= 1;
    assert!(a.get() == b);
    a.shift_bits();
    b = 0b1010_0000;
    assert!(a.get() == b);
    for _ in 0..20 {
        a.shift_bits();
        b >>= 1;
        assert!(a.get() == b);
    }
}
