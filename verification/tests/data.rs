use cc2640r2f_hal::data::{mask, test_bit, Gpio, PINS};

fn regs(dout: u32) -> Gpio {
    Gpio { doe31_0: 0x0000_00ff, din31_0: 0x1234_5678, dout31_0: dout }
}

#[test]
fn mask_has_one_bit_at_the_pin() {
    assert_eq!(PINS, 32);
    assert_eq!(mask(0), 1);
    assert_eq!(mask(6), 0x40);
    assert_eq!(mask(31), 0x8000_0000);
    for pin in 0..PINS {
        assert_eq!(mask(pin).count_ones(), 1);
        assert_eq!(mask(pin).trailing_zeros(), pin);
    }
}

#[test]
fn test_bit_reads_one_bit() {
    assert!(test_bit(0x40, 6));
    assert!(!test_bit(0x40, 5));
    assert!(!test_bit(0xffff_ffbf, 6));
    assert!(test_bit(0x8000_0000, 31));
    assert!(!test_bit(0, 0));
}

#[test]
fn write_doe_replaces_the_word() {
    let mut g = regs(0x0f0f_0f0f);
    g.write_doe(0xffff_0000);
    assert_eq!(g, Gpio { doe31_0: 0xffff_0000, din31_0: 0x1234_5678, dout31_0: 0x0f0f_0f0f });
}

#[test]
fn write_doutset_raises_the_named_outputs() {
    let mut g = regs(0x0f0f_0f0f);
    g.write_doutset(0x0000_00f1);
    assert_eq!(g, regs(0x0f0f_0fff));
    g.write_doutset(0);
    assert_eq!(g, regs(0x0f0f_0fff));
}

#[test]
fn write_doutclr_lowers_the_named_outputs() {
    let mut g = regs(0x0f0f_0f0f);
    g.write_doutclr(0x0000_00f1);
    assert_eq!(g, regs(0x0f0f_0f0e));
    g.write_doutclr(0);
    assert_eq!(g, regs(0x0f0f_0f0e));
}

#[test]
fn write_douttgl_flips_the_named_outputs() {
    let mut g = regs(0x0f0f_0f0f);
    g.write_douttgl(0x0000_00f1);
    assert_eq!(g, regs(0x0f0f_0ffe));
    g.write_douttgl(0);
    assert_eq!(g, regs(0x0f0f_0ffe));
}

#[test]
fn set_pin_leaves_the_other_pins() {
    for pin in 0..PINS {
        let mut g = regs(0);
        g.set_pin(pin);
        assert_eq!(g, regs(1 << pin));
        assert!(g.output_is_high(pin));
        let mut g = regs(0xffff_ffff);
        g.set_pin(pin);
        assert_eq!(g, regs(0xffff_ffff));
    }
}

#[test]
fn clear_pin_leaves_the_other_pins() {
    for pin in 0..PINS {
        let mut g = regs(0xffff_ffff);
        g.clear_pin(pin);
        assert_eq!(g, regs(!(1 << pin)));
        assert!(!g.output_is_high(pin));
        let mut g = regs(0);
        g.clear_pin(pin);
        assert_eq!(g, regs(0));
    }
}

#[test]
fn toggle_pin_twice_gives_the_word_back() {
    for pin in 0..PINS {
        let mut g = regs(0xa5a5_5a5a);
        g.toggle_pin(pin);
        assert_eq!(g, regs(0xa5a5_5a5a ^ (1 << pin)));
        g.toggle_pin(pin);
        assert_eq!(g, regs(0xa5a5_5a5a));
    }
}

#[test]
fn input_and_output_levels_are_read_apart() {
    let g = Gpio { doe31_0: 0, din31_0: 0b01, dout31_0: 0b10 };
    assert!(g.input_is_high(0));
    assert!(!g.input_is_high(1));
    assert!(!g.output_is_high(0));
    assert!(g.output_is_high(1));
}
