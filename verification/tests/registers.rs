use arduino_uno_r4_hal::registers::{
    base_address, is_supported, pin_mask, register_address, PortRegisters, Register, RegisterOp,
    PINS_PER_PORT, PORT0_BASE, PORT_COUNT, PORT_STRIDE,
};

fn cleared() -> PortRegisters {
    PortRegisters { direction: 0, output_data: 0, input_data: 0, open_drain: 0, pull_up: 0 }
}

const REGISTERS: [Register; 5] = [
    Register::Direction,
    Register::OutputData,
    Register::InputData,
    Register::OpenDrain,
    Register::PullUp,
];

#[test]
fn base_addresses_are_those_of_the_device() {
    assert_eq!(base_address(0), ra4m1::PORT0::PTR as usize as u32);
    assert_eq!(base_address(1), ra4m1::PORT1::PTR as usize as u32);
    assert_eq!(base_address(2), ra4m1::PORT2::PTR as usize as u32);
    assert_eq!(base_address(3), ra4m1::PORT3::PTR as usize as u32);
    assert_eq!(base_address(4), ra4m1::PORT4::PTR as usize as u32);
    assert_eq!(base_address(5), ra4m1::PORT5::PTR as usize as u32);
    assert_eq!(base_address(6), ra4m1::PORT6::PTR as usize as u32);
    assert_eq!(base_address(7), ra4m1::PORT7::PTR as usize as u32);
    assert_eq!(base_address(8), ra4m1::PORT8::PTR as usize as u32);
    assert_eq!(base_address(9), ra4m1::PORT9::PTR as usize as u32);
}

#[test]
fn base_addresses_are_evenly_spaced() {
    assert_eq!(PORT_COUNT, 10);
    assert_eq!(base_address(0), 0x4004_0000);
    assert_eq!(base_address(1), 0x4004_0020);
    assert_eq!(base_address(5), 0x4004_00A0);
    assert_eq!(base_address(9), 0x4004_0120);
    for port in 0..PORT_COUNT {
        assert_eq!(base_address(port), PORT0_BASE + PORT_STRIDE * port as u32);
    }
}

#[test]
fn register_offsets_follow_the_layout() {
    assert_eq!(Register::Direction.offset(), 0x00);
    assert_eq!(Register::OutputData.offset(), 0x04);
    assert_eq!(Register::InputData.offset(), 0x08);
    assert_eq!(Register::OpenDrain.offset(), 0x0C);
    assert_eq!(Register::PullUp.offset(), 0x10);
}

#[test]
fn register_address_adds_offset_to_base() {
    assert_eq!(register_address(0, Register::Direction), 0x4004_0000);
    assert_eq!(register_address(1, Register::OutputData), 0x4004_0024);
    assert_eq!(register_address(3, Register::InputData), 0x4004_0068);
    assert_eq!(register_address(9, Register::PullUp), 0x4004_0130);
    for port in 0..PORT_COUNT {
        for register in REGISTERS {
            assert_eq!(register_address(port, register), base_address(port) + register.offset());
        }
    }
}

#[test]
fn register_blocks_of_two_ports_do_not_overlap() {
    for port in 0..PORT_COUNT - 1 {
        let last = register_address(port, Register::PullUp) + 4;
        assert!(last <= base_address(port + 1));
    }
}

#[test]
fn pin_mask_has_one_bit() {
    assert_eq!(PINS_PER_PORT, 32);
    assert_eq!(pin_mask(0), 0x0000_0001);
    assert_eq!(pin_mask(3), 0x0000_0008);
    assert_eq!(pin_mask(11), 0x0000_0800);
    assert_eq!(pin_mask(31), 0x8000_0000);
    for index in 0..PINS_PER_PORT {
        assert_eq!(pin_mask(index).count_ones(), 1);
        assert_eq!(pin_mask(index).trailing_zeros(), index as u32);
    }
}

#[test]
fn read_returns_what_write_stored() {
    let mut regs = cleared();
    for (step, register) in REGISTERS.into_iter().enumerate() {
        let value = 0x1111_1111 * (step as u32 + 1);
        regs.write(register, value);
        assert_eq!(regs.read(register), value);
    }
    assert_eq!(
        regs,
        PortRegisters {
            direction: 0x1111_1111,
            output_data: 0x2222_2222,
            input_data: 0x3333_3333,
            open_drain: 0x4444_4444,
            pull_up: 0x5555_5555,
        }
    );
}

#[test]
fn write_leaves_other_registers() {
    for register in REGISTERS {
        let mut regs = cleared();
        regs.write(register, 0xDEAD_BEEF);
        for other in REGISTERS {
            let expected = if other == register { 0xDEAD_BEEF } else { 0 };
            assert_eq!(regs.read(other), expected);
        }
    }
}

#[test]
fn modify_clears_then_sets() {
    let mut regs = cleared();
    regs.write(Register::Direction, 0b1111_0000);
    regs.modify(Register::Direction, 0b0011_0000, 0b0000_0011);
    assert_eq!(regs.direction, 0b1100_0011);
}

#[test]
fn modify_sets_a_bit_that_is_in_both_masks() {
    let mut regs = cleared();
    regs.modify(Register::PullUp, 0b0110, 0b0011);
    assert_eq!(regs.pull_up, 0b0011);
    regs.write(Register::PullUp, 0b1111);
    regs.modify(Register::PullUp, 0b0110, 0b0011);
    assert_eq!(regs.pull_up, 0b1011);
}

#[test]
fn modify_with_empty_masks_changes_nothing() {
    let mut regs = cleared();
    regs.write(Register::OutputData, 0xA5A5_5A5A);
    let before = regs;
    regs.modify(Register::OutputData, 0, 0);
    assert_eq!(regs, before);
}

#[test]
fn setting_pin_3_leaves_pin_5() {
    for pin_5 in [0u32, 1 << 5] {
        let mut regs = cleared();
        regs.write(Register::OutputData, pin_5);
        regs.modify(Register::OutputData, 0, 1 << 3);
        assert_eq!(regs.output_data & (1 << 5), pin_5);
        assert_eq!(regs.output_data & (1 << 3), 1 << 3);
        regs.modify(Register::OutputData, 1 << 3, 0);
        assert_eq!(regs.output_data & (1 << 5), pin_5);
        assert_eq!(regs.output_data & (1 << 3), 0);
    }
}

#[test]
fn modify_alters_only_bits_of_the_masks() {
    let values = [0u32, 0xFFFF_FFFF, 0x1234_5678, 0x8000_0001];
    let masks = [0u32, 1, 0x8000_0000, 0x00FF_FF00, 0xFFFF_FFFF];
    for value in values {
        for clear_mask in masks {
            for set_mask in masks {
                let mut regs = cleared();
                regs.write(Register::OpenDrain, value);
                regs.modify(Register::OpenDrain, clear_mask, set_mask);
                let changed = regs.open_drain ^ value;
                assert_eq!(changed & !(clear_mask | set_mask), 0);
                assert_eq!(regs.open_drain, (value & !clear_mask) | set_mask);
                assert_eq!(regs.direction, 0);
                assert_eq!(regs.output_data, 0);
                assert_eq!(regs.input_data, 0);
                assert_eq!(regs.pull_up, 0);
            }
        }
    }
}

#[test]
fn op_names_its_register() {
    for register in REGISTERS {
        let modify = RegisterOp::Modify { register, clear_mask: 1, set_mask: 2 };
        let toggle = RegisterOp::Toggle { register, mask: 4 };
        assert_eq!(modify.register(), register);
        assert_eq!(toggle.register(), register);
    }
}

#[test]
fn op_apply_computes_the_new_word() {
    let modify =
        RegisterOp::Modify { register: Register::Direction, clear_mask: 0x0F, set_mask: 0xF0 };
    assert_eq!(modify.apply(0x0000_00AA), 0x0000_00F0);
    assert_eq!(modify.apply(0xFFFF_FF00), 0xFFFF_FFF0);
    let toggle = RegisterOp::Toggle { register: Register::OutputData, mask: 0x0000_0101 };
    assert_eq!(toggle.apply(0x0000_0001), 0x0000_0100);
    assert_eq!(toggle.apply(toggle.apply(0xCAFE_F00D)), 0xCAFE_F00D);
}

#[test]
fn perform_is_load_apply_store() {
    let mut regs = cleared();
    regs.write(Register::OutputData, 0x0000_00F0);
    let op = RegisterOp::Toggle { register: Register::OutputData, mask: 0x0000_0030 };
    let expected = op.apply(regs.read(Register::OutputData));
    regs.perform(op);
    assert_eq!(regs.output_data, 0x0000_00C0);
    assert_eq!(regs.output_data, expected);
    assert_eq!(regs.direction, 0);
}

#[test]
fn perform_matches_modify() {
    let mut by_op = cleared();
    let mut by_call = cleared();
    by_op.write(Register::PullUp, 0x0F0F_0F0F);
    by_call.write(Register::PullUp, 0x0F0F_0F0F);
    by_op.perform(RegisterOp::Modify {
        register: Register::PullUp,
        clear_mask: 0x0000_00FF,
        set_mask: 0xF000_0000,
    });
    by_call.modify(Register::PullUp, 0x0000_00FF, 0xF000_0000);
    assert_eq!(by_op, by_call);
    assert_eq!(by_op.pull_up, 0xFF0F_0F00);
}

#[test]
fn perform_all_goes_first_to_last() {
    let ops = [
        RegisterOp::Modify { register: Register::Direction, clear_mask: 0, set_mask: 0b01 },
        RegisterOp::Toggle { register: Register::Direction, mask: 0b11 },
        RegisterOp::Modify { register: Register::PullUp, clear_mask: 0, set_mask: 0b100 },
    ];
    let mut regs = cleared();
    regs.perform_all(&ops);
    assert_eq!(regs.direction, 0b10);
    assert_eq!(regs.pull_up, 0b100);

    let mut reversed = cleared();
    reversed.perform_all(&[ops[2], ops[1], ops[0]]);
    assert_eq!(reversed.direction, 0b11);

    let mut stepwise = cleared();
    for op in ops {
        stepwise.perform(op);
    }
    assert_eq!(stepwise, regs);
}

#[test]
fn perform_all_of_nothing_changes_nothing() {
    let mut regs = cleared();
    regs.write(Register::InputData, 7);
    let before = regs;
    regs.perform_all(&[]);
    assert_eq!(regs, before);
}

#[test]
fn supported_pins_are_32_on_each_of_10_ports() {
    assert!(is_supported(0, 0));
    assert!(is_supported(9, 31));
    assert!(is_supported(1, 11));
    assert!(!is_supported(10, 0));
    assert!(!is_supported(0, 32));
    assert!(!is_supported(255, 255));
    let mut count = 0;
    for port in 0..=255u8 {
        for index in 0..=255u8 {
            if is_supported(port, index) {
                count += 1;
            }
        }
    }
    assert_eq!(count, 320);
}
