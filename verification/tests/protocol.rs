use arduino_mcp4161::protocol::{is_legal, OutOfRangeAddressError, EEPROM_SLOTS};
use arduino_mcp4161::{compose_command, Command, InvalidCommandCombinationError, MemoryAddress};

fn addresses() -> Vec<MemoryAddress> {
    let mut all = vec![
        MemoryAddress::VolatileWiper0,
        MemoryAddress::VolatileWiper1,
        MemoryAddress::NonVolatileWiper0,
        MemoryAddress::NonVolatileWiper1,
        MemoryAddress::VolatileTCONRegister,
        MemoryAddress::StatusRegister,
        MemoryAddress::WiperLock,
    ];
    for slot in 0..10u8 {
        all.push(MemoryAddress::DataEEPROM(slot));
    }
    all
}

fn dataless_commands() -> Vec<Command> {
    vec![
        Command::Increment,
        Command::Decrement,
        Command::Read,
        Command::EnableWiperLock,
        Command::DisableWiperLock,
    ]
}

#[test]
fn command_codes_are_exact() {
    assert_eq!(Command::Write.into(), 0x00);
    assert_eq!(Command::Increment.into(), 0x04);
    assert_eq!(Command::Decrement.into(), 0x08);
    assert_eq!(Command::Read.into(), 0x0C);
    assert_eq!(Command::EnableWiperLock.into(), 0x04);
    assert_eq!(Command::DisableWiperLock.into(), 0x40);
}

#[test]
fn increment_and_enable_wiper_lock_share_a_code() {
    assert_eq!(Command::Increment.into(), Command::EnableWiperLock.into());
}

#[test]
fn address_codes_are_exact() {
    assert_eq!(MemoryAddress::VolatileWiper0.into(), 0x00);
    assert_eq!(MemoryAddress::VolatileWiper1.into(), 0x10);
    assert_eq!(MemoryAddress::NonVolatileWiper0.into(), 0x20);
    assert_eq!(MemoryAddress::NonVolatileWiper1.into(), 0x30);
    assert_eq!(MemoryAddress::VolatileTCONRegister.into(), 0x40);
    assert_eq!(MemoryAddress::StatusRegister.into(), 0x50);
    assert_eq!(MemoryAddress::WiperLock.into(), 0xF0);
}

#[test]
fn eeprom_slot_codes_start_at_five() {
    for slot in 0..10u8 {
        assert_eq!(MemoryAddress::DataEEPROM(slot).into(), (0x05 + slot) << 4);
    }
    assert_eq!(MemoryAddress::DataEEPROM(0).into(), 0x50);
    assert_eq!(MemoryAddress::DataEEPROM(3).into(), 0x80);
    assert_eq!(MemoryAddress::DataEEPROM(9).into(), 0xE0);
}

#[test]
fn eeprom_slot_bound_is_enforced() {
    assert_eq!(EEPROM_SLOTS, 10);
    assert_eq!(MemoryAddress::data_eeprom(0), Ok(MemoryAddress::DataEEPROM(0)));
    assert_eq!(MemoryAddress::data_eeprom(9), Ok(MemoryAddress::DataEEPROM(9)));
    assert_eq!(MemoryAddress::data_eeprom(10), Err(OutOfRangeAddressError));
    assert_eq!(MemoryAddress::data_eeprom(11), Err(OutOfRangeAddressError));
    assert_eq!(MemoryAddress::data_eeprom(255), Err(OutOfRangeAddressError));
}

#[test]
fn validity_follows_the_slot_bound() {
    for address in addresses() {
        assert!(address.is_valid());
    }
    assert!(!MemoryAddress::DataEEPROM(10).is_valid());
    assert!(!MemoryAddress::DataEEPROM(200).is_valid());
}

#[test]
fn write_carries_ten_bits_of_data() {
    for address in addresses() {
        for data in 0..=1023u16 {
            let (command_byte, data_byte) =
                compose_command(&address, &Command::Write, Some(data)).unwrap();
            assert_eq!(command_byte & 0b11, ((data >> 8) & 0b11) as u8);
            assert_eq!(data_byte, Some((data & 0xFF) as u8));
            assert_eq!(command_byte & 0b1100, 0);
            assert_eq!(command_byte >> 4, address.into() >> 4);
        }
    }
}

#[test]
fn write_frames_are_exact() {
    assert_eq!(
        compose_command(&MemoryAddress::VolatileWiper0, &Command::Write, Some(0)),
        Ok((0x00, Some(0x00)))
    );
    assert_eq!(
        compose_command(&MemoryAddress::VolatileWiper0, &Command::Write, Some(255)),
        Ok((0x00, Some(0xFF)))
    );
    assert_eq!(
        compose_command(&MemoryAddress::VolatileWiper0, &Command::Write, Some(256)),
        Ok((0x01, Some(0x00)))
    );
    assert_eq!(
        compose_command(&MemoryAddress::VolatileWiper1, &Command::Write, Some(1023)),
        Ok((0x13, Some(0xFF)))
    );
    assert_eq!(
        compose_command(&MemoryAddress::DataEEPROM(3), &Command::Write, Some(0x2AB)),
        Ok((0x82, Some(0xAB)))
    );
    assert_eq!(
        compose_command(&MemoryAddress::WiperLock, &Command::Write, Some(0x155)),
        Ok((0xF1, Some(0x55)))
    );
}

#[test]
fn data_above_ten_bits_is_masked() {
    for address in addresses() {
        for data in [0x0400u16, 0x07FF, 0x1234, 0x8000, 0xFC00, 0xFFFF] {
            assert_eq!(
                compose_command(&address, &Command::Write, Some(data)),
                compose_command(&address, &Command::Write, Some(data & 0x03FF))
            );
        }
    }
    assert_eq!(
        compose_command(&MemoryAddress::VolatileWiper0, &Command::Write, Some(0xFFFF)),
        Ok((0x03, Some(0xFF)))
    );
    assert_eq!(
        compose_command(&MemoryAddress::VolatileWiper0, &Command::Write, Some(0x0400)),
        Ok((0x00, Some(0x00)))
    );
}

#[test]
fn dataless_commands_refuse_data() {
    for address in addresses() {
        for command in dataless_commands() {
            for data in [0u16, 1, 255, 256, 1023, 1024, 0xFFFF] {
                assert_eq!(
                    compose_command(&address, &command, Some(data)),
                    Err(InvalidCommandCombinationError)
                );
            }
        }
    }
}

#[test]
fn dataless_commands_have_no_data_byte() {
    for address in addresses() {
        for command in dataless_commands() {
            let (command_byte, data_byte) = compose_command(&address, &command, None).unwrap();
            assert_eq!(data_byte, None);
            assert_eq!(command_byte & 0b11, 0);
            assert_eq!(command_byte, address.into() | command.into());
        }
    }
}

#[test]
fn write_without_data_is_refused() {
    for address in addresses() {
        assert_eq!(
            compose_command(&address, &Command::Write, None),
            Err(InvalidCommandCombinationError)
        );
    }
}

#[test]
fn address_sits_in_the_high_nibble() {
    let read = |address: MemoryAddress| compose_command(&address, &Command::Read, None).unwrap().0;
    assert_eq!(read(MemoryAddress::VolatileWiper0) >> 4, 0x0);
    assert_eq!(read(MemoryAddress::StatusRegister) >> 4, 0x5);
    assert_eq!(read(MemoryAddress::DataEEPROM(3)) >> 4, 0x8);
    assert_eq!(read(MemoryAddress::WiperLock) >> 4, 0xF);
}

#[test]
fn dataless_frames_are_exact() {
    assert_eq!(
        compose_command(&MemoryAddress::VolatileWiper0, &Command::Read, None),
        Ok((0x0C, None))
    );
    assert_eq!(
        compose_command(&MemoryAddress::VolatileWiper0, &Command::Increment, None),
        Ok((0x04, None))
    );
    assert_eq!(
        compose_command(&MemoryAddress::VolatileWiper1, &Command::Decrement, None),
        Ok((0x18, None))
    );
    assert_eq!(
        compose_command(&MemoryAddress::WiperLock, &Command::EnableWiperLock, None),
        Ok((0xF4, None))
    );
    assert_eq!(
        compose_command(&MemoryAddress::StatusRegister, &Command::Read, None),
        Ok((0x5C, None))
    );
}

#[test]
fn disable_wiper_lock_sets_bit_six() {
    assert_eq!(
        compose_command(&MemoryAddress::VolatileWiper0, &Command::DisableWiperLock, None),
        Ok((0x40, None))
    );
    assert_eq!(
        compose_command(&MemoryAddress::WiperLock, &Command::DisableWiperLock, None),
        Ok((0xF0, None))
    );
    assert_eq!(
        compose_command(&MemoryAddress::NonVolatileWiper0, &Command::DisableWiperLock, None),
        Ok((0x60, None))
    );
    assert_eq!(
        compose_command(&MemoryAddress::DataEEPROM(3), &Command::DisableWiperLock, None),
        Ok((0xC0, None))
    );
}

#[test]
fn composing_twice_gives_the_same_bytes() {
    for address in addresses() {
        for data in [0u16, 1, 0x0155, 0x03FF, 0xFFFF] {
            let first = compose_command(&address, &Command::Write, Some(data));
            for _ in 0..5 {
                assert_eq!(compose_command(&address, &Command::Write, Some(data)), first);
            }
        }
        for command in dataless_commands() {
            let first = compose_command(&address, &command, None);
            for _ in 0..5 {
                assert_eq!(compose_command(&address, &command, None), first);
            }
        }
    }
}

#[test]
fn legality_pairs_write_with_data() {
    assert!(is_legal(&Command::Write, Some(0)));
    assert!(is_legal(&Command::Write, Some(0xFFFF)));
    assert!(!is_legal(&Command::Write, None));
    for command in dataless_commands() {
        assert!(is_legal(&command, None));
        assert!(!is_legal(&command, Some(0)));
        assert!(!is_legal(&command, Some(512)));
    }
}
