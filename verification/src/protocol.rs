//! The frame format: a command byte that packs a four-bit register address,
//! a two-bit operation code and the two top bits of a ten-bit data word,
//! followed by the low eight bits of that word.

use vstd::prelude::*;

verus! {

/// The operations that the device understands.
#[derive(Clone, Copy, Debug, PartialEq, Eq, Structural)]
pub enum Command {
    Write,
    Increment,
    Decrement,
    Read,
    EnableWiperLock,
    DisableWiperLock,
}

impl Command {
    /// The operation's code as it stands in the command byte. `Increment` and
    /// `EnableWiperLock` share one code: the register they are sent to tells
    /// them apart. `DisableWiperLock` is `0x10` shifted left by two, which
    /// lands above the two-bit field.
    pub open spec fn code(self) -> u8 {
        match self {
            Command::Write => 0x00,
            Command::Increment => 0x04,
            Command::Decrement => 0x08,
            Command::Read => 0x0C,
            Command::EnableWiperLock => 0x04,
            Command::DisableWiperLock => 0x40,
        }
    }

    /// Whether the operation is sent with a data word. Only `Write` is.
    pub open spec fn takes_data(self) -> bool {
        self is Write
    }

    /// The operation's code, in place for the command byte.
    pub fn into(self) -> (code: u8)
        ensures
            code == self.code(),
    {
        assert(0b00u8 << 2 == 0x00 && 0b01u8 << 2 == 0x04 && 0b10u8 << 2 == 0x08 && 0b11u8 << 2
            == 0x0C && 0x10u8 << 2 == 0x40) by (bit_vector);
        match self {
            Command::Write => 0b00 << 2,
            Command::Increment => 0b01 << 2,
            Command::Decrement => 0b10 << 2,
            Command::Read => 0b11 << 2,
            Command::EnableWiperLock => 0b01 << 2,
            Command::DisableWiperLock => 0x10 << 2,
        }
    }
}

/// The registers of the device.
#[derive(Clone, Copy, Debug, PartialEq, Eq, Structural)]
pub enum MemoryAddress {
    VolatileWiper0,
    VolatileWiper1,
    NonVolatileWiper0,
    NonVolatileWiper1,
    VolatileTCONRegister,
    StatusRegister,
    /// One of the ten general-purpose slots, counted from 0.
    DataEEPROM(u8),
    WiperLock,
}

/// The number of general-purpose slots.
pub const EEPROM_SLOTS: u8 = 10;

/// A slot index that names none of the general-purpose slots.
#[derive(Clone, Copy, Debug, PartialEq, Eq, Structural)]
pub struct OutOfRangeAddressError;

impl MemoryAddress {
    /// Whether the address names a register of the device: every address
    /// does, but a slot whose index is 10 or more.
    pub open spec fn valid(self) -> bool {
        match self {
            MemoryAddress::DataEEPROM(slot) => slot < EEPROM_SLOTS,
            _ => true,
        }
    }

    /// The four-bit number of the register. Slot `n` has the number `5 + n`.
    pub open spec fn number(self) -> int {
        match self {
            MemoryAddress::VolatileWiper0 => 0x0,
            MemoryAddress::VolatileWiper1 => 0x1,
            MemoryAddress::NonVolatileWiper0 => 0x2,
            MemoryAddress::NonVolatileWiper1 => 0x3,
            MemoryAddress::VolatileTCONRegister => 0x4,
            MemoryAddress::StatusRegister => 0x5,
            MemoryAddress::DataEEPROM(slot) => 0x5 + slot,
            MemoryAddress::WiperLock => 0xF,
        }
    }

    /// The register's number in the high four bits of a byte.
    pub open spec fn code(self) -> u8
        recommends
            self.valid(),
    {
        (self.number() * 16) as u8
    }

    /// The address of the general-purpose slot `slot`, where there is one.
    pub fn data_eeprom(slot: u8) -> (address: Result<MemoryAddress, OutOfRangeAddressError>)
        ensures
            slot < EEPROM_SLOTS ==> address == Ok::<MemoryAddress, OutOfRangeAddressError>(
                MemoryAddress::DataEEPROM(slot),
            ),
            slot >= EEPROM_SLOTS ==> address is Err,
    {
        if slot < EEPROM_SLOTS {
            Ok(MemoryAddress::DataEEPROM(slot))
        } else {
            Err(OutOfRangeAddressError)
        }
    }

    /// Whether the address names a register of the device.
    pub fn is_valid(&self) -> (valid: bool)
        ensures
            valid == self.valid(),
    {
        match self {
            MemoryAddress::DataEEPROM(slot) => *slot < EEPROM_SLOTS,
            _ => true,
        }
    }

    /// The register's number, in place for the command byte.
    pub fn into(self) -> (code: u8)
        requires
            self.valid(),
        ensures
            code == self.code(),
            code == self.number() * 16,
    {
        assert(forall|number: u8| number < 16 ==> #[trigger] (number << 4) == number * 16)
            by (bit_vector);
        match self {
            MemoryAddress::VolatileWiper0 => 0x00 << 4,
            MemoryAddress::VolatileWiper1 => 0x01 << 4,
            MemoryAddress::NonVolatileWiper0 => 0x02 << 4,
            MemoryAddress::NonVolatileWiper1 => 0x03 << 4,
            MemoryAddress::VolatileTCONRegister => 0x04 << 4,
            MemoryAddress::StatusRegister => 0x05 << 4,
            MemoryAddress::DataEEPROM(eeprom_slot) => (0x05 + eeprom_slot) << 4,
            MemoryAddress::WiperLock => 0x0F << 4,
        }
    }
}

/// An operation paired with data that it does not take, or sent without the
/// data that it needs.
#[derive(Clone, Copy, Debug, PartialEq, Eq, Structural)]
pub struct InvalidCommandCombinationError;

/// Whether `command` may be sent with `data`: `Write` needs a data word, and
/// no other operation takes one.
pub open spec fn legal(command: Command, data: Option<u16>) -> bool {
    command.takes_data() <==> data is Some
}

/// Bits 8 and 9 of the data word, in the two low bits of a byte. Higher bits
/// of the word are dropped.
pub open spec fn top_bits(data: u16) -> u8 {
    ((data >> 8) as u8) & 0b0000_0011
}

/// The low eight bits of the data word.
pub open spec fn bottom_byte(data: u16) -> u8 {
    (data & 0b1111_1111) as u8
}

/// The command byte: the register's number in bits 4 to 7, the operation's
/// code from bit 2 up, and the top bits of the data word, if there is one,
/// in bits 0 and 1.
pub open spec fn command_byte(address: MemoryAddress, command: Command, data: Option<u16>) -> u8
    recommends
        address.valid(),
{
    address.code() | command.code() | match data {
        Some(word) => top_bits(word),
        None => 0u8,
    }
}

/// The frame for a legal pairing: the command byte, and the data byte where
/// a data word is sent.
pub open spec fn frame(address: MemoryAddress, command: Command, data: Option<u16>) -> (
    u8,
    Option<u8>,
)
    recommends
        address.valid(),
{
    (
        command_byte(address, command, data),
        match data {
            Some(word) => Some(bottom_byte(word)),
            None => None,
        },
    )
}

/// What composing gives: the frame for a legal pairing, the error for an
/// illegal one.
pub open spec fn composition(address: MemoryAddress, command: Command, data: Option<u16>) -> Result<
    (u8, Option<u8>),
    InvalidCommandCombinationError,
>
    recommends
        address.valid(),
{
    if legal(command, data) {
        Ok(frame(address, command, data))
    } else {
        Err(InvalidCommandCombinationError)
    }
}

/// Whether `command` may be sent with `data`.
pub fn is_legal(command: &Command, data: Option<u16>) -> (ok: bool)
    ensures
        ok == legal(*command, data),
{
    match command {
        Command::Write => data.is_some(),
        _ => data.is_none(),
    }
}

/// Compose the two-byte frame that sends `command` to `memory_address`.
///
/// An illegal pairing of operation and data is refused, a legal one always
/// yields its frame. The result depends on the three arguments and on
/// nothing else: the same arguments give the same bytes, however often they
/// are composed.
pub fn compose_command(
    memory_address: &MemoryAddress,
    command: &Command,
    data_byte: Option<u16>,
) -> (composed: Result<(u8, Option<u8>), InvalidCommandCombinationError>)
    requires
        memory_address.valid(),
    ensures
        composed == composition(*memory_address, *command, data_byte),
{
    let mut command_byte: u8 = 0;

    command_byte |= (*memory_address).into();
    command_byte |= (*command).into();
    assert(command_byte == memory_address.code() | command.code()) by {
        let a = memory_address.code();
        let c = command.code();
        assert((0u8 | a) | c == a | c) by (bit_vector);
    }

    match command {
        Command::Write => {
            if data_byte.is_none() {
                return Err(InvalidCommandCombinationError);
            }
        },
        Command::Increment
        | Command::Decrement
        | Command::EnableWiperLock
        | Command::DisableWiperLock
        | Command::Read => {
            if data_byte.is_some() {
                return Err(InvalidCommandCombinationError);
            }
        },
    }

    if let Some(data) = data_byte {
        assert(data >> 8 <= 0xFF && data & 0b1111_1111 <= 0xFF) by (bit_vector);
        let top_bits: u8 = (data >> 8) as u8 & 0b0000_0011;
        command_byte |= top_bits;

        let bottom_byte: u8 = (data & 0b1111_1111) as u8;

        Ok((command_byte, Some(bottom_byte)))
    } else {
        assert(command_byte | 0u8 == command_byte) by (bit_vector);
        Ok((command_byte, None))
    }
}

/// The two data fields of a frame, as numbers: the top bits are the word's
/// quotient by 256, taken modulo 4, and the data byte is its remainder.
pub proof fn lemma_data_fields(data: u16)
    ensures
        top_bits(data) == (data / 256) % 4,
        bottom_byte(data) == data % 256,
        data <= 1023 ==> top_bits(data) == data / 256,
        top_bits(data) == (data >> 8) & 0b11,
        bottom_byte(data) == data & 0xFF,
{
    assert(((data >> 8) as u8) & 0b0000_0011 == (data / 256) % 4) by (bit_vector);
    assert((data & 0b1111_1111) as u8 == data % 256) by (bit_vector);
    assert(((data >> 8) as u8) & 0b0000_0011 == (data >> 8) & 0b11) by (bit_vector);
    assert((data & 0b1111_1111) as u8 == data & 0xFF) by (bit_vector);
}

/// Bits of the data word above bit 9 never reach the frame.
pub proof fn lemma_high_bits_dropped(address: MemoryAddress, command: Command, data: u16)
    ensures
        frame(address, command, Some(data)) == frame(address, command, Some(data & 0x3FF)),
{
    assert(((data >> 8) as u8) & 0b0000_0011 == (((data & 0x3FF) >> 8) as u8) & 0b0000_0011)
        by (bit_vector);
    assert((data & 0b1111_1111) as u8 == ((data & 0x3FF) & 0b1111_1111) as u8) by (bit_vector);
}

/// A `Write` with a data word is legal for every register. Its command byte
/// carries the word's top bits in its two low bits and the register's number
/// above them, and its data byte is the word's low eight bits.
pub proof fn lemma_write_frame(address: MemoryAddress, data: u16)
    requires
        address.valid(),
    ensures
        composition(address, Command::Write, Some(data)) is Ok,
        composition(address, Command::Write, Some(data))->Ok_0 == frame(
            address,
            Command::Write,
            Some(data),
        ),
        frame(address, Command::Write, Some(data)).0 & 0b11 == (data >> 8) & 0b11,
        frame(address, Command::Write, Some(data)).0 >> 4 == address.number(),
        frame(address, Command::Write, Some(data)).0 == address.number() * 16 + (data / 256) % 4,
        frame(address, Command::Write, Some(data)).1 == Some(bottom_byte(data)),
        bottom_byte(data) == data & 0xFF,
{
    lemma_data_fields(data);
    let a = address.code();
    let t = top_bits(data);
    let n = address.number() as u8;
    assert(n < 16 && a == n * 16);
    assert((a | 0x00u8 | t) & 0b11 == t && (a | 0x00u8 | t) >> 4 == n && (a | 0x00u8 | t) == n
        * 16 + t) by (bit_vector)
        requires
            n < 16,
            a == n * 16,
            t < 4,
    ;
}

/// An operation other than `Write` is legal exactly without data. Its frame
/// has no data byte, and the two low bits of its command byte are 0.
pub proof fn lemma_dataless_frame(address: MemoryAddress, command: Command)
    requires
        address.valid(),
        command != Command::Write,
    ensures
        forall|data: u16| #[trigger] composition(address, command, Some(data)) is Err,
        composition(address, command, None) is Ok,
        composition(address, command, None)->Ok_0 == frame(address, command, None),
        frame(address, command, None).1 is None,
        frame(address, command, None).0 & 0b11 == 0,
        command != Command::DisableWiperLock ==> frame(address, command, None).0
            == address.number() * 16 + command.code(),
{
    let a = address.code();
    let c = command.code();
    let n = address.number() as u8;
    assert(n < 16 && a == n * 16);
    assert((a | c | 0u8) & 0b11 == 0 && (c != 0x40 ==> (a | c | 0u8) == n * 16 + c))
        by (bit_vector)
        requires
            n < 16,
            a == n * 16,
            c == 0x04 || c == 0x08 || c == 0x0C || c == 0x40,
    ;
}

/// `Write` without a data word is refused, whatever the register.
pub proof fn lemma_write_needs_data(address: MemoryAddress)
    ensures
        composition(address, Command::Write, None) is Err,
{
}

/// The high four bits of the command byte are the register's number, for
/// every operation but `DisableWiperLock`, whose code sets bit 6 as well.
pub proof fn lemma_address_placement(address: MemoryAddress, command: Command, data: Option<u16>)
    requires
        address.valid(),
    ensures
        command != Command::DisableWiperLock ==> command_byte(address, command, data) >> 4
            == address.number(),
        command == Command::DisableWiperLock ==> command_byte(address, command, data) >> 4
            == (address.number() as u8) | 0x4,
{
    let a = address.code();
    let c = command.code();
    let t = match data {
        Some(word) => top_bits(word),
        None => 0u8,
    };
    let n = address.number() as u8;
    assert(n < 16 && a == n * 16);
    assert(t < 4) by {
        if let Some(word) = data {
            lemma_data_fields(word);
        }
    }
    assert((c != 0x40 ==> (a | c | t) >> 4 == n) && (c == 0x40 ==> (a | c | t) >> 4 == n | 0x4))
        by (bit_vector)
        requires
            n < 16,
            a == n * 16,
            t < 4,
            c == 0x00 || c == 0x04 || c == 0x08 || c == 0x0C || c == 0x40,
    ;
}

} // verus!
