//! The controller of one device: the scaling of a resistance into wiper
//! steps, and the bus operations that make up a transaction.

use crate::protocol::{compose_command, frame, legal, Command, MemoryAddress};
use vstd::prelude::*;

verus! {

/// The settle time between a change of the chip-select line and the bytes,
/// in milliseconds.
pub const SETTLE_MS: u16 = 1;

/// The byte that is clocked out in place of a data byte where a frame has none.
pub const FILLER_BYTE: u8 = 0b0000_0000;

/// One thing asked of the hardware.
#[derive(Clone, Copy, Debug, PartialEq, Eq, Structural)]
pub enum BusOperation {
    /// Drive the chip-select line low, which addresses the device.
    ChipSelectLow,
    /// Drive the chip-select line high, which releases the device.
    ChipSelectHigh,
    /// Wait for this many milliseconds.
    DelayMs(u16),
    /// Transmit one byte, and wait until the transport has taken it.
    Send(u8),
}

/// The serial bus and the chip-select line of one device, as the ordered
/// record of what was asked of them. Whoever owns the hardware carries the
/// operations out in this order.
pub struct Bus {
    operations: Vec<BusOperation>,
}

impl View for Bus {
    type V = Seq<BusOperation>;

    closed spec fn view(&self) -> Seq<BusOperation> {
        self.operations@
    }
}

impl Bus {
    /// A bus of which nothing was asked yet.
    pub fn new() -> (bus: Bus)
        ensures
            bus@ == Seq::<BusOperation>::empty(),
    {
        Bus { operations: Vec::new() }
    }

    /// Hand out the recorded operations, oldest first, and start the record
    /// anew.
    pub fn take(&mut self) -> (operations: Vec<BusOperation>)
        ensures
            operations@ == old(self)@,
            final(self)@ == Seq::<BusOperation>::empty(),
    {
        let mut operations: Vec<BusOperation> = Vec::new();
        std::mem::swap(&mut self.operations, &mut operations);
        operations
    }

    fn record(&mut self, operation: BusOperation)
        ensures
            final(self)@ == old(self)@.push(operation),
    {
        self.operations.push(operation);
    }
}

/// The byte that follows the command byte on the wire: the data byte, or the
/// filler where the frame has none.
pub open spec fn second_byte(data_byte: Option<u8>) -> u8 {
    match data_byte {
        Some(byte) => byte,
        None => FILLER_BYTE,
    }
}

/// The operations of one transaction, in order: select the device, let the
/// line settle, send the two bytes, let the line settle, release the device.
pub open spec fn transaction(sent: (u8, Option<u8>)) -> Seq<BusOperation> {
    seq![
        BusOperation::ChipSelectLow,
        BusOperation::DelayMs(SETTLE_MS),
        BusOperation::Send(sent.0),
        BusOperation::Send(second_byte(sent.1)),
        BusOperation::DelayMs(SETTLE_MS),
        BusOperation::ChipSelectHigh,
    ]
}

/// The wiper position for a resistance: the resistance, capped at the full
/// scale, as its share of the full scale in steps, rounded down.
pub open spec fn wiper_steps(resistance: u16, full_scale: u16, n_bits: u16) -> int
    recommends
        full_scale > 0,
{
    (if resistance <= full_scale {
        resistance as int
    } else {
        full_scale as int
    }) * n_bits / (full_scale as int)
}

/// The handle of one device. Its two settings are fixed when it is made.
pub struct MCP4161 {
    full_scale: u16,
    n_bits: u16,
}

impl MCP4161 {
    /// The resistance at the top of the wiper's range.
    pub closed spec fn spec_full_scale(&self) -> u16 {
        self.full_scale
    }

    /// The number of steps of the wiper's range.
    pub closed spec fn spec_n_bits(&self) -> u16 {
        self.n_bits
    }

    /// A handle for a device whose chip-select line is on `bus`. The line is
    /// driven high, which leaves the device released, and nothing is sent.
    pub fn new(bus: &mut Bus, full_scale: u16, n_bits: u16) -> (device: MCP4161)
        ensures
            device.full_scale() == full_scale,
            device.n_bits() == n_bits,
            final(bus)@ == old(bus)@.push(BusOperation::ChipSelectHigh),
            released(final(bus)@),
            sent_bytes(final(bus)@) == sent_bytes(old(bus)@),
    {
        proof {
            lemma_record_push(bus@, BusOperation::ChipSelectHigh);
        }
        bus.record(BusOperation::ChipSelectHigh);
        MCP4161 { full_scale, n_bits }
    }

    /// The resistance at the top of the wiper's range.
    #[verifier::when_used_as_spec(spec_full_scale)]
    pub fn full_scale(&self) -> (full_scale: u16)
        ensures
            full_scale == self.full_scale(),
    {
        self.full_scale
    }

    /// The number of steps of the wiper's range.
    #[verifier::when_used_as_spec(spec_n_bits)]
    pub fn n_bits(&self) -> (n_bits: u16)
        ensures
            n_bits == self.n_bits(),
    {
        self.n_bits
    }

    /// The wiper position that stands for `resistance` on this device.
    pub fn steps(&self, resistance: u16) -> (scale: u16)
        requires
            self.full_scale() > 0,
        ensures
            scale == wiper_steps(resistance, self.full_scale(), self.n_bits()),
            scale <= self.n_bits(),
    {
        let capped: u16 = resistance.min(self.full_scale);
        proof {
            lemma_share_bounded(capped as int, self.full_scale as int, self.n_bits as int);
            assert(capped * self.n_bits <= 0xFFFF * 0xFFFF) by (nonlinear_arith)
                requires
                    0 <= capped <= 0xFFFF,
                    0 <= self.n_bits <= 0xFFFF,
            ;
        }
        ((capped as u32 * self.n_bits as u32) / self.full_scale as u32) as u16
    }

    /// Move the wiper to the position that stands for `resistance`, by a
    /// `Write` to the first volatile wiper register. A resistance above the
    /// full scale is taken as the full scale. Returns the two bytes sent.
    pub fn set_resistance(&mut self, bus: &mut Bus, resistance: u16) -> (sent: (u8, Option<u8>))
        requires
            old(self).full_scale() > 0,
        ensures
            *final(self) == *old(self),
            sent == frame(
                MemoryAddress::VolatileWiper0,
                Command::Write,
                Some(wiper_steps(resistance, old(self).full_scale(), old(self).n_bits()) as u16),
            ),
            final(bus)@ == old(bus)@ + transaction(sent),
            sent_bytes(final(bus)@) == sent_bytes(old(bus)@) + seq![sent.0, second_byte(sent.1)],
            released(final(bus)@),
    {
        let scale: u16 = self.steps(resistance);
        self.send_command(bus, MemoryAddress::VolatileWiper0, Command::Write, Some(scale))
    }

    /// Send `command` to the register at `address` in one transaction, and
    /// return the bytes sent: the command byte, and the data byte where the
    /// operation carries data. Without one, a filler byte is sent in its
    /// place. The frame is composed before the device is selected.
    pub fn send_command(
        &mut self,
        bus: &mut Bus,
        address: MemoryAddress,
        command: Command,
        optional_data: Option<u16>,
    ) -> (sent: (u8, Option<u8>))
        requires
            address.valid(),
            legal(command, optional_data),
        ensures
            *final(self) == *old(self),
            sent == frame(address, command, optional_data),
            final(bus)@ == old(bus)@ + transaction(sent),
            sent_bytes(final(bus)@) == sent_bytes(old(bus)@) + seq![sent.0, second_byte(sent.1)],
            released(final(bus)@),
    {
        let (command_byte, data_byte_option) = compose_command(
            &address,
            &command,
            optional_data,
        ).unwrap();

        bus.record(BusOperation::ChipSelectLow);
        bus.record(BusOperation::DelayMs(SETTLE_MS));

        bus.record(BusOperation::Send(command_byte));
        if let Some(data_byte) = data_byte_option {
            bus.record(BusOperation::Send(data_byte));
        } else {
            bus.record(BusOperation::Send(FILLER_BYTE));
        }

        bus.record(BusOperation::DelayMs(SETTLE_MS));
        bus.record(BusOperation::ChipSelectHigh);
        proof {
            assert(bus@ =~= old(bus)@ + transaction((command_byte, data_byte_option)));
            lemma_transaction_framing(old(bus)@, (command_byte, data_byte_option));
        }
        (command_byte, data_byte_option)
    }
}

/// A share of `steps` is no more than `steps`: for `0 <= part <= whole` and
/// `whole > 0`, the quotient of `part * steps` by `whole` lies between 0 and
/// `steps`.
pub proof fn lemma_share_bounded(part: int, whole: int, steps: int)
    requires
        0 <= part <= whole,
        0 < whole,
        0 <= steps,
    ensures
        0 <= part * steps / whole <= steps,
        part == whole ==> part * steps / whole == steps,
{
    assert(0 <= part * steps <= whole * steps) by (nonlinear_arith)
        requires
            0 <= part <= whole,
            0 <= steps,
    ;
    assert(0 <= part * steps / whole <= steps) by (nonlinear_arith)
        requires
            0 <= part * steps <= whole * steps,
            0 < whole,
    ;
    assert(whole * steps / whole == steps) by (nonlinear_arith)
        requires
            0 < whole,
    ;
}

/// The wiper position never exceeds the number of steps, and every
/// resistance at or above the full scale gives the last step.
pub proof fn lemma_steps_capped(resistance: u16, full_scale: u16, n_bits: u16)
    requires
        full_scale > 0,
    ensures
        0 <= wiper_steps(resistance, full_scale, n_bits) <= n_bits,
        resistance >= full_scale ==> wiper_steps(resistance, full_scale, n_bits) == n_bits,
        wiper_steps(0, full_scale, n_bits) == 0,
{
    let capped: int = if resistance <= full_scale {
        resistance as int
    } else {
        full_scale as int
    };
    lemma_share_bounded(capped, full_scale as int, n_bits as int);
    assert(0 * n_bits / (full_scale as int) == 0) by (nonlinear_arith)
        requires
            full_scale > 0,
    ;
}

/// A larger resistance never gives a lower wiper position.
pub proof fn lemma_steps_monotone(lower: u16, higher: u16, full_scale: u16, n_bits: u16)
    requires
        full_scale > 0,
        lower <= higher,
    ensures
        wiper_steps(lower, full_scale, n_bits) <= wiper_steps(higher, full_scale, n_bits),
{
    let low: int = if lower <= full_scale {
        lower as int
    } else {
        full_scale as int
    };
    let high: int = if higher <= full_scale {
        higher as int
    } else {
        full_scale as int
    };
    let whole = full_scale as int;
    assert(low * n_bits <= high * n_bits) by (nonlinear_arith)
        requires
            0 <= low <= high,
            0 <= n_bits,
    ;
    assert(low * n_bits / whole <= high * n_bits / whole) by (nonlinear_arith)
        requires
            low * n_bits <= high * n_bits,
            0 < whole,
    ;
}

/// The bytes that a record of operations puts on the wire, in order.
pub open spec fn sent_bytes(operations: Seq<BusOperation>) -> Seq<u8>
    decreases operations.len(),
{
    if operations.len() == 0 {
        Seq::<u8>::empty()
    } else {
        let before = sent_bytes(operations.drop_last());
        match operations.last() {
            BusOperation::Send(byte) => before.push(byte),
            _ => before,
        }
    }
}

/// How often the chip-select line is driven low in a record, and how often
/// high.
pub open spec fn chip_select_changes(operations: Seq<BusOperation>) -> (nat, nat)
    decreases operations.len(),
{
    if operations.len() == 0 {
        (0, 0)
    } else {
        let before = chip_select_changes(operations.drop_last());
        match operations.last() {
            BusOperation::ChipSelectLow => (before.0 + 1, before.1),
            BusOperation::ChipSelectHigh => (before.0, before.1 + 1),
            _ => before,
        }
    }
}

/// Whether a record leaves the device released: the chip-select line was
/// driven, and the last time high.
pub open spec fn released(operations: Seq<BusOperation>) -> bool
    decreases operations.len(),
{
    if operations.len() == 0 {
        false
    } else {
        match operations.last() {
            BusOperation::ChipSelectLow => false,
            BusOperation::ChipSelectHigh => true,
            _ => released(operations.drop_last()),
        }
    }
}

/// What one more operation adds to the bytes on the wire and to the changes
/// of the chip-select line.
pub proof fn lemma_record_push(operations: Seq<BusOperation>, operation: BusOperation)
    ensures
        sent_bytes(operations.push(operation)) == match operation {
            BusOperation::Send(byte) => sent_bytes(operations).push(byte),
            _ => sent_bytes(operations),
        },
        chip_select_changes(operations.push(operation)) == match operation {
            BusOperation::ChipSelectLow => (
                chip_select_changes(operations).0 + 1,
                chip_select_changes(operations).1,
            ),
            BusOperation::ChipSelectHigh => (
                chip_select_changes(operations).0,
                chip_select_changes(operations).1 + 1,
            ),
            _ => chip_select_changes(operations),
        },
        released(operations.push(operation)) == match operation {
            BusOperation::ChipSelectLow => false,
            BusOperation::ChipSelectHigh => true,
            _ => released(operations),
        },
{
    assert(operations.push(operation).drop_last() =~= operations);
}

/// A transaction, whatever was recorded before it, puts exactly two bytes on
/// the wire: the command byte, then the data byte or the filler. It drives
/// the chip-select line low once, before the bytes, and high once, after
/// them, and leaves the device released.
pub proof fn lemma_transaction_framing(before: Seq<BusOperation>, sent: (u8, Option<u8>))
    ensures
        sent_bytes(before + transaction(sent)) == sent_bytes(before) + seq![
            sent.0,
            second_byte(sent.1),
        ],
        chip_select_changes(before + transaction(sent)) == (
            chip_select_changes(before).0 + 1,
            chip_select_changes(before).1 + 1,
        ),
        released(before + transaction(sent)),
        transaction(sent).len() == 6,
        transaction(sent).first() == BusOperation::ChipSelectLow,
        transaction(sent).last() == BusOperation::ChipSelectHigh,
        forall|i: int|
            0 < i < 5 ==> !(#[trigger] transaction(sent)[i] is ChipSelectLow) && !(transaction(
                sent,
            )[i] is ChipSelectHigh),
{
    let s1 = before.push(BusOperation::ChipSelectLow);
    let s2 = s1.push(BusOperation::DelayMs(SETTLE_MS));
    let s3 = s2.push(BusOperation::Send(sent.0));
    let s4 = s3.push(BusOperation::Send(second_byte(sent.1)));
    let s5 = s4.push(BusOperation::DelayMs(SETTLE_MS));
    let s6 = s5.push(BusOperation::ChipSelectHigh);
    lemma_record_push(before, BusOperation::ChipSelectLow);
    lemma_record_push(s1, BusOperation::DelayMs(SETTLE_MS));
    lemma_record_push(s2, BusOperation::Send(sent.0));
    lemma_record_push(s3, BusOperation::Send(second_byte(sent.1)));
    lemma_record_push(s4, BusOperation::DelayMs(SETTLE_MS));
    lemma_record_push(s5, BusOperation::ChipSelectHigh);
    assert(before + transaction(sent) =~= s6);
    assert(sent_bytes(before).push(sent.0).push(second_byte(sent.1)) =~= sent_bytes(before)
        + seq![sent.0, second_byte(sent.1)]);
}

} // verus!
