//! Register map, pin masks and the command framing of the expander.
use vstd::prelude::*;

verus! {

/// One of the eleven registers of the chip.
#[derive(Clone, Copy, Debug, PartialEq, Eq, Structural)]
pub enum Reg {
    Iodir,
    Ipol,
    Gpinten,
    Defval,
    Intcon,
    Iocon,
    Gppu,
    Intf,
    Intcap,
    Gpio,
    Olat,
}

impl Reg {
    /// The register's address byte.
    pub open spec fn spec_index(self) -> u8 {
        match self {
            Reg::Iodir => 0x00,
            Reg::Ipol => 0x01,
            Reg::Gpinten => 0x02,
            Reg::Defval => 0x03,
            Reg::Intcon => 0x04,
            Reg::Iocon => 0x05,
            Reg::Gppu => 0x06,
            Reg::Intf => 0x07,
            Reg::Intcap => 0x08,
            Reg::Gpio => 0x09,
            Reg::Olat => 0x0A,
        }
    }

    pub fn index(self) -> (r: u8)
        ensures
            r == self.spec_index(),
    {
        match self {
            Reg::Iodir => 0x00,
            Reg::Ipol => 0x01,
            Reg::Gpinten => 0x02,
            Reg::Defval => 0x03,
            Reg::Intcon => 0x04,
            Reg::Iocon => 0x05,
            Reg::Gppu => 0x06,
            Reg::Intf => 0x07,
            Reg::Intcap => 0x08,
            Reg::Gpio => 0x09,
            Reg::Olat => 0x0A,
        }
    }
}

/// The fixed upper bits of every opcode byte.
pub const OPCODE_PREFIX: u8 = 0x40;

/// The opcode byte: the fixed prefix, the two address bits shifted up by one,
/// and the read flag in bit zero.
pub open spec fn opcode_spec(hw_addr: u8, is_read: bool) -> u8 {
    (0x40 + 2 * (hw_addr % 4) + if is_read { 1int } else { 0int }) as u8
}

/// The opcode byte for a device at `hw_addr` (only its two low bits count).
pub fn opcode_for(hw_addr: u8, is_read: bool) -> (r: u8)
    ensures
        r == opcode_spec(hw_addr, is_read),
{
    let rw: u8 = if is_read { 1 } else { 0 };
    let r: u8 = OPCODE_PREFIX | ((hw_addr & 0x03) << 1u8) | rw;
    assert(r == (0x40u8 + 2u8 * (hw_addr % 4u8) + rw) as u8) by (bit_vector)
        requires
            r == 0x40u8 | ((hw_addr & 0x03u8) << 1u8) | rw,
            rw <= 1u8,
    ;
    r
}

/// The three bytes that write `value` into `reg`.
pub open spec fn write_bytes(hw_addr: u8, reg: Reg, value: u8) -> Seq<u8> {
    seq![opcode_spec(hw_addr, false), reg.spec_index(), value]
}

/// The two bytes sent before the chip answers with the content of `reg`.
pub open spec fn read_bytes(hw_addr: u8, reg: Reg) -> Seq<u8> {
    seq![opcode_spec(hw_addr, true), reg.spec_index()]
}

/// Frames a register write.
pub fn write_frame(hw_addr: u8, reg: Reg, value: u8) -> (r: [u8; 3])
    ensures
        r@ == write_bytes(hw_addr, reg, value),
{
    let r = [opcode_for(hw_addr, false), reg.index(), value];
    assert(r@ =~= write_bytes(hw_addr, reg, value));
    r
}

/// Frames the command half of a register read.
pub fn read_command(hw_addr: u8, reg: Reg) -> (r: [u8; 2])
    ensures
        r@ == read_bytes(hw_addr, reg),
{
    let r = [opcode_for(hw_addr, true), reg.index()];
    assert(r@ =~= read_bytes(hw_addr, reg));
    r
}

/// `value` with the bits of `mask` set (`set`) or cleared.
pub open spec fn with_bits(value: u8, mask: u8, set: bool) -> u8 {
    if set {
        value | mask
    } else {
        value & !mask
    }
}

pub fn update_bits(value: u8, mask: u8, set: bool) -> (r: u8)
    ensures
        r == with_bits(value, mask, set),
{
    if set {
        value | mask
    } else {
        value & !mask
    }
}

/// The eleven registers sit at distinct addresses from 0x00 to 0x0A.
pub proof fn lemma_register_map(a: Reg, b: Reg)
    ensures
        a.spec_index() <= 0x0A,
        a.spec_index() == b.spec_index() ==> a == b,
{
}

/// For every hardware address from 0 to 3, every register and every value, a
/// write is the bytes `[0x40 | addr << 1, index, value]` and the command of a
/// read is `[0x40 | addr << 1 | 1, index]`.
pub proof fn lemma_frame_layout(hw_addr: u8, reg: Reg, value: u8)
    requires
        hw_addr <= 3,
    ensures
        write_bytes(hw_addr, reg, value) == seq![0x40u8 | (hw_addr << 1u8), reg.spec_index(), value],
        read_bytes(hw_addr, reg) == seq![0x40u8 | (hw_addr << 1u8) | 1u8, reg.spec_index()],
        write_bytes(hw_addr, reg, value)[0] == 0x40 + 2 * hw_addr,
        read_bytes(hw_addr, reg)[0] == 0x41 + 2 * hw_addr,
{
    assert(opcode_spec(hw_addr, false) == 0x40u8 | (hw_addr << 1u8)) by (bit_vector)
        requires
            hw_addr <= 3,
            opcode_spec(hw_addr, false) == (0x40u8 + 2u8 * (hw_addr % 4u8)) as u8,
    ;
    assert(opcode_spec(hw_addr, true) == 0x40u8 | (hw_addr << 1u8) | 1u8) by (bit_vector)
        requires
            hw_addr <= 3,
            opcode_spec(hw_addr, true) == (0x40u8 + 2u8 * (hw_addr % 4u8) + 1u8) as u8,
    ;
}

/// `mask` has exactly one bit set.
pub open spec fn is_single_bit(mask: u8) -> bool {
    ||| mask == 0x01
    ||| mask == 0x02
    ||| mask == 0x04
    ||| mask == 0x08
    ||| mask == 0x10
    ||| mask == 0x20
    ||| mask == 0x40
    ||| mask == 0x80
}

/// Updating the bits of a single-bit `mask` leaves every other bit as it was,
/// leaves that bit as requested, and, when it was not already so, flips exactly
/// that one bit.
pub proof fn lemma_single_bit_update(value: u8, mask: u8, set: bool)
    requires
        is_single_bit(mask),
    ensures
        with_bits(value, mask, set) & !mask == value & !mask,
        (with_bits(value, mask, set) & mask != 0) == set,
        (value & mask != 0) != set ==> with_bits(value, mask, set) == value ^ mask,
{
    if set {
        assert((value | mask) & !mask == value & !mask) by (bit_vector);
        assert(is_single_bit(mask) ==> (value | mask) & mask != 0) by (bit_vector);
        assert(value & mask == 0 ==> value | mask == value ^ mask) by (bit_vector);
    } else {
        assert((value & !mask) & !mask == value & !mask) by (bit_vector);
        assert((value & !mask) & mask == 0) by (bit_vector);
        assert(is_single_bit(mask) && value & mask != 0 ==> value & !mask == value ^ mask)
            by (bit_vector);
    }
}

/// Setting the bits of `mask` in a byte where they were clear, then clearing
/// them, gives the byte back; the first step is `value | mask`.
pub proof fn lemma_set_then_clear(value: u8, mask: u8)
    requires
        value & mask == 0,
    ensures
        with_bits(value, mask, true) == value | mask,
        with_bits(with_bits(value, mask, true), mask, false) == value,
{
    assert(value & mask == 0 ==> (value | mask) & !mask == value) by (bit_vector);
}

} // verus!
