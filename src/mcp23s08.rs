//! The blocking device handle and its per-pin view.
use vstd::prelude::*;
use vstd::arithmetic::power2::{pow2, lemma2_to64};
use embedded_hal::spi::{ErrorKind, Operation, SpiDevice};
use crate::codec::{
    Reg, read_bytes, write_bytes, is_single_bit, lemma_set_then_clear, lemma_single_bit_update, read_command, update_bits,
    with_bits, write_frame,
};

verus! {

/// embedded-hal's portable classification of SPI faults, carried through as is.
#[verifier::external_type_specification]
#[verifier::external_body]
pub struct ExErrorKind(ErrorKind);

/// What can go wrong in a call. The blocking handle reports a transport fault by
/// its embedded-hal `ErrorKind`.
#[derive(Debug)]
pub enum Error<SpiE> {
    /// The transport reported a fault; the touched register's state is unknown.
    Spi(SpiE),
    /// The hardware address given at construction is above 3.
    BadAddress,
}

/// One of the eight pins of the port.
#[derive(Clone, Copy, Debug, PartialEq, Eq, Structural)]
pub enum Pin {
    P0,
    P1,
    P2,
    P3,
    P4,
    P5,
    P6,
    P7,
}

impl Pin {
    /// The pin's position in the port byte.
    pub open spec fn position(self) -> nat {
        match self {
            Pin::P0 => 0,
            Pin::P1 => 1,
            Pin::P2 => 2,
            Pin::P3 => 3,
            Pin::P4 => 4,
            Pin::P5 => 5,
            Pin::P6 => 6,
            Pin::P7 => 7,
        }
    }

    /// The pin's single-bit mask, two to the power of its position.
    pub open spec fn mask(self) -> u8 {
        pow2(self.position()) as u8
    }

    pub fn bit(self) -> (r: u8)
        ensures
            r == self.mask(),
    {
        proof {
            lemma2_to64();
        }
        match self {
            Pin::P0 => 0x01,
            Pin::P1 => 0x02,
            Pin::P2 => 0x04,
            Pin::P3 => 0x08,
            Pin::P4 => 0x10,
            Pin::P5 => 0x20,
            Pin::P6 => 0x40,
            Pin::P7 => 0x80,
        }
    }
}

/// The input polarity of a pin.
#[derive(Clone, Copy, Debug, PartialEq, Eq, Structural)]
pub enum Polarity {
    Normal,
    Inverted,
}

/// What raises a pin's interrupt.
#[derive(Clone, Copy, Debug, PartialEq, Eq, Structural)]
pub enum InterruptMode {
    /// Any change from the previous level.
    OnChange,
    /// A difference from the pin's bit of the default-compare register.
    CompareToDefault,
}

/// The open-drain bit of the configuration register.
pub const IOCON_ODR: u8 = 0x04;

/// The interrupt-polarity bit of the configuration register.
pub const IOCON_INTPOL: u8 = 0x02;

/// One transaction handed to the transport: the bytes sent, what they mean,
/// and what the transport reported.
pub enum Txn {
    /// The three-byte `frame` that writes `value` into `reg`.
    Write { frame: Seq<u8>, reg: Reg, value: u8, outcome: Result<(), ErrorKind> },
    /// The two-byte `command` that reads `reg`, then the byte received.
    Read { command: Seq<u8>, reg: Reg, outcome: Result<u8, ErrorKind> },
}

/// The write of `value` into `reg` by the device at `hw_addr`.
pub open spec fn write_txn(hw_addr: u8, reg: Reg, value: u8, outcome: Result<(), ErrorKind>) -> Txn {
    Txn::Write { frame: write_bytes(hw_addr, reg, value), reg, value, outcome }
}

/// The read of `reg` by the device at `hw_addr`.
pub open spec fn read_txn(hw_addr: u8, reg: Reg, outcome: Result<u8, ErrorKind>) -> Txn {
    Txn::Read { command: read_bytes(hw_addr, reg), reg, outcome }
}

/// The transport fault a failed call reports.
pub open spec fn fault_of<T>(r: Result<T, Error<ErrorKind>>) -> ErrorKind {
    match r {
        Err(Error::Spi(k)) => k,
        _ => arbitrary(),
    }
}

/// The transport's outcome that a call passes on as its result.
pub open spec fn outcome_of<T>(r: Result<T, Error<ErrorKind>>) -> Result<T, ErrorKind> {
    match r {
        Ok(v) => Ok(v),
        Err(_) => Err(fault_of(r)),
    }
}

/// Whether the pin's bit is set in the byte a read of the port returned.
pub open spec fn level_of(o: Result<u8, ErrorKind>, pin: Pin) -> Result<bool, Error<ErrorKind>> {
    match o {
        Ok(v) => Ok(v & pin.mask() != 0),
        Err(k) => Err(Error::Spi(k)),
    }
}

/// `t` is what one read-modify-write of the bits `mask` of `reg`, by the
/// device at `hw_addr`, hands to the transport when the call returns `r`: the
/// read and, when it returned `v`, the write of `v` with those bits set
/// (`set`) or cleared.
pub open spec fn rmw_record(
    t: Seq<Txn>,
    hw_addr: u8,
    reg: Reg,
    mask: u8,
    set: bool,
    r: Result<(), Error<ErrorKind>>,
) -> bool {
    ||| r is Err && t == seq![read_txn(hw_addr, reg, Err(fault_of(r)))]
    ||| exists|v: u8|
        t == seq![
            read_txn(hw_addr, reg, Ok(v)),
            write_txn(hw_addr, reg, with_bits(v, mask, set), outcome_of(r)),
        ]
}

/// `t` is what a toggle of the pin with bit `mask` hands to the transport when
/// the call returns `r`: the read of the port and, when it returned `v`, the
/// write of the output shadow `output` with that bit set opposite to `v`'s.
pub open spec fn toggle_record(
    t: Seq<Txn>,
    hw_addr: u8,
    output: u8,
    mask: u8,
    r: Result<(), Error<ErrorKind>>,
) -> bool {
    ||| r is Err && t == seq![read_txn(hw_addr, Reg::Gpio, Err(fault_of(r)))]
    ||| exists|v: u8|
        t == seq![
            read_txn(hw_addr, Reg::Gpio, Ok(v)),
            write_txn(hw_addr, Reg::Gpio, with_bits(output, mask, v & mask == 0), outcome_of(r)),
        ]
}

/// Each pin has a single-bit mask of its own.
pub proof fn lemma_pin_masks(a: Pin, b: Pin)
    ensures
        is_single_bit(a.mask()),
        a.mask() == b.mask() ==> a == b,
{
    lemma2_to64();
}

/// Setting a pin's direction, pull-up, level or other per-pin bit to `set`
/// leaves the other seven bits of the byte as they were and that pin's bit as
/// requested; where the bit was not already so, exactly that one bit flips.
pub proof fn lemma_pin_update(prior: u8, pin: Pin, set: bool)
    ensures
        with_bits(prior, pin.mask(), set) & !pin.mask() == prior & !pin.mask(),
        (with_bits(prior, pin.mask(), set) & pin.mask() != 0) == set,
        (prior & pin.mask() != 0) != set ==> with_bits(prior, pin.mask(), set) == prior ^ pin.mask(),
{
    lemma_pin_masks(pin, pin);
    lemma_single_bit_update(prior, pin.mask(), set);
}

/// A read-modify-write that succeeded hands the transport exactly one read of
/// the register, then exactly one write to it, each framed for the device's
/// address, and the byte written differs from the byte read only in the
/// targeted bit.
pub proof fn lemma_rmw_shape(t: Seq<Txn>, hw_addr: u8, reg: Reg, mask: u8, set: bool)
    requires
        rmw_record(t, hw_addr, reg, mask, set, Ok::<(), Error<ErrorKind>>(())),
        is_single_bit(mask),
    ensures
        t.len() == 2,
        t[0] is Read && t[0]->Read_reg == reg && t[0]->Read_outcome is Ok,
        t[0]->Read_command == read_bytes(hw_addr, reg),
        t[1] is Write && t[1]->Write_reg == reg && t[1]->Write_outcome is Ok,
        t[1]->Write_frame == write_bytes(hw_addr, reg, t[1]->Write_value),
        t[1]->Write_value & !mask == t[0]->Read_outcome->Ok_0 & !mask,
        (t[1]->Write_value & mask != 0) == set,
{
    let v = choose|v: u8|
        t == seq![
            read_txn(hw_addr, reg, Ok(v)),
            write_txn(hw_addr, reg, with_bits(v, mask, set), Ok(())),
        ];
    lemma_single_bit_update(v, mask, set);
}

/// Driving a pin that was low high and then low again gives the output shadow
/// back: the two writes carry `prior | mask`, then `prior`.
pub proof fn lemma_write_pin_round_trip(prior: u8, pin: Pin)
    requires
        prior & pin.mask() == 0,
    ensures
        with_bits(prior, pin.mask(), true) == prior | pin.mask(),
        with_bits(with_bits(prior, pin.mask(), true), pin.mask(), false) == prior,
{
    lemma_set_then_clear(prior, pin.mask());
}

/// Relies on `SpiDevice::transaction` of embedded-hal: the frame goes out as one
/// write operation within a single chip-select assertion. A fault is reported by
/// its `embedded_hal::spi::Error::kind`.
#[verifier::external_body]
fn spi_write<SPI: SpiDevice>(spi: &mut SPI, frame: &[u8; 3]) -> Result<(), ErrorKind> {
    match spi.transaction(&mut [Operation::Write(frame)]) {
        Ok(()) => Ok(()),
        Err(e) => Err(embedded_hal::spi::Error::kind(&e)),
    }
}

/// Relies on `SpiDevice::transaction` of embedded-hal: the command is sent, then
/// one byte received, within a single chip-select assertion. A fault is reported
/// by its `embedded_hal::spi::Error::kind`.
#[verifier::external_body]
fn spi_write_read<SPI: SpiDevice>(spi: &mut SPI, cmd: &[u8; 2]) -> Result<u8, ErrorKind> {
    let mut byte = [0u8; 1];
    match spi.transaction(&mut [Operation::Write(cmd), Operation::Read(&mut byte)]) {
        Ok(()) => Ok(byte[0]),
        Err(e) => Err(embedded_hal::spi::Error::kind(&e)),
    }
}

/// The device handle: the transport, the hardware address, and the shadows of
/// the direction register and of the output latch.
pub struct Mcp23s08<SPI> {
    spi: SPI,
    hw_addr: u8,
    olat: u8,
    iodir: u8,
    trace: Ghost<Seq<Txn>>,
}

impl<SPI> Mcp23s08<SPI> {
    pub closed spec fn address(&self) -> u8 {
        self.hw_addr
    }

    /// The transport, as the handle holds it.
    pub closed spec fn transport(&self) -> SPI {
        self.spi
    }

    /// The direction shadow (a set bit is an input).
    pub closed spec fn direction(&self) -> u8 {
        self.iodir
    }

    /// The output-latch shadow.
    pub closed spec fn output(&self) -> u8 {
        self.olat
    }

    /// Every transaction handed to the transport since construction, in order.
    pub closed spec fn trace(&self) -> Seq<Txn> {
        self.trace@
    }

    pub open spec fn wf(&self) -> bool {
        self.address() <= 3
    }

    /// The transactions handed to the transport since `before`, when `self` came
    /// from `before` by appending to its trace.
    pub open spec fn issued_since(&self, before: &Self) -> Seq<Txn> {
        self.trace().skip(before.trace().len() as int)
    }

    /// `self` came from `before` by appending transactions to its trace.
    pub open spec fn extends(&self, before: &Self) -> bool {
        before.trace().is_prefix_of(self.trace())
    }

    /// `self` and `other` agree on the address and on both shadows.
    pub open spec fn same_state(&self, other: &Self) -> bool {
        &&& self.address() == other.address()
        &&& self.direction() == other.direction()
        &&& self.output() == other.output()
    }
}

impl<SPI: SpiDevice> Mcp23s08<SPI> {
    fn write_reg(&mut self, reg: Reg, val: u8) -> (r: Result<(), Error<ErrorKind>>)
        ensures
            final(self).trace() == old(self).trace().push(write_txn(old(self).address(), reg, val, outcome_of(r))),
            final(self).same_state(old(self)),
            r matches Err(e) ==> e is Spi,
    {
        let frame = write_frame(self.hw_addr, reg, val);
        let o = spi_write(&mut self.spi, &frame);
        self.trace = Ghost(self.trace@.push(Txn::Write { frame: frame@, reg, value: val, outcome: o }));
        match o {
            Ok(u) => Ok(u),
            Err(k) => Err(Error::Spi(k)),
        }
    }

    fn read_reg(&mut self, reg: Reg) -> (r: Result<u8, Error<ErrorKind>>)
        ensures
            final(self).trace() == old(self).trace().push(read_txn(old(self).address(), reg, outcome_of(r))),
            final(self).same_state(old(self)),
            r matches Err(e) ==> e is Spi,
    {
        let cmd = read_command(self.hw_addr, reg);
        let o = spi_write_read(&mut self.spi, &cmd);
        self.trace = Ghost(self.trace@.push(Txn::Read { command: cmd@, reg, outcome: o }));
        match o {
            Ok(v) => Ok(v),
            Err(k) => Err(Error::Spi(k)),
        }
    }
}

impl<SPI: SpiDevice> Mcp23s08<SPI> {
    /// Checks the address, resets the configuration register to 0x00, then reads
    /// the direction register and the output latch into the shadows.
    pub fn new(spi: SPI, hw_addr: u8) -> (r: Result<Self, Error<ErrorKind>>)
        ensures
            (r matches Err(e) && e is BadAddress) <==> hw_addr > 3,
            r matches Ok(d) ==> {
                &&& d.wf()
                &&& d.address() == hw_addr
                &&& d.trace() == seq![
                    write_txn(hw_addr, Reg::Iocon, 0, Ok(())),
                    read_txn(hw_addr, Reg::Iodir, Ok(d.direction())),
                    read_txn(hw_addr, Reg::Olat, Ok(d.output())),
                ]
            },
    {
        if hw_addr > 3 {
            return Err(Error::BadAddress);
        }
        let mut this = Mcp23s08 { spi, hw_addr, olat: 0x00, iodir: 0xFF, trace: Ghost(Seq::empty()) };
        this.write_reg(Reg::Iocon, 0x00)?;
        let iodir = this.read_reg(Reg::Iodir)?;
        let olat = this.read_reg(Reg::Olat)?;
        this.iodir = iodir;
        this.olat = olat;
        assert(this.trace() =~= seq![
            write_txn(hw_addr, Reg::Iocon, 0, Ok(())),
            read_txn(hw_addr, Reg::Iodir, Ok(iodir)),
            read_txn(hw_addr, Reg::Olat, Ok(olat)),
        ]);
        Ok(this)
    }

    /// Reads `reg`, sets or clears the bits `mask` of the byte, and writes it back.
    fn update_reg(&mut self, reg: Reg, mask: u8, set: bool) -> (r: Result<(), Error<ErrorKind>>)
        ensures
            final(self).extends(old(self)),
            rmw_record(final(self).issued_since(old(self)), old(self).address(), reg, mask, set, r),
            final(self).same_state(old(self)),
            r matches Err(e) ==> e is Spi,
    {
        let ghost t0 = self.trace@;
        let v = match self.read_reg(reg) {
            Ok(v) => v,
            Err(e) => {
                assert(self.trace@.skip(t0.len() as int) =~= seq![read_txn(self.hw_addr, reg, Err(fault_of(Err::<u8, Error<ErrorKind>>(e))))]);
                return Err(e);
            },
        };
        let w = update_bits(v, mask, set);
        let r = self.write_reg(reg, w);
        assert(self.trace@.skip(t0.len() as int) =~= seq![
            read_txn(self.hw_addr, reg, Ok(v)),
            write_txn(self.hw_addr, reg, with_bits(v, mask, set), outcome_of(r)),
        ]);
        r
    }

    /// Sets one pin as input (`input`) or output.
    pub fn set_pin_direction(&mut self, pin: Pin, input: bool) -> (r: Result<(), Error<ErrorKind>>)
        ensures
            final(self).trace() == old(self).trace().push(
                write_txn(old(self).address(), Reg::Iodir, with_bits(old(self).direction(), pin.mask(), input), outcome_of(r)),
            ),
            final(self).address() == old(self).address(),
            final(self).output() == old(self).output(),
            final(self).direction() == if r is Ok {
                with_bits(old(self).direction(), pin.mask(), input)
            } else {
                old(self).direction()
            },
            r matches Err(e) ==> e is Spi,
    {
        let iodir = update_bits(self.iodir, pin.bit(), input);
        let r = self.write_reg(Reg::Iodir, iodir);
        if r.is_ok() {
            self.iodir = iodir;
        }
        r
    }

    /// Sets the direction of all pins at once (a set bit is an input).
    pub fn set_port_direction(&mut self, mask: u8) -> (r: Result<(), Error<ErrorKind>>)
        ensures
            final(self).trace() == old(self).trace().push(write_txn(old(self).address(), Reg::Iodir, mask, outcome_of(r))),
            final(self).address() == old(self).address(),
            final(self).output() == old(self).output(),
            final(self).direction() == if r is Ok { mask } else { old(self).direction() },
            r matches Err(e) ==> e is Spi,
    {
        let r = self.write_reg(Reg::Iodir, mask);
        if r.is_ok() {
            self.iodir = mask;
        }
        r
    }

    /// Enables or disables one pin's pull-up.
    pub fn set_pin_pullup(&mut self, pin: Pin, enable: bool) -> (r: Result<(), Error<ErrorKind>>)
        ensures
            final(self).extends(old(self)),
            rmw_record(final(self).issued_since(old(self)), old(self).address(), Reg::Gppu, pin.mask(), enable, r),
            final(self).same_state(old(self)),
            r matches Err(e) ==> e is Spi,
    {
        self.update_reg(Reg::Gppu, pin.bit(), enable)
    }

    /// Writes the pull-up register (a set bit enables the pin's pull-up).
    pub fn set_port_pullups(&mut self, mask: u8) -> (r: Result<(), Error<ErrorKind>>)
        ensures
            final(self).trace() == old(self).trace().push(write_txn(old(self).address(), Reg::Gppu, mask, outcome_of(r))),
            final(self).same_state(old(self)),
            r matches Err(e) ==> e is Spi,
    {
        self.write_reg(Reg::Gppu, mask)
    }

    /// Sets one pin's input polarity.
    pub fn set_pin_polarity(&mut self, pin: Pin, pol: Polarity) -> (r: Result<(), Error<ErrorKind>>)
        ensures
            final(self).extends(old(self)),
            rmw_record(final(self).issued_since(old(self)), old(self).address(), Reg::Ipol, pin.mask(), pol is Inverted, r),
            final(self).same_state(old(self)),
            r matches Err(e) ==> e is Spi,
    {
        let inverted = match pol {
            Polarity::Normal => false,
            Polarity::Inverted => true,
        };
        self.update_reg(Reg::Ipol, pin.bit(), inverted)
    }

    /// Reads the port's input levels.
    pub fn read_port(&mut self) -> (r: Result<u8, Error<ErrorKind>>)
        ensures
            final(self).trace() == old(self).trace().push(read_txn(old(self).address(), Reg::Gpio, outcome_of(r))),
            final(self).same_state(old(self)),
            r matches Err(e) ==> e is Spi,
    {
        self.read_reg(Reg::Gpio)
    }

    /// Reads one pin's input level.
    pub fn read_pin(&mut self, pin: Pin) -> (r: Result<bool, Error<ErrorKind>>)
        ensures
            exists|o: Result<u8, ErrorKind>|
                final(self).trace() == old(self).trace().push(read_txn(old(self).address(), Reg::Gpio, o))
                    && r == level_of(o, pin),
            final(self).same_state(old(self)),
            r matches Err(e) ==> e is Spi,
    {
        let port = self.read_port();
        let r = match port {
            Ok(v) => Ok(v & pin.bit() != 0),
            Err(e) => Err(e),
        };
        assert(r == level_of(outcome_of(port), pin));
        r
    }

    /// Writes the whole port; the output shadow takes `value`.
    pub fn write_port(&mut self, value: u8) -> (r: Result<(), Error<ErrorKind>>)
        ensures
            final(self).trace() == old(self).trace().push(write_txn(old(self).address(), Reg::Gpio, value, outcome_of(r))),
            final(self).address() == old(self).address(),
            final(self).direction() == old(self).direction(),
            final(self).output() == if r is Ok { value } else { old(self).output() },
            r matches Err(e) ==> e is Spi,
    {
        let r = self.write_reg(Reg::Gpio, value);
        if r.is_ok() {
            self.olat = value;
        }
        r
    }

    /// Drives one pin high or low: the output shadow with the pin's bit changed
    /// is written to the port.
    pub fn write_pin(&mut self, pin: Pin, high: bool) -> (r: Result<(), Error<ErrorKind>>)
        ensures
            final(self).trace() == old(self).trace().push(
                write_txn(old(self).address(), Reg::Gpio, with_bits(old(self).output(), pin.mask(), high), outcome_of(r)),
            ),
            final(self).address() == old(self).address(),
            final(self).direction() == old(self).direction(),
            final(self).output() == if r is Ok {
                with_bits(old(self).output(), pin.mask(), high)
            } else {
                old(self).output()
            },
            r matches Err(e) ==> e is Spi,
    {
        let olat = update_bits(self.olat, pin.bit(), high);
        let r = self.write_reg(Reg::Gpio, olat);
        if r.is_ok() {
            self.olat = olat;
        }
        r
    }

    /// Writes the output latch directly; the output shadow takes `value`.
    pub fn write_olat(&mut self, value: u8) -> (r: Result<(), Error<ErrorKind>>)
        ensures
            final(self).trace() == old(self).trace().push(write_txn(old(self).address(), Reg::Olat, value, outcome_of(r))),
            final(self).address() == old(self).address(),
            final(self).direction() == old(self).direction(),
            final(self).output() == if r is Ok { value } else { old(self).output() },
            r matches Err(e) ==> e is Spi,
    {
        let r = self.write_reg(Reg::Olat, value);
        if r.is_ok() {
            self.olat = value;
        }
        r
    }

    /// Enables or disables one pin's interrupt-on-change.
    pub fn set_pin_interrupt_enable(&mut self, pin: Pin, enable: bool) -> (r: Result<(), Error<ErrorKind>>)
        ensures
            final(self).extends(old(self)),
            rmw_record(final(self).issued_since(old(self)), old(self).address(), Reg::Gpinten, pin.mask(), enable, r),
            final(self).same_state(old(self)),
            r matches Err(e) ==> e is Spi,
    {
        self.update_reg(Reg::Gpinten, pin.bit(), enable)
    }

    /// Writes the interrupt-enable register.
    pub fn set_port_interrupt_enable(&mut self, mask: u8) -> (r: Result<(), Error<ErrorKind>>)
        ensures
            final(self).trace() == old(self).trace().push(write_txn(old(self).address(), Reg::Gpinten, mask, outcome_of(r))),
            final(self).same_state(old(self)),
            r matches Err(e) ==> e is Spi,
    {
        self.write_reg(Reg::Gpinten, mask)
    }

    /// Chooses what raises one pin's interrupt.
    pub fn set_pin_interrupt_mode(&mut self, pin: Pin, mode: InterruptMode) -> (r: Result<(), Error<ErrorKind>>)
        ensures
            final(self).extends(old(self)),
            rmw_record(
                final(self).issued_since(old(self)),
                old(self).address(),
                Reg::Intcon,
                pin.mask(),
                mode is CompareToDefault,
                r,
            ),
            final(self).same_state(old(self)),
            r matches Err(e) ==> e is Spi,
    {
        let compare = match mode {
            InterruptMode::OnChange => false,
            InterruptMode::CompareToDefault => true,
        };
        self.update_reg(Reg::Intcon, pin.bit(), compare)
    }

    /// Writes the interrupt-control register (a set bit compares to the default).
    pub fn set_port_interrupt_mode(&mut self, mask: u8) -> (r: Result<(), Error<ErrorKind>>)
        ensures
            final(self).trace() == old(self).trace().push(write_txn(old(self).address(), Reg::Intcon, mask, outcome_of(r))),
            final(self).same_state(old(self)),
            r matches Err(e) ==> e is Spi,
    {
        self.write_reg(Reg::Intcon, mask)
    }

    /// Writes the default-compare register.
    pub fn set_port_default_compare(&mut self, defval: u8) -> (r: Result<(), Error<ErrorKind>>)
        ensures
            final(self).trace() == old(self).trace().push(write_txn(old(self).address(), Reg::Defval, defval, outcome_of(r))),
            final(self).same_state(old(self)),
            r matches Err(e) ==> e is Spi,
    {
        self.write_reg(Reg::Defval, defval)
    }

    /// Reads the interrupt-flag register.
    pub fn read_interrupt_flags(&mut self) -> (r: Result<u8, Error<ErrorKind>>)
        ensures
            final(self).trace() == old(self).trace().push(read_txn(old(self).address(), Reg::Intf, outcome_of(r))),
            final(self).same_state(old(self)),
            r matches Err(e) ==> e is Spi,
    {
        self.read_reg(Reg::Intf)
    }

    /// Reads the interrupt-capture register.
    pub fn read_interrupt_capture(&mut self) -> (r: Result<u8, Error<ErrorKind>>)
        ensures
            final(self).trace() == old(self).trace().push(read_txn(old(self).address(), Reg::Intcap, outcome_of(r))),
            final(self).same_state(old(self)),
            r matches Err(e) ==> e is Spi,
    {
        self.read_reg(Reg::Intcap)
    }

    /// Reads the port, which clears a pending interrupt on the chip.
    pub fn clear_interrupts(&mut self) -> (r: Result<u8, Error<ErrorKind>>)
        ensures
            final(self).trace() == old(self).trace().push(read_txn(old(self).address(), Reg::Gpio, outcome_of(r))),
            final(self).same_state(old(self)),
            r matches Err(e) ==> e is Spi,
    {
        self.read_reg(Reg::Gpio)
    }

    /// Makes the interrupt output open-drain or push-pull.
    pub fn set_int_open_drain(&mut self, enable: bool) -> (r: Result<(), Error<ErrorKind>>)
        ensures
            final(self).extends(old(self)),
            rmw_record(final(self).issued_since(old(self)), old(self).address(), Reg::Iocon, IOCON_ODR, enable, r),
            final(self).same_state(old(self)),
            r matches Err(e) ==> e is Spi,
    {
        self.update_reg(Reg::Iocon, IOCON_ODR, enable)
    }

    /// Makes the interrupt output active-high or active-low.
    pub fn set_int_polarity(&mut self, active_high: bool) -> (r: Result<(), Error<ErrorKind>>)
        ensures
            final(self).extends(old(self)),
            rmw_record(final(self).issued_since(old(self)), old(self).address(), Reg::Iocon, IOCON_INTPOL, active_high, r),
            final(self).same_state(old(self)),
            r matches Err(e) ==> e is Spi,
    {
        self.update_reg(Reg::Iocon, IOCON_INTPOL, active_high)
    }

    /// A view of one pin, borrowing the handle for as long as it lives.
    pub fn pin<'a>(&'a mut self, pin: Pin) -> (r: GpioPin<'a, SPI>)
        ensures
            r.device() == *old(self),
            r.pin_id() == pin,
    {
        GpioPin { dev: self, pin }
    }

    /// Gives the transport back, without any transaction.
    pub fn into_inner(self) -> (r: SPI)
        ensures
            r == self.transport(),
    {
        self.spi
    }
}

/// One pin of a device handle, as a digital input and stateful output.
pub struct GpioPin<'a, SPI> {
    dev: &'a mut Mcp23s08<SPI>,
    pin: Pin,
}

impl<'a, SPI> GpioPin<'a, SPI> {
    /// The borrowed handle.
    pub closed spec fn device(&self) -> Mcp23s08<SPI> {
        *self.dev
    }

    pub closed spec fn pin_id(&self) -> Pin {
        self.pin
    }
}

impl<'a, SPI: SpiDevice> GpioPin<'a, SPI> {
    /// Reads the pin's input level.
    pub fn is_high(&mut self) -> (r: Result<bool, Error<ErrorKind>>)
        ensures
            final(self).pin_id() == old(self).pin_id(),
            exists|o: Result<u8, ErrorKind>|
                final(self).device().trace() == old(self).device().trace().push(
                    read_txn(old(self).device().address(), Reg::Gpio, o),
                ) && r == level_of(o, old(self).pin_id()),
            final(self).device().same_state(&old(self).device()),
            r matches Err(e) ==> e is Spi,
    {
        self.dev.read_pin(self.pin)
    }

    /// Reads the pin's input level, negated.
    pub fn is_low(&mut self) -> (r: Result<bool, Error<ErrorKind>>)
        ensures
            final(self).pin_id() == old(self).pin_id(),
            exists|o: Result<u8, ErrorKind>|
                final(self).device().trace() == old(self).device().trace().push(
                    read_txn(old(self).device().address(), Reg::Gpio, o),
                ) && r == match level_of(o, old(self).pin_id()) {
                    Ok(b) => Ok(!b),
                    Err(e) => Err(e),
                },
            final(self).device().same_state(&old(self).device()),
            r matches Err(e) ==> e is Spi,
    {
        match self.is_high() {
            Ok(b) => Ok(!b),
            Err(e) => Err(e),
        }
    }

    /// Drives the pin high.
    pub fn set_high(&mut self) -> (r: Result<(), Error<ErrorKind>>)
        ensures
            final(self).pin_id() == old(self).pin_id(),
            final(self).device().trace() == old(self).device().trace().push(
                write_txn(
                    old(self).device().address(),
                    Reg::Gpio,
                    with_bits(old(self).device().output(), old(self).pin_id().mask(), true),
                    outcome_of(r),
                ),
            ),
            final(self).device().address() == old(self).device().address(),
            final(self).device().direction() == old(self).device().direction(),
            final(self).device().output() == if r is Ok {
                with_bits(old(self).device().output(), old(self).pin_id().mask(), true)
            } else {
                old(self).device().output()
            },
            r matches Err(e) ==> e is Spi,
    {
        self.dev.write_pin(self.pin, true)
    }

    /// Drives the pin low.
    pub fn set_low(&mut self) -> (r: Result<(), Error<ErrorKind>>)
        ensures
            final(self).pin_id() == old(self).pin_id(),
            final(self).device().trace() == old(self).device().trace().push(
                write_txn(
                    old(self).device().address(),
                    Reg::Gpio,
                    with_bits(old(self).device().output(), old(self).pin_id().mask(), false),
                    outcome_of(r),
                ),
            ),
            final(self).device().address() == old(self).device().address(),
            final(self).device().direction() == old(self).device().direction(),
            final(self).device().output() == if r is Ok {
                with_bits(old(self).device().output(), old(self).pin_id().mask(), false)
            } else {
                old(self).device().output()
            },
            r matches Err(e) ==> e is Spi,
    {
        self.dev.write_pin(self.pin, false)
    }

    /// Whether the pin was last commanded high, from the output shadow alone.
    pub fn is_set_high(&mut self) -> (r: Result<bool, Error<ErrorKind>>)
        ensures
            *final(self) == *old(self),
            r == Ok::<bool, Error<ErrorKind>>(old(self).device().output() & old(self).pin_id().mask() != 0),
    {
        Ok(self.dev.olat & self.pin.bit() != 0)
    }

    /// Whether the pin was last commanded low, from the output shadow alone.
    pub fn is_set_low(&mut self) -> (r: Result<bool, Error<ErrorKind>>)
        ensures
            *final(self) == *old(self),
            r == Ok::<bool, Error<ErrorKind>>(old(self).device().output() & old(self).pin_id().mask() == 0),
    {
        Ok(self.dev.olat & self.pin.bit() == 0)
    }

    /// Reads the pin's input level and drives the pin to the opposite level.
    pub fn toggle(&mut self) -> (r: Result<(), Error<ErrorKind>>)
        ensures
            final(self).pin_id() == old(self).pin_id(),
            final(self).device().address() == old(self).device().address(),
            final(self).device().direction() == old(self).device().direction(),
            final(self).device().extends(&old(self).device()),
            toggle_record(
                final(self).device().issued_since(&old(self).device()),
                old(self).device().address(),
                old(self).device().output(),
                old(self).pin_id().mask(),
                r,
            ),
            final(self).device().output() == if r is Ok {
                final(self).device().trace().last()->Write_value
            } else {
                old(self).device().output()
            },
            r matches Err(e) ==> e is Spi,
    {
        let ghost t0 = self.dev.trace@;
        let current = match self.dev.read_pin(self.pin) {
            Ok(b) => b,
            Err(e) => {
                assert(self.dev.trace@.skip(t0.len() as int) =~= seq![read_txn(self.dev.hw_addr, Reg::Gpio, Err(fault_of(Err::<bool, Error<ErrorKind>>(e))))]);
                return Err(e);
            },
        };
        let ghost v = self.dev.trace@.last()->Read_outcome->Ok_0;
        let r = self.dev.write_pin(self.pin, !current);
        assert(self.dev.trace@.skip(t0.len() as int) =~= seq![
            read_txn(self.dev.hw_addr, Reg::Gpio, Ok(v)),
            write_txn(
                self.dev.hw_addr,
                Reg::Gpio,
                with_bits(old(self).dev.olat, self.pin.mask(), v & self.pin.mask() == 0),
                outcome_of(r),
            ),
        ]);
        r
    }
}

} // verus!
