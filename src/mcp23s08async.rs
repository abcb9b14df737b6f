//! The decisions of the suspending handle, as a state machine. For each
//! operation the handle asks `PortState::step` what to send, awaits the
//! transport, and hands back what came of it; the shadows change only when a
//! write is reported done, so an operation cancelled while suspended leaves
//! them as they were.
use vstd::prelude::*;
use crate::codec::{Reg, read_bytes, read_command, update_bits, with_bits, write_bytes, write_frame};
pub use crate::mcp23s08::{Error, InterruptMode, Pin, Polarity};
use crate::mcp23s08::lemma_pin_update;

verus! {

/// A logical operation of the suspending handle.
#[derive(Clone, Copy, Debug, PartialEq, Eq, Structural)]
pub enum Command {
    /// Write 0x00 into the configuration register.
    ResetConfig,
    /// Read the direction register into its shadow.
    LoadDirection,
    /// Read the output latch into its shadow.
    LoadOutput,
    PinDirection(Pin, bool),
    PortDirection(u8),
    PinPullup(Pin, bool),
    PortPullups(u8),
    PinPolarity(Pin, Polarity),
    ReadPort,
    WritePort(u8),
    WritePin(Pin, bool),
    WriteOlat(u8),
    PinInterruptEnable(Pin, bool),
    PortInterruptEnable(u8),
    PinInterruptMode(Pin, InterruptMode),
}

/// How far an operation has come.
pub enum Progress {
    /// Nothing sent yet.
    Start,
    /// The read succeeded with this byte.
    Replied(u8),
    /// The write succeeded.
    Written,
}

/// What the handle does next.
pub enum Action {
    /// Send this write frame as one transaction.
    Write([u8; 3]),
    /// Send this command and receive one byte, as one transaction.
    Read([u8; 2]),
    /// The operation is over, with the byte read, if it returns one.
    Finish(Option<u8>),
}

impl Command {
    /// The register the operation touches.
    pub open spec fn spec_reg(self) -> Reg {
        match self {
            Command::ResetConfig => Reg::Iocon,
            Command::LoadDirection | Command::PinDirection(..) | Command::PortDirection(..) => Reg::Iodir,
            Command::LoadOutput | Command::WriteOlat(..) => Reg::Olat,
            Command::PinPullup(..) | Command::PortPullups(..) => Reg::Gppu,
            Command::PinPolarity(..) => Reg::Ipol,
            Command::ReadPort | Command::WritePort(..) | Command::WritePin(..) => Reg::Gpio,
            Command::PinInterruptEnable(..) | Command::PortInterruptEnable(..) => Reg::Gpinten,
            Command::PinInterruptMode(..) => Reg::Intcon,
        }
    }

    /// A plain read: its reply is the result.
    pub open spec fn is_read(self) -> bool {
        self is LoadDirection || self is LoadOutput || self is ReadPort
    }

    /// A read-modify-write of one bit.
    pub open spec fn is_rmw(self) -> bool {
        self is PinPullup || self is PinPolarity || self is PinInterruptEnable || self is PinInterruptMode
    }

    /// The bit a read-modify-write updates, and whether it sets it.
    pub open spec fn rmw_bit(self) -> (u8, bool) {
        match self {
            Command::PinPullup(p, enable) => (p.mask(), enable),
            Command::PinPolarity(p, pol) => (p.mask(), pol is Inverted),
            Command::PinInterruptEnable(p, enable) => (p.mask(), enable),
            Command::PinInterruptMode(p, mode) => (p.mask(), mode is CompareToDefault),
            _ => (0, false),
        }
    }

    /// The byte a plain write sends, given the direction and output shadows.
    pub open spec fn write_value(self, iodir: u8, olat: u8) -> u8 {
        match self {
            Command::PinDirection(p, input) => with_bits(iodir, p.mask(), input),
            Command::PortDirection(m) => m,
            Command::PortPullups(m) => m,
            Command::WritePort(v) => v,
            Command::WritePin(p, high) => with_bits(olat, p.mask(), high),
            Command::WriteOlat(v) => v,
            Command::PortInterruptEnable(m) => m,
            _ => 0,
        }
    }

    /// The direction shadow once the operation's write succeeded.
    pub open spec fn direction_after(self, iodir: u8) -> u8 {
        match self {
            Command::PinDirection(p, input) => with_bits(iodir, p.mask(), input),
            Command::PortDirection(m) => m,
            _ => iodir,
        }
    }

    /// The output shadow once the operation's write succeeded.
    pub open spec fn output_after(self, olat: u8) -> u8 {
        match self {
            Command::WritePort(v) => v,
            Command::WritePin(p, high) => with_bits(olat, p.mask(), high),
            Command::WriteOlat(v) => v,
            _ => olat,
        }
    }

    fn reg(self) -> (r: Reg)
        ensures
            r == self.spec_reg(),
    {
        match self {
            Command::ResetConfig => Reg::Iocon,
            Command::LoadDirection | Command::PinDirection(..) | Command::PortDirection(..) => Reg::Iodir,
            Command::LoadOutput | Command::WriteOlat(..) => Reg::Olat,
            Command::PinPullup(..) | Command::PortPullups(..) => Reg::Gppu,
            Command::PinPolarity(..) => Reg::Ipol,
            Command::ReadPort | Command::WritePort(..) | Command::WritePin(..) => Reg::Gpio,
            Command::PinInterruptEnable(..) | Command::PortInterruptEnable(..) => Reg::Gpinten,
            Command::PinInterruptMode(..) => Reg::Intcon,
        }
    }
}

/// Setting a pin's direction goes as on the blocking handle: the write carries
/// the direction shadow with that pin's bit, and only that bit, made `input`;
/// once the write is confirmed, that byte is the new direction shadow and the
/// output shadow is unchanged.
pub proof fn lemma_pin_direction_command(iodir: u8, olat: u8, pin: Pin, input: bool)
    ensures
        Command::PinDirection(pin, input).spec_reg() == Reg::Iodir,
        Command::PinDirection(pin, input).write_value(iodir, olat) == with_bits(iodir, pin.mask(), input),
        Command::PinDirection(pin, input).direction_after(iodir) == with_bits(iodir, pin.mask(), input),
        Command::PinDirection(pin, input).output_after(olat) == olat,
        with_bits(iodir, pin.mask(), input) & !pin.mask() == iodir & !pin.mask(),
        (with_bits(iodir, pin.mask(), input) & pin.mask() != 0) == input,
{
    lemma_pin_update(iodir, pin, input);
}

/// The three operations that bring up a handle, in order: reset the
/// configuration, then load the two shadows.
pub fn setup_commands() -> (r: [Command; 3])
    ensures
        r@ == seq![Command::ResetConfig, Command::LoadDirection, Command::LoadOutput],
{
    let r = [Command::ResetConfig, Command::LoadDirection, Command::LoadOutput];
    assert(r@ =~= seq![Command::ResetConfig, Command::LoadDirection, Command::LoadOutput]);
    r
}

/// The hardware address and the two shadows of a suspending handle.
pub struct PortState {
    hw_addr: u8,
    iodir: u8,
    olat: u8,
}

impl PortState {
    pub closed spec fn address(&self) -> u8 {
        self.hw_addr
    }

    /// The direction shadow (a set bit is an input).
    pub closed spec fn direction(&self) -> u8 {
        self.iodir
    }

    /// The output-latch shadow.
    pub closed spec fn output(&self) -> u8 {
        self.olat
    }

    pub open spec fn wf(&self) -> bool {
        self.address() <= 3
    }

    /// The state before setup: every pin an input, every output low.
    pub fn new<E>(hw_addr: u8) -> (r: Result<PortState, Error<E>>)
        ensures
            r is Err <==> hw_addr > 3,
            r matches Err(e) ==> e is BadAddress,
            r matches Ok(s) ==> s.wf() && s.address() == hw_addr && s.direction() == 0xFF && s.output() == 0x00,
    {
        if hw_addr > 3 {
            return Err(Error::BadAddress);
        }
        Ok(PortState { hw_addr, iodir: 0xFF, olat: 0x00 })
    }

    /// Whether the pin was last commanded high, from the output shadow.
    pub fn is_set_high(&self, pin: Pin) -> (r: bool)
        ensures
            r == (self.output() & pin.mask() != 0),
    {
        self.olat & pin.bit() != 0
    }

    /// Whether the pin's bit is set in a byte read from the port.
    pub fn level(port: u8, pin: Pin) -> (r: bool)
        ensures
            r == (port & pin.mask() != 0),
    {
        port & pin.bit() != 0
    }

    /// The next action of `cmd`, which has come as far as `at`.
    pub fn step(&mut self, cmd: Command, at: Progress) -> (r: Action)
        ensures
            final(self).address() == old(self).address(),
            match at {
                Progress::Start => {
                    &&& final(self).direction() == old(self).direction()
                    &&& final(self).output() == old(self).output()
                    &&& if cmd.is_read() || cmd.is_rmw() {
                        r is Read && r->Read_0@ == read_bytes(old(self).address(), cmd.spec_reg())
                    } else {
                        r is Write && r->Write_0@ == write_bytes(
                            old(self).address(),
                            cmd.spec_reg(),
                            cmd.write_value(old(self).direction(), old(self).output()),
                        )
                    }
                },
                Progress::Replied(v) => {
                    &&& final(self).direction() == if cmd is LoadDirection { v } else { old(self).direction() }
                    &&& final(self).output() == if cmd is LoadOutput { v } else { old(self).output() }
                    &&& if cmd.is_rmw() {
                        r is Write && r->Write_0@ == write_bytes(
                            old(self).address(),
                            cmd.spec_reg(),
                            with_bits(v, cmd.rmw_bit().0, cmd.rmw_bit().1),
                        )
                    } else if cmd.is_read() {
                        r == Action::Finish(Some(v))
                    } else {
                        r == Action::Finish(None)
                    }
                },
                Progress::Written => {
                    &&& r == Action::Finish(None)
                    &&& final(self).direction() == cmd.direction_after(old(self).direction())
                    &&& final(self).output() == cmd.output_after(old(self).output())
                },
            },
    {
        let reg = cmd.reg();
        match at {
            Progress::Start => match cmd {
                Command::LoadDirection | Command::LoadOutput | Command::ReadPort | Command::PinPullup(..)
                | Command::PinPolarity(..) | Command::PinInterruptEnable(..)
                | Command::PinInterruptMode(..) => Action::Read(read_command(self.hw_addr, reg)),
                Command::ResetConfig => Action::Write(write_frame(self.hw_addr, reg, 0)),
                Command::PinDirection(p, input) => Action::Write(
                    write_frame(self.hw_addr, reg, update_bits(self.iodir, p.bit(), input)),
                ),
                Command::WritePin(p, high) => Action::Write(
                    write_frame(self.hw_addr, reg, update_bits(self.olat, p.bit(), high)),
                ),
                Command::PortDirection(v) | Command::PortPullups(v) | Command::WritePort(v)
                | Command::WriteOlat(v) | Command::PortInterruptEnable(v) => Action::Write(
                    write_frame(self.hw_addr, reg, v),
                ),
            },
            Progress::Replied(v) => match cmd {
                Command::LoadDirection => {
                    self.iodir = v;
                    Action::Finish(Some(v))
                },
                Command::LoadOutput => {
                    self.olat = v;
                    Action::Finish(Some(v))
                },
                Command::ReadPort => Action::Finish(Some(v)),
                Command::PinPullup(p, enable) | Command::PinInterruptEnable(p, enable) => Action::Write(
                    write_frame(self.hw_addr, reg, update_bits(v, p.bit(), enable)),
                ),
                Command::PinPolarity(p, pol) => {
                    let inverted = match pol {
                        Polarity::Normal => false,
                        Polarity::Inverted => true,
                    };
                    Action::Write(write_frame(self.hw_addr, reg, update_bits(v, p.bit(), inverted)))
                },
                Command::PinInterruptMode(p, mode) => {
                    let compare = match mode {
                        InterruptMode::OnChange => false,
                        InterruptMode::CompareToDefault => true,
                    };
                    Action::Write(write_frame(self.hw_addr, reg, update_bits(v, p.bit(), compare)))
                },
                _ => Action::Finish(None),
            },
            Progress::Written => {
                match cmd {
                    Command::PinDirection(p, input) => {
                        self.iodir = update_bits(self.iodir, p.bit(), input);
                    },
                    Command::PortDirection(m) => {
                        self.iodir = m;
                    },
                    Command::WritePort(v) | Command::WriteOlat(v) => {
                        self.olat = v;
                    },
                    Command::WritePin(p, high) => {
                        self.olat = update_bits(self.olat, p.bit(), high);
                    },
                    _ => {},
                }
                Action::Finish(None)
            },
        }
    }
}

} // verus!
