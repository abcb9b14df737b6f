//! Driver for the MCP23S08 8-bit I/O expander on an SPI bus.
//!
//! `codec` holds the register map and the command framing; `mcp23s08` the
//! blocking device handle with its shadow state and per-pin view; and
//! `mcp23s08async` the decisions of the suspending handle, as a state machine
//! that the caller drives around its awaits.

pub mod codec;
pub mod mcp23s08;
pub mod mcp23s08async;
