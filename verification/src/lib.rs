//! Verified driver logic for a Waveshare 3.27 inch e-paper display (command
//! sequences, bus framing, a two-bit grey-level frame buffer) and for the
//! start-up sequence of an ILI9325 LCD.
//!
//! The library decides *what* goes over the wire: every driver operation
//! returns a [`interface::Plan`], the ordered list of bus operations
//! (commands, data bytes, resets, delays, busy waits) that the operation
//! performs.  Executing a plan on real pins and an SPI bus is left to the
//! caller.
pub mod command;
pub mod constants;
pub mod interface;
pub mod epd3in27;
pub mod epd_3in27wb;
pub mod graphics;
pub mod lcd;
