//! Register addresses and bit masks of the USART0 peripheral.

use vstd::prelude::*;

verus! {

/// Address of the control and status register A (flags).
pub const UCSR0A: usize = 0xC0;

/// Address of the control and status register B (enables, extended size bit).
pub const UCSR0B: usize = 0xC1;

/// Address of the control and status register C (frame format).
pub const UCSR0C: usize = 0xC2;

/// Address of the low byte of the 16-bit baud-rate register.
pub const UBRR0: usize = 0xC4;

/// Address of the data register.
pub const UDR0: usize = 0xC6;

/// UCSR0A: receive complete.
pub const RXC0: u8 = 0x80;

/// UCSR0A: transmit complete.
pub const TXC0: u8 = 0x40;

/// UCSR0A: data register empty.
pub const UDRE0: u8 = 0x20;

/// UCSR0B: receiver enable.
pub const RXEN0: u8 = 0x10;

/// UCSR0B: transmitter enable.
pub const TXEN0: u8 = 0x08;

/// UCSR0B: extended character-size bit.
pub const UCSZ02: u8 = 0x04;

/// UCSR0C: mode select, high bit.
pub const UMSEL01: u8 = 0x80;

/// UCSR0C: mode select, low bit.
pub const UMSEL00: u8 = 0x40;

/// UCSR0C: parity mode, high bit.
pub const UPM01: u8 = 0x20;

/// UCSR0C: parity mode, low bit.
pub const UPM00: u8 = 0x10;

/// UCSR0C: stop-bit select.
pub const USBS0: u8 = 0x08;

/// UCSR0C: character size, high bit.
pub const UCSZ01: u8 = 0x04;

/// UCSR0C: character size, low bit.
pub const UCSZ00: u8 = 0x02;

} // verus!
