//! Driver for the asynchronous serial (USART0) peripheral of an AVR
//! microcontroller, with its register encodings proved correct.

pub mod reg;
pub mod serial;
pub mod spi;
