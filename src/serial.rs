//! The USART0 driver: register encodings, configuration and non-blocking I/O.

use crate::reg::{RXC0, RXEN0, TXEN0, UCSZ00, UCSZ01, UCSZ02, UDRE0, UMSEL00, UMSEL01, UPM00, UPM01, USBS0};
use core::marker::PhantomData;
use vstd::prelude::*;

verus! {

/// Baud-rate divisor for 16x oversampling, rounded to nearest:
/// `(frq / 8 / baud - 1) / 2`, as stored in the 16-bit register.
pub open spec fn ubrr_spec(frq_hz: u64, baud_rate: u64) -> u16 {
    ((((frq_hz / 8 / baud_rate) - 1) / 2) as u16)
}

/// Baud-rate divisor for 8x oversampling (double speed): `frq / 8 / baud - 1`,
/// as stored in the 16-bit register.
pub open spec fn ubrr_double_speed_spec(frq_hz: u64, baud_rate: u64) -> u16 {
    (((frq_hz / 8 / baud_rate) - 1) as u16)
}

/// Divisor for the baud-rate register in the normal (16x oversampling) mode.
pub fn ubrr_with(frq_hz: u64, baud_rate: u64) -> (r: u16)
    requires
        baud_rate > 0,
        frq_hz / 8 / baud_rate >= 1,
    ensures
        r == ubrr_spec(frq_hz, baud_rate),
{
    ((frq_hz / 8 / baud_rate - 1) / 2) as u16
}

/// Divisor for the baud-rate register in the double-speed (8x oversampling) mode.
pub fn ubrr_double_speed_with(frq_hz: u64, baud_rate: u64) -> (r: u16)
    requires
        baud_rate > 0,
        frq_hz / 8 / baud_rate >= 1,
    ensures
        r == ubrr_double_speed_spec(frq_hz, baud_rate),
{
    (frq_hz / 8 / baud_rate - 1) as u16
}

/// Errors of the serial operations other than "would block". The operations
/// of this driver cannot fail otherwise: their contracts show that this value
/// is never returned, so a caller may treat every error as `WouldBlock`.
#[derive(Clone, Copy, Debug, PartialEq, Eq)]
pub enum SerialError {
    /// The transmitter is not ready; carries the same information as `WouldBlock`.
    NotReady,
}

/// The non-blocking error of the `nb` crate: either `WouldBlock` or another error.
#[verifier::external_type_specification]
#[verifier::reject_recursive_types(E)]
pub struct ExNbError<E>(nb::Error<E>);

/// Parity mode of a frame.
#[derive(Clone, Copy, Debug, PartialEq, Eq)]
pub enum Parity {
    Disabled,
    Even,
    Odd,
}

/// The two parity-mode bits of UCSR0C.
pub const PARITY_FIELD: u8 = 0x30;

/// The stop-bit select bit of UCSR0C.
pub const STOP_FIELD: u8 = 0x08;

/// The two character-size bits of UCSR0C.
pub const SIZE_FIELD: u8 = 0x06;

/// The two mode-select bits of UCSR0C.
pub const MODE_FIELD: u8 = 0xC0;

impl Parity {
    /// Encoding of the mode in the parity field. The reserved pattern
    /// (`UPM00` alone) is never produced.
    pub open spec fn spec_bits(self) -> u8 {
        match self {
            Parity::Disabled => 0,
            Parity::Even => UPM01,
            Parity::Odd => UPM01 | UPM00,
        }
    }

    /// Bits of the parity field for this mode.
    pub fn bits(&self) -> (r: u8)
        ensures
            r == self.spec_bits(),
    {
        match *self {
            Parity::Disabled => 0,
            Parity::Even => UPM01,
            Parity::Odd => UPM01 | UPM00,
        }
    }

    /// Mask that clears the parity field.
    pub fn mask() -> (r: u8)
        ensures
            r == !PARITY_FIELD,
    {
        proof {
            assert(!(UPM01 | UPM00) == !PARITY_FIELD) by (bit_vector);
        }
        !(UPM01 | UPM00)
    }
}

/// Number of stop bits of a frame.
#[derive(Clone, Copy, Debug, PartialEq, Eq)]
pub enum StopBits {
    OneBit,
    TwoBits,
}

impl StopBits {
    /// Encoding of the count in the stop-bit field.
    pub open spec fn spec_bits(self) -> u8 {
        match self {
            StopBits::OneBit => 0,
            StopBits::TwoBits => USBS0,
        }
    }

    /// Bit of the stop-bit field for this count.
    pub fn bits(&self) -> (r: u8)
        ensures
            r == self.spec_bits(),
    {
        match *self {
            StopBits::OneBit => 0,
            StopBits::TwoBits => USBS0,
        }
    }

    /// Mask that clears the stop-bit field.
    pub fn mask() -> (r: u8)
        ensures
            r == !STOP_FIELD,
    {
        !USBS0
    }
}


/// Encoding of a character width of `w` data bits: the bit for UCSR0B (the
/// extended size bit) and the bits for the size field of UCSR0C.
pub open spec fn char_size_bits(w: nat) -> (u8, u8) {
    if w == 5 {
        (0, 0)
    } else if w == 6 {
        (0, UCSZ00)
    } else if w == 7 {
        (0, UCSZ01)
    } else {
        (0, UCSZ01 | UCSZ00)
    }
}

/// Mask that keeps the low `w` bits of a byte.
pub open spec fn word_mask(w: nat) -> u8 {
    if w == 5 {
        0x1F
    } else if w == 6 {
        0x3F
    } else if w == 7 {
        0x7F
    } else {
        0xFF
    }
}

/// A word type of the serial line: its width selects the character size.
pub trait CharSizeFlag: Sized {
    /// Number of data bits in a frame that carries one word.
    spec fn data_bits() -> nat;

    /// Numeric value of a word.
    spec fn word_value(self) -> nat;

    /// Encoding of the width, for UCSR0B and UCSR0C.
    fn bits() -> (r: (u8, u8))
        ensures
            5 <= Self::data_bits() <= 8,
            r == char_size_bits(Self::data_bits()),
    ;

    /// The byte that carries the word.
    fn to_byte(self) -> (r: u8)
        ensures
            r as nat == self.word_value(),
    ;

    /// The word carried by a received byte: its low `data_bits` bits.
    fn from_byte(b: u8) -> (r: Self)
        ensures
            r.word_value() == (b & word_mask(Self::data_bits())) as nat,
    ;
}

impl CharSizeFlag for u8 {
    open spec fn data_bits() -> nat {
        8
    }

    open spec fn word_value(self) -> nat {
        self as nat
    }

    fn bits() -> (r: (u8, u8)) {
        (0, UCSZ01 | UCSZ00)
    }

    fn to_byte(self) -> (r: u8) {
        self
    }

    fn from_byte(b: u8) -> (r: u8) {
        assert(b & 0xFF == b) by (bit_vector);
        b
    }
}

/// A 5-bit word.
#[derive(Clone, Copy, Debug, PartialEq, Eq)]
pub struct U5 {
    value: u8,
}

/// A 6-bit word.
#[derive(Clone, Copy, Debug, PartialEq, Eq)]
pub struct U6 {
    value: u8,
}

/// A 7-bit word.
#[derive(Clone, Copy, Debug, PartialEq, Eq)]
pub struct U7 {
    value: u8,
}

impl U5 {
    pub closed spec fn view(self) -> u8 {
        self.value
    }

    #[verifier::type_invariant]
    spec fn inv(self) -> bool {
        self.value < 32
    }

    /// The word of value `v`.
    pub fn new(v: u8) -> (r: U5)
        requires
            v < 32,
        ensures
            r@ == v,
    {
        U5 { value: v }
    }

    /// The value of the word, below 32.
    pub fn value(&self) -> (r: u8)
        ensures
            r == self@,
            r < 32,
    {
        proof {
            use_type_invariant(self);
        }
        self.value
    }
}

impl U6 {
    pub closed spec fn view(self) -> u8 {
        self.value
    }

    #[verifier::type_invariant]
    spec fn inv(self) -> bool {
        self.value < 64
    }

    /// The word of value `v`.
    pub fn new(v: u8) -> (r: U6)
        requires
            v < 64,
        ensures
            r@ == v,
    {
        U6 { value: v }
    }

    /// The value of the word, below 64.
    pub fn value(&self) -> (r: u8)
        ensures
            r == self@,
            r < 64,
    {
        proof {
            use_type_invariant(self);
        }
        self.value
    }
}

impl U7 {
    pub closed spec fn view(self) -> u8 {
        self.value
    }

    #[verifier::type_invariant]
    spec fn inv(self) -> bool {
        self.value < 128
    }

    /// The word of value `v`.
    pub fn new(v: u8) -> (r: U7)
        requires
            v < 128,
        ensures
            r@ == v,
    {
        U7 { value: v }
    }

    /// The value of the word, below 128.
    pub fn value(&self) -> (r: u8)
        ensures
            r == self@,
            r < 128,
    {
        proof {
            use_type_invariant(self);
        }
        self.value
    }
}

impl CharSizeFlag for U5 {
    open spec fn data_bits() -> nat {
        5
    }

    open spec fn word_value(self) -> nat {
        self@ as nat
    }

    fn bits() -> (r: (u8, u8)) {
        (0, 0)
    }

    fn to_byte(self) -> (r: u8) {
        self.value()
    }

    fn from_byte(b: u8) -> (r: U5) {
        assert(b & 0x1F < 32) by (bit_vector);
        U5::new(b & 0x1F)
    }
}

impl CharSizeFlag for U6 {
    open spec fn data_bits() -> nat {
        6
    }

    open spec fn word_value(self) -> nat {
        self@ as nat
    }

    fn bits() -> (r: (u8, u8)) {
        (0, UCSZ00)
    }

    fn to_byte(self) -> (r: u8) {
        self.value()
    }

    fn from_byte(b: u8) -> (r: U6) {
        assert(b & 0x3F < 64) by (bit_vector);
        U6::new(b & 0x3F)
    }
}

impl CharSizeFlag for U7 {
    open spec fn data_bits() -> nat {
        7
    }

    open spec fn word_value(self) -> nat {
        self@ as nat
    }

    fn bits() -> (r: (u8, u8)) {
        (0, UCSZ01)
    }

    fn to_byte(self) -> (r: u8) {
        self.value()
    }

    fn from_byte(b: u8) -> (r: U7) {
        assert(b & 0x7F < 128) by (bit_vector);
        U7::new(b & 0x7F)
    }
}


/// Contents of the USART0 register block.
#[derive(Clone, Copy, Debug, PartialEq, Eq)]
pub struct Registers {
    /// Baud-rate register.
    pub ubrr: u16,
    /// UCSR0A: status flags.
    pub ucsr_a: u8,
    /// UCSR0B: receiver/transmitter enables and the extended size bit.
    pub ucsr_b: u8,
    /// UCSR0C: mode, parity, stop bits and character size.
    pub ucsr_c: u8,
    /// UDR0: the data register.
    pub udr: u8,
}

/// UCSR0B after configuring a width of `w` bits: the extended size bit, with
/// receiver and transmitter always enabled.
pub open spec fn mode_register(w: nat) -> u8 {
    char_size_bits(w).0 | RXEN0 | TXEN0
}

/// UCSR0C after configuring: asynchronous mode (mode field zero), with the
/// size, parity and stop-bit fields of the choices made.
pub open spec fn framing_register(w: nat, parity: Parity, stop: StopBits) -> u8 {
    char_size_bits(w).1 | parity.spec_bits() | stop.spec_bits()
}

/// The register block after configuring, from `regs`: the divisor, cleared
/// flags, both enable registers; the data register is left alone.
pub open spec fn configured(regs: Registers, ubrr: u16, w: nat, parity: Parity, stop: StopBits) -> Registers {
    Registers {
        ubrr: ubrr,
        ucsr_a: 0,
        ucsr_b: mode_register(w),
        ucsr_c: framing_register(w, parity, stop),
        udr: regs.udr,
    }
}

/// Is the data register empty, so that a word can be written?
pub open spec fn spec_ready_to_transmit(status: u8) -> bool {
    status & UDRE0 != 0
}

/// Has a word been received?
pub open spec fn spec_ready_to_receive(status: u8) -> bool {
    status & RXC0 != 0
}

/// Whether the status value `status` of UCSR0A says that the data register
/// is empty.
pub fn ready_to_transmit(status: u8) -> (r: bool)
    ensures
        r == spec_ready_to_transmit(status),
{
    (status & UDRE0) != 0
}

/// Whether the status value `status` of UCSR0A says that a word was received.
pub fn ready_to_receive(status: u8) -> (r: bool)
    ensures
        r == spec_ready_to_receive(status),
{
    (status & RXC0) != 0
}

/// Clears the bits outside `keep` in `reg`, then sets `bits`.
pub open spec fn set_field(reg: u8, keep: u8, bits: u8) -> u8 {
    (reg & keep) | bits
}

proof fn lemma_framing(cc: u8, p: u8, s: u8)
    by (bit_vector)
    requires
        cc & !SIZE_FIELD == 0,
        p & !PARITY_FIELD == 0,
        s & !STOP_FIELD == 0,
    ensures
        set_field(set_field(set_field(0u8, !SIZE_FIELD, cc) & !MODE_FIELD, !PARITY_FIELD, p),
            !STOP_FIELD, s) == cc | p | s,
{
}

/// The serial port, configured for words of type `T`.
pub struct Serial<T> {
    phantom: PhantomData<T>,
}

impl<T: CharSizeFlag> Serial<T> {
    /// Configures the port: divisor `ubrr`, the width of `T`, asynchronous
    /// mode, `parity` and `stop`. The registers are written in the order
    /// baud rate, status, UCSR0B, UCSR0C.
    pub fn new_with(regs: &mut Registers, ubrr: u16, parity: Parity, stop: StopBits) -> (r: Self)
        ensures
            *final(regs) == configured(*old(regs), ubrr, T::data_bits(), parity, stop),
            final(regs).ucsr_b & (RXEN0 | TXEN0) == RXEN0 | TXEN0,
    {
        let mut b: u8 = 0;
        let mut c: u8 = 0;
        let (cb, cc) = T::bits();
        proof {
            assert(cb == 0);
            assert(cc & !SIZE_FIELD == 0) by (bit_vector)
                requires
                    cc == 0u8 || cc == UCSZ00 || cc == UCSZ01 || cc == UCSZ01 | UCSZ00,
            ;
            let pb = parity.spec_bits();
            let sb = stop.spec_bits();
            assert(pb & !PARITY_FIELD == 0) by (bit_vector)
                requires
                    pb == 0u8 || pb == UPM01 || pb == UPM01 | UPM00,
            ;
            assert(sb & !STOP_FIELD == 0) by (bit_vector)
                requires
                    sb == 0u8 || sb == USBS0,
            ;
            lemma_framing(cc, parity.spec_bits(), stop.spec_bits());
            assert((0u8 & !UCSZ02) | 0u8 == 0u8) by (bit_vector);
            assert(!(UCSZ01 | UCSZ00) == !SIZE_FIELD) by (bit_vector);
            assert(!(UMSEL01 | UMSEL00) == !MODE_FIELD) by (bit_vector);
            assert((0u8 | RXEN0 | TXEN0) & (RXEN0 | TXEN0) == RXEN0 | TXEN0) by (bit_vector);
        }

        // character size: the extended bit in UCSR0B, the rest in UCSR0C
        b = (b & !UCSZ02) | cb;
        c = (c & !(UCSZ01 | UCSZ00)) | cc;

        // asynchronous mode
        c = c & !(UMSEL01 | UMSEL00);

        // parity
        c = (c & Parity::mask()) | parity.bits();

        // stop bits
        c = (c & StopBits::mask()) | stop.bits();

        regs.ubrr = ubrr;
        regs.ucsr_a = 0;
        regs.ucsr_b = b | RXEN0 | TXEN0;
        regs.ucsr_c = c;

        Serial { phantom: PhantomData }
    }

    /// Configures the port for `baud` from a 16 MHz clock, without parity and
    /// with one stop bit.
    pub fn new(regs: &mut Registers, baud: u64) -> (r: Self)
        requires
            0 < baud <= 2_000_000,
        ensures
            *final(regs) == configured(
                *old(regs),
                ubrr_spec(16_000_000, baud),
                T::data_bits(),
                Parity::Disabled,
                StopBits::OneBit,
            ),
    {
        assert(16_000_000u64 / 8 / baud >= 1) by (nonlinear_arith)
            requires
                0 < baud <= 2_000_000,
        ;
        Serial::<T>::new_with(regs, ubrr_with(16_000_000, baud), Parity::Disabled, StopBits::OneBit)
    }

    /// Writes `word` to the data register if it is empty; otherwise reports
    /// `WouldBlock` and touches no register.
    pub fn write(&mut self, regs: &mut Registers, word: T) -> (r: nb::Result<(), SerialError>)
        ensures
            *final(regs) == written(*old(regs), word.word_value()),
            r == write_result(old(regs).ucsr_a),
    {
        if ready_to_transmit(regs.ucsr_a) {
            regs.udr = word.to_byte();
            Ok(())
        } else {
            Err(nb::Error::WouldBlock)
        }
    }

    /// Nothing is buffered, so there is never anything to wait for.
    pub fn flush(&mut self) -> (r: nb::Result<(), SerialError>)
        ensures
            r is Ok,
    {
        Ok(())
    }

    /// Takes the received word from the data register if one has arrived;
    /// otherwise reports `WouldBlock` and touches no register.
    pub fn read(&mut self, regs: &mut Registers) -> (r: nb::Result<T, SerialError>)
        ensures
            *final(regs) == *old(regs),
            spec_ready_to_receive(old(regs).ucsr_a) ==> (r matches Ok(w) && w.word_value() == (
            old(regs).udr & word_mask(T::data_bits())) as nat),
            !spec_ready_to_receive(old(regs).ucsr_a) ==> r == Err::<T, nb::Error<SerialError>>(
                nb::Error::WouldBlock,
            ),
    {
        if ready_to_receive(regs.ucsr_a) {
            Ok(T::from_byte(regs.udr))
        } else {
            Err(nb::Error::WouldBlock)
        }
    }
}

/// The register block after a write of a word of value `value` from `regs`:
/// the data register holds it when it was empty; otherwise nothing changes.
pub open spec fn written(regs: Registers, value: nat) -> Registers {
    if spec_ready_to_transmit(regs.ucsr_a) {
        Registers { udr: value as u8, ..regs }
    } else {
        regs
    }
}

/// What a write reports, given the status register when it is made.
pub open spec fn write_result(status: u8) -> nb::Result<(), SerialError> {
    if spec_ready_to_transmit(status) {
        Ok(())
    } else {
        Err(nb::Error::WouldBlock)
    }
}


proof fn lemma_field_values(w: nat, parity: Parity, stop: StopBits)
    ensures
        ({
            let cc = char_size_bits(w).1;
            cc == 0u8 || cc == UCSZ00 || cc == UCSZ01 || cc == UCSZ01 | UCSZ00
        }),
        ({
            let pb = parity.spec_bits();
            pb == 0u8 || pb == UPM01 || pb == UPM01 | UPM00
        }),
        stop.spec_bits() == 0u8 || stop.spec_bits() == USBS0,
        char_size_bits(w).0 == 0,
{
}

/// The size field of UCSR0C holds the encoding of the configured width, and
/// changing the width changes no other bit of any register.
pub proof fn lemma_width_field(
    regs: Registers,
    ubrr: u16,
    w: nat,
    w2: nat,
    parity: Parity,
    stop: StopBits,
)
    requires
        5 <= w <= 8,
        5 <= w2 <= 8,
    ensures
        configured(regs, ubrr, w, parity, stop).ucsr_c & SIZE_FIELD == char_size_bits(w).1,
        configured(regs, ubrr, w, parity, stop).ucsr_c & !SIZE_FIELD == configured(
            regs,
            ubrr,
            w2,
            parity,
            stop,
        ).ucsr_c & !SIZE_FIELD,
        configured(regs, ubrr, w, parity, stop).ucsr_b == configured(
            regs,
            ubrr,
            w2,
            parity,
            stop,
        ).ucsr_b,
        configured(regs, ubrr, w, parity, stop).ubrr == configured(regs, ubrr, w2, parity, stop).ubrr,
        configured(regs, ubrr, w, parity, stop).ucsr_a == configured(
            regs,
            ubrr,
            w2,
            parity,
            stop,
        ).ucsr_a,
        configured(regs, ubrr, w, parity, stop).udr == configured(regs, ubrr, w2, parity, stop).udr,
{
    lemma_field_values(w, parity, stop);
    lemma_field_values(w2, parity, stop);
    let cc = char_size_bits(w).1;
    let cc2 = char_size_bits(w2).1;
    let pb = parity.spec_bits();
    let sb = stop.spec_bits();
    assert((cc | pb | sb) & SIZE_FIELD == cc && (cc | pb | sb) & !SIZE_FIELD == (cc2 | pb | sb)
        & !SIZE_FIELD) by (bit_vector)
        requires
            cc == 0u8 || cc == UCSZ00 || cc == UCSZ01 || cc == UCSZ01 | UCSZ00,
            cc2 == 0u8 || cc2 == UCSZ00 || cc2 == UCSZ01 || cc2 == UCSZ01 | UCSZ00,
            pb == 0u8 || pb == UPM01 || pb == UPM01 | UPM00,
            sb == 0u8 || sb == USBS0,
    ;
}

/// Each field of UCSR0C reads back the value chosen for it, whatever the
/// width: parity, stop bits, and asynchronous mode.
pub proof fn lemma_fields_independent(w: nat, parity: Parity, stop: StopBits)
    ensures
        framing_register(w, parity, stop) & PARITY_FIELD == parity.spec_bits(),
        framing_register(w, parity, stop) & STOP_FIELD == stop.spec_bits(),
        framing_register(w, parity, stop) & MODE_FIELD == 0,
{
    lemma_field_values(w, parity, stop);
    let cc = char_size_bits(w).1;
    let pb = parity.spec_bits();
    let sb = stop.spec_bits();
    assert((cc | pb | sb) & PARITY_FIELD == pb && (cc | pb | sb) & STOP_FIELD == sb && (cc | pb
        | sb) & MODE_FIELD == 0) by (bit_vector)
        requires
            cc == 0u8 || cc == UCSZ00 || cc == UCSZ01 || cc == UCSZ01 | UCSZ00,
            pb == 0u8 || pb == UPM01 || pb == UPM01 | UPM00,
            sb == 0u8 || sb == USBS0,
    ;
}

/// Setting two fields that do not overlap gives the same register in either
/// order, when each value lies within its field.
pub proof fn lemma_set_field_commutes(reg: u8, keep1: u8, bits1: u8, keep2: u8, bits2: u8)
    by (bit_vector)
    requires
        bits1 & keep1 == 0,
        bits2 & keep2 == 0,
        !keep1 & !keep2 == 0,
    ensures
        set_field(set_field(reg, keep1, bits1), keep2, bits2) == set_field(
            set_field(reg, keep2, bits2),
            keep1,
            bits1,
        ),
{
}

/// Once a write has been made, a second write while the data register is not
/// empty reports `WouldBlock` and leaves the data register as the first left it.
pub proof fn lemma_blocked_second_write(regs: Registers, first: nat, second: nat, status: u8)
    requires
        !spec_ready_to_transmit(status),
    ensures
        ({
            let after = Registers { ucsr_a: status, ..written(regs, first) };
            &&& write_result(status) == Err::<(), nb::Error<SerialError>>(nb::Error::WouldBlock)
            &&& written(after, second) == after
            &&& written(after, second).udr == written(regs, first).udr
        }),
{
}

/// Configuring a second time with the same choices leaves every register as
/// the first configuration did.
pub proof fn lemma_configure_idempotent(
    regs: Registers,
    ubrr: u16,
    w: nat,
    parity: Parity,
    stop: StopBits,
)
    ensures
        configured(configured(regs, ubrr, w, parity, stop), ubrr, w, parity, stop) == configured(
            regs,
            ubrr,
            w,
            parity,
            stop,
        ),
{
}

/// The receiver and the transmitter are enabled after every configuration.
pub proof fn lemma_enables_always_on(
    regs: Registers,
    ubrr: u16,
    w: nat,
    parity: Parity,
    stop: StopBits,
)
    ensures
        configured(regs, ubrr, w, parity, stop).ucsr_b & RXEN0 == RXEN0,
        configured(regs, ubrr, w, parity, stop).ucsr_b & TXEN0 == TXEN0,
{
    lemma_field_values(w, parity, stop);
    assert((0u8 | RXEN0 | TXEN0) & RXEN0 == RXEN0 && (0u8 | RXEN0 | TXEN0) & TXEN0 == TXEN0)
        by (bit_vector);
}

} // verus!
