use avr_periph::reg::{RXC0, RXEN0, TXEN0, UCSZ00, UCSZ01, UDRE0, UPM00, UPM01, USBS0};
use avr_periph::serial::{
    ready_to_receive, ready_to_transmit, ubrr_double_speed_with, ubrr_with, CharSizeFlag, Parity,
    Registers, Serial, SerialError, StopBits, MODE_FIELD, PARITY_FIELD, SIZE_FIELD, STOP_FIELD, U5,
    U6, U7,
};
use avr_periph::spi::MasterState;

fn blank() -> Registers {
    Registers { ubrr: 0xFFFF, ucsr_a: 0xFF, ucsr_b: 0xFF, ucsr_c: 0xFF, udr: 0x5A }
}

fn framing<T: CharSizeFlag>(parity: Parity, stop: StopBits) -> Registers {
    let mut regs = blank();
    let _s = Serial::<T>::new_with(&mut regs, 103, parity, stop);
    regs
}

#[test]
fn ubrr_16x_oversampling_9600() {
    assert_eq!(ubrr_with(16_000_000, 9600), 103);
}

#[test]
fn ubrr_8x_oversampling_9600() {
    assert_eq!(ubrr_double_speed_with(16_000_000, 9600), 207);
}

#[test]
fn ubrr_rounds_to_nearest() {
    // 16 MHz / 16 / 115200 = 8.68: rounded to 9, minus one
    assert_eq!(ubrr_with(16_000_000, 115200), 8);
    assert_eq!(ubrr_double_speed_with(16_000_000, 115200), 16);
    // 16 MHz / 16 / 250000 = 4 exactly
    assert_eq!(ubrr_with(16_000_000, 250_000), 3);
}

#[test]
fn parity_encodings() {
    assert_eq!(Parity::Disabled.bits(), 0);
    assert_eq!(Parity::Even.bits(), UPM01);
    assert_eq!(Parity::Odd.bits(), UPM01 | UPM00);
    assert_eq!(Parity::mask(), 0xCF);
}

#[test]
fn stop_bit_encodings() {
    assert_eq!(StopBits::OneBit.bits(), 0);
    assert_eq!(StopBits::TwoBits.bits(), USBS0);
    assert_eq!(StopBits::mask(), 0xF7);
}

#[test]
fn width_encodings() {
    assert_eq!(<U5 as CharSizeFlag>::bits(), (0, 0));
    assert_eq!(<U6 as CharSizeFlag>::bits(), (0, UCSZ00));
    assert_eq!(<U7 as CharSizeFlag>::bits(), (0, UCSZ01));
    assert_eq!(<u8 as CharSizeFlag>::bits(), (0, UCSZ01 | UCSZ00));
}

#[test]
fn width_field_reads_back() {
    let r5 = framing::<U5>(Parity::Odd, StopBits::TwoBits);
    let r6 = framing::<U6>(Parity::Odd, StopBits::TwoBits);
    let r7 = framing::<U7>(Parity::Odd, StopBits::TwoBits);
    let r8 = framing::<u8>(Parity::Odd, StopBits::TwoBits);
    assert_eq!(r5.ucsr_c & SIZE_FIELD, 0);
    assert_eq!(r6.ucsr_c & SIZE_FIELD, UCSZ00);
    assert_eq!(r7.ucsr_c & SIZE_FIELD, UCSZ01);
    assert_eq!(r8.ucsr_c & SIZE_FIELD, UCSZ01 | UCSZ00);
    for r in [r5, r6, r7] {
        assert_eq!(r.ucsr_c & !SIZE_FIELD, r8.ucsr_c & !SIZE_FIELD);
        assert_eq!(r.ucsr_b, r8.ucsr_b);
        assert_eq!(r.ucsr_a, r8.ucsr_a);
        assert_eq!(r.ubrr, r8.ubrr);
        assert_eq!(r.udr, r8.udr);
    }
    assert_eq!(r8.ucsr_c, 0x3E);
}

#[test]
fn parity_and_stop_fields_independent_of_width() {
    let parities = [Parity::Disabled, Parity::Even, Parity::Odd];
    let stops = [StopBits::OneBit, StopBits::TwoBits];
    for p in parities {
        for s in stops {
            for r in [
                framing::<U5>(p, s),
                framing::<U6>(p, s),
                framing::<U7>(p, s),
                framing::<u8>(p, s),
            ] {
                assert_eq!(r.ucsr_c & PARITY_FIELD, p.bits());
                assert_eq!(r.ucsr_c & STOP_FIELD, s.bits());
                assert_eq!(r.ucsr_c & MODE_FIELD, 0);
            }
        }
    }
}

#[test]
fn configure_writes_all_registers() {
    let regs = framing::<u8>(Parity::Even, StopBits::OneBit);
    assert_eq!(
        regs,
        Registers { ubrr: 103, ucsr_a: 0, ucsr_b: RXEN0 | TXEN0, ucsr_c: 0x26, udr: 0x5A }
    );
}

#[test]
fn new_uses_16mhz_no_parity_one_stop() {
    let mut regs = blank();
    let _s = Serial::<u8>::new(&mut regs, 9600);
    assert_eq!(
        regs,
        Registers { ubrr: 103, ucsr_a: 0, ucsr_b: 0x18, ucsr_c: 0x06, udr: 0x5A }
    );
}

#[test]
fn configure_is_idempotent() {
    let mut once = blank();
    let _a = Serial::<U7>::new_with(&mut once, 51, Parity::Odd, StopBits::TwoBits);
    let mut twice = blank();
    let _b = Serial::<U7>::new_with(&mut twice, 51, Parity::Odd, StopBits::TwoBits);
    let _c = Serial::<U7>::new_with(&mut twice, 51, Parity::Odd, StopBits::TwoBits);
    assert_eq!(once, twice);
}

#[test]
fn enables_always_on() {
    let parities = [Parity::Disabled, Parity::Even, Parity::Odd];
    let stops = [StopBits::OneBit, StopBits::TwoBits];
    for p in parities {
        for s in stops {
            for r in [framing::<U5>(p, s), framing::<u8>(p, s)] {
                assert_eq!(r.ucsr_b & RXEN0, RXEN0);
                assert_eq!(r.ucsr_b & TXEN0, TXEN0);
            }
        }
    }
}

#[test]
fn status_predicates() {
    assert!(ready_to_transmit(UDRE0));
    assert!(!ready_to_transmit(RXC0));
    assert!(ready_to_receive(RXC0 | UDRE0));
    assert!(!ready_to_receive(UDRE0));
    assert!(!ready_to_transmit(0));
    assert!(!ready_to_receive(0));
}

#[test]
fn second_write_blocks_and_keeps_data() {
    let mut regs = blank();
    let mut s = Serial::<u8>::new_with(&mut regs, 103, Parity::Disabled, StopBits::OneBit);
    regs.ucsr_a = UDRE0;
    assert_eq!(s.write(&mut regs, 0x41), Ok(()));
    assert_eq!(regs.udr, 0x41);
    regs.ucsr_a = 0;
    let before = regs;
    assert_eq!(s.write(&mut regs, 0x42), Err(nb::Error::WouldBlock));
    assert_eq!(regs, before);
    assert_eq!(regs.udr, 0x41);
}

#[test]
fn write_narrow_word() {
    let mut regs = blank();
    let mut s = Serial::<U5>::new_with(&mut regs, 103, Parity::Disabled, StopBits::OneBit);
    regs.ucsr_a = UDRE0;
    assert_eq!(s.write(&mut regs, U5::new(0x13)), Ok(()));
    assert_eq!(regs.udr, 0x13);
}

#[test]
fn read_blocks_when_nothing_received() {
    let mut regs = blank();
    let mut s = Serial::<u8>::new_with(&mut regs, 103, Parity::Disabled, StopBits::OneBit);
    regs.ucsr_a = UDRE0;
    regs.udr = 0x77;
    let before = regs;
    assert_eq!(s.read(&mut regs), Err(nb::Error::<SerialError>::WouldBlock));
    assert_eq!(regs, before);
}

#[test]
fn read_returns_received_byte() {
    let mut regs = blank();
    let mut s = Serial::<u8>::new_with(&mut regs, 103, Parity::Disabled, StopBits::OneBit);
    regs.ucsr_a = RXC0;
    regs.udr = 0xC3;
    assert_eq!(s.read(&mut regs), Ok(0xC3));
}

#[test]
fn read_narrow_word_keeps_low_bits() {
    let mut regs = blank();
    let mut s5 = Serial::<U5>::new_with(&mut regs, 103, Parity::Disabled, StopBits::OneBit);
    regs.ucsr_a = RXC0;
    regs.udr = 0xFF;
    assert_eq!(s5.read(&mut regs).map(|w| w.value()), Ok(0x1F));
    let mut s6 = Serial::<U6>::new_with(&mut regs, 103, Parity::Disabled, StopBits::OneBit);
    regs.ucsr_a = RXC0;
    regs.udr = 0xC5;
    assert_eq!(s6.read(&mut regs).map(|w| w.value()), Ok(0x05));
    let mut s7 = Serial::<U7>::new_with(&mut regs, 103, Parity::Disabled, StopBits::OneBit);
    regs.ucsr_a = RXC0;
    regs.udr = 0xC5;
    assert_eq!(s7.read(&mut regs).map(|w| w.value()), Ok(0x45));
}

#[test]
fn flush_never_blocks() {
    let mut regs = blank();
    let mut s = Serial::<u8>::new_with(&mut regs, 103, Parity::Disabled, StopBits::OneBit);
    assert_eq!(s.flush(), Ok(()));
}

#[test]
fn word_types_hold_values() {
    assert_eq!(U5::new(31).value(), 31);
    assert_eq!(U6::new(63).value(), 63);
    assert_eq!(U7::new(127).value(), 127);
    assert_eq!(<U6 as CharSizeFlag>::from_byte(0x7F).value(), 0x3F);
    assert_eq!(<U7 as CharSizeFlag>::to_byte(U7::new(0x55)), 0x55);
}

#[test]
fn master_states_differ() {
    assert_ne!(MasterState::Read, MasterState::Sent);
}
