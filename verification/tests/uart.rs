use rustshyper_vmm::uart::Uart16550;

/// Writes a register, and sends out what is to be sent.
fn write(uart: &mut Uart16550, offset: u8, value: u8) -> Option<u8> {
    let sent = uart.write(offset, value);
    if sent.is_some() {
        uart.transmit_done();
    }
    sent
}

#[test]
fn receive_then_read_round_trips() {
    let mut uart = Uart16550::new();
    uart.receive_byte(b'A');
    assert_eq!(uart.read(0), b'A');
}

#[test]
fn transmit_empty_interrupt_latches_on_write_and_ier_enable() {
    let mut uart = Uart16550::new();
    assert!(!uart.interrupt_pending());
    assert!(!uart.take_interrupt_edge());
    write(&mut uart, 1, 0x02);
    assert!(!uart.interrupt_pending());
    assert!(!uart.take_interrupt_edge());
    write(&mut uart, 0, b'X');
    assert!(uart.interrupt_pending());
    assert!(uart.take_interrupt_edge());
    assert!(!uart.take_interrupt_edge());
    assert_eq!(uart.read(2), 0x02);
    assert!(!uart.interrupt_pending());

    write(&mut uart, 1, 0x00);
    write(&mut uart, 0, b'Y');
    assert!(!uart.interrupt_pending());
    write(&mut uart, 1, 0x02);
    assert!(uart.interrupt_pending());
    assert!(uart.take_interrupt_edge());
}

#[test]
fn power_on_registers() {
    let mut uart = Uart16550::default();
    assert_eq!(uart.read(0), 0);
    assert_eq!(uart.read(1), 0);
    assert_eq!(uart.read(2), 0x01);
    assert_eq!(uart.read(3), 0);
    assert_eq!(uart.read(4), 0);
    assert_eq!(uart.read(5), 0x60);
    assert_eq!(uart.read(6), 0);
    assert_eq!(uart.read(7), 0);
    assert_eq!(uart.read(8), 0);
    assert_eq!(uart.read(255), 0);
}

#[test]
fn data_bytes_are_handed_out_to_be_sent() {
    let mut uart = Uart16550::new();
    assert_eq!(uart.write(0, b'h'), Some(b'h'));
    uart.transmit_done();
    assert_eq!(uart.write(1, 0x02), None);
    assert_eq!(uart.write(3, 0x03), None);
    assert_eq!(uart.write(4, 0x0b), None);
    assert_eq!(uart.write(7, 0x55), None);
    assert_eq!(uart.write(2, 0xc7), None);
    assert_eq!(uart.write(5, 0xff), None);
    assert_eq!(uart.write(9, 0xff), None);
    assert_eq!(uart.read(1), 0x02);
    assert_eq!(uart.read(3), 0x03);
    assert_eq!(uart.read(4), 0x0b);
    assert_eq!(uart.read(7), 0x55);
    assert_eq!(uart.read(5), 0x60);
}

#[test]
fn a_byte_that_could_not_be_sent_raises_nothing() {
    let mut uart = Uart16550::new();
    assert_eq!(uart.write(1, 0x02), None);
    assert_eq!(uart.write(0, b'z'), Some(b'z'));
    assert!(!uart.interrupt_pending());
    assert!(!uart.take_interrupt_edge());
}

#[test]
fn fifo_keeps_the_newest_sixty_three() {
    let mut uart = Uart16550::new();
    for byte in 0..70u8 {
        uart.receive_byte(byte);
    }
    for byte in 7..70u8 {
        assert_eq!(uart.read(5) & 1, 1);
        assert_eq!(uart.read(0), byte);
    }
    assert_eq!(uart.read(5) & 1, 0);
    assert_eq!(uart.read(0), 0);
}

#[test]
fn fifo_wraps_around() {
    let mut uart = Uart16550::new();
    for round in 0..10u8 {
        for byte in 0..50u8 {
            uart.receive_byte(byte ^ round);
        }
        for byte in 0..50u8 {
            assert_eq!(uart.read(0), byte ^ round);
        }
    }
    assert_eq!(uart.read(5), 0x60);
}

#[test]
fn receive_interrupt_comes_before_transmit_interrupt() {
    let mut uart = Uart16550::new();
    write(&mut uart, 1, 0x03);
    write(&mut uart, 0, b'X');
    assert_eq!(uart.read(2), 0x02);
    write(&mut uart, 0, b'Y');
    uart.receive_byte(b'k');
    assert_eq!(uart.read(2), 0x04);
    // Identifying received data acknowledges nothing.
    assert_eq!(uart.read(2), 0x04);
    assert_eq!(uart.read(0), b'k');
    assert_eq!(uart.read(2), 0x02);
    assert_eq!(uart.read(2), 0x01);
    assert!(!uart.interrupt_pending());
}

#[test]
fn every_received_byte_leaves_an_edge_when_enabled() {
    let mut uart = Uart16550::new();
    uart.receive_byte(b'a');
    assert!(!uart.take_interrupt_edge());
    write(&mut uart, 1, 0x01);
    assert!(uart.interrupt_pending());
    assert!(uart.take_interrupt_edge());
    uart.receive_byte(b'b');
    assert!(uart.take_interrupt_edge());
    uart.poll_tx();
    assert!(!uart.take_interrupt_edge());
}

#[test]
fn acknowledged_transmit_interrupt_is_not_raised_again() {
    let mut uart = Uart16550::new();
    write(&mut uart, 1, 0x02);
    write(&mut uart, 0, b'X');
    assert_eq!(uart.read(2), 0x02);
    write(&mut uart, 1, 0x00);
    write(&mut uart, 1, 0x02);
    assert!(!uart.interrupt_pending());
    assert_eq!(uart.read(2), 0x01);
}

#[test]
fn divisor_latches_are_isolated() {
    let mut uart = Uart16550::new();
    uart.receive_byte(b'q');
    write(&mut uart, 1, 0x01);
    write(&mut uart, 3, 0x80);
    assert_eq!(write(&mut uart, 0, 0x0c), None);
    assert_eq!(write(&mut uart, 1, 0x34), None);
    assert_eq!(uart.read(0), 0x0c);
    assert_eq!(uart.read(1), 0x34);
    write(&mut uart, 3, 0x03);
    assert_eq!(uart.read(1), 0x01);
    assert_eq!(uart.read(0), b'q');
}
