//! The serial port, register by register.
use crate::uart;
use crate::uart::UartState;
use vstd::prelude::*;

verus! {

/// A write to register 3 maps the divisor latches exactly where its top bit is set, whatever its other
/// bits are. While they are mapped, registers 0 and 1 reach them: nothing goes out, no byte is taken, and
/// the interrupts stay as they are enabled. While they are not, what is written to register 0 goes out, and
/// register 1 enables interrupts.
pub proof fn law_line_control(s: UartState, value: u8, v: u8)
    ensures
        ({
            let t = s.after_write(3, value);
            &&& s.transmits(3, value) is None
            &&& t == (UartState { lcr: value, ..s })
            &&& value >= 0x80 ==> t.transmits(0, v) is None && t.after_write(0, v)
                == (UartState { dll: v, ..t }) && t.after_write(0, v).read_value(0) == v
            &&& value >= 0x80 ==> t.transmits(1, v) is None && t.after_write(1, v)
                == (UartState { dlm: v, ..t }) && t.after_write(1, v).read_value(1) == v
            &&& value >= 0x80 ==> t.read_value(0) == s.dll && t.after_read(0) == t
            &&& value >= 0x80 ==> t.read_value(1) == s.dlm && t.after_read(1) == t
            &&& value < 0x80 ==> t.transmits(0, v) == Some(v) && t.after_write(0, v)
                == (UartState { thr: v, ..t })
            &&& value < 0x80 ==> t.transmits(1, v) is None && t.after_write(1, v).ier == v
            &&& value < 0x80 ==> t.read_value(1) == s.ier && t.after_read(1) == t
            &&& value < 0x80 && s.rx.len() > 0 ==> t.read_value(0) == s.rx[0]
            &&& value < 0x80 && s.rx.len() == 0 ==> t.read_value(0) == 0 && t.after_read(0) == t
        }),
{
}

/// After power-on every register and latch is clear, nothing waits, and nothing is raised.
pub proof fn law_power_on(offset: u8)
    ensures
        ({
            let s = UartState::reset();
            &&& s.read_value(offset) == (if offset == 2 {
                0x01int
            } else if offset == 5 {
                0x60
            } else {
                0
            })
            &&& s.after_read(offset) == s
            &&& s.rx.len() == 0
            &&& !s.irq_edge && !s.pending()
            &&& !s.thr_pending && !s.thr_armed
            &&& s.dll == 0 && s.dlm == 0
        }),
{
}

/// What each register reads, and that of all reads only those of received data and of the
/// transmitter-empty identification change anything.
pub proof fn law_reads(s: UartState, offset: u8)
    ensures
        offset == 2 ==> s.read_value(offset) == (if s.rx.len() > 0 && s.ier % 2 == 1 {
            4int
        } else if s.thr_pending && (s.ier % 4) / 2 == 1 {
            2
        } else {
            1
        }),
        offset == 3 ==> s.read_value(offset) == s.lcr,
        offset == 4 ==> s.read_value(offset) == s.mcr,
        offset == 5 ==> s.read_value(offset) == (if s.rx.len() == 0 {
            96int
        } else {
            97
        }),
        offset == 7 ==> s.read_value(offset) == s.scr,
        offset == 6 || offset >= 8 ==> s.read_value(offset) == 0,
        offset != 0 && !(offset == 2 && s.read_value(2) == 2) ==> s.after_read(offset) == s,
        s.lcr >= 0x80 ==> s.after_read(0) == s,
{
}

/// A read of received data takes the oldest byte and nothing else, but that an interrupt which only then
/// shows leaves an edge.
pub proof fn law_data_read_takes_one_byte(s: UartState)
    requires
        s.lcr < 0x80,
        s.rx.len() > 0,
    ensures
        s.read_value(0) == s.rx[0],
        s.after_read(0) == (UartState {
            rx: s.rx.skip(1),
            rbr: s.rx[0],
            irq_edge: s.after_read(0).irq_edge,
            ..s
        }),
        s.after_read(0).irq_edge <==> s.irq_edge || (s.read_value(2) == 1 && s.after_read(
            0,
        ).read_value(2) != 1),
{
    assert(s.rx.drop_first() =~= s.rx.skip(1));
}

/// Reading a transmitter-empty identification forgets it until another byte goes out, and changes nothing
/// else.
pub proof fn law_identification_read(s: UartState)
    requires
        s.read_value(2) == 2,
    ensures
        s.after_read(2) == (UartState { thr_pending: false, thr_armed: false, ..s }),
        s.after_read(2).read_value(2) == 1,
{
}

/// Each write reaches exactly one register; registers 2, 5, 6 and those beyond 7 take none. Only data goes
/// out.
pub proof fn law_writes(s: UartState, offset: u8, v: u8)
    ensures
        offset == 4 ==> s.after_write(offset, v) == (UartState { mcr: v, ..s }),
        offset == 7 ==> s.after_write(offset, v) == (UartState { scr: v, ..s }),
        offset == 2 || offset == 5 || offset == 6 || offset >= 8 ==> s.after_write(offset, v) == s,
        s.transmits(offset, v) is Some <==> offset == 0 && s.lcr < 0x80,
        s.transmits(offset, v) is Some ==> s.transmits(offset, v) == Some(v),
{
}

/// Enabling interrupts shows the ones that wait: received data where bit 0 is set, and an empty transmitter
/// where bit 1 is set and a byte went out since it was last acknowledged. What was not showing before leaves
/// an edge.
pub proof fn law_enabling_interrupts(s: UartState, ier: u8)
    requires
        s.lcr < 0x80,
    ensures
        ({
            let t = s.after_write(1, ier);
            &&& t == (UartState {
                ier,
                thr_pending: s.thr_pending || (s.thr_armed && (ier % 4) / 2 == 1),
                irq_edge: t.irq_edge,
                ..s
            })
            &&& t.irq_edge <==> s.irq_edge || (s.read_value(2) == 1 && t.read_value(2) != 1)
            &&& ier % 2 == 1 && s.rx.len() > 0 ==> t.read_value(2) == 4
            &&& !(ier % 2 == 1 && s.rx.len() > 0) && (ier % 4) / 2 == 1 && (s.thr_armed
                || s.thr_pending) ==> t.read_value(2) == 2
            &&& ier % 4 == 0 ==> t.read_value(2) == 1
        }),
{
}

/// A byte that went out arms the transmitter-empty interrupt, and raises it where bit 1 of the enable
/// register is set.
pub proof fn law_transmitting(s: UartState)
    ensures
        ({
            let t = s.after_transmit();
            &&& t == (UartState {
                thr_armed: true,
                thr_pending: (s.ier % 4) / 2 == 1,
                irq_edge: t.irq_edge,
                ..s
            })
            &&& t.irq_edge <==> s.irq_edge || (s.read_value(2) == 1 && t.read_value(2) != 1)
            &&& (s.ier % 4) / 2 == 1 ==> t.read_value(2) != 1
        }),
{
}

/// A received byte goes behind those that wait. Of 63 that wait already, the oldest is lost. With bit 0 of
/// the enable register set, each one leaves an edge.
pub proof fn law_receiving(s: UartState, ch: u8)
    ensures
        ({
            let t = s.received(ch);
            &&& s.rx.len() < 63 ==> t.rx == s.rx + seq![ch]
            &&& s.rx.len() == 63 ==> t.rx == s.rx.skip(1) + seq![ch]
            &&& t == (UartState { rx: t.rx, irq_edge: t.irq_edge, ..s })
            &&& s.ier % 2 == 1 ==> t.irq_edge && t.read_value(2) == 4
            &&& s.ier % 2 == 0 ==> t.irq_edge == s.irq_edge && t.read_value(2) == s.read_value(2)
            &&& t.read_value(5) == 97
        }),
{
    if s.rx.len() < 63 {
        assert(s.received(ch).rx =~= s.rx + seq![ch]);
    }
    if s.rx.len() == 63 {
        assert(s.received(ch).rx =~= s.rx.skip(1) + seq![ch]);
    }
}

/// Several received bytes arrive one after the other.
pub proof fn law_receiving_in_turn(s: UartState, first: Seq<u8>, ch: u8)
    ensures
        uart::received_all(s, Seq::empty()) == s,
        uart::received_all(s, first.push(ch)) == uart::received_all(s, first).received(ch),
{
    assert(first.push(ch).drop_last() =~= first);
}

/// An interrupt is pending exactly where the identification register shows one.
pub proof fn law_pending_is_identified(s: UartState)
    ensures
        s.pending() <==> s.read_value(2) != 1,
{
}

} // verus!
