//! A 16550 UART: registers, receive FIFO and interrupt state.
use vstd::prelude::*;

verus! {

/// Slots of the receive ring; one always stays free.
pub const UART_RX_FIFO_SIZE: usize = 64;

const UART_IER_RDI: u8 = 0x01;

const UART_IER_THRI: u8 = 0x02;

const UART_IIR_NO_INT: u8 = 0x01;

const UART_IIR_RDI: u8 = 0x04;

const UART_IIR_THRI: u8 = 0x02;

const UART_LSR_DR: u8 = 0x01;

const UART_LSR_THRE: u8 = 0x20;

const UART_LSR_TEMT: u8 = 0x40;

/// What a UART is: its registers, the bytes waiting to be read, and its interrupt latches.
#[verifier::ext_equal]
pub struct UartState {
    /// Interrupt enable register.
    pub ier: u8,
    /// Line control register.
    pub lcr: u8,
    /// Modem control register.
    pub mcr: u8,
    /// Scratch register.
    pub scr: u8,
    /// Divisor latch, low byte.
    pub dll: u8,
    /// Divisor latch, high byte.
    pub dlm: u8,
    /// The last byte handed to the transmitter.
    pub thr: u8,
    /// The last byte taken from the receive FIFO.
    pub rbr: u8,
    /// Received bytes that were not read yet, oldest first.
    pub rx: Seq<u8>,
    /// An interrupt was raised since the edge was last taken.
    pub irq_edge: bool,
    /// The transmitter-empty interrupt is latched.
    pub thr_pending: bool,
    /// A byte went out since the transmitter-empty interrupt was last acknowledged.
    pub thr_armed: bool,
}

/// How many bytes the receive FIFO can hold.
pub open spec fn rx_capacity() -> nat {
    63
}

/// `rx` with `ch` received: at capacity, the oldest byte makes room.
pub open spec fn rx_receive(rx: Seq<u8>, ch: u8) -> Seq<u8> {
    if rx.len() >= rx_capacity() {
        rx.drop_first().push(ch)
    } else {
        rx.push(ch)
    }
}

impl UartState {
    /// The state after power-on.
    pub open spec fn reset() -> UartState {
        UartState {
            ier: 0,
            lcr: 0,
            mcr: 0,
            scr: 0,
            dll: 0,
            dlm: 0,
            thr: 0,
            rbr: 0,
            rx: Seq::empty(),
            irq_edge: false,
            thr_pending: false,
            thr_armed: false,
        }
    }

    /// The divisor latches are mapped in place of the data and interrupt enable registers.
    pub open spec fn dlab(self) -> bool {
        self.lcr >= 0x80
    }

    /// The receive interrupt is enabled.
    pub open spec fn receive_enabled(self) -> bool {
        self.ier % 2 == 1
    }

    /// The transmitter-empty interrupt is enabled.
    pub open spec fn transmit_enabled(self) -> bool {
        (self.ier / 2) % 2 == 1
    }

    /// The line status register: the transmitter is always idle, and bit 0 tells of received data.
    pub open spec fn lsr(self) -> u8 {
        if self.rx.len() > 0 {
            0x61
        } else {
            0x60
        }
    }

    /// The interrupt identification register: received data before an empty transmitter.
    pub open spec fn iir(self) -> u8 {
        if self.rx.len() > 0 && self.receive_enabled() {
            0x04
        } else if self.thr_pending && self.transmit_enabled() {
            0x02
        } else {
            0x01
        }
    }

    /// An interrupt is pending.
    pub open spec fn pending(self) -> bool {
        self.iir() != 0x01
    }

    /// This state, reached from `before`: an interrupt that became pending on the way leaves an
    /// edge.
    pub open spec fn settled(self, before: UartState) -> UartState {
        UartState { irq_edge: self.irq_edge || (self.pending() && !before.pending()), ..self }
    }

    /// A byte arrives from outside.
    pub open spec fn received(self, ch: u8) -> UartState {
        let next = UartState { rx: rx_receive(self.rx, ch), ..self }.settled(self);
        UartState { irq_edge: next.irq_edge || self.receive_enabled(), ..next }
    }

    /// What a read of the register at `offset` returns.
    pub open spec fn read_value(self, offset: u8) -> u8 {
        if offset == 0 {
            if self.dlab() {
                self.dll
            } else if self.rx.len() > 0 {
                self.rx[0]
            } else {
                0
            }
        } else if offset == 1 {
            if self.dlab() {
                self.dlm
            } else {
                self.ier
            }
        } else if offset == 2 {
            self.iir()
        } else if offset == 3 {
            self.lcr
        } else if offset == 4 {
            self.mcr
        } else if offset == 5 {
            self.lsr()
        } else if offset == 7 {
            self.scr
        } else {
            0
        }
    }

    /// The state after a read of the register at `offset`: reading data takes the oldest byte, and
    /// reading a transmitter-empty identification acknowledges it.
    pub open spec fn after_read(self, offset: u8) -> UartState {
        if offset == 0 && !self.dlab() && self.rx.len() > 0 {
            UartState { rx: self.rx.drop_first(), rbr: self.rx[0], ..self }.settled(self)
        } else if offset == 2 && self.iir() == 0x02 {
            UartState { thr_pending: false, thr_armed: false, ..self }.settled(self)
        } else {
            self
        }
    }

    /// The byte that a write to the register at `offset` sends out.
    pub open spec fn transmits(self, offset: u8, value: u8) -> Option<u8> {
        if offset == 0 && !self.dlab() {
            Some(value)
        } else {
            None
        }
    }

    /// The state after a write to the register at `offset`. Where the write sends a byte out, this
    /// is the state before the byte is known to be out.
    pub open spec fn after_write(self, offset: u8, value: u8) -> UartState {
        if offset == 0 {
            if self.dlab() {
                UartState { dll: value, ..self }
            } else {
                UartState { thr: value, ..self }
            }
        } else if offset == 1 {
            if self.dlab() {
                UartState { dlm: value, ..self }
            } else {
                let enabled = UartState { ier: value, ..self };
                UartState {
                    thr_pending: self.thr_pending || (self.thr_armed && enabled.transmit_enabled()),
                    ..enabled
                }.settled(self)
            }
        } else if offset == 3 {
            UartState { lcr: value, ..self }
        } else if offset == 4 {
            UartState { mcr: value, ..self }
        } else if offset == 7 {
            UartState { scr: value, ..self }
        } else {
            self
        }
    }

    /// The state once the byte in the transmitter is out: the transmitter-empty interrupt is armed,
    /// and latched at once where it is enabled.
    pub open spec fn after_transmit(self) -> UartState {
        UartState { thr_pending: self.transmit_enabled(), thr_armed: true, ..self }.settled(self)
    }
}

/// A 16550 UART.
#[derive(Debug)]
pub struct Uart16550 {
    rbr: u8,
    thr: u8,
    ier: u8,
    iir: u8,
    lcr: u8,
    mcr: u8,
    lsr: u8,
    msr: u8,
    scr: u8,
    dll: u8,
    dlm: u8,
    dlab: bool,
    rx_buf: [u8; 64],
    rx_head: usize,
    rx_tail: usize,
    irq_pending: bool,
    irq_edge: bool,
    thr_interrupt_pending: bool,
    thr_interrupt_armed: bool,
}

/// How many bytes lie in the ring between `tail` and `head`.
spec fn ring_len(head: int, tail: int) -> int {
    if head >= tail {
        head - tail
    } else {
        head - tail + 64
    }
}

/// The slot `i` places after `tail`.
spec fn ring_slot(tail: int, i: int) -> int {
    if tail + i < 64 {
        tail + i
    } else {
        tail + i - 64
    }
}

/// The bytes in the ring, oldest first.
spec fn ring(buf: Seq<u8>, head: int, tail: int) -> Seq<u8> {
    Seq::new(ring_len(head, tail) as nat, |i: int| buf[ring_slot(tail, i)])
}

impl Uart16550 {
    /// The registers, waiting bytes and latches.
    pub closed spec fn view(&self) -> UartState {
        UartState {
            ier: self.ier,
            lcr: self.lcr,
            mcr: self.mcr,
            scr: self.scr,
            dll: self.dll,
            dlm: self.dlm,
            thr: self.thr,
            rbr: self.rbr,
            rx: ring(self.rx_buf@, self.rx_head as int, self.rx_tail as int),
            irq_edge: self.irq_edge,
            thr_pending: self.thr_interrupt_pending,
            thr_armed: self.thr_interrupt_armed,
        }
    }

    /// The parts that do not depend on the interrupt state are consistent.
    spec fn registers_wf(&self) -> bool {
        &&& self.rx_head < 64
        &&& self.rx_tail < 64
        &&& self.dlab == self@.dlab()
        &&& self.lsr == self@.lsr()
        &&& self.msr == 0
    }

    /// The derived registers agree with what they are derived from, and the transmitter-empty
    /// interrupt is latched only while it is armed.
    pub closed spec fn wf(&self) -> bool {
        &&& self.registers_wf()
        &&& self.iir == self@.iir()
        &&& self.irq_pending == self@.pending()
        &&& self.thr_interrupt_pending ==> self.thr_interrupt_armed
    }

    /// A UART after power-on.
    pub fn new() -> (uart: Self)
        ensures
            uart.wf(),
            uart@ == UartState::reset(),
    {
        let uart = Uart16550 {
            rbr: 0,
            thr: 0,
            ier: 0,
            iir: UART_IIR_NO_INT,
            lcr: 0,
            mcr: 0,
            lsr: UART_LSR_THRE | UART_LSR_TEMT,
            msr: 0,
            scr: 0,
            dll: 0,
            dlm: 0,
            dlab: false,
            rx_buf: [0;64],
            rx_head: 0,
            rx_tail: 0,
            irq_pending: false,
            irq_edge: false,
            thr_interrupt_pending: false,
            thr_interrupt_armed: false,
        };
        proof {
            assert(0x20u8 | 0x40u8 == 0x60u8) by (bit_vector);
            assert(uart@ =~= UartState::reset());
        }
        uart
    }

    fn rx_fifo_empty(&self) -> (empty: bool)
        requires
            self.rx_head < 64,
            self.rx_tail < 64,
        ensures
            empty == (self@.rx.len() == 0),
    {
        self.rx_head == self.rx_tail
    }

    fn rx_fifo_full(&self) -> (full: bool)
        requires
            self.rx_head < 64,
            self.rx_tail < 64,
        ensures
            full == (self@.rx.len() == rx_capacity()),
    {
        (self.rx_head + 1) % UART_RX_FIFO_SIZE == self.rx_tail
    }

    fn rx_fifo_push(&mut self, ch: u8)
        requires
            old(self).rx_head < 64,
            old(self).rx_tail < 64,
        ensures
            final(self).rx_head < 64,
            final(self).rx_tail < 64,
            final(self)@ == (UartState { rx: rx_receive(old(self)@.rx, ch), ..old(self)@ }),
            final(self).dlab == old(self).dlab,
            final(self).lsr == old(self).lsr,
            final(self).msr == old(self).msr,
            final(self).iir == old(self).iir,
            final(self).irq_pending == old(self).irq_pending,
    {
        if self.rx_fifo_full() {
            self.rx_tail = (self.rx_tail + 1) % UART_RX_FIFO_SIZE;
        }
        self.rx_buf[self.rx_head] = ch;
        self.rx_head = (self.rx_head + 1) % UART_RX_FIFO_SIZE;
        proof {
            assert(self@.rx =~= rx_receive(old(self)@.rx, ch));
        }
    }

    fn rx_fifo_pop(&mut self) -> (ch: u8)
        requires
            old(self).rx_head < 64,
            old(self).rx_tail < 64,
        ensures
            final(self).rx_head < 64,
            final(self).rx_tail < 64,
            old(self)@.rx.len() == 0 ==> ch == 0 && *final(self) == *old(self),
            old(self)@.rx.len() > 0 ==> ch == old(self)@.rx[0] && final(self)@ == (UartState {
                rx: old(self)@.rx.drop_first(),
                rbr: ch,
                ..old(self)@
            }),
            final(self).dlab == old(self).dlab,
            final(self).lsr == old(self).lsr,
            final(self).msr == old(self).msr,
            final(self).iir == old(self).iir,
            final(self).irq_pending == old(self).irq_pending,
    {
        if self.rx_fifo_empty() {
            return 0;
        }
        let ch = self.rx_buf[self.rx_tail];
        self.rx_tail = (self.rx_tail + 1) % UART_RX_FIFO_SIZE;
        self.rbr = ch;
        proof {
            assert(self@.rx =~= old(self)@.rx.drop_first());
        }
        ch
    }

    /// Derives the interrupt registers anew; an interrupt that was not pending before leaves an
    /// edge.
    fn update_irq(&mut self)
        requires
            old(self).registers_wf(),
            old(self).thr_interrupt_pending ==> old(self).thr_interrupt_armed,
        ensures
            final(self).wf(),
            final(self)@ == (UartState {
                irq_edge: old(self).irq_edge || (old(self)@.pending() && !old(self).irq_pending),
                ..old(self)@
            }),
    {
        let was_pending = self.irq_pending;
        proof {
            let lsr = self.lsr;
            let ier = self.ier;
            assert(lsr == 0x60 || lsr == 0x61);
            assert((lsr & 0x01 != 0) <==> lsr == 0x61) by (bit_vector)
                requires
                    lsr == 0x60 || lsr == 0x61,
            ;
            assert((ier & 0x01 != 0) <==> ier % 2 == 1) by (bit_vector);
            assert((ier & 0x02 != 0) <==> (ier / 2) % 2 == 1) by (bit_vector);
        }
        self.irq_pending = false;
        self.iir = UART_IIR_NO_INT;
        if (self.lsr & UART_LSR_DR) != 0 && (self.ier & UART_IER_RDI) != 0 {
            self.irq_pending = true;
            self.iir = UART_IIR_RDI;
            if !was_pending {
                self.irq_edge = true;
            }
            return ;
        }
        if self.thr_interrupt_pending && (self.ier & UART_IER_THRI) != 0 {
            self.irq_pending = true;
            self.iir = UART_IIR_THRI;
            if !was_pending {
                self.irq_edge = true;
            }
        }
    }

    fn latch_thr_interrupt_if_enabled(&mut self)
        requires
            old(self).registers_wf(),
            old(self).thr_interrupt_pending ==> old(self).thr_interrupt_armed,
        ensures
            final(self).wf(),
            ({
                let latched = UartState {
                    thr_pending: old(self)@.thr_pending || (old(self)@.thr_armed
                        && old(self)@.transmit_enabled()),
                    ..old(self)@
                };
                final(self)@ == (UartState {
                    irq_edge: latched.irq_edge || (latched.pending() && !old(self).irq_pending),
                    ..latched
                })
            }),
    {
        proof {
            let lsr = self.lsr;
            let ier = self.ier;
            assert(lsr & 0x20 != 0) by (bit_vector)
                requires
                    lsr == 0x60 || lsr == 0x61,
            ;
            assert((ier & 0x02 != 0) <==> (ier / 2) % 2 == 1) by (bit_vector);
        }
        if self.thr_interrupt_armed && (self.lsr & UART_LSR_THRE) != 0 && (self.ier
            & UART_IER_THRI) != 0 {
            self.thr_interrupt_pending = true;
        }
        self.update_irq();
    }

    /// Takes a byte that arrived from outside.
    pub fn receive_byte(&mut self, ch: u8)
        requires
            old(self).wf(),
        ensures
            final(self).wf(),
            final(self)@ == old(self)@.received(ch),
    {
        self.rx_fifo_push(ch);
        proof {
            let lsr = self.lsr;
            let ier = self.ier;
            assert(lsr | 0x01 == 0x61) by (bit_vector)
                requires
                    lsr == 0x60 || lsr == 0x61,
            ;
            assert((ier & 0x01 != 0) <==> ier % 2 == 1) by (bit_vector);
        }
        self.lsr = self.lsr | UART_LSR_DR;
        self.update_irq();
        if (self.ier & UART_IER_RDI) != 0 {
            self.irq_edge = true;
        }
    }

    /// Reads the register at `offset`.
    pub fn read(&mut self, offset: u8) -> (value: u8)
        requires
            old(self).wf(),
        ensures
            final(self).wf(),
            value == old(self)@.read_value(offset),
            final(self)@ == old(self)@.after_read(offset),
    {
        match offset {
            0 => {
                if self.dlab {
                    self.dll
                } else {
                    let value = self.rx_fifo_pop();
                    if self.rx_fifo_empty() {
                        proof {
                            let lsr = self.lsr;
                            assert(lsr & !0x01u8 == 0x60) by (bit_vector)
                                requires
                                    lsr == 0x60 || lsr == 0x61,
                            ;
                        }
                        self.lsr = self.lsr & !UART_LSR_DR;
                    }
                    self.update_irq();
                    value
                }
            },
            1 => {
                if self.dlab {
                    self.dlm
                } else {
                    self.ier
                }
            },
            2 => {
                let value = self.iir;
                if value == UART_IIR_THRI {
                    self.thr_interrupt_pending = false;
                    self.thr_interrupt_armed = false;
                }
                self.update_irq();
                value
            },
            3 => self.lcr,
            4 => self.mcr,
            5 => self.lsr,
            6 => self.msr,
            7 => self.scr,
            _ => 0,
        }
    }

    /// Writes the register at `offset`. Where a byte is returned it is to be sent out, and
    /// `transmit_done` called once that has succeeded; a byte that could not be sent leaves the
    /// interrupt state as it is.
    pub fn write(&mut self, offset: u8, value: u8) -> (transmit: Option<u8>)
        requires
            old(self).wf(),
        ensures
            final(self).wf(),
            transmit == old(self)@.transmits(offset, value),
            final(self)@ == old(self)@.after_write(offset, value),
    {
        match offset {
            0 => {
                if self.dlab {
                    self.dll = value;
                } else {
                    self.thr = value;
                    return Some(value);
                }
            },
            1 => {
                if self.dlab {
                    self.dlm = value;
                } else {
                    self.ier = value;
                    self.latch_thr_interrupt_if_enabled();
                }
            },
            3 => {
                proof {
                    assert(((value >> 7) & 1 != 0) <==> value >= 0x80) by (bit_vector);
                }
                self.lcr = value;
                self.dlab = ((value >> 7) & 1) != 0;
            },
            4 => {
                self.mcr = value;
            },
            7 => {
                self.scr = value;
            },
            _ => {},
        }
        None
    }

    /// Tells the UART that the byte in its transmitter is out.
    pub fn transmit_done(&mut self)
        requires
            old(self).wf(),
        ensures
            final(self).wf(),
            final(self)@ == old(self)@.after_transmit(),
    {
        proof {
            let lsr = self.lsr;
            assert(lsr | (0x20u8 | 0x40u8) == lsr) by (bit_vector)
                requires
                    lsr == 0x60 || lsr == 0x61,
            ;
        }
        self.lsr = self.lsr | (UART_LSR_THRE | UART_LSR_TEMT);
        self.thr_interrupt_pending = false;
        self.thr_interrupt_armed = true;
        self.latch_thr_interrupt_if_enabled();
    }

    /// Derives the interrupt state anew. It is always up to date, so nothing changes.
    pub fn poll_tx(&mut self)
        requires
            old(self).wf(),
        ensures
            final(self).wf(),
            final(self)@ == old(self)@,
    {
        self.update_irq();
    }

    /// Tells whether an interrupt is pending.
    pub fn interrupt_pending(&self) -> (pending: bool)
        requires
            self.wf(),
        ensures
            pending == self@.pending(),
    {
        self.irq_pending
    }

    /// Tells whether an interrupt was raised since the last call, and forgets it.
    pub fn take_interrupt_edge(&mut self) -> (edge: bool)
        requires
            old(self).wf(),
        ensures
            final(self).wf(),
            edge == old(self)@.irq_edge,
            final(self)@ == (UartState { irq_edge: false, ..old(self)@ }),
    {
        let edge = self.irq_edge;
        self.irq_edge = false;
        edge
    }
}

impl Default for Uart16550 {
    fn default() -> (uart: Self)
        ensures
            uart.wf(),
            uart@ == UartState::reset(),
    {
        Uart16550::new()
    }
}

/// The state after the bytes of `bytes` arrived one after the other.
pub open spec fn received_all(s: UartState, bytes: Seq<u8>) -> UartState
    decreases bytes.len(),
{
    if bytes.len() == 0 {
        s
    } else {
        received_all(s, bytes.drop_last()).received(bytes.last())
    }
}

/// The state after `n` reads of the data register.
pub open spec fn after_data_reads(s: UartState, n: nat) -> UartState
    decreases n,
{
    if n == 0 {
        s
    } else {
        after_data_reads(s, (n - 1) as nat).after_read(0)
    }
}

/// The last `n` elements of `bytes`, or all of them where there are fewer.
pub open spec fn newest(bytes: Seq<u8>, n: nat) -> Seq<u8> {
    if bytes.len() > n {
        bytes.skip(bytes.len() - n)
    } else {
        bytes
    }
}

/// In every UART the receive FIFO holds at most 63 bytes, and a latched transmitter-empty interrupt
/// is armed.
pub proof fn law_uart_bounds(uart: Uart16550)
    requires
        uart.wf(),
    ensures
        uart@.rx.len() <= rx_capacity(),
        uart@.thr_pending ==> uart@.thr_armed,
{
}

/// Received bytes queue up in order, and beyond the capacity the oldest are lost. Nothing but the
/// queue and the interrupt edge changes.
pub proof fn law_receive_keeps_newest(s: UartState, bytes: Seq<u8>)
    requires
        s.rx.len() <= rx_capacity(),
    ensures
        received_all(s, bytes).rx == newest(s.rx + bytes, rx_capacity()),
        received_all(s, bytes) == (UartState {
            rx: received_all(s, bytes).rx,
            irq_edge: received_all(s, bytes).irq_edge,
            ..s
        }),
    decreases bytes.len(),
{
    if bytes.len() == 0 {
        assert(s.rx + bytes =~= s.rx);
    } else {
        law_receive_keeps_newest(s, bytes.drop_last());
        let all = s.rx + bytes;
        assert(all.drop_last() =~= s.rx + bytes.drop_last());
        assert(rx_receive(newest(all.drop_last(), rx_capacity()), all.last()) =~= newest(
            all,
            rx_capacity(),
        ));
    }
}

/// Reading the data register `n` times hands the waiting bytes out in order: read `n` returns the
/// byte that waits in place `n`.
pub proof fn law_data_reads_in_order(s: UartState, n: nat)
    requires
        !s.dlab(),
        n < s.rx.len(),
    ensures
        after_data_reads(s, n).read_value(0) == s.rx[n as int],
        after_data_reads(s, n).rx == s.rx.skip(n as int),
        after_data_reads(s, n).lcr == s.lcr,
    decreases n,
{
    if n == 0 {
        assert(s.rx.skip(0) =~= s.rx);
    } else {
        law_data_reads_in_order(s, (n - 1) as nat);
        assert(s.rx.skip(n - 1).drop_first() =~= s.rx.skip(n as int));
    }
}

/// What arrives at a UART with nothing waiting is what the next data read returns, and then nothing
/// waits again.
pub proof fn law_receive_then_read(s: UartState, ch: u8)
    requires
        !s.dlab(),
        s.rx.len() == 0,
    ensures
        s.received(ch).read_value(0) == ch,
        s.received(ch).after_read(0).rx == s.rx,
{
    assert(s.rx.push(ch).drop_first() =~= s.rx);
}

/// The line status register tells of received data exactly while some waits.
pub proof fn law_data_ready(s: UartState)
    ensures
        s.read_value(5) % 2 == 1 <==> s.rx.len() > 0,
{
}

/// No operation makes an interrupt pending without leaving an edge.
pub proof fn law_no_interrupt_without_edge(s: UartState, offset: u8, value: u8)
    requires
        !s.pending(),
    ensures
        s.received(value).pending() ==> s.received(value).irq_edge,
        s.after_read(offset).pending() ==> s.after_read(offset).irq_edge,
        s.after_write(offset, value).pending() ==> s.after_write(offset, value).irq_edge,
        s.after_transmit().pending() ==> s.after_transmit().irq_edge,
{
}

/// No operation but taking it loses an edge.
pub proof fn law_edge_is_kept(s: UartState, offset: u8, value: u8)
    requires
        s.irq_edge,
    ensures
        s.received(value).irq_edge,
        s.after_read(offset).irq_edge,
        s.after_write(offset, value).irq_edge,
        s.after_transmit().irq_edge,
{
}

/// A transmitted byte raises the transmitter-empty interrupt where it is enabled. Where it is not, the
/// next enabling raises it. As long as nothing was received, it is the one that is identified.
pub proof fn law_transmit_interrupt(s: UartState, ier: u8)
    requires
        !s.dlab(),
        (ier / 2) % 2 == 1,
    ensures
        s.transmit_enabled() ==> s.after_transmit().pending(),
        s.after_transmit().after_write(1, ier).pending(),
        s.rx.len() == 0 ==> s.after_transmit().pending() == s.transmit_enabled(),
        s.rx.len() == 0 && s.transmit_enabled() ==> s.after_transmit().read_value(2) == 0x02,
        s.rx.len() == 0 ==> s.after_transmit().after_write(1, ier).read_value(2) == 0x02,
{
}

/// Reading the transmitter-empty identification acknowledges it: nothing is pending any more, and as
/// long as nothing was received, enabling the interrupt again does not raise it before another byte
/// goes out.
pub proof fn law_identification_acknowledges(s: UartState, ier: u8)
    requires
        s.read_value(2) == 0x02,
    ensures
        !s.after_read(2).pending(),
        s.after_read(2).read_value(2) == 0x01,
        s.rx.len() == 0 ==> !s.after_read(2).after_write(1, ier).pending(),
{
}

/// While the divisor latches are mapped, accesses to the first two registers reach only them: no
/// byte goes out, none is taken, and no interrupt state changes.
pub proof fn law_divisor_access_is_isolated(s: UartState, offset: u8, value: u8)
    requires
        s.dlab(),
        offset < 2,
    ensures
        s.transmits(offset, value) is None,
        s.after_read(offset) == s,
        s.after_write(offset, value) == (UartState {
            dll: s.after_write(offset, value).dll,
            dlm: s.after_write(offset, value).dlm,
            ..s
        }),
        s.after_write(offset, value).read_value(offset) == value,
{
}

/// What is written to a plain register is what a read returns.
pub proof fn law_registers_read_back(s: UartState, value: u8)
    ensures
        s.after_write(3, value).read_value(3) == value,
        s.after_write(4, value).read_value(4) == value,
        s.after_write(7, value).read_value(7) == value,
        !s.dlab() ==> s.after_write(1, value).read_value(1) == value,
{
}

} // verus!
