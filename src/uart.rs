//! The 16550-class UART: register program, transmit, and the receive path
//! through a software FIFO filled from the receive interrupt.
use crate::manager::TaskManager;
use crate::wait::{dequeue, IrqWait};
use vstd::prelude::*;

verus! {

/// Physical base of the UART registers.
pub const UART_BASE: usize = 0x1000_0000;

/// Divisor latch value for the console's baud rate.
pub const UART_DIVISOR: u16 = 592;

/// An 8-bit register write for the caller to perform, in order.
#[derive(Clone, Copy, Debug, PartialEq, Eq, Structural)]
pub struct UartWrite {
    pub addr: usize,
    pub value: u8,
}

/// Whether a line status value has its data-ready bit (bit 0) set.
pub fn data_ready(lsr: u8) -> (r: bool)
    ensures
        r == (lsr % 2 == 1),
{
    let r = lsr & 1u8 != 0;
    assert((lsr & 1u8 != 0) == (lsr % 2 == 1)) by (bit_vector);
    r
}

/// What a reader gets from the software FIFO: a byte, or the IRQ line to
/// park on until the receive interrupt comes.
#[derive(Clone, Copy, Debug, PartialEq, Eq, Structural)]
pub enum UartGet {
    Byte(u8),
    Park(u32),
}

/// The UART driver state: the register base and the software receive FIFO.
/// Every byte taken from the line enters the FIFO and leaves it once, to one
/// reader, in the order it came.
pub struct Ns1665a {
    base_address: usize,
    buffer: Vec<u8>,
    received: Ghost<Seq<u8>>,
    consumed: Ghost<Seq<u8>>,
}

impl Ns1665a {
    /// The software FIFO, front first.
    pub closed spec fn buffer(&self) -> Seq<u8> {
        self.buffer@
    }

    /// Every byte taken from the receive register, in order.
    pub closed spec fn received(&self) -> Seq<u8> {
        self.received@
    }

    /// Every byte handed to a reader, in order.
    pub closed spec fn consumed(&self) -> Seq<u8> {
        self.consumed@
    }

    pub closed spec fn base(&self) -> usize {
        self.base_address
    }

    /// Bytes handed out, followed by the bytes still queued, are exactly the
    /// bytes received.
    pub closed spec fn wf(&self) -> bool {
        self.consumed@ + self.buffer@ == self.received@
    }

    /// A driver for the UART at its fixed base, with an empty FIFO.
    pub fn new() -> (r: Self)
        ensures
            r.wf(),
            r.base() == UART_BASE,
            r.buffer() == Seq::<u8>::empty(),
            r.received() == Seq::<u8>::empty(),
            r.consumed() == Seq::<u8>::empty(),
    {
        let r = Ns1665a {
            base_address: UART_BASE,
            buffer: Vec::new(),
            received: Ghost(Seq::empty()),
            consumed: Ghost(Seq::empty()),
        };
        assert(r.consumed@ + r.buffer@ =~= r.received@);
        r
    }

    /// The initialisation program: 8-bit words, FIFO on, receive interrupt
    /// on, then the divisor latch set to `UART_DIVISOR` with DLAB raised and
    /// lowered again.
    pub fn init(&self) -> (ws: Vec<UartWrite>)
        requires
            self.base() == UART_BASE,
        ensures
            ws@ == seq![
                UartWrite { addr: (UART_BASE + 3) as usize, value: 3 },
                UartWrite { addr: (UART_BASE + 2) as usize, value: 1 },
                UartWrite { addr: (UART_BASE + 1) as usize, value: 1 },
                UartWrite { addr: (UART_BASE + 3) as usize, value: 0x83 },
                UartWrite { addr: UART_BASE, value: 0x50 },
                UartWrite { addr: (UART_BASE + 1) as usize, value: 0x02 },
                UartWrite { addr: (UART_BASE + 3) as usize, value: 3 },
            ],
    {
        let b = self.base_address;
        let lcr: u8 = 3;
        let divisor_least: u8 = (UART_DIVISOR % 256) as u8;
        let divisor_most: u8 = (UART_DIVISOR / 256) as u8;
        let mut ws: Vec<UartWrite> = Vec::new();
        ws.push(UartWrite { addr: b + 3, value: lcr });
        ws.push(UartWrite { addr: b + 2, value: 1 });
        ws.push(UartWrite { addr: b + 1, value: 1 });
        ws.push(UartWrite { addr: b + 3, value: lcr | 0x80 });
        ws.push(UartWrite { addr: b, value: divisor_least });
        ws.push(UartWrite { addr: b + 1, value: divisor_most });
        ws.push(UartWrite { addr: b + 3, value: lcr });
        assert(lcr | 0x80u8 == 0x83u8) by (bit_vector)
            requires
                lcr == 3u8,
        ;
        ws
    }

    /// The write that sends `c`: the transmit holding register.
    pub fn put(&self, c: u8) -> (w: UartWrite)
        ensures
            w == (UartWrite { addr: self.base(), value: c }),
    {
        UartWrite { addr: self.base_address, value: c }
    }

    /// Moves the byte read from the receive register, if data was ready, to
    /// the back of the FIFO.
    pub fn append_char(&mut self, rx: Option<u8>)
        requires
            old(self).wf(),
        ensures
            final(self).wf(),
            final(self).base() == old(self).base(),
            final(self).consumed() == old(self).consumed(),
            match rx {
                Some(b) => final(self).buffer() == old(self).buffer().push(b)
                    && final(self).received() == old(self).received().push(b),
                None => final(self).buffer() == old(self).buffer() && final(self).received()
                    == old(self).received(),
            },
    {
        if let Some(b) = rx {
            self.buffer.push(b);
            self.received = Ghost(self.received@.push(b));
            assert(self.consumed@ + self.buffer@ =~= self.received@);
        }
    }

    fn pop_front(&mut self) -> (r: u8)
        requires
            old(self).wf(),
            old(self).buffer().len() > 0,
        ensures
            final(self).wf(),
            final(self).base() == old(self).base(),
            r == old(self).buffer()[0],
            final(self).buffer() == old(self).buffer().drop_first(),
            final(self).received() == old(self).received(),
            final(self).consumed() == old(self).consumed().push(r),
    {
        let b = self.buffer.remove(0);
        self.consumed = Ghost(self.consumed@.push(b));
        assert(self.consumed@ + self.buffer@ =~= self.received@);
        b
    }

    /// The front byte of the FIFO, or, when it is empty, the line to park on.
    pub fn get(&mut self) -> (r: UartGet)
        requires
            old(self).wf(),
        ensures
            final(self).wf(),
            final(self).base() == old(self).base(),
            final(self).received() == old(self).received(),
            old(self).buffer().len() == 0 ==> r == UartGet::Park(10) && final(self).buffer()
                == old(self).buffer() && final(self).consumed() == old(self).consumed(),
            old(self).buffer().len() > 0 ==> r == UartGet::Byte(old(self).buffer()[0])
                && final(self).buffer() == old(self).buffer().drop_first()
                && final(self).consumed() == old(self).consumed().push(old(self).buffer()[0]),
    {
        if self.buffer.len() > 0 {
            UartGet::Byte(self.pop_front())
        } else {
            UartGet::Park(crate::irq::UART_IRQ)
        }
    }

    /// A parked reader resumes: `rx` is the byte read from the receive
    /// register if data was ready. It joins the back of the FIFO, and the
    /// reader takes the front byte; absent when there is none (the wake was
    /// spurious, or another reader took the byte).
    pub fn resume_get(&mut self, rx: Option<u8>) -> (r: Option<u8>)
        requires
            old(self).wf(),
        ensures
            final(self).wf(),
            final(self).base() == old(self).base(),
            ({
                let q = match rx {
                    Some(b) => old(self).buffer().push(b),
                    None => old(self).buffer(),
                };
                let rcv = match rx {
                    Some(b) => old(self).received().push(b),
                    None => old(self).received(),
                };
                &&& final(self).received() == rcv
                &&& q.len() == 0 ==> r == None::<u8> && final(self).buffer() == q
                    && final(self).consumed() == old(self).consumed()
                &&& q.len() > 0 ==> r == Some(q[0]) && final(self).buffer() == q.drop_first()
                    && final(self).consumed() == old(self).consumed().push(q[0])
            }),
    {
        self.append_char(rx);
        if self.buffer.len() > 0 {
            Some(self.pop_front())
        } else {
            None
        }
    }
}

/// The console UART as the kernel holds it: the driver, with its wait queue
/// registered on the UART line.
pub struct UART {
    pub dev: Ns1665a,
}

impl UART {
    /// Registers the UART line's wait queue (an existing one is kept) and
    /// makes a driver with an empty FIFO; the caller runs `dev.init()`'s
    /// program on the device.
    pub fn new(waits: &mut IrqWait) -> (r: Self)
        requires
            old(waits).wf(),
        ensures
            final(waits).wf(),
            final(waits)@.contains_key(10),
            final(waits)@ == (if old(waits)@.contains_key(10) {
                old(waits)@
            } else {
                old(waits)@.insert(10, Seq::<usize>::empty())
            }),
            r.dev.wf(),
            r.dev.base() == UART_BASE,
            r.dev.buffer() == Seq::<u8>::empty(),
    {
        waits.init_queue(crate::irq::UART_IRQ as usize);
        UART { dev: Ns1665a::new() }
    }
}

/// A console UART as the trap dispatcher uses it.
pub trait UartDevice {
    /// The software receive FIFO, front first.
    spec fn fifo(&self) -> Seq<u8>;

    /// The device's own invariant.
    spec fn well_formed(&self) -> bool;

    /// The write that sends `c`.
    fn put(&self, c: u8) -> (w: UartWrite)
        requires
            self.well_formed(),
        ensures
            w == (UartWrite { addr: UART_BASE, value: c }),
    ;

    /// The front byte of the FIFO, or the line to park on.
    fn get(&mut self) -> (r: UartGet)
        requires
            old(self).well_formed(),
        ensures
            final(self).well_formed(),
            old(self).fifo().len() == 0 ==> r == UartGet::Park(10)
                && final(self).fifo() == old(self).fifo(),
            old(self).fifo().len() > 0 ==> r == UartGet::Byte(old(self).fifo()[0])
                && final(self).fifo() == old(self).fifo().drop_first(),
    ;

    /// Moves the byte read on the receive interrupt, if any, into the FIFO.
    fn append(&mut self, rx: Option<u8>)
        requires
            old(self).well_formed(),
        ensures
            final(self).well_formed(),
            final(self).fifo() == (match rx {
                Some(b) => old(self).fifo().push(b),
                None => old(self).fifo(),
            }),
    ;

    /// Wakes the front waiter of the UART line, if any, onto the ready queue.
    fn handler_interrupt(&self, waits: &mut IrqWait, tm: &mut TaskManager) -> (r: Option<usize>)
        requires
            old(waits).wf(),
        ensures
            final(waits).wf(),
            (final(waits)@, r) == dequeue(old(waits)@, 10),
            final(tm)@ == (match r {
                Some(t) => old(tm)@.push(t),
                None => old(tm)@,
            }),
    ;
}

impl UartDevice for UART {
    open spec fn fifo(&self) -> Seq<u8> {
        self.dev.buffer()
    }

    open spec fn well_formed(&self) -> bool {
        self.dev.wf() && self.dev.base() == UART_BASE
    }

    fn put(&self, c: u8) -> (w: UartWrite) {
        self.dev.put(c)
    }

    fn get(&mut self) -> (r: UartGet) {
        let r = self.dev.get();
        r
    }

    fn append(&mut self, rx: Option<u8>) {
        self.dev.append_char(rx);
    }

    fn handler_interrupt(&self, waits: &mut IrqWait, tm: &mut TaskManager) -> (r: Option<usize>) {
        let r = waits.fetch_irq_task(crate::irq::UART_IRQ as usize);
        if let Some(t) = r {
            tm.add(t);
        }
        r
    }
}


/// Readers never see a byte twice or out of order: what they were handed is
/// a prefix of what the line delivered.
pub proof fn lemma_reads_prefix_of_line(u: &Ns1665a)
    requires
        u.wf(),
    ensures
        u.consumed().len() <= u.received().len(),
        u.received().subrange(0, u.consumed().len() as int) == u.consumed(),
{
    assert(u.received().subrange(0, u.consumed().len() as int) =~= u.consumed());
}

} // verus!
