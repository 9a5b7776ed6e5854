//! The parking primitive and the external-interrupt paths: what a claimed
//! IRQ does to the wait table, the ready queue, the UART FIFO and the PLIC.
use crate::irq::{known_irq, BLOCK_IRQ, KEYBOARD_IRQ, MOUSE_IRQ, UART_IRQ};
use crate::manager::TaskManager;
use crate::plic::{Plic, RegWrite, PLIC_CLAIM};
use crate::uart::Ns1665a;
use crate::wait::{dequeue, enqueue, parked, IrqWait};
use vstd::prelude::*;

verus! {

/// The ready queue after a wake that took `woken` off a wait queue.
pub open spec fn after_wake(ready: Seq<usize>, woken: Option<usize>) -> Seq<usize> {
    match woken {
        Some(t) => ready.push(t),
        None => ready,
    }
}

/// Parks the running task `current` at the back of the queue of `irq` and
/// takes the next ready task to run, if any.
pub fn wait_and_yield(waits: &mut IrqWait, tm: &mut TaskManager, current: usize, irq: usize) -> (r:
    Option<usize>)
    requires
        old(waits).wf(),
        old(waits)@.contains_key(irq),
        !parked(old(waits)@, current),
    ensures
        final(waits).wf(),
        final(waits)@ == enqueue(old(waits)@, irq, current),
        final(waits)@[irq] == old(waits)@[irq].push(current),
        old(tm)@.len() == 0 ==> r == None::<usize> && final(tm)@ == old(tm)@,
        old(tm)@.len() > 0 ==> r == Some(old(tm)@[0]) && final(tm)@ == old(tm)@.drop_first(),
{
    waits.add_irq_task(irq, current);
    tm.fetch()
}

/// Takes the front waiter of `irq`, if any, and puts it at the back of the
/// ready queue. Returns the task woken.
pub fn wake_one_and_schedule(waits: &mut IrqWait, tm: &mut TaskManager, irq: usize) -> (r: Option<
    usize,
>)
    requires
        old(waits).wf(),
    ensures
        final(waits).wf(),
        (final(waits)@, r) == dequeue(old(waits)@, irq),
        final(tm)@ == after_wake(old(tm)@, r),
{
    let r = waits.fetch_irq_task(irq);
    if let Some(t) = r {
        tm.add(t);
    }
    r
}

/// Handles claimed IRQ `irq` on a trap from user mode. The UART's byte `rx`
/// (read if data was ready) goes to its FIFO and one UART waiter wakes; one
/// block waiter wakes on a block IRQ; mouse and keyboard are handed to their
/// drivers by the caller. Every path completes `irq` exactly once: the write
/// returned.
pub fn handle_user_external(
    plic: &mut Plic,
    waits: &mut IrqWait,
    tm: &mut TaskManager,
    uart: &mut Ns1665a,
    irq: u32,
    rx: Option<u8>,
) -> (w: RegWrite)
    requires
        old(plic).wf(),
        old(waits).wf(),
        old(uart).wf(),
        known_irq(irq),
        old(plic).in_service().contains(irq),
    ensures
        final(plic).wf(),
        final(waits).wf(),
        final(uart).wf(),
        w == (RegWrite { addr: PLIC_CLAIM, value: irq }),
        final(plic).in_service() == old(plic).in_service().remove(irq),
        final(plic).threshold() == old(plic).threshold(),
        final(plic).enables() == old(plic).enables(),
        final(plic).priority() == old(plic).priority(),
        irq == UART_IRQ ==> {
            &&& final(uart).buffer() == (match rx {
                Some(b) => old(uart).buffer().push(b),
                None => old(uart).buffer(),
            })
            &&& final(uart).consumed() == old(uart).consumed()
            &&& final(waits)@ == dequeue(old(waits)@, UART_IRQ as usize).0
            &&& final(tm)@ == after_wake(old(tm)@, dequeue(old(waits)@, UART_IRQ as usize).1)
        },
        irq == BLOCK_IRQ ==> {
            &&& *final(uart) == *old(uart)
            &&& final(waits)@ == dequeue(old(waits)@, BLOCK_IRQ as usize).0
            &&& final(tm)@ == after_wake(old(tm)@, dequeue(old(waits)@, BLOCK_IRQ as usize).1)
        },
        irq == MOUSE_IRQ || irq == KEYBOARD_IRQ ==> *final(uart) == *old(uart) && final(waits)@
            == old(waits)@ && final(tm)@ == old(tm)@,
{
    if irq == UART_IRQ {
        uart.append_char(rx);
        let _ = wake_one_and_schedule(waits, tm, UART_IRQ as usize);
    } else if irq == BLOCK_IRQ {
        let _ = wake_one_and_schedule(waits, tm, BLOCK_IRQ as usize);
    }
    plic.complete(irq)
}

/// Handles claimed IRQ `irq` on a trap taken in kernel mode, where no task
/// may be switched: the UART's byte `rx` only joins its FIFO; a block IRQ
/// moves one block waiter to the ready queue; mouse and keyboard are handed
/// to their drivers by the caller. Every path completes `irq` exactly once.
pub fn handle_kernel_external(
    plic: &mut Plic,
    waits: &mut IrqWait,
    tm: &mut TaskManager,
    uart: &mut Ns1665a,
    irq: u32,
    rx: Option<u8>,
) -> (w: RegWrite)
    requires
        old(plic).wf(),
        old(waits).wf(),
        old(uart).wf(),
        known_irq(irq),
        old(plic).in_service().contains(irq),
    ensures
        final(plic).wf(),
        final(waits).wf(),
        final(uart).wf(),
        w == (RegWrite { addr: PLIC_CLAIM, value: irq }),
        final(plic).in_service() == old(plic).in_service().remove(irq),
        final(plic).threshold() == old(plic).threshold(),
        final(plic).enables() == old(plic).enables(),
        final(plic).priority() == old(plic).priority(),
        irq == UART_IRQ ==> {
            &&& final(uart).buffer() == (match rx {
                Some(b) => old(uart).buffer().push(b),
                None => old(uart).buffer(),
            })
            &&& final(uart).consumed() == old(uart).consumed()
            &&& final(waits)@ == old(waits)@
            &&& final(tm)@ == old(tm)@
        },
        irq == BLOCK_IRQ ==> {
            &&& *final(uart) == *old(uart)
            &&& final(waits)@ == dequeue(old(waits)@, BLOCK_IRQ as usize).0
            &&& final(tm)@ == after_wake(old(tm)@, dequeue(old(waits)@, BLOCK_IRQ as usize).1)
        },
        irq == MOUSE_IRQ || irq == KEYBOARD_IRQ ==> *final(uart) == *old(uart) && final(waits)@
            == old(waits)@ && final(tm)@ == old(tm)@,
{
    if irq == UART_IRQ {
        uart.append_char(rx);
    } else if irq == BLOCK_IRQ {
        let _ = wake_one_and_schedule(waits, tm, BLOCK_IRQ as usize);
    }
    plic.complete(irq)
}

/// A task at the head of queue `k` is the one that the next wake on `k` moves
/// to the back of the ready queue.
pub proof fn lemma_head_waiter_made_ready(m: Map<usize, Seq<usize>>, ready: Seq<usize>, k: usize)
    requires
        m.contains_key(k),
        m[k].len() > 0,
    ensures
        dequeue(m, k).1 == Some(m[k][0]),
        after_wake(ready, dequeue(m, k).1) == ready.push(m[k][0]),
        after_wake(ready, dequeue(m, k).1).contains(m[k][0]),
{
    assert(ready.push(m[k][0])[ready.len() as int] == m[k][0]);
}

/// The table after `ts` are parked on `k` one after another.
pub open spec fn enqueue_all(m: Map<usize, Seq<usize>>, k: usize, ts: Seq<usize>) -> Map<
    usize,
    Seq<usize>,
>
    decreases ts.len(),
{
    if ts.len() == 0 {
        m
    } else {
        enqueue(enqueue_all(m, k, ts.drop_last()), k, ts.last())
    }
}

/// The tasks that `n` wakes on `k` take off the table, in order.
pub open spec fn wake_sequence(m: Map<usize, Seq<usize>>, k: usize, n: nat) -> Seq<usize>
    decreases n,
{
    if n == 0 {
        Seq::empty()
    } else {
        match dequeue(m, k).1 {
            Some(t) => seq![t] + wake_sequence(dequeue(m, k).0, k, (n - 1) as nat),
            None => Seq::empty(),
        }
    }
}

proof fn lemma_enqueue_all_queue(m: Map<usize, Seq<usize>>, k: usize, ts: Seq<usize>)
    requires
        m.contains_key(k),
    ensures
        enqueue_all(m, k, ts).contains_key(k),
        enqueue_all(m, k, ts)[k] == m[k] + ts,
    decreases ts.len(),
{
    if ts.len() > 0 {
        lemma_enqueue_all_queue(m, k, ts.drop_last());
        assert(m[k] + ts.drop_last() + seq![ts.last()] =~= m[k] + ts);
        assert((m[k] + ts.drop_last()).push(ts.last()) =~= m[k] + ts);
    } else {
        assert(m[k] + ts =~= m[k]);
    }
}

proof fn lemma_wake_sequence_prefix(m: Map<usize, Seq<usize>>, k: usize, n: nat)
    requires
        m.contains_key(k),
        n <= m[k].len(),
    ensures
        wake_sequence(m, k, n) == m[k].subrange(0, n as int),
    decreases n,
{
    if n > 0 {
        let m2 = dequeue(m, k).0;
        lemma_wake_sequence_prefix(m2, k, (n - 1) as nat);
        assert(seq![m[k][0]] + m[k].drop_first().subrange(0, n - 1) =~= m[k].subrange(
            0,
            n as int,
        ));
    } else {
        assert(m[k].subrange(0, 0) =~= Seq::<usize>::empty());
    }
}

/// Waiters leave a line's queue in the order they joined it: after `ts` are
/// parked on `k`, the wakes on `k` hand out the tasks already waiting there
/// and then `ts`, in order.
pub proof fn lemma_wake_order_is_park_order(m: Map<usize, Seq<usize>>, k: usize, ts: Seq<usize>)
    requires
        m.contains_key(k),
    ensures
        wake_sequence(enqueue_all(m, k, ts), k, m[k].len() + ts.len()) == m[k] + ts,
{
    lemma_enqueue_all_queue(m, k, ts);
    let m2 = enqueue_all(m, k, ts);
    lemma_wake_sequence_prefix(m2, k, m[k].len() + ts.len());
    assert(m2[k].subrange(0, (m[k].len() + ts.len()) as int) =~= m[k] + ts);
}

} // verus!
