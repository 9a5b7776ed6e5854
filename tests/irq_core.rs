use os_irq::dispatch::{
    handle_kernel_external, handle_user_external, wait_and_yield, wake_one_and_schedule,
};
use os_irq::dma::{dealloc_frames, frames_contiguous, virtio_phys_to_virt, DmaPool, PAGE_SIZE};
use os_irq::irq::{is_known_irq, BLOCK_IRQ, KEYBOARD_IRQ, MOUSE_IRQ, UART_IRQ};
use os_irq::manager::TaskManager;
use os_irq::plic::{
    claim_to_irq, enable_mask, level_value, priority_addr, Plic, RegWrite, PLIC_CLAIM,
    PLIC_INT_ENABLE, PLIC_PRIORITY, PLIC_THRESHOLD,
};
use os_irq::trap::{
    decode_cause, finish_syscall, is_memory_fault, kernel_trap_action, restore_entry_va,
    user_trap_action,
    ExceptionCause, InterruptCause, KernelTrapAction, TrapCause, TrapContext, UserTrapAction,
    EXIT_ILLEGAL_INSTRUCTION, EXIT_MEMORY_FAULT,
};
use os_irq::uart::{data_ready, Ns1665a, UartDevice, UartGet, UartWrite, UART, UART_BASE};
use os_irq::wait::IrqWait;

fn context() -> TrapContext {
    let mut x = [0usize; 32];
    for (i, r) in x.iter_mut().enumerate() {
        *r = 100 + i;
    }
    TrapContext { x, sstatus: 7, sepc: 0x1000, kernel_satp: 9, kernel_sp: 11, trap_handler: 13 }
}

fn booted() -> (Plic, IrqWait, TaskManager, UART) {
    let mut plic = Plic::new();
    let writes = plic.plic_init();
    assert_eq!(writes.len(), 5);
    let mut waits = IrqWait::new();
    waits.init_queue(BLOCK_IRQ as usize);
    let uart = UART::new(&mut waits);
    (plic, waits, TaskManager::new(), uart)
}

#[test]
fn init_queue_is_idempotent() {
    let mut w = IrqWait::new();
    w.init_queue(10);
    w.add_irq_task(10, 1);
    w.init_queue(10);
    assert_eq!(w.fetch_irq_task(10), Some(1));
    assert_eq!(w.fetch_irq_task(10), None);
}

#[test]
fn add_to_missing_queue_does_nothing() {
    let mut w = IrqWait::new();
    w.add_irq_task(3, 1);
    assert_eq!(w.fetch_irq_task(3), None);
    w.init_queue(3);
    assert_eq!(w.fetch_irq_task(3), None);
}

#[test]
fn wake_order_equals_park_order() {
    let mut w = IrqWait::new();
    w.init_queue(8);
    w.init_queue(10);
    w.add_irq_task(8, 5);
    w.add_irq_task(10, 6);
    w.add_irq_task(8, 7);
    w.add_irq_task(8, 9);
    assert_eq!(w.fetch_irq_task(8), Some(5));
    assert_eq!(w.fetch_irq_task(8), Some(7));
    assert_eq!(w.fetch_irq_task(10), Some(6));
    assert_eq!(w.fetch_irq_task(8), Some(9));
    assert_eq!(w.fetch_irq_task(8), None);
    assert_eq!(w.fetch_irq_task(10), None);
}

#[test]
fn each_parked_task_woken_once() {
    let mut w = IrqWait::new();
    let mut tm = TaskManager::new();
    w.init_queue(8);
    w.init_queue(10);
    assert_eq!(wait_and_yield(&mut w, &mut tm, 1, 8), None);
    assert_eq!(wait_and_yield(&mut w, &mut tm, 2, 10), None);
    assert_eq!(wake_one_and_schedule(&mut w, &mut tm, 10), Some(2));
    assert_eq!(wake_one_and_schedule(&mut w, &mut tm, 10), None);
    assert_eq!(wake_one_and_schedule(&mut w, &mut tm, 8), Some(1));
    assert_eq!(wake_one_and_schedule(&mut w, &mut tm, 8), None);
    assert_eq!(tm.fetch(), Some(2));
    assert_eq!(tm.fetch(), Some(1));
    assert_eq!(tm.fetch(), None);
}

#[test]
fn head_waiter_made_ready_on_irq() {
    let mut w = IrqWait::new();
    let mut tm = TaskManager::new();
    tm.add(40);
    w.init_queue(8);
    assert_eq!(wait_and_yield(&mut w, &mut tm, 3, 8), Some(40));
    assert_eq!(tm.len(), 0);
    assert_eq!(wake_one_and_schedule(&mut w, &mut tm, 8), Some(3));
    assert_eq!(tm.fetch(), Some(3));
}

#[test]
fn ready_queue_front_and_back() {
    let mut tm = TaskManager::new();
    tm.add(1);
    tm.add(2);
    tm.add_front(0);
    assert_eq!(tm.len(), 3);
    assert_eq!(tm.fetch(), Some(0));
    assert_eq!(tm.fetch(), Some(1));
    assert_eq!(tm.fetch(), Some(2));
    assert_eq!(tm.fetch(), None);
}

#[test]
fn plic_register_values() {
    assert_eq!(claim_to_irq(0), None);
    assert_eq!(claim_to_irq(10), Some(10));
    assert_eq!(level_value(0x0f), 7);
    assert_eq!(level_value(1), 1);
    assert_eq!(enable_mask(0x100, 10), 0x500);
    assert_eq!(priority_addr(10), 0x0c00_0028);
}

#[test]
fn plic_init_program() {
    let mut plic = Plic::new();
    let ws = plic.plic_init();
    assert_eq!(
        ws,
        vec![
            RegWrite { addr: PLIC_THRESHOLD, value: 0 },
            RegWrite { addr: PLIC_INT_ENABLE, value: 0x100 },
            RegWrite { addr: PLIC_PRIORITY + 32, value: 1 },
            RegWrite { addr: PLIC_INT_ENABLE, value: 0x500 },
            RegWrite { addr: PLIC_PRIORITY + 40, value: 1 },
        ]
    );
    assert_eq!(plic.set_threshold(9), RegWrite { addr: PLIC_THRESHOLD, value: 1 });
}

#[test]
fn claim_then_one_complete() {
    let mut plic = Plic::new();
    assert_eq!(plic.next(0), None);
    assert_eq!(plic.next(8), Some(8));
    assert!(plic.is_in_service(8));
    assert!(!plic.is_in_service(10));
    assert_eq!(plic.complete(8), RegWrite { addr: PLIC_CLAIM, value: 8 });
    assert!(!plic.is_in_service(8));
    assert_eq!(plic.next(8), Some(8));
}

#[test]
fn known_irqs() {
    assert!(is_known_irq(UART_IRQ));
    assert!(is_known_irq(BLOCK_IRQ));
    assert!(is_known_irq(KEYBOARD_IRQ));
    assert!(is_known_irq(MOUSE_IRQ));
    assert!(!is_known_irq(7));
    assert!(!is_known_irq(0));
}

#[test]
fn uart_init_program() {
    let u = Ns1665a::new();
    let ws = u.init();
    assert_eq!(
        ws,
        vec![
            UartWrite { addr: UART_BASE + 3, value: 3 },
            UartWrite { addr: UART_BASE + 2, value: 1 },
            UartWrite { addr: UART_BASE + 1, value: 1 },
            UartWrite { addr: UART_BASE + 3, value: 0x83 },
            UartWrite { addr: UART_BASE, value: 0x50 },
            UartWrite { addr: UART_BASE + 1, value: 0x02 },
            UartWrite { addr: UART_BASE + 3, value: 3 },
        ]
    );
    assert_eq!(u.put(b'x'), UartWrite { addr: UART_BASE, value: b'x' });
}

#[test]
fn data_ready_bit() {
    assert!(data_ready(0x61));
    assert!(data_ready(1));
    assert!(!data_ready(0x60));
    assert!(!data_ready(0));
}

#[test]
fn uart_reads_keep_line_order() {
    let mut u = Ns1665a::new();
    u.append_char(Some(1));
    u.append_char(None);
    u.append_char(Some(2));
    assert_eq!(u.get(), UartGet::Byte(1));
    assert_eq!(u.resume_get(Some(3)), Some(2));
    assert_eq!(u.get(), UartGet::Byte(3));
    assert_eq!(u.get(), UartGet::Park(10));
    assert_eq!(u.resume_get(None), None);
}

#[test]
fn uart_get_on_empty_parks_and_one_byte_wakes_one() {
    let (mut plic, mut waits, mut tm, mut uart) = booted();
    assert_eq!(uart.get(), UartGet::Park(UART_IRQ));
    wait_and_yield(&mut waits, &mut tm, 1, UART_IRQ as usize);
    assert_eq!(uart.get(), UartGet::Park(UART_IRQ));
    wait_and_yield(&mut waits, &mut tm, 2, UART_IRQ as usize);
    assert_eq!(plic.next(UART_IRQ), Some(UART_IRQ));
    handle_user_external(&mut plic, &mut waits, &mut tm, &mut uart.dev, UART_IRQ, Some(b'a'));
    assert_eq!(tm.fetch(), Some(1));
    assert_eq!(tm.fetch(), None);
}

#[test]
fn boot_uart_get_parks_then_returns_byte() {
    let (mut plic, mut waits, mut tm, mut uart) = booted();
    assert_eq!(uart.get(), UartGet::Park(10));
    assert_eq!(wait_and_yield(&mut waits, &mut tm, 1, 10), None);
    let irq = plic.next(10).unwrap();
    assert_eq!(irq, 10);
    let w = handle_kernel_external(&mut plic, &mut waits, &mut tm, &mut uart.dev, irq, Some(0x41));
    assert_eq!(w, RegWrite { addr: PLIC_CLAIM, value: 10 });
    assert!(!plic.is_in_service(10));
    assert_eq!(uart.handler_interrupt(&mut waits, &mut tm), Some(1));
    assert_eq!(tm.fetch(), Some(1));
    assert_eq!(uart.dev.resume_get(None), Some(0x41));
}

#[test]
fn two_parked_readers_get_bytes_in_order() {
    let (mut plic, mut waits, mut tm, mut uart) = booted();
    assert_eq!(uart.get(), UartGet::Park(10));
    wait_and_yield(&mut waits, &mut tm, 1, 10);
    assert_eq!(uart.get(), UartGet::Park(10));
    wait_and_yield(&mut waits, &mut tm, 2, 10);
    assert_eq!(plic.next(10), Some(10));
    handle_user_external(&mut plic, &mut waits, &mut tm, &mut uart.dev, 10, Some(0xb1));
    assert_eq!(plic.next(10), Some(10));
    handle_user_external(&mut plic, &mut waits, &mut tm, &mut uart.dev, 10, Some(0xb2));
    assert_eq!(tm.fetch(), Some(1));
    assert_eq!(uart.dev.resume_get(None), Some(0xb1));
    assert_eq!(tm.fetch(), Some(2));
    assert_eq!(uart.dev.resume_get(None), Some(0xb2));
}

#[test]
fn block_irq_completes_and_wakes() {
    let (mut plic, mut waits, mut tm, mut uart) = booted();
    wait_and_yield(&mut waits, &mut tm, 4, BLOCK_IRQ as usize);
    assert_eq!(plic.next(BLOCK_IRQ), Some(BLOCK_IRQ));
    let w = handle_user_external(&mut plic, &mut waits, &mut tm, &mut uart.dev, BLOCK_IRQ, None);
    assert_eq!(w, RegWrite { addr: PLIC_CLAIM, value: 8 });
    assert_eq!(tm.fetch(), Some(4));
    wait_and_yield(&mut waits, &mut tm, 4, BLOCK_IRQ as usize);
    assert_eq!(plic.next(BLOCK_IRQ), Some(BLOCK_IRQ));
    handle_kernel_external(&mut plic, &mut waits, &mut tm, &mut uart.dev, BLOCK_IRQ, None);
    assert_eq!(tm.fetch(), Some(4));
}

#[test]
fn mouse_and_keyboard_only_complete() {
    let (mut plic, mut waits, mut tm, mut uart) = booted();
    wait_and_yield(&mut waits, &mut tm, 4, BLOCK_IRQ as usize);
    assert_eq!(plic.next(MOUSE_IRQ), Some(MOUSE_IRQ));
    let w = handle_user_external(&mut plic, &mut waits, &mut tm, &mut uart.dev, MOUSE_IRQ, None);
    assert_eq!(w, RegWrite { addr: PLIC_CLAIM, value: 6 });
    assert_eq!(plic.next(KEYBOARD_IRQ), Some(KEYBOARD_IRQ));
    let w = handle_kernel_external(&mut plic, &mut waits, &mut tm, &mut uart.dev, KEYBOARD_IRQ, None);
    assert_eq!(w, RegWrite { addr: PLIC_CLAIM, value: 5 });
    assert_eq!(tm.fetch(), None);
    assert_eq!(waits.fetch_irq_task(BLOCK_IRQ as usize), Some(4));
}

#[test]
fn dma_alloc_then_dealloc() {
    let mut pool = DmaPool::new();
    let other = pool.virtio_dma_alloc(vec![7]);
    assert_eq!(other, 7 * PAGE_SIZE);
    let frames = vec![0x80, 0x81, 0x82, 0x83];
    assert!(frames_contiguous(&frames));
    let pa = pool.virtio_dma_alloc(frames);
    assert_eq!(pa, 0x80 * 4096);
    assert_eq!(pool.virtio_dma_dealloc(pa, 4), 0);
    assert_eq!(dealloc_frames(pa, 4), vec![0x80, 0x81, 0x82, 0x83]);
    assert_eq!(pool.virtio_dma_dealloc(7 * PAGE_SIZE, 1), 0);
    assert_eq!(pool.virtio_dma_alloc(vec![]), 0);
    assert_eq!(pool.virtio_dma_alloc(vec![1, 2]), 4096);
    assert_eq!(pool.virtio_dma_dealloc(4096, 1), 0);
    assert_eq!(pool.virtio_dma_dealloc(2 * 4096, 1), 0);
}

#[test]
fn dma_contiguity() {
    assert!(frames_contiguous(&vec![]));
    assert!(frames_contiguous(&vec![5]));
    assert!(!frames_contiguous(&vec![5, 7]));
    assert!(!frames_contiguous(&vec![5, 6, 6]));
    assert_eq!(virtio_phys_to_virt(0x8020_0000), 0x8020_0000);
}

#[test]
fn decode_scause_codes() {
    assert_eq!(decode_cause(false, 15), TrapCause::Exception(ExceptionCause::StorePageFault));
    assert_eq!(decode_cause(false, 8), TrapCause::Exception(ExceptionCause::UserEnvCall));
    assert_eq!(decode_cause(false, 2), TrapCause::Exception(ExceptionCause::IllegalInstruction));
    assert_eq!(decode_cause(false, 13), TrapCause::Exception(ExceptionCause::LoadPageFault));
    assert_eq!(decode_cause(false, 4), TrapCause::Exception(ExceptionCause::Unknown));
    assert_eq!(decode_cause(true, 5), TrapCause::Interrupt(InterruptCause::SupervisorTimer));
    assert_eq!(decode_cause(true, 9), TrapCause::Interrupt(InterruptCause::SupervisorExternal));
    assert_eq!(decode_cause(true, 2), TrapCause::Interrupt(InterruptCause::Unknown));
}

#[test]
fn null_store_fault_exits_task() {
    let cause = decode_cause(false, 15);
    assert!(is_memory_fault(cause));
    let mut tm = TaskManager::new();
    tm.add(2);
    let mut cx = context();
    assert_eq!(user_trap_action(cause, &mut cx), UserTrapAction::Exit(EXIT_MEMORY_FAULT));
    assert_eq!(EXIT_MEMORY_FAULT, -2);
    assert_eq!(cx.sepc, 0x1000);
    assert_eq!(cx.x, context().x);
    assert_eq!(tm.fetch(), Some(2));
}

#[test]
fn illegal_instruction_exits_task() {
    let mut cx = context();
    let a = user_trap_action(decode_cause(false, 2), &mut cx);
    assert_eq!(a, UserTrapAction::Exit(EXIT_ILLEGAL_INSTRUCTION));
    assert_eq!(EXIT_ILLEGAL_INSTRUCTION, -3);
    assert!(!is_memory_fault(decode_cause(false, 2)));
}

#[test]
fn timer_in_user_mode_preempts() {
    let mut tm = TaskManager::new();
    tm.add(2);
    let mut cx = context();
    let a = user_trap_action(decode_cause(true, 5), &mut cx);
    assert_eq!(a, UserTrapAction::Preempt);
    assert_eq!(cx.sepc, 0x1000);
    assert_eq!(cx.x, context().x);
    tm.add(1);
    assert_eq!(tm.fetch(), Some(2));
    assert_eq!(tm.fetch(), Some(1));
}

#[test]
fn env_call_reads_syscall_and_writes_result() {
    let mut cx = context();
    let a = user_trap_action(decode_cause(false, 8), &mut cx);
    assert_eq!(a, UserTrapAction::Syscall { id: 117, a0: 110, a1: 111, a2: 112 });
    assert_eq!(cx.sepc, 0x1004);
    let mut fresh = context();
    finish_syscall(&mut fresh, -1);
    assert_eq!(fresh.x[10], usize::MAX);
    assert_eq!(fresh.x[11], 111);
    assert_eq!(fresh.sepc, 0x1000);
}

#[test]
fn other_traps() {
    let mut cx = context();
    assert_eq!(user_trap_action(decode_cause(true, 9), &mut cx), UserTrapAction::External);
    assert_eq!(user_trap_action(decode_cause(false, 3), &mut cx), UserTrapAction::Fatal);
    assert_eq!(kernel_trap_action(decode_cause(true, 5)), KernelTrapAction::Timer);
    assert_eq!(kernel_trap_action(decode_cause(true, 9)), KernelTrapAction::External);
    assert_eq!(kernel_trap_action(decode_cause(false, 13)), KernelTrapAction::Fatal);
}

#[test]
fn uart_device_trait_paths() {
    let mut waits = IrqWait::new();
    let mut tm = TaskManager::new();
    let mut u = UART::new(&mut waits);
    assert_eq!(u.put(b'k'), UartWrite { addr: UART_BASE, value: b'k' });
    assert_eq!(u.get(), UartGet::Park(UART_IRQ));
    u.append(Some(9));
    u.append(None);
    assert_eq!(u.handler_interrupt(&mut waits, &mut tm), None);
    assert_eq!(u.get(), UartGet::Byte(9));
    assert_eq!(u.get(), UartGet::Park(UART_IRQ));
}

#[test]
fn parked_and_queue_queries() {
    let mut w = IrqWait::new();
    assert!(!w.has_queue(8));
    w.init_queue(8);
    w.init_queue(10);
    assert!(w.has_queue(8));
    assert!(!w.has_queue(5));
    assert!(!w.is_parked(3));
    w.add_irq_task(10, 3);
    w.add_irq_task(10, 4);
    assert!(w.is_parked(3));
    assert!(w.is_parked(4));
    assert_eq!(w.fetch_irq_task(10), Some(3));
    assert!(!w.is_parked(3));
    assert!(w.is_parked(4));
}

#[test]
fn restore_entry_in_trampoline() {
    let trampoline = usize::MAX - 4096 + 1;
    assert_eq!(restore_entry_va(0x8020_0000, 0x8020_0090, trampoline), trampoline + 0x90);
    assert_eq!(restore_entry_va(0x1000, 0x1000, trampoline), trampoline);
}
