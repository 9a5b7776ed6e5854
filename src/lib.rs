//! Interrupt and I/O coordination core of a single-hart RISC-V supervisor
//! kernel: the PLIC claim/complete protocol, the per-IRQ wait table, the
//! ready queue, the 16550 UART receive path, the VirtIO DMA frame pool and
//! the trap dispatcher's decisions.

pub mod dispatch;
pub mod dma;
pub mod irq;
pub mod manager;
pub mod plic;
pub mod trap;
pub mod uart;
pub mod wait;
