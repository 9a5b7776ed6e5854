//! The kernel's static set of external interrupt sources.
use vstd::prelude::*;

verus! {

/// IRQ line of the VirtIO block device.
pub const BLOCK_IRQ: u32 = 8;

/// IRQ line of the 16550 UART.
pub const UART_IRQ: u32 = 10;

/// IRQ line of the keyboard device.
pub const KEYBOARD_IRQ: u32 = 5;

/// IRQ line of the mouse device.
pub const MOUSE_IRQ: u32 = 6;

/// True of the IRQ lines that the kernel has a handler for.
pub open spec fn known_irq(irq: u32) -> bool {
    irq == BLOCK_IRQ || irq == UART_IRQ || irq == KEYBOARD_IRQ || irq == MOUSE_IRQ
}

/// Whether the kernel has a handler for `irq`.
pub fn is_known_irq(irq: u32) -> (r: bool)
    ensures
        r == known_irq(irq),
{
    irq == BLOCK_IRQ || irq == UART_IRQ || irq == KEYBOARD_IRQ || irq == MOUSE_IRQ
}

} // verus!
