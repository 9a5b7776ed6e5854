//! The platform-level interrupt controller of the QEMU virt machine, hart 0
//! supervisor context: register layout and the claim/complete protocol.
use vstd::prelude::*;

verus! {

/// Base of the per-source priority registers, 4 bytes per source.
pub const PLIC_PRIORITY: usize = 0x0c00_0000;

/// Enable bits of sources 0..32 for hart 0, supervisor mode.
pub const PLIC_INT_ENABLE: usize = 0x0c00_2080;

/// Priority threshold of hart 0, supervisor mode.
pub const PLIC_THRESHOLD: usize = 0x0c20_1000;

/// Claim/complete register of hart 0, supervisor mode.
pub const PLIC_CLAIM: usize = 0x0c20_1004;

/// Number of sources that the enable word at `PLIC_INT_ENABLE` covers.
pub const NUM_SOURCES: u32 = 32;

/// A 32-bit register write for the caller to perform, in order.
#[derive(Clone, Copy, Debug, PartialEq, Eq, Structural)]
pub struct RegWrite {
    pub addr: usize,
    pub value: u32,
}

/// Reads a raw claim value: 0 means nothing is pending.
pub open spec fn claim_result(raw: u32) -> Option<u32> {
    if raw == 0 {
        None
    } else {
        Some(raw)
    }
}

/// What a raw claim value says: absent for 0, else the claimed source.
pub fn claim_to_irq(raw: u32) -> (r: Option<u32>)
    ensures
        r == claim_result(raw),
{
    if raw == 0 {
        None
    } else {
        Some(raw)
    }
}

/// Address of the priority register of source `id`.
pub fn priority_addr(id: u32) -> (r: usize)
    requires
        id < NUM_SOURCES,
    ensures
        r == PLIC_PRIORITY + 4 * id,
{
    PLIC_PRIORITY + 4 * (id as usize)
}

/// A threshold or priority keeps its low three bits.
pub fn level_value(level: u8) -> (r: u32)
    ensures
        r == level % 8,
{
    let r = (level & 7u8) as u32;
    assert((level & 7u8) == level % 8) by (bit_vector);
    r
}

/// The enable word with the bit of source `id` set.
pub fn enable_mask(enables: u32, id: u32) -> (r: u32)
    requires
        id < NUM_SOURCES,
    ensures
        r == enables | (1u32 << id),
{
    enables | (1u32 << id)
}

/// The PLIC as this hart sees it: the values last written to its threshold,
/// enable and priority registers, and the sources claimed and not yet
/// completed.
pub struct Plic {
    threshold: u32,
    enables: u32,
    priority: Vec<u32>,
    in_service: Vec<bool>,
}

/// The sources in service after a claim that read `raw`.
pub open spec fn after_claim(s: Set<u32>, raw: u32) -> Set<u32> {
    if raw == 0 {
        s
    } else {
        s.insert(raw)
    }
}

impl Plic {
    /// Value of the threshold register.
    pub closed spec fn threshold(&self) -> u32 {
        self.threshold
    }

    /// Value of the enable word.
    pub closed spec fn enables(&self) -> u32 {
        self.enables
    }

    /// Value of each source's priority register.
    pub closed spec fn priority(&self) -> Seq<u32> {
        self.priority@
    }

    /// Sources claimed and not yet completed.
    pub closed spec fn in_service(&self) -> Set<u32> {
        Set::new(|i: u32| i < NUM_SOURCES && self.in_service@[i as int])
    }

    pub closed spec fn wf(&self) -> bool {
        self.priority@.len() == NUM_SOURCES && self.in_service@.len() == NUM_SOURCES
    }

    /// A controller at reset: every register 0, nothing in service.
    pub fn new() -> (r: Self)
        ensures
            r.wf(),
            r.threshold() == 0,
            r.enables() == 0,
            r.priority() == Seq::new(NUM_SOURCES as nat, |i: int| 0u32),
            r.in_service() == Set::<u32>::empty(),
    {
        let mut priority: Vec<u32> = Vec::new();
        let mut in_service: Vec<bool> = Vec::new();
        let mut i: u32 = 0;
        while i < NUM_SOURCES
            invariant
                i <= NUM_SOURCES,
                priority@ == Seq::new(i as nat, |j: int| 0u32),
                in_service@ == Seq::new(i as nat, |j: int| false),
            decreases NUM_SOURCES - i,
        {
            priority.push(0);
            in_service.push(false);
            i = i + 1;
            assert(priority@ =~= Seq::new(i as nat, |j: int| 0u32));
            assert(in_service@ =~= Seq::new(i as nat, |j: int| false));
        }
        let r = Plic { threshold: 0, enables: 0, priority, in_service };
        assert(r.in_service() =~= Set::<u32>::empty());
        r
    }

    /// Sets the priority threshold to the low three bits of `tsh`.
    pub fn set_threshold(&mut self, tsh: u8) -> (w: RegWrite)
        requires
            old(self).wf(),
        ensures
            final(self).wf(),
            final(self).threshold() == tsh % 8,
            final(self).enables() == old(self).enables(),
            final(self).priority() == old(self).priority(),
            final(self).in_service() == old(self).in_service(),
            w == (RegWrite { addr: PLIC_THRESHOLD, value: (tsh % 8) as u32 }),
    {
        let v = level_value(tsh);
        self.threshold = v;
        RegWrite { addr: PLIC_THRESHOLD, value: v }
    }

    /// Enables source `id`.
    pub fn enable(&mut self, id: u32) -> (w: RegWrite)
        requires
            old(self).wf(),
            id < NUM_SOURCES,
        ensures
            final(self).wf(),
            final(self).threshold() == old(self).threshold(),
            final(self).enables() == old(self).enables() | (1u32 << id),
            final(self).priority() == old(self).priority(),
            final(self).in_service() == old(self).in_service(),
            w == (RegWrite { addr: PLIC_INT_ENABLE, value: final(self).enables() }),
    {
        let v = enable_mask(self.enables, id);
        self.enables = v;
        RegWrite { addr: PLIC_INT_ENABLE, value: v }
    }

    /// Sets the priority of source `id` to the low three bits of `prio`.
    pub fn set_priority(&mut self, id: u32, prio: u8) -> (w: RegWrite)
        requires
            old(self).wf(),
            id < NUM_SOURCES,
        ensures
            final(self).wf(),
            final(self).threshold() == old(self).threshold(),
            final(self).enables() == old(self).enables(),
            final(self).priority() == old(self).priority().update(id as int, (prio % 8) as u32),
            final(self).in_service() == old(self).in_service(),
            w == (RegWrite { addr: (PLIC_PRIORITY + 4 * id) as usize, value: (prio % 8) as u32 }),
    {
        let v = level_value(prio);
        self.priority.set(id as usize, v);
        RegWrite { addr: priority_addr(id), value: v }
    }

    /// Brings the controller up for the block device and the UART: threshold
    /// 0, and each of the two sources enabled with priority 1. Returns the
    /// register writes in the order they are to be made.
    pub fn plic_init(&mut self) -> (ws: Vec<RegWrite>)
        requires
            old(self).wf(),
        ensures
            final(self).wf(),
            final(self).threshold() == 0,
            final(self).enables() == old(self).enables() | (1u32 << 8u32) | (1u32 << 10u32),
            final(self).priority() == old(self).priority().update(8, 1).update(10, 1),
            final(self).in_service() == old(self).in_service(),
            ws@ == seq![
                RegWrite { addr: PLIC_THRESHOLD, value: 0 },
                RegWrite { addr: PLIC_INT_ENABLE, value: old(self).enables() | (1u32 << 8u32) },
                RegWrite { addr: (PLIC_PRIORITY + 32) as usize, value: 1 },
                RegWrite { addr: PLIC_INT_ENABLE, value: final(self).enables() },
                RegWrite { addr: (PLIC_PRIORITY + 40) as usize, value: 1 },
            ],
    {
        let mut ws: Vec<RegWrite> = Vec::new();
        ws.push(self.set_threshold(0));
        ws.push(self.enable(8));
        ws.push(self.set_priority(8, 1));
        ws.push(self.enable(10));
        ws.push(self.set_priority(10, 1));
        ws
    }

    /// Records a claim that read `raw` from the claim register: absent for
    /// 0, else the source, which is then in service until completed. The
    /// controller never hands out a source that is still in service.
    pub fn next(&mut self, raw: u32) -> (r: Option<u32>)
        requires
            old(self).wf(),
            raw < NUM_SOURCES,
            !old(self).in_service().contains(raw),
        ensures
            final(self).wf(),
            r == claim_result(raw),
            final(self).in_service() == after_claim(old(self).in_service(), raw),
            final(self).threshold() == old(self).threshold(),
            final(self).enables() == old(self).enables(),
            final(self).priority() == old(self).priority(),
    {
        if raw != 0 {
            self.in_service.set(raw as usize, true);
            assert(self.in_service() =~= old(self).in_service().insert(raw));
        } else {
            assert(self.in_service() =~= old(self).in_service());
        }
        claim_to_irq(raw)
    }

    /// Whether source `id` is claimed and not yet completed.
    pub fn is_in_service(&self, id: u32) -> (r: bool)
        requires
            self.wf(),
        ensures
            r == self.in_service().contains(id),
    {
        id < NUM_SOURCES && self.in_service[id as usize]
    }

    /// Completes source `id`, which re-arms it; the write hands it back to
    /// the claim register.
    pub fn complete(&mut self, id: u32) -> (w: RegWrite)
        requires
            old(self).wf(),
            old(self).in_service().contains(id),
        ensures
            final(self).wf(),
            final(self).in_service() == old(self).in_service().remove(id),
            final(self).threshold() == old(self).threshold(),
            final(self).enables() == old(self).enables(),
            final(self).priority() == old(self).priority(),
            w == (RegWrite { addr: PLIC_CLAIM, value: id }),
    {
        self.in_service.set(id as usize, false);
        assert(self.in_service() =~= old(self).in_service().remove(id));
        RegWrite { addr: PLIC_CLAIM, value: id }
    }
}

/// A claim of a source followed by its one completion leaves the set of
/// sources in service as it was, and a second completion of the same claim
/// is not possible: the source is no longer in service.
pub proof fn lemma_claim_complete_paired(s: Set<u32>, irq: u32)
    requires
        irq != 0,
        !s.contains(irq),
    ensures
        after_claim(s, irq).contains(irq),
        after_claim(s, irq).remove(irq) == s,
        !after_claim(s, irq).remove(irq).contains(irq),
{
    assert(after_claim(s, irq).remove(irq) =~= s);
}

} // verus!
