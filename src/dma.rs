//! The pool of physical frames handed to the VirtIO device for its queues.
use vstd::prelude::*;

verus! {

/// Bytes per physical frame.
pub const PAGE_SIZE: usize = 4096;

/// `frames` is a run of consecutive physical page numbers.
pub open spec fn contiguous(frames: Seq<usize>) -> bool {
    forall|i: int| 0 <= i < frames.len() ==> #[trigger] frames[i] == frames[0] + i
}

/// Whether `frames` is a run of consecutive physical page numbers.
pub fn frames_contiguous(frames: &Vec<usize>) -> (r: bool)
    ensures
        r == contiguous(frames@),
{
    let n = frames.len();
    let mut i: usize = 0;
    while i < n
        invariant
            n == frames@.len(),
            i <= n,
            forall|j: int| 0 <= j < i ==> #[trigger] frames@[j] == frames@[0] + j,
        decreases n - i,
    {
        if frames[i] as u128 != frames[0] as u128 + i as u128 {
            return false;
        }
        i = i + 1;
    }
    true
}

/// `ppn` lies in the run of `pages` frames that starts at `base`.
pub open spec fn in_run(ppn: usize, base: int, pages: int) -> bool {
    base <= ppn < base + pages
}

/// The frames, oldest first, that the device holds for its queues.
pub struct DmaPool {
    frames: Vec<usize>,
}

impl DmaPool {
    /// The pool's frames, in the order they were allocated.
    pub closed spec fn view(&self) -> Seq<usize> {
        self.frames@
    }

    /// An empty pool.
    pub fn new() -> (r: Self)
        ensures
            r@ == Seq::<usize>::empty(),
    {
        DmaPool { frames: Vec::new() }
    }

    /// Takes into the pool the frames that the frame allocator handed out for
    /// one request, which must be contiguous, and returns the physical address
    /// of the first; 0 for a request of no pages.
    pub fn virtio_dma_alloc(&mut self, frames: Vec<usize>) -> (pa: usize)
        requires
            contiguous(frames@),
            frames@.len() > 0 ==> frames@[0] * PAGE_SIZE <= usize::MAX,
        ensures
            final(self)@ == old(self)@ + frames@,
            frames@.len() == 0 ==> pa == 0,
            frames@.len() > 0 ==> pa == frames@[0] * PAGE_SIZE,
    {
        let n = frames.len();
        let mut pa: usize = 0;
        if n > 0 {
            pa = frames[0] * PAGE_SIZE;
        }
        let mut i: usize = 0;
        while i < n
            invariant
                n == frames@.len(),
                i <= n,
                self@ == old(self)@ + frames@.subrange(0, i as int),
            decreases n - i,
        {
            self.frames.push(frames[i]);
            i = i + 1;
            assert(self@ =~= old(self)@ + frames@.subrange(0, i as int));
        }
        assert(frames@.subrange(0, n as int) =~= frames@);
        pa
    }

    /// Releases the `pages` frames that start at physical address `pa`: they
    /// leave the pool, and every other frame stays in its order. Returns 0.
    pub fn virtio_dma_dealloc(&mut self, pa: usize, pages: usize) -> (r: i32)
        ensures
            r == 0,
            final(self)@ == old(self)@.filter(
                |f: usize| !in_run(f, (pa / PAGE_SIZE) as int, pages as int),
            ),
    {
        let base = pa / PAGE_SIZE;
        let ghost keep = |f: usize| !in_run(f, base as int, pages as int);
        let mut kept: Vec<usize> = Vec::new();
        let n = self.frames.len();
        let mut i: usize = 0;
        while i < n
            invariant
                n == self@.len(),
                self@ == old(self)@,
                i <= n,
                base == pa / PAGE_SIZE,
                keep == (|f: usize| !in_run(f, base as int, pages as int)),
                kept@ == self@.subrange(0, i as int).filter(keep),
            decreases n - i,
        {
            let f = self.frames[i];
            assert(self@.subrange(0, i + 1).drop_last() =~= self@.subrange(0, i as int));
            reveal_with_fuel(Seq::filter, 1);
            if !(base <= f && (f as u128) < base as u128 + pages as u128) {
                kept.push(f);
            }
            i = i + 1;
        }
        assert(self@.subrange(0, n as int) =~= self@);
        self.frames = kept;
        0
    }
}

/// The page numbers of the run of `pages` frames at physical address `pa`,
/// for the frame allocator to take back.
pub fn dealloc_frames(pa: usize, pages: usize) -> (r: Vec<usize>)
    requires
        pa / PAGE_SIZE + pages <= usize::MAX,
    ensures
        r@.len() == pages,
        forall|i: int| 0 <= i < pages ==> #[trigger] r@[i] == pa / PAGE_SIZE + i,
{
    let base = pa / PAGE_SIZE;
    let mut r: Vec<usize> = Vec::new();
    let mut i: usize = 0;
    while i < pages
        invariant
            i <= pages,
            base == pa / PAGE_SIZE,
            base + pages <= usize::MAX,
            r@.len() == i,
            forall|j: int| 0 <= j < i ==> #[trigger] r@[j] == base + j,
        decreases pages - i,
    {
        r.push(base + i);
        i = i + 1;
    }
    r
}

/// The kernel maps physical memory one to one: a physical address is its own
/// virtual address.
pub fn virtio_phys_to_virt(paddr: usize) -> (vaddr: usize)
    ensures
        vaddr == paddr,
{
    paddr
}

/// An allocation of `n` contiguous frames returning base address `b` leaves
/// the frames `b / PAGE_SIZE .. b / PAGE_SIZE + n` in the pool, consecutive
/// and in order.
pub proof fn lemma_alloc_run_in_pool(before: Seq<usize>, frames: Seq<usize>, b: usize)
    requires
        contiguous(frames),
        frames.len() > 0,
        b == frames[0] * PAGE_SIZE,
    ensures
        forall|i: int|
            0 <= i < frames.len() ==> #[trigger] (before + frames)[before.len() + i] == b
                / PAGE_SIZE + i,
        forall|i: int|
            0 <= i < frames.len() ==> #[trigger] frames[i] == b / PAGE_SIZE + i && (before
                + frames).contains(frames[i]),
{
    assert(b / PAGE_SIZE == frames[0]) by (nonlinear_arith)
        requires
            b == frames[0] * PAGE_SIZE,
            PAGE_SIZE == 4096,
    ;
    assert forall|i: int| 0 <= i < frames.len() implies #[trigger] frames[i] == b / PAGE_SIZE + i
        && (before + frames).contains(frames[i]) by {
        assert((before + frames)[before.len() + i] == frames[i]);
    }
}

/// Releasing the run that an allocation returned removes each of its frames
/// from the pool.
pub proof fn lemma_dealloc_removes_run(pool: Seq<usize>, b: usize, n: usize, i: int)
    requires
        0 <= i < n,
        b / PAGE_SIZE + n <= usize::MAX,
    ensures
        !pool.filter(|f: usize| !in_run(f, (b / PAGE_SIZE) as int, n as int)).contains(
            (b / PAGE_SIZE + i) as usize,
        ),
{
    let keep = |f: usize| !in_run(f, (b / PAGE_SIZE) as int, n as int);
    let x = (b / PAGE_SIZE + i) as usize;
    if pool.filter(keep).contains(x) {
        let k = choose|k: int| 0 <= k < pool.filter(keep).len() && pool.filter(keep)[k] == x;
        pool.lemma_filter_pred(keep, k);
    }
}

} // verus!
