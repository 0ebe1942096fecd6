//! Bitmap allocator of physical page frames.
//!
//! One bit per frame: a frame is owned by the allocator exactly while its
//! bit says "free", and owned by whoever allocated it otherwise.
use vstd::prelude::*;

verus! {

/// Number of frames a default allocator covers: 4 GiB of 4 KiB frames.
pub const MAX_FRAMES: usize = 0x10_0000;

/// The frames `start .. start + n` all exist and are all free.
pub open spec fn run_free(bits: Seq<bool>, start: int, n: int) -> bool {
    &&& 0 <= start
    &&& 0 <= n
    &&& start + n <= bits.len()
    &&& forall|i: int| start <= i < start + n ==> #[trigger] bits[i]
}

/// A run of `n` free frames may start at `start` under alignment `align`.
pub open spec fn fits_at(bits: Seq<bool>, start: int, n: int, align: int) -> bool {
    &&& align > 0
    &&& start % align == 0
    &&& run_free(bits, start, n)
}

/// The bitmap `bits` with the frames `start .. start + n` marked used.
pub open spec fn mark_used(bits: Seq<bool>, start: int, n: int) -> Seq<bool> {
    Seq::new(bits.len(), |i: int| if start <= i < start + n { false } else { bits[i] })
}

/// What `allocate` does: it hands out the lowest free frame and marks it used,
/// or reports exhaustion and changes nothing.
pub open spec fn alloc_spec(pre: Seq<bool>, post: Seq<bool>, r: Option<usize>) -> bool {
    match r {
        Some(f) => {
            &&& f < pre.len()
            &&& pre[f as int]
            &&& forall|i: int| 0 <= i < f ==> !#[trigger] pre[i]
            &&& post == pre.update(f as int, false)
        },
        None => {
            &&& forall|i: int| 0 <= i < pre.len() ==> !#[trigger] pre[i]
            &&& post == pre
        },
    }
}

/// What `alloc_contiguous` does: it hands out the lowest aligned start of a
/// free run of `n` frames and marks the run used, or reports that no such run
/// exists (or that the alignment is zero) and changes nothing.
pub open spec fn alloc_contiguous_spec(
    pre: Seq<bool>,
    post: Seq<bool>,
    n: int,
    align: int,
    r: Option<usize>,
) -> bool {
    match r {
        Some(s) => {
            &&& fits_at(pre, s as int, n, align)
            &&& forall|t: int| 0 <= t < s ==> !#[trigger] fits_at(pre, t, n, align)
            &&& post == mark_used(pre, s as int, n)
        },
        None => {
            &&& forall|t: int| !#[trigger] fits_at(pre, t, n, align)
            &&& post == pre
        },
    }
}

/// What `dealloc` does: it marks frame `f` free again.
pub open spec fn dealloc_spec(pre: Seq<bool>, post: Seq<bool>, f: int) -> bool {
    post == pre.update(f, true)
}

/// Every frame of `held` is in range and marked used.
pub open spec fn all_used(bits: Seq<bool>, held: Set<int>) -> bool {
    forall|h: int| #[trigger] held.contains(h) ==> 0 <= h < bits.len() && !bits[h]
}

/// The frame allocator: a bitmap over frame indices `0 .. capacity`, where
/// `true` marks a free frame.
pub struct FrameAllocator {
    bits: Vec<bool>,
}

impl View for FrameAllocator {
    type V = Seq<bool>;

    closed spec fn view(&self) -> Seq<bool> {
        self.bits@
    }
}

impl Default for FrameAllocator {
    /// An allocator over `MAX_FRAMES` frames, none of them free yet.
    fn default() -> (r: FrameAllocator)
        ensures
            r@.len() == MAX_FRAMES,
            forall|i: int| 0 <= i < MAX_FRAMES ==> !#[trigger] r@[i],
    {
        FrameAllocator::new(MAX_FRAMES)
    }
}

impl FrameAllocator {
    /// An allocator over `capacity` frames, none of them free yet.
    pub fn new(capacity: usize) -> (r: FrameAllocator)
        ensures
            r@.len() == capacity,
            forall|i: int| 0 <= i < capacity ==> !#[trigger] r@[i],
    {
        let mut bits: Vec<bool> = Vec::with_capacity(capacity);
        let mut i: usize = 0;
        while i < capacity
            invariant
                i <= capacity,
                bits@.len() == i,
                forall|j: int| 0 <= j < i ==> !#[trigger] bits@[j],
            decreases capacity - i,
        {
            bits.push(false);
            i = i + 1;
        }
        FrameAllocator { bits }
    }

    /// Number of frames the bitmap covers.
    pub fn capacity(&self) -> (r: usize)
        ensures
            r == self@.len(),
    {
        self.bits.len()
    }

    /// Whether frame `frame` is free.
    pub fn is_free(&self, frame: usize) -> (r: bool)
        requires
            frame < self@.len(),
        ensures
            r == self@[frame as int],
    {
        self.bits[frame]
    }

    /// Marks the frames `start .. end` free; frames at or past the capacity
    /// are ignored.
    pub fn insert(&mut self, start: usize, end: usize)
        ensures
            final(self)@.len() == old(self)@.len(),
            forall|i: int|
                0 <= i < old(self)@.len() ==> #[trigger] final(self)@[i] == (old(self)@[i] || (
                start <= i < end)),
    {
        let len = self.bits.len();
        let stop = if end < len {
            end
        } else {
            len
        };
        let mut i: usize = start;
        if stop <= start {
            return;
        }
        while i < stop
            invariant
                stop <= len,
                len == old(self)@.len(),
                self@.len() == len,
                start <= i,
                forall|j: int|
                    0 <= j < len ==> #[trigger] self@[j] == (old(self)@[j] || (start <= j < i
                        && j < stop)),
            decreases stop - i,
        {
            self.bits.set(i, true);
            i = i + 1;
            assert(forall|j: int|
                0 <= j < len ==> #[trigger] self@[j] == (old(self)@[j] || (start <= j < i && j
                    < stop)));
        }
    }

    /// Hands out the lowest free frame and marks it used; `None` when every
    /// frame is in use.
    pub fn allocate(&mut self) -> (r: Option<usize>)
        ensures
            alloc_spec(old(self)@, final(self)@, r),
    {
        let len = self.bits.len();
        let mut i: usize = 0;
        while i < len
            invariant
                len == self@.len(),
                self@ == old(self)@,
                i <= len,
                forall|j: int| 0 <= j < i ==> !#[trigger] self@[j],
            decreases len - i,
        {
            if self.bits[i] {
                self.bits.set(i, false);
                return Some(i);
            }
            i = i + 1;
        }
        None
    }

    /// Whether frames `start .. start + n` all exist and are free.
    fn run_is_free(&self, start: usize, n: usize) -> (r: bool)
        requires
            start + n <= self@.len(),
        ensures
            r == run_free(self@, start as int, n as int),
    {
        let len = self.bits.len();
        let mut k: usize = 0;
        while k < n
            invariant
                len == self@.len(),
                start + n <= len,
                k <= n,
                forall|i: int| start <= i < start + k ==> #[trigger] self@[i],
            decreases n - k,
        {
            if !self.bits[start + k] {
                return false;
            }
            k = k + 1;
        }
        true
    }

    /// Hands out the lowest start, divisible by `align`, of a run of `count`
    /// free frames and marks the whole run used; `None` when no such run exists
    /// or `align` is zero.
    pub fn alloc_contiguous(&mut self, count: usize, align: usize) -> (r: Option<usize>)
        ensures
            alloc_contiguous_spec(old(self)@, final(self)@, count as int, align as int, r),
    {
        if align == 0 {
            return None;
        }
        let len = self.bits.len();
        let mut s: usize = 0;
        let ghost mut k: int = 0;
        while s <= len && count <= len - s
            invariant
                len == self@.len(),
                self@ == old(self)@,
                align > 0,
                s == k * align,
                0 <= k,
                s <= len,
                forall|t: int|
                    0 <= t < s ==> !#[trigger] fits_at(self@, t, count as int, align as int),
            decreases len + align - s,
        {
            if self.run_is_free(s, count) {
                let mut j: usize = 0;
                while j < count
                    invariant
                        s + count <= len,
                        len == self@.len(),
                        j <= count,
                        forall|i: int|
                            0 <= i < len ==> #[trigger] self@[i] == if s <= i < s + j {
                                false
                            } else {
                                old(self)@[i]
                            },
                    decreases count - j,
                {
                    self.bits.set(s + j, false);
                    j = j + 1;
                }
                proof {
                    assert(s as int % align as int == 0) by (nonlinear_arith)
                        requires
                            s == k * align,
                            align > 0,
                            k >= 0,
                    ;
                    assert(self@ =~= mark_used(old(self)@, s as int, count as int));
                }
                return Some(s);
            }
            proof {
                assert forall|t: int| 0 <= t < s + align implies !#[trigger] fits_at(
                    self@,
                    t,
                    count as int,
                    align as int,
                ) by {
                    if t >= s && fits_at(self@, t, count as int, align as int) {
                        lemma_aligned_gap(t, k, align as int);
                        assert(t == s);
                    }
                }
            }
            if align > len - s {
                proof {
                    assert forall|t: int|
                        !#[trigger] fits_at(self@, t, count as int, align as int) by {
                        if t >= s + align && fits_at(self@, t, count as int, align as int) {
                            assert(t + count > len);
                        }
                    }
                }
                return None;
            }
            s = s + align;
            proof {
                k = k + 1;
                assert(s == k * align) by (nonlinear_arith)
                    requires
                        s == (k - 1) * align + align,
                ;
            }
        }
        proof {
            assert forall|t: int| !#[trigger] fits_at(self@, t, count as int, align as int) by {
                if t >= s && fits_at(self@, t, count as int, align as int) {
                    assert(t + count > len);
                }
            }
        }
        None
    }

    /// Marks frame `frame` free again. The frame must be one that this
    /// allocator handed out and that is still in use.
    pub fn dealloc(&mut self, frame: usize)
        requires
            frame < old(self)@.len(),
            !old(self)@[frame as int],
        ensures
            dealloc_spec(old(self)@, final(self)@, frame as int),
    {
        self.bits.set(frame, true);
    }
}

/// Frames held by their allocators never alias: if every held frame is
/// marked used, the frame `allocate` hands out is not one of them, and after
/// the call the held frames together with the new one are all marked used.
pub proof fn lemma_allocate_never_aliases(
    pre: Seq<bool>,
    post: Seq<bool>,
    r: Option<usize>,
    held: Set<int>,
)
    requires
        all_used(pre, held),
        alloc_spec(pre, post, r),
    ensures
        post.len() == pre.len(),
        match r {
            Some(f) => !held.contains(f as int) && all_used(post, held.insert(f as int)),
            None => all_used(post, held),
        },
{
    if let Some(f) = r {
        assert forall|h: int| #[trigger] held.insert(f as int).contains(h) implies 0 <= h
            < post.len() && !post[h] by {
            if h != f {
                assert(held.contains(h));
            }
        }
    }
}

/// A contiguous run never aliases a held frame: if every held frame is marked
/// used, no frame of the run that `alloc_contiguous` hands out is held, and
/// after the call the held frames together with the run are all marked used.
pub proof fn lemma_alloc_contiguous_never_aliases(
    pre: Seq<bool>,
    post: Seq<bool>,
    n: int,
    align: int,
    r: Option<usize>,
    held: Set<int>,
)
    requires
        all_used(pre, held),
        alloc_contiguous_spec(pre, post, n, align, r),
    ensures
        post.len() == pre.len(),
        match r {
            Some(s) => {
                &&& forall|i: int| s <= i < s + n ==> !#[trigger] held.contains(i)
                &&& all_used(post, held.union(Set::new(|i: int| s <= i < s + n)))
            },
            None => all_used(post, held),
        },
{
    if let Some(s) = r {
        assert forall|i: int| s <= i < s + n implies !#[trigger] held.contains(i) by {
            assert(pre[i]);
        }
        let run = Set::new(|i: int| s <= i < s + n);
        assert forall|h: int| #[trigger] held.union(run).contains(h) implies 0 <= h < post.len()
            && !post[h] by {
            if !run.contains(h) {
                assert(held.contains(h));
            }
        }
    }
}

/// Giving back a held frame leaves every other held frame marked used.
pub proof fn lemma_dealloc_keeps_others_used(
    pre: Seq<bool>,
    post: Seq<bool>,
    f: int,
    held: Set<int>,
)
    requires
        all_used(pre, held),
        held.contains(f),
        dealloc_spec(pre, post, f),
    ensures
        all_used(post, held.remove(f)),
{
    assert forall|h: int| #[trigger] held.remove(f).contains(h) implies 0 <= h < post.len()
        && !post[h] by {
        assert(held.contains(h));
    }
}

/// One step of the allocator that hands out or takes back frames.
pub enum FrameEvent {
    /// `allocate` handed out frame `f`.
    Allocated(usize),
    /// `alloc_contiguous(n, align)` handed out the run starting at `s`.
    AllocatedRun(usize, int, int),
    /// `dealloc` took back frame `f`.
    Freed(usize),
}

/// The frames of the run of `n` frames that starts at `s`.
pub open spec fn run_set(s: int, n: int) -> Set<int> {
    Set::new(|i: int| s <= i < s + n)
}

/// The frames held by callers after `event`, given those held before.
pub open spec fn held_after(held: Set<int>, event: FrameEvent) -> Set<int> {
    match event {
        FrameEvent::Allocated(f) => held.insert(f as int),
        FrameEvent::AllocatedRun(s, n, _) => held.union(run_set(s as int, n)),
        FrameEvent::Freed(f) => held.remove(f as int),
    }
}

/// The frames held by callers after the first `k` events of `events`.
pub open spec fn held_at(events: Seq<FrameEvent>, k: nat) -> Set<int>
    decreases k,
{
    if k == 0 || k > events.len() {
        Set::empty()
    } else {
        held_after(held_at(events, (k - 1) as nat), events[k - 1])
    }
}

/// `event` took the bitmap from `pre` to `post` as the allocator's contracts
/// say, and a frame given back was one held by a caller.
pub open spec fn step_ok(
    pre: Seq<bool>,
    post: Seq<bool>,
    event: FrameEvent,
    held: Set<int>,
) -> bool {
    match event {
        FrameEvent::Allocated(f) => alloc_spec(pre, post, Some(f)),
        FrameEvent::AllocatedRun(s, n, align) => {
            alloc_contiguous_spec(pre, post, n, align, Some(s))
        },
        FrameEvent::Freed(f) => held.contains(f as int) && dealloc_spec(pre, post, f as int),
    }
}

/// What `event` hands out is held by no caller.
pub open spec fn fresh(event: FrameEvent, held: Set<int>) -> bool {
    match event {
        FrameEvent::Allocated(f) => !held.contains(f as int),
        FrameEvent::AllocatedRun(s, n, _) => {
            forall|i: int| s <= i < s + n ==> !#[trigger] held.contains(i)
        },
        FrameEvent::Freed(_) => true,
    }
}

/// For every interleaving of allocations and deallocations from an
/// allocator that has handed out nothing yet, no frame is ever handed out
/// while a caller still holds it, and every held frame is marked used.
/// (Failed allocations leave the bitmap unchanged and are left out of
/// `events`.)
pub proof fn lemma_no_aliasing_in_any_interleaving(states: Seq<Seq<bool>>, events: Seq<FrameEvent>)
    requires
        states.len() == events.len() + 1,
        forall|k: int|
            0 <= k < events.len() ==> #[trigger] step_ok(
                states[k],
                states[k + 1],
                events[k],
                held_at(events, k as nat),
            ),
    ensures
        forall|k: int|
            0 <= k < events.len() ==> #[trigger] fresh(events[k], held_at(events, k as nat)),
        forall|k: int|
            0 <= k <= events.len() ==> #[trigger] all_used(states[k], held_at(events, k as nat)),
{
    lemma_interleaving_prefix(states, events, events.len());
}

proof fn lemma_interleaving_prefix(states: Seq<Seq<bool>>, events: Seq<FrameEvent>, m: nat)
    requires
        m <= events.len(),
        states.len() == events.len() + 1,
        forall|k: int|
            0 <= k < events.len() ==> #[trigger] step_ok(
                states[k],
                states[k + 1],
                events[k],
                held_at(events, k as nat),
            ),
    ensures
        forall|k: int| 0 <= k < m ==> #[trigger] fresh(events[k], held_at(events, k as nat)),
        forall|k: int| 0 <= k <= m ==> #[trigger] all_used(states[k], held_at(events, k as nat)),
    decreases m,
{
    if m == 0 {
        assert(held_at(events, 0) == Set::<int>::empty());
        assert(all_used(states[0], held_at(events, 0)));
    } else {
        let j = (m - 1) as nat;
        lemma_interleaving_prefix(states, events, j);
        let held = held_at(events, j);
        let pre = states[j as int];
        let post = states[m as int];
        assert(step_ok(
            states[j as int],
            states[j as int + 1],
            events[j as int],
            held_at(events, (j as int) as nat),
        ));
        assert(all_used(pre, held));
        assert(held_at(events, m) == held_after(held, events[j as int]));
        match events[j as int] {
            FrameEvent::Allocated(f) => {
                lemma_allocate_never_aliases(pre, post, Some(f), held);
            },
            FrameEvent::AllocatedRun(s, n, align) => {
                lemma_alloc_contiguous_never_aliases(pre, post, n, align, Some(s), held);
                assert(held.union(Set::new(|i: int| s <= i < s + n)) == held.union(
                    run_set(s as int, n),
                ));
            },
            FrameEvent::Freed(f) => {
                lemma_dealloc_keeps_others_used(pre, post, f as int, held);
            },
        }
        assert(fresh(events[j as int], held));
        assert(all_used(post, held_at(events, m)));
    }
}

/// A multiple of `align` at or past `k * align` and below `(k + 1) * align`
/// is `k * align` itself.
proof fn lemma_aligned_gap(t: int, k: int, align: int)
    requires
        align > 0,
        k >= 0,
        k * align <= t < k * align + align,
        t % align == 0,
    ensures
        t == k * align,
{
    let q = t / align;
    assert(t == q * align) by (nonlinear_arith)
        requires
            t % align == 0,
            align > 0,
            q == t / align,
    ;
    assert(q == k) by (nonlinear_arith)
        requires
            t == q * align,
            k * align <= t < k * align + align,
            align > 0,
    ;
}

} // verus!
