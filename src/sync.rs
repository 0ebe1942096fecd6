//! Spin locks for a single processor whose only concurrency is interrupt
//! delivery.
//!
//! The state of a lock changes only through `&mut` methods, and the
//! processor's interrupt-enable state is the explicit `Cpu` value that they
//! take: a lock that masks interrupts saves and clears the enable flag before
//! it touches its own state, so no interrupt can observe it half-changed.
use vstd::prelude::*;

verus! {

/// The interrupt-enable bit of the flags register.
pub const RFLAGS_IF: u64 = 0x200;

/// Spins after which a waiter reports suspected contention or deadlock.
pub const CONTENTION_REPORT_SPINS: u64 = 0x10_0000;

/// The processor's flags register, which holds the interrupt-enable bit.
#[derive(Clone, Copy, Debug, PartialEq, Eq)]
pub struct Cpu {
    pub rflags: u64,
}

impl Cpu {
    /// Whether interrupts are delivered.
    pub open spec fn irq_enabled(self) -> bool {
        self.rflags & RFLAGS_IF != 0
    }

    /// Whether interrupts are delivered.
    pub fn interrupts_enabled(&self) -> (r: bool)
        ensures
            r == self.irq_enabled(),
    {
        self.rflags & RFLAGS_IF != 0
    }

    /// Returns the flags register and then disables interrupts.
    pub fn disable_and_store(&mut self) -> (r: u64)
        ensures
            r == old(self).rflags,
            final(self).rflags == old(self).rflags & !RFLAGS_IF,
            !final(self).irq_enabled(),
    {
        let r = self.rflags;
        self.rflags = r & !RFLAGS_IF;
        assert((r & !0x200u64) & 0x200u64 == 0) by (bit_vector);
        r
    }

    /// Writes back a flags value saved earlier.
    pub fn restore(&mut self, rflags: u64)
        ensures
            final(self).rflags == rflags,
    {
        self.rflags = rflags;
    }
}

/// Relies on `core::hint::spin_loop`: a hint to the processor that the
/// caller is busy-waiting, with no effect on any value.
#[verifier::external_body]
fn spin_hint() {
    core::hint::spin_loop()
}

/// Saved flags for a region that runs with interrupts disabled; releasing it
/// writes the saved flags back.
pub struct FlagsGuard(u64);

impl FlagsGuard {
    /// The flags register as it was when the region was entered.
    pub closed spec fn saved(self) -> u64 {
        self.0
    }

    /// Enters a region with interrupts disabled, saving the flags as they were.
    pub fn no_irq_region(cpu: &mut Cpu) -> (r: FlagsGuard)
        ensures
            r.saved() == old(cpu).rflags,
            final(cpu).rflags == old(cpu).rflags & !RFLAGS_IF,
            !final(cpu).irq_enabled(),
    {
        FlagsGuard(cpu.disable_and_store())
    }

    /// The flags register as it was when the region was entered.
    pub fn saved_flags(&self) -> (r: u64)
        ensures
            r == self.saved(),
    {
        self.0
    }

    /// Leaves the region: the flags register gets back the exact value it had
    /// on entry.
    pub fn release(self, cpu: &mut Cpu)
        ensures
            final(cpu).rflags == self.saved(),
    {
        cpu.restore(self.0);
    }
}

/// Low-level support of a lock: what it does to the processor around an
/// acquisition, and how a waiter relaxes.
pub trait MutexSupport: Sized {
    /// What acquisition saves for the release.
    type GuardData;

    /// Whether acquisition disables interrupts until the release.
    spec fn masks_interrupts() -> bool;

    /// The flags that the release writes back, when interrupts are masked.
    spec fn saved_flags(g: Self::GuardData) -> u64;

    fn new() -> Self;

    /// Called by a waiter on every spin.
    fn cpu_relax(&self);

    /// Called before every acquisition attempt.
    fn before_lock(cpu: &mut Cpu) -> (g: Self::GuardData)
        ensures
            Self::masks_interrupts() ==> Self::saved_flags(g) == old(cpu).rflags
                && final(cpu).rflags == old(cpu).rflags & !RFLAGS_IF,
            !Self::masks_interrupts() ==> *final(cpu) == *old(cpu),
    ;

    /// Called when the lock has been released.
    fn after_unlock(&self);

    /// Gives back what `before_lock` saved.
    fn release(g: Self::GuardData, cpu: &mut Cpu)
        ensures
            Self::masks_interrupts() ==> final(cpu).rflags == Self::saved_flags(g),
            !Self::masks_interrupts() ==> *final(cpu) == *old(cpu),
    ;
}

/// Plain spinning: interrupts stay as they are. Never protect with it data
/// that an interrupt handler touches.
#[derive(Debug)]
pub struct Spin;

impl MutexSupport for Spin {
    type GuardData = ();

    open spec fn masks_interrupts() -> bool {
        false
    }

    open spec fn saved_flags(g: ()) -> u64 {
        0
    }

    fn new() -> Self {
        Spin
    }

    fn cpu_relax(&self) {
        spin_hint();
    }

    fn before_lock(cpu: &mut Cpu) -> (g: ()) {
    }

    fn after_unlock(&self) {
    }

    fn release(g: (), cpu: &mut Cpu) {
    }
}

/// Spinning with interrupts disabled from before the attempt until the
/// release, which restores the exact flags that were saved.
#[derive(Debug)]
pub struct SpinNoIrq;

impl MutexSupport for SpinNoIrq {
    type GuardData = FlagsGuard;

    open spec fn masks_interrupts() -> bool {
        true
    }

    open spec fn saved_flags(g: FlagsGuard) -> u64 {
        g.saved()
    }

    fn new() -> Self {
        SpinNoIrq
    }

    fn cpu_relax(&self) {
        spin_hint();
    }

    fn before_lock(cpu: &mut Cpu) -> (g: FlagsGuard) {
        FlagsGuard::no_irq_region(cpu)
    }

    fn after_unlock(&self) {
    }

    fn release(g: FlagsGuard, cpu: &mut Cpu) {
        g.release(cpu);
    }
}

/// Progress of the lazy construction of a lock's support payload.
#[derive(Clone, Copy, Debug, PartialEq, Eq, Structural)]
pub enum SupportState {
    Uninitialized,
    Initializing,
    Initialized,
}

/// What acquiring does to the processor: a masking lock saves the flags and
/// clears the enable bit; any other leaves the processor alone.
pub open spec fn lock_effect<S: MutexSupport>(pre: Cpu, post: Cpu, saved: u64) -> bool {
    if S::masks_interrupts() {
        saved == pre.rflags && post.rflags == pre.rflags & !RFLAGS_IF
    } else {
        post == pre
    }
}

/// What releasing does to the processor: a masking lock writes back the saved
/// flags; any other leaves the processor alone.
pub open spec fn unlock_effect<S: MutexSupport>(pre: Cpu, post: Cpu, saved: u64) -> bool {
    if S::masks_interrupts() {
        post.rflags == saved
    } else {
        post == pre
    }
}

/// One acquisition attempt on a lock whose acquired flag is `locked`:
/// whether it succeeds, and the acquired flag afterwards.
pub open spec fn attempt(locked: bool) -> (bool, bool) {
    (!locked, true)
}

/// How many of `n` successive acquisition attempts, with no release between
/// them, succeed on a lock whose acquired flag starts as `locked`.
pub open spec fn successes(locked: bool, n: nat) -> nat
    decreases n,
{
    if n == 0 {
        0
    } else {
        (if attempt(locked).0 {
            1nat
        } else {
            0nat
        }) + successes(attempt(locked).1, (n - 1) as nat)
    }
}

/// A lock around a value of type `T`, with support `S`.
pub struct Mutex<T, S: MutexSupport> {
    lock: bool,
    support: Option<S>,
    support_initialization: SupportState,
    data: T,
}

/// Proof of holding a lock; handing it back to `Mutex::unlock` is the only
/// way to release the lock.
pub struct MutexGuard<S: MutexSupport> {
    support_guard: S::GuardData,
}

impl<S: MutexSupport> MutexGuard<S> {
    /// The flags that the release writes back, when `S` masks interrupts.
    pub closed spec fn saved(&self) -> u64 {
        S::saved_flags(self.support_guard)
    }
}

impl<T, S: MutexSupport> Mutex<T, S> {
    /// The support payload exists exactly when its construction is done, and
    /// no construction is under way between two calls.
    pub closed spec fn wf(&self) -> bool {
        &&& self.support_initialization != SupportState::Initializing
        &&& (self.support_initialization == SupportState::Initialized <==> self.support is Some)
    }

    /// Whether the lock is held.
    pub closed spec fn is_locked(&self) -> bool {
        self.lock
    }

    /// Whether the support payload has been constructed.
    pub closed spec fn support_ready(&self) -> bool {
        self.support_initialization == SupportState::Initialized
    }

    /// The protected value.
    pub closed spec fn value(&self) -> T {
        self.data
    }

    /// A free lock around `data`, its support not yet constructed.
    pub fn new(data: T) -> (r: Self)
        ensures
            r.wf(),
            !r.is_locked(),
            !r.support_ready(),
            r.value() == data,
    {
        Mutex {
            lock: false,
            support: None,
            support_initialization: SupportState::Uninitialized,
            data,
        }
    }

    /// Consumes the lock and returns the protected value.
    pub fn into_inner(self) -> (r: T)
        ensures
            r == self.value(),
    {
        self.data
    }

    /// Whether the lock is held.
    pub fn locked(&self) -> (r: bool)
        ensures
            r == self.is_locked(),
    {
        self.lock
    }

    /// Constructs the support payload unless that is done already.
    pub fn ensure_support(&mut self)
        requires
            old(self).wf(),
        ensures
            final(self).wf(),
            final(self).support_ready(),
            final(self).is_locked() == old(self).is_locked(),
            final(self).value() == old(self).value(),
    {
        match self.support_initialization {
            SupportState::Initialized => {},
            _ => {
                // Another context that found the payload under construction
                // would wait for it; with the state changed only under
                // `&mut`, none can observe this step.
                self.support_initialization = SupportState::Initializing;
                self.support = Some(S::new());
                self.support_initialization = SupportState::Initialized;
            },
        }
    }

    /// Sets the acquired flag of a free lock.
    fn obtain_lock(&mut self)
        requires
            !old(self).is_locked(),
        ensures
            final(self).is_locked(),
            final(self).support == old(self).support,
            final(self).support_initialization == old(self).support_initialization,
            final(self).value() == old(self).value(),
    {
        self.lock = true;
    }

    /// Acquires a free lock. On one processor a held lock can only be freed
    /// by its holder, so waiting here for a held one would never end.
    pub fn lock(&mut self, cpu: &mut Cpu) -> (g: MutexGuard<S>)
        requires
            old(self).wf(),
            !old(self).is_locked(),
        ensures
            final(self).wf(),
            final(self).is_locked(),
            final(self).support_ready(),
            final(self).value() == old(self).value(),
            lock_effect::<S>(*old(cpu), *final(cpu), g.saved()),
    {
        let support_guard = S::before_lock(cpu);
        self.ensure_support();
        self.obtain_lock();
        MutexGuard { support_guard }
    }

    /// Acquires a free lock by retrying `try_lock` until it succeeds.
    pub fn busy_lock(&mut self, cpu: &mut Cpu) -> (g: MutexGuard<S>)
        requires
            old(self).wf(),
            !old(self).is_locked(),
        ensures
            final(self).wf(),
            final(self).is_locked(),
            final(self).support_ready(),
            final(self).value() == old(self).value(),
            lock_effect::<S>(*old(cpu), *final(cpu), g.saved()),
    {
        let ghost mut failed: int = 0;
        loop
            invariant
                self.wf(),
                !self.is_locked(),
                self.value() == old(self).value(),
                *cpu == *old(cpu),
                failed == 0,
            decreases 1 - failed,
        {
            match self.try_lock(cpu) {
                Some(g) => {
                    return g;
                },
                None => {},
            }
            proof {
                failed = failed + 1;
            }
        }
    }

    /// One acquisition attempt that never waits: it succeeds exactly when the
    /// lock is free. A failed attempt leaves the processor as it found it.
    pub fn try_lock(&mut self, cpu: &mut Cpu) -> (r: Option<MutexGuard<S>>)
        requires
            old(self).wf(),
        ensures
            final(self).wf(),
            r is Some == attempt(old(self).is_locked()).0,
            final(self).is_locked() == attempt(old(self).is_locked()).1,
            final(self).support_ready(),
            final(self).value() == old(self).value(),
            match r {
                Some(g) => lock_effect::<S>(*old(cpu), *final(cpu), g.saved()),
                None => *final(cpu) == *old(cpu),
            },
    {
        let support_guard = S::before_lock(cpu);
        self.ensure_support();
        if !self.lock {
            self.lock = true;
            Some(MutexGuard { support_guard })
        } else {
            S::release(support_guard, cpu);
            None
        }
    }

    /// Releases the lock held through `guard`; for a masking lock the flags
    /// register gets back the exact value saved at acquisition.
    pub fn unlock(&mut self, guard: MutexGuard<S>, cpu: &mut Cpu)
        requires
            old(self).wf(),
            old(self).is_locked(),
        ensures
            final(self).wf(),
            !final(self).is_locked(),
            final(self).support_ready() == old(self).support_ready(),
            final(self).value() == old(self).value(),
            unlock_effect::<S>(*old(cpu), *final(cpu), guard.saved()),
    {
        self.lock = false;
        match &self.support {
            Some(s) => s.after_unlock(),
            None => {},
        }
        S::release(guard.support_guard, cpu);
    }

    /// The protected value, read under the lock.
    pub fn get(&self, guard: &MutexGuard<S>) -> (r: &T)
        requires
            self.is_locked(),
        ensures
            *r == self.value(),
    {
        &self.data
    }

    /// Replaces the protected value under the lock.
    pub fn set(&mut self, guard: &MutexGuard<S>, v: T)
        requires
            old(self).wf(),
            old(self).is_locked(),
        ensures
            final(self).wf(),
            final(self).is_locked(),
            final(self).support_ready() == old(self).support_ready(),
            final(self).value() == v,
    {
        self.data = v;
    }

    /// One spin of a waiter that found the lock held: relaxes the processor
    /// and counts the spin. The second result says whether this spin is the
    /// one after which suspected contention is reported; the waiter goes on
    /// spinning either way.
    pub fn spin_step(&self, try_count: u64) -> (r: (u64, bool))
        requires
            self.wf(),
        ensures
            r.0 == (if try_count == u64::MAX {
                u64::MAX as int
            } else {
                try_count + 1
            }),
            r.1 == (r.0 == CONTENTION_REPORT_SPINS),
    {
        match &self.support {
            Some(s) => s.cpu_relax(),
            None => {},
        }
        let next = try_count.saturating_add(1);
        (next, next == CONTENTION_REPORT_SPINS)
    }
}

/// Mutual exclusion: from a free lock, of any number of successive
/// acquisition attempts with no release between them exactly the first
/// succeeds; from a held lock, none does.
pub proof fn lemma_one_winner(n: nat)
    ensures
        n >= 1 ==> successes(false, n) == 1,
        successes(true, n) == 0,
    decreases n,
{
    if n >= 1 {
        lemma_one_winner((n - 1) as nat);
        assert(successes(false, n) == 1 + successes(true, (n - 1) as nat));
    }
}

/// Acquiring and then releasing an interrupt-masking lock runs the critical
/// section with interrupts disabled, and gives the processor back the exact
/// flags it had before, whether interrupts were enabled then or not. A lock
/// that does not mask leaves the processor unchanged throughout.
pub proof fn lemma_flags_restored<S: MutexSupport>(before: Cpu, inside: Cpu, after: Cpu, saved: u64)
    requires
        lock_effect::<S>(before, inside, saved),
        unlock_effect::<S>(inside, after, saved),
    ensures
        after == before,
        S::masks_interrupts() ==> !inside.irq_enabled(),
        !S::masks_interrupts() ==> inside == before,
{
    if S::masks_interrupts() {
        let f = before.rflags;
        assert((f & !0x200u64) & 0x200u64 == 0) by (bit_vector);
    }
}

} // verus!
