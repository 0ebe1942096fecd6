use myos::sync::{Cpu, FlagsGuard, Mutex, Spin, SpinNoIrq, CONTENTION_REPORT_SPINS, RFLAGS_IF};

const ENABLED: u64 = 0x202;
const DISABLED: u64 = 0x002;

#[test]
fn only_the_first_attempt_wins_until_release() {
    let mut m: Mutex<u32, Spin> = Mutex::new(5);
    let mut cpu = Cpu { rflags: ENABLED };
    let g = m.try_lock(&mut cpu).unwrap();
    assert!(m.locked());
    for _ in 0..10 {
        assert!(m.try_lock(&mut cpu).is_none());
    }
    m.unlock(g, &mut cpu);
    assert!(!m.locked());
    let g2 = m.try_lock(&mut cpu).unwrap();
    assert!(m.try_lock(&mut cpu).is_none());
    m.unlock(g2, &mut cpu);
}

#[test]
fn plain_spin_leaves_interrupts_alone() {
    let mut m: Mutex<u32, Spin> = Mutex::new(1);
    let mut cpu = Cpu { rflags: ENABLED };
    let g = m.lock(&mut cpu);
    assert_eq!(cpu.rflags, ENABLED);
    m.unlock(g, &mut cpu);
    assert_eq!(cpu.rflags, ENABLED);
}

#[test]
fn no_irq_lock_masks_and_restores_enabled_state() {
    let mut m: Mutex<u32, SpinNoIrq> = Mutex::new(1);
    let mut cpu = Cpu { rflags: ENABLED };
    let g = m.lock(&mut cpu);
    assert!(!cpu.interrupts_enabled());
    assert_eq!(cpu.rflags, DISABLED);
    m.unlock(g, &mut cpu);
    assert_eq!(cpu.rflags, ENABLED);
    assert!(cpu.interrupts_enabled());
}

#[test]
fn no_irq_lock_restores_disabled_state_exactly() {
    let mut m: Mutex<u32, SpinNoIrq> = Mutex::new(1);
    let mut cpu = Cpu { rflags: 0x46 };
    let g = m.lock(&mut cpu);
    assert!(!cpu.interrupts_enabled());
    m.unlock(g, &mut cpu);
    assert_eq!(cpu.rflags, 0x46);
    assert!(!cpu.interrupts_enabled());
}

#[test]
fn failed_attempt_restores_flags() {
    let mut m: Mutex<u32, SpinNoIrq> = Mutex::new(1);
    let mut cpu = Cpu { rflags: ENABLED };
    let g = m.try_lock(&mut cpu).unwrap();
    let mut other = Cpu { rflags: 0x246 };
    assert!(m.try_lock(&mut other).is_none());
    assert_eq!(other.rflags, 0x246);
    m.unlock(g, &mut cpu);
    assert_eq!(cpu.rflags, ENABLED);
}

#[test]
fn busy_lock_acquires_a_free_lock() {
    let mut m: Mutex<u32, SpinNoIrq> = Mutex::new(3);
    let mut cpu = Cpu { rflags: ENABLED };
    let g = m.busy_lock(&mut cpu);
    assert!(m.locked());
    assert!(!cpu.interrupts_enabled());
    m.unlock(g, &mut cpu);
    assert_eq!(cpu.rflags, ENABLED);
}

#[test]
fn value_is_read_and_written_under_the_lock() {
    let mut m: Mutex<Vec<u8>, Spin> = Mutex::new(vec![1, 2]);
    let mut cpu = Cpu { rflags: ENABLED };
    let g = m.lock(&mut cpu);
    assert_eq!(m.get(&g), &vec![1, 2]);
    m.set(&g, vec![9]);
    m.unlock(g, &mut cpu);
    assert_eq!(m.into_inner(), vec![9]);
}

#[test]
fn support_is_built_once() {
    let mut m: Mutex<u8, SpinNoIrq> = Mutex::new(0);
    m.ensure_support();
    m.ensure_support();
    let mut cpu = Cpu { rflags: ENABLED };
    let g = m.lock(&mut cpu);
    m.unlock(g, &mut cpu);
    assert_eq!(m.into_inner(), 0);
}

#[test]
fn contention_is_reported_once_at_the_bound() {
    let m: Mutex<u8, Spin> = Mutex::new(0);
    assert_eq!(m.spin_step(0), (1, false));
    assert_eq!(m.spin_step(CONTENTION_REPORT_SPINS - 1), (CONTENTION_REPORT_SPINS, true));
    assert_eq!(m.spin_step(CONTENTION_REPORT_SPINS), (CONTENTION_REPORT_SPINS + 1, false));
    assert_eq!(m.spin_step(u64::MAX), (u64::MAX, false));
}

#[test]
fn flags_guard_round_trip() {
    let mut cpu = Cpu { rflags: 0x286 };
    let g = FlagsGuard::no_irq_region(&mut cpu);
    assert_eq!(g.saved_flags(), 0x286);
    assert_eq!(cpu.rflags, 0x286 & !RFLAGS_IF);
    g.release(&mut cpu);
    assert_eq!(cpu.rflags, 0x286);
}

#[test]
fn disable_and_store_returns_previous_flags() {
    let mut cpu = Cpu { rflags: ENABLED };
    assert_eq!(cpu.disable_and_store(), ENABLED);
    assert_eq!(cpu.rflags, DISABLED);
    cpu.restore(0x1234);
    assert_eq!(cpu.rflags, 0x1234);
}
