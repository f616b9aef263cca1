use irq_mutex::InterruptController;
use irq_mutex::InterruptFlag;
use irq_mutex::Mutex;

#[test]
fn lock_masks_enabled_interrupts_until_release() {
    let mutex = Mutex::new(5u32);
    let mut cpu = InterruptFlag::new(true);
    let before = cpu.are_enabled();
    let guard = mutex.lock(&mut cpu);
    let masked_during = !cpu.are_enabled();
    assert!(guard.reenables_interrupts());
    assert_eq!(*guard, 5);
    assert!(!cpu.are_enabled());
    guard.release(&mut cpu);
    let after = cpu.are_enabled();
    assert_eq!((before, masked_during, after), (true, true, true));
}

#[test]
fn lock_inside_masked_context_never_unmasks() {
    let mutex = Mutex::new(5u32);
    let mut cpu = InterruptFlag::new(false);
    let guard = mutex.lock(&mut cpu);
    let during = cpu.are_enabled();
    assert!(!guard.reenables_interrupts());
    guard.release(&mut cpu);
    let after = cpu.are_enabled();
    assert_eq!((during, after), (false, false));
}

#[test]
fn flag_after_release_equals_flag_before_lock() {
    for start in [false, true] {
        let mutex = Mutex::new(());
        let mut cpu = InterruptFlag::new(start);
        let guard = mutex.lock(&mut cpu);
        assert!(!cpu.are_enabled());
        assert_eq!(guard.reenables_interrupts(), start);
        guard.release(&mut cpu);
        assert_eq!(cpu.are_enabled(), start);
    }
}

#[test]
fn nested_sections_unmask_only_at_the_outer_release() {
    let outer = Mutex::new(1u8);
    let inner = Mutex::new(2u8);
    let mut cpu = InterruptFlag::new(true);
    let outer_guard = outer.lock(&mut cpu);
    assert!(!cpu.are_enabled());
    let inner_guard = inner.lock(&mut cpu);
    assert!(!cpu.are_enabled());
    assert!(outer_guard.reenables_interrupts());
    assert!(!inner_guard.reenables_interrupts());
    inner_guard.release(&mut cpu);
    assert!(!cpu.are_enabled());
    outer_guard.release(&mut cpu);
    assert!(cpu.are_enabled());
}

#[test]
fn nested_sections_in_masked_context_stay_masked() {
    let outer = Mutex::new(1u8);
    let inner = Mutex::new(2u8);
    let mut cpu = InterruptFlag::new(false);
    let outer_guard = outer.lock(&mut cpu);
    let inner_guard = inner.try_lock(&mut cpu).unwrap();
    assert!(!cpu.are_enabled());
    inner_guard.release(&mut cpu);
    assert!(!cpu.are_enabled());
    outer_guard.release(&mut cpu);
    assert!(!cpu.are_enabled());
}

#[test]
fn release_sets_the_flag_even_if_it_was_set_meanwhile() {
    let mutex = Mutex::new(0u8);
    let mut cpu = InterruptFlag::new(true);
    let guard = mutex.lock(&mut cpu);
    cpu.enable();
    guard.release(&mut cpu);
    assert!(cpu.are_enabled());
}

#[test]
fn release_of_a_guard_taken_masked_leaves_a_set_flag_set() {
    let mutex = Mutex::new(0u8);
    let mut cpu = InterruptFlag::new(false);
    let guard = mutex.lock(&mut cpu);
    cpu.enable();
    guard.release(&mut cpu);
    assert!(cpu.are_enabled());
}

#[test]
fn guard_that_goes_out_of_scope_frees_the_lock_and_leaves_interrupts_masked() {
    let mutex = Mutex::new(0u8);
    let mut cpu = InterruptFlag::new(true);
    {
        let _guard = mutex.lock(&mut cpu);
    }
    assert!(!cpu.are_enabled());
    let again = mutex.try_lock(&mut cpu);
    assert!(again.is_some());
}

#[test]
fn lock_can_be_taken_again_after_release() {
    let mutex = Mutex::new(7i64);
    let mut cpu = InterruptFlag::new(true);
    for _ in 0..3 {
        let guard = mutex.lock(&mut cpu);
        assert_eq!(*guard, 7);
        guard.release(&mut cpu);
        assert!(cpu.are_enabled());
    }
}
