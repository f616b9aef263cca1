use irq_mutex::InterruptController;
use irq_mutex::InterruptFlag;
use irq_mutex::X86Interrupts;

#[test]
fn interrupt_flag_starts_as_given() {
    assert!(InterruptFlag::new(true).are_enabled());
    assert!(!InterruptFlag::new(false).are_enabled());
}

#[test]
fn interrupt_flag_follows_disable_and_enable() {
    let mut cpu = InterruptFlag::new(true);
    cpu.disable();
    assert!(!cpu.are_enabled());
    cpu.disable();
    assert!(!cpu.are_enabled());
    cpu.enable();
    assert!(cpu.are_enabled());
    cpu.enable();
    assert!(cpu.are_enabled());
}

#[test]
fn x86_handle_starts_from_the_flag_of_the_cpu() {
    let cpu = X86Interrupts::current();
    assert_eq!(cpu.are_enabled(), x86_64::instructions::interrupts::are_enabled());
}
