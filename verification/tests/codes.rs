use simavr_sim::ioctl;
use simavr_sim::logging::LogAction;
use simavr_sim::logging::LogLevel;
use simavr_sim::logging::log_action;
use simavr_sim::uart;

#[test]
fn ioctl_packs_big_endian_style() {
    // byte0 << 24 | byte1 << 16 | byte2 << 8 | byte3, computed directly.
    assert_eq!(ioctl::ioctl(0x75, 0x61, 0x72, 0x30), 0x7561_7230);
    assert_eq!(ioctl::ioctl(0, 0, 0, 0), 0);
    assert_eq!(ioctl::ioctl(0xff, 0, 0, 1), 0xff00_0001);
}

#[test]
fn uart_irq_code_matches_direct_computation() {
    // 'u','a','r','0'
    assert_eq!(ioctl::uart('0'), 0x7561_7230);
}

#[test]
fn uart_get_flags_code_matches_direct_computation() {
    // 'u','a','g','0'
    assert_eq!(ioctl::uart_get_flags('0'), 0x7561_6730);
}

#[test]
fn uart_set_flags_code_matches_direct_computation() {
    // 'u','a','s','0'
    assert_eq!(ioctl::uart_set_flags('0'), 0x7561_7330);
}

#[test]
fn irq_names_keep_input_first() {
    let names = uart::irq_names();
    assert_eq!(names, vec!["8<uart_pty.in", "8>uart_pty.out"]);
}

#[test]
fn clearing_the_echo_bit_leaves_other_flags() {
    let mask = 0b10;
    assert_eq!(uart::clear_stdio_echo(0b111, mask), 0b101);
    assert_eq!(uart::clear_stdio_echo(0b101, mask), 0b101);
    assert_eq!(uart::clear_stdio_echo(0, mask), 0);
}

#[test]
fn signal_byte_is_the_low_byte() {
    assert_eq!(uart::signal_byte(0x41), 0x41);
    assert_eq!(uart::signal_byte(0x1234_5678), 0x78);
}

#[test]
fn bridge_connects_only_when_both_lines_resolve() {
    assert!(uart::bridge_active(true, true));
    assert!(!uart::bridge_active(true, false));
    assert!(!uart::bridge_active(false, true));
    assert!(!uart::bridge_active(false, false));
}

#[test]
fn log_policy_is_fail_fast_on_errors_only() {
    assert_eq!(log_action(LogLevel::Silent), LogAction::Discard);
    assert_eq!(log_action(LogLevel::Output), LogAction::Discard);
    assert_eq!(log_action(LogLevel::Error), LogAction::Fatal);
    assert_eq!(log_action(LogLevel::Warning), LogAction::Warn);
    assert_eq!(log_action(LogLevel::Trace), LogAction::Discard);
    assert_eq!(log_action(LogLevel::Debug), LogAction::Discard);
}
