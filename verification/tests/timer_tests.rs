//! Timer behavior: the tick counter, the display cadence, the clock
//! arithmetic, and the digit formatting.

use boot_handoff::timer::{
    clock_digits, decimal_digits, Timer, DISPLAY_INTERVAL, PIT_CHANNEL0_HZ, PIT_CHANNEL0_PORT,
    PIT_COMMAND_BYTE, PIT_COMMAND_PORT,
};

#[test]
fn new_timer_has_no_ticks() {
    let timer = Timer::new();
    assert_eq!(timer.timer_get_ticks(), 0);
}

#[test]
fn callback_increments_and_reports_on_the_interval() {
    let mut timer = Timer::new();
    let report = timer.timer_callback().expect("tick 0 refreshes the display");
    assert_eq!(report.ticks, 1);
    assert_eq!(timer.timer_get_ticks(), 1);
    for expected in 2..=(DISPLAY_INTERVAL) {
        let r = timer.timer_callback();
        assert!(r.is_none(), "tick {} must not refresh", expected - 1);
        assert_eq!(timer.timer_get_ticks(), expected);
    }
    let report = timer.timer_callback().expect("the interval tick refreshes");
    assert_eq!(report.ticks, DISPLAY_INTERVAL + 1);
}

#[test]
fn report_reduces_elapsed_time_to_display_ranges() {
    let mut timer = Timer::new();
    // 2 hours, 3 minutes, 4 seconds of ticks, minus one for the tick the
    // callback itself adds; a multiple of the display interval.
    let seconds = 2 * 3600 + 3 * 60 + 4;
    timer.tick_count = seconds * PIT_CHANNEL0_HZ;
    assert_eq!(timer.tick_count % DISPLAY_INTERVAL, 0);
    let report = timer.timer_callback().expect("interval tick refreshes");
    assert_eq!(report.hours, 2);
    assert_eq!(report.minutes, 3);
    assert_eq!(report.seconds, 4);
}

#[test]
fn clock_digits_format_as_hh_mm_ss() {
    let v = clock_digits(2, 3, 4);
    assert_eq!(v, b"02:03:04".to_vec());
    let v = clock_digits(23, 59, 58);
    assert_eq!(v, b"23:59:58".to_vec());
}

#[test]
fn decimal_digits_render_exact_values() {
    assert_eq!(decimal_digits(0), b"0".to_vec());
    assert_eq!(decimal_digits(7), b"7".to_vec());
    assert_eq!(decimal_digits(10), b"10".to_vec());
    assert_eq!(decimal_digits(90210), b"90210".to_vec());
    assert_eq!(decimal_digits(u32::MAX), b"4294967295".to_vec());
}

#[test]
fn timer_init_programs_channel_zero() {
    let timer = Timer::new();
    let writes = timer.timer_init();
    assert_eq!(writes.len(), 3);
    assert_eq!(writes[0].port, PIT_COMMAND_PORT);
    assert_eq!(writes[0].value, PIT_COMMAND_BYTE);
    // 1193180 / 100 = 11931 = 0x2E9B.
    assert_eq!(writes[1].port, PIT_CHANNEL0_PORT);
    assert_eq!(writes[1].value, 0x9B);
    assert_eq!(writes[2].port, PIT_CHANNEL0_PORT);
    assert_eq!(writes[2].value, 0x2E);
}

#[test]
fn tick_counter_wraps_at_the_32_bit_limit() {
    let mut timer = Timer::new();
    timer.tick_count = u32::MAX;
    let report = timer.timer_callback();
    assert!(report.is_none());
    assert_eq!(timer.timer_get_ticks(), 0);
}
