use gamuboy::interrupts::InterruptRegisters;
use gamuboy::timer::Timer;

fn enabled_timer(code: u8) -> Timer {
    let mut timer = Timer::new();
    timer.write_byte(0xFF07, 4 + code);
    timer
}

// A fresh timer has no reload pending: enabling it raises no interrupt
// until TIMA actually overflows.
#[test]
fn test_timer_no_interrupt_before_overflow() {
    let mut timer = enabled_timer(1);
    let mut ints = InterruptRegisters::new();
    for _ in 0..64 {
        timer.step(&mut ints, 4, false);
    }
    assert_eq!(false, ints.flag_timer);
}

// Timer-interrupt latency: with TIMA at 0xFF, the step whose falling edge
// increments it wraps TIMA to zero without an interrupt; the interrupt
// arrives exactly one step later, with TIMA reloaded from TMA.
#[test]
fn test_timer_overflow_latency() {
    let mut timer = enabled_timer(1); // clock select 1: counter bit 3
    let mut ints = InterruptRegisters::new();
    timer.write_byte(0xFF05, 0xFF);
    timer.write_byte(0xFF06, 0x42);

    // Walk to the falling edge of bit 3: counter 8 -> 16 crosses it.
    timer.step(&mut ints, 8, false);
    assert_eq!(0xFF, timer.read_byte(0xFF05));
    assert_eq!(false, ints.flag_timer);
    timer.step(&mut ints, 8, false);
    assert_eq!(0x00, timer.read_byte(0xFF05));
    assert_eq!(false, ints.flag_timer);

    // One more machine cycle: the reload and the interrupt arrive together.
    timer.step(&mut ints, 4, false);
    assert_eq!(0x42, timer.read_byte(0xFF05));
    assert_eq!(true, ints.flag_timer);
}

// DIV is the counter's high byte and any write resets it.
#[test]
fn test_timer_div_reset_on_write() {
    let mut timer = Timer::new();
    let mut ints = InterruptRegisters::new();
    for _ in 0..0x40 {
        timer.step(&mut ints, 16, false);
    }
    assert_eq!(4, timer.read_byte(0xFF04));
    timer.write_byte(0xFF04, 0xAB); // the written value is irrelevant
    assert_eq!(0, timer.read_byte(0xFF04));
}

// TIMA and TMA read back whole; TAC keeps its low three bits.
#[test]
fn test_timer_register_readback() {
    let mut timer = Timer::new();
    timer.write_byte(0xFF05, 0x77);
    assert_eq!(0x77, timer.read_byte(0xFF05));
    timer.write_byte(0xFF06, 0x88);
    assert_eq!(0x88, timer.read_byte(0xFF06));
    timer.write_byte(0xFF07, 0xFF);
    assert_eq!(0x07, timer.read_byte(0xFF07));
}

// The frame-sequencer event follows DIV bit 4 falling (bit 12 of the
// counter), and bit 5 in double-speed mode.
#[test]
fn test_timer_div_apu_event() {
    let mut timer = Timer::new();
    let mut ints = InterruptRegisters::new();
    let mut events = 0u32;
    let mut steps = 0u32;
    while steps < 0x4000 {
        timer.step(&mut ints, 16, false);
        if timer.check_apu_div() {
            events += 1;
        }
        steps += 16;
    }
    // 0x4000 counter ticks cross bit 12 twice.
    assert_eq!(2, events);
}
