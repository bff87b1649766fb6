use gamuboy::apu::{WaveRam, APU, NR11, NR12, NR13, NR14, NR50, NR51, NR52};

#[test]
fn test_waveram_handle_period() {
    let mut wave_ram = WaveRam::new();

    wave_ram.ram[0] = 0xD1;
    wave_ram.ram[1] = 0xF3;
    wave_ram.ram[2] = 0x7E;

    wave_ram.handle_period();
    assert_eq!(1, wave_ram.sample_index);
    assert_eq!(0x1, wave_ram.sample_buffer);

    wave_ram.handle_period();
    assert_eq!(2, wave_ram.sample_index);
    assert_eq!(0xF, wave_ram.sample_buffer);

    wave_ram.handle_period();
    assert_eq!(3, wave_ram.sample_index);
    assert_eq!(0x3, wave_ram.sample_buffer);

    wave_ram.handle_period();
    assert_eq!(4, wave_ram.sample_index);
    assert_eq!(0x7, wave_ram.sample_buffer);

    wave_ram.sample_index = 31;

    wave_ram.handle_period();
    assert_eq!(0, wave_ram.sample_index);
    assert_eq!(0xD, wave_ram.sample_buffer);
}

fn powered_apu() -> APU {
    let mut apu = APU::new();
    apu.write_byte(NR52, 0x80);
    apu
}

// Powering the unit off and on again preserves exactly the wave memory and
// the four length counters; everything else resets.
#[test]
fn test_apu_power_cycle_preserves_wave_ram_and_lengths() {
    let mut apu = powered_apu();
    // Fill wave memory with a pattern and load the length counters.
    for i in 0..16u16 {
        apu.write_byte(0xFF30 + i, (i as u8) * 17);
    }
    apu.write_byte(NR11, 0x3F); // square 1 length
    apu.write_byte(0xFF16, 0x20); // square 2 length
    apu.write_byte(0xFF1B, 0x80); // wave length
    apu.write_byte(0xFF20, 0x15); // noise length
    apu.write_byte(NR50, 0x77);
    apu.write_byte(NR51, 0xFF);
    apu.write_byte(NR12, 0xF3); // power square 1's DAC

    let len1 = apu.ch1.length_timer.timer;
    let len2 = apu.ch2.length_timer.timer;
    let len3 = apu.ch3.length_timer.timer;
    let len4 = apu.ch4.length_timer.timer;

    apu.write_byte(NR52, 0x00); // power off
    assert_eq!(false, apu.on);

    for i in 0..16u16 {
        assert_eq!((i as u8) * 17, apu.ch3.wave_ram.ram[i as usize]);
    }
    assert_eq!(len1, apu.ch1.length_timer.timer);
    assert_eq!(len2, apu.ch2.length_timer.timer);
    assert_eq!(len3, apu.ch3.length_timer.timer);
    assert_eq!(len4, apu.ch4.length_timer.timer);
    assert_eq!(0, apu.left_volume);
    assert_eq!(0, apu.right_volume);
    assert_eq!(0x00, apu.read_byte(NR51));
    assert_eq!(false, apu.ch1.dac_on);
    assert_eq!(0, apu.ch1.envelope.initial_volume);

    // While off, ordinary register writes are ignored.
    apu.write_byte(NR50, 0x44);
    assert_eq!(0, apu.left_volume);

    apu.write_byte(NR52, 0x80); // power on again
    assert_eq!(true, apu.on);
    for i in 0..16u16 {
        assert_eq!((i as u8) * 17, apu.ch3.wave_ram.ram[i as usize]);
    }
}

// Writing NR14's length-enable bit on an even frame-sequencer step while
// the length counter holds a value clocks the length once at that moment.
#[test]
fn test_nr14_length_enable_on_even_step_clocks_length() {
    let mut apu = powered_apu();
    apu.write_byte(NR12, 0xF0); // DAC on
    apu.write_byte(NR11, 0x3E); // length counter = 64 - 62 = 2
    assert_eq!(2, apu.ch1.length_timer.timer);
    apu.current_step = 0;

    // Enable length while previously disabled, on step 0 (first half of a
    // length period): the counter is clocked immediately.
    apu.write_byte(NR14, 0x40);
    assert_eq!(1, apu.ch1.length_timer.timer);

    // Doing the same from an odd step leaves the counter alone.
    let mut apu = powered_apu();
    apu.write_byte(NR12, 0xF0);
    apu.write_byte(NR11, 0x3E);
    apu.current_step = 1;
    apu.write_byte(NR14, 0x40);
    assert_eq!(2, apu.ch1.length_timer.timer);
}

// Triggering a disabled channel with the length-enable bit turns it on and
// an immediately expiring length silences it again on the next even step.
#[test]
fn test_nr14_trigger_turns_channel_on() {
    let mut apu = powered_apu();
    apu.write_byte(NR12, 0xF0);
    apu.write_byte(NR13, 0x00);
    assert_eq!(false, apu.ch1.on);
    apu.write_byte(NR14, 0x80);
    assert_eq!(true, apu.ch1.on);
    assert_eq!(64, apu.ch1.length_timer.timer);
}

// Sound register read-back masks, as the hardware test programs check
// them: unused and write-only bits read as ones.
#[test]
fn test_apu_register_readback_masks() {
    let mut apu = powered_apu();
    apu.write_byte(0xFF10, 0x00);
    assert_eq!(0x80, apu.read_byte(0xFF10)); // NR10: top bit reads one
    apu.write_byte(NR11, 0x80);
    assert_eq!(0x80 | 0x3F, apu.read_byte(NR11)); // duty bits only
    apu.write_byte(NR12, 0xA5);
    assert_eq!(0xA5, apu.read_byte(NR12)); // envelope reads back whole
    assert_eq!(0xFF, apu.read_byte(NR13)); // period low is write-only
    apu.write_byte(NR14, 0x40);
    assert_eq!(0xFF, apu.read_byte(NR14)); // only length-enable readable
    apu.write_byte(NR14, 0x00);
    assert_eq!(0xBF, apu.read_byte(NR14));
    apu.write_byte(NR50, 0x5A);
    assert_eq!(0x5A, apu.read_byte(NR50));
    apu.write_byte(NR51, 0xC3);
    assert_eq!(0xC3, apu.read_byte(NR51));
    assert_eq!(0x80 | 0x70, apu.read_byte(NR52) & 0xF0);
}

// The mixer produces exact integer numerators: with one square channel held
// high at full volume and panned to one side, the sample is the documented
// affine image of the digital level.
#[test]
fn test_mix_numerators() {
    let mut apu = powered_apu();
    apu.write_byte(NR50, 0x07); // right volume 7 (treated as 8), left 0 (as 1)
    apu.write_byte(NR51, 0x01); // channel 1 to the right only
    apu.write_byte(NR12, 0xF0); // DAC on, volume 15
    apu.write_byte(NR14, 0x80); // trigger: volume latches 15
    apu.ch1.duty_step_counter = 7; // Eighth duty outputs 1 at step 7

    let (left, right) = apu.mix();
    assert_eq!(0, left);
    // term = 2 * 15 - 15 = 15; right = 15 * 8 = 120 over the fixed
    // denominator 420, i.e. the float 15/15/4 * 8/7.
    assert_eq!(120, right);
}

// A full block of samples becomes available after enough cycles.
#[test]
fn test_apu_sample_block_delivery() {
    let mut apu = powered_apu();
    let mut produced = None;
    let mut guard = 0u32;
    while produced.is_none() && guard < 200_000 {
        apu.step(87, false);
        produced = apu.take_samples();
        guard += 1;
    }
    let block = produced.expect("a sample block should complete");
    assert_eq!(1024, block.len());
}
