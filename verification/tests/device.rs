use gpio::{Direction, Gpio, GpioError, Pud, Status};
use memmap::MmapMut;

fn blank() -> Gpio {
    match Gpio::new(MmapMut::map_anon(4096).unwrap()) {
        Ok(gpio) => gpio,
        Err(e) => panic!("a page was refused: {:?}", e),
    }
}

fn filled(word: u32) -> Gpio {
    let mut gpio = blank();
    let mut index: u32 = 0;
    while index < 1024 {
        gpio.write_register(index, word).unwrap();
        index += 1;
    }
    gpio
}

fn registers(gpio: &mut Gpio) -> Vec<u32> {
    let mut all: Vec<u32> = Vec::new();
    let mut index: u32 = 0;
    while index < 1024 {
        all.push(gpio.read_register(index).unwrap());
        index += 1;
    }
    all
}

#[test]
fn new_takes_exactly_one_page() {
    assert!(Gpio::new(MmapMut::map_anon(4096).unwrap()).is_ok());
}

#[test]
fn new_refuses_a_shorter_region() {
    assert!(matches!(Gpio::new(MmapMut::map_anon(4092).unwrap()), Err(GpioError::BadLength)));
    assert!(matches!(Gpio::new(MmapMut::map_anon(1).unwrap()), Err(GpioError::BadLength)));
}

#[test]
fn new_refuses_a_longer_region() {
    assert!(matches!(Gpio::new(MmapMut::map_anon(4100).unwrap()), Err(GpioError::BadLength)));
    assert!(matches!(Gpio::new(MmapMut::map_anon(8192).unwrap()), Err(GpioError::BadLength)));
}

#[test]
fn fresh_block_reads_zero_everywhere() {
    let mut gpio = blank();
    assert!(registers(&mut gpio).iter().all(|&word| word == 0));
}

#[test]
fn register_is_read_least_significant_byte_first() {
    let mut map = MmapMut::map_anon(4096).unwrap();
    map[28] = 0x78;
    map[29] = 0x56;
    map[30] = 0x34;
    map[31] = 0x12;
    let mut gpio = Gpio::new(map).unwrap_or_else(|e| panic!("{:?}", e));
    assert_eq!(gpio.read_register(7), Ok(0x1234_5678));
    assert_eq!(gpio.read_register(6), Ok(0));
    assert_eq!(gpio.read_register(8), Ok(0));
}

#[test]
fn register_is_written_least_significant_byte_first() {
    let mut gpio = blank();
    assert_eq!(gpio.write_register(10, 0x1234_5678), Ok(()));
    let map = gpio.into_map();
    assert_eq!(map.len(), 4096);
    assert_eq!(&map[40..44], &[0x78, 0x56, 0x34, 0x12]);
    assert!(map[..40].iter().all(|&byte| byte == 0));
    assert!(map[44..].iter().all(|&byte| byte == 0));
}

#[test]
fn written_register_reads_back() {
    let mut gpio = blank();
    assert_eq!(gpio.write_register(0, 0xdead_beef), Ok(()));
    assert_eq!(gpio.write_register(1023, 0x0bad_cafe), Ok(()));
    assert_eq!(gpio.read_register(0), Ok(0xdead_beef));
    assert_eq!(gpio.read_register(1023), Ok(0x0bad_cafe));
    assert_eq!(gpio.read_register(1), Ok(0));
    assert_eq!(gpio.read_register(1022), Ok(0));
}

#[test]
fn write_changes_one_register_only() {
    let mut gpio = filled(0x5555_5555);
    gpio.write_register(500, 0xaaaa_aaaa).unwrap();
    let all = registers(&mut gpio);
    let mut index: usize = 0;
    while index < 1024 {
        let expected: u32 = if index == 500 { 0xaaaa_aaaa } else { 0x5555_5555 };
        assert_eq!(all[index], expected);
        index += 1;
    }
}

#[test]
fn read_outside_the_block_fails() {
    let mut gpio = blank();
    assert_eq!(gpio.read_register(1024), Err(GpioError::OutOfBounds));
    assert_eq!(gpio.read_register(0x4000_0000), Err(GpioError::OutOfBounds));
    assert_eq!(gpio.read_register(u32::MAX), Err(GpioError::OutOfBounds));
}

#[test]
fn write_outside_the_block_fails_and_changes_nothing() {
    let mut gpio = filled(0x0101_0101);
    assert_eq!(gpio.write_register(1024, 7), Err(GpioError::OutOfBounds));
    assert_eq!(gpio.write_register(0x4000_0000, 7), Err(GpioError::OutOfBounds));
    assert_eq!(gpio.write_register(u32::MAX, 7), Err(GpioError::OutOfBounds));
    assert!(registers(&mut gpio).iter().all(|&word| word == 0x0101_0101));
}

#[test]
fn set_pull_clears_the_mode_bits_for_every_mode() {
    for pud in [Pud::Off, Pud::Down, Pud::Up] {
        let mut gpio = filled(0xffff_ffff);
        assert_eq!(gpio.set_pullupdn(21, pud), Ok(()));
        assert_eq!(gpio.read_register(37), Ok(0xffff_fffc));
        assert_eq!(gpio.read_register(37).unwrap() & 3, 0);
    }
}

#[test]
fn set_pull_takes_the_strobe_back() {
    let mut gpio = filled(0xffff_ffff);
    assert_eq!(gpio.set_pullupdn(21, Pud::Up), Ok(()));
    assert_eq!(gpio.read_register(38), Ok(0));
    assert_eq!(gpio.read_register(39), Ok(0xffff_ffff));
    let mut gpio = filled(0xffff_ffff);
    assert_eq!(gpio.set_pullupdn(40, Pud::Down), Ok(()));
    assert_eq!(gpio.read_register(38), Ok(0xffff_ffff));
    assert_eq!(gpio.read_register(39), Ok(0));
}

#[test]
fn set_pull_touches_two_registers_only() {
    let mut gpio = filled(0x1234_5677);
    assert_eq!(gpio.set_pullupdn(53, Pud::Up), Ok(()));
    let all = registers(&mut gpio);
    let mut index: usize = 0;
    while index < 1024 {
        let expected: u32 = match index {
            37 => 0x1234_5674,
            39 => 0,
            _ => 0x1234_5677,
        };
        assert_eq!(all[index], expected);
        index += 1;
    }
}

#[test]
fn set_pull_is_the_same_twice() {
    let mut gpio = filled(0x0000_0003);
    assert_eq!(gpio.set_pullupdn(7, Pud::Down), Ok(()));
    let once = registers(&mut gpio);
    assert_eq!(gpio.set_pullupdn(7, Pud::Down), Ok(()));
    assert_eq!(registers(&mut gpio), once);
}

#[test]
fn set_pull_beyond_the_block_leaves_the_mode_staged() {
    let mut gpio = filled(0xffff_fffc);
    assert_eq!(gpio.set_pullupdn(31552, Pud::Up), Err(GpioError::OutOfBounds));
    assert_eq!(gpio.read_register(37), Ok(0xffff_fffe));
    let mut gpio = filled(0xffff_ffff);
    assert_eq!(gpio.set_pullupdn(u32::MAX, Pud::Down), Err(GpioError::OutOfBounds));
    assert_eq!(gpio.read_register(37), Ok(0xffff_fffd));
}

#[test]
fn set_pull_on_the_last_clock_register_of_the_block() {
    let mut gpio = filled(0xffff_ffff);
    assert_eq!(gpio.set_pullupdn(31551, Pud::Up), Ok(()));
    assert_eq!(gpio.read_register(1023), Ok(0));
    assert_eq!(gpio.read_register(37), Ok(0xffff_fffc));
}

#[test]
fn setup_output_writes_code_one_into_the_field() {
    let mut gpio = blank();
    assert_eq!(gpio.setup(21, Direction::Output, Pud::Up), Ok(()));
    assert_eq!(gpio.read_register(2), Ok(1 << 3));
}

#[test]
fn setup_input_writes_code_zero_into_the_field() {
    let mut gpio = filled(0xffff_ffff);
    assert_eq!(gpio.setup(21, Direction::Input, Pud::Off), Ok(()));
    assert_eq!(gpio.read_register(2), Ok(0xffff_ffc7));
}

#[test]
fn setup_of_pin_five_keeps_pins_four_and_six() {
    let mut gpio = blank();
    let before: u32 = 0b110_111_101 << 12;
    gpio.write_register(0, before).unwrap();
    assert_eq!(gpio.setup(5, Direction::Output, Pud::Off), Ok(()));
    let after: u32 = gpio.read_register(0).unwrap();
    assert_eq!((after >> 12) & 7, 0b101);
    assert_eq!((after >> 18) & 7, 0b110);
    assert_eq!((after >> 15) & 7, 1);
    assert_eq!(after, 0b110_001_101 << 12);
}

#[test]
fn setup_keeps_every_other_field_of_the_register() {
    let mut pin: u32 = 0;
    while pin <= 53 {
        let mut gpio = filled(0x2d6b_5ad6);
        assert_eq!(gpio.setup(pin, Direction::Output, Pud::Down), Ok(()));
        let after: u32 = gpio.read_register(pin / 10).unwrap();
        let shift: u32 = (pin % 10) * 3;
        assert_eq!(after & !(7 << shift), 0x2d6b_5ad6 & !(7 << shift));
        pin += 1;
    }
}

#[test]
fn setup_round_trips_the_direction_code() {
    let mut pin: u32 = 0;
    while pin <= 53 {
        for (direction, code) in [(Direction::Output, 1u32), (Direction::Input, 0u32)] {
            let mut gpio = filled(0xffff_ffff);
            assert_eq!(gpio.setup(pin, direction, Pud::Up), Ok(()));
            let word: u32 = gpio.read_register(pin / 10).unwrap();
            assert_eq!((word >> ((pin % 10) * 3)) & 7, code);
            assert_eq!(gpio::field::read_field(word, gpio::layout::select_shift(pin), 3), code);
        }
        pin += 1;
    }
}

#[test]
fn setup_runs_the_pull_sequence_too() {
    let mut gpio = filled(0xffff_ffff);
    assert_eq!(gpio.setup(21, Direction::Output, Pud::Up), Ok(()));
    assert_eq!(gpio.read_register(37), Ok(0xffff_fffc));
    assert_eq!(gpio.read_register(38), Ok(0));
}

#[test]
fn setup_beyond_the_select_registers_fails_after_the_pull_sequence() {
    let mut gpio = filled(0xffff_ffff);
    assert_eq!(gpio.setup(10240, Direction::Output, Pud::Up), Err(GpioError::OutOfBounds));
    assert_eq!(gpio.read_register(37), Ok(0xffff_fffc));
    assert_eq!(gpio.read_register(38 + 320), Ok(0));
}

#[test]
fn setup_on_the_last_select_register_of_the_block() {
    let mut gpio = blank();
    assert_eq!(gpio.setup(10239, Direction::Output, Pud::Off), Ok(()));
    assert_eq!(gpio.read_register(1023), Ok(1 << 27));
}

#[test]
fn setup_beyond_the_clock_registers_fails_with_the_mode_staged() {
    let mut gpio = filled(0xffff_fffc);
    assert_eq!(gpio.setup(31552, Direction::Output, Pud::Down), Err(GpioError::OutOfBounds));
    assert_eq!(gpio.read_register(37), Ok(0xffff_fffd));
}

#[test]
fn output_high_writes_the_set_register_only() {
    let mut pin: u32 = 0;
    while pin <= 53 {
        let mut gpio = blank();
        assert_eq!(gpio.output(pin, Status::High), Ok(()));
        let all = registers(&mut gpio);
        let mut index: usize = 0;
        while index < 1024 {
            let expected: u32 = if index == 7 + (pin / 32) as usize { 1 << (pin % 32) } else { 0 };
            assert_eq!(all[index], expected);
            index += 1;
        }
        pin += 1;
    }
}

#[test]
fn output_low_writes_the_clear_register_only() {
    let mut pin: u32 = 0;
    while pin <= 53 {
        let mut gpio = blank();
        assert_eq!(gpio.output(pin, Status::Low), Ok(()));
        let all = registers(&mut gpio);
        let mut index: usize = 0;
        while index < 1024 {
            let expected: u32 = if index == 10 + (pin / 32) as usize { 1 << (pin % 32) } else { 0 };
            assert_eq!(all[index], expected);
            index += 1;
        }
        pin += 1;
    }
}

#[test]
fn output_writes_the_bit_alone() {
    let mut gpio = filled(0xffff_ffff);
    assert_eq!(gpio.output(21, Status::High), Ok(()));
    assert_eq!(gpio.read_register(7), Ok(0x0020_0000));
    assert_eq!(gpio.output(21, Status::Low), Ok(()));
    assert_eq!(gpio.read_register(10), Ok(0x0020_0000));
}

#[test]
fn output_beyond_the_block_fails_and_changes_nothing() {
    let mut gpio = filled(0x0f0f_0f0f);
    assert_eq!(gpio.output(32544, Status::High), Err(GpioError::OutOfBounds));
    assert_eq!(gpio.output(32448, Status::Low), Err(GpioError::OutOfBounds));
    assert_eq!(gpio.output(u32::MAX, Status::High), Err(GpioError::OutOfBounds));
    assert!(registers(&mut gpio).iter().all(|&word| word == 0x0f0f_0f0f));
}

#[test]
fn output_on_the_last_registers_of_the_block() {
    let mut gpio = blank();
    assert_eq!(gpio.output(32543, Status::High), Ok(()));
    assert_eq!(gpio.read_register(1023), Ok(0x8000_0000));
    assert_eq!(gpio.output(32447, Status::Low), Ok(()));
    assert_eq!(gpio.read_register(1023), Ok(0x8000_0000));
    assert_eq!(gpio.output(32512, Status::High), Ok(()));
    assert_eq!(gpio.read_register(1023), Ok(1));
}

#[test]
fn input_reads_the_bit_of_the_level_register() {
    let mut gpio = blank();
    gpio.write_register(13, 0x0020_0000).unwrap();
    assert_eq!(gpio.input(21), Ok(Status::High));
    assert_eq!(gpio.input(20), Ok(Status::Low));
    assert_eq!(gpio.input(22), Ok(Status::Low));
    assert_eq!(gpio.input(53), Ok(Status::Low));
    gpio.write_register(14, 0x0020_0000).unwrap();
    assert_eq!(gpio.input(53), Ok(Status::High));
}

#[test]
fn input_of_the_top_bit_is_high() {
    let mut gpio = blank();
    gpio.write_register(13, 0x8000_0000).unwrap();
    assert_eq!(gpio.input(31), Ok(Status::High));
    assert_eq!(gpio.input(0), Ok(Status::Low));
}

#[test]
fn input_changes_nothing() {
    let mut gpio = filled(0x1357_9bdf);
    assert_eq!(gpio.input(20), Ok(Status::High));
    assert_eq!(gpio.input(21), Ok(Status::Low));
    assert_eq!(gpio.input(5), Ok(Status::Low));
    assert!(registers(&mut gpio).iter().all(|&word| word == 0x1357_9bdf));
}

#[test]
fn input_beyond_the_block_fails() {
    let mut gpio = filled(0xffff_ffff);
    assert_eq!(gpio.input(32351), Ok(Status::High));
    assert_eq!(gpio.input(32352), Err(GpioError::OutOfBounds));
    assert_eq!(gpio.input(u32::MAX), Err(GpioError::OutOfBounds));
}

#[test]
fn setup_then_output_high_then_input() {
    let mut gpio = blank();
    assert_eq!(gpio.setup(21, Direction::Output, Pud::Up), Ok(()));
    assert_eq!(gpio.output(21, Status::High), Ok(()));
    let set: u32 = gpio.read_register(7).unwrap();
    assert_eq!(set & (1 << 21), 1 << 21);
    // A plain buffer has no pin behind it: the level register follows the
    // set register only because this line carries the bit over.
    gpio.write_register(13, set).unwrap();
    assert_eq!(gpio.input(21), Ok(Status::High));
}

#[test]
fn blink_leaves_the_bit_in_both_drive_registers() {
    let mut gpio = blank();
    assert_eq!(gpio.setup(21, Direction::Output, Pud::Up), Ok(()));
    let mut round: u32 = 0;
    while round < 100 {
        assert_eq!(gpio.output(21, Status::High), Ok(()));
        assert_eq!(gpio.output(21, Status::Low), Ok(()));
        round += 1;
    }
    assert_eq!(gpio.read_register(7), Ok(0x0020_0000));
    assert_eq!(gpio.read_register(10), Ok(0x0020_0000));
    assert_eq!(gpio.read_register(2), Ok(1 << 3));
}
