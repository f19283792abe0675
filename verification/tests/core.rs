use chip8::bus::ram::Ram;
use chip8::bus::rng::Rng;
use chip8::bus::timer::Timer;
use chip8::bus::Bus;
use chip8::clock::Clock;
use chip8::cpu::CallStack;
use chip8::cpu::Cpu;
use chip8::cpu::ProgramCounter;
use chip8::crc16::Crc16;
use chip8::error::Error;

#[test]
fn ram_starts_zeroed() {
    let ram = Ram::new();
    for addr in 0..0x1000u16 {
        assert_eq!(ram.read(addr), Ok(0));
    }
}

#[test]
fn ram_write_then_read() {
    let mut ram = Ram::new();
    assert_eq!(ram.write(0x0000, 0x12), Ok(()));
    assert_eq!(ram.write(0x0fff, 0xab), Ok(()));
    assert_eq!(ram.read(0x0000), Ok(0x12));
    assert_eq!(ram.read(0x0fff), Ok(0xab));
    assert_eq!(ram.read(0x0ffe), Ok(0));
}

#[test]
fn ram_refuses_addresses_beyond_its_end() {
    let mut ram = Ram::new();
    assert_eq!(ram.write(0x1000, 1), Err(Error::AddressOutOfRange(0x1000)));
    assert_eq!(ram.read(0x1000), Err(Error::AddressOutOfRange(0x1000)));
    assert_eq!(ram.write(0xffff, 1), Err(Error::AddressOutOfRange(0xffff)));
    assert_eq!(ram.read(0xffff), Err(Error::AddressOutOfRange(0xffff)));
}

#[test]
fn ram_store_lays_bytes_in_order() {
    let mut ram = Ram::new();
    assert_eq!(ram.store(0x0300, &[1, 2, 3]), Ok(()));
    assert_eq!(ram.read(0x02ff), Ok(0));
    assert_eq!(ram.read(0x0300), Ok(1));
    assert_eq!(ram.read(0x0301), Ok(2));
    assert_eq!(ram.read(0x0302), Ok(3));
    assert_eq!(ram.read(0x0303), Ok(0));
    assert_eq!(ram.store(0x0300, &[]), Ok(()));
    assert_eq!(ram.store(0x2000, &[]), Ok(()));
}

#[test]
fn ram_store_stops_at_the_end_of_memory() {
    let mut ram = Ram::new();
    assert_eq!(ram.store(0x0ffe, &[7, 8, 9]), Err(Error::AddressOutOfRange(0x1000)));
    assert_eq!(ram.read(0x0ffe), Ok(7));
    assert_eq!(ram.read(0x0fff), Ok(8));
    assert_eq!(ram.store(0x1234, &[7]), Err(Error::AddressOutOfRange(0x1234)));
    assert_eq!(ram.store(0xffff, &[7, 8]), Err(Error::AddressOutOfRange(0xffff)));
    assert_eq!(ram.read(0x0000), Ok(0));
}

#[test]
fn rng_refuses_the_seed_zero() {
    let mut rng = Rng::new();
    assert_eq!(rng.seed(0), Err(Error::ZeroSeed));
    assert_eq!(rng.get_byte(), 0);
}

#[test]
fn rng_gives_known_bytes() {
    let mut rng = Rng::new();
    assert_eq!(rng.seed(0xcafe), Ok(()));
    let bytes: Vec<u8> = (0..8).map(|_| rng.get_byte()).collect();
    assert_eq!(bytes, vec![0xc0, 0x0d, 0x99, 0xe4, 0x27, 0x7a, 0xfd, 0x80]);
    let mut rng = Rng::new();
    assert_eq!(rng.seed(0x1234), Ok(()));
    assert_eq!(rng.get_byte(), 0xe4);
    assert_eq!(rng.get_byte(), 0xa9);
}

#[test]
fn rng_byte_is_made_of_the_bits_that_the_steps_compute() {
    // The seed 1 leaves the state 0xb111. The eight steps from there compute
    // the bits 0, 0, 0, 0, 1, 1, 0, 1.
    let mut bits = Rng::new();
    assert_eq!(bits.seed(0x0001), Ok(()));
    let computed: Vec<u8> = (0..8).map(|_| bits.next_bit()).collect();
    assert_eq!(computed, vec![0, 0, 0, 0, 1, 1, 0, 1]);
    let mut byte = Rng::new();
    assert_eq!(byte.seed(0x0001), Ok(()));
    assert_eq!(byte.get_byte(), 0x0d);
    // Both are eight steps on, in the state 0xb0b1, and go on alike.
    let next: Vec<u8> = (0..8).map(|_| bits.next_bit()).collect();
    assert_eq!(next, vec![0, 0, 1, 0, 1, 1, 0, 1]);
    assert_eq!(byte.get_byte(), 0x2d);
}

#[test]
fn rng_same_seed_same_bytes() {
    for seed in [1u16, 2, 0x00ff, 0x8000, 0xcafe, 0xffff] {
        let mut a = Rng::new();
        let mut b = Rng::new();
        assert_eq!(a.seed(seed), Ok(()));
        assert_eq!(b.seed(seed), Ok(()));
        for _ in 0..8 {
            assert_eq!(a.get_byte(), b.get_byte());
        }
    }
}

#[test]
fn rng_byte_is_eight_steps() {
    let mut a = Rng::new();
    let mut b = Rng::new();
    assert_eq!(a.seed(0xbeef), Ok(()));
    assert_eq!(b.seed(0xbeef), Ok(()));
    a.get_byte();
    for _ in 0..8 {
        b.next();
    }
    assert_eq!(a.get_byte(), b.get_byte());
}

#[test]
fn rng_reseeding_leaves_after_a_failed_seed() {
    let mut a = Rng::new();
    assert_eq!(a.seed(0xcafe), Ok(()));
    assert_eq!(a.seed(0), Err(Error::ZeroSeed));
    assert_eq!(a.get_byte(), 0xc0);
}

#[test]
fn timer_counts_down_and_stays_at_zero() {
    let mut t = Timer::new();
    assert_eq!(t.get(), 0);
    t.clock();
    assert_eq!(t.get(), 0);
    t.set(3);
    t.clock();
    assert_eq!(t.get(), 2);
    t.clock();
    t.clock();
    assert_eq!(t.get(), 0);
    t.clock();
    assert_eq!(t.get(), 0);
}

#[test]
fn timer_runs_out_after_as_many_ticks_as_it_held() {
    for v in [0u8, 1, 60, 255] {
        let mut t = Timer::new();
        t.set(v);
        for k in 0..v {
            assert_eq!(t.get(), v - k);
            t.clock();
        }
        assert_eq!(t.get(), 0);
        for _ in 0..5 {
            t.clock();
            assert_eq!(t.get(), 0);
        }
    }
}

#[test]
fn timer_can_be_armed_again_while_running() {
    let mut t = Timer::new();
    t.set(10);
    t.clock();
    t.set(200);
    t.clock();
    assert_eq!(t.get(), 199);
}

#[test]
fn clock_first_tick_fires_once() {
    let mut c = Clock::new(1000);
    assert_eq!(c.period(), 1000);
    assert_eq!(c.due(123_456), 1);
    assert_eq!(c.tick(123_456), 1);
    assert_eq!(c.due(123_456), 0);
}

#[test]
fn clock_catches_up() {
    let mut c = Clock::new(1000);
    assert_eq!(c.tick(5000), 1);
    assert_eq!(c.due(8500), 3);
    assert_eq!(c.tick(8500), 3);
    // 500 are left over: the next period ends at 9000, not at 9500.
    assert_eq!(c.due(8999), 0);
    assert_eq!(c.tick(8999), 0);
    assert_eq!(c.tick(9000), 1);
    assert_eq!(c.tick(9999), 0);
    assert_eq!(c.tick(10_000), 1);
}

#[test]
fn clock_does_not_fire_for_a_time_before_its_last() {
    let mut c = Clock::new(10);
    assert_eq!(c.tick(100), 1);
    assert_eq!(c.tick(50), 0);
    assert_eq!(c.tick(109), 0);
    assert_eq!(c.tick(110), 1);
}

#[test]
fn clock_handles_the_whole_range_of_times() {
    let mut c = Clock::new(1);
    assert_eq!(c.tick(0), 1);
    assert_eq!(c.tick(u64::MAX), u64::MAX);
    assert_eq!(c.tick(u64::MAX), 0);
    let mut c = Clock::new(u64::MAX);
    assert_eq!(c.tick(0), 1);
    assert_eq!(c.tick(u64::MAX - 1), 0);
    assert_eq!(c.tick(u64::MAX), 1);
}

#[test]
fn crc_check_value() {
    assert_eq!(Crc16::at_once(b"123456789"), 0x29b1);
    assert_eq!(Crc16::at_once(b""), 0xffff);
    assert_eq!(Crc16::at_once(&[0xff, 0xff]), 0x0000);
    assert_eq!(Crc16::at_once(&[0x60, 0x05, 0x70, 0x03]), 0x0ed8);
}

#[test]
fn crc_byte_by_byte_is_the_same() {
    let mut crc = Crc16::start();
    assert_eq!(crc.finish(), 0xffff);
    for byte in b"123456789" {
        crc.update(*byte);
    }
    assert_eq!(crc.finish(), 0x29b1);
}

#[test]
fn stack_discipline() {
    let mut cpu = Cpu::new();
    assert_eq!(cpu.depth(), 0);
    assert_eq!(cpu.stack_pop(), Err(Error::StackUnderflow));
    for k in 0..16 {
        assert_eq!(cpu.stack_push(0x200 + k), Ok(()));
    }
    assert_eq!(cpu.depth(), 16);
    assert_eq!(cpu.stack_push(0x300), Err(Error::StackOverflow));
    assert_eq!(cpu.depth(), 16);
    for k in (0..16).rev() {
        assert_eq!(cpu.stack_pop(), Ok(0x200 + k));
    }
    assert_eq!(cpu.stack_pop(), Err(Error::StackUnderflow));
    assert_eq!(cpu.depth(), 0);
}

#[test]
fn call_stack_on_its_own() {
    let mut stack = CallStack::new();
    assert_eq!(stack.len(), 0);
    assert_eq!(stack.pop(), Err(Error::StackUnderflow));
    assert_eq!(stack.push(7), Ok(()));
    assert_eq!(stack.push(9), Ok(()));
    assert_eq!(stack.len(), 2);
    assert_eq!(stack.pop(), Ok(9));
    stack.clear();
    assert_eq!(stack.len(), 0);
    assert_eq!(stack.pop(), Err(Error::StackUnderflow));
}

#[test]
fn cpu_starts_at_zero_and_init_points_it_at_a_program() {
    let mut cpu = Cpu::new();
    assert_eq!(cpu.registers(), &[0u8; 16]);
    assert_eq!(cpu.index(), 0);
    assert_eq!(cpu.pc(), 0);
    assert_eq!(cpu.stack_push(1), Ok(()));
    cpu.init(0x0200, 0x0050);
    assert_eq!(cpu.pc(), 0x0200);
    assert_eq!(cpu.depth(), 0);
}

#[test]
fn program_counter_directives() {
    assert_eq!(ProgramCounter::skip_if(true), ProgramCounter::Skip);
    assert_eq!(ProgramCounter::skip_if(false), ProgramCounter::Next);
    assert_eq!(ProgramCounter::wait_if(true), ProgramCounter::Wait);
    assert_eq!(ProgramCounter::wait_if(false), ProgramCounter::Next);
}

#[test]
fn bus_starts_at_rest() {
    let mut bus = Bus::new();
    assert_eq!(bus.dt.get(), 0);
    assert_eq!(bus.st.get(), 0);
    assert_eq!(bus.ram.read(0x0200), Ok(0));
    assert_eq!(bus.rng.get_byte(), 0);
}

#[test]
fn defaults_are_the_new_values() {
    assert_eq!(Ram::default().read(0x0123), Ok(0));
    assert_eq!(Rng::default().get_byte(), 0);
    assert_eq!(Timer::default().get(), 0);
    assert_eq!(Bus::default().st.get(), 0);
    let cpu = Cpu::default();
    assert_eq!(cpu.pc(), 0);
    assert_eq!(cpu.depth(), 0);
    assert_eq!(cpu.registers(), &[0u8; 16]);
}
