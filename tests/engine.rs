use gb_core::bus::MemoryBus;
use gb_core::cartridge::CartridgeError;
use gb_core::config::Audio;
use gb_core::cpu::{StepFailure, CPU};
use gb_core::instruction::DecodeFailure;
use gb_core::session::{on_signal, EmulationSignal, SessionAction, SessionState};

/// A ROM-only image with `program` at the entry point 0x0100.
fn program(bytes: &[u8]) -> Vec<u8> {
    let mut rom = vec![0u8; 0x8000];
    rom[0x100..0x100 + bytes.len()].copy_from_slice(bytes);
    rom[0x147] = 0x00;
    rom
}

#[test]
fn add_sets_result_and_flags() {
    // ADD A,0x3A; ADD A,0xC6; ADD A,0x0F; ADD A,A
    let mut cpu = CPU::new(None, program(&[0xC6, 0x3A, 0xC6, 0xC6, 0xC6, 0x0F, 0x87])).unwrap();
    assert_eq!(cpu.step(), Ok(8));
    assert_eq!(cpu.registers().a, 0x3A);
    assert_eq!(cpu.program_counter(), 0x102);
    let f = cpu.registers().f;
    assert!(!f.zero && !f.subtract && !f.half_carry && !f.carry);

    assert_eq!(cpu.step(), Ok(8));
    let r = cpu.registers();
    assert_eq!(r.a, 0x00);
    assert!(r.f.zero && !r.f.subtract && r.f.half_carry && r.f.carry);

    assert_eq!(cpu.step(), Ok(8));
    let r = cpu.registers();
    assert_eq!(r.a, 0x0F);
    assert!(!r.f.zero && !r.f.half_carry && !r.f.carry);

    assert_eq!(cpu.step(), Ok(4));
    let r = cpu.registers();
    assert_eq!(r.a, 0x1E);
    assert!(r.f.half_carry && !r.f.carry);
    assert_eq!(cpu.program_counter(), 0x107);
}

#[test]
fn add_register_and_indirect() {
    // ADD A,B with B = 0 leaves zero set; ADD A,(HL) reads address 0x0000
    let mut rom = program(&[0x80, 0x86]);
    rom[0] = 0x21;
    let mut cpu = CPU::new(None, rom).unwrap();
    assert_eq!(cpu.step(), Ok(4));
    assert!(cpu.registers().f.zero);
    assert_eq!(cpu.step(), Ok(8));
    assert_eq!(cpu.registers().a, 0x21);
    assert!(!cpu.registers().f.zero);
}

#[test]
fn unknown_opcode_is_reported_without_change() {
    let mut cpu = CPU::new(None, program(&[0xFF])).unwrap();
    assert_eq!(
        cpu.step(),
        Err(StepFailure {
            failure: DecodeFailure { opcode: 0xFF, prefixed: false },
            program_counter: 0x100
        })
    );
    assert_eq!(cpu.program_counter(), 0x100);
}

#[test]
fn prefixed_opcode_is_read_from_next_byte() {
    let mut cpu = CPU::new(None, program(&[0xCB, 0x37])).unwrap();
    assert_eq!(
        cpu.step(),
        Err(StepFailure {
            failure: DecodeFailure { opcode: 0x37, prefixed: true },
            program_counter: 0x100
        })
    );
}

#[test]
fn vblank_is_serviced_before_timer() {
    let mut cpu = CPU::new(None, program(&[0xFB, 0x00])).unwrap();
    cpu.bus.write_byte(0xFFFF, 0x05);
    cpu.bus.write_byte(0xFF0F, 0x05);
    assert_eq!(cpu.step(), Ok(4 + 12));
    assert_eq!(cpu.program_counter(), 0x40);
    assert_eq!(cpu.bus.read_byte(0xFF0F), 0x04);
    assert!(!cpu.interrupts_enabled());
    assert_eq!(cpu.stack_pointer(), 0xFFFC);
    assert_eq!(cpu.bus.read_byte(0xFFFD), 0x01);
    assert_eq!(cpu.bus.read_byte(0xFFFC), 0x01);
}

#[test]
fn timer_alone_jumps_to_its_vector() {
    let mut cpu = CPU::new(None, program(&[0xFB])).unwrap();
    cpu.bus.write_byte(0xFFFF, 0x04);
    cpu.bus.request_interrupts(0x04);
    assert_eq!(cpu.step(), Ok(16));
    assert_eq!(cpu.program_counter(), 0x50);
    assert_eq!(cpu.bus.read_byte(0xFF0F), 0x00);
}

#[test]
fn disabled_interrupts_are_not_serviced() {
    let mut cpu = CPU::new(None, program(&[0xF3, 0x00])).unwrap();
    cpu.bus.write_byte(0xFFFF, 0x01);
    cpu.bus.write_byte(0xFF0F, 0x01);
    assert_eq!(cpu.step(), Ok(4));
    assert_eq!(cpu.program_counter(), 0x101);
    assert_eq!(cpu.bus.read_byte(0xFF0F), 0x01);
}

#[test]
fn halt_holds_pc_until_an_interrupt_is_pending() {
    let mut cpu = CPU::new(None, program(&[0x76, 0x00])).unwrap();
    assert_eq!(cpu.step(), Ok(4));
    assert!(cpu.is_halted());
    assert_eq!(cpu.program_counter(), 0x100);
    assert_eq!(cpu.step(), Ok(4));
    assert_eq!(cpu.program_counter(), 0x100);
    cpu.bus.write_byte(0xFFFF, 0x02);
    cpu.bus.request_interrupts(0x02);
    assert_eq!(cpu.step(), Ok(4));
    assert!(!cpu.is_halted());
    assert_eq!(cpu.program_counter(), 0x101);
}

#[test]
fn boot_image_overlays_until_disabled() {
    let mut rom = program(&[]);
    rom[0] = 0x11;
    let cpu = CPU::new(Some(vec![0x31u8; 0x100]), rom.clone()).unwrap();
    assert_eq!(cpu.program_counter(), 0x0000);
    assert_eq!(cpu.stack_pointer(), 0xFFFE);
    let mut bus = MemoryBus::new(Some(vec![0x31u8; 0x100]), rom).unwrap();
    assert_eq!(bus.read_byte(0x0000), 0x31);
    assert_eq!(bus.read_byte(0x0100), 0x00);
    bus.write_byte(0xFF50, 0x01);
    assert_eq!(bus.read_byte(0x0000), 0x11);
}

#[test]
fn bus_regions() {
    let mut bus = MemoryBus::new(None, program(&[0xAB])).unwrap();
    assert_eq!(bus.read_byte(0x0100), 0xAB);
    bus.write_byte(0xC005, 0x66);
    assert_eq!(bus.read_byte(0xE005), 0x66);
    bus.write_byte(0xE006, 0x67);
    assert_eq!(bus.read_byte(0xC006), 0x67);
    bus.write_byte(0xFEA0, 0x12);
    assert_eq!(bus.read_byte(0xFEA0), 0xFF);
    bus.write_byte(0xFF80, 0x13);
    assert_eq!(bus.read_byte(0xFF80), 0x13);
    // a ROM-only cartridge without RAM reads the fixed value
    assert_eq!(bus.read_byte(0xA000), 0x00);
    assert!(!bus.has_interrupt());
    bus.request_interrupts(0x01);
    assert!(!bus.has_interrupt());
    bus.write_byte(0xFFFF, 0x01);
    assert!(bus.has_interrupt());
    bus.clear_interrupt(0x01);
    assert!(!bus.has_interrupt());
}

#[test]
fn cpu_new_reports_cartridge_errors() {
    assert!(matches!(CPU::new(None, vec![0u8; 16]), Err(CartridgeError::RomTooShort(16))));
    let mut rom = program(&[]);
    rom[0x147] = 0xFD;
    assert!(matches!(CPU::new(None, rom), Err(CartridgeError::UnknownType(0xFD))));
}

#[test]
fn quit_dumps_before_stopping_audio() {
    let (state, actions) = on_signal(SessionState::Running, EmulationSignal::Quit);
    assert_eq!(state, SessionState::Stopped);
    assert_eq!(
        actions,
        vec![SessionAction::DumpSavegame, SessionAction::StopAudio, SessionAction::Terminate]
    );
    let dump = actions.iter().position(|a| *a == SessionAction::DumpSavegame).unwrap();
    let stop = actions.iter().position(|a| *a == SessionAction::StopAudio).unwrap();
    assert!(dump < stop);
}

#[test]
fn stopped_session_runs_nothing() {
    let (state, actions) = on_signal(SessionState::Stopped, EmulationSignal::Cycle);
    assert_eq!(state, SessionState::Stopped);
    assert!(actions.is_empty());
    let (state, actions) = on_signal(SessionState::Running, EmulationSignal::Cycle);
    assert_eq!(state, SessionState::Running);
    assert_eq!(actions, vec![SessionAction::RunCycle]);
}

#[test]
fn audio_is_enabled_by_default() {
    assert!(Audio::default().enabled);
}

#[test]
fn public_add_sets_flags_only() {
    let mut cpu = CPU::new(None, program(&[0xC6, 0x0F])).unwrap();
    cpu.step().unwrap();
    assert_eq!(cpu.add(0xF1), 0x00);
    let r = cpu.registers();
    assert_eq!(r.a, 0x0F);
    assert!(r.f.zero && r.f.half_carry && r.f.carry && !r.f.subtract);
    assert_eq!(cpu.add(0x01), 0x10);
    let f = cpu.registers().f;
    assert!(!f.zero && f.half_carry && !f.carry);
}
