use tinyvm::machine::word_from_bytes;
use tinyvm::{Error, Instruction, Machine, Memory, Opcode, RegisterID, Registers, Status};

#[test]
fn new_returns_initialized_machine() {
    let want: Machine = Machine {
        pc: 0u32,
        stdout: None,
        mem: Memory::default(),
        regs: Registers::default(),
    };
    let got = Machine::new();
    assert_eq!(want, got);
}

#[test]
fn run_executes_a_load_immediate_instruction() {
    let mut machine: Machine = Machine {
        mem: Memory::from([
            (0, 0b0000_0000),
            (1, 0b0000_0100),
            (2, 0b0000_0000),
            (3, 0b0010_0001),
        ]),
        ..Default::default()
    };

    let _ = machine.run();

    let want = Machine {
        pc: 4,
        stdout: None,
        regs: Registers::from([(RegisterID::A0, 2)]),
        mem: Memory::from([
            (0, 0b0000_0000),
            (1, 0b0000_0100),
            (2, 0b0000_0000),
            (3, 0b0010_0001),
        ]),
    };
    assert_eq!(want, machine);
}

#[test]
fn run_executes_an_add_instruction() {
    let mut machine: Machine = Machine {
        regs: Registers::from([(RegisterID::A1, 2), (RegisterID::A2, 3)]),
        mem: Memory::from([
            (0, 0b0000_0000),
            (1, 0b0000_0010),
            (2, 0b0110_0100),
            (3, 0b0010_0010),
        ]),
        ..Default::default()
    };

    let _ = machine.run();

    let want = Machine {
        pc: 4,
        stdout: None,
        regs: Registers::from([
            (RegisterID::A0, 6),
            (RegisterID::A1, 2),
            (RegisterID::A2, 3),
        ]),
        mem: Memory::from([
            (0, 0b0000_0000),
            (1, 0b0000_0010),
            (2, 0b0110_0100),
            (3, 0b0010_0010),
        ]),
    };
    assert_eq!(want, machine);
}

#[test]
fn run_executes_an_ebreak_instruction() {
    let mut machine: Machine = Machine {
        mem: Memory::from([
            (0, 0b0000_0000),
            (1, 0b0000_0000),
            (2, 0b0000_0000),
            (3, 0b0001_1000),
        ]),
        ..Default::default()
    };

    assert!(machine.run().is_ok());

    let want = Machine {
        pc: 4,
        stdout: None,
        regs: Registers::default(),
        mem: Memory::from([
            (0, 0b0000_0000),
            (1, 0b0000_0000),
            (2, 0b0000_0000),
            (3, 0b0001_1000),
        ]),
    };
    assert_eq!(want, machine);
}

#[test]
fn run_executes_an_ecall_instruction_that_writes_data_to_stdout() {
    let mut machine = Machine {
        pc: 0,
        stdout: Some(Vec::new()),
        regs: Registers::from([
            (RegisterID::A0, 1),  // fd = 1 (stdout)
            (RegisterID::A1, 8),  // *buf = 8
            (RegisterID::A2, 5),  // len = 5
            (RegisterID::A7, 64), // syscall "write"
        ]),
        mem: Memory::from([
            // ECall
            (0, 0b0000_0000),
            (1, 0b0000_0000),
            (2, 0b0000_0000),
            (3, 0b0001_0111),
            // EBreak
            (4, 0b0000_0000),
            (5, 0b0000_0000),
            (6, 0b0000_0000),
            (7, 0b0001_1000),
            // data
            (8, 'h'.try_into().unwrap()),
            (9, 'e'.try_into().unwrap()),
            (10, 'l'.try_into().unwrap()),
            (11, 'l'.try_into().unwrap()),
            (12, 'o'.try_into().unwrap()),
        ]),
    };
    assert!(machine.run().is_ok());

    let output: Vec<u8> = machine.stdout.unwrap();
    let want = "hello".to_string();
    let got = String::from_utf8(output).unwrap();
    assert_eq!(want, got);
}

#[test]
fn run_executes_multiple_add_instructions() {
    let mut machine: Machine = Machine {
        mem: Memory::from([
            // Add
            (0, 0b0000_0000),
            (1, 0b0000_0010),
            (2, 0b0000_0010),
            (3, 0b0010_0010),
            // Add
            (4, 0b0000_0000),
            (5, 0b0000_0010),
            (6, 0b0000_0010),
            (7, 0b0010_0010),
            // Add
            (8, 0b0000_0000),
            (9, 0b0000_0010),
            (10, 0b0000_0010),
            (11, 0b0010_0010),
            // EBreak
            (12, 0b0000_0000),
            (13, 0b0000_0000),
            (14, 0b0000_0000),
            (15, 0b0001_1000),
        ]),
        ..Default::default()
    };
    assert!(machine.run().is_ok());

    let want = Machine {
        pc: 16,
        stdout: None,
        regs: Registers::from([(RegisterID::A0, 3)]),
        mem: Memory::from([
            // Add
            (0, 0b0000_0000),
            (1, 0b0000_0010),
            (2, 0b0000_0010),
            (3, 0b0010_0010),
            // Add
            (4, 0b0000_0000),
            (5, 0b0000_0010),
            (6, 0b0000_0010),
            (7, 0b0010_0010),
            // Add
            (8, 0b0000_0000),
            (9, 0b0000_0010),
            (10, 0b0000_0010),
            (11, 0b0010_0010),
            // EBreak
            (12, 0b0000_0000),
            (13, 0b0000_0000),
            (14, 0b0000_0000),
            (15, 0b0001_1000),
        ]),
    };
    assert_eq!(want, machine);
}

/// The bytes of `words` laid out from address zero, most significant byte
/// first.
fn image(words: &[u32]) -> Memory {
    let mut memory = Memory::default();
    let mut addr: u32 = 0;
    for word in words {
        for byte in word.to_be_bytes() {
            memory.set(addr, byte);
            addr += 1;
        }
    }
    memory
}

fn encode(opcode: u32, rd: u32, rs1: u32, rs2: u32, imm: u32) -> u32 {
    (imm << 17) | (rs2 << 13) | (rs1 << 9) | (rd << 5) | opcode
}

const LOAD_IMMEDIATE: u32 = 0b00001;
const ADD: u32 = 0b00010;
const ECALL: u32 = 0b10111;
const EBREAK: u32 = 0b11000;

#[test]
fn load_immediate_then_ebreak_leaves_only_a0_set() {
    let mut machine = Machine {
        mem: image(&[encode(LOAD_IMMEDIATE, 1, 0, 0, 2), encode(EBREAK, 0, 0, 0, 0)]),
        ..Default::default()
    };
    assert_eq!(machine.run(), Ok(()));
    assert_eq!(machine.pc, 8);
    assert_eq!(machine.regs.get(&RegisterID::A0), 2);
    for code in 0u32..16 {
        let reg = RegisterID::try_from(code).unwrap();
        if reg != RegisterID::A0 {
            assert_eq!(machine.regs.get(&reg), 0);
        }
    }
    assert_eq!(machine.stdout, None);
}

#[test]
fn add_with_zero_immediate_sums_the_two_sources() {
    let mut machine = Machine {
        regs: Registers::from([(RegisterID::A1, 2), (RegisterID::A2, 3)]),
        mem: image(&[encode(ADD, 1, 2, 3, 0), encode(EBREAK, 0, 0, 0, 0)]),
        ..Default::default()
    };
    assert_eq!(machine.run(), Ok(()));
    assert_eq!(machine.regs.get(&RegisterID::A0), 5);
    assert_eq!(machine.regs.get(&RegisterID::A1), 2);
    assert_eq!(machine.regs.get(&RegisterID::A2), 3);
    assert_eq!(machine.pc, 8);
}

#[test]
fn add_wraps_on_overflow() {
    let mut machine = Machine {
        regs: Registers::from([(RegisterID::A1, u32::MAX), (RegisterID::A2, 3)]),
        mem: image(&[encode(ADD, 1, 2, 3, 10)]),
        ..Default::default()
    };
    assert_eq!(machine.step(), Ok(Status::Running));
    assert_eq!(machine.regs.get(&RegisterID::A0), 12);

    let mut machine = Machine {
        regs: Registers::from([(RegisterID::A1, u32::MAX), (RegisterID::A2, u32::MAX)]),
        mem: image(&[encode(ADD, 1, 2, 3, 0x7fff)]),
        ..Default::default()
    };
    assert_eq!(machine.step(), Ok(Status::Running));
    assert_eq!(machine.regs.get(&RegisterID::A0), 0x7ffd);
}

#[test]
fn load_immediate_zero_extends_the_largest_immediate() {
    let mut machine = Machine {
        mem: image(&[encode(LOAD_IMMEDIATE, 16 - 1, 0, 0, 0x7fff)]),
        ..Default::default()
    };
    assert_eq!(machine.step(), Ok(Status::Running));
    assert_eq!(machine.regs.get(&RegisterID::SP), 0x7fff);
}

#[test]
fn a_write_to_x0_as_destination_is_dropped() {
    let mut machine = Machine {
        regs: Registers::from([(RegisterID::A1, 2), (RegisterID::A2, 3)]),
        mem: image(&[
            encode(LOAD_IMMEDIATE, 0, 0, 0, 77),
            encode(ADD, 0, 2, 3, 1),
            encode(ADD, 4, 0, 0, 0),
            encode(EBREAK, 0, 0, 0, 0),
        ]),
        ..Default::default()
    };
    assert_eq!(machine.run(), Ok(()));
    assert_eq!(machine.regs.get(&RegisterID::X0), 0);
    assert_eq!(machine.regs.get(&RegisterID::A3), 0);
    assert_eq!(
        machine.regs,
        Registers::from([(RegisterID::A1, 2), (RegisterID::A2, 3)])
    );
    assert_eq!(machine.pc, 16);
}

#[test]
fn next_decodes_the_word_at_the_program_counter_and_changes_nothing() {
    let mut machine = Machine {
        pc: 4,
        mem: image(&[encode(EBREAK, 0, 0, 0, 0), encode(ADD, 1, 2, 3, 9)]),
        ..Default::default()
    };
    let want = Instruction {
        opcode: Opcode::Add,
        rd: RegisterID::A0,
        rs1: RegisterID::A1,
        rs2: RegisterID::A2,
        imm: 9,
    };
    assert_eq!(machine.next(), Ok(want));
    assert_eq!(machine.pc, 4);
    assert_eq!(machine.fetch(), encode(ADD, 1, 2, 3, 9));
    assert_eq!(
        machine,
        Machine {
            pc: 4,
            mem: image(&[encode(EBREAK, 0, 0, 0, 0), encode(ADD, 1, 2, 3, 9)]),
            ..Default::default()
        }
    );
}

#[test]
fn words_are_assembled_most_significant_byte_first() {
    assert_eq!(word_from_bytes(0x12, 0x34, 0x56, 0x78), 0x1234_5678);
    assert_eq!(word_from_bytes(0, 0, 0, 1), 1);
    assert_eq!(word_from_bytes(0x80, 0, 0, 0), 0x8000_0000);
    assert_eq!(word_from_bytes(0xff, 0xff, 0xff, 0xff), u32::MAX);
    let machine = Machine {
        mem: Memory::from([(0, 0x12), (1, 0x34), (2, 0x56), (3, 0x78)]),
        ..Default::default()
    };
    assert_eq!(machine.fetch(), 0x1234_5678);
}

#[test]
fn fetch_wraps_around_the_top_of_the_address_space() {
    let machine = Machine {
        pc: 0xffff_fffe,
        mem: Memory::from([(0xffff_fffe, 0xaa), (0xffff_ffff, 0xbb), (0, 0xcc), (1, 0xdd)]),
        ..Default::default()
    };
    assert_eq!(machine.fetch(), 0xaabb_ccdd);
}

#[test]
fn the_program_counter_wraps_around_the_top_of_the_address_space() {
    let mut machine = Machine {
        pc: 0xffff_fffc,
        mem: Memory::from([(0xffff_ffff, 0b0001_1000)]),
        ..Default::default()
    };
    assert_eq!(machine.step(), Ok(Status::Halted));
    assert_eq!(machine.pc, 0);
}

#[test]
fn an_unknown_opcode_stops_the_run_and_keeps_earlier_effects() {
    let mut machine = Machine {
        mem: image(&[encode(LOAD_IMMEDIATE, 1, 0, 0, 2), 0]),
        ..Default::default()
    };
    assert_eq!(machine.run(), Err(Error::OpcodeUnknown(0)));
    assert_eq!(machine.pc, 4);
    assert_eq!(machine.regs, Registers::from([(RegisterID::A0, 2)]));
}

#[test]
fn running_empty_memory_fails_at_once() {
    let mut machine = Machine::new();
    assert_eq!(machine.run(), Err(Error::OpcodeUnknown(0)));
    assert_eq!(machine, Machine::new());
}

#[test]
fn an_unknown_syscall_is_an_error_after_the_program_counter_moved() {
    let mut machine = Machine {
        regs: Registers::from([(RegisterID::A7, 63)]),
        mem: image(&[encode(ECALL, 0, 0, 0, 0), encode(EBREAK, 0, 0, 0, 0)]),
        stdout: Some(Vec::new()),
        ..Default::default()
    };
    assert_eq!(machine.run(), Err(Error::SyscallUnknown(63)));
    assert_eq!(machine.pc, 4);
    assert_eq!(machine.stdout, Some(Vec::new()));
}

#[test]
fn a_write_to_another_file_descriptor_is_an_error() {
    let mut machine = Machine {
        regs: Registers::from([
            (RegisterID::A0, 2),
            (RegisterID::A1, 8),
            (RegisterID::A2, 5),
            (RegisterID::A7, 64),
        ]),
        mem: image(&[encode(ECALL, 0, 0, 0, 0), encode(EBREAK, 0, 0, 0, 0)]),
        stdout: Some(Vec::new()),
        ..Default::default()
    };
    assert_eq!(machine.run(), Err(Error::FileDescriptorUnsupported(2)));
    assert_eq!(machine.pc, 4);
    assert_eq!(machine.stdout, Some(Vec::new()));

    let mut machine = Machine {
        regs: Registers::from([(RegisterID::A7, 64)]),
        mem: image(&[encode(ECALL, 0, 0, 0, 0)]),
        ..Default::default()
    };
    assert_eq!(machine.step(), Err(Error::FileDescriptorUnsupported(0)));
}

#[test]
fn a_write_without_an_output_is_dropped() {
    let mut machine = Machine {
        regs: Registers::from([
            (RegisterID::A0, 1),
            (RegisterID::A1, 8),
            (RegisterID::A2, 5),
            (RegisterID::A7, 64),
        ]),
        mem: image(&[encode(ECALL, 0, 0, 0, 0), encode(EBREAK, 0, 0, 0, 0), 0x6865_6c6c]),
        ..Default::default()
    };
    assert_eq!(machine.run(), Ok(()));
    assert_eq!(machine.stdout, None);
    assert_eq!(machine.pc, 8);
}

#[test]
fn writes_append_in_program_order() {
    let mut machine = Machine {
        regs: Registers::from([(RegisterID::A0, 1), (RegisterID::A7, 64)]),
        mem: image(&[
            encode(LOAD_IMMEDIATE, 2, 0, 0, 32),
            encode(LOAD_IMMEDIATE, 3, 0, 0, 3),
            encode(ECALL, 0, 0, 0, 0),
            encode(LOAD_IMMEDIATE, 2, 0, 0, 30),
            encode(LOAD_IMMEDIATE, 3, 0, 0, 2),
            encode(ECALL, 0, 0, 0, 0),
            encode(LOAD_IMMEDIATE, 3, 0, 0, 0),
            encode(ECALL, 0, 0, 0, 0),
            encode(EBREAK, 0, 0, 0, 0),
        ]),
        stdout: Some(b">".to_vec()),
        ..Default::default()
    };
    machine.mem.set(30, b'a');
    machine.mem.set(31, b'b');
    machine.mem.set(32, b'c');
    machine.mem.set(33, b'd');
    machine.mem.set(34, b'e');
    assert_eq!(machine.run(), Ok(()));
    assert_eq!(machine.stdout, Some(b">cdeab".to_vec()));
    assert_eq!(machine.pc, 36);
}

#[test]
fn step_reports_running_until_the_halt() {
    let mut machine = Machine {
        mem: image(&[encode(LOAD_IMMEDIATE, 1, 0, 0, 2), encode(EBREAK, 0, 0, 0, 0)]),
        ..Default::default()
    };
    assert_eq!(machine.step(), Ok(Status::Running));
    assert_eq!(machine.pc, 4);
    assert_eq!(machine.regs.get(&RegisterID::A0), 2);
    assert_eq!(machine.step(), Ok(Status::Halted));
    assert_eq!(machine.pc, 8);
}

#[test]
fn execution_leaves_memory_as_it_was() {
    let program = [
        encode(LOAD_IMMEDIATE, 1, 0, 0, 1),
        encode(LOAD_IMMEDIATE, 8, 0, 0, 64),
        encode(LOAD_IMMEDIATE, 3, 0, 0, 4),
        encode(ECALL, 0, 0, 0, 0),
        encode(EBREAK, 0, 0, 0, 0),
    ];
    let mut machine = Machine {
        mem: image(&program),
        stdout: Some(Vec::new()),
        ..Default::default()
    };
    assert_eq!(machine.run(), Ok(()));
    assert_eq!(machine.mem, image(&program));
    assert_eq!(machine.stdout, Some(program[0].to_be_bytes().to_vec()));
}

#[test]
fn run_for_stops_at_the_budget_or_at_the_first_halt_or_failure() {
    let program = [
        encode(LOAD_IMMEDIATE, 1, 0, 0, 2),
        encode(ADD, 1, 1, 1, 1),
        encode(EBREAK, 0, 0, 0, 0),
        encode(LOAD_IMMEDIATE, 1, 0, 0, 9),
    ];
    let mut machine = Machine {
        mem: image(&program),
        ..Default::default()
    };
    assert_eq!(machine.run_for(0), Ok(Status::Running));
    assert_eq!(machine, Machine { mem: image(&program), ..Default::default() });

    assert_eq!(machine.run_for(1), Ok(Status::Running));
    assert_eq!(machine.pc, 4);
    assert_eq!(machine.regs.get(&RegisterID::A0), 2);

    assert_eq!(machine.run_for(10), Ok(Status::Halted));
    assert_eq!(machine.pc, 12);
    assert_eq!(machine.regs.get(&RegisterID::A0), 5);

    let mut machine = Machine {
        mem: image(&[encode(LOAD_IMMEDIATE, 1, 0, 0, 2), 0x1f]),
        ..Default::default()
    };
    assert_eq!(machine.run_for(2), Err(Error::OpcodeUnknown(0x1f)));
    assert_eq!(machine.pc, 4);
    assert_eq!(machine.regs.get(&RegisterID::A0), 2);
}
