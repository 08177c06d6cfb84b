use rcpu_os::keyboard::{KeyCodeIter, KeyEvent, RawKeyCode};
use rcpu_os::operations::{RCPUAthMode, RCPUAthOperation, RCPUInstructionType, RCPUOperation};
use rcpu_os::rcpu::{RCPUFault, RCPUProgram, RCPURegister};

use RCPUInstructionType::{ATH, CAL, HLT, JLT, JMP, JMR, RET, LDA, LDM, LDP, LDR, LDV, MOV, POP, PSH, SYS};
use RCPURegister::{A, B, C, D, IP, SP};
use RCPUAthMode::{ToDest, ToSource};
use RCPUAthOperation::{Add, And, Decrement, Divide, Increment, LeftShift, Multiply, Not, Or, RightShift, Subtract, Xor};

fn imm(kind: RCPUInstructionType, reg: RCPURegister, value: u16) -> u16 {
    RCPUOperation::encode_immediate(kind, reg, value).opcode
}

fn reg(kind: RCPUInstructionType, src: RCPURegister, dst: RCPURegister) -> u16 {
    RCPUOperation::encode(kind, src, dst, RCPUAthOperation::Add, RCPUAthMode::ToDest, 0).opcode
}

fn ath(op: RCPUAthOperation, mode: RCPUAthMode, src: RCPURegister, dst: RCPURegister, shift: u16) -> u16 {
    RCPUOperation::encode(ATH, src, dst, op, mode, shift).opcode
}

/// The image of a program: each word in big-endian order, with `data`
/// placed from word `data_at` on.
fn image(code: &[u16], data_at: usize, data: &[u16]) -> Vec<u8> {
    let mut words = code.to_vec();
    if !data.is_empty() {
        words.resize(data_at, 0);
        words.extend_from_slice(data);
    }
    words.iter().flat_map(|w| w.to_be_bytes()).collect()
}

fn string_words(s: &str) -> Vec<u16> {
    let mut w: Vec<u16> = s.bytes().map(u16::from).collect();
    w.push(0);
    w
}

fn load(code: &[u16]) -> RCPUProgram {
    RCPUProgram::from_image(&image(code, 0, &[]), 1024)
}

fn run(prog: &mut RCPUProgram, keys: &mut KeyCodeIter, out: &mut Vec<u8>) -> Result<usize, RCPUFault> {
    let mut steps = 0;
    while prog.running {
        prog.step(keys, out)?;
        steps += 1;
        assert!(steps < 100_000, "program does not halt");
    }
    Ok(steps)
}

fn run_plain(prog: &mut RCPUProgram) -> Result<usize, RCPUFault> {
    run(prog, &mut KeyCodeIter::new(), &mut Vec::new())
}

#[test]
fn immediate_load_and_halt() {
    let mut p = load(&[imm(LDV, A, 42), reg(HLT, A, A)]);
    assert_eq!(run_plain(&mut p), Ok(2));
    assert_eq!(p.get_register(A), 42);
    assert!(!p.running);
}

#[test]
fn add_via_ath() {
    let mut p = load(&[
        imm(LDV, A, 5),
        imm(LDV, B, 7),
        ath(RCPUAthOperation::Add, RCPUAthMode::ToDest, A, B, 0),
        reg(HLT, A, A),
    ]);
    run_plain(&mut p).unwrap();
    assert_eq!(p.get_register(B), 12);
    assert_eq!(p.get_register(A), 5);
}

#[test]
fn loop_with_jlt() {
    let mut p = load(&[
        imm(LDV, A, 0),
        imm(LDV, B, 10),
        imm(LDV, C, 3),
        ath(RCPUAthOperation::Increment, RCPUAthMode::ToDest, A, A, 0),
        reg(JLT, C, B),
        reg(HLT, A, A),
    ]);
    run_plain(&mut p).unwrap();
    assert_eq!(p.get_register(A), 10);
}

fn push_value(code: &mut Vec<u16>, v: u16) {
    code.push(imm(LDV, A, v));
    code.push(reg(PSH, A, A));
}

#[test]
fn printf_with_two_substitutions() {
    let mut code = Vec::new();
    for v in [5, 3, 2, 0x40, 0] {
        push_value(&mut code, v);
    }
    code.push(reg(SYS, A, A));
    code.push(reg(HLT, A, A));
    let img = image(&code, 0x40, &string_words("%d+%d=%d"));
    let mut p = RCPUProgram::from_image(&img, 1024);
    let mut out = Vec::new();
    run(&mut p, &mut KeyCodeIter::new(), &mut out).unwrap();
    assert_eq!(out, b"2+3=5".to_vec());
    assert_eq!(p.get_register(SP), 0);
}

#[test]
fn printf_char_string_and_percent() {
    let mut code = Vec::new();
    for v in [0x60, u16::from(b'Z'), 0x40, 0] {
        push_value(&mut code, v);
    }
    code.push(reg(SYS, A, A));
    code.push(reg(HLT, A, A));
    let mut data = string_words("[%c] %s 100%%");
    data.resize(0x20, 0);
    data.extend(string_words("a%d"));
    let img = image(&code, 0x40, &data);
    let mut p = RCPUProgram::from_image(&img, 1024);
    let mut out = Vec::new();
    run(&mut p, &mut KeyCodeIter::new(), &mut out).unwrap();
    assert_eq!(out, b"[Z] a%d 100%".to_vec());
}

#[test]
fn printf_decimal_of_largest_word() {
    let mut code = vec![imm(LDV, A, 0), ath(RCPUAthOperation::Not, RCPUAthMode::ToSource, A, A, 0), reg(PSH, A, A)];
    push_value(&mut code, 0x40);
    push_value(&mut code, 0);
    code.push(reg(SYS, A, A));
    code.push(reg(HLT, A, A));
    let img = image(&code, 0x40, &string_words("%d"));
    let mut p = RCPUProgram::from_image(&img, 1024);
    let mut out = Vec::new();
    run(&mut p, &mut KeyCodeIter::new(), &mut out).unwrap();
    assert_eq!(out, b"65535".to_vec());
}

#[test]
fn printf_unknown_specifier_is_fatal() {
    let mut code = Vec::new();
    push_value(&mut code, 0x40);
    push_value(&mut code, 0);
    code.push(reg(SYS, A, A));
    code.push(reg(HLT, A, A));
    let img = image(&code, 0x40, &string_words("ab%x"));
    let mut p = RCPUProgram::from_image(&img, 1024);
    let mut out = Vec::new();
    assert_eq!(run(&mut p, &mut KeyCodeIter::new(), &mut out), Err(RCPUFault::BadFormatSpec(b'x')));
    assert_eq!(out, b"ab".to_vec());
}

fn fgets_program(size: u16) -> RCPUProgram {
    let mut code = Vec::new();
    for v in [0, size, 0x100, 1] {
        push_value(&mut code, v);
    }
    code.push(reg(SYS, A, A));
    code.push(reg(POP, B, B));
    code.push(reg(HLT, A, A));
    load(&code)
}

#[test]
fn fgets_terminated_by_f1() {
    let mut p = fgets_program(8);
    let mut keys = KeyCodeIter::new();
    keys.push(KeyEvent::Unicode('h'));
    keys.push(KeyEvent::Unicode('i'));
    keys.push(KeyEvent::RawKey(RawKeyCode::F1));
    run(&mut p, &mut keys, &mut Vec::new()).unwrap();
    assert_eq!(p.read(0x100), u16::from(b'h'));
    assert_eq!(p.read(0x101), u16::from(b'i'));
    assert_eq!(p.read(0x102), 0);
    assert_eq!(p.read(0x103), 0);
    assert_eq!(p.get_register(B), 3);
}

#[test]
fn fgets_stops_at_size_and_closes_string() {
    let mut p = fgets_program(2);
    let mut keys = KeyCodeIter::new();
    keys.push(KeyEvent::Unicode('x'));
    keys.push(KeyEvent::RawKey(RawKeyCode::ArrowUp));
    keys.push(KeyEvent::Unicode('y'));
    keys.push(KeyEvent::Unicode('z'));
    run(&mut p, &mut keys, &mut Vec::new()).unwrap();
    assert_eq!(p.read(0x100), u16::from(b'x'));
    assert_eq!(p.read(0x101), u16::from(b'y'));
    assert_eq!(p.read(0x102), 0);
    assert_eq!(p.get_register(B), 2);
    assert_eq!(keys.next(), Some(KeyEvent::Unicode('z')));
}

#[test]
fn fgets_waits_for_keys() {
    let mut p = fgets_program(8);
    let mut keys = KeyCodeIter::new();
    let mut out = Vec::new();
    keys.push(KeyEvent::Unicode('o'));
    for _ in 0..9 {
        p.step(&mut keys, &mut out).unwrap();
    }
    assert!(p.awaiting_input());
    let ip = p.get_register(IP);
    p.step(&mut keys, &mut out).unwrap();
    assert!(p.awaiting_input());
    assert_eq!(p.get_register(IP), ip);
    keys.push(KeyEvent::Unicode('k'));
    keys.push(KeyEvent::Unicode('\0'));
    p.step(&mut keys, &mut out).unwrap();
    assert!(!p.awaiting_input());
    assert_eq!(p.get_register(IP), ip + 1);
    run(&mut p, &mut keys, &mut out).unwrap();
    assert_eq!(p.read(0x100), u16::from(b'o'));
    assert_eq!(p.read(0x101), u16::from(b'k'));
    assert_eq!(p.read(0x102), 0);
    assert_eq!(p.get_register(B), 3);
}

#[test]
fn fgets_with_size_zero_writes_only_the_zero() {
    let mut p = fgets_program(0);
    let mut keys = KeyCodeIter::new();
    keys.push(KeyEvent::Unicode('q'));
    run(&mut p, &mut keys, &mut Vec::new()).unwrap();
    assert_eq!(p.read(0x100), 0);
    assert_eq!(p.get_register(B), 0);
    assert_eq!(keys.len(), 1);
}

fn getc_program(stream: u16) -> RCPUProgram {
    let mut code = Vec::new();
    push_value(&mut code, stream);
    push_value(&mut code, 2);
    code.push(reg(SYS, A, A));
    code.push(reg(POP, C, C));
    code.push(reg(HLT, A, A));
    load(&code)
}

#[test]
fn getc_skips_keys_without_a_character() {
    let mut p = getc_program(0);
    let mut keys = KeyCodeIter::new();
    keys.push(KeyEvent::RawKey(RawKeyCode::ArrowDown));
    keys.push(KeyEvent::Unicode('g'));
    keys.push(KeyEvent::Unicode('h'));
    run(&mut p, &mut keys, &mut Vec::new()).unwrap();
    assert_eq!(p.get_register(C), u16::from(b'g'));
    assert_eq!(keys.next(), Some(KeyEvent::Unicode('h')));
}

#[test]
fn getc_on_empty_queue_gives_ffff() {
    let mut p = getc_program(0);
    run_plain(&mut p).unwrap();
    assert_eq!(p.get_register(C), 0xffff);
}

#[test]
fn getc_bad_stream_is_fatal() {
    let mut p = getc_program(1);
    assert_eq!(run_plain(&mut p), Err(RCPUFault::BadStream(1)));
}

#[test]
fn unknown_syscall_is_fatal() {
    let mut code = Vec::new();
    push_value(&mut code, 7);
    code.push(reg(SYS, A, A));
    code.push(reg(HLT, A, A));
    let mut p = load(&code);
    assert_eq!(run_plain(&mut p), Err(RCPUFault::BadSyscall(7)));
}

#[test]
fn stack_underflow_is_fatal() {
    let mut p = load(&[reg(POP, A, A), reg(HLT, A, A)]);
    let mut keys = KeyCodeIter::new();
    let mut out = Vec::new();
    assert_eq!(p.step(&mut keys, &mut out), Err(RCPUFault::StackUnderflow));
    assert_eq!(run(&mut p, &mut keys, &mut out), Err(RCPUFault::StackUnderflow));
    assert!(p.running);
}

#[test]
fn stack_overflow_is_fatal() {
    let code = [imm(LDV, A, 1), reg(PSH, A, A), reg(PSH, A, A), reg(PSH, A, A), reg(HLT, A, A)];
    let mut p = RCPUProgram::from_image(&image(&code, 0, &[]), 2);
    assert_eq!(run_plain(&mut p), Err(RCPUFault::StackOverflow));
    assert_eq!(p.get_register(SP), 2);
}

#[test]
fn divide_by_zero_is_fatal() {
    let mut p = load(&[
        imm(LDV, A, 9),
        ath(RCPUAthOperation::Divide, RCPUAthMode::ToDest, B, A, 0),
        reg(HLT, A, A),
    ]);
    assert_eq!(run_plain(&mut p), Err(RCPUFault::DivideByZero));
}

#[test]
fn undefined_ath_operation_is_fatal() {
    let mut p = load(&[(13 << 8) | 6, reg(HLT, A, A)]);
    assert_eq!(run_plain(&mut p), Err(RCPUFault::InvalidAthOperation(13)));
}

fn ath_result(op: RCPUAthOperation, mode: RCPUAthMode, a: u16, b: u16, shift: u16) -> (u16, u16) {
    let mut p = load(&[
        imm(LDV, A, a),
        imm(LDV, B, b),
        ath(op, mode, A, B, shift),
        reg(HLT, A, A),
    ]);
    run_plain(&mut p).unwrap();
    (p.get_register(A), p.get_register(B))
}

#[test]
fn ath_operations() {
    assert_eq!(ath_result(Add, ToDest, 3, 4, 0), (3, 7));
    assert_eq!(ath_result(Subtract, ToDest, 3, 10, 0), (3, 7));
    assert_eq!(ath_result(Subtract, ToDest, 10, 3, 0), (10, 0xfff9));
    assert_eq!(ath_result(Multiply, ToSource, 6, 7, 0), (42, 7));
    assert_eq!(ath_result(Divide, ToDest, 4, 17, 0), (4, 4));
    assert_eq!(ath_result(LeftShift, ToDest, 3, 0, 7), (3, 384));
    assert_eq!(ath_result(RightShift, ToDest, 384, 0, 7), (384, 3));
    assert_eq!(ath_result(And, ToDest, 0b1100, 0b1010, 0), (0b1100, 0b1000));
    assert_eq!(ath_result(Or, ToDest, 0b1100, 0b1010, 0), (0b1100, 0b1110));
    assert_eq!(ath_result(Xor, ToDest, 0b1100, 0b1010, 0), (0b1100, 0b0110));
    assert_eq!(ath_result(Not, ToDest, 0, 5, 0), (0, 0xffff));
    assert_eq!(ath_result(Increment, ToDest, 0, 5, 0), (0, 6));
    assert_eq!(ath_result(Decrement, ToDest, 0, 0, 0), (0, 0xffff));
}

#[test]
fn multiply_wraps() {
    let mut p = load(&[
        imm(LDV, A, 1000),
        imm(LDV, B, 1000),
        ath(RCPUAthOperation::Multiply, RCPUAthMode::ToDest, A, B, 0),
        reg(HLT, A, A),
    ]);
    run_plain(&mut p).unwrap();
    assert_eq!(p.get_register(B), (1_000_000u32 % 65536) as u16);
}

#[test]
fn memory_moves() {
    let mut p = load(&[
        imm(LDV, A, 77),
        imm(LDM, A, 0x200),
        imm(LDA, B, 0x200),
        imm(LDV, C, 0x300),
        reg(LDP, B, C),
        reg(LDR, C, D),
        reg(MOV, D, A),
        reg(HLT, A, A),
    ]);
    run_plain(&mut p).unwrap();
    assert_eq!(p.read(0x200), 77);
    assert_eq!(p.read(0x300), 77);
    assert_eq!(p.get_register(B), 77);
    assert_eq!(p.get_register(D), 77);
    assert_eq!(p.get_register(A), 77);
}

#[test]
fn write_then_read_round_trip() {
    let mut p = load(&[]);
    for (i, w) in [(0u16, 0x1234u16), (0xffff, 0xabcd), (0x8000, 0)] {
        p.write(i, w);
        assert_eq!(p.read(i), w);
    }
    assert_eq!(p.read(0x0001), 0);
}

#[test]
fn image_words_are_big_endian() {
    let p = RCPUProgram::from_image(&vec![0x12, 0x34, 0x56], 16);
    assert_eq!(p.read(0), 0x1234);
    assert_eq!(p.read(1), 0x5600);
    assert_eq!(p.read(2), 0);
}

#[test]
fn non_jump_instructions_advance_ip() {
    let mut p = load(&[
        imm(LDV, A, 1),
        reg(PSH, A, A),
        reg(POP, B, B),
        reg(MOV, A, C),
        ath(RCPUAthOperation::Add, RCPUAthMode::ToDest, A, B, 0),
        imm(LDM, A, 0x100),
    ]);
    let mut keys = KeyCodeIter::new();
    let mut out = Vec::new();
    for expected in 1..=6 {
        p.step(&mut keys, &mut out).unwrap();
        assert_eq!(p.get_register(IP), expected);
    }
}

#[test]
fn ip_wraps_at_end_of_memory() {
    let mut p = load(&[
        imm(LDV, A, 0),
        ath(RCPUAthOperation::Not, RCPUAthMode::ToSource, A, A, 0),
        reg(JMR, A, A),
    ]);
    p.write(0xffff, imm(LDV, D, 9));
    let mut keys = KeyCodeIter::new();
    let mut out = Vec::new();
    for _ in 0..3 {
        p.step(&mut keys, &mut out).unwrap();
    }
    assert_eq!(p.get_register(A), 0xffff);
    assert_eq!(p.get_register(IP), 0xffff);
    p.step(&mut keys, &mut out).unwrap();
    assert_eq!(p.get_register(D), 9);
    assert_eq!(p.get_register(IP), 0);
}

#[test]
fn balanced_push_pop_restores_sp() {
    let mut p = load(&[
        imm(LDV, A, 1),
        imm(LDV, B, 2),
        imm(LDV, C, 3),
        reg(PSH, A, A),
        reg(PSH, B, B),
        reg(PSH, C, C),
        reg(POP, D, A),
        reg(POP, D, B),
        reg(POP, D, C),
        reg(HLT, A, A),
    ]);
    run_plain(&mut p).unwrap();
    assert_eq!(p.get_register(A), 3);
    assert_eq!(p.get_register(B), 2);
    assert_eq!(p.get_register(C), 1);
    assert_eq!(p.get_register(SP), 0);
}

#[test]
fn halt_is_the_only_stop() {
    let mut p = load(&[imm(LDV, A, 1), reg(MOV, A, B), imm(JMP, A, 3), reg(HLT, A, A)]);
    let mut keys = KeyCodeIter::new();
    let mut out = Vec::new();
    for _ in 0..3 {
        p.step(&mut keys, &mut out).unwrap();
        assert!(p.running);
    }
    p.step(&mut keys, &mut out).unwrap();
    assert!(!p.running);
    assert_eq!(p.get_register(IP), 3);
}

#[test]
fn call_then_return() {
    let mut p = load(&[
        imm(LDV, A, 5),
        reg(CAL, A, A),
        imm(LDV, B, 8),
        reg(HLT, A, A),
        reg(HLT, A, A),
        reg(RET, A, A),
    ]);
    let mut keys = KeyCodeIter::new();
    let mut out = Vec::new();
    p.step(&mut keys, &mut out).unwrap();
    let sp = p.get_register(SP);
    p.step(&mut keys, &mut out).unwrap();
    assert_eq!(p.get_register(IP), 5);
    assert_eq!(p.get_register(SP), sp + 1);
    p.step(&mut keys, &mut out).unwrap();
    assert_eq!(p.get_register(IP), 2);
    assert_eq!(p.get_register(SP), sp);
    run(&mut p, &mut keys, &mut out).unwrap();
    assert_eq!(p.get_register(B), 8);
}

#[test]
fn jlt_falls_through_when_not_less() {
    let mut p = load(&[imm(LDV, A, 4), imm(LDV, B, 4), imm(LDV, C, 0), reg(JLT, C, B), reg(HLT, A, A)]);
    assert_eq!(run_plain(&mut p), Ok(5));
}
