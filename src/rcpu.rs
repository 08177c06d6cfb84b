use vstd::prelude::*;

use crate::keyboard::{KeyCodeIter, KeyEvent, RawKeyCode};
use crate::operations::{
    ath_field, ath_from_code, destination_field, kind_field, kind_from_code, mode_field,
    mode_from_code, register_from_code, shift_field, source_field, value_field, RCPUAthMode,
    RCPUAthOperation, RCPUInstructionType, RCPUOperation,
};
use crate::memory::{
    mem_read, mem_write, swap_endianness, swapped, RAM_WORDS,
};

verus! {

/// The largest number of words the stack can hold: a 16-bit stack pointer
/// counts them.
pub const MAX_STACK_WORDS: usize = 0xffff;

/// The ASCII codes that `printf` reacts to: `%`, and the specifiers `d`, `c`
/// and `s`.
pub const PERCENT: u8 = 37;
pub const FORMAT_DECIMAL: u8 = 100;
pub const FORMAT_CHAR: u8 = 99;
pub const FORMAT_STRING: u8 = 115;

/// The registers of the virtual CPU. Only `A` to `D` can be named by an
/// instruction's operand fields.
#[derive(Clone, Copy, Debug, PartialEq, Eq, Structural)]
pub enum RCPURegister {
    A,
    B,
    C,
    D,
    IP,
    SP,
}

impl RCPURegister {
    /// The registers that an operand field can name.
    pub open spec fn is_general(self) -> bool {
        !(self is IP) && !(self is SP)
    }
}

/// The register file. `ip` counts words; `sp` is the number of words on the
/// stack.
#[derive(Clone, Copy, Debug, PartialEq, Eq, Structural)]
pub struct RCPUState {
    pub ip: u16,
    pub sp: u16,
    pub a: u16,
    pub b: u16,
    pub c: u16,
    pub d: u16,
}

/// The system calls that `SYS` can make.
#[derive(Clone, Copy, Debug, PartialEq, Eq, Structural)]
pub enum RCPUSyscall {
    Printf,
    Fgets,
    Getc,
}

impl RCPUSyscall {
    /// The call with number `value`: 0 `printf`, 1 `fgets`, 2 `getc`; `None`
    /// for any other number.
    pub fn from_number(value: u16) -> (r: Option<RCPUSyscall>)
        ensures
            value == 0 ==> r == Some(RCPUSyscall::Printf),
            value == 1 ==> r == Some(RCPUSyscall::Fgets),
            value == 2 ==> r == Some(RCPUSyscall::Getc),
            value > 2 ==> r is None,
    {
        match value {
            0 => Some(RCPUSyscall::Printf),
            1 => Some(RCPUSyscall::Fgets),
            2 => Some(RCPUSyscall::Getc),
            _ => None,
        }
    }
}

/// An `fgets` call that waits for keys: `count` of at most `size` words have
/// been stored from `buffer` on.
#[derive(Clone, Copy, Debug, PartialEq, Eq, Structural)]
pub struct PendingRead {
    pub buffer: u16,
    pub size: u16,
    pub count: u16,
}

/// The fatal errors of the virtual CPU.
#[derive(Clone, Copy, Debug, PartialEq, Eq, Structural)]
pub enum RCPUFault {
    /// An `ATH` instruction with one of the undefined operation codes.
    InvalidAthOperation(u16),
    /// A push onto a full stack.
    StackOverflow,
    /// A pop from an empty stack.
    StackUnderflow,
    /// An `ATH` division by zero.
    DivideByZero,
    /// `SYS` with an unknown system call number.
    BadSyscall(u16),
    /// A `%` in a `printf` format followed by an unknown specifier.
    BadFormatSpec(u8),
    /// `getc` or `fgets` on a stream other than 0.
    BadStream(u16),
    /// A string that runs to the end of RAM without a terminating zero.
    UnterminatedString,
}

/// The whole state of the virtual CPU, as a mathematical value. `ram` and
/// `stack` hold each word in host byte order.
pub ghost struct Machine {
    pub running: bool,
    pub regs: RCPUState,
    pub ram: Seq<u16>,
    pub stack: Seq<u16>,
    pub pending: Option<PendingRead>,
}

impl Machine {
    pub open spec fn wf(self) -> bool {
        &&& self.ram.len() == RAM_WORDS
        &&& self.stack.len() <= MAX_STACK_WORDS
        &&& self.regs.sp <= self.stack.len()
        &&& self.pending matches Some(p) ==> p.count <= p.size
    }

    pub open spec fn with_regs(self, regs: RCPUState) -> Machine {
        Machine { regs, ..self }
    }
}

/// `x + 1`, wrapping at 2^16.
pub open spec fn next_word(x: u16) -> u16 {
    ((x + 1) % 0x10000) as u16
}

/// `x + y`, wrapping at 2^16.
pub open spec fn add_words(x: u16, y: u16) -> u16 {
    ((x + y) % 0x10000) as u16
}

/// `x - y`, wrapping at 2^16.
pub open spec fn sub_words(x: u16, y: u16) -> u16 {
    ((x - y + 0x10000) % 0x10000) as u16
}

pub open spec fn reg_get(s: RCPUState, r: RCPURegister) -> u16 {
    match r {
        RCPURegister::A => s.a,
        RCPURegister::B => s.b,
        RCPURegister::C => s.c,
        RCPURegister::D => s.d,
        RCPURegister::IP => s.ip,
        RCPURegister::SP => s.sp,
    }
}

pub open spec fn reg_set(s: RCPUState, r: RCPURegister, v: u16) -> RCPUState {
    match r {
        RCPURegister::A => RCPUState { a: v, ..s },
        RCPURegister::B => RCPUState { b: v, ..s },
        RCPURegister::C => RCPUState { c: v, ..s },
        RCPURegister::D => RCPUState { d: v, ..s },
        RCPURegister::IP => RCPUState { ip: v, ..s },
        RCPURegister::SP => RCPUState { sp: v, ..s },
    }
}

/// Pushes `v`: stored at slot `sp`, which then grows by one; a full stack
/// overflows.
pub open spec fn push_spec(m: Machine, v: u16) -> Result<Machine, RCPUFault> {
    if m.regs.sp < m.stack.len() {
        Ok(
            Machine {
                stack: m.stack.update(m.regs.sp as int, swapped(v)),
                regs: RCPUState { sp: (m.regs.sp + 1) as u16, ..m.regs },
                ..m
            },
        )
    } else {
        Err(RCPUFault::StackOverflow)
    }
}

/// Pops the word at slot `sp - 1`; an empty stack underflows.
pub open spec fn pop_spec(m: Machine) -> Result<(Machine, u16), RCPUFault> {
    if m.regs.sp == 0 {
        Err(RCPUFault::StackUnderflow)
    } else {
        let sp = (m.regs.sp - 1) as u16;
        Ok((m.with_regs(RCPUState { sp, ..m.regs }), swapped(m.stack[sp as int])))
    }
}

/// The state of a program whose image is `image`, with a stack of
/// `stack_words` words.
pub open spec fn initial_machine(image: Seq<u8>, stack_words: nat) -> Machine {
    Machine {
        running: true,
        regs: RCPUState { ip: 0, sp: 0, a: 0, b: 0, c: 0, d: 0 },
        ram: Seq::new(RAM_WORDS as nat, |i: int| image_word(image, i)),
        stack: Seq::new(stack_words, |i: int| 0u16),
        pending: None,
    }
}

/// Byte `j` of an image, zero past its end.
pub open spec fn image_byte(image: Seq<u8>, j: int) -> u8 {
    if 0 <= j < image.len() {
        image[j]
    } else {
        0
    }
}

/// Word `i` of an image copied byte for byte into host (little-endian)
/// memory.
pub open spec fn image_word(image: Seq<u8>, i: int) -> u16 {
    (image_byte(image, 2 * i) as u16 | ((image_byte(image, 2 * i + 1) as u16) << 8u16)) as u16
}

/// What one step of the virtual CPU does: the state after it, the keys left
/// in the queue, the bytes it prints, and the fault that stopped it, if any.
/// After a fault only `output` and `fault` are meaningful.
pub ghost struct Transition {
    pub machine: Machine,
    pub keys: Seq<KeyEvent>,
    pub output: Seq<u8>,
    pub fault: Option<RCPUFault>,
}

pub open spec fn done(m: Machine, keys: Seq<KeyEvent>) -> Transition {
    Transition { machine: m, keys, output: Seq::empty(), fault: None }
}

pub open spec fn failed(m: Machine, keys: Seq<KeyEvent>, output: Seq<u8>, e: RCPUFault) -> Transition {
    Transition { machine: m, keys, output, fault: Some(e) }
}

/// The state with `ip` moved on to the next instruction.
pub open spec fn advance(m: Machine) -> Machine {
    m.with_regs(RCPUState { ip: next_word(m.regs.ip), ..m.regs })
}

pub open spec fn jump(m: Machine, target: u16) -> Machine {
    m.with_regs(RCPUState { ip: target, ..m.regs })
}

/// The result of an `ATH` operation on source `s`, destination `d` and
/// shift `k`; `None` for a division by zero.
pub open spec fn ath_result(op: RCPUAthOperation, s: u16, d: u16, k: u16) -> Option<u16> {
    match op {
        RCPUAthOperation::Add => Some(add_words(s, d)),
        RCPUAthOperation::Subtract => Some(sub_words(d, s)),
        RCPUAthOperation::Multiply => Some(((d * s) % 0x10000) as u16),
        RCPUAthOperation::Divide => if s == 0 {
            None
        } else {
            Some((d / s) as u16)
        },
        RCPUAthOperation::LeftShift => Some(s << k),
        RCPUAthOperation::RightShift => Some(s >> k),
        RCPUAthOperation::And => Some(s & d),
        RCPUAthOperation::Or => Some(s | d),
        RCPUAthOperation::Xor => Some(s ^ d),
        RCPUAthOperation::Not => Some(!s),
        RCPUAthOperation::Increment => Some(next_word(d)),
        RCPUAthOperation::Decrement => Some(sub_words(d, 1)),
    }
}

/// The ASCII digits of `n` in decimal, most significant first.
pub open spec fn decimal(n: nat) -> Seq<u8>
    decreases n,
{
    if n < 10 {
        seq![(n + 48) as u8]
    } else {
        decimal(n / 10).push((n % 10 + 48) as u8)
    }
}

/// The low byte of the guest word at `idx`: a character of a guest string.
pub open spec fn char_at(ram: Seq<u16>, idx: int) -> u8 {
    mem_read(ram, idx as u16) as u8
}

/// The characters of the string at `idx`, printed as they are, and whether a
/// zero ends it before the end of RAM.
pub open spec fn plain_text(ram: Seq<u16>, idx: int) -> (Seq<u8>, bool)
    decreases 0x10000 - idx,
{
    if idx >= 0x10000 {
        (Seq::empty(), false)
    } else if char_at(ram, idx) == 0 {
        (Seq::empty(), true)
    } else {
        let rest = plain_text(ram, idx + 1);
        (seq![char_at(ram, idx)] + rest.0, rest.1)
    }
}

/// `printf` from `idx` on: what it prints and the state after it. `percent`
/// is set when the previous character was an unescaped `%`. `%d`, `%c` and
/// `%s` pop their argument; `%s` prints the string at the popped address
/// as it is.
pub open spec fn format_walk(m: Machine, idx: int, percent: bool) -> (Seq<u8>, Result<Machine, RCPUFault>)
    decreases 0x10000 - idx,
{
    if idx >= 0x10000 {
        (Seq::empty(), Err(RCPUFault::UnterminatedString))
    } else {
        let c = char_at(m.ram, idx);
        if c == 0 {
            (Seq::empty(), Ok(m))
        } else if percent {
            if c == FORMAT_DECIMAL || c == FORMAT_CHAR || c == FORMAT_STRING {
                match pop_spec(m) {
                    Err(e) => (Seq::empty(), Err(e)),
                    Ok((m2, v)) => {
                        let arg = if c == FORMAT_DECIMAL {
                            (decimal(v as nat), true)
                        } else if c == FORMAT_CHAR {
                            (seq![v as u8], true)
                        } else {
                            plain_text(m2.ram, v as int)
                        };
                        if !arg.1 {
                            (arg.0, Err(RCPUFault::UnterminatedString))
                        } else {
                            let rest = format_walk(m2, idx + 1, false);
                            (arg.0 + rest.0, rest.1)
                        }
                    },
                }
            } else if c == PERCENT {
                let rest = format_walk(m, idx + 1, false);
                (seq![PERCENT] + rest.0, rest.1)
            } else {
                (Seq::empty(), Err(RCPUFault::BadFormatSpec(c)))
            }
        } else if c == PERCENT {
            format_walk(m, idx + 1, true)
        } else {
            let rest = format_walk(m, idx + 1, false);
            (seq![c] + rest.0, rest.1)
        }
    }
}

/// The character that `fgets` stores for a key: F1 ends the line like a
/// zero; other keys without a character are skipped.
pub open spec fn key_char(k: KeyEvent) -> Option<char> {
    match k {
        KeyEvent::Unicode(c) => Some(c),
        KeyEvent::RawKey(RawKeyCode::F1) => Some('\0'),
        KeyEvent::RawKey(_) => None,
    }
}

/// The guest word that holds a character.
pub open spec fn char_word(c: char) -> u16 {
    (c as u32) as u16
}

/// `getc`: the first character in the queue, with the keys before it and the
/// character itself taken out; 0xFFFF and an empty queue when there is none.
pub open spec fn getc_take(keys: Seq<KeyEvent>) -> (u16, Seq<KeyEvent>)
    decreases keys.len(),
{
    if keys.len() == 0 {
        (0xffff, keys)
    } else {
        match keys[0] {
            KeyEvent::Unicode(c) => (char_word(c), keys.drop_first()),
            KeyEvent::RawKey(_) => getc_take(keys.drop_first()),
        }
    }
}

/// The end of `fgets`: a zero after the characters unless the last one was
/// the terminator, the count pushed as the result, and the next instruction.
pub open spec fn finish_read(m: Machine, hit_terminator: bool, keys: Seq<KeyEvent>) -> Transition {
    let p = m.pending->0;
    let m2 = if hit_terminator {
        m
    } else {
        Machine { ram: mem_write(m.ram, add_words(p.buffer, p.count), 0), ..m }
    };
    match push_spec(Machine { pending: None, ..m2 }, p.count) {
        Err(e) => failed(m, keys, Seq::empty(), e),
        Ok(m3) => done(advance(m3), keys),
    }
}

/// `fgets` going on with the keys in the queue. It stores one word for each
/// key that has a character, and ends when `size` words are stored or the
/// terminator is; when the queue runs dry first it waits, with the keys
/// taken so far stored.
pub open spec fn read_keys(m: Machine, keys: Seq<KeyEvent>) -> Transition
    decreases keys.len(),
{
    let p = m.pending->0;
    if p.count >= p.size {
        finish_read(m, false, keys)
    } else if keys.len() == 0 {
        done(m, keys)
    } else {
        match key_char(keys[0]) {
            None => read_keys(m, keys.drop_first()),
            Some(c) => {
                let m2 = Machine {
                    ram: mem_write(m.ram, add_words(p.buffer, p.count), char_word(c)),
                    pending: Some(PendingRead { count: (p.count + 1) as u16, ..p }),
                    ..m
                };
                if c == '\0' {
                    finish_read(m2, true, keys.drop_first())
                } else {
                    read_keys(m2, keys.drop_first())
                }
            },
        }
    }
}

/// `SYS`: pops the call number, then its arguments, and makes the call.
pub open spec fn syscall_spec(m: Machine, keys: Seq<KeyEvent>) -> Transition {
    match pop_spec(m) {
        Err(e) => failed(m, keys, Seq::empty(), e),
        Ok((m1, n)) => if n == 0 {
            match pop_spec(m1) {
                Err(e) => failed(m, keys, Seq::empty(), e),
                Ok((m2, fmt)) => {
                    let w = format_walk(m2, fmt as int, false);
                    match w.1 {
                        Ok(m3) => Transition {
                            machine: advance(m3),
                            keys,
                            output: w.0,
                            fault: None,
                        },
                        Err(e) => failed(m, keys, w.0, e),
                    }
                },
            }
        } else if n == 1 {
            match pop_spec(m1) {
                Err(e) => failed(m, keys, Seq::empty(), e),
                Ok((m2, buffer)) => match pop_spec(m2) {
                    Err(e) => failed(m, keys, Seq::empty(), e),
                    Ok((m3, size)) => match pop_spec(m3) {
                        Err(e) => failed(m, keys, Seq::empty(), e),
                        Ok((m4, stream)) => if stream != 0 {
                            failed(m, keys, Seq::empty(), RCPUFault::BadStream(stream))
                        } else {
                            read_keys(
                                Machine { pending: Some(PendingRead { buffer, size, count: 0 }), ..m4 },
                                keys,
                            )
                        },
                    },
                },
            }
        } else if n == 2 {
            match pop_spec(m1) {
                Err(e) => failed(m, keys, Seq::empty(), e),
                Ok((m2, stream)) => if stream != 0 {
                    failed(m, keys, Seq::empty(), RCPUFault::BadStream(stream))
                } else {
                    let g = getc_take(keys);
                    match push_spec(m2, g.0) {
                        Err(e) => failed(m, g.1, Seq::empty(), e),
                        Ok(m3) => done(advance(m3), g.1),
                    }
                },
            }
        } else {
            failed(m, keys, Seq::empty(), RCPUFault::BadSyscall(n))
        },
    }
}

/// What executing the instruction word `w` does. The immediate forms (`LDV`,
/// `LDA`, `LDM`) take their register from the source field.
pub open spec fn execute_spec(m: Machine, w: u16, keys: Seq<KeyEvent>) -> Transition {
    let src = register_from_code(source_field(w));
    let dst = register_from_code(destination_field(w));
    let s = reg_get(m.regs, src);
    let d = reg_get(m.regs, dst);
    match kind_from_code(kind_field(w)) {
        RCPUInstructionType::MOV => done(advance(m.with_regs(reg_set(m.regs, dst, s))), keys),
        RCPUInstructionType::LDV => done(
            advance(m.with_regs(reg_set(m.regs, src, value_field(w)))),
            keys,
        ),
        RCPUInstructionType::LDA => done(
            advance(m.with_regs(reg_set(m.regs, src, mem_read(m.ram, value_field(w))))),
            keys,
        ),
        RCPUInstructionType::LDM => done(
            advance(Machine { ram: mem_write(m.ram, value_field(w), s), ..m }),
            keys,
        ),
        RCPUInstructionType::LDR => done(
            advance(m.with_regs(reg_set(m.regs, dst, mem_read(m.ram, s)))),
            keys,
        ),
        RCPUInstructionType::LDP => done(advance(Machine { ram: mem_write(m.ram, d, s), ..m }), keys),
        RCPUInstructionType::ATH => match ath_from_code(ath_field(w)) {
            None => failed(m, keys, Seq::empty(), RCPUFault::InvalidAthOperation(ath_field(w))),
            Some(op) => match ath_result(op, s, d, shift_field(w)) {
                None => failed(m, keys, Seq::empty(), RCPUFault::DivideByZero),
                Some(v) => {
                    let target = match mode_from_code(mode_field(w)) {
                        RCPUAthMode::ToDest => dst,
                        RCPUAthMode::ToSource => src,
                    };
                    done(advance(m.with_regs(reg_set(m.regs, target, v))), keys)
                },
            },
        },
        RCPUInstructionType::CAL => {
            let m1 = advance(m);
            match push_spec(m1, m1.regs.ip) {
                Err(e) => failed(m, keys, Seq::empty(), e),
                Ok(m2) => done(jump(m2, d), keys),
            }
        },
        RCPUInstructionType::RET => match pop_spec(m) {
            Err(e) => failed(m, keys, Seq::empty(), e),
            Ok((m2, v)) => done(jump(m2, v), keys),
        },
        RCPUInstructionType::JLT => if m.regs.a < d {
            done(jump(m, s), keys)
        } else {
            done(advance(m), keys)
        },
        RCPUInstructionType::PSH => match push_spec(m, s) {
            Err(e) => failed(m, keys, Seq::empty(), e),
            Ok(m2) => done(advance(m2), keys),
        },
        RCPUInstructionType::POP => match pop_spec(m) {
            Err(e) => failed(m, keys, Seq::empty(), e),
            Ok((m2, v)) => done(advance(m2.with_regs(reg_set(m2.regs, dst, v))), keys),
        },
        RCPUInstructionType::SYS => syscall_spec(m, keys),
        RCPUInstructionType::HLT => done(Machine { running: false, ..m }, keys),
        RCPUInstructionType::JMP => done(jump(m, value_field(w)), keys),
        RCPUInstructionType::JMR => done(jump(m, s), keys),
    }
}

/// One step: an `fgets` that waits goes on with the queue; otherwise the
/// instruction at `ip` executes.
pub open spec fn step_spec(m: Machine, keys: Seq<KeyEvent>) -> Transition {
    if m.pending is Some {
        read_keys(m, keys)
    } else {
        execute_spec(m, mem_read(m.ram, m.regs.ip), keys)
    }
}

/// Whether the state after a call, the keys left and the result are those of
/// transition `t`.
pub open spec fn settles(t: Transition, m: Machine, keys: Seq<KeyEvent>, r: Result<(), RCPUFault>) -> bool {
    match t.fault {
        None => r is Ok && m == t.machine && keys == t.keys,
        Some(e) => r == Err::<(), RCPUFault>(e),
    }
}

/// `settles`, and the bytes appended to the output are those of `t`.
pub open spec fn follows(
    t: Transition,
    m: Machine,
    keys: Seq<KeyEvent>,
    out_before: Seq<u8>,
    out_after: Seq<u8>,
    r: Result<(), RCPUFault>,
) -> bool {
    &&& out_after == out_before + t.output
    &&& settles(t, m, keys, r)
}

/// Appends the decimal digits of `n` to `out`.
fn push_decimal(out: &mut Vec<u8>, n: u16)
    ensures
        final(out)@ == old(out)@ + decimal(n as nat),
    decreases n,
{
    if n >= 10 {
        push_decimal(out, n / 10);
    }
    let ghost before = out@;
    out.push((n % 10) as u8 + 48);
    if n >= 10 {
        assert(out@ =~= old(out)@ + decimal(n as nat));
    } else {
        assert(out@ =~= old(out)@ + decimal(n as nat));
    }
}

/// A program running on the virtual CPU: its RAM, its stack and its
/// registers.
pub struct RCPUProgram {
    pub running: bool,
    ram: Vec<u16>,
    stack: Vec<u16>,
    state: RCPUState,
    pending: Option<PendingRead>,
}

impl View for RCPUProgram {
    type V = Machine;

    closed spec fn view(&self) -> Machine {
        Machine {
            running: self.running,
            regs: self.state,
            ram: self.ram@,
            stack: self.stack@,
            pending: self.pending,
        }
    }
}

impl RCPUProgram {
    /// A program whose RAM holds `image` from word 0 on (each word in guest
    /// byte order, as the loader placed it), with zeros after it, and whose
    /// stack holds `stack_words` words, or the most that a 16-bit stack
    /// pointer can count.
    pub fn from_image(image: &Vec<u8>, stack_words: usize) -> (r: RCPUProgram)
        requires
            image@.len() <= 2 * RAM_WORDS,
        ensures
            r@.wf(),
            r@ == initial_machine(
                image@,
                if stack_words <= MAX_STACK_WORDS {
                    stack_words as nat
                } else {
                    MAX_STACK_WORDS as nat
                },
            ),
            r@.running,
    {
        let mut ram: Vec<u16> = Vec::new();
        let mut i: usize = 0;
        while i < RAM_WORDS
            invariant
                i <= RAM_WORDS,
                ram@.len() == i,
                forall|j: int| 0 <= j < i ==> ram@[j] == image_word(image@, j),
            decreases RAM_WORDS - i,
        {
            let lo: u8 = if 2 * i < image.len() {
                image[2 * i]
            } else {
                0
            };
            let hi: u8 = if 2 * i + 1 < image.len() {
                image[2 * i + 1]
            } else {
                0
            };
            ram.push(lo as u16 | ((hi as u16) << 8u16));
            i = i + 1;
        }
        let cap: usize = if stack_words <= MAX_STACK_WORDS {
            stack_words
        } else {
            MAX_STACK_WORDS
        };
        let mut stack: Vec<u16> = Vec::new();
        let mut k: usize = 0;
        while k < cap
            invariant
                k <= cap,
                stack@.len() == k,
                forall|j: int| 0 <= j < k ==> stack@[j] == 0u16,
            decreases cap - k,
        {
            stack.push(0);
            k = k + 1;
        }
        let r = RCPUProgram {
            running: true,
            ram,
            stack,
            state: RCPUState { ip: 0, sp: 0, a: 0, b: 0, c: 0, d: 0 },
            pending: None,
        };
        assert(r@.ram =~= initial_machine(image@, cap as nat).ram);
        assert(r@.stack =~= initial_machine(image@, cap as nat).stack);
        r
    }

    /// The guest word at RAM index `index`.
    pub fn read(&self, index: u16) -> (r: u16)
        requires
            self@.wf(),
        ensures
            r == mem_read(self@.ram, index),
    {
        swap_endianness(self.ram[index as usize])
    }

    /// Stores the guest word `value` at RAM index `index`.
    pub fn write(&mut self, index: u16, value: u16)
        requires
            old(self)@.wf(),
        ensures
            final(self)@ == (Machine { ram: mem_write(old(self)@.ram, index, value), ..old(self)@ }),
    {
        let v = swap_endianness(value);
        self.ram.set(index as usize, v);
    }

    /// Pushes `value` onto the stack.
    fn push(&mut self, value: u16) -> (r: Result<(), RCPUFault>)
        requires
            old(self)@.wf(),
        ensures
            final(self)@.wf(),
            match push_spec(old(self)@, value) {
                Ok(m) => r is Ok && final(self)@ == m,
                Err(e) => r == Err::<(), RCPUFault>(e) && final(self)@ == old(self)@,
            },
    {
        let sp = self.state.sp;
        if (sp as usize) < self.stack.len() {
            let v = swap_endianness(value);
            self.stack.set(sp as usize, v);
            self.state.sp = sp + 1;
            Ok(())
        } else {
            Err(RCPUFault::StackOverflow)
        }
    }

    /// Pops the word on top of the stack.
    fn pop(&mut self) -> (r: Result<u16, RCPUFault>)
        requires
            old(self)@.wf(),
        ensures
            final(self)@.wf(),
            match pop_spec(old(self)@) {
                Ok((m, v)) => r == Ok::<u16, RCPUFault>(v) && final(self)@ == m,
                Err(e) => r == Err::<u16, RCPUFault>(e) && final(self)@ == old(self)@,
            },
    {
        if self.state.sp == 0 {
            return Err(RCPUFault::StackUnderflow);
        }
        self.state.sp = self.state.sp - 1;
        let v = swap_endianness(self.stack[self.state.sp as usize]);
        Ok(v)
    }

    fn set_register(&mut self, register: RCPURegister, value: u16)
        ensures
            final(self)@ == old(self)@.with_regs(reg_set(old(self)@.regs, register, value)),
    {
        match register {
            RCPURegister::A => self.state.a = value,
            RCPURegister::B => self.state.b = value,
            RCPURegister::C => self.state.c = value,
            RCPURegister::D => self.state.d = value,
            RCPURegister::IP => self.state.ip = value,
            RCPURegister::SP => self.state.sp = value,
        }
    }

    /// The value of a register.
    pub fn get_register(&self, register: RCPURegister) -> (r: u16)
        ensures
            r == reg_get(self@.regs, register),
    {
        match register {
            RCPURegister::A => self.state.a,
            RCPURegister::B => self.state.b,
            RCPURegister::C => self.state.c,
            RCPURegister::D => self.state.d,
            RCPURegister::IP => self.state.ip,
            RCPURegister::SP => self.state.sp,
        }
    }

    fn inc_register(&mut self, register: RCPURegister)
        ensures
            final(self)@ == old(self)@.with_regs(
                reg_set(old(self)@.regs, register, next_word(reg_get(old(self)@.regs, register))),
            ),
    {
        let value = self.get_register(register);
        self.set_register(register, value.wrapping_add(1));
    }

    fn dec_register(&mut self, register: RCPURegister)
        ensures
            final(self)@ == old(self)@.with_regs(
                reg_set(old(self)@.regs, register, sub_words(reg_get(old(self)@.regs, register), 1)),
            ),
    {
        let value = self.get_register(register);
        self.set_register(register, value.wrapping_sub(1));
    }

    /// Prints the string at `str_pointer` as it is, and says whether a zero
    /// ended it before the end of RAM.
    fn print_plain(&self, str_pointer: u16, out: &mut Vec<u8>) -> (r: bool)
        requires
            self@.wf(),
        ensures
            final(out)@ == old(out)@ + plain_text(self@.ram, str_pointer as int).0,
            r == plain_text(self@.ram, str_pointer as int).1,
    {
        let ghost ram = self@.ram;
        let mut idx: u32 = str_pointer as u32;
        while idx < 0x10000
            invariant
                self@.wf(),
                ram == self@.ram,
                str_pointer <= idx <= 0x10000,
                old(out)@ + plain_text(ram, str_pointer as int).0 == out@ + plain_text(
                    ram,
                    idx as int,
                ).0,
                plain_text(ram, str_pointer as int).1 == plain_text(ram, idx as int).1,
            decreases 0x10000 - idx,
        {
            let c = #[verifier::truncate] (self.read(idx as u16) as u8);
            assert(c == char_at(ram, idx as int));
            if c == 0 {
                assert(out@ + Seq::<u8>::empty() =~= out@);
                return true;
            }
            let ghost before = out@;
            out.push(c);
            assert(before + plain_text(ram, idx as int).0 =~= out@ + plain_text(
                ram,
                idx + 1,
            ).0);
            idx = idx + 1;
        }
        assert(out@ + Seq::<u8>::empty() =~= out@);
        false
    }

    /// `printf`: prints the format string at `str_pointer`, popping an
    /// argument for each `%d`, `%c` and `%s`.
    fn print_string(&mut self, str_pointer: u16, out: &mut Vec<u8>) -> (r: Result<(), RCPUFault>)
        requires
            old(self)@.wf(),
        ensures
            final(self)@.wf(),
            ({
                let t = format_walk(old(self)@, str_pointer as int, false);
                &&& final(out)@ == old(out)@ + t.0
                &&& match t.1 {
                    Ok(m) => r is Ok && final(self)@ == m,
                    Err(e) => r == Err::<(), RCPUFault>(e),
                }
            }),
    {
        let mut idx: u32 = str_pointer as u32;
        let mut formatting = false;
        while idx < 0x10000
            invariant
                self@.wf(),
                idx <= 0x10000,
                ({
                    let t = format_walk(old(self)@, str_pointer as int, false);
                    let c = format_walk(self@, idx as int, formatting);
                    old(out)@ + t.0 == out@ + c.0 && t.1 == c.1
                }),
            decreases 0x10000 - idx,
        {
            let ghost m = self@;
            let ghost before = out@;
            let c = #[verifier::truncate] (self.read(idx as u16) as u8);
            assert(c == char_at(m.ram, idx as int));
            if c == 0 {
                assert(out@ + Seq::<u8>::empty() =~= out@);
                return Ok(());
            }
            if formatting {
                if c == FORMAT_DECIMAL || c == FORMAT_CHAR || c == FORMAT_STRING {
                    let v = match self.pop() {
                        Ok(v) => v,
                        Err(e) => {
                            assert(out@ + Seq::<u8>::empty() =~= out@);
                            return Err(e);
                        },
                    };
                    if c == FORMAT_DECIMAL {
                        push_decimal(out, v);
                    } else if c == FORMAT_CHAR {
                        out.push(#[verifier::truncate] (v as u8));
                        assert(out@ =~= before + seq![v as u8]);
                    } else {
                        let ok = self.print_plain(v, out);
                        if !ok {
                            return Err(RCPUFault::UnterminatedString);
                        }
                    }
                    assert(before + format_walk(m, idx as int, true).0 =~= out@ + format_walk(
                        self@,
                        idx + 1,
                        false,
                    ).0);
                } else if c == PERCENT {
                    out.push(PERCENT);
                    assert(before + format_walk(m, idx as int, true).0 =~= out@ + format_walk(
                        self@,
                        idx + 1,
                        false,
                    ).0);
                } else {
                    assert(out@ + Seq::<u8>::empty() =~= out@);
                    return Err(RCPUFault::BadFormatSpec(c));
                }
                formatting = false;
            } else if c == PERCENT {
                formatting = true;
            } else {
                out.push(c);
                assert(before + format_walk(m, idx as int, false).0 =~= out@ + format_walk(
                    self@,
                    idx + 1,
                    false,
                ).0);
            }
            idx = idx + 1;
        }
        assert(out@ + Seq::<u8>::empty() =~= out@);
        Err(RCPUFault::UnterminatedString)
    }

    /// `getc`: takes keys from the queue up to and including the first one
    /// with a character, and returns that character, or 0xFFFF when there is
    /// none. Only stream 0 exists.
    fn get_character(&self, stream_num: u16, keys: &mut KeyCodeIter) -> (r: Result<u16, RCPUFault>)
        requires
            old(keys).wf(),
        ensures
            final(keys).wf(),
            stream_num != 0 ==> r == Err::<u16, RCPUFault>(RCPUFault::BadStream(stream_num))
                && final(keys)@ == old(keys)@,
            stream_num == 0 ==> r == Ok::<u16, RCPUFault>(getc_take(old(keys)@).0) && final(keys)@
                == getc_take(old(keys)@).1,
    {
        if stream_num != 0 {
            return Err(RCPUFault::BadStream(stream_num));
        }
        loop
            invariant
                stream_num == 0,
                keys.wf(),
                getc_take(keys@) == getc_take(old(keys)@),
            decreases keys@.len(),
        {
            match keys.next() {
                None => {
                    return Ok(0xffff);
                },
                Some(KeyEvent::Unicode(c)) => {
                    return Ok(#[verifier::truncate] (c as u32 as u16));
                },
                Some(KeyEvent::RawKey(_)) => {},
            }
        }
    }

    /// Ends an `fgets` call: writes the closing zero unless the terminator
    /// was stored, pushes the count and moves to the next instruction.
    fn finish_read(&mut self, hit_terminator: bool, Ghost(keys): Ghost<Seq<KeyEvent>>) -> (r: Result<
        (),
        RCPUFault,
    >)
        requires
            old(self)@.wf(),
            old(self)@.pending is Some,
        ensures
            final(self)@.wf(),
            settles(finish_read(old(self)@, hit_terminator, keys), final(self)@, keys, r),
            finish_read(old(self)@, hit_terminator, keys).output == Seq::<u8>::empty(),
    {
        let p = self.pending.unwrap();
        if !hit_terminator {
            self.write(p.buffer.wrapping_add(p.count), 0);
        }
        self.pending = None;
        match self.push(p.count) {
            Ok(()) => {},
            Err(e) => {
                return Err(e);
            },
        }
        self.inc_register(RCPURegister::IP);
        Ok(())
    }

    /// `fgets` going on: stores the characters of the queued keys until
    /// `size` are stored or the terminator is, or the queue runs dry.
    fn get_string(&mut self, keys: &mut KeyCodeIter) -> (r: Result<(), RCPUFault>)
        requires
            old(self)@.wf(),
            old(self)@.pending is Some,
            old(keys).wf(),
        ensures
            final(self)@.wf(),
            final(keys).wf(),
            settles(read_keys(old(self)@, old(keys)@), final(self)@, final(keys)@, r),
            read_keys(old(self)@, old(keys)@).output == Seq::<u8>::empty(),
    {
        let p = self.pending.unwrap();
        let mut chars_read = p.count;
        loop
            invariant
                self@.wf(),
                keys.wf(),
                self@.pending == Some(PendingRead { count: chars_read, ..p }),
                read_keys(self@, keys@) == read_keys(old(self)@, old(keys)@),
            decreases keys@.len(),
        {
            if chars_read >= p.size {
                return self.finish_read(false, Ghost(keys@));
            }
            let ghost m = self@;
            let ghost ks = keys@;
            match keys.next() {
                None => {
                    return Ok(());
                },
                Some(key) => {
                    let c: Option<char> = match key {
                        KeyEvent::Unicode(c) => Some(c),
                        KeyEvent::RawKey(RawKeyCode::F1) => Some('\0'),
                        KeyEvent::RawKey(_) => None,
                    };
                    assert(c == key_char(ks[0]));
                    if let Some(c) = c {
                        self.write(p.buffer.wrapping_add(chars_read), #[verifier::truncate] (c as u32 as u16));
                        chars_read = chars_read + 1;
                        self.pending = Some(PendingRead { buffer: p.buffer, size: p.size, count: chars_read });
                        if c == '\0' {
                            return self.finish_read(true, Ghost(keys@));
                        }
                    }
                },
            }
        }
    }

    /// `SYS`: pops the call number and makes the call.
    fn syscall(&mut self, keys: &mut KeyCodeIter, out: &mut Vec<u8>) -> (r: Result<(), RCPUFault>)
        requires
            old(self)@.wf(),
            old(self)@.pending is None,
            old(keys).wf(),
        ensures
            final(self)@.wf(),
            final(keys).wf(),
            follows(syscall_spec(old(self)@, old(keys)@), final(self)@, final(keys)@, old(out)@, final(out)@, r),
    {
        let number = match self.pop() {
            Ok(v) => v,
            Err(e) => {
                assert(old(out)@ + Seq::<u8>::empty() =~= old(out)@);
                return Err(e);
            },
        };
        assert(old(out)@ + Seq::<u8>::empty() =~= old(out)@);
        match RCPUSyscall::from_number(number) {
            Some(RCPUSyscall::Printf) => {
                let fmt = match self.pop() {
                    Ok(v) => v,
                    Err(e) => {
                        return Err(e);
                    },
                };
                match self.print_string(fmt, out) {
                    Ok(()) => {},
                    Err(e) => {
                        return Err(e);
                    },
                }
                self.inc_register(RCPURegister::IP);
                Ok(())
            },
            Some(RCPUSyscall::Fgets) => {
                let str_ptr = match self.pop() {
                    Ok(v) => v,
                    Err(e) => {
                        return Err(e);
                    },
                };
                let size = match self.pop() {
                    Ok(v) => v,
                    Err(e) => {
                        return Err(e);
                    },
                };
                let stream_num = match self.pop() {
                    Ok(v) => v,
                    Err(e) => {
                        return Err(e);
                    },
                };
                if stream_num != 0 {
                    return Err(RCPUFault::BadStream(stream_num));
                }
                self.pending = Some(PendingRead { buffer: str_ptr, size, count: 0 });
                self.get_string(keys)
            },
            Some(RCPUSyscall::Getc) => {
                let stream_num = match self.pop() {
                    Ok(v) => v,
                    Err(e) => {
                        return Err(e);
                    },
                };
                let char_read = match self.get_character(stream_num, keys) {
                    Ok(c) => c,
                    Err(e) => {
                        return Err(e);
                    },
                };
                match self.push(char_read) {
                    Ok(()) => {},
                    Err(e) => {
                        return Err(e);
                    },
                }
                self.inc_register(RCPURegister::IP);
                Ok(())
            },
            None => Err(RCPUFault::BadSyscall(number)),
        }
    }

    /// The result of an `ATH` operation on `src_value` and `dest_value`.
    fn ath(op: RCPUAthOperation, src_value: u16, dest_value: u16, shift: u16) -> (r: Option<u16>)
        requires
            shift < 8,
        ensures
            r == ath_result(op, src_value, dest_value, shift),
    {
        match op {
            RCPUAthOperation::Add => Some(src_value.wrapping_add(dest_value)),
            RCPUAthOperation::Subtract => Some(dest_value.wrapping_sub(src_value)),
            RCPUAthOperation::Multiply => {
                let v = dest_value.wrapping_mul(src_value);
                assert(v == ((dest_value * src_value) % 0x10000) as u16);
                Some(v)
            },
            RCPUAthOperation::Divide => {
                if src_value == 0 {
                    None
                } else {
                    Some(dest_value / src_value)
                }
            },
            RCPUAthOperation::LeftShift => Some(src_value << shift),
            RCPUAthOperation::RightShift => Some(src_value >> shift),
            RCPUAthOperation::And => Some(src_value & dest_value),
            RCPUAthOperation::Or => Some(src_value | dest_value),
            RCPUAthOperation::Xor => Some(src_value ^ dest_value),
            RCPUAthOperation::Not => Some(!src_value),
            RCPUAthOperation::Increment => Some(dest_value.wrapping_add(1)),
            RCPUAthOperation::Decrement => Some(dest_value.wrapping_sub(1)),
        }
    }

    /// Executes one decoded instruction.
    fn execute(&mut self, operation: RCPUOperation, keys: &mut KeyCodeIter, out: &mut Vec<u8>) -> (r:
        Result<(), RCPUFault>)
        requires
            old(self)@.wf(),
            old(self)@.pending is None,
            old(keys).wf(),
        ensures
            final(self)@.wf(),
            final(keys).wf(),
            follows(
                execute_spec(old(self)@, operation.opcode, old(keys)@),
                final(self)@,
                final(keys)@,
                old(out)@,
                final(out)@,
                r,
            ),
    {
        assert(old(out)@ + Seq::<u8>::empty() =~= old(out)@);
        match operation.instruction_type() {
            RCPUInstructionType::MOV => {
                let value = self.get_register(operation.source_register());
                self.set_register(operation.destination_register(), value);
                self.inc_register(RCPURegister::IP);
            },
            RCPUInstructionType::LDV => {
                let value = operation.value();
                self.set_register(operation.source_register(), value);
                self.inc_register(RCPURegister::IP);
            },
            RCPUInstructionType::LDA => {
                let value = self.read(operation.value());
                self.set_register(operation.source_register(), value);
                self.inc_register(RCPURegister::IP);
            },
            RCPUInstructionType::LDM => {
                let value = self.get_register(operation.source_register());
                self.write(operation.value(), value);
                self.inc_register(RCPURegister::IP);
            },
            RCPUInstructionType::LDR => {
                let memory_address = self.get_register(operation.source_register());
                let value = self.read(memory_address);
                self.set_register(operation.destination_register(), value);
                self.inc_register(RCPURegister::IP);
            },
            RCPUInstructionType::LDP => {
                let value = self.get_register(operation.source_register());
                let memory_address = self.get_register(operation.destination_register());
                self.write(memory_address, value);
                self.inc_register(RCPURegister::IP);
            },
            RCPUInstructionType::ATH => {
                let src_value = self.get_register(operation.source_register());
                let dest_value = self.get_register(operation.destination_register());
                let op = match operation.ath_operation() {
                    Some(op) => op,
                    None => {
                        return Err(RCPUFault::InvalidAthOperation(operation.ath_operation_code()));
                    },
                };
                let new_value = match RCPUProgram::ath(
                    op,
                    src_value,
                    dest_value,
                    operation.ath_shift(),
                ) {
                    Some(v) => v,
                    None => {
                        return Err(RCPUFault::DivideByZero);
                    },
                };
                match operation.ath_mode() {
                    RCPUAthMode::ToSource => self.set_register(operation.source_register(), new_value),
                    RCPUAthMode::ToDest => self.set_register(
                        operation.destination_register(),
                        new_value,
                    ),
                }
                self.inc_register(RCPURegister::IP);
            },
            RCPUInstructionType::CAL => {
                self.inc_register(RCPURegister::IP);
                let return_address = self.get_register(RCPURegister::IP);
                match self.push(return_address) {
                    Ok(()) => {},
                    Err(e) => {
                        return Err(e);
                    },
                }
                let new_ip = self.get_register(operation.destination_register());
                self.set_register(RCPURegister::IP, new_ip);
            },
            RCPUInstructionType::RET => {
                let new_ip = match self.pop() {
                    Ok(v) => v,
                    Err(e) => {
                        return Err(e);
                    },
                };
                self.set_register(RCPURegister::IP, new_ip);
            },
            RCPUInstructionType::JLT => {
                if self.get_register(RCPURegister::A) < self.get_register(
                    operation.destination_register(),
                ) {
                    let target = self.get_register(operation.source_register());
                    self.set_register(RCPURegister::IP, target);
                } else {
                    self.inc_register(RCPURegister::IP);
                }
            },
            RCPUInstructionType::PSH => {
                let value = self.get_register(operation.source_register());
                match self.push(value) {
                    Ok(()) => {},
                    Err(e) => {
                        return Err(e);
                    },
                }
                self.inc_register(RCPURegister::IP);
            },
            RCPUInstructionType::POP => {
                let value = match self.pop() {
                    Ok(v) => v,
                    Err(e) => {
                        return Err(e);
                    },
                };
                self.set_register(operation.destination_register(), value);
                self.inc_register(RCPURegister::IP);
            },
            RCPUInstructionType::SYS => {
                return self.syscall(keys, out);
            },
            RCPUInstructionType::HLT => {
                self.running = false;
            },
            RCPUInstructionType::JMP => {
                let value = operation.value();
                self.set_register(RCPURegister::IP, value);
            },
            RCPUInstructionType::JMR => {
                let target = self.get_register(operation.source_register());
                self.set_register(RCPURegister::IP, target);
            },
        }
        Ok(())
    }

    /// Runs one step: goes on with an `fgets` that waits for keys, or else
    /// fetches the word at `ip`, decodes and executes it. Printed bytes are
    /// appended to `out`; keys are taken from `keys`.
    pub fn step(&mut self, keys: &mut KeyCodeIter, out: &mut Vec<u8>) -> (r: Result<(), RCPUFault>)
        requires
            old(self)@.wf(),
            old(keys).wf(),
        ensures
            final(self)@.wf(),
            final(keys).wf(),
            follows(step_spec(old(self)@, old(keys)@), final(self)@, final(keys)@, old(out)@, final(out)@, r),
    {
        if self.pending.is_some() {
            assert(old(out)@ + Seq::<u8>::empty() =~= old(out)@);
            return self.get_string(keys);
        }
        let binary_opcode: u16 = self.read(self.state.ip);
        let operation = RCPUOperation { opcode: binary_opcode };
        self.execute(operation, keys, out)
    }

    /// Whether an `fgets` call waits for more keys.
    pub fn awaiting_input(&self) -> (r: bool)
        ensures
            r == self@.pending is Some,
    {
        self.pending.is_some()
    }
}

} // verus!
