use vstd::prelude::*;

use crate::rcpu::RCPURegister;

verus! {

/// Masks and shifts of the fields of an instruction word.
const OPCODE_BITMAP: u16 = 0x000f;
const SOURCE_BITMAP: u16 = 0x0030;
const DESTINATION_BITMAP: u16 = 0x00c0;
const ATH_OPERATION_BITMAP: u16 = 0x0f00;
const ATH_MODE_BITMAP: u16 = 0x1000;
const ATH_SHIFT_BITMAP: u16 = 0xe000;
const VALUE_BITMAP: u16 = 0xffc0;

const SOURCE_SHIFT: u16 = 4;
const DESTINATION_SHIFT: u16 = 6;
const ATH_OPERATION_SHIFT: u16 = 8;
const ATH_MODE_SHIFT: u16 = 12;
const ATH_SHIFT_SHIFT: u16 = 13;
const VALUE_SHIFT: u16 = 6;

/// The sixteen kinds of instruction, selected by bits 0 to 3.
#[derive(Clone, Copy, Debug, PartialEq, Eq, Structural)]
pub enum RCPUInstructionType {
    MOV,
    LDV,
    LDA,
    LDM,
    LDR,
    LDP,
    ATH,
    CAL,
    RET,
    JLT,
    PSH,
    POP,
    SYS,
    HLT,
    JMP,
    JMR,
}

/// The arithmetic and logic operations of `ATH`, selected by bits 8 to 11.
#[derive(Clone, Copy, Debug, PartialEq, Eq, Structural)]
pub enum RCPUAthOperation {
    Add,
    Subtract,
    Multiply,
    Divide,
    LeftShift,
    RightShift,
    And,
    Or,
    Xor,
    Not,
    Increment,
    Decrement,
}

/// Where `ATH` writes its result, selected by bit 12.
#[derive(Clone, Copy, Debug, PartialEq, Eq, Structural)]
pub enum RCPUAthMode {
    ToDest,
    ToSource,
}

/// An instruction word. Its fields are read through the accessors below.
#[derive(Clone, Copy, Debug, PartialEq, Eq, Structural)]
pub struct RCPUOperation {
    pub opcode: u16,
}

pub open spec fn kind_field(w: u16) -> u16 {
    w & 0x000f
}

pub open spec fn source_field(w: u16) -> u16 {
    (w & 0x0030) >> 4u16
}

pub open spec fn destination_field(w: u16) -> u16 {
    (w & 0x00c0) >> 6u16
}

pub open spec fn ath_field(w: u16) -> u16 {
    (w & 0x0f00) >> 8u16
}

pub open spec fn mode_field(w: u16) -> u16 {
    (w & 0x1000) >> 12u16
}

pub open spec fn shift_field(w: u16) -> u16 {
    (w & 0xe000) >> 13u16
}

pub open spec fn value_field(w: u16) -> u16 {
    (w & 0xffc0) >> 6u16
}

/// The kind that a 4-bit code selects.
pub open spec fn kind_from_code(c: u16) -> RCPUInstructionType {
    if c == 0 {
        RCPUInstructionType::MOV
    } else if c == 1 {
        RCPUInstructionType::LDV
    } else if c == 2 {
        RCPUInstructionType::LDA
    } else if c == 3 {
        RCPUInstructionType::LDM
    } else if c == 4 {
        RCPUInstructionType::LDR
    } else if c == 5 {
        RCPUInstructionType::LDP
    } else if c == 6 {
        RCPUInstructionType::ATH
    } else if c == 7 {
        RCPUInstructionType::CAL
    } else if c == 8 {
        RCPUInstructionType::RET
    } else if c == 9 {
        RCPUInstructionType::JLT
    } else if c == 10 {
        RCPUInstructionType::PSH
    } else if c == 11 {
        RCPUInstructionType::POP
    } else if c == 12 {
        RCPUInstructionType::SYS
    } else if c == 13 {
        RCPUInstructionType::HLT
    } else if c == 14 {
        RCPUInstructionType::JMP
    } else {
        RCPUInstructionType::JMR
    }
}

/// The 4-bit code of a kind.
pub open spec fn kind_code(k: RCPUInstructionType) -> u16 {
    match k {
        RCPUInstructionType::MOV => 0,
        RCPUInstructionType::LDV => 1,
        RCPUInstructionType::LDA => 2,
        RCPUInstructionType::LDM => 3,
        RCPUInstructionType::LDR => 4,
        RCPUInstructionType::LDP => 5,
        RCPUInstructionType::ATH => 6,
        RCPUInstructionType::CAL => 7,
        RCPUInstructionType::RET => 8,
        RCPUInstructionType::JLT => 9,
        RCPUInstructionType::PSH => 10,
        RCPUInstructionType::POP => 11,
        RCPUInstructionType::SYS => 12,
        RCPUInstructionType::HLT => 13,
        RCPUInstructionType::JMP => 14,
        RCPUInstructionType::JMR => 15,
    }
}

/// The general register that a 2-bit code names.
pub open spec fn register_from_code(c: u16) -> RCPURegister {
    if c == 0 {
        RCPURegister::A
    } else if c == 1 {
        RCPURegister::B
    } else if c == 2 {
        RCPURegister::C
    } else {
        RCPURegister::D
    }
}

/// The code of a register (`A` to `D` have the 2-bit codes 0 to 3).
pub open spec fn register_code(r: RCPURegister) -> u16 {
    match r {
        RCPURegister::A => 0,
        RCPURegister::B => 1,
        RCPURegister::C => 2,
        RCPURegister::D => 3,
        RCPURegister::IP => 4,
        RCPURegister::SP => 5,
    }
}

/// The `ATH` operation that a 4-bit code selects; codes 12 to 15 select none.
pub open spec fn ath_from_code(c: u16) -> Option<RCPUAthOperation> {
    if c == 0 {
        Some(RCPUAthOperation::Add)
    } else if c == 1 {
        Some(RCPUAthOperation::Subtract)
    } else if c == 2 {
        Some(RCPUAthOperation::Multiply)
    } else if c == 3 {
        Some(RCPUAthOperation::Divide)
    } else if c == 4 {
        Some(RCPUAthOperation::LeftShift)
    } else if c == 5 {
        Some(RCPUAthOperation::RightShift)
    } else if c == 6 {
        Some(RCPUAthOperation::And)
    } else if c == 7 {
        Some(RCPUAthOperation::Or)
    } else if c == 8 {
        Some(RCPUAthOperation::Xor)
    } else if c == 9 {
        Some(RCPUAthOperation::Not)
    } else if c == 10 {
        Some(RCPUAthOperation::Increment)
    } else if c == 11 {
        Some(RCPUAthOperation::Decrement)
    } else {
        None
    }
}

/// The 4-bit code of an `ATH` operation.
pub open spec fn ath_code(op: RCPUAthOperation) -> u16 {
    match op {
        RCPUAthOperation::Add => 0,
        RCPUAthOperation::Subtract => 1,
        RCPUAthOperation::Multiply => 2,
        RCPUAthOperation::Divide => 3,
        RCPUAthOperation::LeftShift => 4,
        RCPUAthOperation::RightShift => 5,
        RCPUAthOperation::And => 6,
        RCPUAthOperation::Or => 7,
        RCPUAthOperation::Xor => 8,
        RCPUAthOperation::Not => 9,
        RCPUAthOperation::Increment => 10,
        RCPUAthOperation::Decrement => 11,
    }
}

pub open spec fn mode_from_code(c: u16) -> RCPUAthMode {
    if c == 0 {
        RCPUAthMode::ToDest
    } else {
        RCPUAthMode::ToSource
    }
}

pub open spec fn mode_code(m: RCPUAthMode) -> u16 {
    match m {
        RCPUAthMode::ToDest => 0,
        RCPUAthMode::ToSource => 1,
    }
}

/// The word of a register-form instruction with the given fields.
pub open spec fn encode_word(
    kind: RCPUInstructionType,
    src: RCPURegister,
    dst: RCPURegister,
    op: RCPUAthOperation,
    mode: RCPUAthMode,
    shift: u16,
) -> u16 {
    (kind_code(kind) | (register_code(src) << 4u16) | (register_code(dst) << 6u16) | (ath_code(op)
        << 8u16) | (mode_code(mode) << 12u16) | (shift << 13u16)) as u16
}

/// The word of an immediate-form instruction: the register operand in bits 4
/// and 5, the immediate in bits 6 to 15.
pub open spec fn encode_immediate_word(
    kind: RCPUInstructionType,
    reg: RCPURegister,
    value: u16,
) -> u16 {
    (kind_code(kind) | (register_code(reg) << 4u16) | (value << 6u16)) as u16
}

proof fn lemma_fields_of_parts(k: u16, s: u16, d: u16, o: u16, m: u16, sh: u16)
    requires
        k < 16,
        s < 4,
        d < 4,
        o < 16,
        m < 2,
        sh < 8,
    ensures
        ({
            let w = (k | (s << 4u16) | (d << 6u16) | (o << 8u16) | (m << 12u16) | (sh << 13u16)) as u16;
            &&& kind_field(w) == k
            &&& source_field(w) == s
            &&& destination_field(w) == d
            &&& ath_field(w) == o
            &&& mode_field(w) == m
            &&& shift_field(w) == sh
        }),
{
    assert({
        let w = (k | (s << 4u16) | (d << 6u16) | (o << 8u16) | (m << 12u16) | (sh << 13u16)) as u16;
        &&& w & 0x000f == k
        &&& (w & 0x0030) >> 4u16 == s
        &&& (w & 0x00c0) >> 6u16 == d
        &&& (w & 0x0f00) >> 8u16 == o
        &&& (w & 0x1000) >> 12u16 == m
        &&& (w & 0xe000) >> 13u16 == sh
    }) by (bit_vector)
        requires
            k < 16,
            s < 4,
            d < 4,
            o < 16,
            m < 2,
            sh < 8,
    ;
}

proof fn lemma_immediate_fields_of_parts(k: u16, s: u16, v: u16)
    requires
        k < 16,
        s < 4,
        v < 1024,
    ensures
        ({
            let w = (k | (s << 4u16) | (v << 6u16)) as u16;
            &&& kind_field(w) == k
            &&& source_field(w) == s
            &&& value_field(w) == v
        }),
{
    assert({
        let w = (k | (s << 4u16) | (v << 6u16)) as u16;
        &&& w & 0x000f == k
        &&& (w & 0x0030) >> 4u16 == s
        &&& (w & 0xffc0) >> 6u16 == v
    }) by (bit_vector)
        requires
            k < 16,
            s < 4,
            v < 1024,
    ;
}

proof fn lemma_field_bounds(w: u16)
    ensures
        kind_field(w) < 16,
        source_field(w) < 4,
        destination_field(w) < 4,
        ath_field(w) < 16,
        mode_field(w) < 2,
        shift_field(w) < 8,
        value_field(w) < 1024,
{
    assert(w & 0x000f < 16 && (w & 0x0030) >> 4u16 < 4 && (w & 0x00c0) >> 6u16 < 4 && (w & 0x0f00)
        >> 8u16 < 16 && (w & 0x1000) >> 12u16 < 2 && (w & 0xe000) >> 13u16 < 8 && (w & 0xffc0)
        >> 6u16 < 1024) by (bit_vector);
}

impl RCPURegister {
    /// The general register with the 2-bit code `number`.
    pub fn from_u16(number: u16) -> (r: RCPURegister)
        requires
            number < 4,
        ensures
            r == register_from_code(number),
            r.is_general(),
            register_code(r) == number,
    {
        match number {
            0 => RCPURegister::A,
            1 => RCPURegister::B,
            2 => RCPURegister::C,
            _ => RCPURegister::D,
        }
    }
}

impl RCPUOperation {
    /// The kind of instruction, from bits 0 to 3.
    pub fn instruction_type(&self) -> (r: RCPUInstructionType)
        ensures
            r == kind_from_code(kind_field(self.opcode)),
    {
        match self.opcode & OPCODE_BITMAP {
            0 => RCPUInstructionType::MOV,
            1 => RCPUInstructionType::LDV,
            2 => RCPUInstructionType::LDA,
            3 => RCPUInstructionType::LDM,
            4 => RCPUInstructionType::LDR,
            5 => RCPUInstructionType::LDP,
            6 => RCPUInstructionType::ATH,
            7 => RCPUInstructionType::CAL,
            8 => RCPUInstructionType::RET,
            9 => RCPUInstructionType::JLT,
            10 => RCPUInstructionType::PSH,
            11 => RCPUInstructionType::POP,
            12 => RCPUInstructionType::SYS,
            13 => RCPUInstructionType::HLT,
            14 => RCPUInstructionType::JMP,
            _ => RCPUInstructionType::JMR,
        }
    }

    /// The source register, from bits 4 and 5. In the immediate form this
    /// field holds the register operand.
    pub fn source_register(&self) -> (r: RCPURegister)
        ensures
            r == register_from_code(source_field(self.opcode)),
            r.is_general(),
    {
        proof {
            lemma_field_bounds(self.opcode);
        }
        RCPURegister::from_u16((self.opcode & SOURCE_BITMAP) >> SOURCE_SHIFT)
    }

    /// The destination register, from bits 6 and 7.
    pub fn destination_register(&self) -> (r: RCPURegister)
        ensures
            r == register_from_code(destination_field(self.opcode)),
            r.is_general(),
    {
        proof {
            lemma_field_bounds(self.opcode);
        }
        RCPURegister::from_u16((self.opcode & DESTINATION_BITMAP) >> DESTINATION_SHIFT)
    }

    /// The 10-bit immediate, from bits 6 to 15.
    pub fn value(&self) -> (r: u16)
        ensures
            r == value_field(self.opcode),
            r < 1024,
    {
        proof {
            lemma_field_bounds(self.opcode);
        }
        (self.opcode & VALUE_BITMAP) >> VALUE_SHIFT
    }

    /// The 4-bit code of the `ATH` operation, from bits 8 to 11.
    pub fn ath_operation_code(&self) -> (r: u16)
        ensures
            r == ath_field(self.opcode),
    {
        (self.opcode & ATH_OPERATION_BITMAP) >> ATH_OPERATION_SHIFT
    }

    /// The `ATH` operation, from bits 8 to 11; `None` for the undefined codes
    /// 12 to 15.
    pub fn ath_operation(&self) -> (r: Option<RCPUAthOperation>)
        ensures
            r == ath_from_code(ath_field(self.opcode)),
    {
        let bin_operation = self.ath_operation_code();
        match bin_operation {
            0 => Some(RCPUAthOperation::Add),
            1 => Some(RCPUAthOperation::Subtract),
            2 => Some(RCPUAthOperation::Multiply),
            3 => Some(RCPUAthOperation::Divide),
            4 => Some(RCPUAthOperation::LeftShift),
            5 => Some(RCPUAthOperation::RightShift),
            6 => Some(RCPUAthOperation::And),
            7 => Some(RCPUAthOperation::Or),
            8 => Some(RCPUAthOperation::Xor),
            9 => Some(RCPUAthOperation::Not),
            10 => Some(RCPUAthOperation::Increment),
            11 => Some(RCPUAthOperation::Decrement),
            _ => None,
        }
    }

    /// Where `ATH` writes its result, from bit 12.
    pub fn ath_mode(&self) -> (r: RCPUAthMode)
        ensures
            r == mode_from_code(mode_field(self.opcode)),
    {
        if (self.opcode & ATH_MODE_BITMAP) >> ATH_MODE_SHIFT == 0 {
            RCPUAthMode::ToDest
        } else {
            RCPUAthMode::ToSource
        }
    }

    /// The 3-bit shift amount, from bits 13 to 15.
    pub fn ath_shift(&self) -> (r: u16)
        ensures
            r == shift_field(self.opcode),
            r < 8,
    {
        proof {
            lemma_field_bounds(self.opcode);
        }
        (self.opcode & ATH_SHIFT_BITMAP) >> ATH_SHIFT_SHIFT
    }

    /// Builds a register-form instruction from its fields.
    pub fn encode(
        kind: RCPUInstructionType,
        src: RCPURegister,
        dst: RCPURegister,
        op: RCPUAthOperation,
        mode: RCPUAthMode,
        shift: u16,
    ) -> (r: RCPUOperation)
        requires
            src.is_general(),
            dst.is_general(),
            shift < 8,
        ensures
            r.opcode == encode_word(kind, src, dst, op, mode, shift),
            kind_from_code(kind_field(r.opcode)) == kind,
            register_from_code(source_field(r.opcode)) == src,
            register_from_code(destination_field(r.opcode)) == dst,
            ath_from_code(ath_field(r.opcode)) == Some(op),
            mode_from_code(mode_field(r.opcode)) == mode,
            shift_field(r.opcode) == shift,
    {
        let k = kind_number(kind);
        let s = register_number(src);
        let d = register_number(dst);
        let o = ath_number(op);
        let m: u16 = match mode {
            RCPUAthMode::ToDest => 0,
            RCPUAthMode::ToSource => 1,
        };
        proof {
            lemma_fields_of_parts(k, s, d, o, m, shift);
        }
        RCPUOperation { opcode: k | (s << 4u16) | (d << 6u16) | (o << 8u16) | (m << 12u16) | (shift << 13u16) }
    }

    /// Builds an immediate-form instruction (`LDV`, `LDA`, `LDM`, `JMP`)
    /// from its kind, register operand and 10-bit immediate.
    pub fn encode_immediate(kind: RCPUInstructionType, reg: RCPURegister, value: u16) -> (r:
        RCPUOperation)
        requires
            reg.is_general(),
            value < 1024,
        ensures
            r.opcode == encode_immediate_word(kind, reg, value),
            kind_from_code(kind_field(r.opcode)) == kind,
            register_from_code(source_field(r.opcode)) == reg,
            value_field(r.opcode) == value,
    {
        let k = kind_number(kind);
        let s = register_number(reg);
        proof {
            lemma_immediate_fields_of_parts(k, s, value);
        }
        RCPUOperation { opcode: k | (s << 4u16) | (value << 6u16) }
    }
}

fn kind_number(kind: RCPUInstructionType) -> (r: u16)
    ensures
        r == kind_code(kind),
        r < 16,
        kind_from_code(r) == kind,
{
    match kind {
        RCPUInstructionType::MOV => 0,
        RCPUInstructionType::LDV => 1,
        RCPUInstructionType::LDA => 2,
        RCPUInstructionType::LDM => 3,
        RCPUInstructionType::LDR => 4,
        RCPUInstructionType::LDP => 5,
        RCPUInstructionType::ATH => 6,
        RCPUInstructionType::CAL => 7,
        RCPUInstructionType::RET => 8,
        RCPUInstructionType::JLT => 9,
        RCPUInstructionType::PSH => 10,
        RCPUInstructionType::POP => 11,
        RCPUInstructionType::SYS => 12,
        RCPUInstructionType::HLT => 13,
        RCPUInstructionType::JMP => 14,
        RCPUInstructionType::JMR => 15,
    }
}

fn register_number(reg: RCPURegister) -> (r: u16)
    requires
        reg.is_general(),
    ensures
        r == register_code(reg),
        r < 4,
        register_from_code(r) == reg,
{
    match reg {
        RCPURegister::A => 0,
        RCPURegister::B => 1,
        RCPURegister::C => 2,
        _ => 3,
    }
}

fn ath_number(op: RCPUAthOperation) -> (r: u16)
    ensures
        r == ath_code(op),
        r < 12,
        ath_from_code(r) == Some(op),
{
    match op {
        RCPUAthOperation::Add => 0,
        RCPUAthOperation::Subtract => 1,
        RCPUAthOperation::Multiply => 2,
        RCPUAthOperation::Divide => 3,
        RCPUAthOperation::LeftShift => 4,
        RCPUAthOperation::RightShift => 5,
        RCPUAthOperation::And => 6,
        RCPUAthOperation::Or => 7,
        RCPUAthOperation::Xor => 8,
        RCPUAthOperation::Not => 9,
        RCPUAthOperation::Increment => 10,
        RCPUAthOperation::Decrement => 11,
    }
}

/// Decoding the fields of any word and encoding them again gives the word
/// back, when its `ATH` operation field names an operation.
pub proof fn lemma_encode_decode(w: u16)
    requires
        ath_from_code(ath_field(w)) is Some,
    ensures
        encode_word(
            kind_from_code(kind_field(w)),
            register_from_code(source_field(w)),
            register_from_code(destination_field(w)),
            ath_from_code(ath_field(w))->0,
            mode_from_code(mode_field(w)),
            shift_field(w),
        ) == w,
{
    lemma_field_bounds(w);
    let k = kind_field(w);
    let s = source_field(w);
    let d = destination_field(w);
    let o = ath_field(w);
    let m = mode_field(w);
    let sh = shift_field(w);
    assert(kind_code(kind_from_code(k)) == k);
    assert(register_code(register_from_code(s)) == s);
    assert(register_code(register_from_code(d)) == d);
    assert(ath_code(ath_from_code(o)->0) == o);
    assert(mode_code(mode_from_code(m)) == m);
    assert(w == (k | (s << 4u16) | (d << 6u16) | (o << 8u16) | (m << 12u16) | (sh << 13u16)) as u16)
        by (bit_vector)
        requires
            k == w & 0x000f,
            s == (w & 0x0030) >> 4u16,
            d == (w & 0x00c0) >> 6u16,
            o == (w & 0x0f00) >> 8u16,
            m == (w & 0x1000) >> 12u16,
            sh == (w & 0xe000) >> 13u16,
    ;
}

/// Decoding the kind, register operand and immediate of any word and encoding
/// them again in immediate form gives the word back.
pub proof fn lemma_encode_decode_immediate(w: u16)
    ensures
        encode_immediate_word(
            kind_from_code(kind_field(w)),
            register_from_code(source_field(w)),
            value_field(w),
        ) == w,
{
    lemma_field_bounds(w);
    let k = kind_field(w);
    let s = source_field(w);
    let v = value_field(w);
    assert(kind_code(kind_from_code(k)) == k);
    assert(register_code(register_from_code(s)) == s);
    assert(w == (k | (s << 4u16) | (v << 6u16)) as u16) by (bit_vector)
        requires
            k == w & 0x000f,
            s == (w & 0x0030) >> 4u16,
            v == (w & 0xffc0) >> 6u16,
    ;
}

} // verus!
