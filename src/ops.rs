//! The instruction set: one variant per instruction, each carrying its operands.
use crate::types::{BlockType, FunctionIndex, FunctionSpaceIndex, GlobalIndex, InnerFunctionSpaceIndex, LocalIndex};
use crate::util::{le_bytes, leb_s, leb_u, write_uint32, write_uint64, write_uint8, write_varint32, write_varint64, write_varuint1, write_varuint32, write_varusize};
use crate::Dump;
use vstd::prelude::*;

verus! {

/// An instruction. Floating-point constants hold the raw IEEE-754 bits of the value.
#[derive(Debug, Clone)]
pub enum Op {
    Unreachable,
    Nop,
    Block { sig: BlockType },
    Loop { sig: BlockType },
    If,
    Else,
    End,
    Br { depth: u32 },
    BrIf { depth: u32 },
    BrTable(BrTarget),
    Return,
    Call { index: FunctionSpaceIndex },
    CallIndirect { index: u32, reserved: bool },
    Drop,
    Select,
    GetLocal(LocalIndex),
    SetLocal(LocalIndex),
    TeeLocal(LocalIndex),
    GetGlobal(GlobalIndex),
    SetGlobal(GlobalIndex),
    I32Load { imm: MemoryImmediate },
    I64Load { imm: MemoryImmediate },
    F32Load { imm: MemoryImmediate },
    F64Load { imm: MemoryImmediate },
    I32Load8S { imm: MemoryImmediate },
    I32Load8U { imm: MemoryImmediate },
    I32Load16S { imm: MemoryImmediate },
    I32Load16U { imm: MemoryImmediate },
    I64Load8S { imm: MemoryImmediate },
    I64Load8U { imm: MemoryImmediate },
    I64Load16S { imm: MemoryImmediate },
    I64Load16U { imm: MemoryImmediate },
    I64load32S { imm: MemoryImmediate },
    I64load32U { imm: MemoryImmediate },
    I32Store { imm: MemoryImmediate },
    I64Store { imm: MemoryImmediate },
    F32Store { imm: MemoryImmediate },
    F64Store { imm: MemoryImmediate },
    I32Store8 { imm: MemoryImmediate },
    I32Store16 { imm: MemoryImmediate },
    I64Store8 { imm: MemoryImmediate },
    I64Store16 { imm: MemoryImmediate },
    I64Store32 { imm: MemoryImmediate },
    CurrentMemory { reserved: bool },
    GrowMemory { reserved: bool },
    I32Const(i32),
    I64Const(i64),
    /// The bit pattern of a 32-bit float.
    F32Const(u32),
    /// The bit pattern of a 64-bit float.
    F64Const(u64),
    I32Eqz,
    I32Eq,
    I32NE,
    I32LtS,
    I32LtU,
    I32GtS,
    I32GtU,
    I32LeS,
    I32LeU,
    I32GeS,
    I32GeU,
    I64Eqz,
    I64Eq,
    I64Ne,
    I64LtS,
    I64LtU,
    I64GtS,
    I64GtU,
    I64LeS,
    I64LeU,
    I64GeS,
    I64GeU,
    F32Eq,
    F32Ne,
    F32Lt,
    F32Gt,
    F32Le,
    F32Ge,
    F64Eq,
    F64Ne,
    F64Lt,
    F64Gt,
    F64Le,
    F64Ge,
    I32Clz,
    I32Ctz,
    I32Popcnt,
    I32Add,
    I32Sub,
    I32Mul,
    I32DivS,
    I32DivU,
    I32RemS,
    I32RemU,
    I32And,
    I32Or,
    I32Xor,
    I32Shl,
    I32ShrS,
    I32ShrU,
    I32Rotl,
    I32Rotr,
    I64Clz,
    I64Ctz,
    I64Popcnt,
    I64Add,
    I64Sub,
    I64Mul,
    I64DivS,
    I64DivU,
    I64RemS,
    I64RemU,
    I64And,
    I64Or,
    I64Xor,
    I64Shl,
    I64ShrS,
    I64ShrU,
    I64Rotl,
    I64Rotr,
    F32Abs,
    F32Neg,
    F32Ceil,
    F32Floor,
    F32Trunc,
    F32Nearest,
    F32Sqrt,
    F32Add,
    F32Sub,
    F32Mul,
    F32Div,
    F32Min,
    F32Max,
    F32Copysign,
    F64Abs,
    F64Neg,
    F64Ceil,
    F64Floor,
    F64Trunc,
    F64Nearest,
    F64Sqrt,
    F64Add,
    F64Sub,
    F64Mul,
    F64Div,
    F64Min,
    F64Max,
    F64Copysign,
    I32wrapI64,
    I32TruncSF32,
    I32TruncUF32,
    I32TruncSF64,
    I32TruncUF64,
    I64ExtendSI32,
    I64ExtendUI32,
    I64TruncSF32,
    I64TruncUF32,
    I64TruncSF64,
    I64TruncUF64,
    F32ConvertSI32,
    F32ConvertUI32,
    F32ConvertSI64,
    F32ConvertUI64,
    F32DemoteF64,
    F64ConvertSI32,
    F64ConvertUI32,
    F64ConvertSI64,
    F64ConvertUI64,
    F64PromoteF32,
    I32ReinterpretF32,
    I64ReinterpretF64,
    F32ReinterpretI32,
    F64ReinterpretI64,
}

impl Op {
    /// The opcode byte that starts the encoding of this instruction.
    pub open spec fn opcode_spec(&self) -> u8 {
        match self {
            Op::Unreachable => 0x00,
            Op::Nop => 0x01,
            Op::Block { .. } => 0x02,
            Op::Loop { .. } => 0x03,
            Op::If => 0x04,
            Op::Else => 0x05,
            Op::End => 0x0b,
            Op::Br { .. } => 0x0c,
            Op::BrIf { .. } => 0x0d,
            Op::BrTable(..) => 0x0e,
            Op::Return => 0x0f,
            Op::Call { .. } => 0x10,
            Op::CallIndirect { .. } => 0x11,
            Op::Drop => 0x1a,
            Op::Select => 0x1b,
            Op::GetLocal(..) => 0x20,
            Op::SetLocal(..) => 0x21,
            Op::TeeLocal(..) => 0x22,
            Op::GetGlobal(..) => 0x23,
            Op::SetGlobal(..) => 0x24,
            Op::I32Load { .. } => 0x28,
            Op::I64Load { .. } => 0x29,
            Op::F32Load { .. } => 0x2a,
            Op::F64Load { .. } => 0x2b,
            Op::I32Load8S { .. } => 0x2c,
            Op::I32Load8U { .. } => 0x2d,
            Op::I32Load16S { .. } => 0x2e,
            Op::I32Load16U { .. } => 0x2f,
            Op::I64Load8S { .. } => 0x30,
            Op::I64Load8U { .. } => 0x31,
            Op::I64Load16S { .. } => 0x32,
            Op::I64Load16U { .. } => 0x33,
            Op::I64load32S { .. } => 0x34,
            Op::I64load32U { .. } => 0x35,
            Op::I32Store { .. } => 0x36,
            Op::I64Store { .. } => 0x37,
            Op::F32Store { .. } => 0x38,
            Op::F64Store { .. } => 0x39,
            Op::I32Store8 { .. } => 0x3a,
            Op::I32Store16 { .. } => 0x3b,
            Op::I64Store8 { .. } => 0x3c,
            Op::I64Store16 { .. } => 0x3d,
            Op::I64Store32 { .. } => 0x3e,
            Op::CurrentMemory { .. } => 0x3f,
            Op::GrowMemory { .. } => 0x40,
            Op::I32Const(..) => 0x41,
            Op::I64Const(..) => 0x42,
            Op::F32Const(..) => 0x43,
            Op::F64Const(..) => 0x44,
            Op::I32Eqz => 0x45,
            Op::I32Eq => 0x46,
            Op::I32NE => 0x47,
            Op::I32LtS => 0x48,
            Op::I32LtU => 0x49,
            Op::I32GtS => 0x4a,
            Op::I32GtU => 0x4b,
            Op::I32LeS => 0x4c,
            Op::I32LeU => 0x4d,
            Op::I32GeS => 0x4e,
            Op::I32GeU => 0x4f,
            Op::I64Eqz => 0x50,
            Op::I64Eq => 0x51,
            Op::I64Ne => 0x52,
            Op::I64LtS => 0x53,
            Op::I64LtU => 0x54,
            Op::I64GtS => 0x55,
            Op::I64GtU => 0x56,
            Op::I64LeS => 0x57,
            Op::I64LeU => 0x58,
            Op::I64GeS => 0x59,
            Op::I64GeU => 0x5a,
            Op::F32Eq => 0x5b,
            Op::F32Ne => 0x5c,
            Op::F32Lt => 0x5d,
            Op::F32Gt => 0x5e,
            Op::F32Le => 0x5f,
            Op::F32Ge => 0x60,
            Op::F64Eq => 0x61,
            Op::F64Ne => 0x62,
            Op::F64Lt => 0x63,
            Op::F64Gt => 0x64,
            Op::F64Le => 0x65,
            Op::F64Ge => 0x66,
            Op::I32Clz => 0x67,
            Op::I32Ctz => 0x68,
            Op::I32Popcnt => 0x69,
            Op::I32Add => 0x6a,
            Op::I32Sub => 0x6b,
            Op::I32Mul => 0x6c,
            Op::I32DivS => 0x6d,
            Op::I32DivU => 0x6e,
            Op::I32RemS => 0x6f,
            Op::I32RemU => 0x70,
            Op::I32And => 0x71,
            Op::I32Or => 0x72,
            Op::I32Xor => 0x73,
            Op::I32Shl => 0x74,
            Op::I32ShrS => 0x75,
            Op::I32ShrU => 0x76,
            Op::I32Rotl => 0x77,
            Op::I32Rotr => 0x78,
            Op::I64Clz => 0x79,
            Op::I64Ctz => 0x7a,
            Op::I64Popcnt => 0x7b,
            Op::I64Add => 0x7c,
            Op::I64Sub => 0x7d,
            Op::I64Mul => 0x7e,
            Op::I64DivS => 0x7f,
            Op::I64DivU => 0x80,
            Op::I64RemS => 0x81,
            Op::I64RemU => 0x82,
            Op::I64And => 0x83,
            Op::I64Or => 0x84,
            Op::I64Xor => 0x85,
            Op::I64Shl => 0x86,
            Op::I64ShrS => 0x87,
            Op::I64ShrU => 0x88,
            Op::I64Rotl => 0x89,
            Op::I64Rotr => 0x8a,
            Op::F32Abs => 0x8b,
            Op::F32Neg => 0x8c,
            Op::F32Ceil => 0x8d,
            Op::F32Floor => 0x8e,
            Op::F32Trunc => 0x8f,
            Op::F32Nearest => 0x90,
            Op::F32Sqrt => 0x91,
            Op::F32Add => 0x92,
            Op::F32Sub => 0x93,
            Op::F32Mul => 0x94,
            Op::F32Div => 0x95,
            Op::F32Min => 0x96,
            Op::F32Max => 0x97,
            Op::F32Copysign => 0x98,
            Op::F64Abs => 0x99,
            Op::F64Neg => 0x9a,
            Op::F64Ceil => 0x9b,
            Op::F64Floor => 0x9c,
            Op::F64Trunc => 0x9d,
            Op::F64Nearest => 0x9e,
            Op::F64Sqrt => 0x9f,
            Op::F64Add => 0xa0,
            Op::F64Sub => 0xa1,
            Op::F64Mul => 0xa2,
            Op::F64Div => 0xa3,
            Op::F64Min => 0xa4,
            Op::F64Max => 0xa5,
            Op::F64Copysign => 0xa6,
            Op::I32wrapI64 => 0xa7,
            Op::I32TruncSF32 => 0xa8,
            Op::I32TruncUF32 => 0xa9,
            Op::I32TruncSF64 => 0xaa,
            Op::I32TruncUF64 => 0xab,
            Op::I64ExtendSI32 => 0xac,
            Op::I64ExtendUI32 => 0xad,
            Op::I64TruncSF32 => 0xae,
            Op::I64TruncUF32 => 0xaf,
            Op::I64TruncSF64 => 0xb0,
            Op::I64TruncUF64 => 0xb1,
            Op::F32ConvertSI32 => 0xb2,
            Op::F32ConvertUI32 => 0xb3,
            Op::F32ConvertSI64 => 0xb4,
            Op::F32ConvertUI64 => 0xb5,
            Op::F32DemoteF64 => 0xb6,
            Op::F64ConvertSI32 => 0xb7,
            Op::F64ConvertUI32 => 0xb8,
            Op::F64ConvertSI64 => 0xb9,
            Op::F64ConvertUI64 => 0xba,
            Op::F64PromoteF32 => 0xbb,
            Op::I32ReinterpretF32 => 0xbc,
            Op::I64ReinterpretF64 => 0xbd,
            Op::F32ReinterpretI32 => 0xbe,
            Op::F64ReinterpretI64 => 0xbf,
        }
    }

    /// The operand bytes that follow the opcode.
    pub open spec fn operands(&self) -> Seq<u8> {
        match self {
            Op::Block { sig } => sig.encoding(),
            Op::Loop { sig } => sig.encoding(),
            Op::Br { depth } => leb_u(*depth as nat),
            Op::BrIf { depth } => leb_u(*depth as nat),
            Op::BrTable(t) => t.encoding(),
            Op::Call { index } => leb_u(index.ord() as nat),
            Op::CallIndirect { index, reserved } => leb_u(*index as nat) + seq![
                if *reserved { 1u8 } else { 0u8 }],
            Op::GetLocal(i) => leb_u(i.ord() as nat),
            Op::SetLocal(i) => leb_u(i.ord() as nat),
            Op::TeeLocal(i) => leb_u(i.ord() as nat),
            Op::GetGlobal(i) => leb_u(i.ord() as nat),
            Op::SetGlobal(i) => leb_u(i.ord() as nat),
            Op::I32Load { imm } => imm.encoding(),
            Op::I64Load { imm } => imm.encoding(),
            Op::F32Load { imm } => imm.encoding(),
            Op::F64Load { imm } => imm.encoding(),
            Op::I32Load8S { imm } => imm.encoding(),
            Op::I32Load8U { imm } => imm.encoding(),
            Op::I32Load16S { imm } => imm.encoding(),
            Op::I32Load16U { imm } => imm.encoding(),
            Op::I64Load8S { imm } => imm.encoding(),
            Op::I64Load8U { imm } => imm.encoding(),
            Op::I64Load16S { imm } => imm.encoding(),
            Op::I64Load16U { imm } => imm.encoding(),
            Op::I64load32S { imm } => imm.encoding(),
            Op::I64load32U { imm } => imm.encoding(),
            Op::I32Store { imm } => imm.encoding(),
            Op::I64Store { imm } => imm.encoding(),
            Op::F32Store { imm } => imm.encoding(),
            Op::F64Store { imm } => imm.encoding(),
            Op::I32Store8 { imm } => imm.encoding(),
            Op::I32Store16 { imm } => imm.encoding(),
            Op::I64Store8 { imm } => imm.encoding(),
            Op::I64Store16 { imm } => imm.encoding(),
            Op::I64Store32 { imm } => imm.encoding(),
            Op::CurrentMemory { reserved } => seq![if *reserved { 1u8 } else { 0u8 }],
            Op::GrowMemory { reserved } => seq![if *reserved { 1u8 } else { 0u8 }],
            Op::I32Const(v) => leb_s(*v as int),
            Op::I64Const(v) => leb_s(*v as int),
            Op::F32Const(bits) => le_bytes(*bits as nat, 4),
            Op::F64Const(bits) => le_bytes(*bits as nat, 8),
            _ => seq![],
        }
    }

    /// The opcode byte that starts the encoding of this instruction.
    pub fn opcode(&self) -> (r: u8)
        ensures
            r == self.opcode_spec(),
    {
        match self {
            Op::Unreachable => 0x00,
            Op::Nop => 0x01,
            Op::Block { .. } => 0x02,
            Op::Loop { .. } => 0x03,
            Op::If => 0x04,
            Op::Else => 0x05,
            Op::End => 0x0b,
            Op::Br { .. } => 0x0c,
            Op::BrIf { .. } => 0x0d,
            Op::BrTable(..) => 0x0e,
            Op::Return => 0x0f,
            Op::Call { .. } => 0x10,
            Op::CallIndirect { .. } => 0x11,
            Op::Drop => 0x1a,
            Op::Select => 0x1b,
            Op::GetLocal(..) => 0x20,
            Op::SetLocal(..) => 0x21,
            Op::TeeLocal(..) => 0x22,
            Op::GetGlobal(..) => 0x23,
            Op::SetGlobal(..) => 0x24,
            Op::I32Load { .. } => 0x28,
            Op::I64Load { .. } => 0x29,
            Op::F32Load { .. } => 0x2a,
            Op::F64Load { .. } => 0x2b,
            Op::I32Load8S { .. } => 0x2c,
            Op::I32Load8U { .. } => 0x2d,
            Op::I32Load16S { .. } => 0x2e,
            Op::I32Load16U { .. } => 0x2f,
            Op::I64Load8S { .. } => 0x30,
            Op::I64Load8U { .. } => 0x31,
            Op::I64Load16S { .. } => 0x32,
            Op::I64Load16U { .. } => 0x33,
            Op::I64load32S { .. } => 0x34,
            Op::I64load32U { .. } => 0x35,
            Op::I32Store { .. } => 0x36,
            Op::I64Store { .. } => 0x37,
            Op::F32Store { .. } => 0x38,
            Op::F64Store { .. } => 0x39,
            Op::I32Store8 { .. } => 0x3a,
            Op::I32Store16 { .. } => 0x3b,
            Op::I64Store8 { .. } => 0x3c,
            Op::I64Store16 { .. } => 0x3d,
            Op::I64Store32 { .. } => 0x3e,
            Op::CurrentMemory { .. } => 0x3f,
            Op::GrowMemory { .. } => 0x40,
            Op::I32Const(..) => 0x41,
            Op::I64Const(..) => 0x42,
            Op::F32Const(..) => 0x43,
            Op::F64Const(..) => 0x44,
            Op::I32Eqz => 0x45,
            Op::I32Eq => 0x46,
            Op::I32NE => 0x47,
            Op::I32LtS => 0x48,
            Op::I32LtU => 0x49,
            Op::I32GtS => 0x4a,
            Op::I32GtU => 0x4b,
            Op::I32LeS => 0x4c,
            Op::I32LeU => 0x4d,
            Op::I32GeS => 0x4e,
            Op::I32GeU => 0x4f,
            Op::I64Eqz => 0x50,
            Op::I64Eq => 0x51,
            Op::I64Ne => 0x52,
            Op::I64LtS => 0x53,
            Op::I64LtU => 0x54,
            Op::I64GtS => 0x55,
            Op::I64GtU => 0x56,
            Op::I64LeS => 0x57,
            Op::I64LeU => 0x58,
            Op::I64GeS => 0x59,
            Op::I64GeU => 0x5a,
            Op::F32Eq => 0x5b,
            Op::F32Ne => 0x5c,
            Op::F32Lt => 0x5d,
            Op::F32Gt => 0x5e,
            Op::F32Le => 0x5f,
            Op::F32Ge => 0x60,
            Op::F64Eq => 0x61,
            Op::F64Ne => 0x62,
            Op::F64Lt => 0x63,
            Op::F64Gt => 0x64,
            Op::F64Le => 0x65,
            Op::F64Ge => 0x66,
            Op::I32Clz => 0x67,
            Op::I32Ctz => 0x68,
            Op::I32Popcnt => 0x69,
            Op::I32Add => 0x6a,
            Op::I32Sub => 0x6b,
            Op::I32Mul => 0x6c,
            Op::I32DivS => 0x6d,
            Op::I32DivU => 0x6e,
            Op::I32RemS => 0x6f,
            Op::I32RemU => 0x70,
            Op::I32And => 0x71,
            Op::I32Or => 0x72,
            Op::I32Xor => 0x73,
            Op::I32Shl => 0x74,
            Op::I32ShrS => 0x75,
            Op::I32ShrU => 0x76,
            Op::I32Rotl => 0x77,
            Op::I32Rotr => 0x78,
            Op::I64Clz => 0x79,
            Op::I64Ctz => 0x7a,
            Op::I64Popcnt => 0x7b,
            Op::I64Add => 0x7c,
            Op::I64Sub => 0x7d,
            Op::I64Mul => 0x7e,
            Op::I64DivS => 0x7f,
            Op::I64DivU => 0x80,
            Op::I64RemS => 0x81,
            Op::I64RemU => 0x82,
            Op::I64And => 0x83,
            Op::I64Or => 0x84,
            Op::I64Xor => 0x85,
            Op::I64Shl => 0x86,
            Op::I64ShrS => 0x87,
            Op::I64ShrU => 0x88,
            Op::I64Rotl => 0x89,
            Op::I64Rotr => 0x8a,
            Op::F32Abs => 0x8b,
            Op::F32Neg => 0x8c,
            Op::F32Ceil => 0x8d,
            Op::F32Floor => 0x8e,
            Op::F32Trunc => 0x8f,
            Op::F32Nearest => 0x90,
            Op::F32Sqrt => 0x91,
            Op::F32Add => 0x92,
            Op::F32Sub => 0x93,
            Op::F32Mul => 0x94,
            Op::F32Div => 0x95,
            Op::F32Min => 0x96,
            Op::F32Max => 0x97,
            Op::F32Copysign => 0x98,
            Op::F64Abs => 0x99,
            Op::F64Neg => 0x9a,
            Op::F64Ceil => 0x9b,
            Op::F64Floor => 0x9c,
            Op::F64Trunc => 0x9d,
            Op::F64Nearest => 0x9e,
            Op::F64Sqrt => 0x9f,
            Op::F64Add => 0xa0,
            Op::F64Sub => 0xa1,
            Op::F64Mul => 0xa2,
            Op::F64Div => 0xa3,
            Op::F64Min => 0xa4,
            Op::F64Max => 0xa5,
            Op::F64Copysign => 0xa6,
            Op::I32wrapI64 => 0xa7,
            Op::I32TruncSF32 => 0xa8,
            Op::I32TruncUF32 => 0xa9,
            Op::I32TruncSF64 => 0xaa,
            Op::I32TruncUF64 => 0xab,
            Op::I64ExtendSI32 => 0xac,
            Op::I64ExtendUI32 => 0xad,
            Op::I64TruncSF32 => 0xae,
            Op::I64TruncUF32 => 0xaf,
            Op::I64TruncSF64 => 0xb0,
            Op::I64TruncUF64 => 0xb1,
            Op::F32ConvertSI32 => 0xb2,
            Op::F32ConvertUI32 => 0xb3,
            Op::F32ConvertSI64 => 0xb4,
            Op::F32ConvertUI64 => 0xb5,
            Op::F32DemoteF64 => 0xb6,
            Op::F64ConvertSI32 => 0xb7,
            Op::F64ConvertUI32 => 0xb8,
            Op::F64ConvertSI64 => 0xb9,
            Op::F64ConvertUI64 => 0xba,
            Op::F64PromoteF32 => 0xbb,
            Op::I32ReinterpretF32 => 0xbc,
            Op::I64ReinterpretF64 => 0xbd,
            Op::F32ReinterpretI32 => 0xbe,
            Op::F64ReinterpretI64 => 0xbf,
        }
    }

    /// Whether the resolution pass can shift this instruction's call target by `nimports`
    /// without leaving the 32-bit range.
    pub open spec fn resolvable(&self, nimports: u32) -> bool {
        match self {
            Op::Call { index: FunctionSpaceIndex(InnerFunctionSpaceIndex::Function(f)) } => f.0
                + nimports <= u32::MAX,
            _ => true,
        }
    }

    /// The instruction after resolution: a call of a locally defined function is moved
    /// past the `nimports` imported functions; everything else is unchanged.
    pub open spec fn resolved(&self, nimports: u32) -> Op {
        match self {
            Op::Call { index: FunctionSpaceIndex(InnerFunctionSpaceIndex::Function(f)) } => Op::Call {
                index: FunctionSpaceIndex(
                    InnerFunctionSpaceIndex::Function(FunctionIndex((f.0 + nimports) as u32)),
                ),
            },
            _ => *self,
        }
    }

    /// Turns a call of a locally defined function into a function-space reference by
    /// adding the number of imported functions. Other instructions are left unchanged.
    pub fn resolve_functions(&mut self, nimports: u32)
        requires
            old(self).resolvable(nimports),
        ensures
            *final(self) == old(self).resolved(nimports),
    {
        let target: Option<u32> = match &*self {
            Op::Call { index: FunctionSpaceIndex(InnerFunctionSpaceIndex::Function(f)) } => Some(
                f.0 + nimports,
            ),
            _ => None,
        };
        if let Some(t) = target {
            *self = Op::Call {
                index: FunctionSpaceIndex(InnerFunctionSpaceIndex::Function(FunctionIndex(t))),
            };
        }
    }
}

/// Resolving a call of local function `f` past `nimports` imported functions changes its
/// encoded operand from `f` to `f + nimports`.
pub proof fn lemma_resolved_call_operand(f: u32, nimports: u32)
    requires
        f + nimports <= u32::MAX,
    ensures
        ({
            let call = Op::Call {
                index: FunctionSpaceIndex(InnerFunctionSpaceIndex::Function(FunctionIndex(f))),
            };
            &&& call.resolvable(nimports)
            &&& call.encoding() == seq![0x10u8] + leb_u(f as nat)
            &&& call.resolved(nimports).encoding() == seq![0x10u8] + leb_u((f + nimports) as nat)
        }),
{
}

impl Dump for Op {
    open spec fn encoding(&self) -> Seq<u8> {
        seq![self.opcode_spec()] + self.operands()
    }

    open spec fn dumpable(&self) -> bool {
        true
    }

    fn dump(&self, buf: &mut Vec<u8>) -> (r: usize) {
        let start = buf.len();
        write_uint8(buf, self.opcode());
        match self {
            Op::Block { sig } => {
                sig.dump(buf);
            },
            Op::Loop { sig } => {
                sig.dump(buf);
            },
            Op::Br { depth } => {
                write_varuint32(buf, *depth);
            },
            Op::BrIf { depth } => {
                write_varuint32(buf, *depth);
            },
            Op::BrTable(t) => {
                t.dump(buf);
            },
            Op::Call { index } => {
                write_varuint32(buf, **index);
            },
            Op::CallIndirect { index, reserved } => {
                write_varuint32(buf, *index);
                write_varuint1(buf, if *reserved { 1 } else { 0 });
            },
            Op::GetLocal(i) => {
                write_varuint32(buf, **i);
            },
            Op::SetLocal(i) => {
                write_varuint32(buf, **i);
            },
            Op::TeeLocal(i) => {
                write_varuint32(buf, **i);
            },
            Op::GetGlobal(i) => {
                write_varuint32(buf, **i);
            },
            Op::SetGlobal(i) => {
                write_varuint32(buf, **i);
            },
            Op::I32Load { imm } => {
                imm.dump(buf);
            },
            Op::I64Load { imm } => {
                imm.dump(buf);
            },
            Op::F32Load { imm } => {
                imm.dump(buf);
            },
            Op::F64Load { imm } => {
                imm.dump(buf);
            },
            Op::I32Load8S { imm } => {
                imm.dump(buf);
            },
            Op::I32Load8U { imm } => {
                imm.dump(buf);
            },
            Op::I32Load16S { imm } => {
                imm.dump(buf);
            },
            Op::I32Load16U { imm } => {
                imm.dump(buf);
            },
            Op::I64Load8S { imm } => {
                imm.dump(buf);
            },
            Op::I64Load8U { imm } => {
                imm.dump(buf);
            },
            Op::I64Load16S { imm } => {
                imm.dump(buf);
            },
            Op::I64Load16U { imm } => {
                imm.dump(buf);
            },
            Op::I64load32S { imm } => {
                imm.dump(buf);
            },
            Op::I64load32U { imm } => {
                imm.dump(buf);
            },
            Op::I32Store { imm } => {
                imm.dump(buf);
            },
            Op::I64Store { imm } => {
                imm.dump(buf);
            },
            Op::F32Store { imm } => {
                imm.dump(buf);
            },
            Op::F64Store { imm } => {
                imm.dump(buf);
            },
            Op::I32Store8 { imm } => {
                imm.dump(buf);
            },
            Op::I32Store16 { imm } => {
                imm.dump(buf);
            },
            Op::I64Store8 { imm } => {
                imm.dump(buf);
            },
            Op::I64Store16 { imm } => {
                imm.dump(buf);
            },
            Op::I64Store32 { imm } => {
                imm.dump(buf);
            },
            Op::CurrentMemory { reserved } => {
                write_varuint1(buf, if *reserved { 1 } else { 0 });
            },
            Op::GrowMemory { reserved } => {
                write_varuint1(buf, if *reserved { 1 } else { 0 });
            },
            Op::I32Const(v) => {
                write_varint32(buf, *v);
            },
            Op::I64Const(v) => {
                write_varint64(buf, *v);
            },
            Op::F32Const(bits) => {
                write_uint32(buf, *bits);
            },
            Op::F64Const(bits) => {
                write_uint64(buf, *bits);
            },
            _ => {},
        }
        assert(buf@ =~= old(buf)@ + self.encoding());
        buf.len() - start
    }
}

impl From<i32> for Op {
    fn from(i: i32) -> (r: Op) {
        Op::I32Const(i)
    }
}

impl vstd::std_specs::convert::FromSpecImpl<i32> for Op {
    open spec fn obeys_from_spec() -> bool {
        true
    }

    open spec fn from_spec(i: i32) -> Op {
        Op::I32Const(i)
    }
}

impl From<i64> for Op {
    fn from(i: i64) -> (r: Op) {
        Op::I64Const(i)
    }
}

impl vstd::std_specs::convert::FromSpecImpl<i64> for Op {
    open spec fn obeys_from_spec() -> bool {
        true
    }

    open spec fn from_spec(i: i64) -> Op {
        Op::I64Const(i)
    }
}

/// The alignment (as a power of two) and offset of a memory access.
#[derive(Debug, Clone)]
pub struct MemoryImmediate {
    pub flags: u32,
    pub offset: u32,
}

impl Dump for MemoryImmediate {
    open spec fn encoding(&self) -> Seq<u8> {
        leb_u(self.flags as nat) + leb_u(self.offset as nat)
    }

    open spec fn dumpable(&self) -> bool {
        true
    }

    fn dump(&self, buf: &mut Vec<u8>) -> (r: usize) {
        let start = buf.len();
        write_varuint32(buf, self.flags);
        write_varuint32(buf, self.offset);
        assert(buf@ =~= old(buf)@ + self.encoding());
        buf.len() - start
    }
}

/// The unsigned LEB128 encodings of `xs`, one after another.
pub open spec fn encode_u32s(xs: Seq<u32>) -> Seq<u8>
    decreases xs.len(),
{
    if xs.len() == 0 {
        seq![]
    } else {
        encode_u32s(xs.drop_last()) + leb_u(xs.last() as nat)
    }
}

/// The branch depths of a branch table and the depth taken when none applies.
#[derive(Debug, Clone)]
pub struct BrTarget {
    pub table: Vec<u32>,
    pub default_target: u32,
}

impl Dump for BrTarget {
    open spec fn encoding(&self) -> Seq<u8> {
        leb_u(self.table@.len()) + encode_u32s(self.table@) + leb_u(self.default_target as nat)
    }

    open spec fn dumpable(&self) -> bool {
        true
    }

    fn dump(&self, buf: &mut Vec<u8>) -> (r: usize) {
        let start = buf.len();
        write_varusize(buf, self.table.len());
        let ghost mid = buf@;
        let mut i: usize = 0;
        while i < self.table.len()
            invariant
                i <= self.table@.len(),
                buf@ == mid + encode_u32s(self.table@.take(i as int)),
            decreases self.table@.len() - i,
        {
            write_varuint32(buf, self.table[i]);
            assert(self.table@.take(i + 1).drop_last() =~= self.table@.take(i as int));
            assert(buf@ =~= mid + encode_u32s(self.table@.take(i + 1)));
            i = i + 1;
        }
        assert(self.table@.take(i as int) =~= self.table@);
        write_varuint32(buf, self.default_target);
        assert(buf@ =~= old(buf)@ + self.encoding());
        buf.len() - start
    }
}

} // verus!
