//! The decoded instruction set: a closed sum type with one variant per
//! opcode the core implements.
//!
//! Decoding a raw 32-bit word into this type is an external collaborator's
//! job (the host supplies the decoder); this core defines the semantics of
//! the decoded variants. Register fields (`rs`, `rt`, `rd`) and shift
//! amounts (`sa`) are 5-bit indices; an instruction is well formed when all
//! of them are below 32, which any correct decoder guarantees.

use vstd::prelude::*;

verus! {

/// A decoded instruction.
///
/// The four coprocessor-TLB opcodes (`Tlbp`, `Tlbr`, `Tlbwi`, `Tlbwr`) are
/// carried so the cycle driver can reject them with a reserved-instruction
/// exception; they never execute.
#[derive(Debug, Clone, Copy, PartialEq, Eq, Structural)]
pub enum Instruction {
    Add { rs: u8, rt: u8, rd: u8 },
    Addi { rs: u8, rt: u8, immediate: u16 },
    Addiu { rs: u8, rt: u8, immediate: u16 },
    Addu { rs: u8, rt: u8, rd: u8 },
    And { rs: u8, rt: u8, rd: u8 },
    Andi { rs: u8, rt: u8, immediate: u16 },
    Beq { rs: u8, rt: u8, offset: u16 },
    Bgez { rs: u8, offset: u16 },
    Bgezal { rs: u8, offset: u16 },
    Bgtz { rs: u8, offset: u16 },
    Blez { rs: u8, offset: u16 },
    Bltz { rs: u8, offset: u16 },
    Bltzal { rs: u8, offset: u16 },
    Bne { rs: u8, rt: u8, offset: u16 },
    Break,
    Div { rs: u8, rt: u8 },
    Divu { rs: u8, rt: u8 },
    J { target: u32 },
    Jal { target: u32 },
    Jalr { rs: u8, rd: u8 },
    Jr { rs: u8 },
    Lb { base: u8, rt: u8, offset: u16 },
    Lbu { base: u8, rt: u8, offset: u16 },
    Lh { base: u8, rt: u8, offset: u16 },
    Lhu { base: u8, rt: u8, offset: u16 },
    Lui { rt: u8, immediate: u16 },
    Lw { base: u8, rt: u8, offset: u16 },
    Lwl { base: u8, rt: u8, offset: u16 },
    Lwr { base: u8, rt: u8, offset: u16 },
    Mfhi { rd: u8 },
    Mflo { rd: u8 },
    Mthi { rs: u8 },
    Mtlo { rs: u8 },
    Mult { rs: u8, rt: u8 },
    Multu { rs: u8, rt: u8 },
    Nor { rs: u8, rt: u8, rd: u8 },
    Or { rs: u8, rt: u8, rd: u8 },
    Ori { rs: u8, rt: u8, immediate: u16 },
    Sb { base: u8, rt: u8, offset: u16 },
    Sh { base: u8, rt: u8, offset: u16 },
    Sll { rt: u8, rd: u8, sa: u8 },
    Sllv { rs: u8, rt: u8, rd: u8 },
    Slt { rs: u8, rt: u8, rd: u8 },
    Slti { rs: u8, rt: u8, immediate: u16 },
    Sltiu { rs: u8, rt: u8, immediate: u16 },
    Sltu { rs: u8, rt: u8, rd: u8 },
    Sra { rt: u8, rd: u8, sa: u8 },
    Srav { rs: u8, rt: u8, rd: u8 },
    Srl { rt: u8, rd: u8, sa: u8 },
    Srlv { rs: u8, rt: u8, rd: u8 },
    Sub { rs: u8, rt: u8, rd: u8 },
    Subu { rs: u8, rt: u8, rd: u8 },
    Sw { base: u8, rt: u8, offset: u16 },
    Swl { base: u8, rt: u8, offset: u16 },
    Swr { base: u8, rt: u8, offset: u16 },
    Syscall,
    Tlbp,
    Tlbr,
    Tlbwi,
    Tlbwr,
    Xor { rs: u8, rt: u8, rd: u8 },
    Xori { rs: u8, rt: u8, immediate: u16 },
}

impl Instruction {
    /// Every register index and shift amount the instruction names is a
    /// valid 5-bit field.
    pub open spec fn wf(self) -> bool {
        match self {
            Instruction::Add { rs, rt, rd } => rs < 32 && rt < 32 && rd < 32,
            Instruction::Addi { rs, rt, .. } => rs < 32 && rt < 32,
            Instruction::Addiu { rs, rt, .. } => rs < 32 && rt < 32,
            Instruction::Addu { rs, rt, rd } => rs < 32 && rt < 32 && rd < 32,
            Instruction::And { rs, rt, rd } => rs < 32 && rt < 32 && rd < 32,
            Instruction::Andi { rs, rt, .. } => rs < 32 && rt < 32,
            Instruction::Beq { rs, rt, .. } => rs < 32 && rt < 32,
            Instruction::Bgez { rs, .. } => rs < 32,
            Instruction::Bgezal { rs, .. } => rs < 32,
            Instruction::Bgtz { rs, .. } => rs < 32,
            Instruction::Blez { rs, .. } => rs < 32,
            Instruction::Bltz { rs, .. } => rs < 32,
            Instruction::Bltzal { rs, .. } => rs < 32,
            Instruction::Bne { rs, rt, .. } => rs < 32 && rt < 32,
            Instruction::Break => true,
            Instruction::Div { rs, rt } => rs < 32 && rt < 32,
            Instruction::Divu { rs, rt } => rs < 32 && rt < 32,
            Instruction::J { .. } => true,
            Instruction::Jal { .. } => true,
            Instruction::Jalr { rs, rd } => rs < 32 && rd < 32,
            Instruction::Jr { rs } => rs < 32,
            Instruction::Lb { base, rt, .. } => base < 32 && rt < 32,
            Instruction::Lbu { base, rt, .. } => base < 32 && rt < 32,
            Instruction::Lh { base, rt, .. } => base < 32 && rt < 32,
            Instruction::Lhu { base, rt, .. } => base < 32 && rt < 32,
            Instruction::Lui { rt, .. } => rt < 32,
            Instruction::Lw { base, rt, .. } => base < 32 && rt < 32,
            Instruction::Lwl { base, rt, .. } => base < 32 && rt < 32,
            Instruction::Lwr { base, rt, .. } => base < 32 && rt < 32,
            Instruction::Mfhi { rd } => rd < 32,
            Instruction::Mflo { rd } => rd < 32,
            Instruction::Mthi { rs } => rs < 32,
            Instruction::Mtlo { rs } => rs < 32,
            Instruction::Mult { rs, rt } => rs < 32 && rt < 32,
            Instruction::Multu { rs, rt } => rs < 32 && rt < 32,
            Instruction::Nor { rs, rt, rd } => rs < 32 && rt < 32 && rd < 32,
            Instruction::Or { rs, rt, rd } => rs < 32 && rt < 32 && rd < 32,
            Instruction::Ori { rs, rt, .. } => rs < 32 && rt < 32,
            Instruction::Sb { base, rt, .. } => base < 32 && rt < 32,
            Instruction::Sh { base, rt, .. } => base < 32 && rt < 32,
            Instruction::Sll { rt, rd, sa } => rt < 32 && rd < 32 && sa < 32,
            Instruction::Sllv { rs, rt, rd } => rs < 32 && rt < 32 && rd < 32,
            Instruction::Slt { rs, rt, rd } => rs < 32 && rt < 32 && rd < 32,
            Instruction::Slti { rs, rt, .. } => rs < 32 && rt < 32,
            Instruction::Sltiu { rs, rt, .. } => rs < 32 && rt < 32,
            Instruction::Sltu { rs, rt, rd } => rs < 32 && rt < 32 && rd < 32,
            Instruction::Sra { rt, rd, sa } => rt < 32 && rd < 32 && sa < 32,
            Instruction::Srav { rs, rt, rd } => rs < 32 && rt < 32 && rd < 32,
            Instruction::Srl { rt, rd, sa } => rt < 32 && rd < 32 && sa < 32,
            Instruction::Srlv { rs, rt, rd } => rs < 32 && rt < 32 && rd < 32,
            Instruction::Sub { rs, rt, rd } => rs < 32 && rt < 32 && rd < 32,
            Instruction::Subu { rs, rt, rd } => rs < 32 && rt < 32 && rd < 32,
            Instruction::Sw { base, rt, .. } => base < 32 && rt < 32,
            Instruction::Swl { base, rt, .. } => base < 32 && rt < 32,
            Instruction::Swr { base, rt, .. } => base < 32 && rt < 32,
            Instruction::Syscall => true,
            Instruction::Tlbp => true,
            Instruction::Tlbr => true,
            Instruction::Tlbwi => true,
            Instruction::Tlbwr => true,
            Instruction::Xor { rs, rt, rd } => rs < 32 && rt < 32 && rd < 32,
            Instruction::Xori { rs, rt, .. } => rs < 32 && rt < 32,
        }
    }

    /// Whether the instruction is one of the four unsupported coprocessor-TLB
    /// opcodes, which the cycle driver rejects as reserved.
    pub open spec fn is_tlb_op(self) -> bool {
        match self {
            Instruction::Tlbp | Instruction::Tlbr | Instruction::Tlbwi | Instruction::Tlbwr => true,
            _ => false,
        }
    }

    /// Runtime check of [`Instruction::wf`], for hosts that feed decoded
    /// instructions into the core.
    pub fn valid(&self) -> (r: bool)
        ensures
            r == self.wf(),
    {
        match *self {
            Instruction::Add { rs, rt, rd } => rs < 32 && rt < 32 && rd < 32,
            Instruction::Addi { rs, rt, .. } => rs < 32 && rt < 32,
            Instruction::Addiu { rs, rt, .. } => rs < 32 && rt < 32,
            Instruction::Addu { rs, rt, rd } => rs < 32 && rt < 32 && rd < 32,
            Instruction::And { rs, rt, rd } => rs < 32 && rt < 32 && rd < 32,
            Instruction::Andi { rs, rt, .. } => rs < 32 && rt < 32,
            Instruction::Beq { rs, rt, .. } => rs < 32 && rt < 32,
            Instruction::Bgez { rs, .. } => rs < 32,
            Instruction::Bgezal { rs, .. } => rs < 32,
            Instruction::Bgtz { rs, .. } => rs < 32,
            Instruction::Blez { rs, .. } => rs < 32,
            Instruction::Bltz { rs, .. } => rs < 32,
            Instruction::Bltzal { rs, .. } => rs < 32,
            Instruction::Bne { rs, rt, .. } => rs < 32 && rt < 32,
            Instruction::Break => true,
            Instruction::Div { rs, rt } => rs < 32 && rt < 32,
            Instruction::Divu { rs, rt } => rs < 32 && rt < 32,
            Instruction::J { .. } => true,
            Instruction::Jal { .. } => true,
            Instruction::Jalr { rs, rd } => rs < 32 && rd < 32,
            Instruction::Jr { rs } => rs < 32,
            Instruction::Lb { base, rt, .. } => base < 32 && rt < 32,
            Instruction::Lbu { base, rt, .. } => base < 32 && rt < 32,
            Instruction::Lh { base, rt, .. } => base < 32 && rt < 32,
            Instruction::Lhu { base, rt, .. } => base < 32 && rt < 32,
            Instruction::Lui { rt, .. } => rt < 32,
            Instruction::Lw { base, rt, .. } => base < 32 && rt < 32,
            Instruction::Lwl { base, rt, .. } => base < 32 && rt < 32,
            Instruction::Lwr { base, rt, .. } => base < 32 && rt < 32,
            Instruction::Mfhi { rd } => rd < 32,
            Instruction::Mflo { rd } => rd < 32,
            Instruction::Mthi { rs } => rs < 32,
            Instruction::Mtlo { rs } => rs < 32,
            Instruction::Mult { rs, rt } => rs < 32 && rt < 32,
            Instruction::Multu { rs, rt } => rs < 32 && rt < 32,
            Instruction::Nor { rs, rt, rd } => rs < 32 && rt < 32 && rd < 32,
            Instruction::Or { rs, rt, rd } => rs < 32 && rt < 32 && rd < 32,
            Instruction::Ori { rs, rt, .. } => rs < 32 && rt < 32,
            Instruction::Sb { base, rt, .. } => base < 32 && rt < 32,
            Instruction::Sh { base, rt, .. } => base < 32 && rt < 32,
            Instruction::Sll { rt, rd, sa } => rt < 32 && rd < 32 && sa < 32,
            Instruction::Sllv { rs, rt, rd } => rs < 32 && rt < 32 && rd < 32,
            Instruction::Slt { rs, rt, rd } => rs < 32 && rt < 32 && rd < 32,
            Instruction::Slti { rs, rt, .. } => rs < 32 && rt < 32,
            Instruction::Sltiu { rs, rt, .. } => rs < 32 && rt < 32,
            Instruction::Sltu { rs, rt, rd } => rs < 32 && rt < 32 && rd < 32,
            Instruction::Sra { rt, rd, sa } => rt < 32 && rd < 32 && sa < 32,
            Instruction::Srav { rs, rt, rd } => rs < 32 && rt < 32 && rd < 32,
            Instruction::Srl { rt, rd, sa } => rt < 32 && rd < 32 && sa < 32,
            Instruction::Srlv { rs, rt, rd } => rs < 32 && rt < 32 && rd < 32,
            Instruction::Sub { rs, rt, rd } => rs < 32 && rt < 32 && rd < 32,
            Instruction::Subu { rs, rt, rd } => rs < 32 && rt < 32 && rd < 32,
            Instruction::Sw { base, rt, .. } => base < 32 && rt < 32,
            Instruction::Swl { base, rt, .. } => base < 32 && rt < 32,
            Instruction::Swr { base, rt, .. } => base < 32 && rt < 32,
            Instruction::Syscall => true,
            Instruction::Tlbp => true,
            Instruction::Tlbr => true,
            Instruction::Tlbwi => true,
            Instruction::Tlbwr => true,
            Instruction::Xor { rs, rt, rd } => rs < 32 && rt < 32 && rd < 32,
            Instruction::Xori { rs, rt, .. } => rs < 32 && rt < 32,
        }
    }
}

} // verus!
