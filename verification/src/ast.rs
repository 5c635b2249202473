//! The in-memory program representation the parser produces.

use vstd::prelude::*;

verus! {

/// A typed operand attached to an instruction.  All payloads are unsigned
/// 64-bit values, whatever signedness the originating literal had.
#[derive(Clone, Copy, Debug, PartialEq, Eq, Structural)]
pub enum Operand {
    /// An immediate value.
    Imm(u64),
    /// A register index.
    Reg(u64),
    /// A memory address.
    Mem(u64),
}

/// A typed instruction, one variant per opcode.
///
/// `BGE` is an explicit placeholder: branch/label support is unimplemented,
/// so the dispatcher consumes its tokens without building this variant.
#[derive(Clone, Copy, Debug, PartialEq, Eq, Structural)]
pub enum Inst {
    IMM(Operand, Operand),
    ADD(Operand, Operand, Operand),
    RSH(Operand, Operand),
    LOD(Operand, Operand),
    STR(Operand, Operand),
    BGE(Operand, Operand, Operand),
    NOR(Operand, Operand, Operand),
    MOV(Operand, Operand),
}

/// The machine-configuration header fields, fixed to their defaults in this
/// stage of the translator (they are not read from source yet).
#[derive(Clone, Copy, Debug, PartialEq, Eq, Structural)]
pub struct Headers {
    pub bits: u64,
    pub minheap: u64,
    pub minstack: u64,
    pub minram: u64,
    pub minreg: u64,
}

impl Headers {
    /// The default machine configuration.
    pub fn new() -> (r: Self)
        ensures
            r == (Headers { bits: 8, minheap: 16, minstack: 16, minram: 16, minreg: 8 }),
    {
        Headers { bits: 8, minheap: 16, minstack: 16, minram: 16, minreg: 8 }
    }
}

/// The parser's output: header defaults, the ordered instruction list
/// (insertion order is execution order), and the label table.
///
/// The label table is an extension point for branch-target resolution and is
/// never populated in this stage.
#[derive(Debug)]
pub struct Program {
    pub headers: Headers,
    pub instructions: Vec<Inst>,
    pub labels: Vec<(String, u64)>,
}

impl Program {
    /// An empty program with default headers.
    pub fn new() -> (r: Self)
        ensures
            r.headers == (Headers { bits: 8, minheap: 16, minstack: 16, minram: 16, minreg: 8 }),
            r.instructions@ == Seq::<Inst>::empty(),
            r.labels@ == Seq::<(String, u64)>::empty(),
    {
        Program { headers: Headers::new(), instructions: Vec::new(), labels: Vec::new() }
    }
}

} // verus!
