use asm_ast::ast::{Inst, Operand};
use asm_ast::parser::{gen_ast, Diag};
use asm_ast::token::{Kind, Token};

fn tok(kind: Kind) -> Token {
    Token { kind, text: String::new() }
}

fn name(text: &str) -> Token {
    Token { kind: Kind::Name, text: text.to_string() }
}

#[test]
fn whitespace_only_input_yields_empty_program() {
    let out = gen_ast(vec![tok(Kind::White), tok(Kind::White), tok(Kind::White)]);
    assert!(out.program.instructions.is_empty());
    assert!(out.diagnostics.is_empty());
}

#[test]
fn empty_input_yields_empty_program() {
    let out = gen_ast(Vec::new());
    assert!(out.program.instructions.is_empty());
    assert!(out.diagnostics.is_empty());
}

#[test]
fn imm_assembles_register_and_immediate() {
    let out = gen_ast(vec![
        name("imm"),
        tok(Kind::White),
        tok(Kind::Reg(2)),
        tok(Kind::White),
        tok(Kind::Int(5)),
    ]);
    assert_eq!(
        out.program.instructions,
        vec![Inst::IMM(Operand::Reg(2), Operand::Imm(5))]
    );
    assert!(out.diagnostics.is_empty());
}

#[test]
fn mov_with_wrong_second_operand_is_dropped() {
    let out = gen_ast(vec![
        name("mov"),
        tok(Kind::White),
        tok(Kind::Reg(1)),
        tok(Kind::White),
        tok(Kind::Int(5)),
    ]);
    // The malformed instruction never reaches the program; parsing completes
    // and reports the rejected operand, then the stray integer at top level.
    assert!(!out
        .program
        .instructions
        .iter()
        .any(|i| matches!(i, Inst::MOV(_, _))));
    assert!(out.program.instructions.is_empty());
    assert_eq!(out.diagnostics[0], Diag::UnexpectedOperandKind { at: 4 });
}

#[test]
fn mov_assembles_two_registers() {
    let out = gen_ast(vec![name("mov"), tok(Kind::Reg(1)), tok(Kind::Reg(2))]);
    assert_eq!(
        out.program.instructions,
        vec![Inst::MOV(Operand::Reg(1), Operand::Reg(2))]
    );
    assert!(out.diagnostics.is_empty());
}

#[test]
fn unknown_mnemonic_is_skipped_and_reported() {
    let out = gen_ast(vec![name("zzz")]);
    assert!(out.program.instructions.is_empty());
    assert_eq!(out.diagnostics, vec![Diag::UnknownMnemonic { at: 0 }]);
}

#[test]
fn unknown_mnemonic_position_counts_whitespace() {
    let out = gen_ast(vec![tok(Kind::White), name("zzz")]);
    assert!(out.program.instructions.is_empty());
    assert_eq!(out.diagnostics, vec![Diag::UnknownMnemonic { at: 1 }]);
}

#[test]
fn add_accepts_register_then_immediate() {
    let out = gen_ast(vec![
        name("add"),
        tok(Kind::Reg(0)),
        tok(Kind::Reg(1)),
        tok(Kind::Int(3)),
    ]);
    assert_eq!(
        out.program.instructions,
        vec![Inst::ADD(Operand::Reg(0), Operand::Reg(1), Operand::Imm(3))]
    );
}

#[test]
fn add_accepts_two_immediates() {
    let out = gen_ast(vec![
        name("add"),
        tok(Kind::Reg(0)),
        tok(Kind::Int(2)),
        tok(Kind::Int(3)),
    ]);
    assert_eq!(
        out.program.instructions,
        vec![Inst::ADD(Operand::Reg(0), Operand::Imm(2), Operand::Imm(3))]
    );
}

#[test]
fn nor_accepts_mixed_operands() {
    let out = gen_ast(vec![
        name("nor"),
        tok(Kind::Reg(0)),
        tok(Kind::Int(1)),
        tok(Kind::Reg(2)),
    ]);
    assert_eq!(
        out.program.instructions,
        vec![Inst::NOR(Operand::Reg(0), Operand::Imm(1), Operand::Reg(2))]
    );
}

#[test]
fn rsh_assembles_register_and_shift() {
    let out = gen_ast(vec![name("rsh"), tok(Kind::Reg(1)), tok(Kind::Int(2))]);
    assert_eq!(
        out.program.instructions,
        vec![Inst::RSH(Operand::Reg(1), Operand::Imm(2))]
    );
}

#[test]
fn lod_accepts_memory_source() {
    let out = gen_ast(vec![name("lod"), tok(Kind::Reg(1)), tok(Kind::Memory(3))]);
    assert_eq!(
        out.program.instructions,
        vec![Inst::LOD(Operand::Reg(1), Operand::Mem(3))]
    );
}

#[test]
fn str_accepts_memory_destination() {
    let out = gen_ast(vec![name("str"), tok(Kind::Memory(4)), tok(Kind::Int(7))]);
    assert_eq!(
        out.program.instructions,
        vec![Inst::STR(Operand::Mem(4), Operand::Imm(7))]
    );
}

#[test]
fn bge_consumes_tokens_without_instruction() {
    let out = gen_ast(vec![
        name("bge"),
        tok(Kind::Reg(0)),
        tok(Kind::Reg(1)),
        tok(Kind::Int(2)),
        name("imm"),
        tok(Kind::Reg(1)),
        tok(Kind::Int(9)),
    ]);
    // The branch stub builds nothing, but parsing resumes cleanly after it.
    assert_eq!(
        out.program.instructions,
        vec![Inst::IMM(Operand::Reg(1), Operand::Imm(9))]
    );
    assert!(out.diagnostics.is_empty());
}

#[test]
fn stray_token_at_top_level_is_reported() {
    let out = gen_ast(vec![tok(Kind::Int(5))]);
    assert!(out.program.instructions.is_empty());
    assert_eq!(out.diagnostics, vec![Diag::UnhandledTopLevelToken { at: 0 }]);
}

#[test]
fn negative_literals_are_reinterpreted_as_unsigned() {
    let out = gen_ast(vec![name("imm"), tok(Kind::Reg(0)), tok(Kind::Int(-1))]);
    assert_eq!(
        out.program.instructions,
        vec![Inst::IMM(Operand::Reg(0), Operand::Imm(u64::MAX))]
    );
}

#[test]
fn negative_memory_address_is_reinterpreted_as_unsigned() {
    let out = gen_ast(vec![name("lod"), tok(Kind::Reg(0)), tok(Kind::Memory(-2))]);
    assert_eq!(
        out.program.instructions,
        vec![Inst::LOD(Operand::Reg(0), Operand::Mem(u64::MAX - 1))]
    );
}

#[test]
fn parsing_resumes_after_rejected_operand() {
    let out = gen_ast(vec![
        name("mov"),
        tok(Kind::Int(5)),
        name("imm"),
        tok(Kind::Reg(1)),
        tok(Kind::Int(2)),
    ]);
    // The rejected token is re-examined at top level, then parsing goes on
    // and terminates: forward progress holds on the failure path too.
    assert_eq!(
        out.program.instructions,
        vec![Inst::IMM(Operand::Reg(1), Operand::Imm(2))]
    );
    assert_eq!(
        out.diagnostics,
        vec![
            Diag::UnexpectedOperandKind { at: 1 },
            Diag::UnhandledTopLevelToken { at: 1 },
        ]
    );
}

#[test]
fn missing_operands_at_end_of_stream_are_rejected() {
    let out = gen_ast(vec![name("imm"), tok(Kind::Reg(1))]);
    // The second operand fetch runs off the end and meets the sentinel,
    // which no position accepts; nothing is appended and nothing fails hard.
    assert!(out.program.instructions.is_empty());
    assert_eq!(out.diagnostics, vec![Diag::UnexpectedOperandKind { at: 2 }]);
}
