//! The instruction dispatcher: mnemonic recognition, operand coercion and
//! instruction assembly, driven by a declarative per-mnemonic contract table.

use vstd::prelude::*;

use crate::ast::{Headers, Inst, Operand, Program};
use crate::cursor::{
    advanced_pos, advanced_pos_n, lemma_advanced_pos, lemma_advanced_pos_n, token_at, TokenBuffer,
};
use crate::token::{token_views, Kind, Token, TokenView};

verus! {

/// A notice about a malformed or unrecognized piece of input, with the token
/// position it fired at.  All notices are recoverable: the dispatcher reports
/// them and parses on.
#[derive(Clone, Copy, Debug, PartialEq, Eq, Structural)]
pub enum Diag {
    /// An identifier that names no known mnemonic; one token is skipped.
    UnknownMnemonic { at: usize },
    /// An operand token whose kind is not among the shapes its position
    /// accepts; the in-progress instruction is discarded.
    UnexpectedOperandKind { at: usize },
    /// A token that is neither an identifier nor whitespace where a mnemonic
    /// was expected; one token is skipped.
    UnhandledTopLevelToken { at: usize },
}

/// A recognized mnemonic.
#[derive(Clone, Copy, Debug, PartialEq, Eq, Structural)]
pub enum Mnemonic {
    Imm,
    Mov,
    Add,
    Rsh,
    Lod,
    Str,
    Bge,
    Nor,
}

/// The operand shapes a single operand position accepts.
#[derive(Clone, Copy, Debug, PartialEq, Eq, Structural)]
pub enum OperandPattern {
    /// Only a register literal.
    RegOnly,
    /// Only an integer literal.
    ImmOnly,
    /// A register literal or an integer literal.
    RegOrImm,
    /// A register literal or a memory-address literal.
    RegOrMem,
}

/// The mnemonic, if any, that an identifier's text names.
pub open spec fn spec_mnemonic_of(text: Seq<char>) -> Option<Mnemonic> {
    if text == "imm"@ {
        Some(Mnemonic::Imm)
    } else if text == "mov"@ {
        Some(Mnemonic::Mov)
    } else if text == "add"@ {
        Some(Mnemonic::Add)
    } else if text == "rsh"@ {
        Some(Mnemonic::Rsh)
    } else if text == "lod"@ {
        Some(Mnemonic::Lod)
    } else if text == "str"@ {
        Some(Mnemonic::Str)
    } else if text == "bge"@ {
        Some(Mnemonic::Bge)
    } else if text == "nor"@ {
        Some(Mnemonic::Nor)
    } else {
        None
    }
}

/// Looks an identifier's text up in the mnemonic table.
fn lookup_mnemonic(text: &String) -> (r: Option<Mnemonic>)
    ensures
        r == spec_mnemonic_of(text@),
{
    if *text == "imm".to_owned() {
        Some(Mnemonic::Imm)
    } else if *text == "mov".to_owned() {
        Some(Mnemonic::Mov)
    } else if *text == "add".to_owned() {
        Some(Mnemonic::Add)
    } else if *text == "rsh".to_owned() {
        Some(Mnemonic::Rsh)
    } else if *text == "lod".to_owned() {
        Some(Mnemonic::Lod)
    } else if *text == "str".to_owned() {
        Some(Mnemonic::Str)
    } else if *text == "bge".to_owned() {
        Some(Mnemonic::Bge)
    } else if *text == "nor".to_owned() {
        Some(Mnemonic::Nor)
    } else {
        None
    }
}

/// The per-mnemonic operand contract: one accepted pattern per operand
/// position, in order.  `Bge` has no contract; the dispatcher consumes its
/// tokens without coercion, as branch support is an unimplemented stub.
pub open spec fn spec_contract_of(m: Mnemonic) -> Seq<OperandPattern> {
    match m {
        Mnemonic::Imm => seq![OperandPattern::RegOnly, OperandPattern::ImmOnly],
        Mnemonic::Mov => seq![OperandPattern::RegOnly, OperandPattern::RegOnly],
        Mnemonic::Add => seq![
            OperandPattern::RegOnly,
            OperandPattern::RegOrImm,
            OperandPattern::RegOrImm,
        ],
        Mnemonic::Rsh => seq![OperandPattern::RegOnly, OperandPattern::RegOrImm],
        Mnemonic::Lod => seq![OperandPattern::RegOnly, OperandPattern::RegOrMem],
        Mnemonic::Str => seq![OperandPattern::RegOrMem, OperandPattern::RegOrImm],
        Mnemonic::Nor => seq![
            OperandPattern::RegOnly,
            OperandPattern::RegOrImm,
            OperandPattern::RegOrImm,
        ],
        Mnemonic::Bge => seq![],
    }
}

/// Builds the operand contract of a mnemonic.
fn contract_of(m: Mnemonic) -> (r: Vec<OperandPattern>)
    ensures
        r@ == spec_contract_of(m),
{
    let mut r: Vec<OperandPattern> = Vec::new();
    match m {
        Mnemonic::Imm => {
            r.push(OperandPattern::RegOnly);
            r.push(OperandPattern::ImmOnly);
        },
        Mnemonic::Mov => {
            r.push(OperandPattern::RegOnly);
            r.push(OperandPattern::RegOnly);
        },
        Mnemonic::Add => {
            r.push(OperandPattern::RegOnly);
            r.push(OperandPattern::RegOrImm);
            r.push(OperandPattern::RegOrImm);
        },
        Mnemonic::Rsh => {
            r.push(OperandPattern::RegOnly);
            r.push(OperandPattern::RegOrImm);
        },
        Mnemonic::Lod => {
            r.push(OperandPattern::RegOnly);
            r.push(OperandPattern::RegOrMem);
        },
        Mnemonic::Str => {
            r.push(OperandPattern::RegOrMem);
            r.push(OperandPattern::RegOrImm);
        },
        Mnemonic::Nor => {
            r.push(OperandPattern::RegOnly);
            r.push(OperandPattern::RegOrImm);
            r.push(OperandPattern::RegOrImm);
        },
        Mnemonic::Bge => {},
    }
    proof {
        assert(r@ =~= spec_contract_of(m));
    }
    r
}

/// The operand a token kind coerces to under a pattern, or `None` when the
/// kind is not among the accepted shapes.  Signed literal payloads are
/// reinterpreted as unsigned 64-bit values (deliberate truncation).
pub open spec fn spec_coerce(p: OperandPattern, k: Kind) -> Option<Operand> {
    match (p, k) {
        (OperandPattern::RegOnly, Kind::Reg(v)) => Some(Operand::Reg(v)),
        (OperandPattern::ImmOnly, Kind::Int(v)) => Some(Operand::Imm(v as u64)),
        (OperandPattern::RegOrImm, Kind::Reg(v)) => Some(Operand::Reg(v)),
        (OperandPattern::RegOrImm, Kind::Int(v)) => Some(Operand::Imm(v as u64)),
        (OperandPattern::RegOrMem, Kind::Reg(v)) => Some(Operand::Reg(v)),
        (OperandPattern::RegOrMem, Kind::Memory(v)) => Some(Operand::Mem(v as u64)),
        _ => None,
    }
}

/// Coerces a token kind into an operand under a pattern.
fn coerce(p: OperandPattern, k: Kind) -> (r: Option<Operand>)
    ensures
        r == spec_coerce(p, k),
{
    match (p, k) {
        (OperandPattern::RegOnly, Kind::Reg(v)) => Some(Operand::Reg(v)),
        (OperandPattern::ImmOnly, Kind::Int(v)) => Some(Operand::Imm(v as u64)),
        (OperandPattern::RegOrImm, Kind::Reg(v)) => Some(Operand::Reg(v)),
        (OperandPattern::RegOrImm, Kind::Int(v)) => Some(Operand::Imm(v as u64)),
        (OperandPattern::RegOrMem, Kind::Reg(v)) => Some(Operand::Reg(v)),
        (OperandPattern::RegOrMem, Kind::Memory(v)) => Some(Operand::Mem(v as u64)),
        _ => None,
    }
}

/// The instruction a mnemonic's constructor builds from its operand list.
/// `Bge` never reaches a constructor; its arm is a placeholder.
pub open spec fn spec_make_inst(m: Mnemonic, ops: Seq<Operand>) -> Inst {
    match m {
        Mnemonic::Imm => Inst::IMM(ops[0], ops[1]),
        Mnemonic::Mov => Inst::MOV(ops[0], ops[1]),
        Mnemonic::Add => Inst::ADD(ops[0], ops[1], ops[2]),
        Mnemonic::Rsh => Inst::RSH(ops[0], ops[1]),
        Mnemonic::Lod => Inst::LOD(ops[0], ops[1]),
        Mnemonic::Str => Inst::STR(ops[0], ops[1]),
        Mnemonic::Nor => Inst::NOR(ops[0], ops[1], ops[2]),
        Mnemonic::Bge => Inst::BGE(ops[0], ops[1], ops[2]),
    }
}

/// Assembles the typed instruction of a mnemonic from its coerced operands.
fn make_inst(m: Mnemonic, ops: &Vec<Operand>) -> (r: Inst)
    requires
        !(m is Bge),
        ops@.len() == spec_contract_of(m).len(),
    ensures
        r == spec_make_inst(m, ops@),
{
    match m {
        Mnemonic::Imm => Inst::IMM(ops[0], ops[1]),
        Mnemonic::Mov => Inst::MOV(ops[0], ops[1]),
        Mnemonic::Add => Inst::ADD(ops[0], ops[1], ops[2]),
        Mnemonic::Rsh => Inst::RSH(ops[0], ops[1]),
        Mnemonic::Lod => Inst::LOD(ops[0], ops[1]),
        Mnemonic::Str => Inst::STR(ops[0], ops[1]),
        Mnemonic::Nor => Inst::NOR(ops[0], ops[1], ops[2]),
        Mnemonic::Bge => Inst::BGE(ops[0], ops[1], ops[2]),
    }
}

/// The outcome of pulling one operand token per pattern position: the coerced
/// operands if every position accepted its token, and the cursor position the
/// fetch sequence stopped at.
pub struct FetchResult {
    pub ops: Option<Seq<Operand>>,
    pub pos: nat,
}

/// Pulls one token per pattern position, advancing from `i`, and coerces each
/// in order.  Stops at the first token whose kind its position rejects; the
/// resulting position is then the rejected token's, so a caller resuming
/// there has already moved strictly past the mnemonic.
pub open spec fn spec_fetch_ops(toks: Seq<TokenView>, i: nat, pats: Seq<OperandPattern>) -> FetchResult
    decreases pats.len(),
{
    if pats.len() == 0 {
        FetchResult { ops: Some(Seq::empty()), pos: i }
    } else {
        let j = advanced_pos(toks, i);
        match spec_coerce(pats[0], token_at(toks, j).kind) {
            Option::Some(op) => {
                let rest = spec_fetch_ops(toks, j, pats.drop_first());
                match rest.ops {
                    Option::Some(ops) => FetchResult { ops: Some(seq![op] + ops), pos: rest.pos },
                    Option::None => rest,
                }
            },
            Option::None => FetchResult { ops: None, pos: j },
        }
    }
}

/// Fetching operands never moves the cursor backwards or out of bounds,
/// moves it strictly forward as soon as there is a position to fill, and on
/// success yields exactly one operand per position.
pub proof fn lemma_fetch_ops(toks: Seq<TokenView>, i: nat, pats: Seq<OperandPattern>)
    requires
        i <= toks.len(),
    ensures
        i <= spec_fetch_ops(toks, i, pats).pos <= toks.len(),
        pats.len() > 0 && i < toks.len() ==> i < spec_fetch_ops(toks, i, pats).pos,
        spec_fetch_ops(toks, i, pats).ops is None ==> pats.len() > 0,
        spec_fetch_ops(toks, i, pats).ops is Some ==> spec_fetch_ops(
            toks,
            i,
            pats,
        ).ops->Some_0.len() == pats.len(),
    decreases pats.len(),
{
    if pats.len() > 0 {
        lemma_advanced_pos(toks, i);
        let j = advanced_pos(toks, i);
        if spec_coerce(pats[0], token_at(toks, j).kind) is Some {
            lemma_fetch_ops(toks, j, pats.drop_first());
        }
    }
}

/// What one iteration of the dispatcher's outer loop does at position `i`:
/// at most one instruction appended, at most one diagnostic reported, and the
/// position the cursor resumes at.
pub struct StepResult {
    pub inst: Option<Inst>,
    pub diag: Option<Diag>,
    pub next: nat,
}

/// One dispatch step at position `i` (meaningful while `i` is in bounds).
///
/// An identifier is looked up in the mnemonic table: no entry reports
/// `UnknownMnemonic` and skips one token; `bge` consumes its mnemonic and
/// three further tokens without building an instruction (branch support is an
/// unimplemented stub); any other entry fetches and coerces its operands,
/// appending the assembled instruction on success and reporting
/// `UnexpectedOperandKind` on failure, resuming at the rejected token.
/// Whitespace is skipped silently; anything else reports
/// `UnhandledTopLevelToken` and skips one token.
pub open spec fn spec_step(toks: Seq<TokenView>, i: nat) -> StepResult {
    let t = token_at(toks, i);
    match t.kind {
        Kind::Name => match spec_mnemonic_of(t.text) {
            Option::None => StepResult {
                inst: None,
                diag: Some(Diag::UnknownMnemonic { at: i as usize }),
                next: advanced_pos(toks, i),
            },
            Option::Some(m) => if m is Bge {
                StepResult { inst: None, diag: None, next: advanced_pos_n(toks, i, 4) }
            } else {
                let fr = spec_fetch_ops(toks, i, spec_contract_of(m));
                match fr.ops {
                    Option::Some(ops) => StepResult {
                        inst: Some(spec_make_inst(m, ops)),
                        diag: None,
                        next: advanced_pos(toks, fr.pos),
                    },
                    Option::None => StepResult {
                        inst: None,
                        diag: Some(Diag::UnexpectedOperandKind { at: fr.pos as usize }),
                        next: fr.pos,
                    },
                }
            },
        },
        Kind::White => StepResult { inst: None, diag: None, next: advanced_pos(toks, i) },
        _ => StepResult {
            inst: None,
            diag: Some(Diag::UnhandledTopLevelToken { at: i as usize }),
            next: advanced_pos(toks, i),
        },
    }
}

/// Forward progress: while tokens remain, every dispatch step leaves the
/// cursor strictly further along and still within bounds, whatever the step
/// did.  Parsing a finite input therefore takes at most one step per token.
pub proof fn lemma_step_progress(toks: Seq<TokenView>, i: nat)
    requires
        i < toks.len(),
    ensures
        i < spec_step(toks, i).next <= toks.len(),
{
    lemma_advanced_pos(toks, i);
    lemma_advanced_pos_n(toks, i, 4);
    let t = token_at(toks, i);
    if t.kind is Name {
        match spec_mnemonic_of(t.text) {
            Option::Some(m) => {
                if !(m is Bge) {
                    assert(spec_contract_of(m).len() > 0);
                    lemma_fetch_ops(toks, i, spec_contract_of(m));
                    lemma_advanced_pos(toks, spec_fetch_ops(toks, i, spec_contract_of(m)).pos);
                }
            },
            Option::None => {},
        }
    }
}

/// The instructions and diagnostics a full parse produces, in order.
pub struct ParseResult {
    pub insts: Seq<Inst>,
    pub diags: Seq<Diag>,
}

/// An optional value as a sequence of zero or one elements.
pub open spec fn opt_to_seq<A>(x: Option<A>) -> Seq<A> {
    match x {
        Option::Some(v) => seq![v],
        Option::None => Seq::empty(),
    }
}

/// Everything the dispatcher produces from position `i` to the end of the
/// token sequence: the concatenation of what each dispatch step contributes.
pub open spec fn spec_parse_from(toks: Seq<TokenView>, i: nat) -> ParseResult
    decreases toks.len() - i
        via spec_parse_from_decreases
{
    if toks.len() <= i {
        ParseResult { insts: Seq::empty(), diags: Seq::empty() }
    } else {
        let s = spec_step(toks, i);
        let rest = spec_parse_from(toks, s.next);
        ParseResult {
            insts: opt_to_seq(s.inst) + rest.insts,
            diags: opt_to_seq(s.diag) + rest.diags,
        }
    }
}

#[via_fn]
proof fn spec_parse_from_decreases(toks: Seq<TokenView>, i: nat) {
    if i < toks.len() {
        lemma_step_progress(toks, i);
    }
}

/// The full parse of a token sequence, from its first position.
pub open spec fn spec_parse(toks: Seq<TokenView>) -> ParseResult {
    spec_parse_from(toks, 0)
}

/// Pulls and coerces one operand per pattern position.  On success the
/// operands come back in position order and the cursor rests on the last
/// operand token; on a rejected token the cursor rests on that token and
/// nothing comes back.
fn fetch_operands(buf: &mut TokenBuffer, pats: &Vec<OperandPattern>) -> (r: Option<Vec<Operand>>)
    requires
        old(buf).wf(),
    ensures
        final(buf).wf(),
        final(buf).tokens() == old(buf).tokens(),
        final(buf).pos() == spec_fetch_ops(old(buf).tokens(), old(buf).pos(), pats@).pos,
        match r {
            Some(v) => spec_fetch_ops(old(buf).tokens(), old(buf).pos(), pats@).ops == Some(v@),
            None => spec_fetch_ops(old(buf).tokens(), old(buf).pos(), pats@).ops is None,
        },
{
    let ghost toks_v = buf.tokens();
    let ghost p0 = buf.pos();
    let ghost fr = spec_fetch_ops(toks_v, p0, pats@);
    let mut ops: Vec<Operand> = Vec::new();
    let mut k: usize = 0;
    proof {
        assert(pats@.skip(0) =~= pats@);
    }
    while k < pats.len()
        invariant
            buf.wf(),
            buf.tokens() == toks_v,
            toks_v == old(buf).tokens(),
            p0 == old(buf).pos(),
            k <= pats@.len(),
            fr == spec_fetch_ops(toks_v, p0, pats@),
            ({
                let rest = spec_fetch_ops(toks_v, buf.pos(), pats@.skip(k as int));
                &&& fr.pos == rest.pos
                &&& (fr.ops is Some <==> rest.ops is Some)
                &&& (rest.ops is Some ==> fr.ops->Some_0 == ops@ + rest.ops->Some_0)
            }),
        decreases pats@.len() - k,
    {
        let ghost pos_k = buf.pos();
        let ghost ops_k = ops@;
        proof {
            assert(pats@.skip(k as int).drop_first() =~= pats@.skip(k as int + 1));
            assert(pats@.skip(k as int)[0] == pats@[k as int]);
        }
        let pat = pats[k];
        let t = buf.next();
        match coerce(pat, t.kind) {
            Option::Some(op) => {
                ops.push(op);
                proof {
                    let rest_next = spec_fetch_ops(toks_v, buf.pos(), pats@.skip(k as int + 1));
                    if rest_next.ops is Some {
                        assert(ops_k + (seq![op] + rest_next.ops->Some_0) =~= ops@
                            + rest_next.ops->Some_0);
                    }
                }
                k = k + 1;
            },
            Option::None => {
                proof {
                    let rest_k = spec_fetch_ops(toks_v, pos_k, pats@.skip(k as int));
                    assert(pats@.skip(k as int).len() > 0);
                    assert(rest_k.pos == buf.pos() && rest_k.ops is None);
                }
                return None;
            },
        }
    }
    proof {
        assert(pats@.skip(pats@.len() as int) =~= Seq::<OperandPattern>::empty());
        assert(ops@ + Seq::<Operand>::empty() =~= ops@);
    }
    Some(ops)
}

/// The parser's complete result: the program and, alongside it, every
/// diagnostic the dispatcher reported, in the order the notices fired.
pub struct ParseOutput {
    pub program: Program,
    pub diagnostics: Vec<Diag>,
}

/// Parses a token sequence into a program.
///
/// The instruction list is exactly what [`spec_parse`] assembles from the
/// tokens, in order; the diagnostics are exactly the notices it reports, in
/// order.  The headers keep their defaults and the label table stays empty:
/// neither is read from source in this stage.
pub fn gen_ast(toks: Vec<Token>) -> (r: ParseOutput)
    ensures
        r.program.instructions@ == spec_parse(token_views(toks@)).insts,
        r.diagnostics@ == spec_parse(token_views(toks@)).diags,
        r.program.headers == (Headers { bits: 8, minheap: 16, minstack: 16, minram: 16, minreg: 8 }),
        r.program.labels@ == Seq::<(String, u64)>::empty(),
{
    let ghost toks_v = token_views(toks@);
    let mut prog = Program::new();
    let mut diags: Vec<Diag> = Vec::new();
    let mut buf = TokenBuffer::new(toks);
    while buf.has_next()
        invariant
            buf.wf(),
            buf.tokens() == toks_v,
            prog.headers == (Headers {
                bits: 8,
                minheap: 16,
                minstack: 16,
                minram: 16,
                minreg: 8,
            }),
            prog.labels@ == Seq::<(String, u64)>::empty(),
            spec_parse_from(toks_v, 0).insts == prog.instructions@ + spec_parse_from(
                toks_v,
                buf.pos(),
            ).insts,
            spec_parse_from(toks_v, 0).diags == diags@ + spec_parse_from(toks_v, buf.pos()).diags,
        decreases toks_v.len() - buf.pos(),
    {
        let ghost i0 = buf.pos();
        let ghost st = spec_step(toks_v, i0);
        let ghost insts0 = prog.instructions@;
        let ghost diags0 = diags@;
        proof {
            lemma_step_progress(toks_v, i0);
        }
        let t = buf.current();
        match t.kind {
            Kind::Name => {
                match lookup_mnemonic(&t.text) {
                    Option::Some(m) => {
                        match m {
                            Mnemonic::Bge => {
                                // Branch/label support is an unimplemented
                                // stub: consume the mnemonic and three more
                                // tokens, building nothing.
                                proof {
                                    lemma_advance_four(toks_v, i0);
                                }
                                buf.advance();
                                buf.advance();
                                buf.advance();
                                buf.advance();
                            },
                            _ => {
                                let pats = contract_of(m);
                                match fetch_operands(&mut buf, &pats) {
                                    Option::Some(ops) => {
                                        proof {
                                            lemma_fetch_ops(toks_v, i0, pats@);
                                        }
                                        let inst = make_inst(m, &ops);
                                        prog.instructions.push(inst);
                                        buf.advance();
                                    },
                                    Option::None => {
                                        diags.push(
                                            Diag::UnexpectedOperandKind { at: buf.position() },
                                        );
                                    },
                                }
                            },
                        }
                    },
                    Option::None => {
                        diags.push(Diag::UnknownMnemonic { at: buf.position() });
                        buf.advance();
                    },
                }
            },
            Kind::White => {
                buf.advance();
            },
            _ => {
                diags.push(Diag::UnhandledTopLevelToken { at: buf.position() });
                buf.advance();
            },
        }
        proof {
            assert(buf.pos() == st.next);
            assert(prog.instructions@ =~= insts0 + opt_to_seq(st.inst));
            assert(diags@ =~= diags0 + opt_to_seq(st.diag));
            let rest = spec_parse_from(toks_v, st.next);
            assert(spec_parse_from(toks_v, i0).insts == opt_to_seq(st.inst) + rest.insts);
            assert(insts0 + (opt_to_seq(st.inst) + rest.insts) =~= prog.instructions@
                + rest.insts);
            assert(diags0 + (opt_to_seq(st.diag) + rest.diags) =~= diags@ + rest.diags);
        }
    }
    proof {
        assert(spec_parse_from(toks_v, buf.pos()).insts =~= Seq::<Inst>::empty());
        assert(prog.instructions@ + Seq::<Inst>::empty() =~= prog.instructions@);
        assert(diags@ + Seq::<Diag>::empty() =~= diags@);
    }
    ParseOutput { program: prog, diagnostics: diags }
}

/// Four advances in a row land where `advanced_pos_n` says.
proof fn lemma_advance_four(toks: Seq<TokenView>, i: nat)
    ensures
        advanced_pos_n(toks, i, 4) == advanced_pos(
            toks,
            advanced_pos(toks, advanced_pos(toks, advanced_pos(toks, i))),
        ),
{
    let a1 = advanced_pos(toks, i);
    let a2 = advanced_pos(toks, a1);
    let a3 = advanced_pos(toks, a2);
    let a4 = advanced_pos(toks, a3);
    assert(advanced_pos_n(toks, i, 4) == advanced_pos_n(toks, a1, 3));
    assert(advanced_pos_n(toks, a1, 3) == advanced_pos_n(toks, a2, 2));
    assert(advanced_pos_n(toks, a2, 2) == advanced_pos_n(toks, a3, 1));
    assert(advanced_pos_n(toks, a3, 1) == advanced_pos_n(toks, a4, 0));
}

/// For an input consisting only of whitespace tokens, parsing assembles no
/// instructions and reports no diagnostics.
pub proof fn lemma_whitespace_only_parses_empty(toks: Seq<TokenView>)
    requires
        forall|k: int| 0 <= k < toks.len() ==> (#[trigger] toks[k].kind) is White,
    ensures
        spec_parse(toks).insts == Seq::<Inst>::empty(),
        spec_parse(toks).diags == Seq::<Diag>::empty(),
{
    lemma_whitespace_only_from(toks, 0);
}

proof fn lemma_whitespace_only_from(toks: Seq<TokenView>, i: nat)
    requires
        i <= toks.len(),
        forall|k: int| 0 <= k < toks.len() ==> (#[trigger] toks[k].kind) is White,
    ensures
        spec_parse_from(toks, i).insts == Seq::<Inst>::empty(),
        spec_parse_from(toks, i).diags == Seq::<Diag>::empty(),
    decreases toks.len() - i,
{
    if i < toks.len() {
        lemma_step_progress(toks, i);
        let s = spec_step(toks, i);
        lemma_whitespace_only_from(toks, s.next);
        assert(spec_parse_from(toks, i).insts =~= Seq::<Inst>::empty());
        assert(spec_parse_from(toks, i).diags =~= Seq::<Diag>::empty());
    }
}

} // verus!
