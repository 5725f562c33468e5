use vstd::prelude::*;
use crate::text::{decimal, hex2, push_decimal, push_hex2, push_str, string_from_chars};

verus! {

/// Outcome of checking a method's bytecode.
pub struct VerificationResult {
    pub is_valid: bool,
    pub errors: Vec<String>,
}

impl VerificationResult {
    pub fn valid() -> (r: Self)
        ensures
            r.is_valid,
            r.errors@.len() == 0,
    {
        VerificationResult { is_valid: true, errors: Vec::new() }
    }

    pub fn invalid(errors: Vec<String>) -> (r: Self)
        ensures
            !r.is_valid,
            r.errors@ == errors@,
    {
        VerificationResult { is_valid: false, errors }
    }
}

/// A problem found in a code array.
#[derive(Clone, Copy, Debug, PartialEq, Eq, Structural)]
pub enum Issue {
    UnknownOpcode { opcode: u8, pc: usize },
    PastEnd { pc: usize, opcode: u8 },
    BranchOutOfBounds { target: usize, pc: usize, code_len: usize },
    GotoOutOfBounds { target: usize, pc: usize },
    GotoWOutOfBounds { target: usize, pc: usize },
    InvalidTarget { opcode: u8, target: usize },
    SwitchPastEnd { pc: usize },
    StackUnderflow { pc: usize, opcode: u8 },
}

/// The message reported for an issue.
pub open spec fn issue_text(i: Issue) -> Seq<char> {
    match i {
        Issue::UnknownOpcode { opcode, pc } => "Unknown opcode 0x"@ + hex2(opcode) + " at PC "@
            + decimal(pc as nat),
        Issue::PastEnd { pc, opcode } => "Instruction at PC "@ + decimal(pc as nat)
            + " (opcode 0x"@ + hex2(opcode) + ") extends past end of code"@,
        Issue::BranchOutOfBounds { target, pc, code_len } => "Branch target "@ + decimal(
            target as nat,
        ) + " at PC "@ + decimal(pc as nat) + " out of bounds (code length "@ + decimal(
            code_len as nat,
        ) + ")"@,
        Issue::GotoOutOfBounds { target, pc } => "Goto target "@ + decimal(target as nat)
            + " at PC "@ + decimal(pc as nat) + " out of bounds"@,
        Issue::GotoWOutOfBounds { target, pc } => "Goto_w target "@ + decimal(target as nat)
            + " at PC "@ + decimal(pc as nat) + " out of bounds"@,
        Issue::InvalidTarget { opcode, target } => "Invalid opcode 0x"@ + hex2(opcode)
            + " at branch target "@ + decimal(target as nat),
        Issue::SwitchPastEnd { pc } => "Switch table at PC "@ + decimal(pc as nat)
            + " extends past end of code"@,
        Issue::StackUnderflow { pc, opcode } => "Stack underflow at PC "@ + decimal(pc as nat)
            + " (opcode 0x"@ + hex2(opcode) + ")"@,
    }
}

/// Width in bytes (opcode included) of each instruction; `None` for unknown opcodes.
/// The two switch instructions count as one byte here.
pub open spec fn instruction_width(op: u8) -> Option<usize> {
    if op == 0xAA || op == 0xAB {
        Some(1)
    } else if op == 0xC4 {
        Some(4)
    } else if op <= 0x0F || (0x1A <= op <= 0x35) || (0x3B <= op <= 0x83) || (0xAC <= op <= 0xB1)
        || op == 0xBE || op == 0xBF || op == 0xC2 || op == 0xC3 {
        Some(1)
    } else if op == 0x10 || (0x15 <= op <= 0x19) || (0x36 <= op <= 0x3A) || op == 0xA9 || op
        == 0xBC || op == 0xC6 || op == 0xC7 {
        Some(2)
    } else if (0x11 <= op <= 0x14) || (0xB2 <= op <= 0xBB) || op == 0xBD || op == 0xC0 || op
        == 0xC1 || (0x99 <= op <= 0xA8) || op == 0x84 {
        Some(3)
    } else if op == 0xC8 || op == 0xC9 {
        Some(5)
    } else if op == 0xC5 {
        Some(4)
    } else {
        None
    }
}

/// Get the width of an instruction in bytes (including the opcode).
fn get_instruction_width(opcode: u8) -> (r: Option<usize>)
    ensures
        r == instruction_width(opcode),
{
    match opcode {
        0xAA | 0xAB => Some(1),
        0xC4 => Some(4),
        0x00..=0x0F | 0x1A..=0x35 | 0x3B..=0x83 | 0xAC..=0xB1 | 0xBE | 0xBF | 0xC2 | 0xC3 => Some(
            1,
        ),
        0x10 | 0x15..=0x19 | 0x36..=0x3A | 0xA9 | 0xBC | 0xC6 | 0xC7 => Some(2),
        0x11..=0x14 | 0xB2..=0xBB | 0xBD | 0xC0 | 0xC1 | 0x99..=0xA8 | 0x84 => Some(3),
        0xC8 | 0xC9 => Some(5),
        0xC5 => Some(4),
        _ => None,
    }
}

/// A big-endian signed 16-bit value.
pub open spec fn be_i16(b0: u8, b1: u8) -> i32 {
    let v = b0 as int * 256 + b1 as int;
    (if v >= 0x8000 {
        v - 0x10000
    } else {
        v
    }) as i32
}

/// A big-endian unsigned 32-bit value.
pub open spec fn be_u32(b0: u8, b1: u8, b2: u8, b3: u8) -> u32 {
    (b0 as int * 0x100_0000 + b1 as int * 0x1_0000 + b2 as int * 0x100 + b3 as int) as u32
}

/// A big-endian signed 32-bit value.
pub open spec fn be_i32(b0: u8, b1: u8, b2: u8, b3: u8) -> i32 {
    let v = be_u32(b0, b1, b2, b3) as int;
    (if v >= 0x8000_0000 {
        v - 0x1_0000_0000
    } else {
        v
    }) as i32
}

pub open spec fn i32_at(code: Seq<u8>, i: int) -> i32 {
    be_i32(code[i], code[i + 1], code[i + 2], code[i + 3])
}

/// A jump target: the program counter plus a signed offset in 32-bit arithmetic.
pub open spec fn branch_target(pc: int, off: i32) -> usize {
    ((pc as i32).wrapping_add(off)) as usize
}

/// The first multiple of four at or after `i`.
pub open spec fn align4(i: int) -> int {
    if i % 4 == 0 {
        i
    } else {
        i + (4 - i % 4)
    }
}

/// What one instruction contributes: issues and branch targets.
pub struct Step {
    pub issues: Seq<Issue>,
    pub targets: Set<int>,
}

pub open spec fn one_target(code_len: int, t: usize) -> Set<int> {
    if (t as int) < code_len {
        set![t as int]
    } else {
        Set::empty()
    }
}

/// The target named by entry `k` of a switch table starting at `base`.
pub open spec fn switch_entry(code: Seq<u8>, pc: int, base: int, stride: int, k: int) -> int {
    branch_target(pc, i32_at(code, base + k * stride)) as int
}

/// The in-range targets named by the first `n` entries of a switch table.
pub open spec fn table_targets(code: Seq<u8>, pc: int, base: int, stride: int, n: int) -> Set<int> {
    Set::new(
        |t: int|
            exists|k: int|
                0 <= k < n && t == #[trigger] switch_entry(code, pc, base, stride, k) && t
                    < code.len(),
    )
}

proof fn lemma_table_targets_step(code: Seq<u8>, pc: int, base: int, stride: int, n: int)
    requires
        n >= 0,
    ensures
        table_targets(code, pc, base, stride, n + 1) == table_targets(code, pc, base, stride, n).union(
            one_target(code.len() as int, branch_target(pc, i32_at(code, base + n * stride))),
        ),
{
    let a = table_targets(code, pc, base, stride, n + 1);
    let b = table_targets(code, pc, base, stride, n).union(
        one_target(code.len() as int, branch_target(pc, i32_at(code, base + n * stride))),
    );
    assert forall|t: int| a.contains(t) implies b.contains(t) by {
        let k = choose|k: int|
            0 <= k < n + 1 && t == #[trigger] switch_entry(code, pc, base, stride, k) && t
                < code.len();
        if k < n {
            assert(table_targets(code, pc, base, stride, n).contains(t));
        }
    }
    assert forall|t: int| b.contains(t) implies a.contains(t) by {
        if table_targets(code, pc, base, stride, n).contains(t) {
            let k = choose|k: int|
                0 <= k < n && t == #[trigger] switch_entry(code, pc, base, stride, k) && t
                    < code.len();
            assert(switch_entry(code, pc, base, stride, k) == t);
        } else {
            assert(switch_entry(code, pc, base, stride, n) == t);
        }
    }
    assert(a =~= b);
}

pub open spec fn table_count(code: Seq<u8>, off: int) -> usize {
    (i32_at(code, off + 8).wrapping_sub(i32_at(code, off + 4)).wrapping_add(1)) as usize
}

pub open spec fn tableswitch_step(code: Seq<u8>, pc: int) -> Step {
    let off = align4(pc + 1);
    let len = code.len() as int;
    if off + 12 < len {
        let n = table_count(code, off);
        let def = branch_target(pc, i32_at(code, off));
        if n == 0 || off + 12 + 4 * n <= len {
            Step { issues: seq![], targets: one_target(len, def).union(table_targets(code, pc, off + 12, 4, n as int)) }
        } else {
            Step { issues: seq![Issue::SwitchPastEnd { pc: pc as usize }], targets: one_target(len, def) }
        }
    } else {
        Step { issues: seq![], targets: Set::empty() }
    }
}

pub open spec fn lookupswitch_step(code: Seq<u8>, pc: int) -> Step {
    let off = align4(pc + 1);
    let len = code.len() as int;
    if off + 8 < len {
        let n = be_u32(code[off + 4], code[off + 5], code[off + 6], code[off + 7]) as int;
        let def = branch_target(pc, i32_at(code, off));
        if n == 0 || off + 8 + 8 * n <= len {
            Step { issues: seq![], targets: one_target(len, def).union(table_targets(code, pc, off + 12, 8, n)) }
        } else {
            Step { issues: seq![Issue::SwitchPastEnd { pc: pc as usize }], targets: one_target(len, def) }
        }
    } else {
        Step { issues: seq![], targets: Set::empty() }
    }
}

/// Issues and targets of the instruction at `pc`, whose width `w` fits in the code.
pub open spec fn branch_step(code: Seq<u8>, pc: int, w: int) -> Step {
    let op = code[pc];
    let len = code.len() as int;
    if (0x99 <= op <= 0xA6) || op == 0xC6 || op == 0xC7 {
        if pc + 2 < len {
            let t = branch_target(pc, be_i16(code[pc + 1], code[pc + 2]));
            if (t as int) < len {
                Step { issues: seq![], targets: set![t as int, pc + w] }
            } else {
                Step {
                    issues: seq![
                        Issue::BranchOutOfBounds {
                            target: t,
                            pc: pc as usize,
                            code_len: len as usize,
                        },
                    ],
                    targets: set![pc + w],
                }
            }
        } else {
            Step { issues: seq![], targets: set![pc + w] }
        }
    } else if op == 0xA7 {
        if pc + 2 < len {
            let t = branch_target(pc, be_i16(code[pc + 1], code[pc + 2]));
            if (t as int) < len {
                Step { issues: seq![], targets: set![t as int] }
            } else {
                Step {
                    issues: seq![Issue::GotoOutOfBounds { target: t, pc: pc as usize }],
                    targets: Set::empty(),
                }
            }
        } else {
            Step { issues: seq![], targets: Set::empty() }
        }
    } else if op == 0xC8 {
        if pc + 4 < len {
            let t = branch_target(pc, i32_at(code, pc + 1));
            if (t as int) < len {
                Step { issues: seq![], targets: set![t as int] }
            } else {
                Step {
                    issues: seq![Issue::GotoWOutOfBounds { target: t, pc: pc as usize }],
                    targets: Set::empty(),
                }
            }
        } else {
            Step { issues: seq![], targets: Set::empty() }
        }
    } else if op == 0xAA {
        tableswitch_step(code, pc)
    } else if op == 0xAB {
        lookupswitch_step(code, pc)
    } else if op == 0xA8 || op == 0xC9 {
        let off: i32 = if op == 0xA8 {
            if pc + 2 < len {
                be_i16(code[pc + 1], code[pc + 2])
            } else {
                0
            }
        } else {
            if pc + 4 < len {
                i32_at(code, pc + 1)
            } else {
                0
            }
        };
        Step {
            issues: seq![],
            targets: one_target(len, branch_target(pc, off)).insert(pc + w),
        }
    } else {
        Step { issues: seq![], targets: set![pc + w] }
    }
}

/// The first pass over the code from `pc` on: the issues found in order and the
/// branch targets collected.
pub open spec fn scan(code: Seq<u8>, pc: int) -> (Seq<Issue>, Set<int>)
    decreases code.len() - pc,
{
    if pc < 0 || pc >= code.len() {
        (seq![], Set::empty())
    } else {
        let op = code[pc];
        match instruction_width(op) {
            None => {
                let r = scan(code, pc + 1);
                (seq![Issue::UnknownOpcode { opcode: op, pc: pc as usize }] + r.0, r.1)
            },
            Some(w) => {
                if pc + w > code.len() {
                    (seq![Issue::PastEnd { pc: pc as usize, opcode: op }], Set::empty())
                } else if w == 0 {
                    (seq![], Set::empty())
                } else {
                    let s = branch_step(code, pc, w as int);
                    let r = scan(code, pc + w);
                    (s.issues + r.0, s.targets.union(r.1))
                }
            },
        }
    }
}

/// The operand-stack slots (a `long` or `double` takes two) that the instruction
/// `op` pops and pushes, when the opcode alone fixes them; `dims` is the dimension
/// count of a `multianewarray`. The instructions that read the constant pool, the
/// switches and `wide` have no fixed effect here.
pub open spec fn stack_effect(op: u8, dims: u8) -> Option<(u8, u8)> {
    if op == 0x00 {
        Some((0u8, 0u8))
    } else if 0x01 <= op && op <= 0x08 {
        Some((0u8, 1u8))
    } else if 0x09 <= op && op <= 0x0A {
        Some((0u8, 2u8))
    } else if 0x0B <= op && op <= 0x0D {
        Some((0u8, 1u8))
    } else if 0x0E <= op && op <= 0x0F {
        Some((0u8, 2u8))
    } else if 0x10 <= op && op <= 0x13 {
        Some((0u8, 1u8))
    } else if op == 0x14 {
        Some((0u8, 2u8))
    } else if op == 0x15 {
        Some((0u8, 1u8))
    } else if op == 0x16 {
        Some((0u8, 2u8))
    } else if op == 0x17 {
        Some((0u8, 1u8))
    } else if op == 0x18 {
        Some((0u8, 2u8))
    } else if 0x19 <= op && op <= 0x1D {
        Some((0u8, 1u8))
    } else if 0x1E <= op && op <= 0x21 {
        Some((0u8, 2u8))
    } else if 0x22 <= op && op <= 0x25 {
        Some((0u8, 1u8))
    } else if 0x26 <= op && op <= 0x29 {
        Some((0u8, 2u8))
    } else if 0x2A <= op && op <= 0x2D {
        Some((0u8, 1u8))
    } else if op == 0x2E {
        Some((2u8, 1u8))
    } else if op == 0x2F {
        Some((2u8, 2u8))
    } else if op == 0x30 {
        Some((2u8, 1u8))
    } else if op == 0x31 {
        Some((2u8, 2u8))
    } else if 0x32 <= op && op <= 0x35 {
        Some((2u8, 1u8))
    } else if op == 0x36 {
        Some((1u8, 0u8))
    } else if op == 0x37 {
        Some((2u8, 0u8))
    } else if op == 0x38 {
        Some((1u8, 0u8))
    } else if op == 0x39 {
        Some((2u8, 0u8))
    } else if 0x3A <= op && op <= 0x3E {
        Some((1u8, 0u8))
    } else if 0x3F <= op && op <= 0x42 {
        Some((2u8, 0u8))
    } else if 0x43 <= op && op <= 0x46 {
        Some((1u8, 0u8))
    } else if 0x47 <= op && op <= 0x4A {
        Some((2u8, 0u8))
    } else if 0x4B <= op && op <= 0x4E {
        Some((1u8, 0u8))
    } else if op == 0x4F {
        Some((3u8, 0u8))
    } else if op == 0x50 {
        Some((4u8, 0u8))
    } else if op == 0x51 {
        Some((3u8, 0u8))
    } else if op == 0x52 {
        Some((4u8, 0u8))
    } else if 0x53 <= op && op <= 0x56 {
        Some((3u8, 0u8))
    } else if op == 0x57 {
        Some((1u8, 0u8))
    } else if op == 0x58 {
        Some((2u8, 0u8))
    } else if op == 0x59 {
        Some((1u8, 2u8))
    } else if op == 0x5A {
        Some((2u8, 3u8))
    } else if op == 0x5B {
        Some((3u8, 4u8))
    } else if op == 0x5C {
        Some((2u8, 4u8))
    } else if op == 0x5D {
        Some((3u8, 5u8))
    } else if op == 0x5E {
        Some((4u8, 6u8))
    } else if op == 0x5F {
        Some((2u8, 2u8))
    } else if op == 0x60 {
        Some((2u8, 1u8))
    } else if op == 0x61 {
        Some((4u8, 2u8))
    } else if op == 0x62 {
        Some((2u8, 1u8))
    } else if op == 0x63 {
        Some((4u8, 2u8))
    } else if op == 0x64 {
        Some((2u8, 1u8))
    } else if op == 0x65 {
        Some((4u8, 2u8))
    } else if op == 0x66 {
        Some((2u8, 1u8))
    } else if op == 0x67 {
        Some((4u8, 2u8))
    } else if op == 0x68 {
        Some((2u8, 1u8))
    } else if op == 0x69 {
        Some((4u8, 2u8))
    } else if op == 0x6A {
        Some((2u8, 1u8))
    } else if op == 0x6B {
        Some((4u8, 2u8))
    } else if op == 0x6C {
        Some((2u8, 1u8))
    } else if op == 0x6D {
        Some((4u8, 2u8))
    } else if op == 0x6E {
        Some((2u8, 1u8))
    } else if op == 0x6F {
        Some((4u8, 2u8))
    } else if op == 0x70 {
        Some((2u8, 1u8))
    } else if op == 0x71 {
        Some((4u8, 2u8))
    } else if op == 0x72 {
        Some((2u8, 1u8))
    } else if op == 0x73 {
        Some((4u8, 2u8))
    } else if op == 0x74 {
        Some((1u8, 1u8))
    } else if op == 0x75 {
        Some((2u8, 2u8))
    } else if op == 0x76 {
        Some((1u8, 1u8))
    } else if op == 0x77 {
        Some((2u8, 2u8))
    } else if op == 0x78 {
        Some((2u8, 1u8))
    } else if op == 0x79 {
        Some((3u8, 2u8))
    } else if op == 0x7A {
        Some((2u8, 1u8))
    } else if op == 0x7B {
        Some((3u8, 2u8))
    } else if op == 0x7C {
        Some((2u8, 1u8))
    } else if op == 0x7D {
        Some((3u8, 2u8))
    } else if op == 0x7E {
        Some((2u8, 1u8))
    } else if op == 0x7F {
        Some((4u8, 2u8))
    } else if op == 0x80 {
        Some((2u8, 1u8))
    } else if op == 0x81 {
        Some((4u8, 2u8))
    } else if op == 0x82 {
        Some((2u8, 1u8))
    } else if op == 0x83 {
        Some((4u8, 2u8))
    } else if op == 0x84 {
        Some((0u8, 0u8))
    } else if op == 0x85 {
        Some((1u8, 2u8))
    } else if op == 0x86 {
        Some((1u8, 1u8))
    } else if op == 0x87 {
        Some((1u8, 2u8))
    } else if 0x88 <= op && op <= 0x89 {
        Some((2u8, 1u8))
    } else if op == 0x8A {
        Some((2u8, 2u8))
    } else if op == 0x8B {
        Some((1u8, 1u8))
    } else if 0x8C <= op && op <= 0x8D {
        Some((1u8, 2u8))
    } else if op == 0x8E {
        Some((2u8, 1u8))
    } else if op == 0x8F {
        Some((2u8, 2u8))
    } else if op == 0x90 {
        Some((2u8, 1u8))
    } else if 0x91 <= op && op <= 0x93 {
        Some((1u8, 1u8))
    } else if op == 0x94 {
        Some((4u8, 1u8))
    } else if 0x95 <= op && op <= 0x96 {
        Some((2u8, 1u8))
    } else if 0x97 <= op && op <= 0x98 {
        Some((4u8, 1u8))
    } else if 0x99 <= op && op <= 0x9E {
        Some((1u8, 0u8))
    } else if 0x9F <= op && op <= 0xA6 {
        Some((2u8, 0u8))
    } else if op == 0xA7 {
        Some((0u8, 0u8))
    } else if op == 0xA8 {
        Some((0u8, 1u8))
    } else if op == 0xA9 {
        Some((0u8, 0u8))
    } else if op == 0xAC {
        Some((1u8, 0u8))
    } else if op == 0xAD {
        Some((2u8, 0u8))
    } else if op == 0xAE {
        Some((1u8, 0u8))
    } else if op == 0xAF {
        Some((2u8, 0u8))
    } else if op == 0xB0 {
        Some((1u8, 0u8))
    } else if op == 0xB1 {
        Some((0u8, 0u8))
    } else if op == 0xBB {
        Some((0u8, 1u8))
    } else if 0xBC <= op && op <= 0xBE {
        Some((1u8, 1u8))
    } else if op == 0xBF {
        Some((1u8, 0u8))
    } else if 0xC0 <= op && op <= 0xC1 {
        Some((1u8, 1u8))
    } else if 0xC2 <= op && op <= 0xC3 {
        Some((1u8, 0u8))
    } else if 0xC6 <= op && op <= 0xC7 {
        Some((1u8, 0u8))
    } else if op == 0xC8 {
        Some((0u8, 0u8))
    } else if op == 0xC9 {
        Some((0u8, 1u8))
    } else if op == 0xC5 {
        Some((dims, 1u8))
    } else {
        None
    }
}

fn stack_effect_exec(op: u8, dims: u8) -> (r: Option<(u8, u8)>)
    ensures
        r == stack_effect(op, dims),
{
    if op == 0x00 {
        Some((0u8, 0u8))
    } else if 0x01 <= op && op <= 0x08 {
        Some((0u8, 1u8))
    } else if 0x09 <= op && op <= 0x0A {
        Some((0u8, 2u8))
    } else if 0x0B <= op && op <= 0x0D {
        Some((0u8, 1u8))
    } else if 0x0E <= op && op <= 0x0F {
        Some((0u8, 2u8))
    } else if 0x10 <= op && op <= 0x13 {
        Some((0u8, 1u8))
    } else if op == 0x14 {
        Some((0u8, 2u8))
    } else if op == 0x15 {
        Some((0u8, 1u8))
    } else if op == 0x16 {
        Some((0u8, 2u8))
    } else if op == 0x17 {
        Some((0u8, 1u8))
    } else if op == 0x18 {
        Some((0u8, 2u8))
    } else if 0x19 <= op && op <= 0x1D {
        Some((0u8, 1u8))
    } else if 0x1E <= op && op <= 0x21 {
        Some((0u8, 2u8))
    } else if 0x22 <= op && op <= 0x25 {
        Some((0u8, 1u8))
    } else if 0x26 <= op && op <= 0x29 {
        Some((0u8, 2u8))
    } else if 0x2A <= op && op <= 0x2D {
        Some((0u8, 1u8))
    } else if op == 0x2E {
        Some((2u8, 1u8))
    } else if op == 0x2F {
        Some((2u8, 2u8))
    } else if op == 0x30 {
        Some((2u8, 1u8))
    } else if op == 0x31 {
        Some((2u8, 2u8))
    } else if 0x32 <= op && op <= 0x35 {
        Some((2u8, 1u8))
    } else if op == 0x36 {
        Some((1u8, 0u8))
    } else if op == 0x37 {
        Some((2u8, 0u8))
    } else if op == 0x38 {
        Some((1u8, 0u8))
    } else if op == 0x39 {
        Some((2u8, 0u8))
    } else if 0x3A <= op && op <= 0x3E {
        Some((1u8, 0u8))
    } else if 0x3F <= op && op <= 0x42 {
        Some((2u8, 0u8))
    } else if 0x43 <= op && op <= 0x46 {
        Some((1u8, 0u8))
    } else if 0x47 <= op && op <= 0x4A {
        Some((2u8, 0u8))
    } else if 0x4B <= op && op <= 0x4E {
        Some((1u8, 0u8))
    } else if op == 0x4F {
        Some((3u8, 0u8))
    } else if op == 0x50 {
        Some((4u8, 0u8))
    } else if op == 0x51 {
        Some((3u8, 0u8))
    } else if op == 0x52 {
        Some((4u8, 0u8))
    } else if 0x53 <= op && op <= 0x56 {
        Some((3u8, 0u8))
    } else if op == 0x57 {
        Some((1u8, 0u8))
    } else if op == 0x58 {
        Some((2u8, 0u8))
    } else if op == 0x59 {
        Some((1u8, 2u8))
    } else if op == 0x5A {
        Some((2u8, 3u8))
    } else if op == 0x5B {
        Some((3u8, 4u8))
    } else if op == 0x5C {
        Some((2u8, 4u8))
    } else if op == 0x5D {
        Some((3u8, 5u8))
    } else if op == 0x5E {
        Some((4u8, 6u8))
    } else if op == 0x5F {
        Some((2u8, 2u8))
    } else if op == 0x60 {
        Some((2u8, 1u8))
    } else if op == 0x61 {
        Some((4u8, 2u8))
    } else if op == 0x62 {
        Some((2u8, 1u8))
    } else if op == 0x63 {
        Some((4u8, 2u8))
    } else if op == 0x64 {
        Some((2u8, 1u8))
    } else if op == 0x65 {
        Some((4u8, 2u8))
    } else if op == 0x66 {
        Some((2u8, 1u8))
    } else if op == 0x67 {
        Some((4u8, 2u8))
    } else if op == 0x68 {
        Some((2u8, 1u8))
    } else if op == 0x69 {
        Some((4u8, 2u8))
    } else if op == 0x6A {
        Some((2u8, 1u8))
    } else if op == 0x6B {
        Some((4u8, 2u8))
    } else if op == 0x6C {
        Some((2u8, 1u8))
    } else if op == 0x6D {
        Some((4u8, 2u8))
    } else if op == 0x6E {
        Some((2u8, 1u8))
    } else if op == 0x6F {
        Some((4u8, 2u8))
    } else if op == 0x70 {
        Some((2u8, 1u8))
    } else if op == 0x71 {
        Some((4u8, 2u8))
    } else if op == 0x72 {
        Some((2u8, 1u8))
    } else if op == 0x73 {
        Some((4u8, 2u8))
    } else if op == 0x74 {
        Some((1u8, 1u8))
    } else if op == 0x75 {
        Some((2u8, 2u8))
    } else if op == 0x76 {
        Some((1u8, 1u8))
    } else if op == 0x77 {
        Some((2u8, 2u8))
    } else if op == 0x78 {
        Some((2u8, 1u8))
    } else if op == 0x79 {
        Some((3u8, 2u8))
    } else if op == 0x7A {
        Some((2u8, 1u8))
    } else if op == 0x7B {
        Some((3u8, 2u8))
    } else if op == 0x7C {
        Some((2u8, 1u8))
    } else if op == 0x7D {
        Some((3u8, 2u8))
    } else if op == 0x7E {
        Some((2u8, 1u8))
    } else if op == 0x7F {
        Some((4u8, 2u8))
    } else if op == 0x80 {
        Some((2u8, 1u8))
    } else if op == 0x81 {
        Some((4u8, 2u8))
    } else if op == 0x82 {
        Some((2u8, 1u8))
    } else if op == 0x83 {
        Some((4u8, 2u8))
    } else if op == 0x84 {
        Some((0u8, 0u8))
    } else if op == 0x85 {
        Some((1u8, 2u8))
    } else if op == 0x86 {
        Some((1u8, 1u8))
    } else if op == 0x87 {
        Some((1u8, 2u8))
    } else if 0x88 <= op && op <= 0x89 {
        Some((2u8, 1u8))
    } else if op == 0x8A {
        Some((2u8, 2u8))
    } else if op == 0x8B {
        Some((1u8, 1u8))
    } else if 0x8C <= op && op <= 0x8D {
        Some((1u8, 2u8))
    } else if op == 0x8E {
        Some((2u8, 1u8))
    } else if op == 0x8F {
        Some((2u8, 2u8))
    } else if op == 0x90 {
        Some((2u8, 1u8))
    } else if 0x91 <= op && op <= 0x93 {
        Some((1u8, 1u8))
    } else if op == 0x94 {
        Some((4u8, 1u8))
    } else if 0x95 <= op && op <= 0x96 {
        Some((2u8, 1u8))
    } else if 0x97 <= op && op <= 0x98 {
        Some((4u8, 1u8))
    } else if 0x99 <= op && op <= 0x9E {
        Some((1u8, 0u8))
    } else if 0x9F <= op && op <= 0xA6 {
        Some((2u8, 0u8))
    } else if op == 0xA7 {
        Some((0u8, 0u8))
    } else if op == 0xA8 {
        Some((0u8, 1u8))
    } else if op == 0xA9 {
        Some((0u8, 0u8))
    } else if op == 0xAC {
        Some((1u8, 0u8))
    } else if op == 0xAD {
        Some((2u8, 0u8))
    } else if op == 0xAE {
        Some((1u8, 0u8))
    } else if op == 0xAF {
        Some((2u8, 0u8))
    } else if op == 0xB0 {
        Some((1u8, 0u8))
    } else if op == 0xB1 {
        Some((0u8, 0u8))
    } else if op == 0xBB {
        Some((0u8, 1u8))
    } else if 0xBC <= op && op <= 0xBE {
        Some((1u8, 1u8))
    } else if op == 0xBF {
        Some((1u8, 0u8))
    } else if 0xC0 <= op && op <= 0xC1 {
        Some((1u8, 1u8))
    } else if 0xC2 <= op && op <= 0xC3 {
        Some((1u8, 0u8))
    } else if 0xC6 <= op && op <= 0xC7 {
        Some((1u8, 0u8))
    } else if op == 0xC8 {
        Some((0u8, 0u8))
    } else if op == 0xC9 {
        Some((0u8, 1u8))
    } else if op == 0xC5 {
        Some((dims, 1u8))
    } else {
        None
    }
}

/// Whether control never falls through from `op` to the next instruction in code
/// order (jumps, returns, `ret`, `athrow`).
pub open spec fn ends_flow(op: u8) -> bool {
    op == 0xA7 || op == 0xC8 || op == 0xA9 || (0xAC <= op && op <= 0xB1) || op == 0xBF
}

/// The stack underflows of the walk in code order from `pc` with `depth` slots on
/// the operand stack: each instruction that pops more slots than there are is
/// reported (the depth then counts only what it pushes). The walk stops at an
/// unknown opcode, at an instruction that runs past the end or has no fixed effect,
/// and after one that never falls through: from there the depth is not known.
pub open spec fn depth_issues(code: Seq<u8>, pc: int, depth: nat) -> Seq<Issue>
    decreases code.len() - pc,
{
    if pc < 0 || pc >= code.len() {
        seq![]
    } else {
        let op = code[pc];
        match instruction_width(op) {
            None => seq![],
            Some(w) => if w == 0 || pc + w > code.len() {
                seq![]
            } else {
                let dims = if op == 0xC5 {
                    code[pc + 3]
                } else {
                    0u8
                };
                match stack_effect(op, dims) {
                    None => seq![],
                    Some((p, q)) => {
                        let here = if depth < p {
                            seq![Issue::StackUnderflow { pc: pc as usize, opcode: op }]
                        } else {
                            Seq::<Issue>::empty()
                        };
                        let next: nat = if depth < p {
                            q as nat
                        } else {
                            (depth - p + q) as nat
                        };
                        here + (if ends_flow(op) {
                            Seq::<Issue>::empty()
                        } else {
                            depth_issues(code, pc + w, next)
                        })
                    },
                }
            },
        }
    }
}

/// Appends the stack underflows of the walk from the start of the code with an
/// empty operand stack.
fn push_depth_issues(code: &[u8], issues: &mut Vec<Issue>)
    requires
        code@.len() <= isize::MAX,
    ensures
        final(issues)@ == old(issues)@ + depth_issues(code@, 0, 0),
{
    let code_len = code.len();
    let mut pc: usize = 0;
    let mut depth: u128 = 0;
    let mut go = true;
    assert(old(issues)@ + depth_issues(code@, 0, 0) =~= issues@ + depth_issues(code@, 0, 0));
    while go && pc < code_len
        invariant
            pc <= code_len,
            code_len == code@.len(),
            code_len <= isize::MAX,
            depth <= 6 * pc,
            old(issues)@ + depth_issues(code@, 0, 0) == issues@ + (if go {
                depth_issues(code@, pc as int, depth as nat)
            } else {
                Seq::<Issue>::empty()
            }),
        decreases code_len - pc + (if go {
            1int
        } else {
            0int
        }),
    {
        let op = code[pc];
        let ghost before = issues@;
        let ghost rest = depth_issues(code@, pc as int, depth as nat);
        match get_instruction_width(op) {
            None => {
                go = false;
                assert(issues@ + Seq::<Issue>::empty() =~= before + rest);
            },
            Some(w) => {
                if w == 0 || pc + w > code_len {
                    go = false;
                    assert(issues@ + Seq::<Issue>::empty() =~= before + rest);
                } else {
                    let dims: u8 = if op == 0xC5 {
                        code[pc + 3]
                    } else {
                        0
                    };
                    match stack_effect_exec(op, dims) {
                        None => {
                            go = false;
                            assert(issues@ + Seq::<Issue>::empty() =~= before + rest);
                        },
                        Some((p, q)) => {
                            let ghost d0 = depth as nat;
                            if depth < p as u128 {
                                issues.push(Issue::StackUnderflow { pc: pc, opcode: op });
                                depth = q as u128;
                            } else {
                                depth = depth - p as u128 + q as u128;
                            }
                            let stop = op == 0xA7 || op == 0xC8 || op == 0xA9 || (0xAC <= op && op <= 0xB1) || op == 0xBF;
                            if stop {
                                go = false;
                                assert(issues@ + Seq::<Issue>::empty() =~= before + rest);
                            } else {
                                assert(issues@ + depth_issues(code@, (pc + w) as int, depth as nat) =~= before + rest);
                            }
                            pc += w;
                        },
                    }
                }
            },
        }
    }
    if go {
        assert(depth_issues(code@, pc as int, depth as nat) =~= Seq::<Issue>::empty());
    }
    assert(issues@ =~= old(issues)@ + depth_issues(code@, 0, 0));
}

/// Targets below `upto`, in ascending order, whose opcode is unknown.
pub open spec fn invalid_target_issues(code: Seq<u8>, targets: Set<int>, upto: int) -> Seq<Issue>
    decreases upto,
{
    if upto <= 0 {
        seq![]
    } else {
        let prev = invalid_target_issues(code, targets, upto - 1);
        let t = upto - 1;
        if targets.contains(t) && t < code.len() && instruction_width(code[t]) is None {
            prev.push(Issue::InvalidTarget { opcode: code[t], target: t as usize })
        } else {
            prev
        }
    }
}

/// All branch targets: the entry point and those the first pass collects.
pub open spec fn all_targets(code: Seq<u8>) -> Set<int> {
    scan(code, 0).1.insert(0)
}

/// Every issue reported for a code array, in order: the structural ones (opcodes,
/// widths, branch targets); for structurally sound code, the stack underflows.
pub open spec fn method_code_issues(code: Seq<u8>) -> Seq<Issue> {
    let structural = scan(code, 0).0 + invalid_target_issues(code, all_targets(code), code.len() as int);
    if structural.len() == 0 {
        depth_issues(code, 0, 0)
    } else {
        structural
    }
}

/// The positions marked true.
pub open spec fn marked(m: Seq<bool>) -> Set<int> {
    Set::new(|t: int| 0 <= t < m.len() && m[t])
}

fn mark(marks: &mut Vec<bool>, t: usize)
    requires
        t < old(marks)@.len(),
    ensures
        final(marks)@.len() == old(marks)@.len(),
        marked(final(marks)@) == marked(old(marks)@).insert(t as int),
{
    marks.set(t, true);
    assert(marked(marks@) =~= marked(old(marks)@).insert(t as int));
}

fn mark_if_inside(marks: &mut Vec<bool>, t: usize, code_len: usize)
    requires
        old(marks)@.len() == code_len + 1,
    ensures
        final(marks)@.len() == old(marks)@.len(),
        marked(final(marks)@) == marked(old(marks)@).union(one_target(code_len as int, t)),
{
    if t < code_len {
        mark(marks, t);
        assert(marked(marks@) =~= marked(old(marks)@).union(one_target(code_len as int, t)));
    } else {
        assert(marked(marks@) =~= marked(old(marks)@).union(one_target(code_len as int, t)));
    }
}

fn read_i16(code: &[u8], i: usize) -> (r: i32)
    requires
        i + 1 < code@.len(),
    ensures
        r == be_i16(code@[i as int], code@[i + 1]),
{
    let v: i32 = (code[i] as i32) * 256 + (code[i + 1] as i32);
    if v >= 0x8000 {
        v - 0x10000
    } else {
        v
    }
}

fn read_u32(code: &[u8], i: usize) -> (r: u32)
    requires
        i + 3 < code@.len(),
    ensures
        r == be_u32(code@[i as int], code@[i + 1], code@[i + 2], code@[i + 3]),
{
    (code[i] as u32) * 0x100_0000 + (code[i + 1] as u32) * 0x1_0000 + (code[i + 2] as u32) * 0x100
        + (code[i + 3] as u32)
}

fn read_i32(code: &[u8], i: usize) -> (r: i32)
    requires
        i + 3 < code@.len(),
    ensures
        r == i32_at(code@, i as int),
{
    let v = read_u32(code, i);
    if v >= 0x8000_0000 {
        ((v as i64) - 0x1_0000_0000i64) as i32
    } else {
        v as i32
    }
}

fn target_of(pc: usize, off: i32) -> (t: usize)
    ensures
        t == branch_target(pc as int, off),
{
    ((pc as i32).wrapping_add(off)) as usize
}

/// Marks the targets of the jump table with `n` entries at `base`, `stride` bytes apart.
fn mark_table(code: &[u8], pc: usize, base: usize, stride: usize, n: usize, marks: &mut Vec<bool>)
    requires
        old(marks)@.len() == code@.len() + 1,
        stride == 4 || stride == 8,
        n == 0 || base + (n - 1) * stride + 4 <= code@.len(),
        code@.len() <= isize::MAX,
    ensures
        final(marks)@.len() == old(marks)@.len(),
        marked(final(marks)@) == marked(old(marks)@).union(
            table_targets(code@, pc as int, base as int, stride as int, n as int),
        ),
{
    let code_len = code.len();
    let mut i: usize = 0;
    assert(table_targets(code@, pc as int, base as int, stride as int, 0) =~= Set::empty());
    assert(marked(marks@) =~= marked(old(marks)@).union(
        table_targets(code@, pc as int, base as int, stride as int, 0),
    ));
    while i < n
        invariant
            i <= n,
            marks@.len() == code_len + 1,
            code_len == code@.len(),
            stride == 4 || stride == 8,
            n == 0 || base + (n - 1) * stride + 4 <= code_len,
            code_len <= isize::MAX,
            marked(marks@) == marked(old(marks)@).union(
                table_targets(code@, pc as int, base as int, stride as int, i as int),
            ),
        decreases n - i,
    {
        assert(i * stride <= (n - 1) * stride) by (nonlinear_arith)
            requires
                i < n,
                stride >= 0,
        ;
        let at = base + i * stride;
        let t = target_of(pc, read_i32(code, at));
        mark_if_inside(marks, t, code_len);
        proof {
            lemma_table_targets_step(code@, pc as int, base as int, stride as int, i as int);
            assert(marked(marks@) =~= marked(old(marks)@).union(
                table_targets(code@, pc as int, base as int, stride as int, i + 1),
            ));
        }
        i += 1;
    }
}

fn collect_tableswitch(code: &[u8], pc: usize, marks: &mut Vec<bool>, issues: &mut Vec<Issue>)
    requires
        pc < code@.len(),
        old(marks)@.len() == code@.len() + 1,
        code@.len() <= isize::MAX,
    ensures
        final(marks)@.len() == old(marks)@.len(),
        final(issues)@ == old(issues)@ + tableswitch_step(code@, pc as int).issues,
        marked(final(marks)@) == marked(old(marks)@).union(tableswitch_step(code@, pc as int).targets),
{
    let code_len = code.len();
    let ghost step = tableswitch_step(code@, pc as int);
        let offset = if (pc + 1) % 4 == 0 {
            pc + 1
        } else {
            pc + 1 + (4 - (pc + 1) % 4)
        };
        if offset + 12 < code_len {
            let default = read_i32(code, offset);
            let low = read_i32(code, offset + 4);
            let high = read_i32(code, offset + 8);
            let n = #[verifier::truncate] ((high.wrapping_sub(low).wrapping_add(1)) as usize);
            mark_if_inside(marks, target_of(pc, default), code_len);
            let room = code_len - (offset + 12);
            if n == 0 || n <= room / 4 {
                assert(n == 0 || offset + 12 + 4 * n <= code_len) by (nonlinear_arith)
                    requires
                        n == 0 || n <= room / 4,
                        room == code_len - (offset + 12),
                        offset + 12 < code_len,
                ;
                mark_table(code, pc, offset + 12, 4, n, marks);
            } else {
                assert(!(offset + 12 + 4 * n <= code_len)) by (nonlinear_arith)
                    requires
                        n > room / 4,
                        room == code_len - (offset + 12),
                        offset + 12 < code_len,
                ;
                issues.push(Issue::SwitchPastEnd { pc: pc });
            }
            assert(marked(marks@) =~= marked(old(marks)@).union(step.targets));
        } else {
            assert(marked(marks@) =~= marked(old(marks)@).union(step.targets));
        }
        assert(issues@ =~= old(issues)@ + step.issues);
}

fn collect_lookupswitch(code: &[u8], pc: usize, marks: &mut Vec<bool>, issues: &mut Vec<Issue>)
    requires
        pc < code@.len(),
        old(marks)@.len() == code@.len() + 1,
        code@.len() <= isize::MAX,
    ensures
        final(marks)@.len() == old(marks)@.len(),
        final(issues)@ == old(issues)@ + lookupswitch_step(code@, pc as int).issues,
        marked(final(marks)@) == marked(old(marks)@).union(lookupswitch_step(code@, pc as int).targets),
{
    let code_len = code.len();
    let ghost step = lookupswitch_step(code@, pc as int);
        let offset = if (pc + 1) % 4 == 0 {
            pc + 1
        } else {
            pc + 1 + (4 - (pc + 1) % 4)
        };
        if offset + 8 < code_len {
            let default = read_i32(code, offset);
            let npairs = read_u32(code, offset + 4);
            let n = npairs as usize;
            mark_if_inside(marks, target_of(pc, default), code_len);
            let room = code_len - (offset + 8);
            if n == 0 || n <= room / 8 {
                assert(n == 0 || (offset + 12) + (n - 1) * 8 + 4 <= code_len) by (nonlinear_arith)
                    requires
                        n == 0 || n <= room / 8,
                        room == code_len - (offset + 8),
                        offset + 8 < code_len,
                ;
                mark_table(code, pc, offset + 12, 8, n, marks);
            } else {
                assert(!(offset + 8 + 8 * n <= code_len)) by (nonlinear_arith)
                    requires
                        n > room / 8,
                        room == code_len - (offset + 8),
                        offset + 8 < code_len,
                ;
                issues.push(Issue::SwitchPastEnd { pc: pc });
            }
            assert(marked(marks@) =~= marked(old(marks)@).union(step.targets));
        } else {
            assert(marked(marks@) =~= marked(old(marks)@).union(step.targets));
        }
        assert(issues@ =~= old(issues)@ + step.issues);
}

/// Collects the targets of the instruction at `pc` (of width `w`) and its issues.
fn collect_branches(
    code: &[u8],
    pc: usize,
    w: usize,
    marks: &mut Vec<bool>,
    issues: &mut Vec<Issue>,
)
    requires
        1 <= w,
        pc + w <= code@.len(),
        old(marks)@.len() == code@.len() + 1,
        code@.len() <= isize::MAX,
    ensures
        final(marks)@.len() == old(marks)@.len(),
        final(issues)@ == old(issues)@ + branch_step(code@, pc as int, w as int).issues,
        marked(final(marks)@) == marked(old(marks)@).union(
            branch_step(code@, pc as int, w as int).targets,
        ),
{
    let code_len = code.len();
    let opcode = code[pc];
    let ghost step = branch_step(code@, pc as int, w as int);
    if (0x99 <= opcode && opcode <= 0xA6) || opcode == 0xC6 || opcode == 0xC7 {
        if pc + 2 < code_len {
            let target = target_of(pc, read_i16(code, pc + 1));
            if target < code_len {
                mark(marks, target);
            } else {
                issues.push(
                    Issue::BranchOutOfBounds { target: target, pc: pc, code_len: code_len },
                );
            }
        }
        mark(marks, pc + w);
        assert(marked(marks@) =~= marked(old(marks)@).union(step.targets));
        assert(issues@ =~= old(issues)@ + step.issues);
    } else if opcode == 0xA7 {
        if pc + 2 < code_len {
            let target = target_of(pc, read_i16(code, pc + 1));
            if target < code_len {
                mark(marks, target);
            } else {
                issues.push(Issue::GotoOutOfBounds { target: target, pc: pc });
            }
        }
        assert(marked(marks@) =~= marked(old(marks)@).union(step.targets));
        assert(issues@ =~= old(issues)@ + step.issues);
    } else if opcode == 0xC8 {
        if pc + 4 < code_len {
            let target = target_of(pc, read_i32(code, pc + 1));
            if target < code_len {
                mark(marks, target);
            } else {
                issues.push(Issue::GotoWOutOfBounds { target: target, pc: pc });
            }
        }
        assert(marked(marks@) =~= marked(old(marks)@).union(step.targets));
        assert(issues@ =~= old(issues)@ + step.issues);
    } else if opcode == 0xAA {
        collect_tableswitch(code, pc, marks, issues);
    } else if opcode == 0xAB {
        collect_lookupswitch(code, pc, marks, issues);
    } else if opcode == 0xA8 || opcode == 0xC9 {
        let offset: i32 = if opcode == 0xA8 {
            if pc + 2 < code_len {
                read_i16(code, pc + 1)
            } else {
                0
            }
        } else {
            if pc + 4 < code_len {
                read_i32(code, pc + 1)
            } else {
                0
            }
        };
        mark_if_inside(marks, target_of(pc, offset), code_len);
        mark(marks, pc + w);
        assert(marked(marks@) =~= marked(old(marks)@).union(step.targets));
        assert(issues@ =~= old(issues)@ + step.issues);
    } else {
        mark(marks, pc + w);
        assert(marked(marks@) =~= marked(old(marks)@).union(step.targets));
        assert(issues@ =~= old(issues)@ + step.issues);
    }
}

/// The message for an issue.
fn issue_message(issue: &Issue) -> (r: String)
    ensures
        r@ == issue_text(*issue),
{
    let mut m: Vec<char> = Vec::new();
    match *issue {
        Issue::UnknownOpcode { opcode, pc } => {
            push_str(&mut m, "Unknown opcode 0x");
            push_hex2(&mut m, opcode);
            push_str(&mut m, " at PC ");
            push_decimal(&mut m, pc as u64);
        },
        Issue::PastEnd { pc, opcode } => {
            push_str(&mut m, "Instruction at PC ");
            push_decimal(&mut m, pc as u64);
            push_str(&mut m, " (opcode 0x");
            push_hex2(&mut m, opcode);
            push_str(&mut m, ") extends past end of code");
        },
        Issue::BranchOutOfBounds { target, pc, code_len } => {
            push_str(&mut m, "Branch target ");
            push_decimal(&mut m, target as u64);
            push_str(&mut m, " at PC ");
            push_decimal(&mut m, pc as u64);
            push_str(&mut m, " out of bounds (code length ");
            push_decimal(&mut m, code_len as u64);
            push_str(&mut m, ")");
        },
        Issue::GotoOutOfBounds { target, pc } => {
            push_str(&mut m, "Goto target ");
            push_decimal(&mut m, target as u64);
            push_str(&mut m, " at PC ");
            push_decimal(&mut m, pc as u64);
            push_str(&mut m, " out of bounds");
        },
        Issue::GotoWOutOfBounds { target, pc } => {
            push_str(&mut m, "Goto_w target ");
            push_decimal(&mut m, target as u64);
            push_str(&mut m, " at PC ");
            push_decimal(&mut m, pc as u64);
            push_str(&mut m, " out of bounds");
        },
        Issue::InvalidTarget { opcode, target } => {
            push_str(&mut m, "Invalid opcode 0x");
            push_hex2(&mut m, opcode);
            push_str(&mut m, " at branch target ");
            push_decimal(&mut m, target as u64);
        },
        Issue::SwitchPastEnd { pc } => {
            push_str(&mut m, "Switch table at PC ");
            push_decimal(&mut m, pc as u64);
            push_str(&mut m, " extends past end of code");
        },
        Issue::StackUnderflow { pc, opcode } => {
            push_str(&mut m, "Stack underflow at PC ");
            push_decimal(&mut m, pc as u64);
            push_str(&mut m, " (opcode 0x");
            push_hex2(&mut m, opcode);
            push_str(&mut m, ")");
        },
    }
    proof {
        assert(m@ =~= issue_text(*issue));
    }
    string_from_chars(m.as_slice())
}

/// Verify a method's bytecode for basic correctness: every instruction is known
/// and fits in the code, switch tables lie inside the code, branch targets lie
/// inside the code, each branch target starts with a known opcode, and the operand
/// stack depth never goes negative along the code from its start.
pub fn verify_method_code(
    code: &[u8],
    max_stack: usize,
    max_locals: usize,
    class_name: &str,
    method_name: &str,
) -> (r: VerificationResult)
    requires
        code@.len() <= isize::MAX,
    ensures
        r.is_valid <==> method_code_issues(code@).len() == 0,
        r.errors@.len() == method_code_issues(code@).len(),
        forall|j: int|
            0 <= j < r.errors@.len() ==> #[trigger] r.errors@[j]@ == issue_text(
                method_code_issues(code@)[j],
            ),
{
    let code_len = code.len();
    let ghost first = scan(code@, 0);
    let mut issues: Vec<Issue> = Vec::new();
    let mut marks: Vec<bool> = Vec::new();
    let mut k: usize = 0;
    while k <= code_len
        invariant
            k <= code_len + 1,
            code_len == code@.len(),
            code_len <= isize::MAX,
            marks@.len() == k,
            forall|j: int| 0 <= j < k ==> !marks@[j],
        decreases code_len + 1 - k,
    {
        marks.push(false);
        k += 1;
    }
    assert(marked(marks@) =~= Set::empty());
    mark(&mut marks, 0);
    let mut pc: usize = 0;
    let mut done = false;
    assert(issues@ + scan(code@, 0).0 =~= first.0);
    assert(marked(marks@).union(scan(code@, 0).1) =~= all_targets(code@));
    while !done && pc < code_len
        invariant
            pc <= code_len,
            code_len == code@.len(),
            code_len <= isize::MAX,
            marks@.len() == code_len + 1,
            first == scan(code@, 0),
            !done ==> issues@ + scan(code@, pc as int).0 == first.0,
            !done ==> marked(marks@).union(scan(code@, pc as int).1) == all_targets(code@),
            done ==> issues@ == first.0,
            done ==> marked(marks@) == all_targets(code@),
        decreases code_len - pc + (if done {
            0int
        } else {
            1int
        }),
    {
        let opcode = code[pc];
        let ghost rest = scan(code@, pc as int);
        match get_instruction_width(opcode) {
            None => {
                let ghost next = scan(code@, pc + 1);
                issues.push(Issue::UnknownOpcode { opcode: opcode, pc: pc });
                assert(issues@ + next.0 =~= first.0) by {
                    assert(rest.0 =~= seq![Issue::UnknownOpcode { opcode: opcode, pc: pc }] + next.0);
                }
                pc += 1;
            },
            Some(width) => {
                if pc + width > code_len {
                    issues.push(Issue::PastEnd { pc: pc, opcode: opcode });
                    assert(issues@ =~= first.0);
                    assert(marked(marks@) =~= all_targets(code@));
                    done = true;
                } else {
                    let ghost next = scan(code@, pc + width);
                    let ghost step = branch_step(code@, pc as int, width as int);
                    let ghost before = marks@;
                    collect_branches(code, pc, width, &mut marks, &mut issues);
                    assert(issues@ + next.0 =~= first.0);
                    assert(marked(marks@).union(next.1) =~= all_targets(code@)) by {
                        assert(rest.1 == step.targets.union(next.1));
                        assert(marked(marks@) == marked(before).union(step.targets));
                    }
                    pc += width;
                }
            },
        }
    }
    if !done {
        assert(scan(code@, pc as int).0 =~= Seq::<Issue>::empty());
        assert(issues@ =~= first.0);
        assert(marked(marks@) =~= all_targets(code@));
    }
    let ghost targets = all_targets(code@);
    let mut t: usize = 0;
    while t < code_len
        invariant
            t <= code_len,
            code_len == code@.len(),
            marks@.len() == code_len + 1,
            marked(marks@) == targets,
            targets == all_targets(code@),
            issues@ == first.0 + invalid_target_issues(code@, targets, t as int),
            first == scan(code@, 0),
        decreases code_len - t,
    {
        if marks[t] {
            assert(targets.contains(t as int));
            let opcode = code[t];
            if get_instruction_width(opcode).is_none() {
                issues.push(Issue::InvalidTarget { opcode: opcode, target: t });
            }
        } else {
            assert(!targets.contains(t as int));
        }
        assert(issues@ =~= first.0 + invalid_target_issues(code@, targets, t + 1));
        t += 1;
    }
    if issues.len() == 0 {
        push_depth_issues(code, &mut issues);
    }
    assert(issues@ == method_code_issues(code@));
    let mut errors: Vec<String> = Vec::new();
    let mut i: usize = 0;
    while i < issues.len()
        invariant
            i <= issues@.len(),
            errors@.len() == i,
            forall|j: int| 0 <= j < i ==> #[trigger] errors@[j]@ == issue_text(issues@[j]),
        decreases issues@.len() - i,
    {
        errors.push(issue_message(&issues[i]));
        i += 1;
    }
    if issues.len() == 0 {
        VerificationResult::valid()
    } else {
        VerificationResult::invalid(errors)
    }
}

/// The code part of a method's `Code` attribute.
pub struct CodeAttribute {
    pub max_stack: usize,
    pub max_locals: usize,
    pub code: Vec<u8>,
}

/// Verify a CodeAttribute for a method.
pub fn verify_code_attribute(code_attr: &CodeAttribute, class_name: &str, method_name: &str) -> (r:
    VerificationResult)
    requires
        code_attr.code@.len() <= isize::MAX,
    ensures
        r.is_valid <==> method_code_issues(code_attr.code@).len() == 0,
        r.errors@.len() == method_code_issues(code_attr.code@).len(),
        forall|j: int|
            0 <= j < r.errors@.len() ==> #[trigger] r.errors@[j]@ == issue_text(
                method_code_issues(code_attr.code@)[j],
            ),
{
    verify_method_code(
        code_attr.code.as_slice(),
        code_attr.max_stack,
        code_attr.max_locals,
        class_name,
        method_name,
    )
}

proof fn lemma_no_invalid_target(code: Seq<u8>, targets: Set<int>, upto: int, t: int)
    requires
        invalid_target_issues(code, targets, upto).len() == 0,
        0 <= t < upto,
        targets.contains(t),
        t < code.len(),
    ensures
        instruction_width(code[t]) is Some,
    decreases upto,
{
    if upto > 0 {
        let prev = invalid_target_issues(code, targets, upto - 1);
        let u = upto - 1;
        if targets.contains(u) && u < code.len() && instruction_width(code[u]) is None {
            assert(invalid_target_issues(code, targets, upto).len() == prev.len() + 1);
        } else if t < u {
            lemma_no_invalid_target(code, targets, upto - 1, t);
        }
    }
}

/// Code the verifier accepts has a known opcode at its entry point and at every
/// branch target its walk collects.
pub proof fn law_accepted_code_has_known_targets(code: Seq<u8>, t: int)
    requires
        method_code_issues(code).len() == 0,
        all_targets(code).contains(t),
        0 <= t < code.len(),
    ensures
        instruction_width(code[t]) is Some,
{
    assert(invalid_target_issues(code, all_targets(code), code.len() as int).len() == 0);
    lemma_no_invalid_target(code, all_targets(code), code.len() as int, t);
}

/// The operand-stack slots a value takes, by the type number the JVM's typed
/// opcodes are laid out by (0 `int`, 1 `long`, 2 `float`, 3 `double`, 4 reference):
/// `long` and `double` take two, the others one.
pub open spec fn type_slots(t: int) -> int {
    if t == 1 || t == 3 {
        2
    } else {
        1
    }
}

/// The effect `pops` slots popped and `pushes` pushed.
pub open spec fn effect(pops: int, pushes: int) -> Option<(u8, u8)> {
    Some((pops as u8, pushes as u8))
}

/// The typed arithmetic and logic opcodes pop their operands and push one result of
/// their type: `add sub mul div rem` (`iadd` 0x60 ...) pop two values and push one,
/// `neg` pops one and pushes one, the shifts pop a value and an `int` count and push
/// a value, `and or xor` pop two and push one.
pub proof fn law_arithmetic_stack_effects(op: u8, d: u8)
    ensures
        0x60 <= op <= 0x73 ==> stack_effect(op, d) == effect(2 * type_slots((op - 0x60) % 4),
            type_slots((op - 0x60) % 4)),
        0x74 <= op <= 0x77 ==> stack_effect(op, d) == effect(type_slots(op - 0x74), type_slots(op - 0x74)),
        0x78 <= op <= 0x7D ==> stack_effect(op, d) == effect(type_slots((op - 0x78) % 2) + 1,
            type_slots((op - 0x78) % 2)),
        0x7E <= op <= 0x83 ==> stack_effect(op, d) == effect(2 * type_slots((op - 0x7E) % 2),
            type_slots((op - 0x7E) % 2)),
{
}

/// Loads push one value of their type and stores pop one: `iload lload fload dload
/// aload` (0x15..), their `_0.._3` forms (0x1A..), and likewise `istore`.. (0x36..)
/// and their short forms (0x3B..); array loads pop the array and the index and push
/// an element, array stores pop the array, the index and an element.
pub proof fn law_load_store_stack_effects(op: u8, d: u8)
    ensures
        0x15 <= op <= 0x19 ==> stack_effect(op, d) == effect(0, type_slots(op - 0x15)),
        0x1A <= op <= 0x2D ==> stack_effect(op, d) == effect(0, type_slots((op - 0x1A) / 4)),
        0x2E <= op <= 0x32 ==> stack_effect(op, d) == effect(2, type_slots(op - 0x2E)),
        0x33 <= op <= 0x35 ==> stack_effect(op, d) == effect(2, 1),
        0x36 <= op <= 0x3A ==> stack_effect(op, d) == effect(type_slots(op - 0x36), 0),
        0x3B <= op <= 0x4E ==> stack_effect(op, d) == effect(type_slots((op - 0x3B) / 4), 0),
        0x4F <= op <= 0x53 ==> stack_effect(op, d) == effect(2 + type_slots(op - 0x4F), 0),
        0x54 <= op <= 0x56 ==> stack_effect(op, d) == effect(3, 0),
{
}

/// Conversions pop a value of their source type and push one of their target type:
/// the opcodes 0x85.. go from `int`, `long`, `float`, `double` in turn, each to the
/// other three in order (`i2l i2f i2d l2i ...`); `i2b i2c i2s` stay `int`s. The
/// comparisons `lcmp fcmpl fcmpg dcmpl dcmpg` pop two values and push an `int`.
pub proof fn law_conversion_stack_effects(op: u8, d: u8)
    ensures
        0x85 <= op <= 0x90 ==> {
            let from = (op - 0x85) / 3;
            let k = (op - 0x85) % 3;
            let to = if k < from { k } else { k + 1 };
            stack_effect(op, d) == effect(type_slots(from), type_slots(to))
        },
        0x91 <= op <= 0x93 ==> stack_effect(op, d) == effect(1, 1),
        op == 0x94 ==> stack_effect(op, d) == effect(2 * type_slots(1), 1),
        0x95 <= op <= 0x96 ==> stack_effect(op, d) == effect(2 * type_slots(2), 1),
        0x97 <= op <= 0x98 ==> stack_effect(op, d) == effect(2 * type_slots(3), 1),
{
}

/// Constants push one value of their type; conditional branches pop what they test
/// (one value, or two for the two-operand compares); the typed returns pop a value of
/// their type and `return` pops nothing.
pub proof fn law_constant_branch_return_stack_effects(op: u8, d: u8)
    ensures
        0x02 <= op <= 0x08 ==> stack_effect(op, d) == effect(0, type_slots(0)),
        0x09 <= op <= 0x0A ==> stack_effect(op, d) == effect(0, type_slots(1)),
        0x0B <= op <= 0x0D ==> stack_effect(op, d) == effect(0, type_slots(2)),
        0x0E <= op <= 0x0F ==> stack_effect(op, d) == effect(0, type_slots(3)),
        0x99 <= op <= 0x9E ==> stack_effect(op, d) == effect(1, 0),
        0x9F <= op <= 0xA6 ==> stack_effect(op, d) == effect(2, 0),
        (op == 0xC6 || op == 0xC7) ==> stack_effect(op, d) == effect(1, 0),
        0xAC <= op <= 0xB0 ==> stack_effect(op, d) == effect(type_slots(op - 0xAC), 0),
        op == 0xB1 ==> stack_effect(op, d) == effect(0, 0),
{
}

/// The two-operand `int` operations: `iadd isub imul idiv irem`, `ishl ishr iushr`
/// and `iand ior ixor`.
pub open spec fn int_binary_op(op: u8) -> bool {
    op == 0x60 || op == 0x64 || op == 0x68 || op == 0x6C || op == 0x70 || op == 0x78 || op == 0x7A
        || op == 0x7C || op == 0x7E || op == 0x80 || op == 0x82
}

/// Straight-line code that pushes two `int` constants, applies a two-operand `int`
/// operation and returns the `int` is accepted with no issue; with only one constant
/// pushed the operation is reported as the one stack underflow.
pub proof fn law_int_binary_op_code(c1: u8, c2: u8, op: u8)
    requires
        0x02 <= c1 <= 0x08,
        0x02 <= c2 <= 0x08,
        int_binary_op(op),
    ensures
        method_code_issues(seq![c1, c2, op, 0xACu8]) == Seq::<Issue>::empty(),
        method_code_issues(seq![c1, op, 0xACu8]) == seq![Issue::StackUnderflow { pc: 1, opcode: op }],
{
    let a = seq![c1, c2, op, 0xACu8];
    assert(stack_effect(op, 0) == Some((2u8, 1u8)));
    assert(stack_effect(c1, 0) == Some((0u8, 1u8)));
    assert(stack_effect(c2, 0) == Some((0u8, 1u8)));
    assert(stack_effect(0xACu8, 0) == Some((1u8, 0u8)));
    assert(scan(a, 4) == (Seq::<Issue>::empty(), Set::<int>::empty()));
    assert(scan(a, 3).0 == Seq::<Issue>::empty());
    assert(scan(a, 2).0 == Seq::<Issue>::empty());
    assert(scan(a, 1).0 == Seq::<Issue>::empty());
    assert(scan(a, 0).0 == Seq::<Issue>::empty());
    assert(scan(a, 3).1 == set![4int]);
    assert(scan(a, 2).1 == set![3int, 4int]);
    assert(scan(a, 1).1 == set![2int, 3int, 4int]);
    assert(scan(a, 0).1 == set![1int, 2int, 3int, 4int]);
    let ta = all_targets(a);
    assert(invalid_target_issues(a, ta, 0) == Seq::<Issue>::empty());
    assert(invalid_target_issues(a, ta, 1) == Seq::<Issue>::empty());
    assert(invalid_target_issues(a, ta, 2) == Seq::<Issue>::empty());
    assert(invalid_target_issues(a, ta, 3) == Seq::<Issue>::empty());
    assert(invalid_target_issues(a, ta, 4) == Seq::<Issue>::empty());
    assert(depth_issues(a, 3, 1) =~= Seq::<Issue>::empty());
    assert(depth_issues(a, 2, 2) =~= Seq::<Issue>::empty());
    assert(depth_issues(a, 1, 1) =~= Seq::<Issue>::empty());
    assert(depth_issues(a, 0, 0) =~= Seq::<Issue>::empty());
    assert(scan(a, 0).0 + invalid_target_issues(a, ta, 4) =~= Seq::<Issue>::empty());

    let b = seq![c1, op, 0xACu8];
    assert(scan(b, 3) == (Seq::<Issue>::empty(), Set::<int>::empty()));
    assert(scan(b, 2).0 == Seq::<Issue>::empty());
    assert(scan(b, 1).0 == Seq::<Issue>::empty());
    assert(scan(b, 0).0 == Seq::<Issue>::empty());
    assert(scan(b, 2).1 == set![3int]);
    assert(scan(b, 1).1 == set![2int, 3int]);
    assert(scan(b, 0).1 == set![1int, 2int, 3int]);
    let tb = all_targets(b);
    assert(invalid_target_issues(b, tb, 0) == Seq::<Issue>::empty());
    assert(invalid_target_issues(b, tb, 1) == Seq::<Issue>::empty());
    assert(invalid_target_issues(b, tb, 2) == Seq::<Issue>::empty());
    assert(invalid_target_issues(b, tb, 3) == Seq::<Issue>::empty());
    assert(scan(b, 0).0 + invalid_target_issues(b, tb, 3) =~= Seq::<Issue>::empty());
    assert(depth_issues(b, 2, 1) =~= Seq::<Issue>::empty());
    assert(depth_issues(b, 1, 1) =~= seq![Issue::StackUnderflow { pc: 1, opcode: op }]);
    assert(depth_issues(b, 0, 0) =~= seq![Issue::StackUnderflow { pc: 1, opcode: op }]);
}

/// A `goto` that jumps outside the code is reported with its target, and a `goto` to
/// itself (offset 0) is accepted: on the three-byte code `goto b1 b2`, with the
/// signed 16-bit offset that `b1 b2` make.
pub proof fn law_goto_target_in_code(b1: u8, b2: u8)
    ensures
        ({
            let a = seq![0xA7u8, b1, b2];
            let off = be_i16(b1, b2);
            &&& off == 0 ==> method_code_issues(a) == Seq::<Issue>::empty()
            &&& (off < 0 || off >= 3) ==> method_code_issues(a) == seq![
                Issue::GotoOutOfBounds { target: branch_target(0, off), pc: 0 },
            ]
        }),
{
    let a = seq![0xA7u8, b1, b2];
    let off = be_i16(b1, b2);
    assert(-0x8000 <= off < 0x8000);
    let t = branch_target(0, off);
    assert((0i32).wrapping_add(off) == off);
    assert(t == off as usize);
    if off < 0 {
        assert(off as usize >= 3) by (bit_vector)
            requires off < 0i32;
    }
    if off >= 0 {
        assert(off as usize == off);
    }
    assert(scan(a, 3) == (Seq::<Issue>::empty(), Set::<int>::empty()));
    let st = branch_step(a, 0, 3);
    if off == 0 {
        assert(st.issues == Seq::<Issue>::empty());
        assert(st.targets == set![0int]);
        assert(scan(a, 0).0 =~= Seq::<Issue>::empty());
        assert(scan(a, 0).1 =~= set![0int]);
        let ta = all_targets(a);
        assert(invalid_target_issues(a, ta, 0) == Seq::<Issue>::empty());
        assert(ta.contains(0) && instruction_width(a[0]) is Some);
        assert(invalid_target_issues(a, ta, 1) == Seq::<Issue>::empty());
        assert(!ta.contains(1) && !ta.contains(2));
        assert(invalid_target_issues(a, ta, 2) == Seq::<Issue>::empty());
        assert(invalid_target_issues(a, ta, 3) == Seq::<Issue>::empty());
        assert(scan(a, 0).0 + invalid_target_issues(a, ta, 3) =~= Seq::<Issue>::empty());
        assert(stack_effect(0xA7u8, 0) == Some((0u8, 0u8)));
        assert(depth_issues(a, 0, 0) =~= Seq::<Issue>::empty());
    }
    if off < 0 || off >= 3 {
        assert(st.issues == seq![Issue::GotoOutOfBounds { target: t, pc: 0 }]);
        assert(st.targets == Set::<int>::empty());
        assert(scan(a, 0).0 =~= seq![Issue::GotoOutOfBounds { target: t, pc: 0 }]);
        assert(scan(a, 0).1 =~= Set::<int>::empty());
        let ta = all_targets(a);
        assert(ta =~= set![0int]);
        assert(invalid_target_issues(a, ta, 0) == Seq::<Issue>::empty());
        assert(ta.contains(0) && instruction_width(a[0]) is Some);
        assert(invalid_target_issues(a, ta, 1) == Seq::<Issue>::empty());
        assert(invalid_target_issues(a, ta, 2) == Seq::<Issue>::empty());
        assert(invalid_target_issues(a, ta, 3) == Seq::<Issue>::empty());
        assert(scan(a, 0).0 + invalid_target_issues(a, ta, 3) =~= seq![Issue::GotoOutOfBounds { target: t, pc: 0 }]);
    }
}

} // verus!
