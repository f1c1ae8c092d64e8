use vstd::prelude::*;

use crate::registers::{register, register_name};

verus! {

/// One operand of a decoded instruction.
#[derive(Clone, Copy, Debug, PartialEq, Eq, Structural)]
pub enum Operand {
    /// A register, by its 3-bit index and its width.
    Register { index: u8, wide: bool },
    /// A memory reference through one of the eight base expressions, with a displacement.
    Memory { base: u8, disp: i16 },
    /// A memory reference at a literal 16-bit address.
    Direct { address: u16 },
    /// A signed immediate value.
    Immediate { value: i16 },
}

/// A decoded `mov` instruction.
#[derive(Clone, Copy, Debug, PartialEq, Eq, Structural)]
pub struct Instruction {
    pub dest: Operand,
    pub src: Operand,
}

impl Operand {
    /// Register indices and base selectors are 3-bit fields.
    pub open spec fn wf(self) -> bool {
        match self {
            Operand::Register { index, .. } => index < 8,
            Operand::Memory { base, .. } => base < 8,
            _ => true,
        }
    }
}

impl Instruction {
    pub open spec fn wf(self) -> bool {
        self.dest.wf() && self.src.wf()
    }
}

/// The base-register expression selected by the `rm` field of a memory operand.
pub open spec fn base_expr(rm: u8) -> Seq<char> {
    if rm == 0 {
        "bx+si"@
    } else if rm == 1 {
        "bx+di"@
    } else if rm == 2 {
        "bp+si"@
    } else if rm == 3 {
        "bp+di"@
    } else if rm == 4 {
        "si"@
    } else if rm == 5 {
        "di"@
    } else if rm == 6 {
        "bp"@
    } else {
        "bx"@
    }
}

/// The text of one decimal digit.
pub open spec fn digit_text(d: nat) -> Seq<char> {
    if d == 0 {
        "0"@
    } else if d == 1 {
        "1"@
    } else if d == 2 {
        "2"@
    } else if d == 3 {
        "3"@
    } else if d == 4 {
        "4"@
    } else if d == 5 {
        "5"@
    } else if d == 6 {
        "6"@
    } else if d == 7 {
        "7"@
    } else if d == 8 {
        "8"@
    } else {
        "9"@
    }
}

/// Decimal spelling of a natural number, most significant digit first.
pub open spec fn decimal(n: nat) -> Seq<char>
    decreases n,
{
    if n < 10 {
        digit_text(n)
    } else {
        decimal(n / 10) + digit_text(n % 10)
    }
}

/// Decimal spelling of an integer, with a leading minus sign when negative.
pub open spec fn signed_decimal(v: int) -> Seq<char> {
    if v < 0 {
        "-"@ + decimal((-v) as nat)
    } else {
        decimal(v as nat)
    }
}

/// The assembly text of an operand.
pub open spec fn operand_text(op: Operand) -> Seq<char> {
    match op {
        Operand::Register { index, wide } => register_name(index, wide),
        Operand::Memory { base, disp } => if disp == 0 {
            "["@ + base_expr(base) + "]"@
        } else {
            "["@ + base_expr(base) + " + "@ + signed_decimal(disp as int) + "]"@
        },
        Operand::Direct { address } => "["@ + decimal(address as nat) + "]"@,
        Operand::Immediate { value } => signed_decimal(value as int),
    }
}

/// The assembly text of an instruction: `mov <dest>, <src>`.
pub open spec fn instruction_text(inst: Instruction) -> Seq<char> {
    "mov "@ + operand_text(inst.dest) + ", "@ + operand_text(inst.src)
}

fn base_expr_str(rm: u8) -> (r: &'static str)
    ensures
        r@ == base_expr(rm),
{
    match rm {
        0 => "bx+si",
        1 => "bx+di",
        2 => "bp+si",
        3 => "bp+di",
        4 => "si",
        5 => "di",
        6 => "bp",
        _ => "bx",
    }
}

fn digit_str(d: u32) -> (r: &'static str)
    ensures
        r@ == digit_text(d as nat),
{
    match d {
        0 => "0",
        1 => "1",
        2 => "2",
        3 => "3",
        4 => "4",
        5 => "5",
        6 => "6",
        7 => "7",
        8 => "8",
        _ => "9",
    }
}

/// Appends the decimal spelling of `n`.
pub fn push_decimal(out: &mut String, n: u32)
    ensures
        final(out)@ == old(out)@ + decimal(n as nat),
    decreases n,
{
    if n >= 10 {
        push_decimal(out, n / 10);
        out.append(digit_str(n % 10));
        assert(final(out)@ =~= old(out)@ + decimal(n as nat)) by {
            assert(decimal(n as nat) == decimal((n / 10) as nat) + digit_text((n % 10) as nat));
        }
    } else {
        out.append(digit_str(n));
    }
}

/// Appends the signed decimal spelling of `v`.
pub fn push_signed_decimal(out: &mut String, v: i16)
    ensures
        final(out)@ == old(out)@ + signed_decimal(v as int),
{
    if v < 0 {
        out.append("-");
        let magnitude: u32 = (0 - (v as i32)) as u32;
        push_decimal(out, magnitude);
        assert(final(out)@ =~= old(out)@ + signed_decimal(v as int));
    } else {
        push_decimal(out, v as u32);
    }
}

/// Appends the text of an operand.
pub fn push_operand(out: &mut String, op: &Operand)
    requires
        op.wf(),
    ensures
        final(out)@ == old(out)@ + operand_text(*op),
{
    match *op {
        Operand::Register { index, wide } => {
            out.append(register(index, wide));
        },
        Operand::Memory { base, disp } => {
            out.append("[");
            out.append(base_expr_str(base));
            if disp != 0 {
                out.append(" + ");
                push_signed_decimal(out, disp);
            }
            out.append("]");
            assert(final(out)@ =~= old(out)@ + operand_text(*op));
        },
        Operand::Direct { address } => {
            out.append("[");
            push_decimal(out, address as u32);
            out.append("]");
            assert(final(out)@ =~= old(out)@ + operand_text(*op));
        },
        Operand::Immediate { value } => {
            push_signed_decimal(out, value);
        },
    }
}

/// Renders an operand as assembly text.
pub fn render_operand(op: &Operand) -> (r: String)
    requires
        op.wf(),
    ensures
        r@ == operand_text(*op),
{
    let mut out = String::new();
    push_operand(&mut out, op);
    assert(out@ =~= operand_text(*op));
    out
}

/// Renders an instruction as one line of assembly text.
pub fn render(inst: &Instruction) -> (r: String)
    requires
        inst.wf(),
    ensures
        r@ == instruction_text(*inst),
{
    let mut out = String::new();
    out.append("mov ");
    push_operand(&mut out, &inst.dest);
    out.append(", ");
    push_operand(&mut out, &inst.src);
    assert(out@ =~= instruction_text(*inst));
    out
}

} // verus!
