use crate::code_writer::{line, CodeWriter};
use crate::operand::{fixed_operand, fixed_operand_of, OperandValue, Register, RegisterClass};
use crate::text::{decimal, decimal_text, hex, hex_text};
use crate::types::{
    AddressMode, Bit, BitRef, CodeOffset, Encoding, EncodingView, Immediate, IntOrRef, LLBitRef,
    ModRM, NoneRef, Opcode, Operand, OperandId, Prefix, RegisterByte, VEXType, ZeroRef, EVEX, REX,
    VEX,
};
use vstd::prelude::*;

verus! {

/// A truth value as it is written in source text.
pub open spec fn bool_text(b: bool) -> Seq<char> {
    if b {
        "true"@
    } else {
        "false"@
    }
}

fn write_bool(writer: &mut CodeWriter, b: bool)
    ensures
        final(writer)@ == old(writer)@ + bool_text(b),
{
    if b {
        writer.code("true");
    } else {
        writer.code("false");
    }
}

/// A small number as it is written in source text, in decimal.
pub open spec fn number_text(n: u8) -> Seq<char> {
    decimal_text(n as nat)
}

fn write_number(writer: &mut CodeWriter, n: u8)
    ensures
        final(writer)@ == old(writer)@ + number_text(n),
{
    let digits = decimal(n as usize);
    writer.code(digits.as_str());
}

/// A byte as it is written in source text, in hexadecimal.
pub open spec fn byte_text(b: u8) -> Seq<char> {
    "0x"@ + hex_text(b)
}

fn write_byte(writer: &mut CodeWriter, b: u8)
    ensures
        final(writer)@ == old(writer)@ + byte_text(b),
{
    let digits = hex(b);
    writer.code("0x");
    writer.code(digits.as_str());
    assert(writer@ =~= old(writer)@ + byte_text(b));
}

/// The name of an operand kind in source text.
pub open spec fn kind_name(x: OperandId) -> Seq<char> {
    match x {
        OperandId::_1_ => "_1_"@,
        OperandId::_3_ => "_3_"@,
        OperandId::al => "al"@,
        OperandId::ax => "ax"@,
        OperandId::eax => "eax"@,
        OperandId::rax => "rax"@,
        OperandId::cl => "cl"@,
        OperandId::xmm0 => "xmm0"@,
        OperandId::rel8 => "rel8"@,
        OperandId::rel32 => "rel32"@,
        OperandId::imm4 => "imm4"@,
        OperandId::imm8 => "imm8"@,
        OperandId::imm16 => "imm16"@,
        OperandId::imm32 => "imm32"@,
        OperandId::imm64 => "imm64"@,
        OperandId::r8 => "r8"@,
        OperandId::r16 => "r16"@,
        OperandId::r32 => "r32"@,
        OperandId::r64 => "r64"@,
        OperandId::mm => "mm"@,
        OperandId::xmm => "xmm"@,
        OperandId::xmm_k_ => "xmm_k_"@,
        OperandId::xmm_k_z_ => "xmm_k_z_"@,
        OperandId::ymm => "ymm"@,
        OperandId::ymm_k_ => "ymm_k_"@,
        OperandId::ymm_k_z_ => "ymm_k_z_"@,
        OperandId::zmm => "zmm"@,
        OperandId::zmm_k_ => "zmm_k_"@,
        OperandId::zmm_k_z_ => "zmm_k_z_"@,
        OperandId::k => "k"@,
        OperandId::k_k_ => "k_k_"@,
        OperandId::m => "m"@,
        OperandId::m8 => "m8"@,
        OperandId::m16 => "m16"@,
        OperandId::m16_k_z_ => "m16_k_z_"@,
        OperandId::m32 => "m32"@,
        OperandId::m32_k_ => "m32_k_"@,
        OperandId::m32_k_z_ => "m32_k_z_"@,
        OperandId::m64 => "m64"@,
        OperandId::m64_k_ => "m64_k_"@,
        OperandId::m64_k_z_ => "m64_k_z_"@,
        OperandId::m80 => "m80"@,
        OperandId::m128 => "m128"@,
        OperandId::m128_k_z_ => "m128_k_z_"@,
        OperandId::m256 => "m256"@,
        OperandId::m256_k_z_ => "m256_k_z_"@,
        OperandId::m512 => "m512"@,
        OperandId::m512_k_z_ => "m512_k_z_"@,
        OperandId::m64__m32bcst => "m64__m32bcst"@,
        OperandId::m128__m32bcst => "m128__m32bcst"@,
        OperandId::m256__m32bcst => "m256__m32bcst"@,
        OperandId::m512__m32bcst => "m512__m32bcst"@,
        OperandId::m128__m64bcst => "m128__m64bcst"@,
        OperandId::m256__m64bcst => "m256__m64bcst"@,
        OperandId::m512__m64bcst => "m512__m64bcst"@,
        OperandId::moffs32 => "moffs32"@,
        OperandId::moffs64 => "moffs64"@,
        OperandId::vm32x => "vm32x"@,
        OperandId::vm32x_k_ => "vm32x_k_"@,
        OperandId::vm32y => "vm32y"@,
        OperandId::vm32y_k_ => "vm32y_k_"@,
        OperandId::vm32z => "vm32z"@,
        OperandId::vm32z_k_ => "vm32z_k_"@,
        OperandId::vm64x => "vm64x"@,
        OperandId::vm64x_k_ => "vm64x_k_"@,
        OperandId::vm64y => "vm64y"@,
        OperandId::vm64y_k_ => "vm64y_k_"@,
        OperandId::vm64z => "vm64z"@,
        OperandId::vm64z_k_ => "vm64z_k_"@,
        OperandId::_sae_ => "_sae_"@,
        OperandId::_er_ => "_er_"@,
        OperandId::NONE => "NONE"@,
    }
}

fn kind_name_of(x: OperandId) -> (r: &'static str)
    ensures
        r@ == kind_name(x),
{
    match x {
        OperandId::_1_ => "_1_",
        OperandId::_3_ => "_3_",
        OperandId::al => "al",
        OperandId::ax => "ax",
        OperandId::eax => "eax",
        OperandId::rax => "rax",
        OperandId::cl => "cl",
        OperandId::xmm0 => "xmm0",
        OperandId::rel8 => "rel8",
        OperandId::rel32 => "rel32",
        OperandId::imm4 => "imm4",
        OperandId::imm8 => "imm8",
        OperandId::imm16 => "imm16",
        OperandId::imm32 => "imm32",
        OperandId::imm64 => "imm64",
        OperandId::r8 => "r8",
        OperandId::r16 => "r16",
        OperandId::r32 => "r32",
        OperandId::r64 => "r64",
        OperandId::mm => "mm",
        OperandId::xmm => "xmm",
        OperandId::xmm_k_ => "xmm_k_",
        OperandId::xmm_k_z_ => "xmm_k_z_",
        OperandId::ymm => "ymm",
        OperandId::ymm_k_ => "ymm_k_",
        OperandId::ymm_k_z_ => "ymm_k_z_",
        OperandId::zmm => "zmm",
        OperandId::zmm_k_ => "zmm_k_",
        OperandId::zmm_k_z_ => "zmm_k_z_",
        OperandId::k => "k",
        OperandId::k_k_ => "k_k_",
        OperandId::m => "m",
        OperandId::m8 => "m8",
        OperandId::m16 => "m16",
        OperandId::m16_k_z_ => "m16_k_z_",
        OperandId::m32 => "m32",
        OperandId::m32_k_ => "m32_k_",
        OperandId::m32_k_z_ => "m32_k_z_",
        OperandId::m64 => "m64",
        OperandId::m64_k_ => "m64_k_",
        OperandId::m64_k_z_ => "m64_k_z_",
        OperandId::m80 => "m80",
        OperandId::m128 => "m128",
        OperandId::m128_k_z_ => "m128_k_z_",
        OperandId::m256 => "m256",
        OperandId::m256_k_z_ => "m256_k_z_",
        OperandId::m512 => "m512",
        OperandId::m512_k_z_ => "m512_k_z_",
        OperandId::m64__m32bcst => "m64__m32bcst",
        OperandId::m128__m32bcst => "m128__m32bcst",
        OperandId::m256__m32bcst => "m256__m32bcst",
        OperandId::m512__m32bcst => "m512__m32bcst",
        OperandId::m128__m64bcst => "m128__m64bcst",
        OperandId::m256__m64bcst => "m256__m64bcst",
        OperandId::m512__m64bcst => "m512__m64bcst",
        OperandId::moffs32 => "moffs32",
        OperandId::moffs64 => "moffs64",
        OperandId::vm32x => "vm32x",
        OperandId::vm32x_k_ => "vm32x_k_",
        OperandId::vm32y => "vm32y",
        OperandId::vm32y_k_ => "vm32y_k_",
        OperandId::vm32z => "vm32z",
        OperandId::vm32z_k_ => "vm32z_k_",
        OperandId::vm64x => "vm64x",
        OperandId::vm64x_k_ => "vm64x_k_",
        OperandId::vm64y => "vm64y",
        OperandId::vm64y_k_ => "vm64y_k_",
        OperandId::vm64z => "vm64z",
        OperandId::vm64z_k_ => "vm64z_k_",
        OperandId::_sae_ => "_sae_",
        OperandId::_er_ => "_er_",
        OperandId::NONE => "NONE",
    }
}

/// The name of a register class in source text.
pub open spec fn class_name(x: RegisterClass) -> Seq<char> {
    match x {
        RegisterClass::Gpr8 => "Gpr8"@,
        RegisterClass::Gpr16 => "Gpr16"@,
        RegisterClass::Gpr32 => "Gpr32"@,
        RegisterClass::Gpr64 => "Gpr64"@,
        RegisterClass::Mmx => "Mmx"@,
        RegisterClass::Xmm => "Xmm"@,
        RegisterClass::Ymm => "Ymm"@,
        RegisterClass::Zmm => "Zmm"@,
        RegisterClass::Mask => "Mask"@,
    }
}

fn class_name_of(x: RegisterClass) -> (r: &'static str)
    ensures
        r@ == class_name(x),
{
    match x {
        RegisterClass::Gpr8 => "Gpr8",
        RegisterClass::Gpr16 => "Gpr16",
        RegisterClass::Gpr32 => "Gpr32",
        RegisterClass::Gpr64 => "Gpr64",
        RegisterClass::Mmx => "Mmx",
        RegisterClass::Xmm => "Xmm",
        RegisterClass::Ymm => "Ymm",
        RegisterClass::Zmm => "Zmm",
        RegisterClass::Mask => "Mask",
    }
}

/// A literal bit as it is written in source text.
pub open spec fn bit_text(x: Bit) -> Seq<char> {
    match x {
        Bit::Zero => "Bit::Zero"@,
        Bit::One => "Bit::One"@,
        Bit::NONE => "Bit::NONE"@,
    }
}

fn write_bit(writer: &mut CodeWriter, x: Bit)
    ensures
        final(writer)@ == old(writer)@ + bit_text(x),
{
    match x {
        Bit::Zero => {
            writer.code("Bit::Zero");
        },
        Bit::One => {
            writer.code("Bit::One");
        },
        Bit::NONE => {
            writer.code("Bit::NONE");
        },
    }
}

/// A bit or the operand that gives it, as it is written in source text.
pub open spec fn bit_ref_text(x: BitRef) -> Seq<char> {
    match x {
        BitRef::Zero => "BitRef::Zero"@,
        BitRef::One => "BitRef::One"@,
        BitRef::Ref(i) => "BitRef::Ref("@ + number_text(i) + ")"@,
        BitRef::NONE => "BitRef::NONE"@,
    }
}

fn write_bit_ref(writer: &mut CodeWriter, x: BitRef)
    ensures
        final(writer)@ == old(writer)@ + bit_ref_text(x),
{
    match x {
        BitRef::Zero => {
            writer.code("BitRef::Zero");
        },
        BitRef::One => {
            writer.code("BitRef::One");
        },
        BitRef::Ref(i) => {
            writer.code("BitRef::Ref(");
            write_number(writer, i);
            writer.code(")");
            assert(writer@ =~= old(writer)@ + bit_ref_text(x));
        },
        BitRef::NONE => {
            writer.code("BitRef::NONE");
        },
    }
}

/// A zero or the operand that fills the field, as it is written in source text.
pub open spec fn zero_ref_text(x: ZeroRef) -> Seq<char> {
    match x {
        ZeroRef::Zero => "ZeroRef::Zero"@,
        ZeroRef::Ref(i) => "ZeroRef::Ref("@ + number_text(i) + ")"@,
        ZeroRef::NONE => "ZeroRef::NONE"@,
        ZeroRef::EVEX_b_ONE => "ZeroRef::EVEX_b_ONE"@,
    }
}

fn write_zero_ref(writer: &mut CodeWriter, x: ZeroRef)
    ensures
        final(writer)@ == old(writer)@ + zero_ref_text(x),
{
    match x {
        ZeroRef::Zero => {
            writer.code("ZeroRef::Zero");
        },
        ZeroRef::Ref(i) => {
            writer.code("ZeroRef::Ref(");
            write_number(writer, i);
            writer.code(")");
            assert(writer@ =~= old(writer)@ + zero_ref_text(x));
        },
        ZeroRef::NONE => {
            writer.code("ZeroRef::NONE");
        },
        ZeroRef::EVEX_b_ONE => {
            writer.code("ZeroRef::EVEX_b_ONE");
        },
    }
}

/// The operand that fills a field, if one does, as it is written in source text.
pub open spec fn none_ref_text(x: NoneRef) -> Seq<char> {
    match x {
        NoneRef::NONE => "NoneRef::NONE"@,
        NoneRef::Ref(i) => "NoneRef::Ref("@ + number_text(i) + ")"@,
    }
}

fn write_none_ref(writer: &mut CodeWriter, x: NoneRef)
    ensures
        final(writer)@ == old(writer)@ + none_ref_text(x),
{
    match x {
        NoneRef::NONE => {
            writer.code("NoneRef::NONE");
        },
        NoneRef::Ref(i) => {
            writer.code("NoneRef::Ref(");
            write_number(writer, i);
            writer.code(")");
            assert(writer@ =~= old(writer)@ + none_ref_text(x));
        },
    }
}

/// A vector length as it is written in source text.
pub open spec fn length_text(x: LLBitRef) -> Seq<char> {
    match x {
        LLBitRef::Zero => "LLBitRef::Zero"@,
        LLBitRef::One => "LLBitRef::One"@,
        LLBitRef::Two => "LLBitRef::Two"@,
        LLBitRef::LastRef(i) => "LLBitRef::LastRef("@ + number_text(i) + ")"@,
        LLBitRef::NONE => "LLBitRef::NONE"@,
    }
}

fn write_length(writer: &mut CodeWriter, x: LLBitRef)
    ensures
        final(writer)@ == old(writer)@ + length_text(x),
{
    match x {
        LLBitRef::Zero => {
            writer.code("LLBitRef::Zero");
        },
        LLBitRef::One => {
            writer.code("LLBitRef::One");
        },
        LLBitRef::Two => {
            writer.code("LLBitRef::Two");
        },
        LLBitRef::LastRef(i) => {
            writer.code("LLBitRef::LastRef(");
            write_number(writer, i);
            writer.code(")");
            assert(writer@ =~= old(writer)@ + length_text(x));
        },
        LLBitRef::NONE => {
            writer.code("LLBitRef::NONE");
        },
    }
}

/// An integer or the operand that fills the field, as it is written in source text.
pub open spec fn int_or_ref_text(x: IntOrRef) -> Seq<char> {
    match x {
        IntOrRef::Extension(i) => "IntOrRef::Extension("@ + number_text(i) + ")"@,
        IntOrRef::Ref(i) => "IntOrRef::Ref("@ + number_text(i) + ")"@,
        IntOrRef::NONE => "IntOrRef::NONE"@,
    }
}

fn write_int_or_ref(writer: &mut CodeWriter, x: IntOrRef)
    ensures
        final(writer)@ == old(writer)@ + int_or_ref_text(x),
{
    match x {
        IntOrRef::Extension(i) => {
            writer.code("IntOrRef::Extension(");
            write_number(writer, i);
            writer.code(")");
            assert(writer@ =~= old(writer)@ + int_or_ref_text(x));
        },
        IntOrRef::Ref(i) => {
            writer.code("IntOrRef::Ref(");
            write_number(writer, i);
            writer.code(")");
            assert(writer@ =~= old(writer)@ + int_or_ref_text(x));
        },
        IntOrRef::NONE => {
            writer.code("IntOrRef::NONE");
        },
    }
}

/// An addressing mode as it is written in source text.
pub open spec fn address_mode_text(x: AddressMode) -> Seq<char> {
    match x {
        AddressMode::Two => "AddressMode::Two"@,
        AddressMode::Ref(i) => "AddressMode::Ref("@ + number_text(i) + ")"@,
        AddressMode::NONE => "AddressMode::NONE"@,
    }
}

fn write_address_mode(writer: &mut CodeWriter, x: AddressMode)
    ensures
        final(writer)@ == old(writer)@ + address_mode_text(x),
{
    match x {
        AddressMode::Two => {
            writer.code("AddressMode::Two");
        },
        AddressMode::Ref(i) => {
            writer.code("AddressMode::Ref(");
            write_number(writer, i);
            writer.code(")");
            assert(writer@ =~= old(writer)@ + address_mode_text(x));
        },
        AddressMode::NONE => {
            writer.code("AddressMode::NONE");
        },
    }
}

/// The escape of a VEX-shaped prefix as it is written in source text.
pub open spec fn vex_type_text(x: VEXType) -> Seq<char> {
    match x {
        VEXType::VEX => "VEXType::VEX"@,
        VEXType::XOP => "VEXType::XOP"@,
        VEXType::NONE => "VEXType::NONE"@,
    }
}

fn write_vex_type(writer: &mut CodeWriter, x: VEXType)
    ensures
        final(writer)@ == old(writer)@ + vex_type_text(x),
{
    match x {
        VEXType::VEX => {
            writer.code("VEXType::VEX");
        },
        VEXType::XOP => {
            writer.code("VEXType::XOP");
        },
        VEXType::NONE => {
            writer.code("VEXType::NONE");
        },
    }
}

/// A legacy prefix with every field, as it is written in source text.
pub open spec fn prefix_text(x: Prefix) -> Seq<char> {
    "Prefix { mandatory: "@ + bool_text(x.mandatory)
        + ", byte: "@ + byte_text(x.byte)
        + " }"@
}

fn write_prefix(writer: &mut CodeWriter, x: &Prefix)
    ensures
        final(writer)@ == old(writer)@ + prefix_text(*x),
{
    let ghost start = writer@;
    writer.code("Prefix { mandatory: ");
    let ghost acc0 = "Prefix { mandatory: "@;
    write_bool(writer, x.mandatory);
    proof {
        lemma_append(start, acc0, bool_text(x.mandatory));
    }
    let ghost acc1 = acc0 + bool_text(x.mandatory);
    writer.code(", byte: ");
    proof {
        lemma_append(start, acc1, ", byte: "@);
    }
    let ghost acc2 = acc1 + ", byte: "@;
    write_byte(writer, x.byte);
    proof {
        lemma_append(start, acc2, byte_text(x.byte));
    }
    let ghost acc3 = acc2 + byte_text(x.byte);
    writer.code(" }");
    proof {
        lemma_append(start, acc3, " }"@);
    }
}

/// The template of a REX prefix with every field, as it is written in source text.
pub open spec fn rex_text(x: REX) -> Seq<char> {
    "REX { mandatory: "@ + bool_text(x.mandatory)
        + ", W: "@ + bit_text(x.W)
        + ", R: "@ + bit_ref_text(x.R)
        + ", B: "@ + bit_ref_text(x.B)
        + ", X: "@ + bit_ref_text(x.X)
        + " }"@
}

fn write_rex(writer: &mut CodeWriter, x: &REX)
    ensures
        final(writer)@ == old(writer)@ + rex_text(*x),
{
    let ghost start = writer@;
    writer.code("REX { mandatory: ");
    let ghost acc0 = "REX { mandatory: "@;
    write_bool(writer, x.mandatory);
    proof {
        lemma_append(start, acc0, bool_text(x.mandatory));
    }
    let ghost acc1 = acc0 + bool_text(x.mandatory);
    writer.code(", W: ");
    proof {
        lemma_append(start, acc1, ", W: "@);
    }
    let ghost acc2 = acc1 + ", W: "@;
    write_bit(writer, x.W);
    proof {
        lemma_append(start, acc2, bit_text(x.W));
    }
    let ghost acc3 = acc2 + bit_text(x.W);
    writer.code(", R: ");
    proof {
        lemma_append(start, acc3, ", R: "@);
    }
    let ghost acc4 = acc3 + ", R: "@;
    write_bit_ref(writer, x.R);
    proof {
        lemma_append(start, acc4, bit_ref_text(x.R));
    }
    let ghost acc5 = acc4 + bit_ref_text(x.R);
    writer.code(", B: ");
    proof {
        lemma_append(start, acc5, ", B: "@);
    }
    let ghost acc6 = acc5 + ", B: "@;
    write_bit_ref(writer, x.B);
    proof {
        lemma_append(start, acc6, bit_ref_text(x.B));
    }
    let ghost acc7 = acc6 + bit_ref_text(x.B);
    writer.code(", X: ");
    proof {
        lemma_append(start, acc7, ", X: "@);
    }
    let ghost acc8 = acc7 + ", X: "@;
    write_bit_ref(writer, x.X);
    proof {
        lemma_append(start, acc8, bit_ref_text(x.X));
    }
    let ghost acc9 = acc8 + bit_ref_text(x.X);
    writer.code(" }");
    proof {
        lemma_append(start, acc9, " }"@);
    }
}

/// The template of a VEX prefix with every field, as it is written in source text.
pub open spec fn vex_text(x: VEX) -> Seq<char> {
    "VEX { id: "@ + vex_type_text(x.id)
        + ", mmmmm: "@ + number_text(x.mmmmm)
        + ", pp: "@ + number_text(x.pp)
        + ", W: "@ + bit_text(x.W)
        + ", L: "@ + bit_text(x.L)
        + ", R: "@ + bit_ref_text(x.R)
        + ", B: "@ + bit_ref_text(x.B)
        + ", X: "@ + bit_ref_text(x.X)
        + ", vvvv: "@ + zero_ref_text(x.vvvv)
        + " }"@
}

fn write_vex(writer: &mut CodeWriter, x: &VEX)
    ensures
        final(writer)@ == old(writer)@ + vex_text(*x),
{
    let ghost start = writer@;
    writer.code("VEX { id: ");
    let ghost acc0 = "VEX { id: "@;
    write_vex_type(writer, x.id);
    proof {
        lemma_append(start, acc0, vex_type_text(x.id));
    }
    let ghost acc1 = acc0 + vex_type_text(x.id);
    writer.code(", mmmmm: ");
    proof {
        lemma_append(start, acc1, ", mmmmm: "@);
    }
    let ghost acc2 = acc1 + ", mmmmm: "@;
    write_number(writer, x.mmmmm);
    proof {
        lemma_append(start, acc2, number_text(x.mmmmm));
    }
    let ghost acc3 = acc2 + number_text(x.mmmmm);
    writer.code(", pp: ");
    proof {
        lemma_append(start, acc3, ", pp: "@);
    }
    let ghost acc4 = acc3 + ", pp: "@;
    write_number(writer, x.pp);
    proof {
        lemma_append(start, acc4, number_text(x.pp));
    }
    let ghost acc5 = acc4 + number_text(x.pp);
    writer.code(", W: ");
    proof {
        lemma_append(start, acc5, ", W: "@);
    }
    let ghost acc6 = acc5 + ", W: "@;
    write_bit(writer, x.W);
    proof {
        lemma_append(start, acc6, bit_text(x.W));
    }
    let ghost acc7 = acc6 + bit_text(x.W);
    writer.code(", L: ");
    proof {
        lemma_append(start, acc7, ", L: "@);
    }
    let ghost acc8 = acc7 + ", L: "@;
    write_bit(writer, x.L);
    proof {
        lemma_append(start, acc8, bit_text(x.L));
    }
    let ghost acc9 = acc8 + bit_text(x.L);
    writer.code(", R: ");
    proof {
        lemma_append(start, acc9, ", R: "@);
    }
    let ghost acc10 = acc9 + ", R: "@;
    write_bit_ref(writer, x.R);
    proof {
        lemma_append(start, acc10, bit_ref_text(x.R));
    }
    let ghost acc11 = acc10 + bit_ref_text(x.R);
    writer.code(", B: ");
    proof {
        lemma_append(start, acc11, ", B: "@);
    }
    let ghost acc12 = acc11 + ", B: "@;
    write_bit_ref(writer, x.B);
    proof {
        lemma_append(start, acc12, bit_ref_text(x.B));
    }
    let ghost acc13 = acc12 + bit_ref_text(x.B);
    writer.code(", X: ");
    proof {
        lemma_append(start, acc13, ", X: "@);
    }
    let ghost acc14 = acc13 + ", X: "@;
    write_bit_ref(writer, x.X);
    proof {
        lemma_append(start, acc14, bit_ref_text(x.X));
    }
    let ghost acc15 = acc14 + bit_ref_text(x.X);
    writer.code(", vvvv: ");
    proof {
        lemma_append(start, acc15, ", vvvv: "@);
    }
    let ghost acc16 = acc15 + ", vvvv: "@;
    write_zero_ref(writer, x.vvvv);
    proof {
        lemma_append(start, acc16, zero_ref_text(x.vvvv));
    }
    let ghost acc17 = acc16 + zero_ref_text(x.vvvv);
    writer.code(" }");
    proof {
        lemma_append(start, acc17, " }"@);
    }
}

/// The template of an EVEX prefix with every field, as it is written in source text.
pub open spec fn evex_text(x: EVEX) -> Seq<char> {
    "EVEX { mm: "@ + number_text(x.mm)
        + ", pp: "@ + number_text(x.pp)
        + ", W: "@ + bit_text(x.W)
        + ", LL: "@ + length_text(x.LL)
        + ", RR: "@ + none_ref_text(x.RR)
        + ", B: "@ + none_ref_text(x.B)
        + ", X: "@ + none_ref_text(x.X)
        + ", vvvv: "@ + zero_ref_text(x.vvvv)
        + ", V: "@ + zero_ref_text(x.V)
        + ", b: "@ + zero_ref_text(x.b)
        + ", aaa: "@ + zero_ref_text(x.aaa)
        + ", z: "@ + zero_ref_text(x.z)
        + ", disp8xN: "@ + number_text(x.disp8xN)
        + " }"@
}

fn write_evex(writer: &mut CodeWriter, x: &EVEX)
    ensures
        final(writer)@ == old(writer)@ + evex_text(*x),
{
    let ghost start = writer@;
    writer.code("EVEX { mm: ");
    let ghost acc0 = "EVEX { mm: "@;
    write_number(writer, x.mm);
    proof {
        lemma_append(start, acc0, number_text(x.mm));
    }
    let ghost acc1 = acc0 + number_text(x.mm);
    writer.code(", pp: ");
    proof {
        lemma_append(start, acc1, ", pp: "@);
    }
    let ghost acc2 = acc1 + ", pp: "@;
    write_number(writer, x.pp);
    proof {
        lemma_append(start, acc2, number_text(x.pp));
    }
    let ghost acc3 = acc2 + number_text(x.pp);
    writer.code(", W: ");
    proof {
        lemma_append(start, acc3, ", W: "@);
    }
    let ghost acc4 = acc3 + ", W: "@;
    write_bit(writer, x.W);
    proof {
        lemma_append(start, acc4, bit_text(x.W));
    }
    let ghost acc5 = acc4 + bit_text(x.W);
    writer.code(", LL: ");
    proof {
        lemma_append(start, acc5, ", LL: "@);
    }
    let ghost acc6 = acc5 + ", LL: "@;
    write_length(writer, x.LL);
    proof {
        lemma_append(start, acc6, length_text(x.LL));
    }
    let ghost acc7 = acc6 + length_text(x.LL);
    writer.code(", RR: ");
    proof {
        lemma_append(start, acc7, ", RR: "@);
    }
    let ghost acc8 = acc7 + ", RR: "@;
    write_none_ref(writer, x.RR);
    proof {
        lemma_append(start, acc8, none_ref_text(x.RR));
    }
    let ghost acc9 = acc8 + none_ref_text(x.RR);
    writer.code(", B: ");
    proof {
        lemma_append(start, acc9, ", B: "@);
    }
    let ghost acc10 = acc9 + ", B: "@;
    write_none_ref(writer, x.B);
    proof {
        lemma_append(start, acc10, none_ref_text(x.B));
    }
    let ghost acc11 = acc10 + none_ref_text(x.B);
    writer.code(", X: ");
    proof {
        lemma_append(start, acc11, ", X: "@);
    }
    let ghost acc12 = acc11 + ", X: "@;
    write_none_ref(writer, x.X);
    proof {
        lemma_append(start, acc12, none_ref_text(x.X));
    }
    let ghost acc13 = acc12 + none_ref_text(x.X);
    writer.code(", vvvv: ");
    proof {
        lemma_append(start, acc13, ", vvvv: "@);
    }
    let ghost acc14 = acc13 + ", vvvv: "@;
    write_zero_ref(writer, x.vvvv);
    proof {
        lemma_append(start, acc14, zero_ref_text(x.vvvv));
    }
    let ghost acc15 = acc14 + zero_ref_text(x.vvvv);
    writer.code(", V: ");
    proof {
        lemma_append(start, acc15, ", V: "@);
    }
    let ghost acc16 = acc15 + ", V: "@;
    write_zero_ref(writer, x.V);
    proof {
        lemma_append(start, acc16, zero_ref_text(x.V));
    }
    let ghost acc17 = acc16 + zero_ref_text(x.V);
    writer.code(", b: ");
    proof {
        lemma_append(start, acc17, ", b: "@);
    }
    let ghost acc18 = acc17 + ", b: "@;
    write_zero_ref(writer, x.b);
    proof {
        lemma_append(start, acc18, zero_ref_text(x.b));
    }
    let ghost acc19 = acc18 + zero_ref_text(x.b);
    writer.code(", aaa: ");
    proof {
        lemma_append(start, acc19, ", aaa: "@);
    }
    let ghost acc20 = acc19 + ", aaa: "@;
    write_zero_ref(writer, x.aaa);
    proof {
        lemma_append(start, acc20, zero_ref_text(x.aaa));
    }
    let ghost acc21 = acc20 + zero_ref_text(x.aaa);
    writer.code(", z: ");
    proof {
        lemma_append(start, acc21, ", z: "@);
    }
    let ghost acc22 = acc21 + ", z: "@;
    write_zero_ref(writer, x.z);
    proof {
        lemma_append(start, acc22, zero_ref_text(x.z));
    }
    let ghost acc23 = acc22 + zero_ref_text(x.z);
    writer.code(", disp8xN: ");
    proof {
        lemma_append(start, acc23, ", disp8xN: "@);
    }
    let ghost acc24 = acc23 + ", disp8xN: "@;
    write_number(writer, x.disp8xN);
    proof {
        lemma_append(start, acc24, number_text(x.disp8xN));
    }
    let ghost acc25 = acc24 + number_text(x.disp8xN);
    writer.code(" }");
    proof {
        lemma_append(start, acc25, " }"@);
    }
}

/// An opcode with its addend, as it is written in source text.
pub open spec fn opcode_text(x: Opcode) -> Seq<char> {
    "Opcode { byte: "@ + byte_text(x.byte)
        + ", addend: "@ + none_ref_text(x.addend)
        + " }"@
}

fn write_opcode(writer: &mut CodeWriter, x: &Opcode)
    ensures
        final(writer)@ == old(writer)@ + opcode_text(*x),
{
    let ghost start = writer@;
    writer.code("Opcode { byte: ");
    let ghost acc0 = "Opcode { byte: "@;
    write_byte(writer, x.byte);
    proof {
        lemma_append(start, acc0, byte_text(x.byte));
    }
    let ghost acc1 = acc0 + byte_text(x.byte);
    writer.code(", addend: ");
    proof {
        lemma_append(start, acc1, ", addend: "@);
    }
    let ghost acc2 = acc1 + ", addend: "@;
    write_none_ref(writer, x.addend);
    proof {
        lemma_append(start, acc2, none_ref_text(x.addend));
    }
    let ghost acc3 = acc2 + none_ref_text(x.addend);
    writer.code(" }");
    proof {
        lemma_append(start, acc3, " }"@);
    }
}

/// The template of ModR/M with every field, as it is written in source text.
pub open spec fn modrm_text(x: ModRM) -> Seq<char> {
    "ModRM { mode: "@ + address_mode_text(x.mode)
        + ", rm: "@ + none_ref_text(x.rm)
        + ", reg: "@ + int_or_ref_text(x.reg)
        + " }"@
}

fn write_modrm(writer: &mut CodeWriter, x: &ModRM)
    ensures
        final(writer)@ == old(writer)@ + modrm_text(*x),
{
    let ghost start = writer@;
    writer.code("ModRM { mode: ");
    let ghost acc0 = "ModRM { mode: "@;
    write_address_mode(writer, x.mode);
    proof {
        lemma_append(start, acc0, address_mode_text(x.mode));
    }
    let ghost acc1 = acc0 + address_mode_text(x.mode);
    writer.code(", rm: ");
    proof {
        lemma_append(start, acc1, ", rm: "@);
    }
    let ghost acc2 = acc1 + ", rm: "@;
    write_none_ref(writer, x.rm);
    proof {
        lemma_append(start, acc2, none_ref_text(x.rm));
    }
    let ghost acc3 = acc2 + none_ref_text(x.rm);
    writer.code(", reg: ");
    proof {
        lemma_append(start, acc3, ", reg: "@);
    }
    let ghost acc4 = acc3 + ", reg: "@;
    write_int_or_ref(writer, x.reg);
    proof {
        lemma_append(start, acc4, int_or_ref_text(x.reg));
    }
    let ghost acc5 = acc4 + int_or_ref_text(x.reg);
    writer.code(" }");
    proof {
        lemma_append(start, acc5, " }"@);
    }
}

/// The template of a register byte, as it is written in source text.
pub open spec fn register_byte_text(x: RegisterByte) -> Seq<char> {
    "RegisterByte { register: "@ + none_ref_text(x.register)
        + ", payload: "@ + none_ref_text(x.payload)
        + " }"@
}

fn write_register_byte(writer: &mut CodeWriter, x: &RegisterByte)
    ensures
        final(writer)@ == old(writer)@ + register_byte_text(*x),
{
    let ghost start = writer@;
    writer.code("RegisterByte { register: ");
    let ghost acc0 = "RegisterByte { register: "@;
    write_none_ref(writer, x.register);
    proof {
        lemma_append(start, acc0, none_ref_text(x.register));
    }
    let ghost acc1 = acc0 + none_ref_text(x.register);
    writer.code(", payload: ");
    proof {
        lemma_append(start, acc1, ", payload: "@);
    }
    let ghost acc2 = acc1 + ", payload: "@;
    write_none_ref(writer, x.payload);
    proof {
        lemma_append(start, acc2, none_ref_text(x.payload));
    }
    let ghost acc3 = acc2 + none_ref_text(x.payload);
    writer.code(" }");
    proof {
        lemma_append(start, acc3, " }"@);
    }
}

/// The template of an immediate, as it is written in source text.
pub open spec fn immediate_text(x: Immediate) -> Seq<char> {
    "Immediate { size: "@ + number_text(x.size)
        + ", value: "@ + int_or_ref_text(x.value)
        + " }"@
}

fn write_immediate(writer: &mut CodeWriter, x: &Immediate)
    ensures
        final(writer)@ == old(writer)@ + immediate_text(*x),
{
    let ghost start = writer@;
    writer.code("Immediate { size: ");
    let ghost acc0 = "Immediate { size: "@;
    write_number(writer, x.size);
    proof {
        lemma_append(start, acc0, number_text(x.size));
    }
    let ghost acc1 = acc0 + number_text(x.size);
    writer.code(", value: ");
    proof {
        lemma_append(start, acc1, ", value: "@);
    }
    let ghost acc2 = acc1 + ", value: "@;
    write_int_or_ref(writer, x.value);
    proof {
        lemma_append(start, acc2, int_or_ref_text(x.value));
    }
    let ghost acc3 = acc2 + int_or_ref_text(x.value);
    writer.code(" }");
    proof {
        lemma_append(start, acc3, " }"@);
    }
}

/// The template of a code offset, as it is written in source text.
pub open spec fn code_offset_text(x: CodeOffset) -> Seq<char> {
    "CodeOffset { size: "@ + number_text(x.size)
        + ", value: "@ + none_ref_text(x.value)
        + " }"@
}

fn write_code_offset(writer: &mut CodeWriter, x: &CodeOffset)
    ensures
        final(writer)@ == old(writer)@ + code_offset_text(*x),
{
    let ghost start = writer@;
    writer.code("CodeOffset { size: ");
    let ghost acc0 = "CodeOffset { size: "@;
    write_number(writer, x.size);
    proof {
        lemma_append(start, acc0, number_text(x.size));
    }
    let ghost acc1 = acc0 + number_text(x.size);
    writer.code(", value: ");
    proof {
        lemma_append(start, acc1, ", value: "@);
    }
    let ghost acc2 = acc1 + ", value: "@;
    write_none_ref(writer, x.value);
    proof {
        lemma_append(start, acc2, none_ref_text(x.value));
    }
    let ghost acc3 = acc2 + none_ref_text(x.value);
    writer.code(" }");
    proof {
        lemma_append(start, acc3, " }"@);
    }
}

/// The statement that sets the `prefix` of the template, where it has one.
pub open spec fn prefix_line(field: Option<Prefix>) -> Seq<char> {
    match field {
        Some(x) => "encoding.prefix = Some("@ + prefix_text(x) + line(");"@),
        None => Seq::empty(),
    }
}

fn write_prefix_line(writer: &mut CodeWriter, field: &Option<Prefix>)
    ensures
        final(writer)@ == old(writer)@ + prefix_line(*field),
{
    match field {
        Some(x) => {
            writer.code("encoding.prefix = Some(");
            write_prefix(writer, x);
            writer.codenl(");");
            assert(writer@ =~= old(writer)@ + prefix_line(*field));
        },
        None => {
            assert(writer@ =~= old(writer)@ + prefix_line(*field));
        },
    }
}

/// The statement that sets the `rex` of the template, where it has one.
pub open spec fn rex_line(field: Option<REX>) -> Seq<char> {
    match field {
        Some(x) => "encoding.rex = Some("@ + rex_text(x) + line(");"@),
        None => Seq::empty(),
    }
}

fn write_rex_line(writer: &mut CodeWriter, field: &Option<REX>)
    ensures
        final(writer)@ == old(writer)@ + rex_line(*field),
{
    match field {
        Some(x) => {
            writer.code("encoding.rex = Some(");
            write_rex(writer, x);
            writer.codenl(");");
            assert(writer@ =~= old(writer)@ + rex_line(*field));
        },
        None => {
            assert(writer@ =~= old(writer)@ + rex_line(*field));
        },
    }
}

/// The statement that sets the `vex` of the template, where it has one.
pub open spec fn vex_line(field: Option<VEX>) -> Seq<char> {
    match field {
        Some(x) => "encoding.vex = Some("@ + vex_text(x) + line(");"@),
        None => Seq::empty(),
    }
}

fn write_vex_line(writer: &mut CodeWriter, field: &Option<VEX>)
    ensures
        final(writer)@ == old(writer)@ + vex_line(*field),
{
    match field {
        Some(x) => {
            writer.code("encoding.vex = Some(");
            write_vex(writer, x);
            writer.codenl(");");
            assert(writer@ =~= old(writer)@ + vex_line(*field));
        },
        None => {
            assert(writer@ =~= old(writer)@ + vex_line(*field));
        },
    }
}

/// The statement that sets the `evex` of the template, where it has one.
pub open spec fn evex_line(field: Option<EVEX>) -> Seq<char> {
    match field {
        Some(x) => "encoding.evex = Some("@ + evex_text(x) + line(");"@),
        None => Seq::empty(),
    }
}

fn write_evex_line(writer: &mut CodeWriter, field: &Option<EVEX>)
    ensures
        final(writer)@ == old(writer)@ + evex_line(*field),
{
    match field {
        Some(x) => {
            writer.code("encoding.evex = Some(");
            write_evex(writer, x);
            writer.codenl(");");
            assert(writer@ =~= old(writer)@ + evex_line(*field));
        },
        None => {
            assert(writer@ =~= old(writer)@ + evex_line(*field));
        },
    }
}

/// The statement that sets the `modrm` of the template, where it has one.
pub open spec fn modrm_line(field: Option<ModRM>) -> Seq<char> {
    match field {
        Some(x) => "encoding.modrm = Some("@ + modrm_text(x) + line(");"@),
        None => Seq::empty(),
    }
}

fn write_modrm_line(writer: &mut CodeWriter, field: &Option<ModRM>)
    ensures
        final(writer)@ == old(writer)@ + modrm_line(*field),
{
    match field {
        Some(x) => {
            writer.code("encoding.modrm = Some(");
            write_modrm(writer, x);
            writer.codenl(");");
            assert(writer@ =~= old(writer)@ + modrm_line(*field));
        },
        None => {
            assert(writer@ =~= old(writer)@ + modrm_line(*field));
        },
    }
}

/// The statement that sets the `register_byte` of the template, where it has one.
pub open spec fn register_byte_line(field: Option<RegisterByte>) -> Seq<char> {
    match field {
        Some(x) => "encoding.register_byte = Some("@ + register_byte_text(x) + line(");"@),
        None => Seq::empty(),
    }
}

fn write_register_byte_line(writer: &mut CodeWriter, field: &Option<RegisterByte>)
    ensures
        final(writer)@ == old(writer)@ + register_byte_line(*field),
{
    match field {
        Some(x) => {
            writer.code("encoding.register_byte = Some(");
            write_register_byte(writer, x);
            writer.codenl(");");
            assert(writer@ =~= old(writer)@ + register_byte_line(*field));
        },
        None => {
            assert(writer@ =~= old(writer)@ + register_byte_line(*field));
        },
    }
}

/// The statement that sets the `immediate` of the template, where it has one.
pub open spec fn immediate_line(field: Option<Immediate>) -> Seq<char> {
    match field {
        Some(x) => "encoding.immediate = Some("@ + immediate_text(x) + line(");"@),
        None => Seq::empty(),
    }
}

fn write_immediate_line(writer: &mut CodeWriter, field: &Option<Immediate>)
    ensures
        final(writer)@ == old(writer)@ + immediate_line(*field),
{
    match field {
        Some(x) => {
            writer.code("encoding.immediate = Some(");
            write_immediate(writer, x);
            writer.codenl(");");
            assert(writer@ =~= old(writer)@ + immediate_line(*field));
        },
        None => {
            assert(writer@ =~= old(writer)@ + immediate_line(*field));
        },
    }
}

/// The statement that sets the `code_offset` of the template, where it has one.
pub open spec fn code_offset_line(field: Option<CodeOffset>) -> Seq<char> {
    match field {
        Some(x) => "encoding.code_offset = Some("@ + code_offset_text(x) + line(");"@),
        None => Seq::empty(),
    }
}

fn write_code_offset_line(writer: &mut CodeWriter, field: &Option<CodeOffset>)
    ensures
        final(writer)@ == old(writer)@ + code_offset_line(*field),
{
    match field {
        Some(x) => {
            writer.code("encoding.code_offset = Some(");
            write_code_offset(writer, x);
            writer.codenl(");");
            assert(writer@ =~= old(writer)@ + code_offset_line(*field));
        },
        None => {
            assert(writer@ =~= old(writer)@ + code_offset_line(*field));
        },
    }
}

/// The statement that adds one opcode to the template.
pub open spec fn opcode_line(opcode: Opcode) -> Seq<char> {
    "encoding.opcodes.push("@ + opcode_text(opcode) + line(");"@)
}

/// The statements that add the first `n` opcodes to the template.
pub open spec fn opcode_lines(opcodes: Seq<Opcode>, n: nat) -> Seq<char>
    decreases n,
{
    if n == 0 {
        Seq::empty()
    } else {
        opcode_lines(opcodes, (n - 1) as nat) + opcode_line(opcodes[n - 1])
    }
}

fn write_opcode_lines(writer: &mut CodeWriter, opcodes: &Vec<Opcode>)
    ensures
        final(writer)@ == old(writer)@ + opcode_lines(opcodes@, opcodes@.len()),
{
    let mut i: usize = 0;
    assert(writer@ =~= old(writer)@ + opcode_lines(opcodes@, 0));
    while i < opcodes.len()
        invariant
            i <= opcodes@.len(),
            writer@ == old(writer)@ + opcode_lines(opcodes@, i as nat),
        decreases opcodes@.len() - i,
    {
        let ghost before = writer@;
        writer.code("encoding.opcodes.push(");
        write_opcode(writer, &opcodes[i]);
        writer.codenl(");");
        assert(writer@ =~= before + opcode_line(opcodes@[i as int]));
        i = i + 1;
        assert(writer@ =~= old(writer)@ + opcode_lines(opcodes@, i as nat));
    }
}

/// The statements that spell out a template: every field that it holds,
/// with every field of that field, in the order of the instruction's bytes.
pub open spec fn template_lines(enc: EncodingView) -> Seq<char> {
    prefix_line(enc.prefix) + rex_line(enc.rex) + vex_line(enc.vex) + evex_line(enc.evex)
        + opcode_lines(enc.opcodes, enc.opcodes.len()) + modrm_line(enc.modrm)
        + register_byte_line(enc.register_byte) + immediate_line(enc.immediate) + code_offset_line(
        enc.code_offset,
    )
}

/// Appending is associative.
pub proof fn lemma_append(a: Seq<char>, b: Seq<char>, c: Seq<char>)
    ensures
        (a + b) + c == a + (b + c),
{
    assert((a + b) + c =~= a + (b + c));
}

/// Writes the statements that spell out a template.
pub fn write_template(writer: &mut CodeWriter, enc: &Encoding)
    ensures
        final(writer)@ == old(writer)@ + template_lines(enc@),
{
    let ghost start = writer@;
    let ghost lines1 = prefix_line(enc@.prefix);
    let ghost lines2 = lines1 + rex_line(enc@.rex);
    let ghost lines3 = lines2 + vex_line(enc@.vex);
    let ghost lines4 = lines3 + evex_line(enc@.evex);
    let ghost lines5 = lines4 + opcode_lines(enc@.opcodes, enc@.opcodes.len());
    let ghost lines6 = lines5 + modrm_line(enc@.modrm);
    let ghost lines7 = lines6 + register_byte_line(enc@.register_byte);
    let ghost lines8 = lines7 + immediate_line(enc@.immediate);
    write_prefix_line(writer, &enc.prefix);
    write_rex_line(writer, &enc.rex);
    proof {
        lemma_append(start, lines1, rex_line(enc@.rex));
    }
    write_vex_line(writer, &enc.vex);
    proof {
        lemma_append(start, lines2, vex_line(enc@.vex));
    }
    write_evex_line(writer, &enc.evex);
    proof {
        lemma_append(start, lines3, evex_line(enc@.evex));
    }
    write_opcode_lines(writer, &enc.opcodes);
    proof {
        lemma_append(start, lines4, opcode_lines(enc@.opcodes, enc@.opcodes.len()));
    }
    write_modrm_line(writer, &enc.modrm);
    proof {
        lemma_append(start, lines5, modrm_line(enc@.modrm));
    }
    write_register_byte_line(writer, &enc.register_byte);
    proof {
        lemma_append(start, lines6, register_byte_line(enc@.register_byte));
    }
    write_immediate_line(writer, &enc.immediate);
    proof {
        lemma_append(start, lines7, immediate_line(enc@.immediate));
    }
    write_code_offset_line(writer, &enc.code_offset);
    proof {
        lemma_append(start, lines8, code_offset_line(enc@.code_offset));
    }
}

/// The statement that adds one operand kind to the form's signature.
pub open spec fn kind_line(id: OperandId) -> Seq<char> {
    "form.operands.push(Operand { id: OperandId::"@ + kind_name(id) + line(
        ", ..Operand::new() });"@,
    )
}

/// The statements that add the first `n` operand kinds to the form's signature.
pub open spec fn kind_lines(operands: Seq<Operand>, n: nat) -> Seq<char>
    decreases n,
{
    if n == 0 {
        Seq::empty()
    } else {
        kind_lines(operands, (n - 1) as nat) + kind_line(operands[n - 1].id)
    }
}

/// Writes the statements that spell out a form's signature.
pub fn write_kinds(writer: &mut CodeWriter, operands: &Vec<Operand>)
    ensures
        final(writer)@ == old(writer)@ + kind_lines(operands@, operands@.len()),
{
    let mut i: usize = 0;
    assert(writer@ =~= old(writer)@ + kind_lines(operands@, 0));
    while i < operands.len()
        invariant
            i <= operands@.len(),
            writer@ == old(writer)@ + kind_lines(operands@, i as nat),
        decreases operands@.len() - i,
    {
        let ghost before = writer@;
        writer.code("form.operands.push(Operand { id: OperandId::");
        writer.code(kind_name_of(operands[i].id));
        writer.codenl(", ..Operand::new() });");
        assert(writer@ =~= before + kind_line(operands@[i as int].id));
        i = i + 1;
        assert(writer@ =~= old(writer)@ + kind_lines(operands@, i as nat));
    }
}

/// A register operand with every field, as it is written in source text.
pub open spec fn register_value_text(r: Register) -> Seq<char> {
    "OperandValue::Register(Register { class: RegisterClass::"@ + class_name(r.class)
        + ", index: "@ + number_text(r.index) + ", mask: "@ + number_text(r.mask)
        + ", zeroing: "@ + bool_text(r.zeroing) + " })"@
}

/// The concrete operand that the operation hands to the encoder for the
/// operand at a position: the one operand that a hard-coded kind stands
/// for, and else the argument of that position.
pub open spec fn argument_text(position: nat, id: OperandId) -> Seq<char> {
    match fixed_operand(id) {
        Some(OperandValue::Register(r)) => register_value_text(r),
        Some(OperandValue::Immediate(n)) => "OperandValue::Immediate("@ + decimal_text(n as nat)
            + ")"@,
        _ => "arg"@ + decimal_text(position) + ".into()"@,
    }
}

/// The statement that hands one operand to the encoder.
pub open spec fn argument_line(position: nat, id: OperandId) -> Seq<char> {
    "operands.push("@ + argument_text(position, id) + line(");"@)
}

/// The statements that hand the first `n` operands to the encoder, in order.
pub open spec fn argument_lines(operands: Seq<Operand>, n: nat) -> Seq<char>
    decreases n,
{
    if n == 0 {
        Seq::empty()
    } else {
        argument_lines(operands, (n - 1) as nat) + argument_line(
            (n - 1) as nat,
            operands[n - 1].id,
        )
    }
}

fn write_argument(writer: &mut CodeWriter, position: usize, id: OperandId)
    ensures
        final(writer)@ == old(writer)@ + argument_text(position as nat, id),
{
    match fixed_operand_of(id) {
        Some(OperandValue::Register(r)) => {
            writer.code("OperandValue::Register(Register { class: RegisterClass::");
            writer.code(class_name_of(r.class));
            writer.code(", index: ");
            write_number(writer, r.index);
            writer.code(", mask: ");
            write_number(writer, r.mask);
            writer.code(", zeroing: ");
            write_bool(writer, r.zeroing);
            writer.code(" })");
            assert(writer@ =~= old(writer)@ + register_value_text(r));
        },
        Some(OperandValue::Immediate(n)) => {
            assert(0 <= n <= 255);
            let digits = decimal(n as usize);
            writer.code("OperandValue::Immediate(");
            writer.code(digits.as_str());
            writer.code(")");
            assert(writer@ =~= old(writer)@ + argument_text(position as nat, id));
        },
        _ => {
            let digits = decimal(position);
            writer.code("arg");
            writer.code(digits.as_str());
            writer.code(".into()");
            assert(writer@ =~= old(writer)@ + argument_text(position as nat, id));
        },
    }
}

/// Writes the statements that hand the operands to the encoder.
pub fn write_arguments(writer: &mut CodeWriter, operands: &Vec<Operand>)
    ensures
        final(writer)@ == old(writer)@ + argument_lines(operands@, operands@.len()),
{
    let mut i: usize = 0;
    assert(writer@ =~= old(writer)@ + argument_lines(operands@, 0));
    while i < operands.len()
        invariant
            i <= operands@.len(),
            writer@ == old(writer)@ + argument_lines(operands@, i as nat),
        decreases operands@.len() - i,
    {
        let ghost before = writer@;
        writer.code("operands.push(");
        write_argument(writer, i, operands[i].id);
        writer.codenl(");");
        assert(writer@ =~= before + argument_line(i as nat, operands@[i as int].id));
        i = i + 1;
        assert(writer@ =~= old(writer)@ + argument_lines(operands@, i as nat));
    }
}

} // verus!
