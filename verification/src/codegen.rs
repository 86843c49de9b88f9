use crate::assembler::{AssembleError, AssembleFault};
use crate::code_writer::{line, CodeWriter};
use crate::encoder::{
    check_template, form_encoding, lemma_faultless, takes_unsupported, template_fault,
    EncodeError,
};
use crate::group_parser::{load_instruction_groups, loaded_groups};
use crate::loader::{
    filter_instruction_forms, filtered, is_moffs, load_instruction_set, loaded_instruction_set,
    referenced_views,
};
use crate::operand::{
    admits, fixed_operand, lemma_fixed_operand_admitted, shape_of, signature_admits, OperandValue,
};
use crate::template_text::{
    argument_lines, kind_lines, lemma_append, template_lines, write_arguments, write_kinds,
    write_template,
};
use crate::text::{decimal, decimal_text, str_eq};
use crate::types::{
    instruction_views, FormView, Instruction, InstructionForm, InstructionView, Operand,
    OperandId, ParseFault, ParseInsError,
};
use vstd::prelude::*;

verus! {

/// The mnemonics of the jumps.
pub open spec fn branch(name: Seq<char>) -> bool {
    name == "JA"@
        || name == "JNA"@
        || name == "JAE"@
        || name == "JNAE"@
        || name == "JB"@
        || name == "JNB"@
        || name == "JBE"@
        || name == "JNBE"@
        || name == "JC"@
        || name == "JNC"@
        || name == "JE"@
        || name == "JNE"@
        || name == "JG"@
        || name == "JNG"@
        || name == "JGE"@
        || name == "JNGE"@
        || name == "JL"@
        || name == "JNL"@
        || name == "JLE"@
        || name == "JNLE"@
        || name == "JO"@
        || name == "JNO"@
        || name == "JP"@
        || name == "JNP"@
        || name == "JS"@
        || name == "JNS"@
        || name == "JZ"@
        || name == "JNZ"@
        || name == "JPE"@
        || name == "JPO"@
        || name == "JECXZ"@
        || name == "JRCXZ"@
        || name == "JMP"@
}

/// Whether a mnemonic is a jump.
pub fn is_branch(ins: &String) -> (r: bool)
    ensures
        r == branch(ins@),
{
    let name = ins.as_str();
    str_eq(name, "JA")
        || str_eq(name, "JNA")
        || str_eq(name, "JAE")
        || str_eq(name, "JNAE")
        || str_eq(name, "JB")
        || str_eq(name, "JNB")
        || str_eq(name, "JBE")
        || str_eq(name, "JNBE")
        || str_eq(name, "JC")
        || str_eq(name, "JNC")
        || str_eq(name, "JE")
        || str_eq(name, "JNE")
        || str_eq(name, "JG")
        || str_eq(name, "JNG")
        || str_eq(name, "JGE")
        || str_eq(name, "JNGE")
        || str_eq(name, "JL")
        || str_eq(name, "JNL")
        || str_eq(name, "JLE")
        || str_eq(name, "JNLE")
        || str_eq(name, "JO")
        || str_eq(name, "JNO")
        || str_eq(name, "JP")
        || str_eq(name, "JNP")
        || str_eq(name, "JS")
        || str_eq(name, "JNS")
        || str_eq(name, "JZ")
        || str_eq(name, "JNZ")
        || str_eq(name, "JPE")
        || str_eq(name, "JPO")
        || str_eq(name, "JECXZ")
        || str_eq(name, "JRCXZ")
        || str_eq(name, "JMP")
}

/// The type that stands for an operand kind in the generated library. The
/// hard-coded kinds have none.
pub open spec fn struct_name(id: OperandId) -> Seq<char> {
    match id {
        OperandId::rel8 => "RIPRelativeOffset8"@,
        OperandId::rel32 => "RIPRelativeOffset32"@,
        OperandId::imm4 => "Imm4"@,
        OperandId::imm8 => "Imm8"@,
        OperandId::imm16 => "Imm16"@,
        OperandId::imm32 => "Imm32"@,
        OperandId::imm64 => "Imm64"@,
        OperandId::r8 => "GPRegister8"@,
        OperandId::r16 => "GPRegister16"@,
        OperandId::r32 => "GPRegister32"@,
        OperandId::r64 => "GPRegister64"@,
        OperandId::mm => "MMXRegister"@,
        OperandId::xmm => "XMMRegister"@,
        OperandId::xmm_k_ => "XMMRegisterK"@,
        OperandId::xmm_k_z_ => "XMMRegisterKZ"@,
        OperandId::ymm => "YMMRegister"@,
        OperandId::ymm_k_ => "YMMRegisterK"@,
        OperandId::ymm_k_z_ => "YMMRegisterKZ"@,
        OperandId::zmm => "ZMMRegister"@,
        OperandId::zmm_k_ => "ZMMRegisterK"@,
        OperandId::zmm_k_z_ => "ZMMRegisterKZ"@,
        OperandId::k => "KRegister"@,
        OperandId::k_k_ => "KRegisterK"@,
        OperandId::m => "MemoryAny"@,
        OperandId::m8 => "Memory8"@,
        OperandId::m16 => "Memory16"@,
        OperandId::m16_k_z_ => "Memory16KZ"@,
        OperandId::m32 => "Memory32"@,
        OperandId::m32_k_ => "Memory32K"@,
        OperandId::m32_k_z_ => "Memory32KZ"@,
        OperandId::m64 => "Memory64"@,
        OperandId::m64_k_ => "Memory64K"@,
        OperandId::m64_k_z_ => "Memory64KZ"@,
        OperandId::m80 => "Memory80"@,
        OperandId::m128 => "Memory128"@,
        OperandId::m128_k_z_ => "Memory128KZ"@,
        OperandId::m256 => "Memory256"@,
        OperandId::m256_k_z_ => "Memory256KZ"@,
        OperandId::m512 => "Memory512"@,
        OperandId::m512_k_z_ => "Memory512KZ"@,
        OperandId::m64__m32bcst => "BroadcastM64M32"@,
        OperandId::m128__m32bcst => "BroadcastM128M32"@,
        OperandId::m256__m32bcst => "BroadcastM256M32"@,
        OperandId::m512__m32bcst => "BroadcastM512M32"@,
        OperandId::m128__m64bcst => "BroadcastM128M64"@,
        OperandId::m256__m64bcst => "BroadcastM256M64"@,
        OperandId::m512__m64bcst => "BroadcastM512M64"@,
        OperandId::vm32x => "VMemory32XMM"@,
        OperandId::vm32x_k_ => "VMemory32XMMK"@,
        OperandId::vm32y => "VMemory32YMM"@,
        OperandId::vm32y_k_ => "VMemory32YMMK"@,
        OperandId::vm32z => "VMemory32ZMM"@,
        OperandId::vm32z_k_ => "VMemory32ZMMK"@,
        OperandId::vm64x => "VMemory64XMM"@,
        OperandId::vm64x_k_ => "VMemory64XMMK"@,
        OperandId::vm64y => "VMemory64YMM"@,
        OperandId::vm64y_k_ => "VMemory64YMMK"@,
        OperandId::vm64z => "VMemory64ZMM"@,
        OperandId::vm64z_k_ => "VMemory64ZMMK"@,
        OperandId::_sae_ => "SuppressAllExceptions"@,
        OperandId::_er_ => "RoundingControl"@,
        _ => ""@,
    }
}

/// The type that stands for an operand kind in the generated library. The
/// two kinds that are never emitted are left out.
pub fn operand_to_struct(id: &OperandId) -> (r: &'static str)
    requires
        !is_moffs(*id),
    ensures
        r@ == struct_name(*id),
{
    match *id {
        OperandId::rel8 => "RIPRelativeOffset8",
        OperandId::rel32 => "RIPRelativeOffset32",
        OperandId::imm4 => "Imm4",
        OperandId::imm8 => "Imm8",
        OperandId::imm16 => "Imm16",
        OperandId::imm32 => "Imm32",
        OperandId::imm64 => "Imm64",
        OperandId::r8 => "GPRegister8",
        OperandId::r16 => "GPRegister16",
        OperandId::r32 => "GPRegister32",
        OperandId::r64 => "GPRegister64",
        OperandId::mm => "MMXRegister",
        OperandId::xmm => "XMMRegister",
        OperandId::xmm_k_ => "XMMRegisterK",
        OperandId::xmm_k_z_ => "XMMRegisterKZ",
        OperandId::ymm => "YMMRegister",
        OperandId::ymm_k_ => "YMMRegisterK",
        OperandId::ymm_k_z_ => "YMMRegisterKZ",
        OperandId::zmm => "ZMMRegister",
        OperandId::zmm_k_ => "ZMMRegisterK",
        OperandId::zmm_k_z_ => "ZMMRegisterKZ",
        OperandId::k => "KRegister",
        OperandId::k_k_ => "KRegisterK",
        OperandId::m => "MemoryAny",
        OperandId::m8 => "Memory8",
        OperandId::m16 => "Memory16",
        OperandId::m16_k_z_ => "Memory16KZ",
        OperandId::m32 => "Memory32",
        OperandId::m32_k_ => "Memory32K",
        OperandId::m32_k_z_ => "Memory32KZ",
        OperandId::m64 => "Memory64",
        OperandId::m64_k_ => "Memory64K",
        OperandId::m64_k_z_ => "Memory64KZ",
        OperandId::m80 => "Memory80",
        OperandId::m128 => "Memory128",
        OperandId::m128_k_z_ => "Memory128KZ",
        OperandId::m256 => "Memory256",
        OperandId::m256_k_z_ => "Memory256KZ",
        OperandId::m512 => "Memory512",
        OperandId::m512_k_z_ => "Memory512KZ",
        OperandId::m64__m32bcst => "BroadcastM64M32",
        OperandId::m128__m32bcst => "BroadcastM128M32",
        OperandId::m256__m32bcst => "BroadcastM256M32",
        OperandId::m512__m32bcst => "BroadcastM512M32",
        OperandId::m128__m64bcst => "BroadcastM128M64",
        OperandId::m256__m64bcst => "BroadcastM256M64",
        OperandId::m512__m64bcst => "BroadcastM512M64",
        OperandId::vm32x => "VMemory32XMM",
        OperandId::vm32x_k_ => "VMemory32XMMK",
        OperandId::vm32y => "VMemory32YMM",
        OperandId::vm32y_k_ => "VMemory32YMMK",
        OperandId::vm32z => "VMemory32ZMM",
        OperandId::vm32z_k_ => "VMemory32ZMMK",
        OperandId::vm64x => "VMemory64XMM",
        OperandId::vm64x_k_ => "VMemory64XMMK",
        OperandId::vm64y => "VMemory64YMM",
        OperandId::vm64y_k_ => "VMemory64YMMK",
        OperandId::vm64z => "VMemory64ZMM",
        OperandId::vm64z_k_ => "VMemory64ZMMK",
        OperandId::_sae_ => "SuppressAllExceptions",
        OperandId::_er_ => "RoundingControl",
        _ => "",
    }
}

/// The kinds that stand for one register or one value: they are not
/// parameters of the generated operation.
pub open spec fn hard_coded(id: OperandId) -> bool {
    match id {
        OperandId::_1_ => true,
        OperandId::_3_ => true,
        OperandId::al => true,
        OperandId::ax => true,
        OperandId::eax => true,
        OperandId::rax => true,
        OperandId::cl => true,
        OperandId::xmm0 => true,
        _ => false,
    }
}

/// Whether a kind stands for one register or one value.
pub fn is_hard_coded_op(id: &OperandId) -> (r: bool)
    ensures
        r == hard_coded(*id),
{
    match *id {
        OperandId::_1_ => true,
        OperandId::_3_ => true,
        OperandId::al => true,
        OperandId::ax => true,
        OperandId::eax => true,
        OperandId::rax => true,
        OperandId::cl => true,
        OperandId::xmm0 => true,
        _ => false,
    }
}

/// The type of an operand in a signature.
pub open spec fn signature_type(id: OperandId) -> Seq<char> {
    if hard_coded(id) {
        "HardCodedOp"@
    } else {
        struct_name(id)
    }
}

/// The types of the first `n` operands, separated by commas.
pub open spec fn type_list(operands: Seq<Operand>, n: nat) -> Seq<char>
    decreases n,
{
    if n == 0 {
        Seq::empty()
    } else if n == 1 {
        signature_type(operands[0].id)
    } else {
        type_list(operands, (n - 1) as nat) + ", "@ + signature_type(operands[n - 1].id)
    }
}

/// The parameter for the operand at a position; a hard-coded kind has none.
pub open spec fn parameter(position: nat, id: OperandId) -> Seq<char> {
    if hard_coded(id) {
        Seq::empty()
    } else {
        ", arg"@ + decimal_text(position) + ": "@ + struct_name(id)
    }
}

/// The parameters for the first `n` operands.
pub open spec fn parameter_list(operands: Seq<Operand>, n: nat) -> Seq<char>
    decreases n,
{
    if n == 0 {
        Seq::empty()
    } else {
        parameter_list(operands, (n - 1) as nat) + parameter((n - 1) as nat, operands[n - 1].id)
    }
}

/// The hard-coded kinds are those that stand for one operand: exactly for
/// them the operation has no parameter and hands that operand to the
/// encoder.
pub proof fn lemma_hard_coded_is_fixed(id: OperandId)
    ensures
        hard_coded(id) <==> fixed_operand(id) is Some,
{
}

/// The operands that an operation hands to the encoder, where `arguments`
/// holds at each position the argument of that position: at the position of
/// a hard-coded kind the one operand of that kind, whatever the argument.
pub open spec fn handed_operands(operands: Seq<Operand>, arguments: Seq<OperandValue>) -> Seq<
    OperandValue,
> {
    Seq::new(
        arguments.len(),
        |i: int|
            if 0 <= i < operands.len() && fixed_operand(operands[i].id) is Some {
                fixed_operand(operands[i].id)->0
            } else {
                arguments[i]
            },
    )
}

/// What the statements of a generated body come to: the encoder's result
/// for the form and the operands that are handed to it.
pub open spec fn operation_outcome(form: FormView, arguments: Seq<OperandValue>) -> Result<
    Seq<u8>,
    EncodeError,
> {
    form_encoding(form, handed_operands(form.operands, arguments))
}

/// Leaving the hard-coded operands out of the parameters loses nothing: for
/// operands that fit the form's signature the operation hands the encoder
/// these very operands, and so writes the instruction that the encoder gives
/// for the form and them.
pub proof fn lemma_operation_encodes(form: FormView, ops: Seq<OperandValue>)
    requires
        signature_admits(form.operands, ops),
    ensures
        handed_operands(form.operands, ops) == ops,
        operation_outcome(form, ops) == form_encoding(form, ops),
{
    assert forall|i: int| 0 <= i < ops.len() implies handed_operands(form.operands, ops)[i]
        == ops[i] by {
        if fixed_operand(form.operands[i].id) is Some {
            assert(admits(form.operands[i].id, ops[i]));
            lemma_fixed_operand_admitted(form.operands[i].id, ops[i]);
        }
    }
    assert(handed_operands(form.operands, ops) =~= ops);
}

/// The first statements of a body: the form's signature is spelled out.
pub open spec fn form_lines(form: FormView) -> Seq<char> {
    line("let mut form = InstructionForm::new();"@) + kind_lines(
        form.operands,
        form.operands.len(),
    )
}

/// The middle of a body: the form's first template is spelled out, field by
/// field, and joined to the form.
pub open spec fn encoding_lines(form: FormView) -> Seq<char> {
    line("let mut encoding = Encoding::new();"@) + template_lines(form.encodings[0]) + line(
        "form.encodings.push(encoding);"@,
    )
}

/// The last statements of a body: the operation's arguments and the
/// hard-coded operands are gathered in the order of the signature and
/// handed, with the form, to the encoder, whose result is the operation's.
pub open spec fn call_lines(form: FormView) -> Seq<char> {
    line("let mut operands: Vec<OperandValue> = Vec::new();"@) + argument_lines(
        form.operands,
        form.operands.len(),
    ) + line("encode(&form, &operands, bytes)"@)
}

/// The body of an operation: it builds the form with its first template,
/// gathers the operands and has the encoder write the whole instruction.
/// What these statements come to is `operation_outcome`.
pub open spec fn body_text(form: FormView) -> Seq<char> {
    form_lines(form) + encoding_lines(form) + call_lines(form)
}

/// The first line of an implementation: the trait of the arity, with the
/// types of the operands, for the mnemonic.
pub open spec fn impl_header(name: Seq<char>, form: FormView) -> Seq<char> {
    "impl Ins"@ + decimal_text(form.operands.len()) + "x<"@ + type_list(
        form.operands,
        form.operands.len(),
    ) + "> for "@ + line(name + " {"@)
}

/// The first line of an operation: its name tells the arity, it takes the
/// buffer that it appends to, and its other parameters are the operands that
/// are not hard-coded. It returns what the encoder returns.
pub open spec fn fn_header(form: FormView) -> Seq<char> {
    "pub fn ins"@ + decimal_text(form.operands.len())
        + "x(runtime: &JitRuntime, bytes: &mut Vec<u8>"@ + parameter_list(
        form.operands,
        form.operands.len(),
    ) + line(") -> Result<(), EncodeError> {"@)
}

/// The implementation that is generated for one form of a mnemonic.
#[verifier::opaque]
pub open spec fn trait_impl_text(name: Seq<char>, form: FormView) -> Seq<char> {
    impl_header(name, form) + fn_header(form) + body_text(form) + line("}"@) + line("}"@)
}

/// The implementations of the first `n` forms.
pub open spec fn forms_text(name: Seq<char>, forms: Seq<FormView>, n: nat) -> Seq<char>
    decreases n,
{
    if n == 0 {
        Seq::empty()
    } else {
        forms_text(name, forms, (n - 1) as nat) + trait_impl_text(name, forms[n - 1])
    }
}

/// The first lines for a mnemonic: its documentation and its type.
pub open spec fn struct_text(ins: InstructionView) -> Seq<char> {
    "/// "@ + line("Generated struct and trait implementations for:"@) + "/// "@ + line(ins.name)
        + "/// "@ + line(ins.summary) + "pub struct "@ + line(ins.name + " {}"@)
}

/// What is generated for one mnemonic: nothing where none of its forms can
/// be encoded, and else its type and one implementation for each form that
/// can, smaller arities first.
pub open spec fn instruction_text(ins: InstructionView) -> Seq<char> {
    let forms = filtered(ins.forms);
    if forms.len() == 0 {
        Seq::empty()
    } else {
        struct_text(ins) + forms_text(ins.name, forms, forms.len())
    }
}

/// The first among the first `n` forms whose template is at fault, with its
/// index and the fault.
pub open spec fn first_fault(forms: Seq<FormView>, n: nat) -> Option<(usize, EncodeError)>
    decreases n,
{
    if n == 0 {
        None
    } else {
        match first_fault(forms, (n - 1) as nat) {
            Some(fault) => Some(fault),
            None => match template_fault(forms[n - 1]) {
                Some(kind) => Some(((n - 1) as usize, kind)),
                None => None,
            },
        }
    }
}

/// What generation comes to for one mnemonic: its text, or, where the
/// template of one of its forms is at fault, the error that names the
/// mnemonic, the index of the first such form among the forms that are
/// generated, and the fault. No text is written for a faulty form.
#[verifier::opaque]
pub open spec fn instruction_outcome(ins: InstructionView) -> Result<Seq<char>, AssembleFault> {
    let forms = filtered(ins.forms);
    match first_fault(forms, forms.len()) {
        Some(fault) => Err(
            AssembleFault { mnemonic: ins.name, form: Some(fault.0), kind: fault.1 },
        ),
        None => Ok(instruction_text(ins)),
    }
}

/// What generation comes to for the first `n` mnemonics: their texts in
/// order, or the error of the first mnemonic that has one.
pub open spec fn set_outcome(set: Seq<InstructionView>, n: nat) -> Result<Seq<char>, AssembleFault>
    decreases n,
{
    if n == 0 {
        Ok(Seq::empty())
    } else {
        match set_outcome(set, (n - 1) as nat) {
            Ok(text) => match instruction_outcome(set[n - 1]) {
                Ok(more) => Ok(text + more),
                Err(e) => Err(e),
            },
            Err(e) => Err(e),
        }
    }
}

/// Why no source text is generated: a description is at fault, or the
/// template of a form is.
#[derive(Debug)]
pub enum GenerateError {
    Description(ParseInsError),
    Template(AssembleError),
}

/// A `GenerateError` as a mathematical value.
pub enum GenerateFault {
    Description(ParseFault),
    Template(AssembleFault),
}

impl View for GenerateError {
    type V = GenerateFault;

    open spec fn view(&self) -> GenerateFault {
        match self {
            GenerateError::Description(e) => GenerateFault::Description(e@),
            GenerateError::Template(e) => GenerateFault::Template(e@),
        }
    }
}

/// The source text that is generated from the descriptions of the
/// instruction set and of its groups, or why none is.
pub open spec fn generated(instructions: Seq<char>, groups: Seq<char>) -> Result<
    Seq<char>,
    GenerateFault,
> {
    match loaded_instruction_set(instructions) {
        Ok(set) => match loaded_groups(groups) {
            Ok(_) => match set_outcome(set, set.len()) {
                Ok(text) => Ok(text),
                Err(e) => Err(GenerateFault::Template(e)),
            },
            Err(e) => Err(GenerateFault::Description(e)),
        },
        Err(e) => Err(GenerateFault::Description(e)),
    }
}

proof fn lemma_fault_stays(forms: Seq<FormView>, k: nat, n: nat)
    requires
        k <= n,
        first_fault(forms, k) is Some,
    ensures
        first_fault(forms, n) == first_fault(forms, k),
    decreases n - k,
{
    if k < n {
        lemma_fault_stays(forms, k, (n - 1) as nat);
    }
}

proof fn lemma_no_fault(forms: Seq<FormView>, n: nat)
    requires
        first_fault(forms, n) is None,
    ensures
        forall|i: int| 0 <= i < n ==> template_fault(#[trigger] forms[i]) is None,
    decreases n,
{
    if n > 0 {
        lemma_no_fault(forms, (n - 1) as nat);
    }
}

proof fn lemma_fault_ends_generation(set: Seq<InstructionView>, k: nat, n: nat)
    requires
        k <= n,
        set_outcome(set, k) is Err,
    ensures
        set_outcome(set, n) == set_outcome(set, k),
    decreases n - k,
{
    if k < n {
        lemma_fault_ends_generation(set, k, (n - 1) as nat);
    }
}

fn write_type_list(writer: &mut CodeWriter, operands: &Vec<Operand>)
    requires
        forall|i: int| 0 <= i < operands@.len() ==> !is_moffs(#[trigger] operands@[i].id),
    ensures
        final(writer)@ == old(writer)@ + type_list(operands@, operands@.len()),
{
    let mut i: usize = 0;
    assert(writer@ =~= old(writer)@ + type_list(operands@, 0));
    while i < operands.len()
        invariant
            i <= operands@.len(),
            forall|k: int| 0 <= k < operands@.len() ==> !is_moffs(#[trigger] operands@[k].id),
            writer@ == old(writer)@ + type_list(operands@, i as nat),
        decreases operands@.len() - i,
    {
        if i > 0 {
            writer.code(", ");
        }
        if is_hard_coded_op(&operands[i].id) {
            writer.code("HardCodedOp");
        } else {
            writer.code(operand_to_struct(&operands[i].id));
        }
        i = i + 1;
        assert(writer@ =~= old(writer)@ + type_list(operands@, i as nat));
    }
}

fn write_parameter_list(writer: &mut CodeWriter, operands: &Vec<Operand>)
    requires
        forall|i: int| 0 <= i < operands@.len() ==> !is_moffs(#[trigger] operands@[i].id),
    ensures
        final(writer)@ == old(writer)@ + parameter_list(operands@, operands@.len()),
{
    let mut i: usize = 0;
    assert(writer@ =~= old(writer)@ + parameter_list(operands@, 0));
    while i < operands.len()
        invariant
            i <= operands@.len(),
            forall|k: int| 0 <= k < operands@.len() ==> !is_moffs(#[trigger] operands@[k].id),
            writer@ == old(writer)@ + parameter_list(operands@, i as nat),
        decreases operands@.len() - i,
    {
        if !is_hard_coded_op(&operands[i].id) {
            let position = decimal(i);
            writer.code(", arg");
            writer.code(position.as_str());
            writer.code(": ");
            writer.code(operand_to_struct(&operands[i].id));
        }
        i = i + 1;
        assert(writer@ =~= old(writer)@ + parameter_list(operands@, i as nat));
    }
}

fn write_body(writer: &mut CodeWriter, form: &InstructionForm)
    requires
        form.encodings@.len() > 0,
    ensures
        final(writer)@ == old(writer)@ + body_text(form@),
{
    let ghost start = writer@;
    writer.codenl("let mut form = InstructionForm::new();");
    write_kinds(writer, &form.operands);
    assert(writer@ =~= start + form_lines(form@));
    let ghost built = writer@;
    let encoding = &form.encodings[0];
    assert(form@.encodings[0] == encoding@);
    writer.codenl("let mut encoding = Encoding::new();");
    write_template(writer, encoding);
    writer.codenl("form.encodings.push(encoding);");
    assert(writer@ =~= built + encoding_lines(form@));
    let ghost spelled = writer@;
    writer.codenl("let mut operands: Vec<OperandValue> = Vec::new();");
    write_arguments(writer, &form.operands);
    writer.codenl("encode(&form, &operands, bytes)");
    assert(writer@ =~= spelled + call_lines(form@));
    proof {
        lemma_append(start, form_lines(form@), encoding_lines(form@));
        lemma_append(start, form_lines(form@) + encoding_lines(form@), call_lines(form@));
    }
}

/// Writes the implementation for one form of a mnemonic: the trait of the
/// form's arity with the types of its operands, and the operation, which
/// takes the operands that are not hard-coded and has the encoder write the
/// whole instruction for the form. A form whose template is at fault gets
/// no implementation: the fault is returned and nothing is written.
pub fn write_trait_impl(writer: &mut CodeWriter, ins: &String, form: &InstructionForm) -> (r:
    Result<(), EncodeError>)
    ensures
        match r {
            Ok(_) => template_fault(form@) is None && final(writer)@ == old(writer)@
                + trait_impl_text(ins@, form@),
            Err(e) => template_fault(form@) == Some(e) && final(writer)@ == old(writer)@,
        },
{
    match check_template(form) {
        Some(e) => {
            return Err(e);
        },
        None => {},
    }
    proof {
        lemma_faultless(form@);
    }
    assert forall|i: int| 0 <= i < form.operands@.len() implies !is_moffs(
        #[trigger] form.operands@[i].id,
    ) by {
        assert(!takes_unsupported(form@.operands));
        assert(!(shape_of(form@.operands[i].id) is Unsupported));
    }
    let ghost start = writer@;
    let arity = decimal(form.operands.len());
    writer.code("impl Ins");
    writer.code(arity.as_str());
    writer.code("x<");
    write_type_list(writer, &form.operands);
    writer.code("> for ");
    writer.code(ins.as_str());
    writer.codenl(" {");
    assert(writer@ =~= start + impl_header(ins@, form@));
    let ghost after_impl = writer@;
    writer.code("pub fn ins");
    writer.code(arity.as_str());
    writer.code("x(runtime: &JitRuntime, bytes: &mut Vec<u8>");
    write_parameter_list(writer, &form.operands);
    writer.codenl(") -> Result<(), EncodeError> {");
    assert(writer@ =~= after_impl + fn_header(form@));
    let ghost after_fn = writer@;
    write_body(writer, form);
    let ghost after_body = writer@;
    writer.codenl("}");
    writer.codenl("}");
    assert(writer@ =~= after_body + line("}"@) + line("}"@));
    proof {
        reveal(trait_impl_text);
        let a = impl_header(ins@, form@);
        let b = fn_header(form@);
        let c = body_text(form@);
        lemma_append(start, a, b);
        lemma_append(start, a + b, c);
        lemma_append(start, a + b + c, line("}"@));
        lemma_append(start, a + b + c + line("}"@), line("}"@));
    }
    Ok(())
}

/// Writes what is generated for one form of a mnemonic.
pub fn write_form(writer: &mut CodeWriter, name: &String, form: &InstructionForm) -> (r: Result<
    (),
    EncodeError,
>)
    ensures
        match r {
            Ok(_) => template_fault(form@) is None && final(writer)@ == old(writer)@
                + trait_impl_text(name@, form@),
            Err(e) => template_fault(form@) == Some(e) && final(writer)@ == old(writer)@,
        },
{
    write_trait_impl(writer, name, form)
}

fn find_fault(forms: &Vec<&InstructionForm>) -> (r: Option<(usize, EncodeError)>)
    ensures
        r == first_fault(referenced_views(forms@), forms@.len()),
{
    let ghost views = referenced_views(forms@);
    let mut i: usize = 0;
    while i < forms.len()
        invariant
            i <= forms@.len(),
            views == referenced_views(forms@),
            first_fault(views, i as nat) is None,
        decreases forms@.len() - i,
    {
        assert(views[i as int] == forms@[i as int]@);
        match check_template(forms[i]) {
            Some(kind) => {
                proof {
                    lemma_fault_stays(views, (i + 1) as nat, views.len());
                }
                return Some((i, kind));
            },
            None => {},
        }
        i = i + 1;
    }
    None
}

fn write_struct(writer: &mut CodeWriter, ins: &Instruction)
    ensures
        final(writer)@ == old(writer)@ + struct_text(ins@),
{
    writer.doc("Generated struct and trait implementations for:");
    writer.doc(ins.name.as_str());
    writer.doc(ins.summary.as_str());
    writer.code("pub struct ");
    writer.code(ins.name.as_str());
    writer.codenl(" {}");
    assert(writer@ =~= old(writer)@ + struct_text(ins@));
}

fn write_forms(writer: &mut CodeWriter, name: &String, forms: &Vec<&InstructionForm>)
    requires
        first_fault(referenced_views(forms@), forms@.len()) is None,
    ensures
        final(writer)@ == old(writer)@ + forms_text(
            name@,
            referenced_views(forms@),
            forms@.len(),
        ),
{
    let ghost views = referenced_views(forms@);
    let ghost start = writer@;
    proof {
        lemma_no_fault(views, views.len());
    }
    let mut i: usize = 0;
    assert(writer@ =~= start + forms_text(name@, views, 0));
    while i < forms.len()
        invariant
            i <= forms@.len(),
            views == referenced_views(forms@),
            forall|k: int| 0 <= k < views.len() ==> template_fault(#[trigger] views[k]) is None,
            writer@ == start + forms_text(name@, views, i as nat),
        decreases forms@.len() - i,
    {
        assert(views[i as int] == forms@[i as int]@);
        let written = write_form(writer, name, forms[i]);
        assert(written is Ok);
        i = i + 1;
        proof {
            lemma_append(
                start,
                forms_text(name@, views, (i - 1) as nat),
                trait_impl_text(name@, views[i - 1]),
            );
        }
    }
}

/// Writes what is generated for one mnemonic. Where the template of one of
/// its forms is at fault, nothing is written, and the error names the
/// mnemonic, the form and the fault.
pub fn write_instruction(writer: &mut CodeWriter, ins: &Instruction) -> (r: Result<
    (),
    AssembleError,
>)
    ensures
        match r {
            Ok(_) => {
                &&& instruction_outcome(ins@) matches Ok(text)
                &&& final(writer)@ == old(writer)@ + text
            },
            Err(e) => {
                &&& instruction_outcome(ins@) == Err::<Seq<char>, AssembleFault>(e@)
                &&& final(writer)@ == old(writer)@
            },
        },
{
    proof {
        reveal(instruction_outcome);
    }
    let forms = filter_instruction_forms(&ins.forms);
    match find_fault(&forms) {
        Some(fault) => {
            return Err(
                AssembleError { mnemonic: ins.name.clone(), form: Some(fault.0), kind: fault.1 },
            );
        },
        None => {},
    }
    if forms.len() == 0 {
        assert(writer@ =~= old(writer)@ + instruction_text(ins@));
        return Ok(());
    }
    write_struct(writer, ins);
    write_forms(writer, &ins.name, &forms);
    proof {
        lemma_append(
            old(writer)@,
            struct_text(ins@),
            forms_text(ins@.name, referenced_views(forms@), forms@.len()),
        );
    }
    Ok(())
}

/// Generates the source text for an instruction set: what is generated for
/// each mnemonic, in order. Where the template of a form is at fault no
/// text is generated.
pub fn generate_source(set: &Vec<Instruction>) -> (r: Result<String, AssembleError>)
    ensures
        match r {
            Ok(text) => set_outcome(instruction_views(set@), set@.len()) == Ok::<
                Seq<char>,
                AssembleFault,
            >(text@),
            Err(e) => set_outcome(instruction_views(set@), set@.len()) == Err::<
                Seq<char>,
                AssembleFault,
            >(e@),
        },
{
    let ghost views = instruction_views(set@);
    let mut writer = CodeWriter::new();
    let mut i: usize = 0;
    while i < set.len()
        invariant
            i <= set@.len(),
            views == instruction_views(set@),
            set_outcome(views, i as nat) == Ok::<Seq<char>, AssembleFault>(writer@),
        decreases set@.len() - i,
    {
        assert(views[i as int] == set@[i as int]@);
        match write_instruction(&mut writer, &set[i]) {
            Ok(_) => {},
            Err(e) => {
                proof {
                    lemma_fault_ends_generation(views, (i + 1) as nat, views.len());
                }
                return Err(e);
            },
        }
        i = i + 1;
    }
    Ok(writer.into_string())
}

/// Generates the source text of the assembler library from the text of the
/// instruction-set description and the text of the group description.
pub fn generate(instructions: &str, groups: &str) -> (r: Result<String, GenerateError>)
    ensures
        match r {
            Ok(text) => generated(instructions@, groups@) == Ok::<Seq<char>, GenerateFault>(text@),
            Err(e) => generated(instructions@, groups@) == Err::<Seq<char>, GenerateFault>(e@),
        },
{
    let set = match load_instruction_set(instructions) {
        Ok(set) => set,
        Err(e) => {
            return Err(GenerateError::Description(e));
        },
    };
    match load_instruction_groups(groups) {
        Ok(_) => {},
        Err(e) => {
            return Err(GenerateError::Description(e));
        },
    }
    match generate_source(&set) {
        Ok(text) => Ok(text),
        Err(e) => Err(GenerateError::Template(e)),
    }
}

} // verus!
