use peregrine_codegen::assembler::assemble;
use peregrine_codegen::encoder::{encode, encode_form, EncodeError};
use peregrine_codegen::operand::{
    operand_admitted, Address, Memory, OperandValue, Register, RegisterClass, RoundingMode,
};
use peregrine_codegen::types::{
    AddressMode, Bit, BitRef, CodeOffset, DataOffset, Encoding, Immediate, Instruction,
    InstructionForm, IntOrRef, LLBitRef, ModRM, NoneRef, Opcode, Operand, OperandId, Prefix,
    RegisterByte, VEXType, ZeroRef, EVEX, REX, VEX,
};

fn reg(class: RegisterClass, index: u8) -> OperandValue {
    OperandValue::Register(Register { class, index, mask: 0, zeroing: false })
}

fn masked(class: RegisterClass, index: u8, mask: u8, zeroing: bool) -> OperandValue {
    OperandValue::Register(Register { class, index, mask, zeroing })
}

fn mem(bits: u16, base: Option<u8>, index: Option<u8>, scale: u8, displacement: i32) -> OperandValue {
    OperandValue::Memory(Memory {
        bits,
        address: Address { base, index, scale, displacement },
        vector_index: None,
        broadcast: false,
        mask: 0,
        zeroing: false,
    })
}

fn operand(id: OperandId) -> Operand {
    Operand { id, input: true, output: false, extended_size: 0 }
}

fn opcode(byte: u8) -> Opcode {
    Opcode { byte, addend: NoneRef::NONE }
}

fn form(kinds: Vec<OperandId>, encoding: Encoding) -> InstructionForm {
    let mut f = InstructionForm::new();
    for kind in kinds {
        f.operands.push(operand(kind));
    }
    f.encodings.push(encoding);
    f
}

fn direct(rm: u8, reg: IntOrRef) -> ModRM {
    ModRM { mode: AddressMode::Two, rm: NoneRef::Ref(rm), reg }
}

fn indirect(rm: u8, reg: IntOrRef) -> ModRM {
    ModRM { mode: AddressMode::Ref(rm), rm: NoneRef::Ref(rm), reg }
}

fn addss() -> InstructionForm {
    let mut e = Encoding::new();
    e.prefix = Some(Prefix { mandatory: true, byte: 0xF3 });
    e.rex = Some(REX {
        mandatory: false,
        W: Bit::Zero,
        R: BitRef::Ref(0),
        B: BitRef::Ref(1),
        X: BitRef::NONE,
    });
    e.opcodes.push(opcode(0x0F));
    e.opcodes.push(opcode(0x58));
    e.modrm = Some(direct(1, IntOrRef::Ref(0)));
    form(vec![OperandId::xmm, OperandId::xmm], e)
}

fn add_eax_imm32() -> InstructionForm {
    let mut e = Encoding::new();
    e.opcodes.push(opcode(0x05));
    e.immediate = Some(Immediate { size: 4, value: IntOrRef::Ref(1) });
    form(vec![OperandId::eax, OperandId::imm32], e)
}

fn add_r32_imm8() -> InstructionForm {
    let mut e = Encoding::new();
    e.rex = Some(REX {
        mandatory: false,
        W: Bit::Zero,
        R: BitRef::NONE,
        B: BitRef::Ref(0),
        X: BitRef::NONE,
    });
    e.opcodes.push(opcode(0x83));
    e.modrm = Some(direct(0, IntOrRef::Extension(0)));
    e.immediate = Some(Immediate { size: 1, value: IntOrRef::Ref(1) });
    form(vec![OperandId::r32, OperandId::imm8], e)
}

fn vaddps_vex(kind: OperandId, l: Bit) -> InstructionForm {
    let mut e = Encoding::new();
    e.vex = Some(VEX {
        id: VEXType::VEX,
        mmmmm: 0b00001,
        pp: 0b00,
        W: Bit::Zero,
        L: l,
        R: BitRef::Ref(0),
        B: BitRef::Ref(2),
        X: BitRef::NONE,
        vvvv: ZeroRef::Ref(1),
    });
    e.opcodes.push(opcode(0x58));
    e.modrm = Some(direct(2, IntOrRef::Ref(0)));
    form(vec![kind, kind, kind], e)
}

fn vaddps_evex(b: ZeroRef, ll: LLBitRef) -> Encoding {
    let mut e = Encoding::new();
    e.evex = Some(EVEX {
        mm: 0b01,
        pp: 0b00,
        W: Bit::Zero,
        LL: ll,
        RR: NoneRef::Ref(0),
        B: NoneRef::Ref(2),
        X: NoneRef::Ref(2),
        vvvv: ZeroRef::Ref(1),
        V: ZeroRef::Ref(1),
        b,
        aaa: ZeroRef::Ref(0),
        z: ZeroRef::Ref(0),
        disp8xN: 64,
    });
    e.opcodes.push(opcode(0x58));
    e.modrm = Some(direct(2, IntOrRef::Ref(0)));
    e
}

fn vaddps_zmm() -> InstructionForm {
    form(
        vec![OperandId::zmm_k_z_, OperandId::zmm, OperandId::zmm],
        vaddps_evex(ZeroRef::Zero, LLBitRef::Two),
    )
}

fn vaddps_zmm_er() -> InstructionForm {
    form(
        vec![OperandId::zmm_k_z_, OperandId::zmm, OperandId::zmm, OperandId::_er_],
        vaddps_evex(ZeroRef::EVEX_b_ONE, LLBitRef::Zero),
    )
}

fn vaddps_zmm_mem() -> InstructionForm {
    let mut e = vaddps_evex(ZeroRef::Ref(2), LLBitRef::Two);
    e.modrm = Some(indirect(2, IntOrRef::Ref(0)));
    form(vec![OperandId::zmm_k_z_, OperandId::zmm, OperandId::m512__m32bcst], e)
}

fn jmp_rel8() -> InstructionForm {
    let mut e = Encoding::new();
    e.opcodes.push(opcode(0xEB));
    e.code_offset = Some(CodeOffset { size: 1, value: NoneRef::Ref(0) });
    form(vec![OperandId::rel8], e)
}

fn jmp_rel32() -> InstructionForm {
    let mut e = Encoding::new();
    e.opcodes.push(opcode(0xE9));
    e.code_offset = Some(CodeOffset { size: 4, value: NoneRef::Ref(0) });
    form(vec![OperandId::rel32], e)
}

fn mov_r64_m64() -> InstructionForm {
    let mut e = Encoding::new();
    e.rex = Some(REX {
        mandatory: true,
        W: Bit::One,
        R: BitRef::Ref(0),
        B: BitRef::Ref(1),
        X: BitRef::Ref(1),
    });
    e.opcodes.push(opcode(0x8B));
    e.modrm = Some(indirect(1, IntOrRef::Ref(0)));
    form(vec![OperandId::r64, OperandId::m64], e)
}

fn bytes_of(form: &InstructionForm, ops: Vec<OperandValue>) -> Result<Vec<u8>, EncodeError> {
    let mut buffer = Vec::new();
    encode(form, &ops, &mut buffer).map(|_| buffer)
}

#[test]
fn addss_xmm1_xmm2() {
    let ops = vec![reg(RegisterClass::Xmm, 1), reg(RegisterClass::Xmm, 2)];
    assert_eq!(bytes_of(&addss(), ops), Ok(vec![0xF3, 0x0F, 0x58, 0xCA]));
}

#[test]
fn addss_high_registers_need_rex() {
    let ops = vec![reg(RegisterClass::Xmm, 9), reg(RegisterClass::Xmm, 10)];
    assert_eq!(bytes_of(&addss(), ops), Ok(vec![0xF3, 0x45, 0x0F, 0x58, 0xCA]));
}

#[test]
fn add_eax_1_picks_the_shorter_form() {
    let mut ins = Instruction::new(&String::from("ADD"));
    ins.forms.push(add_eax_imm32());
    ins.forms.push(add_r32_imm8());
    let ops = vec![reg(RegisterClass::Gpr32, 0), OperandValue::Immediate(1)];
    let mut buffer = Vec::new();
    assert_eq!(assemble(&ins, &ops, &mut buffer).unwrap(), 1);
    assert_eq!(buffer, vec![0x83, 0xC0, 0x01]);
    assert_eq!(bytes_of(&add_eax_imm32(), ops), Ok(vec![0x05, 0x01, 0x00, 0x00, 0x00]));
}

#[test]
fn add_eax_large_immediate_takes_the_long_form() {
    let mut ins = Instruction::new(&String::from("ADD"));
    ins.forms.push(add_eax_imm32());
    ins.forms.push(add_r32_imm8());
    let ops = vec![reg(RegisterClass::Gpr32, 0), OperandValue::Immediate(0x12345678)];
    let mut buffer = vec![0x90];
    assert_eq!(assemble(&ins, &ops, &mut buffer).unwrap(), 0);
    assert_eq!(buffer, vec![0x90, 0x05, 0x78, 0x56, 0x34, 0x12]);
}

#[test]
fn assemble_keeps_the_first_of_equally_short_forms() {
    let mut ins = Instruction::new(&String::from("JMP"));
    ins.forms.push(jmp_rel8());
    ins.forms.push(jmp_rel8());
    let mut buffer = Vec::new();
    assert_eq!(assemble(&ins, &vec![OperandValue::Relative(5)], &mut buffer).unwrap(), 0);
    assert_eq!(buffer, vec![0xEB, 0x05]);
}

#[test]
fn assemble_reports_no_matching_form() {
    let mut ins = Instruction::new(&String::from("ADD"));
    ins.forms.push(add_eax_imm32());
    let ops = vec![reg(RegisterClass::Gpr64, 3), OperandValue::Immediate(1)];
    let mut buffer = vec![1, 2, 3];
    let e = assemble(&ins, &ops, &mut buffer).unwrap_err();
    assert_eq!(e.mnemonic, "ADD");
    assert_eq!(e.form, None);
    assert_eq!(e.kind, EncodeError::OperandMismatch);
    assert_eq!(buffer, vec![1, 2, 3]);
}

#[test]
fn assemble_names_the_form_with_a_bad_template() {
    let mut broken = jmp_rel8();
    broken.encodings[0].code_offset = Some(CodeOffset { size: 3, value: NoneRef::Ref(0) });
    let mut ins = Instruction::new(&String::from("JMP"));
    ins.forms.push(jmp_rel32());
    ins.forms.push(broken);
    let mut buffer = Vec::new();
    let e = assemble(&ins, &vec![OperandValue::Relative(5)], &mut buffer).unwrap_err();
    assert_eq!(e.mnemonic, "JMP");
    assert_eq!(e.form, Some(1));
    assert_eq!(e.kind, EncodeError::BadTemplate);
    assert!(buffer.is_empty());
}

#[test]
fn vaddps_ymm_uses_two_byte_vex() {
    let ops = vec![
        reg(RegisterClass::Ymm, 1),
        reg(RegisterClass::Ymm, 2),
        reg(RegisterClass::Ymm, 3),
    ];
    assert_eq!(
        bytes_of(&vaddps_vex(OperandId::ymm, Bit::One), ops),
        Ok(vec![0xC5, 0xEC, 0x58, 0xCB])
    );
}

#[test]
fn vaddps_ymm_high_rm_forces_three_byte_vex() {
    let ops = vec![
        reg(RegisterClass::Ymm, 1),
        reg(RegisterClass::Ymm, 2),
        reg(RegisterClass::Ymm, 11),
    ];
    assert_eq!(
        bytes_of(&vaddps_vex(OperandId::ymm, Bit::One), ops),
        Ok(vec![0xC4, 0xC1, 0x6C, 0x58, 0xCB])
    );
}

#[test]
fn vex_w_forces_three_byte_form() {
    let mut f = vaddps_vex(OperandId::xmm, Bit::Zero);
    let mut vex = f.encodings[0].vex.unwrap();
    vex.W = Bit::One;
    f.encodings[0].vex = Some(vex);
    let ops = vec![
        reg(RegisterClass::Xmm, 1),
        reg(RegisterClass::Xmm, 2),
        reg(RegisterClass::Xmm, 3),
    ];
    assert_eq!(bytes_of(&f, ops), Ok(vec![0xC4, 0xE1, 0xE8, 0x58, 0xCB]));
}

#[test]
fn xop_is_always_three_bytes() {
    let mut f = vaddps_vex(OperandId::xmm, Bit::Zero);
    let mut vex = f.encodings[0].vex.unwrap();
    vex.id = VEXType::XOP;
    vex.mmmmm = 0b01001;
    f.encodings[0].vex = Some(vex);
    let ops = vec![
        reg(RegisterClass::Xmm, 1),
        reg(RegisterClass::Xmm, 2),
        reg(RegisterClass::Xmm, 3),
    ];
    assert_eq!(bytes_of(&f, ops), Ok(vec![0x8F, 0xE9, 0x68, 0x58, 0xCB]));
}

#[test]
fn vaddps_zmm_evex() {
    let ops = vec![
        reg(RegisterClass::Zmm, 1),
        reg(RegisterClass::Zmm, 2),
        reg(RegisterClass::Zmm, 3),
    ];
    assert_eq!(bytes_of(&vaddps_zmm(), ops), Ok(vec![0x62, 0xF1, 0x6C, 0x48, 0x58, 0xCB]));
}

#[test]
fn vaddps_zmm_k1_rn_sae() {
    let ops = vec![
        masked(RegisterClass::Zmm, 1, 1, false),
        reg(RegisterClass::Zmm, 2),
        reg(RegisterClass::Zmm, 3),
        OperandValue::Rounding(RoundingMode::Nearest),
    ];
    assert_eq!(bytes_of(&vaddps_zmm_er(), ops), Ok(vec![0x62, 0xF1, 0x6C, 0x19, 0x58, 0xCB]));
}

#[test]
fn rounding_mode_that_the_literal_length_cannot_hold_is_refused() {
    let ops = vec![
        masked(RegisterClass::Zmm, 1, 1, false),
        reg(RegisterClass::Zmm, 2),
        reg(RegisterClass::Zmm, 3),
        OperandValue::Rounding(RoundingMode::Up),
    ];
    assert_eq!(bytes_of(&vaddps_zmm_er(), ops), Err(EncodeError::Rounding));
}

#[test]
fn rounding_mode_through_a_length_reference() {
    let f = form(
        vec![OperandId::zmm_k_z_, OperandId::zmm, OperandId::zmm, OperandId::_er_],
        vaddps_evex(ZeroRef::EVEX_b_ONE, LLBitRef::LastRef(3)),
    );
    let ops = vec![
        reg(RegisterClass::Zmm, 1),
        reg(RegisterClass::Zmm, 2),
        reg(RegisterClass::Zmm, 3),
        OperandValue::Rounding(RoundingMode::TowardZero),
    ];
    assert_eq!(bytes_of(&f, ops), Ok(vec![0x62, 0xF1, 0x6C, 0x78, 0x58, 0xCB]));
}

#[test]
fn length_reference_to_a_vector_register() {
    let f = form(
        vec![OperandId::ymm_k_z_, OperandId::ymm, OperandId::ymm],
        vaddps_evex(ZeroRef::Zero, LLBitRef::LastRef(2)),
    );
    let ops = vec![
        reg(RegisterClass::Ymm, 1),
        reg(RegisterClass::Ymm, 2),
        reg(RegisterClass::Ymm, 3),
    ];
    assert_eq!(bytes_of(&f, ops), Ok(vec![0x62, 0xF1, 0x6C, 0x28, 0x58, 0xCB]));
}

#[test]
fn evex_reaches_registers_16_to_31_and_zeroing() {
    let ops = vec![
        masked(RegisterClass::Zmm, 17, 5, true),
        reg(RegisterClass::Zmm, 18),
        reg(RegisterClass::Zmm, 27),
    ];
    // destination 17: R = 0, R' = 1; source 27 in rm: B = 1, X = 1; vvvv = 18: V' = 1
    assert_eq!(bytes_of(&vaddps_zmm(), ops), Ok(vec![0x62, 0x81, 0x6C, 0xC5, 0x58, 0xCB]));
}

#[test]
fn evex_without_length_is_an_error() {
    let f = form(
        vec![OperandId::zmm_k_z_, OperandId::zmm, OperandId::zmm],
        vaddps_evex(ZeroRef::Zero, LLBitRef::NONE),
    );
    let ops = vec![
        reg(RegisterClass::Zmm, 1),
        reg(RegisterClass::Zmm, 2),
        reg(RegisterClass::Zmm, 3),
    ];
    assert_eq!(bytes_of(&f, ops), Err(EncodeError::MissingReference));
}

#[test]
fn evex_memory_uses_scaled_displacement() {
    let ops = vec![
        reg(RegisterClass::Zmm, 1),
        reg(RegisterClass::Zmm, 2),
        mem(512, Some(0), None, 1, 128),
    ];
    // disp 128 = 2 * 64 -> disp8 = 2
    assert_eq!(
        bytes_of(&vaddps_zmm_mem(), ops),
        Ok(vec![0x62, 0xF1, 0x6C, 0x48, 0x58, 0x48, 0x02])
    );
}

#[test]
fn evex_memory_falls_back_to_disp32() {
    let ops = vec![
        reg(RegisterClass::Zmm, 1),
        reg(RegisterClass::Zmm, 2),
        mem(512, Some(0), None, 1, 100),
    ];
    assert_eq!(
        bytes_of(&vaddps_zmm_mem(), ops),
        Ok(vec![0x62, 0xF1, 0x6C, 0x48, 0x58, 0x88, 100, 0, 0, 0])
    );
}

#[test]
fn evex_scaled_displacement_bounds() {
    let lowest = vec![
        reg(RegisterClass::Zmm, 1),
        reg(RegisterClass::Zmm, 2),
        mem(512, Some(0), None, 1, -128 * 64),
    ];
    assert_eq!(
        bytes_of(&vaddps_zmm_mem(), lowest),
        Ok(vec![0x62, 0xF1, 0x6C, 0x48, 0x58, 0x48, 0x80])
    );
    let highest = vec![
        reg(RegisterClass::Zmm, 1),
        reg(RegisterClass::Zmm, 2),
        mem(512, Some(0), None, 1, 127 * 64),
    ];
    assert_eq!(
        bytes_of(&vaddps_zmm_mem(), highest),
        Ok(vec![0x62, 0xF1, 0x6C, 0x48, 0x58, 0x48, 0x7F])
    );
    let beyond = vec![
        reg(RegisterClass::Zmm, 1),
        reg(RegisterClass::Zmm, 2),
        mem(512, Some(0), None, 1, 128 * 64),
    ];
    assert_eq!(
        bytes_of(&vaddps_zmm_mem(), beyond),
        Ok(vec![0x62, 0xF1, 0x6C, 0x48, 0x58, 0x88, 0x00, 0x20, 0x00, 0x00])
    );
}

#[test]
fn evex_broadcast_sets_b_and_scales_by_the_element() {
    let ops = vec![
        reg(RegisterClass::Zmm, 1),
        reg(RegisterClass::Zmm, 2),
        OperandValue::Memory(Memory {
            bits: 32,
            address: Address { base: Some(0), index: None, scale: 1, displacement: 8 },
            vector_index: None,
            broadcast: true,
            mask: 0,
            zeroing: false,
        }),
    ];
    assert_eq!(
        bytes_of(&vaddps_zmm_mem(), ops),
        Ok(vec![0x62, 0xF1, 0x6C, 0x58, 0x58, 0x48, 0x02])
    );
}

#[test]
fn jmp_rel8_minus_two() {
    assert_eq!(bytes_of(&jmp_rel8(), vec![OperandValue::Relative(-2)]), Ok(vec![0xEB, 0xFE]));
}

#[test]
fn jmp_rel8_bounds() {
    assert_eq!(bytes_of(&jmp_rel8(), vec![OperandValue::Relative(-128)]), Ok(vec![0xEB, 0x80]));
    assert_eq!(bytes_of(&jmp_rel8(), vec![OperandValue::Relative(127)]), Ok(vec![0xEB, 0x7F]));
    assert_eq!(
        bytes_of(&jmp_rel8(), vec![OperandValue::Relative(128)]),
        Err(EncodeError::OperandMismatch)
    );
}

#[test]
fn jmp_rel32_writes_four_bytes() {
    assert_eq!(
        bytes_of(&jmp_rel32(), vec![OperandValue::Relative(-2)]),
        Ok(vec![0xE9, 0xFE, 0xFF, 0xFF, 0xFF])
    );
    assert_eq!(
        bytes_of(&jmp_rel32(), vec![OperandValue::Relative(0x12345678)]),
        Ok(vec![0xE9, 0x78, 0x56, 0x34, 0x12])
    );
}

#[test]
fn mov_r64_from_base() {
    let ops = vec![reg(RegisterClass::Gpr64, 0), mem(64, Some(3), None, 1, 0)];
    assert_eq!(bytes_of(&mov_r64_m64(), ops), Ok(vec![0x48, 0x8B, 0x03]));
}

#[test]
fn mov_r64_from_rbp_needs_a_displacement() {
    let ops = vec![reg(RegisterClass::Gpr64, 0), mem(64, Some(5), None, 1, 0)];
    assert_eq!(bytes_of(&mov_r64_m64(), ops), Ok(vec![0x48, 0x8B, 0x45, 0x00]));
}

#[test]
fn mov_r64_from_rsp_needs_sib() {
    let ops = vec![reg(RegisterClass::Gpr64, 0), mem(64, Some(4), None, 1, 8)];
    assert_eq!(bytes_of(&mov_r64_m64(), ops), Ok(vec![0x48, 0x8B, 0x44, 0x24, 0x08]));
}

#[test]
fn mov_r64_base_index_scale() {
    let ops = vec![reg(RegisterClass::Gpr64, 9), mem(64, Some(12), Some(10), 4, -4)];
    // REX.W R X B = 0x4F; modrm 01 001 100; sib 10 010 100; disp8 FC
    assert_eq!(bytes_of(&mov_r64_m64(), ops), Ok(vec![0x4F, 0x8B, 0x4C, 0x94, 0xFC]));
}

#[test]
fn mov_r64_large_displacement() {
    let ops = vec![reg(RegisterClass::Gpr64, 1), mem(64, Some(2), None, 1, 0x1000)];
    assert_eq!(bytes_of(&mov_r64_m64(), ops), Ok(vec![0x48, 0x8B, 0x8A, 0x00, 0x10, 0x00, 0x00]));
}

#[test]
fn mov_r64_absolute_address() {
    let ops = vec![reg(RegisterClass::Gpr64, 0), mem(64, None, None, 1, 0x10)];
    assert_eq!(
        bytes_of(&mov_r64_m64(), ops),
        Ok(vec![0x48, 0x8B, 0x04, 0x25, 0x10, 0x00, 0x00, 0x00])
    );
}

#[test]
fn mov_r64_index_without_base() {
    let ops = vec![reg(RegisterClass::Gpr64, 0), mem(64, None, Some(1), 8, 0)];
    assert_eq!(
        bytes_of(&mov_r64_m64(), ops),
        Ok(vec![0x48, 0x8B, 0x04, 0xCD, 0x00, 0x00, 0x00, 0x00])
    );
}

#[test]
fn opcode_addend_merges_the_register() {
    let mut e = Encoding::new();
    e.rex = Some(REX {
        mandatory: false,
        W: Bit::Zero,
        R: BitRef::NONE,
        B: BitRef::Ref(0),
        X: BitRef::NONE,
    });
    e.opcodes.push(Opcode { byte: 0xB8, addend: NoneRef::Ref(0) });
    e.immediate = Some(Immediate { size: 4, value: IntOrRef::Ref(1) });
    let f = form(vec![OperandId::r32, OperandId::imm32], e);
    assert_eq!(
        bytes_of(&f, vec![reg(RegisterClass::Gpr32, 1), OperandValue::Immediate(-1)]),
        Ok(vec![0xB9, 0xFF, 0xFF, 0xFF, 0xFF])
    );
    assert_eq!(
        bytes_of(&f, vec![reg(RegisterClass::Gpr32, 10), OperandValue::Immediate(7)]),
        Ok(vec![0x41, 0xBA, 0x07, 0x00, 0x00, 0x00])
    );
}

#[test]
fn addend_before_the_last_opcode_is_refused() {
    let mut f = addss();
    f.encodings[0].opcodes[0].addend = NoneRef::Ref(0);
    let ops = vec![reg(RegisterClass::Xmm, 1), reg(RegisterClass::Xmm, 2)];
    assert_eq!(bytes_of(&f, ops), Err(EncodeError::BadTemplate));
}

#[test]
fn opcode_count_is_one_to_three() {
    let mut none = jmp_rel8();
    none.encodings[0].opcodes.clear();
    assert_eq!(bytes_of(&none, vec![OperandValue::Relative(0)]), Err(EncodeError::BadTemplate));
    let mut four = jmp_rel8();
    for _ in 0..3 {
        four.encodings[0].opcodes.push(opcode(0x90));
    }
    assert_eq!(bytes_of(&four, vec![OperandValue::Relative(0)]), Err(EncodeError::BadTemplate));
}

#[test]
fn immediate_of_eight_bytes() {
    let mut e = Encoding::new();
    e.rex = Some(REX {
        mandatory: true,
        W: Bit::One,
        R: BitRef::NONE,
        B: BitRef::Ref(0),
        X: BitRef::NONE,
    });
    e.opcodes.push(Opcode { byte: 0xB8, addend: NoneRef::Ref(0) });
    e.immediate = Some(Immediate { size: 8, value: IntOrRef::Ref(1) });
    let f = form(vec![OperandId::r64, OperandId::imm64], e);
    assert_eq!(
        bytes_of(
            &f,
            vec![reg(RegisterClass::Gpr64, 0), OperandValue::Immediate(0x0102030405060708)]
        ),
        Ok(vec![0x48, 0xB8, 8, 7, 6, 5, 4, 3, 2, 1])
    );
    assert_eq!(
        bytes_of(&f, vec![reg(RegisterClass::Gpr64, 0), OperandValue::Immediate(i64::MIN)]),
        Ok(vec![0x48, 0xB8, 0, 0, 0, 0, 0, 0, 0, 0x80])
    );
}

#[test]
fn literal_immediate_of_the_template() {
    let mut e = Encoding::new();
    e.opcodes.push(opcode(0xCD));
    e.immediate = Some(Immediate { size: 1, value: IntOrRef::Extension(3) });
    let f = form(vec![OperandId::_3_], e);
    assert_eq!(bytes_of(&f, vec![OperandValue::Immediate(3)]), Ok(vec![0xCD, 0x03]));
    assert_eq!(bytes_of(&f, vec![OperandValue::Immediate(4)]), Err(EncodeError::OperandMismatch));
}

#[test]
fn register_byte_holds_register_and_payload() {
    let mut e = Encoding::new();
    e.vex = Some(VEX {
        id: VEXType::VEX,
        mmmmm: 0b00011,
        pp: 0b01,
        W: Bit::Zero,
        L: Bit::Zero,
        R: BitRef::Ref(0),
        B: BitRef::Ref(2),
        X: BitRef::NONE,
        vvvv: ZeroRef::Ref(1),
    });
    e.opcodes.push(opcode(0x48));
    e.modrm = Some(direct(2, IntOrRef::Ref(0)));
    e.register_byte = Some(RegisterByte { register: NoneRef::Ref(3), payload: NoneRef::Ref(4) });
    let f = form(
        vec![OperandId::xmm, OperandId::xmm, OperandId::xmm, OperandId::xmm, OperandId::imm4],
        e,
    );
    let ops = vec![
        reg(RegisterClass::Xmm, 1),
        reg(RegisterClass::Xmm, 2),
        reg(RegisterClass::Xmm, 3),
        reg(RegisterClass::Xmm, 12),
        OperandValue::Immediate(5),
    ];
    assert_eq!(bytes_of(&f, ops), Ok(vec![0xC4, 0xE3, 0x69, 0x48, 0xCB, 0xC5]));
}

#[test]
fn rex_and_vex_together_are_refused() {
    let mut f = vaddps_vex(OperandId::xmm, Bit::Zero);
    f.encodings[0].rex = Some(REX::new());
    let ops = vec![
        reg(RegisterClass::Xmm, 1),
        reg(RegisterClass::Xmm, 2),
        reg(RegisterClass::Xmm, 3),
    ];
    assert_eq!(bytes_of(&f, ops), Err(EncodeError::PrefixConflict));
}

#[test]
fn data_offset_is_refused() {
    let mut f = jmp_rel8();
    f.encodings[0].data_offset = Some(DataOffset { size: 8, value: NoneRef::Ref(0) });
    assert_eq!(bytes_of(&f, vec![OperandValue::Relative(0)]), Err(EncodeError::DataOffset));
}

#[test]
fn moffs_operand_is_never_admitted() {
    let mut e = Encoding::new();
    e.opcodes.push(opcode(0xA1));
    let f = form(vec![OperandId::eax, OperandId::moffs32], e);
    let ops = vec![reg(RegisterClass::Gpr32, 0), OperandValue::Immediate(0)];
    assert_eq!(bytes_of(&f, ops), Err(EncodeError::OperandMismatch));
    assert!(!operand_admitted(OperandId::moffs64, &OperandValue::Immediate(0)));
}

#[test]
fn form_without_template() {
    let mut f = InstructionForm::new();
    f.operands.push(operand(OperandId::rel8));
    assert_eq!(encode_form(&f, &vec![OperandValue::Relative(0)]), Err(EncodeError::NoTemplate));
}

#[test]
fn missing_and_bad_references() {
    let mut f = addss();
    f.encodings[0].modrm = Some(ModRM {
        mode: AddressMode::Two,
        rm: NoneRef::NONE,
        reg: IntOrRef::Ref(0),
    });
    let ops = vec![reg(RegisterClass::Xmm, 1), reg(RegisterClass::Xmm, 2)];
    assert_eq!(bytes_of(&f, ops.clone()), Err(EncodeError::MissingReference));
    f.encodings[0].modrm = Some(direct(7, IntOrRef::Ref(0)));
    assert_eq!(bytes_of(&f, ops.clone()), Err(EncodeError::BadReference));
    f.encodings[0].modrm = Some(direct(1, IntOrRef::Extension(8)));
    assert_eq!(bytes_of(&f, ops.clone()), Err(EncodeError::Unencodable));
    f.encodings[0].modrm = Some(ModRM {
        mode: AddressMode::Ref(0),
        rm: NoneRef::Ref(1),
        reg: IntOrRef::Ref(0),
    });
    assert_eq!(bytes_of(&f, ops), Err(EncodeError::BadTemplate));
}

#[test]
fn register_out_of_reach_of_the_prefix() {
    let mut f = addss();
    f.encodings[0].rex = None;
    let ops = vec![reg(RegisterClass::Xmm, 1), reg(RegisterClass::Xmm, 8)];
    assert_eq!(bytes_of(&f, ops), Err(EncodeError::Unencodable));
    let ops = vec![reg(RegisterClass::Xmm, 1), reg(RegisterClass::Xmm, 16)];
    assert_eq!(bytes_of(&addss(), ops), Err(EncodeError::Unencodable));
}

#[test]
fn rounding_operand_without_evex_is_refused() {
    let mut f = addss();
    f.operands.push(operand(OperandId::_sae_));
    let ops = vec![
        reg(RegisterClass::Xmm, 1),
        reg(RegisterClass::Xmm, 2),
        OperandValue::SuppressAllExceptions,
    ];
    assert_eq!(bytes_of(&f, ops), Err(EncodeError::Rounding));
}

#[test]
fn encode_is_deterministic_and_appends() {
    let ops = vec![reg(RegisterClass::Xmm, 1), reg(RegisterClass::Xmm, 2)];
    let first = encode_form(&addss(), &ops);
    let second = encode_form(&addss().clone(), &ops.clone());
    assert_eq!(first, second);
    let mut buffer = vec![0xAA];
    encode(&addss(), &ops, &mut buffer).unwrap();
    encode(&addss(), &ops, &mut buffer).unwrap();
    assert_eq!(buffer, vec![0xAA, 0xF3, 0x0F, 0x58, 0xCA, 0xF3, 0x0F, 0x58, 0xCA]);
}

#[test]
fn encode_leaves_the_buffer_on_error() {
    let mut buffer = vec![0xAA];
    let r = encode(&addss(), &vec![reg(RegisterClass::Xmm, 1)], &mut buffer);
    assert_eq!(r, Err(EncodeError::OperandMismatch));
    assert_eq!(buffer, vec![0xAA]);
}

#[test]
fn an_operand_that_the_template_leaves_out_is_refused() {
    let mut f = add_r32_imm8();
    f.encodings[0].immediate = None;
    let ops = vec![reg(RegisterClass::Gpr32, 0), OperandValue::Immediate(1)];
    assert_eq!(bytes_of(&f, ops), Err(EncodeError::UnusedOperand));
    let mut g = jmp_rel8();
    g.encodings[0].code_offset = None;
    assert_eq!(bytes_of(&g, vec![OperandValue::Relative(0)]), Err(EncodeError::UnusedOperand));
}

#[test]
fn hard_coded_operands_need_no_field() {
    let mut e = Encoding::new();
    e.opcodes.push(opcode(0xD3));
    e.modrm = Some(direct(0, IntOrRef::Extension(4)));
    let f = form(vec![OperandId::r32, OperandId::cl], e);
    let ops = vec![reg(RegisterClass::Gpr32, 2), reg(RegisterClass::Gpr8, 1)];
    assert_eq!(bytes_of(&f, ops), Ok(vec![0xD3, 0xE2]));
    let ops = vec![reg(RegisterClass::Gpr32, 2), reg(RegisterClass::Gpr8, 2)];
    assert_eq!(bytes_of(&f, ops), Err(EncodeError::OperandMismatch));
}

#[test]
fn operand_kinds_admit_what_they_name() {
    assert!(operand_admitted(OperandId::eax, &reg(RegisterClass::Gpr32, 0)));
    assert!(!operand_admitted(OperandId::eax, &reg(RegisterClass::Gpr32, 1)));
    assert!(!operand_admitted(OperandId::eax, &reg(RegisterClass::Gpr64, 0)));
    assert!(operand_admitted(OperandId::cl, &reg(RegisterClass::Gpr8, 1)));
    assert!(operand_admitted(OperandId::_1_, &OperandValue::Immediate(1)));
    assert!(!operand_admitted(OperandId::_1_, &OperandValue::Immediate(2)));
    assert!(operand_admitted(OperandId::imm8, &OperandValue::Immediate(255)));
    assert!(operand_admitted(OperandId::imm8, &OperandValue::Immediate(-128)));
    assert!(!operand_admitted(OperandId::imm8, &OperandValue::Immediate(256)));
    assert!(!operand_admitted(OperandId::imm4, &OperandValue::Immediate(16)));
    assert!(operand_admitted(OperandId::r64, &reg(RegisterClass::Gpr64, 15)));
    assert!(!operand_admitted(OperandId::r64, &reg(RegisterClass::Gpr64, 16)));
    assert!(operand_admitted(OperandId::zmm, &reg(RegisterClass::Zmm, 31)));
    assert!(!operand_admitted(OperandId::zmm, &masked(RegisterClass::Zmm, 1, 1, false)));
    assert!(operand_admitted(OperandId::zmm_k_, &masked(RegisterClass::Zmm, 1, 1, false)));
    assert!(!operand_admitted(OperandId::zmm_k_, &masked(RegisterClass::Zmm, 1, 1, true)));
    assert!(operand_admitted(OperandId::zmm_k_z_, &masked(RegisterClass::Zmm, 1, 7, true)));
    assert!(!operand_admitted(OperandId::zmm_k_z_, &masked(RegisterClass::Zmm, 1, 8, true)));
    assert!(operand_admitted(OperandId::k, &reg(RegisterClass::Mask, 7)));
    assert!(!operand_admitted(OperandId::mm, &reg(RegisterClass::Mmx, 8)));
    assert!(operand_admitted(OperandId::m, &mem(80, Some(1), None, 1, 0)));
    assert!(operand_admitted(OperandId::m64, &mem(64, Some(1), None, 1, 0)));
    assert!(!operand_admitted(OperandId::m64, &mem(32, Some(1), None, 1, 0)));
    assert!(!operand_admitted(OperandId::m64, &mem(64, Some(1), Some(4), 1, 0)));
    assert!(!operand_admitted(OperandId::m64, &mem(64, Some(1), None, 3, 0)));
    assert!(operand_admitted(OperandId::m512__m32bcst, &mem(512, Some(1), None, 1, 0)));
    assert!(!operand_admitted(OperandId::m512__m32bcst, &mem(32, Some(1), None, 1, 0)));
    assert!(operand_admitted(OperandId::_er_, &OperandValue::Rounding(RoundingMode::Down)));
    assert!(operand_admitted(OperandId::_sae_, &OperandValue::SuppressAllExceptions));
    assert!(!operand_admitted(OperandId::NONE, &OperandValue::SuppressAllExceptions));
    let gather = OperandValue::Memory(Memory {
        bits: 32,
        address: Address { base: Some(0), index: Some(20), scale: 4, displacement: 0 },
        vector_index: Some(RegisterClass::Zmm),
        broadcast: false,
        mask: 2,
        zeroing: false,
    });
    assert!(operand_admitted(OperandId::vm32z_k_, &gather));
    assert!(!operand_admitted(OperandId::vm32z, &gather));
    assert!(!operand_admitted(OperandId::vm32y_k_, &gather));
}

#[test]
fn high_bit_of_the_addend_goes_to_rex_whatever_the_template_names() {
    let mut e = Encoding::new();
    e.rex = Some(REX::new());
    e.opcodes.push(Opcode { byte: 0x50, addend: NoneRef::Ref(0) });
    let f = form(vec![OperandId::r64], e);
    assert_eq!(bytes_of(&f, vec![reg(RegisterClass::Gpr64, 3)]), Ok(vec![0x53]));
    assert_eq!(bytes_of(&f, vec![reg(RegisterClass::Gpr64, 11)]), Ok(vec![0x41, 0x53]));
}

#[test]
fn high_bits_of_modrm_operands_go_to_rex_whatever_the_template_names() {
    let mut f = addss();
    f.encodings[0].rex = Some(REX::new());
    let ops = vec![reg(RegisterClass::Xmm, 9), reg(RegisterClass::Xmm, 2)];
    assert_eq!(bytes_of(&f, ops), Ok(vec![0xF3, 0x44, 0x0F, 0x58, 0xCA]));
    let ops = vec![reg(RegisterClass::Xmm, 1), reg(RegisterClass::Xmm, 10)];
    assert_eq!(bytes_of(&f, ops), Ok(vec![0xF3, 0x41, 0x0F, 0x58, 0xCA]));
    let mut m = mov_r64_m64();
    m.encodings[0].rex = Some(REX {
        mandatory: true,
        W: Bit::One,
        R: BitRef::NONE,
        B: BitRef::NONE,
        X: BitRef::NONE,
    });
    let ops = vec![reg(RegisterClass::Gpr64, 9), mem(64, Some(12), Some(10), 4, -4)];
    assert_eq!(bytes_of(&m, ops), Ok(vec![0x4F, 0x8B, 0x4C, 0x94, 0xFC]));
}

#[test]
fn mask_and_zeroing_come_from_the_operand_where_the_template_names_none() {
    let mut e = vaddps_evex(ZeroRef::Zero, LLBitRef::Two);
    let mut evex = e.evex.unwrap();
    evex.aaa = ZeroRef::NONE;
    evex.z = ZeroRef::Zero;
    evex.RR = NoneRef::NONE;
    evex.B = NoneRef::NONE;
    evex.X = NoneRef::NONE;
    evex.V = ZeroRef::NONE;
    e.evex = Some(evex);
    let f = form(vec![OperandId::zmm_k_z_, OperandId::zmm, OperandId::zmm], e);
    let ops = vec![
        masked(RegisterClass::Zmm, 17, 5, true),
        reg(RegisterClass::Zmm, 18),
        reg(RegisterClass::Zmm, 27),
    ];
    assert_eq!(bytes_of(&f, ops), Ok(vec![0x62, 0x81, 0x6C, 0xC5, 0x58, 0xCB]));
}

#[test]
fn broadcast_comes_from_the_operand_where_the_template_names_none() {
    let mut f = vaddps_zmm_mem();
    let mut evex = f.encodings[0].evex.unwrap();
    evex.b = ZeroRef::Zero;
    f.encodings[0].evex = Some(evex);
    let ops = vec![
        reg(RegisterClass::Zmm, 1),
        reg(RegisterClass::Zmm, 2),
        OperandValue::Memory(Memory {
            bits: 32,
            address: Address { base: Some(0), index: None, scale: 1, displacement: 0 },
            vector_index: None,
            broadcast: true,
            mask: 0,
            zeroing: false,
        }),
    ];
    assert_eq!(bytes_of(&f, ops), Ok(vec![0x62, 0xF1, 0x6C, 0x58, 0x58, 0x08]));
}

#[test]
fn a_mask_without_evex_is_refused() {
    let mut f = vaddps_vex(OperandId::zmm_k_, Bit::One);
    f.operands[1].id = OperandId::zmm;
    f.operands[2].id = OperandId::zmm;
    let ops = vec![
        masked(RegisterClass::Zmm, 1, 2, false),
        reg(RegisterClass::Zmm, 2),
        reg(RegisterClass::Zmm, 3),
    ];
    assert_eq!(bytes_of(&f, ops), Err(EncodeError::Unencodable));
}

#[test]
fn vector_index_beyond_15_sets_v_high() {
    let mut e = Encoding::new();
    e.evex = Some(EVEX {
        mm: 0b10,
        pp: 0b01,
        W: Bit::Zero,
        LL: LLBitRef::Two,
        RR: NoneRef::Ref(0),
        B: NoneRef::Ref(1),
        X: NoneRef::Ref(1),
        vvvv: ZeroRef::Zero,
        V: ZeroRef::Ref(1),
        b: ZeroRef::Zero,
        aaa: ZeroRef::Ref(0),
        z: ZeroRef::Zero,
        disp8xN: 4,
    });
    e.opcodes.push(opcode(0x92));
    e.modrm = Some(indirect(1, IntOrRef::Ref(0)));
    let f = form(vec![OperandId::zmm_k_, OperandId::vm32z], e);
    let gather = OperandValue::Memory(Memory {
        bits: 32,
        address: Address { base: Some(8), index: Some(20), scale: 4, displacement: 16 },
        vector_index: Some(RegisterClass::Zmm),
        broadcast: false,
        mask: 0,
        zeroing: false,
    });
    let ops = vec![masked(RegisterClass::Zmm, 1, 1, false), gather];
    // base 8 sets B; index 20 sets V' and leaves X; mask k1
    // modrm 01 001 100, sib 10 100 000, disp8 = 16/4
    assert_eq!(bytes_of(&f, ops), Ok(vec![0x62, 0xD2, 0x7D, 0x41, 0x92, 0x4C, 0xA0, 0x04]));
}

#[test]
fn immediates_are_little_endian_two_s_complement() {
    let mut e = Encoding::new();
    e.rex = Some(REX {
        mandatory: true,
        W: Bit::One,
        R: BitRef::NONE,
        B: BitRef::Ref(0),
        X: BitRef::NONE,
    });
    e.opcodes.push(Opcode { byte: 0xB8, addend: NoneRef::Ref(0) });
    e.immediate = Some(Immediate { size: 8, value: IntOrRef::Ref(1) });
    let f = form(vec![OperandId::r64, OperandId::imm64], e);
    let mut value: i64 = 1;
    for step in 0..200 {
        for v in [value, -value, value.wrapping_mul(0x0101_0101_0101_0101), !value] {
            let got = bytes_of(&f, vec![reg(RegisterClass::Gpr64, 0), OperandValue::Immediate(v)])
                .unwrap();
            assert_eq!(&got[2..], &v.to_le_bytes(), "{}", v);
        }
        value = value.wrapping_mul(3).wrapping_add(step);
    }
    for v in [0i64, -1, i64::MAX, i64::MIN, 255, 256, -128, -129] {
        let got =
            bytes_of(&f, vec![reg(RegisterClass::Gpr64, 0), OperandValue::Immediate(v)]).unwrap();
        assert_eq!(&got[2..], &v.to_le_bytes(), "{}", v);
    }
}

#[test]
fn immediate_of_each_size_takes_the_low_bytes() {
    for (size, kind, values) in [
        (1u8, OperandId::imm8, vec![-128i64, -1, 0, 1, 127, 128, 255]),
        (2u8, OperandId::imm16, vec![-32768, -2, 0, 0x1234, 65535]),
        (4u8, OperandId::imm32, vec![-2147483648, -3, 0, 0x12345678, 4294967295]),
    ] {
        let mut e = Encoding::new();
        e.opcodes.push(opcode(0x68));
        e.immediate = Some(Immediate { size, value: IntOrRef::Ref(0) });
        let f = form(vec![kind], e);
        for v in values {
            let got = bytes_of(&f, vec![OperandValue::Immediate(v)]).unwrap();
            assert_eq!(&got[1..], &v.to_le_bytes()[..size as usize], "{} in {}", v, size);
        }
    }
}

#[test]
fn displacements_are_scaled_exactly_where_they_can_be() {
    for n in [1u8, 2, 4, 8, 16, 32, 64] {
        let mut f = vaddps_zmm_mem();
        let mut evex = f.encodings[0].evex.unwrap();
        evex.disp8xN = n;
        f.encodings[0].evex = Some(evex);
        let unit = n as i32;
        for d in (-130 * unit - 3)..=(130 * unit + 3) {
            let ops = vec![
                reg(RegisterClass::Zmm, 1),
                reg(RegisterClass::Zmm, 2),
                mem(512, Some(3), None, 1, d),
            ];
            let got = bytes_of(&f, ops).unwrap();
            let tail = &got[5..];
            if d == 0 {
                assert_eq!(tail, &[0x0B], "{} by {}", d, n);
            } else if d % unit == 0 && -128 <= d / unit && d / unit <= 127 {
                assert_eq!(tail, &[0x4B, (d / unit) as i8 as u8], "{} by {}", d, n);
            } else {
                let mut expected = vec![0x8B];
                expected.extend_from_slice(&d.to_le_bytes());
                assert_eq!(tail, &expected[..], "{} by {}", d, n);
            }
        }
    }
}

#[test]
fn displacements_without_evex_are_not_scaled() {
    for d in [-129, -128, -1, 1, 127, 128, i32::MIN, i32::MAX] {
        let ops = vec![reg(RegisterClass::Gpr64, 0), mem(64, Some(1), None, 1, d)];
        let got = bytes_of(&mov_r64_m64(), ops).unwrap();
        if -128 <= d && d <= 127 {
            assert_eq!(&got[2..], &[0x41, d as i8 as u8], "{}", d);
        } else {
            let mut expected = vec![0x81];
            expected.extend_from_slice(&d.to_le_bytes());
            assert_eq!(&got[2..], &expected[..], "{}", d);
        }
    }
}
