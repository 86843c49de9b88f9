use peregrine_codegen::types::{
    AddressMode, Bit, BitRef, CodeOffset, DataOffset, Encoding, Enumerator, Immediate,
    ImplicitOperand, ImplicitRegister, Instruction, InstructionForm, IntOrRef, LLBitRef, MMXMode,
    ModRM, NoneRef, Opcode, Operand, OperandId, ParseErrorKind, ParseInsError, Prefix,
    RegisterByte, VEXType, XMMMode, ZeroRef, EVEX, ISA, REX, VEX,
};

#[test]
fn new_records_are_blank() {
    let ins = Instruction::new(&String::from("ADDSS"));
    assert_eq!(ins.name, "ADDSS");
    assert_eq!(ins.summary, "");
    assert!(ins.forms.is_empty());
    let form = InstructionForm::new();
    assert_eq!(form.mmx_mode, MMXMode::NONE);
    assert_eq!(form.xmm_mode, XMMMode::NONE);
    assert!(!form.canceling_inputs);
    assert!(form.isas.is_empty() && form.implicit_operands.is_empty());
    assert!(form.operands.is_empty() && form.encodings.is_empty());
    let e = Encoding::new();
    assert!(e.prefix.is_none() && e.rex.is_none() && e.vex.is_none() && e.evex.is_none());
    assert!(e.opcodes.is_empty() && e.modrm.is_none() && e.register_byte.is_none());
    assert!(e.immediate.is_none() && e.data_offset.is_none() && e.code_offset.is_none());
    assert_eq!(
        ImplicitOperand::new(),
        ImplicitOperand { id: ImplicitRegister::NONE, input: false, output: false }
    );
    assert_eq!(
        Operand::new(),
        Operand { id: OperandId::NONE, input: false, output: false, extended_size: 0 }
    );
    assert_eq!(Prefix::new(), Prefix { mandatory: false, byte: 0 });
    assert_eq!(
        REX::new(),
        REX { mandatory: false, W: Bit::NONE, R: BitRef::NONE, B: BitRef::NONE, X: BitRef::NONE }
    );
    let vex = VEX::new();
    assert_eq!(vex.id, VEXType::NONE);
    assert_eq!((vex.mmmmm, vex.pp), (0, 0));
    assert_eq!((vex.W, vex.L), (Bit::NONE, Bit::NONE));
    assert_eq!((vex.R, vex.B, vex.X), (BitRef::NONE, BitRef::NONE, BitRef::NONE));
    assert_eq!(vex.vvvv, ZeroRef::NONE);
    let evex = EVEX::new();
    assert_eq!((evex.mm, evex.pp, evex.disp8xN), (0, 0, 0));
    assert_eq!(evex.W, Bit::NONE);
    assert_eq!(evex.LL, LLBitRef::NONE);
    assert_eq!((evex.RR, evex.B, evex.X), (NoneRef::NONE, NoneRef::NONE, NoneRef::NONE));
    assert_eq!(evex.vvvv, ZeroRef::NONE);
    assert_eq!((evex.V, evex.b, evex.aaa, evex.z), (ZeroRef::NONE, ZeroRef::NONE, ZeroRef::NONE, ZeroRef::NONE));
    assert_eq!(Opcode::new(), Opcode { byte: 0, addend: NoneRef::NONE });
    assert_eq!(
        ModRM::new(),
        ModRM { mode: AddressMode::NONE, rm: NoneRef::NONE, reg: IntOrRef::NONE }
    );
    assert_eq!(
        RegisterByte::new(),
        RegisterByte { register: NoneRef::NONE, payload: NoneRef::NONE }
    );
    assert_eq!(Immediate::new(), Immediate { size: 0, value: IntOrRef::NONE });
    assert_eq!(CodeOffset::new(), CodeOffset { size: 0, value: NoneRef::NONE });
    assert_eq!(DataOffset::new(), DataOffset { size: 0, value: NoneRef::NONE });
}

#[test]
fn clone_copies_a_form() {
    let mut form = InstructionForm::new();
    form.mmx_mode = MMXMode::MMX;
    form.canceling_inputs = true;
    form.isas.push(ISA::AVX2);
    form.implicit_operands.push(ImplicitOperand {
        id: ImplicitRegister::RDI,
        input: true,
        output: false,
    });
    form.operands.push(Operand { id: OperandId::r64, input: true, output: true, extended_size: 8 });
    let mut e = Encoding::new();
    e.prefix = Some(Prefix { mandatory: true, byte: 0x66 });
    e.opcodes.push(Opcode { byte: 0x0F, addend: NoneRef::NONE });
    e.opcodes.push(Opcode { byte: 0xC8, addend: NoneRef::Ref(0) });
    form.encodings.push(e);
    form.encodings.push(Encoding::new());
    let copy = form.clone();
    assert_eq!(copy.mmx_mode, MMXMode::MMX);
    assert!(copy.canceling_inputs);
    assert_eq!(copy.isas, form.isas);
    assert_eq!(copy.implicit_operands, form.implicit_operands);
    assert_eq!(copy.operands, form.operands);
    assert_eq!(copy.encodings.len(), 2);
    assert_eq!(copy.encodings[0].prefix, form.encodings[0].prefix);
    assert_eq!(copy.encodings[0].opcodes, form.encodings[0].opcodes);
    assert!(copy.encodings[1].opcodes.is_empty());
}

#[test]
fn small_enumerators_are_read() {
    assert_eq!(MMXMode::from_str("FPU").unwrap(), MMXMode::FPU);
    assert_eq!(MMXMode::from_str("MMX").unwrap(), MMXMode::MMX);
    assert!(MMXMode::from_str("NONE").is_err());
    assert_eq!(XMMMode::from_str("SSE").unwrap(), XMMMode::SSE);
    assert_eq!(XMMMode::from_str("AVX").unwrap(), XMMMode::AVX);
    assert!(XMMMode::from_str("sse").is_err());
    assert_eq!(Bit::from_str("0").unwrap(), Bit::Zero);
    assert_eq!(Bit::from_str("1").unwrap(), Bit::One);
    assert!(Bit::from_str("2").is_err());
    assert_eq!(BitRef::from_str("0").unwrap(), BitRef::Zero);
    assert_eq!(BitRef::from_str("1").unwrap(), BitRef::One);
    assert_eq!(BitRef::from_str("#3").unwrap(), BitRef::Ref(3));
    assert!(BitRef::from_str("#4").is_err());
    assert_eq!(ZeroRef::from_str("0").unwrap(), ZeroRef::Zero);
    assert_eq!(ZeroRef::from_str("000").unwrap(), ZeroRef::Zero);
    assert_eq!(ZeroRef::from_str("0000").unwrap(), ZeroRef::Zero);
    assert_eq!(ZeroRef::from_str("#2").unwrap(), ZeroRef::Ref(2));
    assert!(ZeroRef::from_str("1").is_err());
    assert!(ZeroRef::from_str("00").is_err());
    assert_eq!(VEXType::from_str("VEX").unwrap(), VEXType::VEX);
    assert_eq!(VEXType::from_str("XOP").unwrap(), VEXType::XOP);
    assert_eq!(LLBitRef::from_str("00").unwrap(), LLBitRef::Zero);
    assert_eq!(LLBitRef::from_str("01").unwrap(), LLBitRef::One);
    assert_eq!(LLBitRef::from_str("10").unwrap(), LLBitRef::Two);
    assert_eq!(LLBitRef::from_str("#2").unwrap(), LLBitRef::LastRef(2));
    assert_eq!(LLBitRef::from_str("#3").unwrap(), LLBitRef::LastRef(3));
    assert!(LLBitRef::from_str("11").is_err());
    assert!(LLBitRef::from_str("#1").is_err());
    assert_eq!(NoneRef::from_str("#0").unwrap(), NoneRef::Ref(0));
    assert_eq!(NoneRef::from_str("#4").unwrap(), NoneRef::Ref(4));
    assert!(NoneRef::from_str("#5").is_err());
    assert!(NoneRef::from_str("0").is_err());
    assert_eq!(AddressMode::from_str("11").unwrap(), AddressMode::Two);
    assert_eq!(AddressMode::from_str("#3").unwrap(), AddressMode::Ref(3));
    assert!(AddressMode::from_str("#4").is_err());
    assert!(AddressMode::from_str("00").is_err());
}

#[test]
fn int_or_ref_reads_numbers_first() {
    assert_eq!(IntOrRef::from_str("0").unwrap(), IntOrRef::Extension(0));
    assert_eq!(IntOrRef::from_str("7").unwrap(), IntOrRef::Extension(7));
    assert_eq!(IntOrRef::from_str("255").unwrap(), IntOrRef::Extension(255));
    assert_eq!(IntOrRef::from_str("007").unwrap(), IntOrRef::Extension(7));
    assert_eq!(IntOrRef::from_str("#0").unwrap(), IntOrRef::Ref(0));
    assert_eq!(IntOrRef::from_str("#4").unwrap(), IntOrRef::Ref(4));
    let e = IntOrRef::from_str("256").unwrap_err();
    assert_eq!(e.kind, ParseErrorKind::UnknownEnumerator);
    assert!(IntOrRef::from_str("#5").is_err());
    assert!(IntOrRef::from_str("-1").is_err());
    assert!(IntOrRef::from_str("").is_err());
}

#[test]
fn implicit_registers_are_read() {
    let names = [
        ("ax", ImplicitRegister::AX), ("al", ImplicitRegister::AL), ("dx", ImplicitRegister::DX),
        ("eax", ImplicitRegister::EAX), ("ebx", ImplicitRegister::EBX),
        ("ecx", ImplicitRegister::ECX), ("edx", ImplicitRegister::EDX),
        ("rax", ImplicitRegister::RAX), ("rbx", ImplicitRegister::RBX),
        ("rcx", ImplicitRegister::RCX), ("rdx", ImplicitRegister::RDX),
        ("rdi", ImplicitRegister::RDI), ("xmm0", ImplicitRegister::XMM0),
    ];
    for (name, register) in names {
        assert_eq!(ImplicitRegister::from_str(name).unwrap(), register);
    }
    assert!(ImplicitRegister::from_str("rsi").is_err());
}

#[test]
fn isa_names_and_codes() {
    let table = [
        ("CPUID", ISA::CPUID, 1), ("RDTSC", ISA::RDTSC, 5), ("RDTSCP", ISA::RDTSCP, 6),
        ("CMOV", ISA::CMOV, 20), ("MOVBE", ISA::MOVBE, 99), ("POPCNT", ISA::POPCNT, 100),
        ("LZCNT", ISA::LZCNT, 101), ("TBM", ISA::TBM, 102), ("BMI", ISA::BMI, 103),
        ("BMI2", ISA::BMI2, 104), ("ADX", ISA::ADX, 105), ("MMX", ISA::MMX, 30),
        ("MMX+", ISA::MMXPLUS, 31), ("FEMMS", ISA::FEMMS, 40), ("3dnow!", ISA::NOW3D, 41),
        ("3dnow!+", ISA::NOW3DPLUS, 42), ("SSE", ISA::SSE, 50), ("SSE2", ISA::SSE2, 51),
        ("SSE3", ISA::SSE3, 52), ("SSSE3", ISA::SSSE3, 53), ("SSE4A", ISA::SSE4A, 54),
        ("SSE4.1", ISA::SSE41, 55), ("SSE4.2", ISA::SSE42, 56), ("FMA3", ISA::FMA3, 60),
        ("FMA4", ISA::FMA4, 61), ("XOP", ISA::XOP, 62), ("F16C", ISA::F16C, 63),
        ("AVX", ISA::AVX, 70), ("AVX2", ISA::AVX2, 71), ("AVX512F", ISA::AVX512F, 72),
        ("AVX512BW", ISA::AVX512BW, 73), ("AVX512DQ", ISA::AVX512DQ, 74),
        ("AVX512VL", ISA::AVX512VL, 75), ("AVX512PF", ISA::AVX512PF, 76),
        ("AVX512ER", ISA::AVX512ER, 77), ("AVX512CD", ISA::AVX512CD, 78),
        ("AVX512VBMI", ISA::AVX512VBMI, 79), ("AVX512IFMA", ISA::AVX512IFMA, 80),
        ("RDRAND", ISA::RDRAND, 85), ("RDSEED", ISA::RDSEED, 86),
        ("PCLMULQDQ", ISA::PCLMULQDQ, 90), ("AES", ISA::AES, 91), ("SHA", ISA::SHA, 92),
        ("PRFCHW", ISA::PRFCHW, 201), ("PREFETCHWT1", ISA::PREFETCHWT1, 202),
    ];
    for (name, isa, code) in table {
        assert_eq!(ISA::from_str(name).unwrap(), isa);
        assert_eq!(isa.code(), code);
    }
    assert_eq!(ISA::UNSUPPORTED.code(), 200);
    assert_eq!(ISA::from_str("UNSUPPORTED").unwrap_err().kind, ParseErrorKind::UnknownEnumerator);
    assert!(ISA::from_str("AVX10").is_err());
}

#[test]
fn errors_gather_their_place() {
    let e = ParseInsError::new(ParseErrorKind::InvalidNumber);
    assert!(e.mnemonic.is_none() && e.form.is_none() && e.field.is_none());
    let e = e.at_field("byte").at_field("prefix").in_form(3).in_mnemonic("ADD");
    assert_eq!(e.kind, ParseErrorKind::InvalidNumber);
    assert_eq!(e.field.as_deref(), Some("byte"));
    assert_eq!(e.form, Some(3));
    assert_eq!(e.mnemonic.as_deref(), Some("ADD"));
    assert_eq!(e.description(), "Invalid number for JSON field type");
}

#[test]
fn enumerators_are_read_through_the_standard_trait_too() {
    assert_eq!("zmm{k}{z}".parse::<OperandId>().unwrap(), OperandId::zmm_k_z_);
    assert_eq!("AVX512F".parse::<ISA>().unwrap(), ISA::AVX512F);
    assert_eq!("7".parse::<IntOrRef>().unwrap(), IntOrRef::Extension(7));
    assert_eq!("#2".parse::<LLBitRef>().unwrap(), LLBitRef::LastRef(2));
    assert_eq!("MMX".parse::<MMXMode>().unwrap(), MMXMode::MMX);
    assert_eq!("AVX".parse::<XMMMode>().unwrap(), XMMMode::AVX);
    assert_eq!("rdi".parse::<ImplicitRegister>().unwrap(), ImplicitRegister::RDI);
    assert_eq!("1".parse::<Bit>().unwrap(), Bit::One);
    assert_eq!("#3".parse::<BitRef>().unwrap(), BitRef::Ref(3));
    assert_eq!("000".parse::<ZeroRef>().unwrap(), ZeroRef::Zero);
    assert_eq!("XOP".parse::<VEXType>().unwrap(), VEXType::XOP);
    assert_eq!("#4".parse::<NoneRef>().unwrap(), NoneRef::Ref(4));
    assert_eq!("11".parse::<AddressMode>().unwrap(), AddressMode::Two);
    let e = "r128".parse::<OperandId>().unwrap_err();
    assert_eq!(e.kind, ParseErrorKind::UnknownEnumerator);
    assert!("".parse::<ISA>().is_err());
}
