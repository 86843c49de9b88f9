use peregrine_codegen::instruction_parser::{
    load_instructions, parse_code_offset, parse_data_offset, parse_encoding, parse_encodings,
    parse_evex, parse_form, parse_forms, parse_immediate, parse_implicit_operands,
    parse_instruction, parse_instructions, parse_isa, parse_modrm, parse_opcode, parse_operand,
    parse_operands, parse_prefix, parse_register_byte, parse_rex, parse_string, parse_vex,
    power_of_two, read_instruction_set,
};
use peregrine_codegen::json::{parse_json, JsonValue};
use peregrine_codegen::types::{
    AddressMode, Bit, BitRef, Enumerator, ImplicitRegister, IntOrRef, LLBitRef, MMXMode, NoneRef,
    OperandId, ParseErrorKind, ParseInsError, VEXType, XMMMode, ZeroRef, ISA,
};

fn json(text: &str) -> JsonValue {
    parse_json(text).unwrap()
}

fn fault(e: &ParseInsError) -> (ParseErrorKind, Option<&str>, Option<usize>, Option<&str>) {
    (e.kind, e.mnemonic.as_deref(), e.form, e.field.as_deref())
}

const DOCUMENT: &str = r##"{
    "instruction_set": "x86-64",
    "version": 3,
    "instructions": {
        "VADDPS": {
            "summary": "Add Packed Single-Precision Floating-Point Values",
            "note": "ignored",
            "forms": [
                {
                    "xmm_mode": "AVX",
                    "isa": [ { "id": "AVX512F" } ],
                    "operands": [
                        { "type": "zmm{k}{z}", "input": true, "output": true },
                        { "type": "zmm", "input": true },
                        { "type": "zmm", "input": true, "extended_size": 64 },
                        { "type": "{er}" }
                    ],
                    "encodings": [
                        {
                            "EVEX": {
                                "mm": "01", "pp": "00", "W": "0", "LL": "10",
                                "RR": "#0", "B": "#2", "X": "#2", "vvvv": "#1", "V": "#1",
                                "b": "0", "aaa": "#0", "z": "#0", "disp8xN": 64
                            },
                            "opcode": { "byte": "58" },
                            "ModRM": { "mode": "11", "rm": "#2", "reg": "#0" },
                            "future": { "anything": [1, 2, 3] }
                        }
                    ]
                }
            ]
        },
        "ADD": {
            "summary": "Add",
            "forms": [
                {
                    "operands": [
                        { "type": "eax", "input": true, "output": true },
                        { "type": "imm32", "input": true }
                    ],
                    "implicit_operands": [ { "id": "rax", "input": true, "output": true } ],
                    "encodings": [
                        { "opcode": { "byte": "05" }, "immediate": { "size": 4, "value": "#1" } }
                    ]
                }
            ]
        }
    }
}"##;

#[test]
fn instruction_parser_it_works() {
    let set = load_instructions(DOCUMENT).unwrap();
    assert_eq!(set.len(), 2);
}

#[test]
fn load_reads_mnemonics_in_key_order() {
    let set = load_instructions(DOCUMENT).unwrap();
    assert_eq!(set[0].name, "ADD");
    assert_eq!(set[0].summary, "Add");
    assert_eq!(set[1].name, "VADDPS");
    assert_eq!(set[1].summary, "Add Packed Single-Precision Floating-Point Values");
    assert_eq!(set[0].forms.len(), 1);
    assert_eq!(set[1].forms.len(), 1);
}

#[test]
fn load_reads_forms_fully() {
    let set = load_instructions(DOCUMENT).unwrap();
    let add = &set[0].forms[0];
    assert_eq!(add.mmx_mode, MMXMode::NONE);
    assert_eq!(add.xmm_mode, XMMMode::NONE);
    assert!(!add.canceling_inputs);
    assert_eq!(add.operands.len(), 2);
    assert_eq!(add.operands[0].id, OperandId::eax);
    assert!(add.operands[0].input && add.operands[0].output);
    assert_eq!(add.operands[1].id, OperandId::imm32);
    assert!(add.operands[1].input && !add.operands[1].output);
    assert_eq!(add.implicit_operands.len(), 1);
    assert_eq!(add.implicit_operands[0].id, ImplicitRegister::RAX);
    assert_eq!(add.encodings.len(), 1);
    let e = &add.encodings[0];
    assert_eq!(e.opcodes.len(), 1);
    assert_eq!(e.opcodes[0].byte, 0x05);
    assert_eq!(e.opcodes[0].addend, NoneRef::NONE);
    let imm = e.immediate.unwrap();
    assert_eq!(imm.size, 4);
    assert_eq!(imm.value, IntOrRef::Ref(1));
    assert!(e.prefix.is_none() && e.rex.is_none() && e.vex.is_none() && e.evex.is_none());
    assert!(e.modrm.is_none() && e.register_byte.is_none());
    assert!(e.code_offset.is_none() && e.data_offset.is_none());

    let vaddps = &set[1].forms[0];
    assert_eq!(vaddps.xmm_mode, XMMMode::AVX);
    assert_eq!(vaddps.isas, vec![ISA::AVX512F]);
    assert_eq!(vaddps.operands.len(), 4);
    assert_eq!(vaddps.operands[0].id, OperandId::zmm_k_z_);
    assert_eq!(vaddps.operands[2].extended_size, 64);
    assert_eq!(vaddps.operands[3].id, OperandId::_er_);
    let evex = vaddps.encodings[0].evex.unwrap();
    assert_eq!(evex.mm, 1);
    assert_eq!(evex.pp, 0);
    assert_eq!(evex.W, Bit::Zero);
    assert_eq!(evex.LL, LLBitRef::Two);
    assert_eq!(evex.RR, NoneRef::Ref(0));
    assert_eq!(evex.B, NoneRef::Ref(2));
    assert_eq!(evex.X, NoneRef::Ref(2));
    assert_eq!(evex.vvvv, ZeroRef::Ref(1));
    assert_eq!(evex.V, ZeroRef::Ref(1));
    assert_eq!(evex.b, ZeroRef::Zero);
    assert_eq!(evex.aaa, ZeroRef::Ref(0));
    assert_eq!(evex.z, ZeroRef::Ref(0));
    assert_eq!(evex.disp8xN, 64);
    let modrm = vaddps.encodings[0].modrm.unwrap();
    assert_eq!(modrm.mode, AddressMode::Two);
    assert_eq!(modrm.rm, NoneRef::Ref(2));
    assert_eq!(modrm.reg, IntOrRef::Ref(0));
}

#[test]
fn text_that_is_not_json_is_a_syntax_error() {
    let e = load_instructions("{ not json").unwrap_err();
    assert_eq!(fault(&e), (ParseErrorKind::Syntax, None, None, None));
    assert_eq!(e.description(), "Malformed JSON document");
}

#[test]
fn document_must_be_an_object() {
    let e = load_instructions("[1, 2]").unwrap_err();
    assert_eq!(fault(&e), (ParseErrorKind::UnexpectedType, None, None, None));
}

#[test]
fn instruction_set_tag_is_required() {
    let e = load_instructions(r#"{ "instructions": {} }"#).unwrap_err();
    assert_eq!(fault(&e), (ParseErrorKind::MissingField, None, None, Some("instruction_set")));
}

#[test]
fn other_instruction_sets_are_refused() {
    let e = load_instructions(r#"{ "instruction_set": "arm", "instructions": {} }"#).unwrap_err();
    assert_eq!(
        fault(&e),
        (ParseErrorKind::UnsupportedInstructionSet, None, None, Some("instruction_set"))
    );
    let e = load_instructions(r#"{ "instruction_set": 64 }"#).unwrap_err();
    assert_eq!(e.kind, ParseErrorKind::UnsupportedInstructionSet);
    assert_eq!(e.description(), "Unsupported instruction set");
}

#[test]
fn document_without_instructions_is_empty() {
    let set = load_instructions(r#"{ "instruction_set": "x86-64" }"#).unwrap();
    assert!(set.is_empty());
    let set = read_instruction_set(&json(r#"{ "instruction_set": "x86-64", "instructions": {} }"#))
        .unwrap();
    assert!(set.is_empty());
}

#[test]
fn errors_name_mnemonic_form_and_field() {
    let text = r##"{
        "instruction_set": "x86-64",
        "instructions": {
            "ADD": { "forms": [
                { "operands": [ { "type": "r32" } ] },
                { "operands": [ { "type": "r32" }, { "type": "r33" } ] }
            ] }
        }
    }"##;
    let e = load_instructions(text).unwrap_err();
    assert_eq!(fault(&e), (ParseErrorKind::UnknownEnumerator, Some("ADD"), Some(1), Some("type")));
    assert_eq!(e.description(), "Unknown enumerator");
}

#[test]
fn unknown_key_in_a_form_is_fatal() {
    let e = parse_form(&json(r#"{ "operands": [], "colour": "red" }"#)).unwrap_err();
    assert_eq!(fault(&e), (ParseErrorKind::UnexpectedKey, None, None, Some("colour")));
    assert_eq!(e.description(), "Unexpected field in definition");
}

#[test]
fn unknown_key_in_an_encoding_is_passed_over() {
    let e = parse_encoding(&json(r#"{ "opcode": { "byte": "90" }, "colour": [] }"#)).unwrap();
    assert_eq!(e.opcodes.len(), 1);
    assert_eq!(e.opcodes[0].byte, 0x90);
}

#[test]
fn wrong_json_types_are_fatal() {
    assert_eq!(parse_form(&json("[]")).unwrap_err().kind, ParseErrorKind::UnexpectedType);
    assert_eq!(parse_forms(&json("{}")).unwrap_err().kind, ParseErrorKind::UnexpectedType);
    assert_eq!(parse_operands(&json("{}")).unwrap_err().kind, ParseErrorKind::UnexpectedType);
    assert_eq!(parse_encodings(&json("3")).unwrap_err().kind, ParseErrorKind::UnexpectedType);
    assert_eq!(parse_isa(&json("true")).unwrap_err().kind, ParseErrorKind::UnexpectedType);
    assert_eq!(parse_instructions(&json("[]")).unwrap_err().kind, ParseErrorKind::UnexpectedType);
    assert_eq!(parse_string(&json("1")).unwrap_err().kind, ParseErrorKind::UnexpectedType);
    let e = parse_form(&json(r#"{ "canceling_inputs": "yes" }"#)).unwrap_err();
    assert_eq!(fault(&e), (ParseErrorKind::UnexpectedType, None, None, Some("canceling_inputs")));
    let e = parse_operand(&json(r#"{ "type": "r32", "extended_size": -1 }"#)).unwrap_err();
    assert_eq!(fault(&e), (ParseErrorKind::UnexpectedType, None, None, Some("extended_size")));
    let e = parse_operand(&json(r#"{ "type": "r32", "extended_size": 1.5 }"#)).unwrap_err();
    assert_eq!(e.kind, ParseErrorKind::UnexpectedType);
    let e = parse_prefix(&json(r#"{ "byte": 66 }"#)).unwrap_err();
    assert_eq!(fault(&e), (ParseErrorKind::UnexpectedType, None, None, Some("byte")));
    let e = parse_form(&json(r#"{ "operands": [ 1 ] }"#)).unwrap_err();
    assert_eq!(fault(&e), (ParseErrorKind::UnexpectedType, None, None, Some("operands")));
    assert_eq!(e.description(), "Unexpected JSON field type");
}

#[test]
fn operand_without_a_kind_is_refused() {
    let e = parse_operand(&json(r#"{ "input": true }"#)).unwrap_err();
    assert_eq!(fault(&e), (ParseErrorKind::MissingField, None, None, Some("type")));
    assert_eq!(e.description(), "Missing required field");
    let e = parse_operands(&json(r#"[ { "type": "r8" }, {} ]"#)).unwrap_err();
    assert_eq!(e.kind, ParseErrorKind::MissingField);
}

#[test]
fn operands_keep_their_order() {
    let ops = parse_operands(&json(
        r#"[ { "type": "m128/m32bcst" }, { "type": "1" }, { "type": "vm64z{k}" }, { "type": "{sae}" } ]"#,
    ))
    .unwrap();
    let kinds: Vec<OperandId> = ops.iter().map(|o| o.id).collect();
    assert_eq!(
        kinds,
        vec![OperandId::m128__m32bcst, OperandId::_1_, OperandId::vm64z_k_, OperandId::_sae_]
    );
}

#[test]
fn implicit_operands_are_read() {
    let ops = parse_implicit_operands(&json(
        r#"[ { "id": "ecx", "input": true }, { "id": "xmm0", "output": true } ]"#,
    ))
    .unwrap();
    assert_eq!(ops.len(), 2);
    assert_eq!(ops[0].id, ImplicitRegister::ECX);
    assert!(ops[0].input && !ops[0].output);
    assert_eq!(ops[1].id, ImplicitRegister::XMM0);
    assert!(!ops[1].input && ops[1].output);
    let e = parse_implicit_operands(&json(r#"[ { "id": "r9" } ]"#)).unwrap_err();
    assert_eq!(fault(&e), (ParseErrorKind::UnknownEnumerator, None, None, Some("id")));
    let e = parse_implicit_operands(&json(r#"[ { "type": "rax" } ]"#)).unwrap_err();
    assert_eq!(fault(&e), (ParseErrorKind::UnexpectedKey, None, None, Some("type")));
}

#[test]
fn isa_list_is_read() {
    let isas = parse_isa(&json(r#"[ { "id": "SSE4.1" }, {}, { "id": "3dnow!+" } ]"#)).unwrap();
    assert_eq!(isas, vec![ISA::SSE41, ISA::NOW3DPLUS]);
    let e = parse_isa(&json(r#"[ { "id": "AVX1024" } ]"#)).unwrap_err();
    assert_eq!(fault(&e), (ParseErrorKind::UnknownEnumerator, None, None, Some("id")));
    let e = parse_isa(&json(r#"[ { "name": "AVX" } ]"#)).unwrap_err();
    assert_eq!(fault(&e), (ParseErrorKind::UnexpectedKey, None, None, Some("name")));
    let e = parse_isa(&json(r#"[ "AVX" ]"#)).unwrap_err();
    assert_eq!(e.kind, ParseErrorKind::UnexpectedType);
}

#[test]
fn prefix_byte_is_hexadecimal() {
    let p = parse_prefix(&json(r#"{ "mandatory": true, "byte": "F3" }"#)).unwrap();
    assert!(p.mandatory);
    assert_eq!(p.byte, 0xF3);
    let e = parse_prefix(&json(r#"{ "byte": "G3" }"#)).unwrap_err();
    assert_eq!(fault(&e), (ParseErrorKind::InvalidNumber, None, None, Some("byte")));
    let e = parse_prefix(&json(r#"{ "byte": "100" }"#)).unwrap_err();
    assert_eq!(e.kind, ParseErrorKind::InvalidNumber);
    assert_eq!(e.description(), "Invalid number for JSON field type");
    let e = parse_prefix(&json(r#"{ "bite": "F3" }"#)).unwrap_err();
    assert_eq!(fault(&e), (ParseErrorKind::UnexpectedKey, None, None, Some("bite")));
}

#[test]
fn rex_is_read() {
    let r = parse_rex(&json(r##"{ "mandatory": true, "W": "1", "R": "#0", "B": "#1", "X": "0" }"##))
        .unwrap();
    assert!(r.mandatory);
    assert_eq!(r.W, Bit::One);
    assert_eq!(r.R, BitRef::Ref(0));
    assert_eq!(r.B, BitRef::Ref(1));
    assert_eq!(r.X, BitRef::Zero);
    let r = parse_rex(&json("{}")).unwrap();
    assert_eq!(r.W, Bit::NONE);
    assert_eq!(r.R, BitRef::NONE);
    let e = parse_rex(&json(r##"{ "W": "#0" }"##)).unwrap_err();
    assert_eq!(fault(&e), (ParseErrorKind::UnknownEnumerator, None, None, Some("W")));
}

#[test]
fn vex_fields_are_binary() {
    let v = parse_vex(&json(
        r##"{ "type": "VEX", "mmmmm": "00011", "pp": "10", "W": "0", "L": "1", "R": "#0", "B": "#2", "X": "#2", "vvvv": "#1" }"##,
    ))
    .unwrap();
    assert_eq!(v.id, VEXType::VEX);
    assert_eq!(v.mmmmm, 3);
    assert_eq!(v.pp, 2);
    assert_eq!(v.L, Bit::One);
    assert_eq!(v.vvvv, ZeroRef::Ref(1));
    assert_eq!(parse_vex(&json(r#"{ "type": "XOP" }"#)).unwrap().id, VEXType::XOP);
    let e = parse_vex(&json(r#"{ "pp": "12" }"#)).unwrap_err();
    assert_eq!(fault(&e), (ParseErrorKind::InvalidNumber, None, None, Some("pp")));
    let e = parse_vex(&json(r#"{ "type": "EVEX" }"#)).unwrap_err();
    assert_eq!(fault(&e), (ParseErrorKind::UnknownEnumerator, None, None, Some("type")));
}

#[test]
fn evex_scale_is_a_power_of_two_up_to_64() {
    for n in [1u8, 2, 4, 8, 16, 32, 64] {
        let text = format!(r#"{{ "disp8xN": {} }}"#, n);
        assert_eq!(parse_evex(&json(&text)).unwrap().disp8xN, n);
    }
    let e = parse_evex(&json(r#"{ "disp8xN": 24 }"#)).unwrap_err();
    assert_eq!(fault(&e), (ParseErrorKind::NotPowerOfTwo, None, None, Some("disp8xN")));
    assert_eq!(e.description(), "Number was not a power of 2");
    let e = parse_evex(&json(r#"{ "disp8xN": 0 }"#)).unwrap_err();
    assert_eq!(e.kind, ParseErrorKind::NotPowerOfTwo);
    let e = parse_evex(&json(r#"{ "disp8xN": 128 }"#)).unwrap_err();
    assert_eq!(fault(&e), (ParseErrorKind::InvalidNumber, None, None, Some("disp8xN")));
    let e = parse_evex(&json(r#"{ "disp8xN": 256 }"#)).unwrap_err();
    assert_eq!(e.kind, ParseErrorKind::InvalidNumber);
    let e = parse_evex(&json(r#"{ "disp8xN": "64" }"#)).unwrap_err();
    assert_eq!(e.kind, ParseErrorKind::UnexpectedType);
}

#[test]
fn power_of_two_is_exact() {
    assert!(!power_of_two(0));
    assert!(power_of_two(1));
    assert!(power_of_two(2));
    assert!(!power_of_two(3));
    assert!(power_of_two(64));
    assert!(!power_of_two(96));
    assert!(power_of_two(1 << 63));
    assert!(!power_of_two(u64::MAX));
}

#[test]
fn opcode_and_modrm_are_read() {
    let o = parse_opcode(&json(r##"{ "byte": "B8", "addend": "#0" }"##)).unwrap();
    assert_eq!(o.byte, 0xB8);
    assert_eq!(o.addend, NoneRef::Ref(0));
    let m = parse_modrm(&json(r##"{ "mode": "#1", "rm": "#1", "reg": "7" }"##)).unwrap();
    assert_eq!(m.mode, AddressMode::Ref(1));
    assert_eq!(m.rm, NoneRef::Ref(1));
    assert_eq!(m.reg, IntOrRef::Extension(7));
    let e = parse_modrm(&json(r##"{ "mode": "10" }"##)).unwrap_err();
    assert_eq!(fault(&e), (ParseErrorKind::UnknownEnumerator, None, None, Some("mode")));
    let r = parse_register_byte(&json(r##"{ "register": "#3", "payload": "#4" }"##)).unwrap();
    assert_eq!(r.register, NoneRef::Ref(3));
    assert_eq!(r.payload, NoneRef::Ref(4));
}

#[test]
fn sizes_come_from_closed_sets() {
    for n in [1u8, 2, 4, 8] {
        let text = format!(r##"{{ "size": {}, "value": "#1" }}"##, n);
        assert_eq!(parse_immediate(&json(&text)).unwrap().size, n);
    }
    let e = parse_immediate(&json(r#"{ "size": 3 }"#)).unwrap_err();
    assert_eq!(fault(&e), (ParseErrorKind::InvalidNumber, None, None, Some("size")));
    assert_eq!(parse_code_offset(&json(r#"{ "size": 1 }"#)).unwrap().size, 1);
    assert_eq!(parse_code_offset(&json(r#"{ "size": 4 }"#)).unwrap().size, 4);
    assert_eq!(
        parse_code_offset(&json(r#"{ "size": 2 }"#)).unwrap_err().kind,
        ParseErrorKind::InvalidNumber
    );
    assert_eq!(parse_data_offset(&json(r#"{ "size": 4 }"#)).unwrap().size, 4);
    assert_eq!(parse_data_offset(&json(r#"{ "size": 8 }"#)).unwrap().size, 8);
    assert_eq!(
        parse_data_offset(&json(r#"{ "size": 1 }"#)).unwrap_err().kind,
        ParseErrorKind::InvalidNumber
    );
    assert_eq!(
        parse_immediate(&json(r#"{ "size": "4" }"#)).unwrap_err().kind,
        ParseErrorKind::UnexpectedType
    );
}

#[test]
fn encoding_error_names_the_innermost_field() {
    let e = parse_encodings(&json(r#"[ { "opcode": { "byte": "90" } }, { "prefix": { "byte": "zz" } } ]"#))
        .unwrap_err();
    assert_eq!(fault(&e), (ParseErrorKind::InvalidNumber, None, None, Some("byte")));
    let e = parse_encoding(&json(r#"{ "prefix": 3 }"#)).unwrap_err();
    assert_eq!(fault(&e), (ParseErrorKind::UnexpectedType, None, None, Some("prefix")));
}

#[test]
fn forms_carry_their_index_in_errors() {
    let e = parse_forms(&json(r#"[ {}, {}, { "mmx_mode": "SSE" } ]"#)).unwrap_err();
    assert_eq!(fault(&e), (ParseErrorKind::UnknownEnumerator, None, Some(2), Some("mmx_mode")));
    let forms = parse_forms(&json(r#"[ { "mmx_mode": "FPU" }, { "xmm_mode": "SSE" } ]"#)).unwrap();
    assert_eq!(forms[0].mmx_mode, MMXMode::FPU);
    assert_eq!(forms[1].xmm_mode, XMMMode::SSE);
}

#[test]
fn instruction_keeps_name_and_ignores_other_keys() {
    let ins = parse_instruction(
        &String::from("NOP"),
        &json(r#"{ "summary": "No Operation", "since": 1978, "forms": [ {} ] }"#),
    )
    .unwrap();
    assert_eq!(ins.name, "NOP");
    assert_eq!(ins.summary, "No Operation");
    assert_eq!(ins.forms.len(), 1);
    let e = parse_instruction(&String::from("NOP"), &json(r#"{ "summary": 3 }"#)).unwrap_err();
    assert_eq!(fault(&e), (ParseErrorKind::UnexpectedType, Some("NOP"), None, Some("summary")));
    let e = parse_instruction(&String::from("NOP"), &json(r#"{ "forms": {} }"#)).unwrap_err();
    assert_eq!(fault(&e), (ParseErrorKind::UnexpectedType, Some("NOP"), None, Some("forms")));
    let e = parse_instruction(&String::from("NOP"), &json("7")).unwrap_err();
    assert_eq!(fault(&e), (ParseErrorKind::UnexpectedType, Some("NOP"), None, None));
}

#[test]
fn every_operand_kind_has_its_name() {
    let names = [
        ("1", OperandId::_1_), ("3", OperandId::_3_), ("al", OperandId::al), ("ax", OperandId::ax),
        ("eax", OperandId::eax), ("rax", OperandId::rax), ("cl", OperandId::cl),
        ("xmm0", OperandId::xmm0), ("rel8", OperandId::rel8), ("rel32", OperandId::rel32),
        ("imm4", OperandId::imm4), ("imm8", OperandId::imm8), ("imm16", OperandId::imm16),
        ("imm32", OperandId::imm32), ("imm64", OperandId::imm64), ("r8", OperandId::r8),
        ("r16", OperandId::r16), ("r32", OperandId::r32), ("r64", OperandId::r64),
        ("mm", OperandId::mm), ("xmm", OperandId::xmm), ("xmm{k}", OperandId::xmm_k_),
        ("xmm{k}{z}", OperandId::xmm_k_z_), ("ymm", OperandId::ymm), ("ymm{k}", OperandId::ymm_k_),
        ("ymm{k}{z}", OperandId::ymm_k_z_), ("zmm", OperandId::zmm), ("zmm{k}", OperandId::zmm_k_),
        ("zmm{k}{z}", OperandId::zmm_k_z_), ("k", OperandId::k), ("k{k}", OperandId::k_k_),
        ("m", OperandId::m), ("m8", OperandId::m8), ("m16", OperandId::m16),
        ("m16{k}{z}", OperandId::m16_k_z_), ("m32", OperandId::m32), ("m32{k}", OperandId::m32_k_),
        ("m32{k}{z}", OperandId::m32_k_z_), ("m64", OperandId::m64), ("m64{k}", OperandId::m64_k_),
        ("m64{k}{z}", OperandId::m64_k_z_), ("m80", OperandId::m80), ("m128", OperandId::m128),
        ("m128{k}{z}", OperandId::m128_k_z_), ("m256", OperandId::m256),
        ("m256{k}{z}", OperandId::m256_k_z_), ("m512", OperandId::m512),
        ("m512{k}{z}", OperandId::m512_k_z_), ("m64/m32bcst", OperandId::m64__m32bcst),
        ("m128/m32bcst", OperandId::m128__m32bcst), ("m256/m32bcst", OperandId::m256__m32bcst),
        ("m512/m32bcst", OperandId::m512__m32bcst), ("m128/m64bcst", OperandId::m128__m64bcst),
        ("m256/m64bcst", OperandId::m256__m64bcst), ("m512/m64bcst", OperandId::m512__m64bcst),
        ("moffs32", OperandId::moffs32), ("moffs64", OperandId::moffs64),
        ("vm32x", OperandId::vm32x), ("vm32x{k}", OperandId::vm32x_k_), ("vm32y", OperandId::vm32y),
        ("vm32y{k}", OperandId::vm32y_k_), ("vm32z", OperandId::vm32z),
        ("vm32z{k}", OperandId::vm32z_k_), ("vm64x", OperandId::vm64x),
        ("vm64x{k}", OperandId::vm64x_k_), ("vm64y", OperandId::vm64y),
        ("vm64y{k}", OperandId::vm64y_k_), ("vm64z", OperandId::vm64z),
        ("vm64z{k}", OperandId::vm64z_k_), ("{sae}", OperandId::_sae_), ("{er}", OperandId::_er_),
    ];
    assert_eq!(names.len(), 71);
    for (name, kind) in names {
        assert_eq!(OperandId::from_str(name).unwrap(), kind, "{}", name);
    }
}

#[test]
fn unknown_operand_kinds_are_rejected() {
    for name in ["", "NONE", "r128", "XMM", "xmm{z}", " xmm", "imm", "{er} ", "m64bcst"] {
        let e = OperandId::from_str(name).unwrap_err();
        assert_eq!(fault(&e), (ParseErrorKind::UnknownEnumerator, None, None, None), "{}", name);
    }
}
