use peregrine_codegen::assembler::assemble;
use peregrine_codegen::loader::{
    expand_forms, expand_instruction_set, filter_instruction_forms, has_moffs_operand,
    has_pseudo_operand, is_avx512, is_moffs_operand, is_pseudo_operand, load_instruction_set,
    plain_form, prepare_forms, prepare_instruction_set, rounding_form,
};
use peregrine_codegen::operand::{OperandValue, Register, RegisterClass, RoundingMode};
use peregrine_codegen::types::{
    Bit, Encoding, Instruction, InstructionForm, LLBitRef, NoneRef, Opcode, Operand, OperandId,
    ParseErrorKind, ZeroRef, EVEX, ISA,
};

fn form_of(kinds: &[OperandId]) -> InstructionForm {
    let mut f = InstructionForm::new();
    for kind in kinds {
        f.operands.push(Operand { id: *kind, input: true, output: false, extended_size: 0 });
    }
    f
}

fn with_evex(mut form: InstructionForm, b: ZeroRef, ll: LLBitRef) -> InstructionForm {
    let mut e = Encoding::new();
    let mut evex = EVEX::new();
    evex.mm = 1;
    evex.W = Bit::One;
    evex.b = b;
    evex.LL = ll;
    evex.RR = NoneRef::Ref(0);
    e.evex = Some(evex);
    e.opcodes.push(Opcode { byte: 0x58, addend: NoneRef::NONE });
    form.encodings.push(e);
    form
}

fn kinds(form: &InstructionForm) -> Vec<OperandId> {
    form.operands.iter().map(|o| o.id).collect()
}

const DOCUMENT: &str = r##"{
    "instruction_set": "x86-64",
    "instructions": {
        "MOV": {
            "summary": "Move",
            "forms": [
                {
                    "operands": [ { "type": "eax" }, { "type": "moffs32" } ],
                    "encodings": [ { "opcode": { "byte": "A1" }, "data_offset": { "size": 4, "value": "#1" } } ]
                },
                {
                    "operands": [ { "type": "r32" }, { "type": "imm32" } ],
                    "encodings": [ { "REX": { "W": "0", "B": "#0" }, "opcode": { "byte": "B8", "addend": "#0" }, "immediate": { "size": 4, "value": "#1" } } ]
                }
            ]
        },
        "VADDPS": {
            "summary": "Add Packed Single-Precision Floating-Point Values",
            "forms": [
                {
                    "isa": [ { "id": "AVX512F" } ],
                    "operands": [ { "type": "zmm{k}{z}" }, { "type": "zmm" }, { "type": "zmm" }, { "type": "{er}" } ],
                    "encodings": [
                        {
                            "EVEX": {
                                "mm": "01", "pp": "00", "W": "0", "LL": "10",
                                "RR": "#0", "B": "#2", "X": "#2", "vvvv": "#1", "V": "#1",
                                "b": "0", "aaa": "#0", "z": "#0", "disp8xN": 64
                            },
                            "opcode": { "byte": "58" },
                            "ModRM": { "mode": "11", "rm": "#2", "reg": "#0" }
                        }
                    ]
                }
            ]
        }
    }
}"##;

#[test]
fn pseudo_and_moffs_kinds() {
    assert!(is_pseudo_operand(OperandId::_sae_));
    assert!(is_pseudo_operand(OperandId::_er_));
    assert!(!is_pseudo_operand(OperandId::zmm));
    assert!(is_moffs_operand(OperandId::moffs32));
    assert!(is_moffs_operand(OperandId::moffs64));
    assert!(!is_moffs_operand(OperandId::m64));
    assert!(has_pseudo_operand(&form_of(&[OperandId::zmm, OperandId::_sae_])));
    assert!(!has_pseudo_operand(&form_of(&[OperandId::zmm, OperandId::zmm])));
    assert!(!has_pseudo_operand(&form_of(&[])));
    assert!(has_moffs_operand(&form_of(&[OperandId::moffs64, OperandId::rax])));
    assert!(!has_moffs_operand(&form_of(&[OperandId::rax])));
}

#[test]
fn plain_variant_drops_the_pseudo_operand() {
    let f = with_evex(
        form_of(&[OperandId::zmm_k_z_, OperandId::zmm, OperandId::_er_]),
        ZeroRef::Zero,
        LLBitRef::LastRef(2),
    );
    let plain = plain_form(&f);
    assert_eq!(kinds(&plain), vec![OperandId::zmm_k_z_, OperandId::zmm]);
    let evex = plain.encodings[0].evex.unwrap();
    assert_eq!(evex.b, ZeroRef::Zero);
    assert_eq!(evex.LL, LLBitRef::Two);
    assert_eq!((evex.mm, evex.W, evex.RR), (1, Bit::One, NoneRef::Ref(0)));
    assert_eq!(plain.encodings[0].opcodes, f.encodings[0].opcodes);
}

#[test]
fn marked_form_keeps_an_operand_driven_length() {
    let f = with_evex(
        form_of(&[OperandId::zmm_k_z_, OperandId::zmm, OperandId::_er_]),
        ZeroRef::Zero,
        LLBitRef::LastRef(2),
    );
    let marked = rounding_form(&f);
    assert_eq!(kinds(&marked), vec![OperandId::zmm_k_z_, OperandId::zmm, OperandId::_er_]);
    let evex = marked.encodings[0].evex.unwrap();
    assert_eq!(evex.b, ZeroRef::EVEX_b_ONE);
    assert_eq!(evex.LL, LLBitRef::LastRef(2));
    let none = rounding_form(&with_evex(form_of(&[OperandId::_sae_]), ZeroRef::Zero, LLBitRef::NONE));
    assert_eq!(none.encodings[0].evex.unwrap().LL, LLBitRef::NONE);
}

#[test]
fn marked_form_loses_a_literal_length() {
    for ll in [LLBitRef::Zero, LLBitRef::One, LLBitRef::Two] {
        let f = with_evex(form_of(&[OperandId::zmm, OperandId::_sae_]), ZeroRef::Ref(1), ll);
        let evex = rounding_form(&f).encodings[0].evex.unwrap();
        assert_eq!(evex.b, ZeroRef::EVEX_b_ONE);
        assert_eq!(evex.LL, LLBitRef::Zero);
    }
}

#[test]
fn expansion_without_evex_or_templates() {
    let mut f = form_of(&[OperandId::xmm, OperandId::_sae_]);
    let expanded = expand_forms(&vec![f.clone()]);
    assert_eq!(expanded.len(), 2);
    assert!(expanded[0].encodings.is_empty() && expanded[1].encodings.is_empty());
    f.encodings.push(Encoding::new());
    let expanded = expand_forms(&vec![f]);
    assert_eq!(expanded.len(), 2);
    assert!(expanded[0].encodings[0].evex.is_none());
    assert!(expanded[1].encodings[0].evex.is_none());
    assert_eq!(kinds(&expanded[1]), vec![OperandId::xmm]);
}

#[test]
fn only_the_first_template_is_touched() {
    let mut f = with_evex(form_of(&[OperandId::zmm, OperandId::_er_]), ZeroRef::Zero, LLBitRef::Two);
    let second = f.encodings[0].clone();
    f.encodings.push(second);
    let expanded = expand_forms(&vec![f]);
    assert_eq!(expanded[0].encodings[0].evex.unwrap().b, ZeroRef::EVEX_b_ONE);
    assert_eq!(expanded[0].encodings[1].evex.unwrap().b, ZeroRef::Zero);
    assert_eq!(expanded[0].encodings[1].evex.unwrap().LL, LLBitRef::Two);
    assert_eq!(expanded[1].encodings[0].evex.unwrap().LL, LLBitRef::Two);
    assert_eq!(expanded[1].encodings[1].evex.unwrap().LL, LLBitRef::Two);
}

#[test]
fn expansion_keeps_places_and_appends_variants() {
    let forms = vec![
        form_of(&[OperandId::xmm, OperandId::xmm]),
        with_evex(form_of(&[OperandId::zmm, OperandId::zmm, OperandId::_er_]), ZeroRef::Zero, LLBitRef::Two),
        form_of(&[OperandId::ymm]),
        with_evex(form_of(&[OperandId::zmm, OperandId::_sae_]), ZeroRef::Zero, LLBitRef::One),
    ];
    let expanded = expand_forms(&forms);
    assert_eq!(expanded.len(), 6);
    assert_eq!(kinds(&expanded[0]), vec![OperandId::xmm, OperandId::xmm]);
    assert_eq!(kinds(&expanded[1]), vec![OperandId::zmm, OperandId::zmm, OperandId::_er_]);
    assert_eq!(kinds(&expanded[2]), vec![OperandId::ymm]);
    assert_eq!(kinds(&expanded[3]), vec![OperandId::zmm, OperandId::_sae_]);
    assert_eq!(kinds(&expanded[4]), vec![OperandId::zmm, OperandId::zmm]);
    assert_eq!(kinds(&expanded[5]), vec![OperandId::zmm]);
    assert_eq!(expanded[1].encodings[0].evex.unwrap().b, ZeroRef::EVEX_b_ONE);
    assert_eq!(expanded[3].encodings[0].evex.unwrap().b, ZeroRef::EVEX_b_ONE);
    assert_eq!(expanded[4].encodings[0].evex.unwrap().b, ZeroRef::Zero);
    assert_eq!(expanded[5].encodings[0].evex.unwrap().LL, LLBitRef::Two);
    assert!(expand_forms(&Vec::new()).is_empty());
}

#[test]
fn expansion_of_a_set_keeps_names() {
    let mut a = Instruction::new(&String::from("A"));
    a.summary = String::from("first");
    a.forms.push(form_of(&[OperandId::zmm, OperandId::_er_]));
    let b = Instruction::new(&String::from("B"));
    let set = expand_instruction_set(&vec![a, b]);
    assert_eq!(set.len(), 2);
    assert_eq!((set[0].name.as_str(), set[0].summary.as_str()), ("A", "first"));
    assert_eq!(set[0].forms.len(), 2);
    assert_eq!(set[1].name, "B");
    assert!(set[1].forms.is_empty());
}

#[test]
fn filter_drops_moffs_and_orders_by_arity() {
    let forms = vec![
        form_of(&[OperandId::r32, OperandId::r32, OperandId::imm8]),
        form_of(&[OperandId::eax, OperandId::moffs32]),
        form_of(&[OperandId::r64]),
        form_of(&[OperandId::r32, OperandId::imm32]),
        form_of(&[]),
        form_of(&[OperandId::moffs64, OperandId::rax]),
        form_of(&[OperandId::r16]),
        form_of(&[OperandId::r64, OperandId::imm32]),
    ];
    let filtered = filter_instruction_forms(&forms);
    let got: Vec<Vec<OperandId>> = filtered.iter().map(|f| kinds(f)).collect();
    assert_eq!(
        got,
        vec![
            vec![],
            vec![OperandId::r64],
            vec![OperandId::r16],
            vec![OperandId::r32, OperandId::imm32],
            vec![OperandId::r64, OperandId::imm32],
            vec![OperandId::r32, OperandId::r32, OperandId::imm8],
        ]
    );
    assert!(std::ptr::eq(filtered[1], &forms[2]));
}

#[test]
fn filter_of_nothing_and_of_only_moffs() {
    assert!(filter_instruction_forms(&Vec::new()).is_empty());
    let forms = vec![form_of(&[OperandId::al, OperandId::moffs32])];
    assert!(filter_instruction_forms(&forms).is_empty());
}

#[test]
fn avx512_is_strictly_between_72_and_80() {
    let with = |isas: &[ISA]| {
        let mut f = InstructionForm::new();
        for i in isas {
            f.isas.push(*i);
        }
        is_avx512(&f)
    };
    assert!(!with(&[]));
    assert!(!with(&[ISA::AVX512F]));
    assert!(with(&[ISA::AVX512BW]));
    assert!(with(&[ISA::AVX512DQ]));
    assert!(with(&[ISA::AVX512VL]));
    assert!(with(&[ISA::AVX512PF]));
    assert!(with(&[ISA::AVX512ER]));
    assert!(with(&[ISA::AVX512CD]));
    assert!(with(&[ISA::AVX512VBMI]));
    assert!(!with(&[ISA::AVX512IFMA]));
    assert!(!with(&[ISA::AVX2]));
    assert!(!with(&[ISA::RDRAND]));
    assert!(!with(&[ISA::AVX, ISA::AVX512BW]));
    assert!(with(&[ISA::AVX512BW, ISA::AVX]));
}

#[test]
fn loaded_set_is_expanded_and_filtered() {
    let set = load_instruction_set(DOCUMENT).unwrap();
    assert_eq!(set.len(), 2);
    assert_eq!(set[0].name, "MOV");
    assert_eq!(set[0].summary, "Move");
    assert_eq!(set[0].forms.len(), 1);
    assert_eq!(kinds(&set[0].forms[0]), vec![OperandId::r32, OperandId::imm32]);
    let vaddps = &set[1];
    assert_eq!(vaddps.forms.len(), 2);
    assert_eq!(kinds(&vaddps.forms[0]), vec![OperandId::zmm_k_z_, OperandId::zmm, OperandId::zmm]);
    assert_eq!(kinds(&vaddps.forms[1]).len(), 4);
    assert_eq!(kinds(&vaddps.forms[1])[3], OperandId::_er_);
    let plain = vaddps.forms[0].encodings[0].evex.unwrap();
    assert_eq!((plain.b, plain.LL), (ZeroRef::Zero, LLBitRef::Two));
    let marked = vaddps.forms[1].encodings[0].evex.unwrap();
    assert_eq!((marked.b, marked.LL), (ZeroRef::EVEX_b_ONE, LLBitRef::Zero));
}

#[test]
fn no_loaded_form_takes_moffs_and_arities_ascend() {
    let set = load_instruction_set(DOCUMENT).unwrap();
    for ins in &set {
        let mut last = 0;
        for form in &ins.forms {
            assert!(!has_moffs_operand(form), "{}", ins.name);
            assert!(form.operands.len() >= last);
            last = form.operands.len();
            let marker = match form.encodings.first().and_then(|e| e.evex) {
                Some(evex) => evex.b == ZeroRef::EVEX_b_ONE,
                None => false,
            };
            assert_eq!(marker, has_pseudo_operand(form), "{}", ins.name);
        }
        assert_eq!(filter_instruction_forms(&ins.forms).len(), ins.forms.len());
    }
}

#[test]
fn prepared_forms_are_expanded_then_filtered() {
    let forms = vec![
        form_of(&[OperandId::zmm, OperandId::zmm, OperandId::_er_]),
        form_of(&[OperandId::rax, OperandId::moffs64]),
        form_of(&[OperandId::zmm]),
        form_of(&[OperandId::moffs32, OperandId::_sae_]),
    ];
    let got: Vec<Vec<OperandId>> = prepare_forms(&forms).iter().map(|f| kinds(f)).collect();
    assert_eq!(
        got,
        vec![
            vec![OperandId::zmm],
            vec![OperandId::zmm, OperandId::zmm],
            vec![OperandId::zmm, OperandId::zmm, OperandId::_er_],
        ]
    );
    assert!(prepare_forms(&Vec::new()).is_empty());
    let mut ins = Instruction::new(&String::from("X"));
    ins.summary = String::from("x");
    ins.forms = forms;
    let set = prepare_instruction_set(&vec![ins, Instruction::new(&String::from("Y"))]);
    assert_eq!(set.len(), 2);
    assert_eq!((set[0].name.as_str(), set[0].summary.as_str()), ("X", "x"));
    assert_eq!(set[0].forms.len(), 3);
    assert_eq!(set[1].name, "Y");
    assert!(set[1].forms.is_empty());
}

#[test]
fn load_instruction_set_hands_on_errors() {
    let e = load_instruction_set("").unwrap_err();
    assert_eq!(e.kind, ParseErrorKind::Syntax);
}

#[test]
fn loaded_vaddps_encodes_with_and_without_rounding() {
    let set = load_instruction_set(DOCUMENT).unwrap();
    let zmm = |index: u8, mask: u8| {
        OperandValue::Register(Register { class: RegisterClass::Zmm, index, mask, zeroing: false })
    };
    let mut buffer = Vec::new();
    let chosen = assemble(&set[1], &vec![zmm(1, 0), zmm(2, 0), zmm(3, 0)], &mut buffer).unwrap();
    assert_eq!(chosen, 0);
    assert_eq!(buffer, vec![0x62, 0xF1, 0x6C, 0x48, 0x58, 0xCB]);
    let mut buffer = Vec::new();
    let ops = vec![zmm(1, 1), zmm(2, 0), zmm(3, 0), OperandValue::Rounding(RoundingMode::Nearest)];
    let chosen = assemble(&set[1], &ops, &mut buffer).unwrap();
    assert_eq!(chosen, 1);
    assert_eq!(buffer, vec![0x62, 0xF1, 0x6C, 0x19, 0x58, 0xCB]);
}

#[test]
fn loaded_mov_skips_the_moffs_form() {
    let set = load_instruction_set(DOCUMENT).unwrap();
    let eax = OperandValue::Register(Register {
        class: RegisterClass::Gpr32,
        index: 0,
        mask: 0,
        zeroing: false,
    });
    let mut buffer = Vec::new();
    let chosen = assemble(&set[0], &vec![eax, OperandValue::Immediate(0x2A)], &mut buffer).unwrap();
    assert_eq!(chosen, 0);
    assert_eq!(buffer, vec![0xB8, 0x2A, 0x00, 0x00, 0x00]);
}
