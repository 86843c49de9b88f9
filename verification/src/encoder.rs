use crate::operand::{
    admits, immediate_fits, immediate_in_range, operand_shape, relative_fits, relative_in_range,
    shape_of,
    signature_admits, signature_admitted, Address, Memory, OperandValue, Register, RegisterClass,
    Shape,
};
use crate::types::{
    AddressMode, Bit, BitRef, CodeOffset, Encoding, EncodingView, FormView, Immediate,
    InstructionForm, IntOrRef, LLBitRef, ModRM, NoneRef, Opcode, Operand, OperandId, Prefix,
    RegisterByte, VEXType, ZeroRef, EVEX, REX, VEX,
};
use vstd::arithmetic::div_mod::{lemma_fundamental_div_mod, lemma_fundamental_div_mod_converse};
use vstd::prelude::*;

verus! {

/// Why a form and concrete operands give no instruction.
#[derive(Clone, Copy, Debug, PartialEq, Eq, Structural)]
pub enum EncodeError {
    /// The form has no encoding template.
    NoTemplate,
    /// The operands are not of the number or of the kinds that the form takes.
    OperandMismatch,
    /// The template holds more than one of REX, VEX and EVEX.
    PrefixConflict,
    /// A field that must name an operand names none.
    MissingReference,
    /// A field names an operand that is not there or is of the wrong sort.
    BadReference,
    /// A register or a value does not fit the field that would hold it.
    Unencodable,
    /// The template is malformed: its opcodes, sizes or literals.
    BadTemplate,
    /// The template holds a data offset, which 64-bit code does not encode.
    DataOffset,
    /// A rounding or suppression operand that the EVEX prefix does not express.
    Rounding,
    /// An operand that no field of the template names.
    UnusedOperand,
}

/// The field of a prefix that an extension bit is for.
#[derive(Clone, Copy, Debug, PartialEq, Eq, Structural)]
pub enum Role {
    Reg,
    Index,
    Base,
}

/// The bytes of the first result followed by those of the second, or the
/// first error of the two.
pub open spec fn then(
    first: Result<Seq<u8>, EncodeError>,
    second: Result<Seq<u8>, EncodeError>,
) -> Result<Seq<u8>, EncodeError> {
    match first {
        Ok(a) => match second {
            Ok(b) => Ok(a + b),
            Err(e) => Err(e),
        },
        Err(e) => Err(e),
    }
}

/// The low `size` bytes of an integer in two's complement, least significant first.
pub open spec fn le_bytes(value: int, size: nat) -> Seq<u8>
    decreases size,
{
    if size == 0 {
        Seq::empty()
    } else {
        seq![(value % 256) as u8] + le_bytes(value / 256, (size - 1) as nat)
    }
}

/// The operand that a field names by its index.
pub open spec fn operand_at(ops: Seq<OperandValue>, i: u8) -> Result<OperandValue, EncodeError> {
    if i < ops.len() {
        Ok(ops[i as int])
    } else {
        Err(EncodeError::BadReference)
    }
}

/// The register that a field names; another sort of operand is a bad reference.
pub open spec fn register_at(ops: Seq<OperandValue>, i: u8) -> Result<Register, EncodeError> {
    match operand_at(ops, i) {
        Ok(OperandValue::Register(r)) => Ok(r),
        Ok(_) => Err(EncodeError::BadReference),
        Err(e) => Err(e),
    }
}

/// The memory operand that a field names; another sort of operand is a bad
/// reference.
pub open spec fn memory_at(ops: Seq<OperandValue>, i: u8) -> Result<Memory, EncodeError> {
    match operand_at(ops, i) {
        Ok(OperandValue::Memory(m)) => Ok(m),
        Ok(_) => Err(EncodeError::BadReference),
        Err(e) => Err(e),
    }
}

/// Bit 3 of a register number: the bit that REX, VEX and EVEX carry.
pub open spec fn bit3(index: u8) -> u8 {
    (index / 8) % 2
}

/// Bit 4 of a register number: the bit that only EVEX carries.
pub open spec fn bit4(index: u8) -> u8 {
    (index / 16) % 2
}

/// Bit 3 of a register number that may be absent.
pub open spec fn optional_bit3(index: Option<u8>) -> u8 {
    match index {
        Some(i) => bit3(i),
        None => 0,
    }
}

/// Bit 4 of a register number that may be absent.
pub open spec fn optional_bit4(index: Option<u8>) -> u8 {
    match index {
        Some(i) => bit4(i),
        None => 0,
    }
}

/// A truth value as a bit.
pub open spec fn flag(b: bool) -> u8 {
    if b {
        1
    } else {
        0
    }
}

/// A literal bit; a bit that the template leaves out is zero.
pub open spec fn bit_of(b: Bit) -> u8 {
    match b {
        Bit::One => 1,
        _ => 0,
    }
}

/// The high bit that operand `i` gives to a field of REX or VEX: that of its
/// register number, or for a memory operand that of its base or index
/// register, and zero where it has none.
pub open spec fn extension_bit(ops: Seq<OperandValue>, i: u8, role: Role) -> Result<
    u8,
    EncodeError,
> {
    match operand_at(ops, i) {
        Ok(OperandValue::Register(r)) => Ok(bit3(r.index)),
        Ok(OperandValue::Memory(m)) => Ok(
            match role {
                Role::Base => optional_bit3(m.address.base),
                Role::Index => optional_bit3(m.address.index),
                Role::Reg => 0,
            },
        ),
        Ok(_) => Err(EncodeError::BadReference),
        Err(e) => Err(e),
    }
}

/// A bit of REX or VEX: a literal, or the high bit that an operand gives.
pub open spec fn bit_ref(field: BitRef, ops: Seq<OperandValue>, role: Role) -> Result<
    u8,
    EncodeError,
> {
    match field {
        BitRef::Zero => Ok(0),
        BitRef::One => Ok(1),
        BitRef::Ref(i) => extension_bit(ops, i, role),
        BitRef::NONE => Ok(0),
    }
}

/// The low four bits of the register that `vvvv` names; zero where it names none.
pub open spec fn vvvv_bits(field: ZeroRef, ops: Seq<OperandValue>) -> Result<u8, EncodeError> {
    match field {
        ZeroRef::Zero => Ok(0),
        ZeroRef::NONE => Ok(0),
        ZeroRef::EVEX_b_ONE => Ok(1),
        ZeroRef::Ref(i) => match register_at(ops, i) {
            Ok(r) => Ok(r.index % 16),
            Err(e) => Err(e),
        },
    }
}

/// Whether every register that the operands name has a number below
/// `limit`, and every register of an address that is no vector a number
/// below 16.
pub open spec fn indices_below(ops: Seq<OperandValue>, limit: u8) -> bool {
    forall|i: int|
        0 <= i < ops.len() ==> match #[trigger] ops[i] {
            OperandValue::Register(r) => r.index < limit,
            OperandValue::Memory(m) => {
                &&& m.address.base matches Some(b) ==> b < limit && b < 16
                &&& m.address.index matches Some(x) ==> x < limit && (m.vector_index is None
                    ==> x < 16)
            },
            _ => true,
        }
}

/// Whether the prefix expresses the rounding and suppression operands:
/// either asks for `b`, and a rounding mode is what `LL` holds.
pub open spec fn rounding_expressed(ops: Seq<OperandValue>, b: u8, ll: u8) -> bool {
    forall|i: int|
        0 <= i < ops.len() ==> match #[trigger] ops[i] {
            OperandValue::Rounding(mode) => b == 1 && ll == mode.spec_code(),
            OperandValue::SuppressAllExceptions => b == 1,
            _ => true,
        }
}

/// How many of REX, VEX and EVEX a template holds.
pub open spec fn families(enc: EncodingView) -> nat {
    flag(enc.rex is Some) as nat + flag(enc.vex is Some) as nat + flag(enc.evex is Some) as nat
}

/// The register numbers that the template's prefix can reach: 32 with EVEX,
/// 16 with REX or VEX, 8 with none.
pub open spec fn index_limit(enc: EncodingView) -> u8 {
    if enc.evex is Some {
        32
    } else if enc.rex is Some || enc.vex is Some {
        16
    } else {
        8
    }
}

/// One where either bit is set.
pub open spec fn either(a: u8, b: u8) -> u8 {
    if a != 0 || b != 0 {
        1
    } else {
        0
    }
}

/// The high bits of register numbers that ModR/M and the opcode cannot
/// hold and that the prefix therefore carries.
pub struct Implied {
    pub r: u8,
    pub r_high: u8,
    pub x: u8,
    pub b: u8,
    pub v_high: u8,
}

/// Bits 3 and 4 of the register that the `reg` field of ModR/M names.
pub open spec fn implied_by_reg(field: Option<ModRM>, ops: Seq<OperandValue>) -> (u8, u8) {
    match field {
        Some(modrm) => match modrm.reg {
            IntOrRef::Ref(j) => match register_at(ops, j) {
                Ok(r) => (bit3(r.index), bit4(r.index)),
                Err(_) => (0u8, 0u8),
            },
            _ => (0u8, 0u8),
        },
        None => (0u8, 0u8),
    }
}

/// What the operand that `rm` names asks of `B`, `X` and `V'`: bits 3 and 4
/// of a register, or bit 3 of the base and bits 3 and 4 of the index of a
/// memory operand.
pub open spec fn implied_by_rm(field: Option<ModRM>, ops: Seq<OperandValue>) -> (u8, u8, u8) {
    match field {
        Some(modrm) => match modrm.rm {
            NoneRef::Ref(k) => match operand_at(ops, k) {
                Ok(OperandValue::Register(r)) => (bit3(r.index), bit4(r.index), 0u8),
                Ok(OperandValue::Memory(m)) => (
                    optional_bit3(m.address.base),
                    optional_bit3(m.address.index),
                    optional_bit4(m.address.index),
                ),
                _ => (0u8, 0u8, 0u8),
            },
            NoneRef::NONE => (0u8, 0u8, 0u8),
        },
        None => (0u8, 0u8, 0u8),
    }
}

/// Bit 3 of the register whose number is merged into the last opcode.
pub open spec fn implied_by_addend(opcodes: Seq<Opcode>, ops: Seq<OperandValue>) -> u8 {
    if opcodes.len() == 0 {
        0
    } else {
        match opcodes.last().addend {
            NoneRef::Ref(i) => match register_at(ops, i) {
                Ok(r) => bit3(r.index),
                Err(_) => 0,
            },
            NoneRef::NONE => 0,
        }
    }
}

/// The high bits that the operands of ModR/M and of the opcode put into the
/// prefix, whatever the fields of the prefix name.
pub open spec fn implied_bits(enc: EncodingView, ops: Seq<OperandValue>) -> Implied {
    let reg = implied_by_reg(enc.modrm, ops);
    let rm = implied_by_rm(enc.modrm, ops);
    Implied {
        r: reg.0,
        r_high: reg.1,
        x: rm.1,
        b: either(rm.0, implied_by_addend(enc.opcodes, ops)),
        v_high: rm.2,
    }
}

/// The mask register that guards an operand; zero for none.
pub open spec fn mask_of(value: OperandValue) -> u8 {
    match value {
        OperandValue::Register(r) => r.mask % 8,
        OperandValue::Memory(m) => m.mask % 8,
        _ => 0,
    }
}

/// Whether an operand asks for zeroing of masked lanes.
pub open spec fn zeroing_of(value: OperandValue) -> bool {
    match value {
        OperandValue::Register(r) => r.zeroing,
        OperandValue::Memory(m) => m.zeroing,
        _ => false,
    }
}

/// Whether an operand is memory that is broadcast.
pub open spec fn broadcast_of(value: OperandValue) -> bool {
    match value {
        OperandValue::Memory(m) => m.broadcast,
        _ => false,
    }
}

/// The mask register of the first among the first `n` operands that is masked.
pub open spec fn implied_mask(ops: Seq<OperandValue>, n: nat) -> u8
    decreases n,
{
    if n == 0 {
        0
    } else if implied_mask(ops, (n - 1) as nat) != 0 {
        implied_mask(ops, (n - 1) as nat)
    } else {
        mask_of(ops[n - 1])
    }
}

/// Whether one of the first `n` operands asks for zeroing.
pub open spec fn implied_zeroing(ops: Seq<OperandValue>, n: nat) -> u8
    decreases n,
{
    if n == 0 {
        0
    } else {
        either(implied_zeroing(ops, (n - 1) as nat), flag(zeroing_of(ops[n - 1])))
    }
}

/// Whether one of the first `n` operands is broadcast.
pub open spec fn implied_broadcast(ops: Seq<OperandValue>, n: nat) -> u8
    decreases n,
{
    if n == 0 {
        0
    } else {
        either(implied_broadcast(ops, (n - 1) as nat), flag(broadcast_of(ops[n - 1])))
    }
}

/// Whether the operands ask for nothing that only EVEX can hold: no mask,
/// no zeroing, no broadcast.
pub open spec fn plain_operands(ops: Seq<OperandValue>) -> bool {
    implied_mask(ops, ops.len()) == 0 && implied_zeroing(ops, ops.len()) == 0 && implied_broadcast(
        ops,
        ops.len(),
    ) == 0
}

/// The legacy prefix, where the template has one.
pub open spec fn prefix_bytes(prefix: Option<Prefix>) -> Seq<u8> {
    match prefix {
        Some(p) => seq![p.byte],
        None => Seq::empty(),
    }
}

/// REX is `0100WRXB`. Each of `R`, `X` and `B` is set where the template
/// sets it or the operands imply it. REX is written where the template
/// demands it or a bit of it is set.
pub open spec fn rex_bytes(rex: REX, ops: Seq<OperandValue>, implied: Implied) -> Result<
    Seq<u8>,
    EncodeError,
> {
    match bit_ref(rex.R, ops, Role::Reg) {
        Ok(named_r) => match bit_ref(rex.X, ops, Role::Index) {
            Ok(named_x) => match bit_ref(rex.B, ops, Role::Base) {
                Ok(named_b) => {
                    let w = bit_of(rex.W);
                    let r = either(named_r, implied.r);
                    let x = either(named_x, implied.x);
                    let b = either(named_b, implied.b);
                    if rex.mandatory || w + r + x + b > 0 {
                        Ok(seq![(0x40 + 8 * w + 4 * r + 2 * x + b) as u8])
                    } else {
                        Ok(Seq::empty())
                    }
                },
                Err(e) => Err(e),
            },
            Err(e) => Err(e),
        },
        Err(e) => Err(e),
    }
}

/// Whether a VEX prefix fits the two-byte form: nothing sets `W`, `X` or
/// `B`, and the opcode map is the first.
pub open spec fn vex_is_short(vex: VEX, x: u8, b: u8) -> bool {
    vex.id == VEXType::VEX && bit_of(vex.W) == 0 && x == 0 && b == 0 && vex.mmmmm == 1
}

/// VEX in its two-byte form, `C5 ~R.~vvvv.L.pp`, where that fits, and else in
/// its three-byte form, `C4` (XOP: `8F`), `~R~X~B.mmmmm`, `W.~vvvv.L.pp`; `~`
/// marks a bit that is written inverted. Each of `R`, `X` and `B` is set
/// where the template sets it or the operands imply it.
pub open spec fn vex_bytes(vex: VEX, ops: Seq<OperandValue>, implied: Implied) -> Result<
    Seq<u8>,
    EncodeError,
> {
    if vex.id == VEXType::NONE || vex.mmmmm >= 32 || vex.pp >= 4 {
        Err(EncodeError::BadTemplate)
    } else {
        match bit_ref(vex.R, ops, Role::Reg) {
            Ok(named_r) => match bit_ref(vex.X, ops, Role::Index) {
                Ok(named_x) => match bit_ref(vex.B, ops, Role::Base) {
                    Ok(named_b) => match vvvv_bits(vex.vvvv, ops) {
                        Ok(v) => {
                            let r = either(named_r, implied.r);
                            let x = either(named_x, implied.x);
                            let b = either(named_b, implied.b);
                            let last = (128 * bit_of(vex.W) + 8 * (15 - v) + 4 * bit_of(vex.L)
                                + vex.pp) as u8;
                            if vex_is_short(vex, x, b) {
                                Ok(
                                    seq![
                                        0xC5u8,
                                        (128 * (1 - r) + 8 * (15 - v) + 4 * bit_of(vex.L)
                                            + vex.pp) as u8,
                                    ],
                                )
                            } else {
                                Ok(
                                    seq![
                                        if vex.id == VEXType::XOP {
                                            0x8Fu8
                                        } else {
                                            0xC4u8
                                        },
                                        (128 * (1 - r) + 64 * (1 - x) + 32 * (1 - b)
                                            + vex.mmmmm) as u8,
                                        last,
                                    ],
                                )
                            }
                        },
                        Err(e) => Err(e),
                    },
                    Err(e) => Err(e),
                },
                Err(e) => Err(e),
            },
            Err(e) => Err(e),
        }
    }
}

/// The bits that the fields of an EVEX prefix come to.
pub struct EvexBits {
    pub r: u8,
    pub r_high: u8,
    pub x: u8,
    pub b: u8,
    pub vvvv: u8,
    pub v_high: u8,
    pub aaa: u8,
    pub z: u8,
    pub broadcast: u8,
    pub ll: u8,
}

/// `R` and `R'`: bits 3 and 4 of the register that `RR` names.
pub open spec fn evex_rr(field: NoneRef, ops: Seq<OperandValue>) -> Result<(u8, u8), EncodeError> {
    match field {
        NoneRef::NONE => Ok((0u8, 0u8)),
        NoneRef::Ref(i) => match register_at(ops, i) {
            Ok(r) => Ok((bit3(r.index), bit4(r.index))),
            Err(e) => Err(e),
        },
    }
}

/// `B`: bit 3 of the register, or of the base register of the memory operand.
pub open spec fn evex_base(field: NoneRef, ops: Seq<OperandValue>) -> Result<u8, EncodeError> {
    match field {
        NoneRef::NONE => Ok(0),
        NoneRef::Ref(i) => match operand_at(ops, i) {
            Ok(OperandValue::Register(r)) => Ok(bit3(r.index)),
            Ok(OperandValue::Memory(m)) => Ok(optional_bit3(m.address.base)),
            Ok(_) => Err(EncodeError::BadReference),
            Err(e) => Err(e),
        },
    }
}

/// `X`: bit 4 of the register, or bit 3 of the index register of the memory
/// operand.
pub open spec fn evex_index(field: NoneRef, ops: Seq<OperandValue>) -> Result<u8, EncodeError> {
    match field {
        NoneRef::NONE => Ok(0),
        NoneRef::Ref(i) => match operand_at(ops, i) {
            Ok(OperandValue::Register(r)) => Ok(bit4(r.index)),
            Ok(OperandValue::Memory(m)) => Ok(optional_bit3(m.address.index)),
            Ok(_) => Err(EncodeError::BadReference),
            Err(e) => Err(e),
        },
    }
}

/// `V'`: bit 4 of the register, or of the index register of the memory operand.
pub open spec fn evex_v_high(field: ZeroRef, ops: Seq<OperandValue>) -> Result<u8, EncodeError> {
    match field {
        ZeroRef::Zero => Ok(0),
        ZeroRef::NONE => Ok(0),
        ZeroRef::EVEX_b_ONE => Ok(1),
        ZeroRef::Ref(i) => match operand_at(ops, i) {
            Ok(OperandValue::Register(r)) => Ok(bit4(r.index)),
            Ok(OperandValue::Memory(m)) => Ok(optional_bit4(m.address.index)),
            Ok(_) => Err(EncodeError::BadReference),
            Err(e) => Err(e),
        },
    }
}

/// Bit 4 of the register that `vvvv` names.
pub open spec fn vvvv_high(field: ZeroRef, ops: Seq<OperandValue>) -> u8 {
    match field {
        ZeroRef::Ref(i) => match register_at(ops, i) {
            Ok(r) => bit4(r.index),
            Err(_) => 0,
        },
        _ => 0,
    }
}

/// `aaa`: the mask register that guards the operand which the field names;
/// where it names none, the mask that an operand carries.
pub open spec fn evex_mask(field: ZeroRef, ops: Seq<OperandValue>) -> Result<u8, EncodeError> {
    match field {
        ZeroRef::Zero => Ok(implied_mask(ops, ops.len())),
        ZeroRef::NONE => Ok(implied_mask(ops, ops.len())),
        ZeroRef::EVEX_b_ONE => Ok(1),
        ZeroRef::Ref(i) => match operand_at(ops, i) {
            Ok(OperandValue::Register(r)) => Ok(r.mask % 8),
            Ok(OperandValue::Memory(m)) => Ok(m.mask % 8),
            Ok(_) => Err(EncodeError::BadReference),
            Err(e) => Err(e),
        },
    }
}

/// `z`: whether the operand which the field names asks for zeroing of
/// masked lanes; where it names none, whether an operand does.
pub open spec fn evex_zeroing(field: ZeroRef, ops: Seq<OperandValue>) -> Result<u8, EncodeError> {
    match field {
        ZeroRef::Zero => Ok(implied_zeroing(ops, ops.len())),
        ZeroRef::NONE => Ok(implied_zeroing(ops, ops.len())),
        ZeroRef::EVEX_b_ONE => Ok(1),
        ZeroRef::Ref(i) => match operand_at(ops, i) {
            Ok(OperandValue::Register(r)) => Ok(flag(r.zeroing)),
            Ok(OperandValue::Memory(m)) => Ok(flag(m.zeroing)),
            Ok(_) => Err(EncodeError::BadReference),
            Err(e) => Err(e),
        },
    }
}

/// `b`: whether the memory operand which the field names is broadcast; a
/// rounding or suppression operand sets it; the constant of the expansion
/// is one; where the field names nothing, whether an operand is broadcast.
pub open spec fn evex_broadcast(field: ZeroRef, ops: Seq<OperandValue>) -> Result<u8, EncodeError> {
    match field {
        ZeroRef::Zero => Ok(implied_broadcast(ops, ops.len())),
        ZeroRef::NONE => Ok(implied_broadcast(ops, ops.len())),
        ZeroRef::EVEX_b_ONE => Ok(1),
        ZeroRef::Ref(i) => match operand_at(ops, i) {
            Ok(OperandValue::Register(_)) => Ok(0),
            Ok(OperandValue::Memory(m)) => Ok(flag(m.broadcast)),
            Ok(OperandValue::Rounding(_)) => Ok(1),
            Ok(OperandValue::SuppressAllExceptions) => Ok(1),
            Ok(_) => Err(EncodeError::BadReference),
            Err(e) => Err(e),
        },
    }
}

/// `L'L`: a literal, or what the operand carries: the length of a vector
/// register (XMM 00, YMM 01, ZMM 10) or the code of a rounding mode.
pub open spec fn evex_length(field: LLBitRef, ops: Seq<OperandValue>) -> Result<u8, EncodeError> {
    match field {
        LLBitRef::Zero => Ok(0),
        LLBitRef::One => Ok(1),
        LLBitRef::Two => Ok(2),
        LLBitRef::NONE => Err(EncodeError::MissingReference),
        LLBitRef::LastRef(i) => match operand_at(ops, i) {
            Ok(OperandValue::Register(r)) => match r.class {
                RegisterClass::Xmm => Ok(0),
                RegisterClass::Ymm => Ok(1),
                RegisterClass::Zmm => Ok(2),
                _ => Err(EncodeError::BadReference),
            },
            Ok(OperandValue::Rounding(mode)) => Ok(mode.spec_code()),
            Ok(_) => Err(EncodeError::BadReference),
            Err(e) => Err(e),
        },
    }
}

/// The bits of an EVEX prefix. Each of `R`, `R'`, `X`, `B` and `V'` is set
/// where the template sets it or the operands imply it.
pub open spec fn evex_bits(evex: EVEX, ops: Seq<OperandValue>, implied: Implied) -> Result<
    EvexBits,
    EncodeError,
> {
    match evex_rr(evex.RR, ops) {
        Ok(rr) => match evex_index(evex.X, ops) {
            Ok(x) => match evex_base(evex.B, ops) {
                Ok(b) => match vvvv_bits(evex.vvvv, ops) {
                    Ok(vvvv) => match evex_v_high(evex.V, ops) {
                        Ok(v_high) => match evex_mask(evex.aaa, ops) {
                            Ok(aaa) => match evex_zeroing(evex.z, ops) {
                                Ok(z) => match evex_broadcast(evex.b, ops) {
                                    Ok(broadcast) => match evex_length(evex.LL, ops) {
                                        Ok(ll) => Ok(
                                            EvexBits {
                                                r: either(rr.0, implied.r),
                                                r_high: either(rr.1, implied.r_high),
                                                x: either(x, implied.x),
                                                b: either(b, implied.b),
                                                vvvv,
                                                v_high: either(
                                                    either(v_high, vvvv_high(evex.vvvv, ops)),
                                                    implied.v_high,
                                                ),
                                                aaa,
                                                z,
                                                broadcast,
                                                ll,
                                            },
                                        ),
                                        Err(e) => Err(e),
                                    },
                                    Err(e) => Err(e),
                                },
                                Err(e) => Err(e),
                            },
                            Err(e) => Err(e),
                        },
                        Err(e) => Err(e),
                    },
                    Err(e) => Err(e),
                },
                Err(e) => Err(e),
            },
            Err(e) => Err(e),
        },
        Err(e) => Err(e),
    }
}

/// EVEX is `62`, `~R~X~B~R'.00.mm`, `W.~vvvv.1.pp`, `z.L'L.b.~V'.aaa`; `~` marks a
/// bit that is written inverted.
pub open spec fn evex_bytes(evex: EVEX, ops: Seq<OperandValue>, implied: Implied) -> Result<
    Seq<u8>,
    EncodeError,
> {
    if evex.mm >= 4 || evex.pp >= 4 {
        Err(EncodeError::BadTemplate)
    } else {
        match evex_bits(evex, ops, implied) {
            Ok(bits) => if rounding_expressed(ops, bits.broadcast, bits.ll) {
                Ok(
                    seq![
                        0x62u8,
                        (128 * (1 - bits.r) + 64 * (1 - bits.x) + 32 * (1 - bits.b) + 16 * (1
                            - bits.r_high) + evex.mm) as u8,
                        (128 * bit_of(evex.W) + 8 * (15 - bits.vvvv) + 4 + evex.pp) as u8,
                        (128 * bits.z + 32 * bits.ll + 16 * bits.broadcast + 8 * (1
                            - bits.v_high) + bits.aaa) as u8,
                    ],
                )
            } else {
                Err(EncodeError::Rounding)
            },
            Err(e) => Err(e),
        }
    }
}

/// The one prefix of REX, VEX and EVEX that the template holds. Without
/// EVEX no rounding or suppression operand can be expressed, nor a mask,
/// zeroing or a broadcast.
pub open spec fn family_bytes(enc: EncodingView, ops: Seq<OperandValue>) -> Result<
    Seq<u8>,
    EncodeError,
> {
    match enc.evex {
        Some(evex) => evex_bytes(evex, ops, implied_bits(enc, ops)),
        None => if !rounding_expressed(ops, 0, 0) {
            Err(EncodeError::Rounding)
        } else if !plain_operands(ops) {
            Err(EncodeError::Unencodable)
        } else {
            match enc.vex {
                Some(vex) => vex_bytes(vex, ops, implied_bits(enc, ops)),
                None => match enc.rex {
                    Some(rex) => rex_bytes(rex, ops, implied_bits(enc, ops)),
                    None => Ok(Seq::empty()),
                },
            }
        },
    }
}

/// The bytes of the opcodes as the template gives them.
pub open spec fn plain_opcodes(opcodes: Seq<Opcode>) -> Seq<u8> {
    Seq::new(opcodes.len(), |i: int| opcodes[i].byte)
}

/// Whether an opcode before the last one has an addend, which no
/// instruction has.
pub open spec fn early_addend(opcodes: Seq<Opcode>) -> bool {
    exists|i: int| 0 <= i < opcodes.len() - 1 && (#[trigger] opcodes[i]).addend != NoneRef::NONE
}

/// One to three opcode bytes in order. Where the last has an addend, the low
/// three bits of that register's number are merged into it; bit 3 of the
/// number goes to the prefix, and a register beyond 15 has no place.
pub open spec fn opcode_bytes(opcodes: Seq<Opcode>, ops: Seq<OperandValue>) -> Result<
    Seq<u8>,
    EncodeError,
> {
    if opcodes.len() == 0 || opcodes.len() > 3 || early_addend(opcodes) {
        Err(EncodeError::BadTemplate)
    } else {
        match opcodes.last().addend {
            NoneRef::NONE => Ok(plain_opcodes(opcodes)),
            NoneRef::Ref(i) => match register_at(ops, i) {
                Ok(r) => if r.index >= 16 {
                    Err(EncodeError::Unencodable)
                } else {
                    Ok(
                        plain_opcodes(opcodes.drop_last()).push(
                            opcodes.last().byte | (r.index % 8),
                        ),
                    )
                },
                Err(e) => Err(e),
            },
        }
    }
}

/// The `reg` field of ModR/M: an opcode extension, or the low three bits of
/// a register's number.
pub open spec fn modrm_reg(field: IntOrRef, ops: Seq<OperandValue>) -> Result<u8, EncodeError> {
    match field {
        IntOrRef::Extension(n) => if n < 8 {
            Ok(n)
        } else {
            Err(EncodeError::Unencodable)
        },
        IntOrRef::Ref(i) => match register_at(ops, i) {
            Ok(r) => Ok(r.index % 8),
            Err(e) => Err(e),
        },
        IntOrRef::NONE => Err(EncodeError::MissingReference),
    }
}

/// The unit in which an eight-bit displacement counts: under EVEX the scale
/// of the template, or the width of the element where the operand is
/// broadcast; one everywhere else.
pub open spec fn displacement_scale(enc: EncodingView, m: Memory) -> u8 {
    match enc.evex {
        Some(evex) => if m.broadcast {
            if m.bits == 64 {
                8
            } else {
                4
            }
        } else if evex.disp8xN == 0 {
            1
        } else {
            evex.disp8xN
        },
        None => 1,
    }
}

/// The displacement in units of `n`, where it is a multiple of `n` that an
/// eight-bit field holds.
pub open spec fn scaled_displacement(displacement: i32, n: u8) -> Option<int> {
    if n > 0 && (displacement as int) % (n as int) == 0 && -128 * n <= displacement <= 127 * n {
        Some((displacement as int) / (n as int))
    } else {
        None
    }
}

/// The `mod` bits and the displacement bytes of an address: no displacement
/// where it is zero and the base allows that, eight bits where it can be
/// scaled into them, 32 bits otherwise and always without a base.
pub open spec fn displacement_form(address: Address, n: u8) -> (u8, Seq<u8>) {
    match address.base {
        None => (0u8, le_bytes(address.displacement as int, 4)),
        Some(base) => if address.displacement == 0 && base % 8 != 5 {
            (0u8, Seq::empty())
        } else {
            match scaled_displacement(address.displacement, n) {
                Some(q) => (1u8, le_bytes(q, 1)),
                None => (2u8, le_bytes(address.displacement as int, 4)),
            }
        },
    }
}

/// Whether an address needs a SIB byte: it has an index, or no base, or a
/// base whose low bits are those of the stack pointer.
pub open spec fn needs_sib(address: Address) -> bool {
    address.index is Some || address.base is None || address.base->0 % 8 == 4
}

/// The two bits that stand for the scale of an index: 1, 2, 4 or 8.
pub open spec fn scale_bits(address: Address) -> u8 {
    if address.index is None {
        0
    } else if address.scale == 2 {
        1
    } else if address.scale == 4 {
        2
    } else if address.scale == 8 {
        3
    } else {
        0
    }
}

/// The SIB byte of an address: scale, index and base; 100 stands for no
/// index and 101 for no base.
pub open spec fn sib_byte(address: Address) -> u8 {
    let index: u8 = match address.index {
        Some(i) => i % 8,
        None => 4,
    };
    let base: u8 = match address.base {
        Some(b) => b % 8,
        None => 5,
    };
    (64 * scale_bits(address) + 8 * index + base) as u8
}

/// ModR/M, SIB and displacement of a memory operand.
pub open spec fn memory_bytes(reg: u8, address: Address, n: u8) -> Seq<u8> {
    let form = displacement_form(address, n);
    if needs_sib(address) {
        seq![(64 * form.0 + 8 * (reg % 8) + 4) as u8, sib_byte(address)] + form.1
    } else {
        seq![(64 * form.0 + 8 * (reg % 8) + address.base->0 % 8) as u8] + form.1
    }
}

/// The ModR/M byte and what follows it for a memory operand. `mode` is
/// register-direct or names the memory operand, which `rm` names too.
pub open spec fn modrm_bytes(enc: EncodingView, ops: Seq<OperandValue>) -> Result<
    Seq<u8>,
    EncodeError,
> {
    match enc.modrm {
        None => Ok(Seq::empty()),
        Some(modrm) => match modrm_reg(modrm.reg, ops) {
            Ok(reg) => match modrm.rm {
                NoneRef::NONE => Err(EncodeError::MissingReference),
                NoneRef::Ref(k) => match modrm.mode {
                    AddressMode::NONE => Err(EncodeError::MissingReference),
                    AddressMode::Two => match register_at(ops, k) {
                        Ok(r) => Ok(seq![(0xC0 + 8 * reg + r.index % 8) as u8]),
                        Err(e) => Err(e),
                    },
                    AddressMode::Ref(i) => if i != k {
                        Err(EncodeError::BadTemplate)
                    } else {
                        match memory_at(ops, i) {
                            Ok(m) => Ok(memory_bytes(reg, m.address, displacement_scale(enc, m))),
                            Err(e) => Err(e),
                        }
                    },
                },
            },
            Err(e) => Err(e),
        },
    }
}

/// The byte that holds a register number in its high nibble and a payload
/// of four bits, zero where there is none, in its low nibble.
pub open spec fn register_byte_bytes(field: Option<RegisterByte>, ops: Seq<OperandValue>) -> Result<
    Seq<u8>,
    EncodeError,
> {
    match field {
        None => Ok(Seq::empty()),
        Some(rb) => match rb.register {
            NoneRef::NONE => Err(EncodeError::MissingReference),
            NoneRef::Ref(i) => match register_at(ops, i) {
                Ok(r) => if r.index >= 16 {
                    Err(EncodeError::Unencodable)
                } else {
                    match rb.payload {
                        NoneRef::NONE => Ok(seq![(16 * r.index) as u8]),
                        NoneRef::Ref(j) => match operand_at(ops, j) {
                            Ok(OperandValue::Immediate(v)) => if 0 <= v < 16 {
                                Ok(seq![(16 * r.index + v) as u8])
                            } else {
                                Err(EncodeError::Unencodable)
                            },
                            Ok(_) => Err(EncodeError::BadReference),
                            Err(e) => Err(e),
                        },
                    }
                },
                Err(e) => Err(e),
            },
        },
    }
}

/// The immediate in `size` bytes, least significant first: a literal of the
/// template or the value of an operand, which has to fit.
pub open spec fn immediate_bytes(field: Option<Immediate>, ops: Seq<OperandValue>) -> Result<
    Seq<u8>,
    EncodeError,
> {
    match field {
        None => Ok(Seq::empty()),
        Some(imm) => if !(imm.size == 1 || imm.size == 2 || imm.size == 4 || imm.size == 8) {
            Err(EncodeError::BadTemplate)
        } else {
            match imm.value {
                IntOrRef::NONE => Err(EncodeError::MissingReference),
                IntOrRef::Extension(n) => Ok(le_bytes(n as int, imm.size as nat)),
                IntOrRef::Ref(i) => match operand_at(ops, i) {
                    Ok(OperandValue::Immediate(v)) => if immediate_fits(v, (8 * imm.size) as u8) {
                        Ok(le_bytes(v as int, imm.size as nat))
                    } else {
                        Err(EncodeError::Unencodable)
                    },
                    Ok(_) => Err(EncodeError::BadReference),
                    Err(e) => Err(e),
                },
            }
        },
    }
}

/// The branch offset in exactly `size` bytes, in two's complement.
pub open spec fn code_offset_bytes(field: Option<CodeOffset>, ops: Seq<OperandValue>) -> Result<
    Seq<u8>,
    EncodeError,
> {
    match field {
        None => Ok(Seq::empty()),
        Some(offset) => if !(offset.size == 1 || offset.size == 4) {
            Err(EncodeError::BadTemplate)
        } else {
            match offset.value {
                NoneRef::NONE => Err(EncodeError::MissingReference),
                NoneRef::Ref(i) => match operand_at(ops, i) {
                    Ok(OperandValue::Relative(v)) => if relative_fits(v, (8 * offset.size) as u8) {
                        Ok(le_bytes(v as int, offset.size as nat))
                    } else {
                        Err(EncodeError::Unencodable)
                    },
                    Ok(_) => Err(EncodeError::BadReference),
                    Err(e) => Err(e),
                },
            }
        },
    }
}

/// The bytes that a template gives for concrete operands, in the fixed order
/// of an x86-64 instruction: legacy prefix; REX, VEX or EVEX; opcodes;
/// ModR/M with SIB and displacement; register byte; immediate; code offset.
pub open spec fn encoding_bytes(enc: EncodingView, ops: Seq<OperandValue>) -> Result<
    Seq<u8>,
    EncodeError,
> {
    if enc.data_offset is Some {
        Err(EncodeError::DataOffset)
    } else if families(enc) > 1 {
        Err(EncodeError::PrefixConflict)
    } else if !indices_below(ops, index_limit(enc)) {
        Err(EncodeError::Unencodable)
    } else {
        then(
            then(
                then(
                    then(
                        then(
                            then(Ok(prefix_bytes(enc.prefix)), family_bytes(enc, ops)),
                            opcode_bytes(enc.opcodes, ops),
                        ),
                        modrm_bytes(enc, ops),
                    ),
                    register_byte_bytes(enc.register_byte, ops),
                ),
                immediate_bytes(enc.immediate, ops),
            ),
            code_offset_bytes(enc.code_offset, ops),
        )
    }
}

/// Whether a field of the template names the operand at index `i`.
pub open spec fn names_operand(enc: EncodingView, i: u8) -> bool {
    ||| enc.modrm matches Some(m) && (m.rm == NoneRef::Ref(i) || m.reg == IntOrRef::Ref(i)
        || m.mode == AddressMode::Ref(i))
    ||| exists|k: int|
        0 <= k < enc.opcodes.len() && (#[trigger] enc.opcodes[k]).addend == NoneRef::Ref(i)
    ||| enc.rex matches Some(r) && (r.R == BitRef::Ref(i) || r.B == BitRef::Ref(i) || r.X
        == BitRef::Ref(i))
    ||| enc.vex matches Some(v) && (v.R == BitRef::Ref(i) || v.B == BitRef::Ref(i) || v.X
        == BitRef::Ref(i) || v.vvvv == ZeroRef::Ref(i))
    ||| enc.evex matches Some(e) && (e.RR == NoneRef::Ref(i) || e.B == NoneRef::Ref(i) || e.X
        == NoneRef::Ref(i) || e.vvvv == ZeroRef::Ref(i) || e.V == ZeroRef::Ref(i) || e.b
        == ZeroRef::Ref(i) || e.aaa == ZeroRef::Ref(i) || e.z == ZeroRef::Ref(i) || e.LL
        == LLBitRef::LastRef(i))
    ||| enc.register_byte matches Some(rb) && (rb.register == NoneRef::Ref(i) || rb.payload
        == NoneRef::Ref(i))
    ||| enc.immediate matches Some(imm) && imm.value == IntOrRef::Ref(i)
    ||| enc.code_offset matches Some(offset) && offset.value == NoneRef::Ref(i)
}

/// Whether an operand of a kind has to be named by the template: it is one
/// that the caller chooses, a register, memory, an immediate or an offset.
/// A hard-coded operand needs no field, and a rounding or suppression
/// operand is held by `b` and `L'L`.
pub open spec fn must_be_named(kind: OperandId) -> bool {
    match shape_of(kind) {
        Shape::Register { fixed, .. } => fixed is None,
        Shape::Immediate { fixed, .. } => fixed is None,
        Shape::Relative { .. } => true,
        Shape::Memory { .. } => true,
        Shape::Broadcast { .. } => true,
        Shape::VectorMemory { .. } => true,
        _ => false,
    }
}

/// Whether the template names every operand that it has to name, so that
/// none is left out of the instruction.
pub open spec fn operands_consumed(operands: Seq<Operand>, enc: EncodingView) -> bool {
    forall|i: int|
        0 <= i < operands.len() && must_be_named((#[trigger] operands[i]).id) ==> i <= u8::MAX
            && names_operand(enc, i as u8)
}

/// The instruction that a form gives for concrete operands: the bytes of its
/// first template, where the operands fit its signature and the template
/// leaves none of them out.
pub open spec fn form_encoding(form: FormView, ops: Seq<OperandValue>) -> Result<
    Seq<u8>,
    EncodeError,
> {
    if !signature_admits(form.operands, ops) {
        Err(EncodeError::OperandMismatch)
    } else if form.encodings.len() == 0 {
        Err(EncodeError::NoTemplate)
    } else if !operands_consumed(form.operands, form.encodings[0]) {
        Err(EncodeError::UnusedOperand)
    } else {
        encoding_bytes(form.encodings[0], ops)
    }
}

/// Whether a result of the encoder holds the bytes, or is the error, that
/// the template gives.
pub open spec fn emitted(
    r: Result<Vec<u8>, EncodeError>,
    expected: Result<Seq<u8>, EncodeError>,
) -> bool {
    match r {
        Ok(bytes) => expected == Ok::<Seq<u8>, EncodeError>(bytes@),
        Err(e) => expected == Err::<Seq<u8>, EncodeError>(e),
    }
}

fn fetch(ops: &Vec<OperandValue>, i: u8) -> (r: Result<OperandValue, EncodeError>)
    ensures
        r == operand_at(ops@, i),
{
    if (i as usize) < ops.len() {
        Ok(ops[i as usize])
    } else {
        Err(EncodeError::BadReference)
    }
}

fn fetch_register(ops: &Vec<OperandValue>, i: u8) -> (r: Result<Register, EncodeError>)
    ensures
        r == register_at(ops@, i),
{
    match fetch(ops, i)? {
        OperandValue::Register(r) => Ok(r),
        _ => Err(EncodeError::BadReference),
    }
}

fn fetch_memory(ops: &Vec<OperandValue>, i: u8) -> (r: Result<Memory, EncodeError>)
    ensures
        r == memory_at(ops@, i),
{
    match fetch(ops, i)? {
        OperandValue::Memory(m) => Ok(m),
        _ => Err(EncodeError::BadReference),
    }
}

fn high3(index: u8) -> (r: u8)
    ensures
        r == bit3(index),
        r <= 1,
{
    (index / 8) % 2
}

fn high4(index: u8) -> (r: u8)
    ensures
        r == bit4(index),
        r <= 1,
{
    (index / 16) % 2
}

fn optional_high3(index: Option<u8>) -> (r: u8)
    ensures
        r == optional_bit3(index),
        r <= 1,
{
    match index {
        Some(i) => high3(i),
        None => 0,
    }
}

fn optional_high4(index: Option<u8>) -> (r: u8)
    ensures
        r == optional_bit4(index),
        r <= 1,
{
    match index {
        Some(i) => high4(i),
        None => 0,
    }
}

fn as_bit(b: bool) -> (r: u8)
    ensures
        r == flag(b),
        r <= 1,
{
    if b {
        1
    } else {
        0
    }
}

fn literal_bit(b: Bit) -> (r: u8)
    ensures
        r == bit_of(b),
        r <= 1,
{
    match b {
        Bit::One => 1,
        _ => 0,
    }
}

fn read_bit_ref(field: BitRef, ops: &Vec<OperandValue>, role: Role) -> (r: Result<u8, EncodeError>)
    ensures
        r == bit_ref(field, ops@, role),
        r matches Ok(bit) ==> bit <= 1,
{
    match field {
        BitRef::Zero => Ok(0),
        BitRef::One => Ok(1),
        BitRef::NONE => Ok(0),
        BitRef::Ref(i) => match fetch(ops, i)? {
            OperandValue::Register(r) => Ok(high3(r.index)),
            OperandValue::Memory(m) => Ok(
                match role {
                    Role::Base => optional_high3(m.address.base),
                    Role::Index => optional_high3(m.address.index),
                    Role::Reg => 0,
                },
            ),
            _ => Err(EncodeError::BadReference),
        },
    }
}

fn read_vvvv(field: ZeroRef, ops: &Vec<OperandValue>) -> (r: Result<u8, EncodeError>)
    ensures
        r == vvvv_bits(field, ops@),
        r matches Ok(bits) ==> bits <= 15,
{
    match field {
        ZeroRef::Zero => Ok(0),
        ZeroRef::NONE => Ok(0),
        ZeroRef::EVEX_b_ONE => Ok(1),
        ZeroRef::Ref(i) => {
            let r = fetch_register(ops, i)?;
            Ok(r.index % 16)
        },
    }
}

fn check_indices(ops: &Vec<OperandValue>, limit: u8) -> (r: bool)
    ensures
        r == indices_below(ops@, limit),
{
    let mut i: usize = 0;
    while i < ops.len()
        invariant
            i <= ops@.len(),
            forall|k: int|
                0 <= k < i ==> match #[trigger] ops@[k] {
                    OperandValue::Register(r) => r.index < limit,
                    OperandValue::Memory(m) => {
                        &&& m.address.base matches Some(b) ==> b < limit && b < 16
                        &&& m.address.index matches Some(x) ==> x < limit && (m.vector_index is None
                            ==> x < 16)
                    },
                    _ => true,
                },
        decreases ops@.len() - i,
    {
        let ok = match ops[i] {
            OperandValue::Register(r) => r.index < limit,
            OperandValue::Memory(m) => {
                let base_ok = match m.address.base {
                    Some(b) => b < limit && b < 16,
                    None => true,
                };
                let index_ok = match m.address.index {
                    Some(x) => x < limit && (m.vector_index.is_some() || x < 16),
                    None => true,
                };
                base_ok && index_ok
            },
            _ => true,
        };
        if !ok {
            return false;
        }
        i = i + 1;
    }
    true
}

fn check_rounding(ops: &Vec<OperandValue>, b: u8, ll: u8) -> (r: bool)
    ensures
        r == rounding_expressed(ops@, b, ll),
{
    let mut i: usize = 0;
    while i < ops.len()
        invariant
            i <= ops@.len(),
            forall|k: int|
                0 <= k < i ==> match #[trigger] ops@[k] {
                    OperandValue::Rounding(mode) => b == 1 && ll == mode.spec_code(),
                    OperandValue::SuppressAllExceptions => b == 1,
                    _ => true,
                },
        decreases ops@.len() - i,
    {
        let ok = match ops[i] {
            OperandValue::Rounding(mode) => b == 1 && ll == mode.code(),
            OperandValue::SuppressAllExceptions => b == 1,
            _ => true,
        };
        if !ok {
            return false;
        }
        i = i + 1;
    }
    true
}

fn merge(a: u8, b: u8) -> (r: u8)
    ensures
        r == either(a, b),
        r <= 1,
{
    if a != 0 || b != 0 {
        1
    } else {
        0
    }
}

fn read_implied(enc: &Encoding, ops: &Vec<OperandValue>) -> (r: Implied)
    ensures
        r == implied_bits(enc@, ops@),
        r.r <= 1 && r.r_high <= 1 && r.x <= 1 && r.b <= 1 && r.v_high <= 1,
{
    let mut implied = Implied { r: 0, r_high: 0, x: 0, b: 0, v_high: 0 };
    let mut rm_base: u8 = 0;
    match enc.modrm {
        Some(modrm) => {
            match modrm.reg {
                IntOrRef::Ref(j) => match fetch_register(ops, j) {
                    Ok(r) => {
                        implied.r = high3(r.index);
                        implied.r_high = high4(r.index);
                    },
                    Err(_) => {},
                },
                _ => {},
            }
            match modrm.rm {
                NoneRef::Ref(k) => match fetch(ops, k) {
                    Ok(OperandValue::Register(r)) => {
                        rm_base = high3(r.index);
                        implied.x = high4(r.index);
                    },
                    Ok(OperandValue::Memory(m)) => {
                        rm_base = optional_high3(m.address.base);
                        implied.x = optional_high3(m.address.index);
                        implied.v_high = optional_high4(m.address.index);
                    },
                    _ => {},
                },
                NoneRef::NONE => {},
            }
        },
        None => {},
    }
    let mut addend: u8 = 0;
    let n = enc.opcodes.len();
    if n > 0 {
        match enc.opcodes[n - 1].addend {
            NoneRef::Ref(i) => match fetch_register(ops, i) {
                Ok(r) => {
                    addend = high3(r.index);
                },
                Err(_) => {},
            },
            NoneRef::NONE => {},
        }
    }
    implied.b = merge(rm_base, addend);
    implied
}

fn read_implied_mask(ops: &Vec<OperandValue>) -> (r: u8)
    ensures
        r == implied_mask(ops@, ops@.len()),
        r <= 7,
{
    let mut mask: u8 = 0;
    let mut i: usize = 0;
    while i < ops.len()
        invariant
            i <= ops@.len(),
            mask == implied_mask(ops@, i as nat),
            mask <= 7,
        decreases ops@.len() - i,
    {
        if mask == 0 {
            mask = match ops[i] {
                OperandValue::Register(r) => r.mask % 8,
                OperandValue::Memory(m) => m.mask % 8,
                _ => 0,
            };
        }
        i = i + 1;
    }
    mask
}

fn read_implied_zeroing(ops: &Vec<OperandValue>) -> (r: u8)
    ensures
        r == implied_zeroing(ops@, ops@.len()),
        r <= 1,
{
    let mut any: u8 = 0;
    let mut i: usize = 0;
    while i < ops.len()
        invariant
            i <= ops@.len(),
            any == implied_zeroing(ops@, i as nat),
            any <= 1,
        decreases ops@.len() - i,
    {
        let zeroing = match ops[i] {
            OperandValue::Register(r) => r.zeroing,
            OperandValue::Memory(m) => m.zeroing,
            _ => false,
        };
        any = merge(any, as_bit(zeroing));
        i = i + 1;
    }
    any
}

fn read_implied_broadcast(ops: &Vec<OperandValue>) -> (r: u8)
    ensures
        r == implied_broadcast(ops@, ops@.len()),
        r <= 1,
{
    let mut any: u8 = 0;
    let mut i: usize = 0;
    while i < ops.len()
        invariant
            i <= ops@.len(),
            any == implied_broadcast(ops@, i as nat),
            any <= 1,
        decreases ops@.len() - i,
    {
        let broadcast = match ops[i] {
            OperandValue::Memory(m) => m.broadcast,
            _ => false,
        };
        any = merge(any, as_bit(broadcast));
        i = i + 1;
    }
    any
}

fn emit_rex(rex: &REX, ops: &Vec<OperandValue>, implied: &Implied) -> (r: Result<
    Vec<u8>,
    EncodeError,
>)
    ensures
        emitted(r, rex_bytes(*rex, ops@, *implied)),
{
    let r = merge(read_bit_ref(rex.R, ops, Role::Reg)?, implied.r);
    let x = merge(read_bit_ref(rex.X, ops, Role::Index)?, implied.x);
    let b = merge(read_bit_ref(rex.B, ops, Role::Base)?, implied.b);
    let w = literal_bit(rex.W);
    let mut out: Vec<u8> = Vec::new();
    if rex.mandatory || w + r + x + b > 0 {
        out.push(0x40 + 8 * w + 4 * r + 2 * x + b);
        assert(out@ =~= seq![(0x40 + 8 * w + 4 * r + 2 * x + b) as u8]);
    }
    Ok(out)
}

fn emit_vex(vex: &VEX, ops: &Vec<OperandValue>, implied: &Implied) -> (r: Result<
    Vec<u8>,
    EncodeError,
>)
    ensures
        emitted(r, vex_bytes(*vex, ops@, *implied)),
{
    let escape: u8 = match vex.id {
        VEXType::VEX => 0xC4,
        VEXType::XOP => 0x8F,
        VEXType::NONE => {
            return Err(EncodeError::BadTemplate);
        },
    };
    if vex.mmmmm >= 32 || vex.pp >= 4 {
        return Err(EncodeError::BadTemplate);
    }
    let r = merge(read_bit_ref(vex.R, ops, Role::Reg)?, implied.r);
    let x = merge(read_bit_ref(vex.X, ops, Role::Index)?, implied.x);
    let b = merge(read_bit_ref(vex.B, ops, Role::Base)?, implied.b);
    let v = read_vvvv(vex.vvvv, ops)?;
    let w = literal_bit(vex.W);
    let l = literal_bit(vex.L);
    let mut out: Vec<u8> = Vec::new();
    let short = match vex.id {
        VEXType::VEX => w == 0 && x == 0 && b == 0 && vex.mmmmm == 1,
        _ => false,
    };
    if short {
        out.push(0xC5);
        out.push(128 * (1 - r) + 8 * (15 - v) + 4 * l + vex.pp);
        assert(out@ =~= seq![
            0xC5u8,
            (128 * (1 - r) + 8 * (15 - v) + 4 * bit_of(vex.L) + vex.pp) as u8,
        ]);
    } else {
        out.push(escape);
        out.push(128 * (1 - r) + 64 * (1 - x) + 32 * (1 - b) + vex.mmmmm);
        out.push(128 * w + 8 * (15 - v) + 4 * l + vex.pp);
        assert(out@ =~= seq![
            escape,
            (128 * (1 - r) + 64 * (1 - x) + 32 * (1 - b) + vex.mmmmm) as u8,
            (128 * bit_of(vex.W) + 8 * (15 - v) + 4 * bit_of(vex.L) + vex.pp) as u8,
        ]);
    }
    Ok(out)
}

fn read_evex_rr(field: NoneRef, ops: &Vec<OperandValue>) -> (r: Result<(u8, u8), EncodeError>)
    ensures
        r == evex_rr(field, ops@),
        r matches Ok(bits) ==> bits.0 <= 1 && bits.1 <= 1,
{
    match field {
        NoneRef::NONE => Ok((0, 0)),
        NoneRef::Ref(i) => {
            let r = fetch_register(ops, i)?;
            Ok((high3(r.index), high4(r.index)))
        },
    }
}

fn read_evex_base(field: NoneRef, ops: &Vec<OperandValue>) -> (r: Result<u8, EncodeError>)
    ensures
        r == evex_base(field, ops@),
        r matches Ok(bit) ==> bit <= 1,
{
    match field {
        NoneRef::NONE => Ok(0),
        NoneRef::Ref(i) => match fetch(ops, i)? {
            OperandValue::Register(r) => Ok(high3(r.index)),
            OperandValue::Memory(m) => Ok(optional_high3(m.address.base)),
            _ => Err(EncodeError::BadReference),
        },
    }
}

fn read_evex_index(field: NoneRef, ops: &Vec<OperandValue>) -> (r: Result<u8, EncodeError>)
    ensures
        r == evex_index(field, ops@),
        r matches Ok(bit) ==> bit <= 1,
{
    match field {
        NoneRef::NONE => Ok(0),
        NoneRef::Ref(i) => match fetch(ops, i)? {
            OperandValue::Register(r) => Ok(high4(r.index)),
            OperandValue::Memory(m) => Ok(optional_high3(m.address.index)),
            _ => Err(EncodeError::BadReference),
        },
    }
}

fn read_evex_v_high(field: ZeroRef, ops: &Vec<OperandValue>) -> (r: Result<u8, EncodeError>)
    ensures
        r == evex_v_high(field, ops@),
        r matches Ok(bit) ==> bit <= 1,
{
    match field {
        ZeroRef::Zero => Ok(0),
        ZeroRef::NONE => Ok(0),
        ZeroRef::EVEX_b_ONE => Ok(1),
        ZeroRef::Ref(i) => match fetch(ops, i)? {
            OperandValue::Register(r) => Ok(high4(r.index)),
            OperandValue::Memory(m) => Ok(optional_high4(m.address.index)),
            _ => Err(EncodeError::BadReference),
        },
    }
}

fn read_vvvv_high(field: ZeroRef, ops: &Vec<OperandValue>) -> (r: u8)
    ensures
        r == vvvv_high(field, ops@),
        r <= 1,
{
    match field {
        ZeroRef::Ref(i) => match fetch_register(ops, i) {
            Ok(r) => high4(r.index),
            Err(_) => 0,
        },
        _ => 0,
    }
}

fn read_evex_mask(field: ZeroRef, ops: &Vec<OperandValue>) -> (r: Result<u8, EncodeError>)
    ensures
        r == evex_mask(field, ops@),
        r matches Ok(bits) ==> bits <= 7,
{
    match field {
        ZeroRef::Zero => Ok(read_implied_mask(ops)),
        ZeroRef::NONE => Ok(read_implied_mask(ops)),
        ZeroRef::EVEX_b_ONE => Ok(1),
        ZeroRef::Ref(i) => match fetch(ops, i)? {
            OperandValue::Register(r) => Ok(r.mask % 8),
            OperandValue::Memory(m) => Ok(m.mask % 8),
            _ => Err(EncodeError::BadReference),
        },
    }
}

fn read_evex_zeroing(field: ZeroRef, ops: &Vec<OperandValue>) -> (r: Result<u8, EncodeError>)
    ensures
        r == evex_zeroing(field, ops@),
        r matches Ok(bit) ==> bit <= 1,
{
    match field {
        ZeroRef::Zero => Ok(read_implied_zeroing(ops)),
        ZeroRef::NONE => Ok(read_implied_zeroing(ops)),
        ZeroRef::EVEX_b_ONE => Ok(1),
        ZeroRef::Ref(i) => match fetch(ops, i)? {
            OperandValue::Register(r) => Ok(as_bit(r.zeroing)),
            OperandValue::Memory(m) => Ok(as_bit(m.zeroing)),
            _ => Err(EncodeError::BadReference),
        },
    }
}

fn read_evex_broadcast(field: ZeroRef, ops: &Vec<OperandValue>) -> (r: Result<u8, EncodeError>)
    ensures
        r == evex_broadcast(field, ops@),
        r matches Ok(bit) ==> bit <= 1,
{
    match field {
        ZeroRef::Zero => Ok(read_implied_broadcast(ops)),
        ZeroRef::NONE => Ok(read_implied_broadcast(ops)),
        ZeroRef::EVEX_b_ONE => Ok(1),
        ZeroRef::Ref(i) => match fetch(ops, i)? {
            OperandValue::Register(_) => Ok(0),
            OperandValue::Memory(m) => Ok(as_bit(m.broadcast)),
            OperandValue::Rounding(_) => Ok(1),
            OperandValue::SuppressAllExceptions => Ok(1),
            _ => Err(EncodeError::BadReference),
        },
    }
}

fn read_evex_length(field: LLBitRef, ops: &Vec<OperandValue>) -> (r: Result<u8, EncodeError>)
    ensures
        r == evex_length(field, ops@),
        r matches Ok(bits) ==> bits <= 3,
{
    match field {
        LLBitRef::Zero => Ok(0),
        LLBitRef::One => Ok(1),
        LLBitRef::Two => Ok(2),
        LLBitRef::NONE => Err(EncodeError::MissingReference),
        LLBitRef::LastRef(i) => match fetch(ops, i)? {
            OperandValue::Register(r) => match r.class {
                RegisterClass::Xmm => Ok(0),
                RegisterClass::Ymm => Ok(1),
                RegisterClass::Zmm => Ok(2),
                _ => Err(EncodeError::BadReference),
            },
            OperandValue::Rounding(mode) => Ok(mode.code()),
            _ => Err(EncodeError::BadReference),
        },
    }
}

fn read_evex_bits(evex: &EVEX, ops: &Vec<OperandValue>, implied: &Implied) -> (r: Result<
    EvexBits,
    EncodeError,
>)
    ensures
        r == evex_bits(*evex, ops@, *implied),
        r matches Ok(bits) ==> {
            &&& bits.r <= 1
            &&& bits.r_high <= 1
            &&& bits.x <= 1
            &&& bits.b <= 1
            &&& bits.vvvv <= 15
            &&& bits.v_high <= 1
            &&& bits.aaa <= 7
            &&& bits.z <= 1
            &&& bits.broadcast <= 1
            &&& bits.ll <= 3
        },
{
    let rr = read_evex_rr(evex.RR, ops)?;
    let x = read_evex_index(evex.X, ops)?;
    let b = read_evex_base(evex.B, ops)?;
    let vvvv = read_vvvv(evex.vvvv, ops)?;
    let v_high = read_evex_v_high(evex.V, ops)?;
    let aaa = read_evex_mask(evex.aaa, ops)?;
    let z = read_evex_zeroing(evex.z, ops)?;
    let broadcast = read_evex_broadcast(evex.b, ops)?;
    let ll = read_evex_length(evex.LL, ops)?;
    Ok(
        EvexBits {
            r: merge(rr.0, implied.r),
            r_high: merge(rr.1, implied.r_high),
            x: merge(x, implied.x),
            b: merge(b, implied.b),
            vvvv,
            v_high: merge(merge(v_high, read_vvvv_high(evex.vvvv, ops)), implied.v_high),
            aaa,
            z,
            broadcast,
            ll,
        },
    )
}

fn emit_evex(evex: &EVEX, ops: &Vec<OperandValue>, implied: &Implied) -> (r: Result<
    Vec<u8>,
    EncodeError,
>)
    ensures
        emitted(r, evex_bytes(*evex, ops@, *implied)),
{
    if evex.mm >= 4 || evex.pp >= 4 {
        return Err(EncodeError::BadTemplate);
    }
    let bits = read_evex_bits(evex, ops, implied)?;
    if !check_rounding(ops, bits.broadcast, bits.ll) {
        return Err(EncodeError::Rounding);
    }
    let w = literal_bit(evex.W);
    let mut out: Vec<u8> = Vec::new();
    out.push(0x62);
    out.push(
        128 * (1 - bits.r) + 64 * (1 - bits.x) + 32 * (1 - bits.b) + 16 * (1 - bits.r_high)
            + evex.mm,
    );
    out.push(128 * w + 8 * (15 - bits.vvvv) + 4 + evex.pp);
    out.push(128 * bits.z + 32 * bits.ll + 16 * bits.broadcast + 8 * (1 - bits.v_high) + bits.aaa);
    assert(out@ =~= seq![
        0x62u8,
        (128 * (1 - bits.r) + 64 * (1 - bits.x) + 32 * (1 - bits.b) + 16 * (1 - bits.r_high)
            + evex.mm) as u8,
        (128 * bit_of(evex.W) + 8 * (15 - bits.vvvv) + 4 + evex.pp) as u8,
        (128 * bits.z + 32 * bits.ll + 16 * bits.broadcast + 8 * (1 - bits.v_high)
            + bits.aaa) as u8,
    ]);
    Ok(out)
}

fn emit_family(enc: &Encoding, ops: &Vec<OperandValue>) -> (r: Result<Vec<u8>, EncodeError>)
    ensures
        emitted(r, family_bytes(enc@, ops@)),
{
    let implied = read_implied(enc, ops);
    match &enc.evex {
        Some(evex) => emit_evex(evex, ops, &implied),
        None => {
            if !check_rounding(ops, 0, 0) {
                return Err(EncodeError::Rounding);
            }
            if read_implied_mask(ops) != 0 || read_implied_zeroing(ops) != 0
                || read_implied_broadcast(ops) != 0 {
                return Err(EncodeError::Unencodable);
            }
            match &enc.vex {
                Some(vex) => emit_vex(vex, ops, &implied),
                None => match &enc.rex {
                    Some(rex) => emit_rex(rex, ops, &implied),
                    None => Ok(Vec::new()),
                },
            }
        },
    }
}

fn emit_opcodes(opcodes: &Vec<Opcode>, ops: &Vec<OperandValue>) -> (r: Result<
    Vec<u8>,
    EncodeError,
>)
    ensures
        emitted(r, opcode_bytes(opcodes@, ops@)),
{
    let n = opcodes.len();
    if n == 0 || n > 3 {
        return Err(EncodeError::BadTemplate);
    }
    let mut out: Vec<u8> = Vec::new();
    let mut i: usize = 0;
    while i < n - 1
        invariant
            n == opcodes@.len(),
            0 < n <= 3,
            i <= n - 1,
            out@.len() == i,
            forall|k: int| 0 <= k < i ==> (#[trigger] opcodes@[k]).addend == NoneRef::NONE,
            forall|k: int| 0 <= k < i ==> out@[k] == opcodes@[k].byte,
        decreases n - i,
    {
        match opcodes[i].addend {
            NoneRef::NONE => {},
            NoneRef::Ref(_) => {
                assert(early_addend(opcodes@));
                return Err(EncodeError::BadTemplate);
            },
        }
        out.push(opcodes[i].byte);
        i = i + 1;
    }
    assert(!early_addend(opcodes@));
    assert(out@ =~= plain_opcodes(opcodes@.drop_last()));
    let last = opcodes[n - 1];
    match last.addend {
        NoneRef::NONE => {
            out.push(last.byte);
            assert(out@ =~= plain_opcodes(opcodes@));
        },
        NoneRef::Ref(i) => {
            let r = fetch_register(ops, i)?;
            if r.index >= 16 {
                return Err(EncodeError::Unencodable);
            }
            out.push(last.byte | (r.index % 8));
        },
    }
    Ok(out)
}

fn emit_le(value: i64, size: u8) -> (r: Vec<u8>)
    ensures
        r@ == le_bytes(value as int, size as nat),
{
    let mut out: Vec<u8> = Vec::new();
    let mut rest: i64 = value;
    let mut k: u8 = 0;
    assert(out@ + le_bytes(rest as int, size as nat) =~= le_bytes(value as int, size as nat));
    while k < size
        invariant
            k <= size,
            out@ + le_bytes(rest as int, (size - k) as nat) == le_bytes(value as int, size as nat),
        decreases size - k,
    {
        let quotient: i64 = if rest >= 0 {
            ((rest as u64) / 256) as i64
        } else {
            -((((-(rest + 1)) as u64) / 256) as i64) - 1
        };
        let low: i64 = rest - quotient * 256;
        proof {
            lemma_fundamental_div_mod_converse(rest as int, 256, quotient as int, low as int);
            let remaining = (size - k) as nat;
            assert(le_bytes(rest as int, remaining) == seq![((rest as int) % 256) as u8]
                + le_bytes((rest as int) / 256, (remaining - 1) as nat));
            assert(out@.push(low as u8) + le_bytes(quotient as int, (remaining - 1) as nat)
                =~= out@ + le_bytes(rest as int, remaining));
        }
        out.push(low as u8);
        rest = quotient;
        k = k + 1;
    }
    assert(out@ + le_bytes(rest as int, 0) =~= out@);
    out
}

fn scale_displacement(displacement: i32, n: u8) -> (r: Option<i64>)
    ensures
        match r {
            Some(q) => scaled_displacement(displacement, n) == Some(q as int) && -128 <= q <= 127,
            None => scaled_displacement(displacement, n) is None,
        },
{
    if n == 0 {
        return None;
    }
    let d: i64 = displacement as i64;
    let unit: i64 = n as i64;
    let reach: i64 = 128 * unit;
    if d < 0 - reach || d > reach - unit {
        return None;
    }
    let shifted: u64 = (d + reach) as u64;
    let quotient: u64 = shifted / (n as u64);
    let rest: u64 = shifted % (n as u64);
    proof {
        lemma_fundamental_div_mod(shifted as int, n as int);
        assert(d == (quotient - 128) * n + rest) by (nonlinear_arith)
            requires
                shifted == n * quotient + rest,
                shifted == d + 128 * n,
        ;
        lemma_fundamental_div_mod_converse(d as int, n as int, quotient - 128, rest as int);
    }
    if rest != 0 {
        None
    } else {
        assert(0 <= quotient <= 255) by (nonlinear_arith)
            requires
                shifted == n * quotient,
                0 <= shifted <= 255 * n,
                n > 0,
        ;
        Some(quotient as i64 - 128)
    }
}

fn displacement_unit(enc: &Encoding, m: &Memory) -> (r: u8)
    ensures
        r == displacement_scale(enc@, *m),
{
    match enc.evex {
        Some(evex) => if m.broadcast {
            if m.bits == 64 {
                8
            } else {
                4
            }
        } else if evex.disp8xN == 0 {
            1
        } else {
            evex.disp8xN
        },
        None => 1,
    }
}

fn emit_memory(reg: u8, address: &Address, n: u8) -> (r: Vec<u8>)
    ensures
        r@ == memory_bytes(reg, *address, n),
{
    let mut mode: u8 = 0;
    let mut tail: Vec<u8> = Vec::new();
    match address.base {
        None => {
            tail = emit_le(address.displacement as i64, 4);
        },
        Some(base) => {
            if !(address.displacement == 0 && base % 8 != 5) {
                match scale_displacement(address.displacement, n) {
                    Some(q) => {
                        mode = 1;
                        tail = emit_le(q, 1);
                    },
                    None => {
                        mode = 2;
                        tail = emit_le(address.displacement as i64, 4);
                    },
                }
            }
        },
    }
    assert(mode == displacement_form(*address, n).0);
    assert(tail@ == displacement_form(*address, n).1);
    let sib = match address.index {
        Some(_) => true,
        None => match address.base {
            Some(base) => base % 8 == 4,
            None => true,
        },
    };
    let mut out: Vec<u8> = Vec::new();
    if sib {
        let scale: u8 = match address.index {
            None => 0,
            Some(_) => if address.scale == 2 {
                1
            } else if address.scale == 4 {
                2
            } else if address.scale == 8 {
                3
            } else {
                0
            },
        };
        let index: u8 = match address.index {
            Some(i) => i % 8,
            None => 4,
        };
        let base: u8 = match address.base {
            Some(b) => b % 8,
            None => 5,
        };
        out.push(64 * mode + 8 * (reg % 8) + 4);
        out.push(64 * scale + 8 * index + base);
        let ghost head = out@;
        out.append(&mut tail);
        assert(out@ =~= seq![(64 * mode + 8 * (reg % 8) + 4) as u8, sib_byte(*address)]
            + displacement_form(*address, n).1);
    } else {
        let base: u8 = match address.base {
            Some(b) => b % 8,
            None => 0,
        };
        out.push(64 * mode + 8 * (reg % 8) + base);
        out.append(&mut tail);
        assert(out@ =~= seq![(64 * mode + 8 * (reg % 8) + address.base->0 % 8) as u8]
            + displacement_form(*address, n).1);
    }
    out
}

fn read_modrm_reg(field: IntOrRef, ops: &Vec<OperandValue>) -> (r: Result<u8, EncodeError>)
    ensures
        r == modrm_reg(field, ops@),
        r matches Ok(bits) ==> bits <= 7,
{
    match field {
        IntOrRef::Extension(n) => if n < 8 {
            Ok(n)
        } else {
            Err(EncodeError::Unencodable)
        },
        IntOrRef::Ref(i) => {
            let r = fetch_register(ops, i)?;
            Ok(r.index % 8)
        },
        IntOrRef::NONE => Err(EncodeError::MissingReference),
    }
}

fn emit_modrm(enc: &Encoding, ops: &Vec<OperandValue>) -> (r: Result<Vec<u8>, EncodeError>)
    ensures
        emitted(r, modrm_bytes(enc@, ops@)),
{
    match enc.modrm {
        None => Ok(Vec::new()),
        Some(modrm) => {
            let reg = read_modrm_reg(modrm.reg, ops)?;
            match modrm.rm {
                NoneRef::NONE => Err(EncodeError::MissingReference),
                NoneRef::Ref(k) => match modrm.mode {
                    AddressMode::NONE => Err(EncodeError::MissingReference),
                    AddressMode::Two => {
                        let r = fetch_register(ops, k)?;
                        let mut out: Vec<u8> = Vec::new();
                        out.push(0xC0 + 8 * reg + r.index % 8);
                        assert(out@ =~= seq![(0xC0 + 8 * reg + r.index % 8) as u8]);
                        Ok(out)
                    },
                    AddressMode::Ref(i) => {
                        if i != k {
                            return Err(EncodeError::BadTemplate);
                        }
                        let m = fetch_memory(ops, i)?;
                        let n = displacement_unit(enc, &m);
                        Ok(emit_memory(reg, &m.address, n))
                    },
                },
            }
        },
    }
}

fn emit_register_byte(field: &Option<RegisterByte>, ops: &Vec<OperandValue>) -> (r: Result<
    Vec<u8>,
    EncodeError,
>)
    ensures
        emitted(r, register_byte_bytes(*field, ops@)),
{
    match field {
        None => Ok(Vec::new()),
        Some(rb) => match rb.register {
            NoneRef::NONE => Err(EncodeError::MissingReference),
            NoneRef::Ref(i) => {
                let r = fetch_register(ops, i)?;
                if r.index >= 16 {
                    return Err(EncodeError::Unencodable);
                }
                let payload: u8 = match rb.payload {
                    NoneRef::NONE => 0,
                    NoneRef::Ref(j) => match fetch(ops, j)? {
                        OperandValue::Immediate(v) => if 0 <= v && v < 16 {
                            v as u8
                        } else {
                            return Err(EncodeError::Unencodable);
                        },
                        _ => {
                            return Err(EncodeError::BadReference);
                        },
                    },
                };
                let mut out: Vec<u8> = Vec::new();
                out.push(16 * r.index + payload);
                assert(out@ =~= seq![(16 * r.index + payload) as u8]);
                Ok(out)
            },
        },
    }
}

fn emit_immediate(field: &Option<Immediate>, ops: &Vec<OperandValue>) -> (r: Result<
    Vec<u8>,
    EncodeError,
>)
    ensures
        emitted(r, immediate_bytes(*field, ops@)),
{
    match field {
        None => Ok(Vec::new()),
        Some(imm) => {
            if !(imm.size == 1 || imm.size == 2 || imm.size == 4 || imm.size == 8) {
                return Err(EncodeError::BadTemplate);
            }
            match imm.value {
                IntOrRef::NONE => Err(EncodeError::MissingReference),
                IntOrRef::Extension(n) => Ok(emit_le(n as i64, imm.size)),
                IntOrRef::Ref(i) => match fetch(ops, i)? {
                    OperandValue::Immediate(v) => if immediate_in_range(v, 8 * imm.size) {
                        Ok(emit_le(v, imm.size))
                    } else {
                        Err(EncodeError::Unencodable)
                    },
                    _ => Err(EncodeError::BadReference),
                },
            }
        },
    }
}

fn emit_code_offset(field: &Option<CodeOffset>, ops: &Vec<OperandValue>) -> (r: Result<
    Vec<u8>,
    EncodeError,
>)
    ensures
        emitted(r, code_offset_bytes(*field, ops@)),
{
    match field {
        None => Ok(Vec::new()),
        Some(offset) => {
            if !(offset.size == 1 || offset.size == 4) {
                return Err(EncodeError::BadTemplate);
            }
            match offset.value {
                NoneRef::NONE => Err(EncodeError::MissingReference),
                NoneRef::Ref(i) => match fetch(ops, i)? {
                    OperandValue::Relative(v) => if relative_in_range(v, 8 * offset.size) {
                        Ok(emit_le(v as i64, offset.size))
                    } else {
                        Err(EncodeError::Unencodable)
                    },
                    _ => Err(EncodeError::BadReference),
                },
            }
        },
    }
}

/// The bytes that one template gives for concrete operands.
fn encode_template(enc: &Encoding, ops: &Vec<OperandValue>) -> (r: Result<Vec<u8>, EncodeError>)
    ensures
        emitted(r, encoding_bytes(enc@, ops@)),
{
    if enc.data_offset.is_some() {
        return Err(EncodeError::DataOffset);
    }
    let count: u8 = as_bit(enc.rex.is_some()) + as_bit(enc.vex.is_some()) + as_bit(
        enc.evex.is_some(),
    );
    if count > 1 {
        return Err(EncodeError::PrefixConflict);
    }
    let limit: u8 = if enc.evex.is_some() {
        32
    } else if enc.rex.is_some() || enc.vex.is_some() {
        16
    } else {
        8
    };
    if !check_indices(ops, limit) {
        return Err(EncodeError::Unencodable);
    }
    let mut out: Vec<u8> = Vec::new();
    match enc.prefix {
        Some(p) => {
            out.push(p.byte);
        },
        None => {},
    }
    assert(out@ =~= prefix_bytes(enc@.prefix));
    let mut family = emit_family(enc, ops)?;
    out.append(&mut family);
    let mut opcodes = emit_opcodes(&enc.opcodes, ops)?;
    out.append(&mut opcodes);
    let mut modrm = emit_modrm(enc, ops)?;
    out.append(&mut modrm);
    let mut register_byte = emit_register_byte(&enc.register_byte, ops)?;
    out.append(&mut register_byte);
    let mut immediate = emit_immediate(&enc.immediate, ops)?;
    out.append(&mut immediate);
    let mut code_offset = emit_code_offset(&enc.code_offset, ops)?;
    out.append(&mut code_offset);
    Ok(out)
}

fn names(enc: &Encoding, i: u8) -> (r: bool)
    ensures
        r == names_operand(enc@, i),
{
    let in_modrm = match enc.modrm {
        Some(m) => m.rm == NoneRef::Ref(i) || m.reg == IntOrRef::Ref(i) || m.mode
            == AddressMode::Ref(i),
        None => false,
    };
    let in_rex = match enc.rex {
        Some(r) => r.R == BitRef::Ref(i) || r.B == BitRef::Ref(i) || r.X == BitRef::Ref(i),
        None => false,
    };
    let in_vex = match enc.vex {
        Some(v) => v.R == BitRef::Ref(i) || v.B == BitRef::Ref(i) || v.X == BitRef::Ref(i)
            || v.vvvv == ZeroRef::Ref(i),
        None => false,
    };
    let in_evex = match enc.evex {
        Some(e) => e.RR == NoneRef::Ref(i) || e.B == NoneRef::Ref(i) || e.X == NoneRef::Ref(i)
            || e.vvvv == ZeroRef::Ref(i) || e.V == ZeroRef::Ref(i) || e.b == ZeroRef::Ref(i)
            || e.aaa == ZeroRef::Ref(i) || e.z == ZeroRef::Ref(i) || e.LL == LLBitRef::LastRef(i),
        None => false,
    };
    let in_register_byte = match enc.register_byte {
        Some(rb) => rb.register == NoneRef::Ref(i) || rb.payload == NoneRef::Ref(i),
        None => false,
    };
    let in_immediate = match enc.immediate {
        Some(imm) => imm.value == IntOrRef::Ref(i),
        None => false,
    };
    let in_code_offset = match enc.code_offset {
        Some(offset) => offset.value == NoneRef::Ref(i),
        None => false,
    };
    if in_modrm || in_rex || in_vex || in_evex || in_register_byte || in_immediate
        || in_code_offset {
        return true;
    }
    let mut k: usize = 0;
    while k < enc.opcodes.len()
        invariant
            k <= enc.opcodes@.len(),
            forall|j: int| 0 <= j < k ==> (#[trigger] enc.opcodes@[j]).addend != NoneRef::Ref(i),
        decreases enc.opcodes@.len() - k,
    {
        if enc.opcodes[k].addend == NoneRef::Ref(i) {
            return true;
        }
        k = k + 1;
    }
    false
}

fn has_to_be_named(kind: OperandId) -> (r: bool)
    ensures
        r == must_be_named(kind),
{
    match operand_shape(kind) {
        Shape::Register { class: _, fixed, masked: _, zeroing: _ } => fixed.is_none(),
        Shape::Immediate { width: _, fixed } => fixed.is_none(),
        Shape::Relative { width: _ } => true,
        Shape::Memory { bits: _, masked: _, zeroing: _ } => true,
        Shape::Broadcast { bits: _, element: _ } => true,
        Shape::VectorMemory { element: _, index: _, masked: _ } => true,
        _ => false,
    }
}

fn consumed(operands: &Vec<Operand>, enc: &Encoding) -> (r: bool)
    ensures
        r == operands_consumed(operands@, enc@),
{
    let mut i: usize = 0;
    while i < operands.len()
        invariant
            i <= operands@.len(),
            forall|k: int|
                0 <= k < i && must_be_named((#[trigger] operands@[k]).id) ==> k <= u8::MAX
                    && names_operand(enc@, k as u8),
        decreases operands@.len() - i,
    {
        if has_to_be_named(operands[i].id) {
            if i > 255 {
                return false;
            }
            if !names(enc, i as u8) {
                return false;
            }
        }
        i = i + 1;
    }
    true
}

/// The instruction that the form gives for the operands.
pub fn encode_form(form: &InstructionForm, ops: &Vec<OperandValue>) -> (r: Result<
    Vec<u8>,
    EncodeError,
>)
    ensures
        emitted(r, form_encoding(form@, ops@)),
{
    if !signature_admitted(&form.operands, ops) {
        return Err(EncodeError::OperandMismatch);
    }
    if form.encodings.len() == 0 {
        return Err(EncodeError::NoTemplate);
    }
    if !consumed(&form.operands, &form.encodings[0]) {
        return Err(EncodeError::UnusedOperand);
    }
    encode_template(&form.encodings[0], ops)
}

/// Appends to the buffer the instruction that the form gives for the
/// operands. The result is a function of the form and the operands alone;
/// where it is an error the buffer stays as it was.
pub fn encode(form: &InstructionForm, ops: &Vec<OperandValue>, buffer: &mut Vec<u8>) -> (r: Result<
    (),
    EncodeError,
>)
    ensures
        match r {
            Ok(_) => form_encoding(form@, ops@) matches Ok(bytes) && final(buffer)@ == old(
                buffer,
            )@ + bytes,
            Err(e) => {
                &&& form_encoding(form@, ops@) == Err::<Seq<u8>, EncodeError>(e)
                &&& final(buffer)@ == old(buffer)@
            },
        },
{
    let mut bytes = encode_form(form, ops)?;
    buffer.append(&mut bytes);
    Ok(())
}

/// Encoding is a function of the form and the operands: two forms that are
/// equal as values give, for equal operands, the same bytes or the same error.
pub proof fn lemma_encoding_deterministic(
    form_a: InstructionForm,
    ops_a: Vec<OperandValue>,
    form_b: InstructionForm,
    ops_b: Vec<OperandValue>,
)
    requires
        form_a@ == form_b@,
        ops_a@ == ops_b@,
    ensures
        form_encoding(form_a@, ops_a@) == form_encoding(form_b@, ops_b@),
{
}

/// Whether a form takes an operand of a kind that no concrete operand fits.
pub open spec fn takes_unsupported(operands: Seq<Operand>) -> bool {
    exists|i: int| 0 <= i < operands.len() && shape_of((#[trigger] operands[i]).id) is Unsupported
}

/// Whether a form takes a rounding or suppression operand.
pub open spec fn takes_rounding(operands: Seq<Operand>) -> bool {
    exists|i: int|
        0 <= i < operands.len() && (shape_of((#[trigger] operands[i]).id) is Rounding || shape_of(
            operands[i].id,
        ) is SuppressAllExceptions)
}

/// What is wrong with the prefix of a template, whatever the operands are.
pub open spec fn family_fault(enc: EncodingView, operands: Seq<Operand>) -> Option<EncodeError> {
    match enc.evex {
        Some(evex) => if evex.mm >= 4 || evex.pp >= 4 {
            Some(EncodeError::BadTemplate)
        } else if evex.LL is NONE {
            Some(EncodeError::MissingReference)
        } else {
            None
        },
        None => if takes_rounding(operands) {
            Some(EncodeError::Rounding)
        } else {
            match enc.vex {
                Some(vex) => if vex.id == VEXType::NONE || vex.mmmmm >= 32 || vex.pp >= 4 {
                    Some(EncodeError::BadTemplate)
                } else {
                    None
                },
                None => None,
            }
        },
    }
}

/// What is wrong with the opcodes of a template.
pub open spec fn opcode_fault(opcodes: Seq<Opcode>) -> Option<EncodeError> {
    if opcodes.len() == 0 || opcodes.len() > 3 || early_addend(opcodes) {
        Some(EncodeError::BadTemplate)
    } else {
        None
    }
}

/// What is wrong with the ModR/M template.
pub open spec fn modrm_fault(field: Option<ModRM>) -> Option<EncodeError> {
    match field {
        None => None,
        Some(modrm) => match modrm.reg {
            IntOrRef::NONE => Some(EncodeError::MissingReference),
            IntOrRef::Extension(n) if n >= 8 => Some(EncodeError::Unencodable),
            _ => match modrm.rm {
                NoneRef::NONE => Some(EncodeError::MissingReference),
                NoneRef::Ref(k) => match modrm.mode {
                    AddressMode::NONE => Some(EncodeError::MissingReference),
                    AddressMode::Two => None,
                    AddressMode::Ref(i) => if i != k {
                        Some(EncodeError::BadTemplate)
                    } else {
                        None
                    },
                },
            },
        },
    }
}

/// What is wrong with the trailing fields of a template: register byte,
/// immediate and code offset.
pub open spec fn trailer_fault(enc: EncodingView) -> Option<EncodeError> {
    if enc.register_byte matches Some(rb) && rb.register is NONE {
        Some(EncodeError::MissingReference)
    } else if enc.immediate matches Some(imm) && !(imm.size == 1 || imm.size == 2 || imm.size == 4
        || imm.size == 8) {
        Some(EncodeError::BadTemplate)
    } else if enc.immediate matches Some(imm) && imm.value is NONE {
        Some(EncodeError::MissingReference)
    } else if enc.code_offset matches Some(offset) && !(offset.size == 1 || offset.size == 4) {
        Some(EncodeError::BadTemplate)
    } else if enc.code_offset matches Some(offset) && offset.value is NONE {
        Some(EncodeError::MissingReference)
    } else {
        None
    }
}

/// Whether a field of the template names an operand that the form does not
/// have.
pub open spec fn names_beyond(enc: EncodingView, count: nat) -> bool {
    exists|i: u8| i >= count && #[trigger] names_operand(enc, i)
}

/// What is wrong with a template, whatever the operands are: a data offset,
/// more than one of REX, VEX and EVEX, a reference to an operand that is not
/// there, a malformed prefix or opcode list, a required reference that is
/// missing, a size or an opcode extension out of range.
pub open spec fn encoding_fault(enc: EncodingView, operands: Seq<Operand>) -> Option<EncodeError> {
    if enc.data_offset is Some {
        Some(EncodeError::DataOffset)
    } else if families(enc) > 1 {
        Some(EncodeError::PrefixConflict)
    } else if names_beyond(enc, operands.len()) {
        Some(EncodeError::BadReference)
    } else if family_fault(enc, operands) is Some {
        family_fault(enc, operands)
    } else if opcode_fault(enc.opcodes) is Some {
        opcode_fault(enc.opcodes)
    } else if modrm_fault(enc.modrm) is Some {
        modrm_fault(enc.modrm)
    } else {
        trailer_fault(enc)
    }
}

/// The fault of a form that shows without any operand: a kind that no
/// operand fits, no template, an operand that the template leaves out, or a
/// fault of the first template. A form with such a fault encodes nothing.
/// What depends on the operands themselves, such as a register out of reach
/// of the prefix, shows when the form is encoded: the encoder refuses then,
/// and writes nothing.
#[verifier::opaque]
pub open spec fn template_fault(form: FormView) -> Option<EncodeError> {
    if takes_unsupported(form.operands) {
        Some(EncodeError::OperandMismatch)
    } else if form.encodings.len() == 0 {
        Some(EncodeError::NoTemplate)
    } else if !operands_consumed(form.operands, form.encodings[0]) {
        Some(EncodeError::UnusedOperand)
    } else {
        encoding_fault(form.encodings[0], form.operands)
    }
}

proof fn lemma_beyond_is_refusal(enc: EncodingView, ops: Seq<OperandValue>, i: u8)
    requires
        i >= ops.len(),
        names_operand(enc, i),
        enc.data_offset is None,
        families(enc) <= 1,
    ensures
        encoding_bytes(enc, ops) is Err,
{
    assert(operand_at(ops, i) is Err);
    let named_by_opcode = exists|k: int|
        0 <= k < enc.opcodes.len() && (#[trigger] enc.opcodes[k]).addend == NoneRef::Ref(i);
    if named_by_opcode {
        let k = choose|k: int|
            0 <= k < enc.opcodes.len() && (#[trigger] enc.opcodes[k]).addend == NoneRef::Ref(i);
        if k < enc.opcodes.len() - 1 {
            assert(early_addend(enc.opcodes));
        }
        assert(opcode_bytes(enc.opcodes, ops) is Err);
    } else if enc.modrm matches Some(m) && (m.rm == NoneRef::Ref(i) || m.reg == IntOrRef::Ref(i)
        || m.mode == AddressMode::Ref(i)) {
        assert(modrm_bytes(enc, ops) is Err);
    } else if enc.register_byte matches Some(rb) && (rb.register == NoneRef::Ref(i) || rb.payload
        == NoneRef::Ref(i)) {
        assert(register_byte_bytes(enc.register_byte, ops) is Err);
    } else if enc.immediate matches Some(imm) && imm.value == IntOrRef::Ref(i) {
        assert(immediate_bytes(enc.immediate, ops) is Err);
    } else if enc.code_offset matches Some(offset) && offset.value == NoneRef::Ref(i) {
        assert(code_offset_bytes(enc.code_offset, ops) is Err);
    } else {
        assert(family_bytes(enc, ops) is Err) by {
            if enc.evex is Some {
                assert(enc.rex is None && enc.vex is None);
                assert(evex_bits(enc.evex->0, ops, implied_bits(enc, ops)) is Err);
            } else if enc.vex is Some {
                assert(enc.rex is None);
                assert(vex_bytes(enc.vex->0, ops, implied_bits(enc, ops)) is Err);
            } else {
                assert(enc.rex is Some);
                assert(rex_bytes(enc.rex->0, ops, implied_bits(enc, ops)) is Err);
            }
        }
    }
}

/// A form without a fault takes only kinds that operands fit, and has a
/// first template that names every operand it has to name.
pub proof fn lemma_faultless(form: FormView)
    requires
        template_fault(form) is None,
    ensures
        !takes_unsupported(form.operands),
        form.encodings.len() > 0,
        operands_consumed(form.operands, form.encodings[0]),
        encoding_fault(form.encodings[0], form.operands) is None,
{
    reveal(template_fault);
}

/// A form whose template is at fault gives no instruction, whatever the
/// operands are.
pub proof fn lemma_fault_is_refusal(form: FormView, ops: Seq<OperandValue>)
    requires
        template_fault(form) is Some,
    ensures
        form_encoding(form, ops) is Err,
{
    reveal(template_fault);
    if signature_admits(form.operands, ops) && form.encodings.len() > 0 && operands_consumed(
        form.operands,
        form.encodings[0],
    ) {
        let enc = form.encodings[0];
        if takes_unsupported(form.operands) {
            let i = choose|i: int|
                0 <= i < form.operands.len() && shape_of(
                    (#[trigger] form.operands[i]).id,
                ) is Unsupported;
            assert(admits(form.operands[i].id, ops[i]));
            assert(false);
        }
        if enc.data_offset is None && families(enc) <= 1 {
            if names_beyond(enc, form.operands.len()) {
                let i = choose|i: u8| i >= form.operands.len() && #[trigger] names_operand(enc, i);
                lemma_beyond_is_refusal(enc, ops, i);
            } else if family_fault(enc, form.operands) is Some {
                if enc.evex is None && takes_rounding(form.operands) {
                    let i = choose|i: int|
                        0 <= i < form.operands.len() && (shape_of(
                            (#[trigger] form.operands[i]).id,
                        ) is Rounding || shape_of(
                            form.operands[i].id,
                        ) is SuppressAllExceptions);
                    assert(admits(form.operands[i].id, ops[i]));
                    assert(ops[i] is Rounding || ops[i] is SuppressAllExceptions);
                    assert(!rounding_expressed(ops, 0, 0));
                }
                assert(family_bytes(enc, ops) is Err);
            } else if opcode_fault(enc.opcodes) is Some {
                assert(opcode_bytes(enc.opcodes, ops) is Err);
            } else if modrm_fault(enc.modrm) is Some {
                assert(modrm_bytes(enc, ops) is Err);
            } else {
                assert(trailer_fault(enc) is Some);
                assert(register_byte_bytes(enc.register_byte, ops) is Err || immediate_bytes(
                    enc.immediate,
                    ops,
                ) is Err || code_offset_bytes(enc.code_offset, ops) is Err);
            }
        }
    }
}

fn find_unsupported(operands: &Vec<Operand>) -> (r: bool)
    ensures
        r == takes_unsupported(operands@),
{
    let mut i: usize = 0;
    while i < operands.len()
        invariant
            i <= operands@.len(),
            forall|k: int|
                0 <= k < i ==> !(shape_of((#[trigger] operands@[k]).id) is Unsupported),
        decreases operands@.len() - i,
    {
        match operand_shape(operands[i].id) {
            Shape::Unsupported => {
                return true;
            },
            _ => {},
        }
        i = i + 1;
    }
    false
}

fn find_rounding(operands: &Vec<Operand>) -> (r: bool)
    ensures
        r == takes_rounding(operands@),
{
    let mut i: usize = 0;
    while i < operands.len()
        invariant
            i <= operands@.len(),
            forall|k: int|
                0 <= k < i ==> !(shape_of((#[trigger] operands@[k]).id) is Rounding || shape_of(
                    operands@[k].id,
                ) is SuppressAllExceptions),
        decreases operands@.len() - i,
    {
        match operand_shape(operands[i].id) {
            Shape::Rounding => {
                return true;
            },
            Shape::SuppressAllExceptions => {
                return true;
            },
            _ => {},
        }
        i = i + 1;
    }
    false
}

fn find_beyond(enc: &Encoding, count: usize) -> (r: bool)
    ensures
        r == names_beyond(enc@, count as nat),
{
    if count > 255 {
        return false;
    }
    let mut i: u8 = count as u8;
    loop
        invariant
            count <= i,
            forall|j: u8| count <= j < i ==> !names_operand(enc@, j),
        ensures
            forall|j: u8| count <= j ==> !names_operand(enc@, j),
        decreases 255 - i,
    {
        if names(enc, i) {
            return true;
        }
        if i == 255 {
            break ;
        }
        i = i + 1;
    }
    false
}

fn check_family(enc: &Encoding, operands: &Vec<Operand>) -> (r: Option<EncodeError>)
    ensures
        r == family_fault(enc@, operands@),
{
    match enc.evex {
        Some(evex) => {
            if evex.mm >= 4 || evex.pp >= 4 {
                Some(EncodeError::BadTemplate)
            } else {
                match evex.LL {
                    LLBitRef::NONE => Some(EncodeError::MissingReference),
                    _ => None,
                }
            }
        },
        None => {
            if find_rounding(operands) {
                Some(EncodeError::Rounding)
            } else {
                match enc.vex {
                    Some(vex) => {
                        let no_escape = match vex.id {
                            VEXType::NONE => true,
                            _ => false,
                        };
                        if no_escape || vex.mmmmm >= 32 || vex.pp >= 4 {
                            Some(EncodeError::BadTemplate)
                        } else {
                            None
                        }
                    },
                    None => None,
                }
            }
        },
    }
}

fn check_opcodes(opcodes: &Vec<Opcode>) -> (r: Option<EncodeError>)
    ensures
        r == opcode_fault(opcodes@),
{
    let n = opcodes.len();
    if n == 0 || n > 3 {
        return Some(EncodeError::BadTemplate);
    }
    let mut i: usize = 0;
    while i < n - 1
        invariant
            n == opcodes@.len(),
            0 < n <= 3,
            i <= n - 1,
            forall|k: int| 0 <= k < i ==> (#[trigger] opcodes@[k]).addend == NoneRef::NONE,
        decreases n - i,
    {
        match opcodes[i].addend {
            NoneRef::NONE => {},
            NoneRef::Ref(_) => {
                assert(early_addend(opcodes@));
                return Some(EncodeError::BadTemplate);
            },
        }
        i = i + 1;
    }
    assert(!early_addend(opcodes@));
    None
}

fn check_modrm(field: &Option<ModRM>) -> (r: Option<EncodeError>)
    ensures
        r == modrm_fault(*field),
{
    match field {
        None => None,
        Some(modrm) => {
            match modrm.reg {
                IntOrRef::NONE => {
                    return Some(EncodeError::MissingReference);
                },
                IntOrRef::Extension(n) => {
                    if n >= 8 {
                        return Some(EncodeError::Unencodable);
                    }
                },
                IntOrRef::Ref(_) => {},
            }
            match modrm.rm {
                NoneRef::NONE => Some(EncodeError::MissingReference),
                NoneRef::Ref(k) => match modrm.mode {
                    AddressMode::NONE => Some(EncodeError::MissingReference),
                    AddressMode::Two => None,
                    AddressMode::Ref(i) => if i != k {
                        Some(EncodeError::BadTemplate)
                    } else {
                        None
                    },
                },
            }
        },
    }
}

fn check_trailer(enc: &Encoding) -> (r: Option<EncodeError>)
    ensures
        r == trailer_fault(enc@),
{
    match enc.register_byte {
        Some(rb) => match rb.register {
            NoneRef::NONE => {
                return Some(EncodeError::MissingReference);
            },
            _ => {},
        },
        None => {},
    }
    match enc.immediate {
        Some(imm) => {
            if !(imm.size == 1 || imm.size == 2 || imm.size == 4 || imm.size == 8) {
                return Some(EncodeError::BadTemplate);
            }
            match imm.value {
                IntOrRef::NONE => {
                    return Some(EncodeError::MissingReference);
                },
                _ => {},
            }
        },
        None => {},
    }
    match enc.code_offset {
        Some(offset) => {
            if !(offset.size == 1 || offset.size == 4) {
                return Some(EncodeError::BadTemplate);
            }
            match offset.value {
                NoneRef::NONE => {
                    return Some(EncodeError::MissingReference);
                },
                _ => {},
            }
        },
        None => {},
    }
    None
}

/// The fault of a form that shows without any operand, if it has one.
pub fn check_template(form: &InstructionForm) -> (r: Option<EncodeError>)
    ensures
        r == template_fault(form@),
{
    proof {
        reveal(template_fault);
    }
    if find_unsupported(&form.operands) {
        return Some(EncodeError::OperandMismatch);
    }
    if form.encodings.len() == 0 {
        return Some(EncodeError::NoTemplate);
    }
    let enc = &form.encodings[0];
    assert(form@.encodings[0] == enc@);
    if !consumed(&form.operands, enc) {
        return Some(EncodeError::UnusedOperand);
    }
    if enc.data_offset.is_some() {
        return Some(EncodeError::DataOffset);
    }
    let count: u8 = as_bit(enc.rex.is_some()) + as_bit(enc.vex.is_some()) + as_bit(
        enc.evex.is_some(),
    );
    if count > 1 {
        return Some(EncodeError::PrefixConflict);
    }
    if find_beyond(enc, form.operands.len()) {
        return Some(EncodeError::BadReference);
    }
    let family = check_family(enc, &form.operands);
    if family.is_some() {
        return family;
    }
    let opcodes = check_opcodes(&enc.opcodes);
    if opcodes.is_some() {
        return opcodes;
    }
    let modrm = check_modrm(&enc.modrm);
    if modrm.is_some() {
        return modrm;
    }
    check_trailer(enc)
}

} // verus!
