use crate::types::{Operand, OperandId};
use vstd::prelude::*;

verus! {

/// The register files of x86-64 that an operand can name.
#[derive(Clone, Copy, Debug, PartialEq, Eq, Structural)]
pub enum RegisterClass {
    Gpr8,
    Gpr16,
    Gpr32,
    Gpr64,
    Mmx,
    Xmm,
    Ymm,
    Zmm,
    Mask,
}

impl RegisterClass {
    /// The number of registers of the class.
    pub open spec fn spec_count(self) -> u8 {
        match self {
            RegisterClass::Gpr8 => 16,
            RegisterClass::Gpr16 => 16,
            RegisterClass::Gpr32 => 16,
            RegisterClass::Gpr64 => 16,
            RegisterClass::Mmx => 8,
            RegisterClass::Xmm => 32,
            RegisterClass::Ymm => 32,
            RegisterClass::Zmm => 32,
            RegisterClass::Mask => 8,
        }
    }

    /// The number of registers of the class.
    #[verifier::when_used_as_spec(spec_count)]
    pub fn count(self) -> (n: u8)
        ensures
            n == self.spec_count(),
    {
        match self {
            RegisterClass::Gpr8 => 16,
            RegisterClass::Gpr16 => 16,
            RegisterClass::Gpr32 => 16,
            RegisterClass::Gpr64 => 16,
            RegisterClass::Mmx => 8,
            RegisterClass::Xmm => 32,
            RegisterClass::Ymm => 32,
            RegisterClass::Zmm => 32,
            RegisterClass::Mask => 8,
        }
    }
}

/// The static rounding modes of AVX-512.
#[derive(Clone, Copy, Debug, PartialEq, Eq, Structural)]
pub enum RoundingMode {
    Nearest,
    Down,
    Up,
    TowardZero,
}

impl RoundingMode {
    /// The two bits that select the mode.
    pub open spec fn spec_code(self) -> u8 {
        match self {
            RoundingMode::Nearest => 0,
            RoundingMode::Down => 1,
            RoundingMode::Up => 2,
            RoundingMode::TowardZero => 3,
        }
    }

    /// The two bits that select the mode.
    #[verifier::when_used_as_spec(spec_code)]
    pub fn code(self) -> (c: u8)
        ensures
            c == self.spec_code(),
    {
        match self {
            RoundingMode::Nearest => 0,
            RoundingMode::Down => 1,
            RoundingMode::Up => 2,
            RoundingMode::TowardZero => 3,
        }
    }
}

/// A register operand: its class and number, and for AVX-512 the mask
/// register that guards it (0 for none) and whether masked lanes are zeroed.
#[derive(Clone, Copy, Debug, PartialEq, Eq, Structural)]
pub struct Register {
    pub class: RegisterClass,
    pub index: u8,
    pub mask: u8,
    pub zeroing: bool,
}

/// The address of a memory operand: `base + index * scale + displacement`.
#[derive(Clone, Copy, Debug, PartialEq, Eq, Structural)]
pub struct Address {
    pub base: Option<u8>,
    pub index: Option<u8>,
    pub scale: u8,
    pub displacement: i32,
}

/// A memory operand. `bits` is the width of the access, or of one element
/// where the operand is broadcast or vector-indexed. `vector_index` is the
/// class of the index register of a vector-indexed operand.
#[derive(Clone, Copy, Debug, PartialEq, Eq, Structural)]
pub struct Memory {
    pub bits: u16,
    pub address: Address,
    pub vector_index: Option<RegisterClass>,
    pub broadcast: bool,
    pub mask: u8,
    pub zeroing: bool,
}

/// A concrete operand of one instruction.
#[derive(Clone, Copy, Debug, PartialEq, Eq, Structural)]
pub enum OperandValue {
    Register(Register),
    Memory(Memory),
    Immediate(i64),
    Relative(i32),
    Rounding(RoundingMode),
    SuppressAllExceptions,
}

/// What an operand kind admits.
#[derive(Clone, Copy, Debug, PartialEq, Eq, Structural)]
pub enum Shape {
    /// A register of a class; one register only where `fixed` names it.
    Register { class: RegisterClass, fixed: Option<u8>, masked: bool, zeroing: bool },
    /// An immediate of a width in bits; one value only where `fixed` names it.
    Immediate { width: u8, fixed: Option<u8> },
    /// A branch offset of a width in bits.
    Relative { width: u8 },
    /// Memory of a width in bits; 0 stands for any width.
    Memory { bits: u16, masked: bool, zeroing: bool },
    /// Memory of `bits`, or one element of `element` bits that is broadcast.
    Broadcast { bits: u16, element: u16 },
    /// Memory addressed through a vector of indices.
    VectorMemory { element: u16, index: RegisterClass, masked: bool },
    SuppressAllExceptions,
    Rounding,
    /// A kind that no concrete operand fits.
    Unsupported,
}

/// What each operand kind of the taxonomy admits.
pub open spec fn shape_of(kind: OperandId) -> Shape {
    match kind {
        OperandId::_1_ => Shape::Immediate { width: 8, fixed: Some(1) },
        OperandId::_3_ => Shape::Immediate { width: 8, fixed: Some(3) },
        OperandId::al => Shape::Register {
            class: RegisterClass::Gpr8,
            fixed: Some(0),
            masked: false,
            zeroing: false,
        },
        OperandId::ax => Shape::Register {
            class: RegisterClass::Gpr16,
            fixed: Some(0),
            masked: false,
            zeroing: false,
        },
        OperandId::eax => Shape::Register {
            class: RegisterClass::Gpr32,
            fixed: Some(0),
            masked: false,
            zeroing: false,
        },
        OperandId::rax => Shape::Register {
            class: RegisterClass::Gpr64,
            fixed: Some(0),
            masked: false,
            zeroing: false,
        },
        OperandId::cl => Shape::Register {
            class: RegisterClass::Gpr8,
            fixed: Some(1),
            masked: false,
            zeroing: false,
        },
        OperandId::xmm0 => Shape::Register {
            class: RegisterClass::Xmm,
            fixed: Some(0),
            masked: false,
            zeroing: false,
        },
        OperandId::rel8 => Shape::Relative { width: 8 },
        OperandId::rel32 => Shape::Relative { width: 32 },
        OperandId::imm4 => Shape::Immediate { width: 4, fixed: None },
        OperandId::imm8 => Shape::Immediate { width: 8, fixed: None },
        OperandId::imm16 => Shape::Immediate { width: 16, fixed: None },
        OperandId::imm32 => Shape::Immediate { width: 32, fixed: None },
        OperandId::imm64 => Shape::Immediate { width: 64, fixed: None },
        OperandId::r8 => Shape::Register {
            class: RegisterClass::Gpr8,
            fixed: None,
            masked: false,
            zeroing: false,
        },
        OperandId::r16 => Shape::Register {
            class: RegisterClass::Gpr16,
            fixed: None,
            masked: false,
            zeroing: false,
        },
        OperandId::r32 => Shape::Register {
            class: RegisterClass::Gpr32,
            fixed: None,
            masked: false,
            zeroing: false,
        },
        OperandId::r64 => Shape::Register {
            class: RegisterClass::Gpr64,
            fixed: None,
            masked: false,
            zeroing: false,
        },
        OperandId::mm => Shape::Register {
            class: RegisterClass::Mmx,
            fixed: None,
            masked: false,
            zeroing: false,
        },
        OperandId::xmm => Shape::Register {
            class: RegisterClass::Xmm,
            fixed: None,
            masked: false,
            zeroing: false,
        },
        OperandId::xmm_k_ => Shape::Register {
            class: RegisterClass::Xmm,
            fixed: None,
            masked: true,
            zeroing: false,
        },
        OperandId::xmm_k_z_ => Shape::Register {
            class: RegisterClass::Xmm,
            fixed: None,
            masked: true,
            zeroing: true,
        },
        OperandId::ymm => Shape::Register {
            class: RegisterClass::Ymm,
            fixed: None,
            masked: false,
            zeroing: false,
        },
        OperandId::ymm_k_ => Shape::Register {
            class: RegisterClass::Ymm,
            fixed: None,
            masked: true,
            zeroing: false,
        },
        OperandId::ymm_k_z_ => Shape::Register {
            class: RegisterClass::Ymm,
            fixed: None,
            masked: true,
            zeroing: true,
        },
        OperandId::zmm => Shape::Register {
            class: RegisterClass::Zmm,
            fixed: None,
            masked: false,
            zeroing: false,
        },
        OperandId::zmm_k_ => Shape::Register {
            class: RegisterClass::Zmm,
            fixed: None,
            masked: true,
            zeroing: false,
        },
        OperandId::zmm_k_z_ => Shape::Register {
            class: RegisterClass::Zmm,
            fixed: None,
            masked: true,
            zeroing: true,
        },
        OperandId::k => Shape::Register {
            class: RegisterClass::Mask,
            fixed: None,
            masked: false,
            zeroing: false,
        },
        OperandId::k_k_ => Shape::Register {
            class: RegisterClass::Mask,
            fixed: None,
            masked: true,
            zeroing: false,
        },
        OperandId::m => Shape::Memory { bits: 0, masked: false, zeroing: false },
        OperandId::m8 => Shape::Memory { bits: 8, masked: false, zeroing: false },
        OperandId::m16 => Shape::Memory { bits: 16, masked: false, zeroing: false },
        OperandId::m16_k_z_ => Shape::Memory { bits: 16, masked: true, zeroing: true },
        OperandId::m32 => Shape::Memory { bits: 32, masked: false, zeroing: false },
        OperandId::m32_k_ => Shape::Memory { bits: 32, masked: true, zeroing: false },
        OperandId::m32_k_z_ => Shape::Memory { bits: 32, masked: true, zeroing: true },
        OperandId::m64 => Shape::Memory { bits: 64, masked: false, zeroing: false },
        OperandId::m64_k_ => Shape::Memory { bits: 64, masked: true, zeroing: false },
        OperandId::m64_k_z_ => Shape::Memory { bits: 64, masked: true, zeroing: true },
        OperandId::m80 => Shape::Memory { bits: 80, masked: false, zeroing: false },
        OperandId::m128 => Shape::Memory { bits: 128, masked: false, zeroing: false },
        OperandId::m128_k_z_ => Shape::Memory { bits: 128, masked: true, zeroing: true },
        OperandId::m256 => Shape::Memory { bits: 256, masked: false, zeroing: false },
        OperandId::m256_k_z_ => Shape::Memory { bits: 256, masked: true, zeroing: true },
        OperandId::m512 => Shape::Memory { bits: 512, masked: false, zeroing: false },
        OperandId::m512_k_z_ => Shape::Memory { bits: 512, masked: true, zeroing: true },
        OperandId::m64__m32bcst => Shape::Broadcast { bits: 64, element: 32 },
        OperandId::m128__m32bcst => Shape::Broadcast { bits: 128, element: 32 },
        OperandId::m256__m32bcst => Shape::Broadcast { bits: 256, element: 32 },
        OperandId::m512__m32bcst => Shape::Broadcast { bits: 512, element: 32 },
        OperandId::m128__m64bcst => Shape::Broadcast { bits: 128, element: 64 },
        OperandId::m256__m64bcst => Shape::Broadcast { bits: 256, element: 64 },
        OperandId::m512__m64bcst => Shape::Broadcast { bits: 512, element: 64 },
        OperandId::moffs32 => Shape::Unsupported,
        OperandId::moffs64 => Shape::Unsupported,
        OperandId::vm32x => Shape::VectorMemory {
            element: 32,
            index: RegisterClass::Xmm,
            masked: false,
        },
        OperandId::vm32x_k_ => Shape::VectorMemory {
            element: 32,
            index: RegisterClass::Xmm,
            masked: true,
        },
        OperandId::vm32y => Shape::VectorMemory {
            element: 32,
            index: RegisterClass::Ymm,
            masked: false,
        },
        OperandId::vm32y_k_ => Shape::VectorMemory {
            element: 32,
            index: RegisterClass::Ymm,
            masked: true,
        },
        OperandId::vm32z => Shape::VectorMemory {
            element: 32,
            index: RegisterClass::Zmm,
            masked: false,
        },
        OperandId::vm32z_k_ => Shape::VectorMemory {
            element: 32,
            index: RegisterClass::Zmm,
            masked: true,
        },
        OperandId::vm64x => Shape::VectorMemory {
            element: 64,
            index: RegisterClass::Xmm,
            masked: false,
        },
        OperandId::vm64x_k_ => Shape::VectorMemory {
            element: 64,
            index: RegisterClass::Xmm,
            masked: true,
        },
        OperandId::vm64y => Shape::VectorMemory {
            element: 64,
            index: RegisterClass::Ymm,
            masked: false,
        },
        OperandId::vm64y_k_ => Shape::VectorMemory {
            element: 64,
            index: RegisterClass::Ymm,
            masked: true,
        },
        OperandId::vm64z => Shape::VectorMemory {
            element: 64,
            index: RegisterClass::Zmm,
            masked: false,
        },
        OperandId::vm64z_k_ => Shape::VectorMemory {
            element: 64,
            index: RegisterClass::Zmm,
            masked: true,
        },
        OperandId::_sae_ => Shape::SuppressAllExceptions,
        OperandId::_er_ => Shape::Rounding,
        OperandId::NONE => Shape::Unsupported,
    }
}

/// What an operand kind admits.
pub fn operand_shape(kind: OperandId) -> (s: Shape)
    ensures
        s == shape_of(kind),
{
    match kind {
        OperandId::_1_ => Shape::Immediate { width: 8, fixed: Some(1) },
        OperandId::_3_ => Shape::Immediate { width: 8, fixed: Some(3) },
        OperandId::al => Shape::Register {
            class: RegisterClass::Gpr8,
            fixed: Some(0),
            masked: false,
            zeroing: false,
        },
        OperandId::ax => Shape::Register {
            class: RegisterClass::Gpr16,
            fixed: Some(0),
            masked: false,
            zeroing: false,
        },
        OperandId::eax => Shape::Register {
            class: RegisterClass::Gpr32,
            fixed: Some(0),
            masked: false,
            zeroing: false,
        },
        OperandId::rax => Shape::Register {
            class: RegisterClass::Gpr64,
            fixed: Some(0),
            masked: false,
            zeroing: false,
        },
        OperandId::cl => Shape::Register {
            class: RegisterClass::Gpr8,
            fixed: Some(1),
            masked: false,
            zeroing: false,
        },
        OperandId::xmm0 => Shape::Register {
            class: RegisterClass::Xmm,
            fixed: Some(0),
            masked: false,
            zeroing: false,
        },
        OperandId::rel8 => Shape::Relative { width: 8 },
        OperandId::rel32 => Shape::Relative { width: 32 },
        OperandId::imm4 => Shape::Immediate { width: 4, fixed: None },
        OperandId::imm8 => Shape::Immediate { width: 8, fixed: None },
        OperandId::imm16 => Shape::Immediate { width: 16, fixed: None },
        OperandId::imm32 => Shape::Immediate { width: 32, fixed: None },
        OperandId::imm64 => Shape::Immediate { width: 64, fixed: None },
        OperandId::r8 => Shape::Register {
            class: RegisterClass::Gpr8,
            fixed: None,
            masked: false,
            zeroing: false,
        },
        OperandId::r16 => Shape::Register {
            class: RegisterClass::Gpr16,
            fixed: None,
            masked: false,
            zeroing: false,
        },
        OperandId::r32 => Shape::Register {
            class: RegisterClass::Gpr32,
            fixed: None,
            masked: false,
            zeroing: false,
        },
        OperandId::r64 => Shape::Register {
            class: RegisterClass::Gpr64,
            fixed: None,
            masked: false,
            zeroing: false,
        },
        OperandId::mm => Shape::Register {
            class: RegisterClass::Mmx,
            fixed: None,
            masked: false,
            zeroing: false,
        },
        OperandId::xmm => Shape::Register {
            class: RegisterClass::Xmm,
            fixed: None,
            masked: false,
            zeroing: false,
        },
        OperandId::xmm_k_ => Shape::Register {
            class: RegisterClass::Xmm,
            fixed: None,
            masked: true,
            zeroing: false,
        },
        OperandId::xmm_k_z_ => Shape::Register {
            class: RegisterClass::Xmm,
            fixed: None,
            masked: true,
            zeroing: true,
        },
        OperandId::ymm => Shape::Register {
            class: RegisterClass::Ymm,
            fixed: None,
            masked: false,
            zeroing: false,
        },
        OperandId::ymm_k_ => Shape::Register {
            class: RegisterClass::Ymm,
            fixed: None,
            masked: true,
            zeroing: false,
        },
        OperandId::ymm_k_z_ => Shape::Register {
            class: RegisterClass::Ymm,
            fixed: None,
            masked: true,
            zeroing: true,
        },
        OperandId::zmm => Shape::Register {
            class: RegisterClass::Zmm,
            fixed: None,
            masked: false,
            zeroing: false,
        },
        OperandId::zmm_k_ => Shape::Register {
            class: RegisterClass::Zmm,
            fixed: None,
            masked: true,
            zeroing: false,
        },
        OperandId::zmm_k_z_ => Shape::Register {
            class: RegisterClass::Zmm,
            fixed: None,
            masked: true,
            zeroing: true,
        },
        OperandId::k => Shape::Register {
            class: RegisterClass::Mask,
            fixed: None,
            masked: false,
            zeroing: false,
        },
        OperandId::k_k_ => Shape::Register {
            class: RegisterClass::Mask,
            fixed: None,
            masked: true,
            zeroing: false,
        },
        OperandId::m => Shape::Memory { bits: 0, masked: false, zeroing: false },
        OperandId::m8 => Shape::Memory { bits: 8, masked: false, zeroing: false },
        OperandId::m16 => Shape::Memory { bits: 16, masked: false, zeroing: false },
        OperandId::m16_k_z_ => Shape::Memory { bits: 16, masked: true, zeroing: true },
        OperandId::m32 => Shape::Memory { bits: 32, masked: false, zeroing: false },
        OperandId::m32_k_ => Shape::Memory { bits: 32, masked: true, zeroing: false },
        OperandId::m32_k_z_ => Shape::Memory { bits: 32, masked: true, zeroing: true },
        OperandId::m64 => Shape::Memory { bits: 64, masked: false, zeroing: false },
        OperandId::m64_k_ => Shape::Memory { bits: 64, masked: true, zeroing: false },
        OperandId::m64_k_z_ => Shape::Memory { bits: 64, masked: true, zeroing: true },
        OperandId::m80 => Shape::Memory { bits: 80, masked: false, zeroing: false },
        OperandId::m128 => Shape::Memory { bits: 128, masked: false, zeroing: false },
        OperandId::m128_k_z_ => Shape::Memory { bits: 128, masked: true, zeroing: true },
        OperandId::m256 => Shape::Memory { bits: 256, masked: false, zeroing: false },
        OperandId::m256_k_z_ => Shape::Memory { bits: 256, masked: true, zeroing: true },
        OperandId::m512 => Shape::Memory { bits: 512, masked: false, zeroing: false },
        OperandId::m512_k_z_ => Shape::Memory { bits: 512, masked: true, zeroing: true },
        OperandId::m64__m32bcst => Shape::Broadcast { bits: 64, element: 32 },
        OperandId::m128__m32bcst => Shape::Broadcast { bits: 128, element: 32 },
        OperandId::m256__m32bcst => Shape::Broadcast { bits: 256, element: 32 },
        OperandId::m512__m32bcst => Shape::Broadcast { bits: 512, element: 32 },
        OperandId::m128__m64bcst => Shape::Broadcast { bits: 128, element: 64 },
        OperandId::m256__m64bcst => Shape::Broadcast { bits: 256, element: 64 },
        OperandId::m512__m64bcst => Shape::Broadcast { bits: 512, element: 64 },
        OperandId::moffs32 => Shape::Unsupported,
        OperandId::moffs64 => Shape::Unsupported,
        OperandId::vm32x => Shape::VectorMemory {
            element: 32,
            index: RegisterClass::Xmm,
            masked: false,
        },
        OperandId::vm32x_k_ => Shape::VectorMemory {
            element: 32,
            index: RegisterClass::Xmm,
            masked: true,
        },
        OperandId::vm32y => Shape::VectorMemory {
            element: 32,
            index: RegisterClass::Ymm,
            masked: false,
        },
        OperandId::vm32y_k_ => Shape::VectorMemory {
            element: 32,
            index: RegisterClass::Ymm,
            masked: true,
        },
        OperandId::vm32z => Shape::VectorMemory {
            element: 32,
            index: RegisterClass::Zmm,
            masked: false,
        },
        OperandId::vm32z_k_ => Shape::VectorMemory {
            element: 32,
            index: RegisterClass::Zmm,
            masked: true,
        },
        OperandId::vm64x => Shape::VectorMemory {
            element: 64,
            index: RegisterClass::Xmm,
            masked: false,
        },
        OperandId::vm64x_k_ => Shape::VectorMemory {
            element: 64,
            index: RegisterClass::Xmm,
            masked: true,
        },
        OperandId::vm64y => Shape::VectorMemory {
            element: 64,
            index: RegisterClass::Ymm,
            masked: false,
        },
        OperandId::vm64y_k_ => Shape::VectorMemory {
            element: 64,
            index: RegisterClass::Ymm,
            masked: true,
        },
        OperandId::vm64z => Shape::VectorMemory {
            element: 64,
            index: RegisterClass::Zmm,
            masked: false,
        },
        OperandId::vm64z_k_ => Shape::VectorMemory {
            element: 64,
            index: RegisterClass::Zmm,
            masked: true,
        },
        OperandId::_sae_ => Shape::SuppressAllExceptions,
        OperandId::_er_ => Shape::Rounding,
        OperandId::NONE => Shape::Unsupported,
    }
}

/// Whether a mask register and a zeroing flag are ones that a kind admits.
pub open spec fn masking_fits(mask: u8, zeroing: bool, masked: bool, may_zero: bool) -> bool {
    &&& mask < 8
    &&& !masked ==> mask == 0
    &&& !may_zero ==> !zeroing
}

/// Whether an address can be encoded: registers that exist, no stack
/// pointer as a scalar index, and a scale of 1, 2, 4 or 8.
pub open spec fn address_fits(address: Address, vector: bool) -> bool {
    &&& address.base matches Some(b) ==> b < 16
    &&& if vector {
        address.index matches Some(i) && i < 32
    } else {
        address.index matches Some(i) ==> i < 16 && i != 4
    }
    &&& address.scale == 1 || address.scale == 2 || address.scale == 4 || address.scale == 8
}

/// The least and the largest immediate of a width: the signed and the
/// unsigned reading of the width are both admitted.
pub open spec fn immediate_fits(value: i64, bits: u8) -> bool {
    if bits == 4 {
        0 <= value < 16
    } else if bits == 8 {
        -0x80 <= value <= 0xff
    } else if bits == 16 {
        -0x8000 <= value <= 0xffff
    } else if bits == 32 {
        -0x8000_0000 <= value <= 0xffff_ffff
    } else {
        bits == 64
    }
}

/// Whether a branch offset fits a signed field of a width.
pub open spec fn relative_fits(value: i32, bits: u8) -> bool {
    if bits == 8 {
        -0x80 <= value <= 0x7f
    } else {
        bits == 32
    }
}

/// Whether a concrete operand is one that the shape admits.
pub open spec fn shape_admits(shape: Shape, value: OperandValue) -> bool {
    match shape {
        Shape::Register { class, fixed, masked, zeroing } => {
            &&& value matches OperandValue::Register(r)
            &&& r.class == class
            &&& r.index < class.spec_count()
            &&& fixed matches Some(n) ==> r.index == n
            &&& masking_fits(r.mask, r.zeroing, masked, zeroing)
        },
        Shape::Immediate { width, fixed } => {
            &&& value matches OperandValue::Immediate(v)
            &&& immediate_fits(v, width)
            &&& fixed matches Some(n) ==> v == n
        },
        Shape::Relative { width } => {
            &&& value matches OperandValue::Relative(v)
            &&& relative_fits(v, width)
        },
        Shape::Memory { bits, masked, zeroing } => {
            &&& value matches OperandValue::Memory(m)
            &&& bits != 0 ==> m.bits == bits
            &&& m.vector_index is None
            &&& !m.broadcast
            &&& address_fits(m.address, false)
            &&& masking_fits(m.mask, m.zeroing, masked, zeroing)
        },
        Shape::Broadcast { bits, element } => {
            &&& value matches OperandValue::Memory(m)
            &&& m.bits == (if m.broadcast {
                element
            } else {
                bits
            })
            &&& m.vector_index is None
            &&& address_fits(m.address, false)
            &&& masking_fits(m.mask, m.zeroing, false, false)
        },
        Shape::VectorMemory { element, index, masked } => {
            &&& value matches OperandValue::Memory(m)
            &&& m.bits == element
            &&& m.vector_index == Some(index)
            &&& !m.broadcast
            &&& address_fits(m.address, true)
            &&& masking_fits(m.mask, m.zeroing, masked, false)
        },
        Shape::SuppressAllExceptions => value is SuppressAllExceptions,
        Shape::Rounding => value is Rounding,
        Shape::Unsupported => false,
    }
}

/// Whether a concrete operand is of the given kind.
pub open spec fn admits(kind: OperandId, value: OperandValue) -> bool {
    shape_admits(shape_of(kind), value)
}

/// Whether concrete operands fit the signature of a form, one by one.
pub open spec fn signature_admits(operands: Seq<Operand>, values: Seq<OperandValue>) -> bool {
    &&& operands.len() == values.len()
    &&& forall|i: int| 0 <= i < operands.len() ==> admits(#[trigger] operands[i].id, values[i])
}

fn masking_ok(mask: u8, zeroing: bool, masked: bool, may_zero: bool) -> (r: bool)
    ensures
        r == masking_fits(mask, zeroing, masked, may_zero),
{
    mask < 8 && (masked || mask == 0) && (may_zero || !zeroing)
}

fn address_ok(address: &Address, vector: bool) -> (r: bool)
    ensures
        r == address_fits(*address, vector),
{
    let base_ok = match address.base {
        Some(b) => b < 16,
        None => true,
    };
    let index_ok = match address.index {
        Some(i) => if vector {
            i < 32
        } else {
            i < 16 && i != 4
        },
        None => !vector,
    };
    let scale_ok = address.scale == 1 || address.scale == 2 || address.scale == 4 || address.scale
        == 8;
    base_ok && index_ok && scale_ok
}

/// Whether an immediate fits a width, read as signed or as unsigned.
pub fn immediate_in_range(value: i64, bits: u8) -> (r: bool)
    ensures
        r == immediate_fits(value, bits),
{
    if bits == 4 {
        0 <= value && value < 16
    } else if bits == 8 {
        -0x80 <= value && value <= 0xff
    } else if bits == 16 {
        -0x8000 <= value && value <= 0xffff
    } else if bits == 32 {
        -0x8000_0000 <= value && value <= 0xffff_ffff
    } else {
        bits == 64
    }
}

/// Whether a branch offset fits a signed field of a width.
pub fn relative_in_range(value: i32, bits: u8) -> (r: bool)
    ensures
        r == relative_fits(value, bits),
{
    if bits == 8 {
        -0x80 <= value && value <= 0x7f
    } else {
        bits == 32
    }
}

/// Whether a concrete operand is of the given kind.
pub fn operand_admitted(kind: OperandId, value: &OperandValue) -> (r: bool)
    ensures
        r == admits(kind, *value),
{
    match operand_shape(kind) {
        Shape::Register { class, fixed, masked, zeroing } => match value {
            OperandValue::Register(r) => {
                let fixed_ok = match fixed {
                    Some(n) => r.index == n,
                    None => true,
                };
                r.class == class && r.index < class.count() && fixed_ok && masking_ok(
                    r.mask,
                    r.zeroing,
                    masked,
                    zeroing,
                )
            },
            _ => false,
        },
        Shape::Immediate { width, fixed } => match value {
            OperandValue::Immediate(v) => {
                let fixed_ok = match fixed {
                    Some(n) => *v == n as i64,
                    None => true,
                };
                immediate_in_range(*v, width) && fixed_ok
            },
            _ => false,
        },
        Shape::Relative { width } => match value {
            OperandValue::Relative(v) => relative_in_range(*v, width),
            _ => false,
        },
        Shape::Memory { bits, masked, zeroing } => match value {
            OperandValue::Memory(m) => (bits == 0 || m.bits == bits) && m.vector_index.is_none()
                && !m.broadcast && address_ok(&m.address, false) && masking_ok(
                m.mask,
                m.zeroing,
                masked,
                zeroing,
            ),
            _ => false,
        },
        Shape::Broadcast { bits, element } => match value {
            OperandValue::Memory(m) => {
                let width: u16 = if m.broadcast {
                    element
                } else {
                    bits
                };
                m.bits == width && m.vector_index.is_none() && address_ok(&m.address, false)
                    && masking_ok(m.mask, m.zeroing, false, false)
            },
            _ => false,
        },
        Shape::VectorMemory { element, index, masked } => match value {
            OperandValue::Memory(m) => {
                let index_ok = match m.vector_index {
                    Some(c) => c == index,
                    None => false,
                };
                m.bits == element && index_ok && !m.broadcast && address_ok(&m.address, true)
                    && masking_ok(m.mask, m.zeroing, masked, false)
            },
            _ => false,
        },
        Shape::SuppressAllExceptions => match value {
            OperandValue::SuppressAllExceptions => true,
            _ => false,
        },
        Shape::Rounding => match value {
            OperandValue::Rounding(_) => true,
            _ => false,
        },
        Shape::Unsupported => false,
    }
}

/// Whether concrete operands fit the signature of a form, one by one.
pub fn signature_admitted(operands: &Vec<Operand>, values: &Vec<OperandValue>) -> (r: bool)
    ensures
        r == signature_admits(operands@, values@),
{
    if operands.len() != values.len() {
        return false;
    }
    let mut i: usize = 0;
    while i < operands.len()
        invariant
            i <= operands@.len(),
            operands@.len() == values@.len(),
            forall|k: int| 0 <= k < i ==> admits(#[trigger] operands@[k].id, values@[k]),
        decreases operands@.len() - i,
    {
        if !operand_admitted(operands[i].id, &values[i]) {
            return false;
        }
        i = i + 1;
    }
    true
}

/// The one operand that a hard-coded kind stands for: its register, without
/// mask, or its value.
pub open spec fn fixed_operand(kind: OperandId) -> Option<OperandValue> {
    match shape_of(kind) {
        Shape::Register { class, fixed: Some(n), .. } => Some(
            OperandValue::Register(Register { class, index: n, mask: 0, zeroing: false }),
        ),
        Shape::Immediate { fixed: Some(n), .. } => Some(OperandValue::Immediate(n as i64)),
        _ => None,
    }
}

/// The one operand that a hard-coded kind stands for; none for another kind.
pub fn fixed_operand_of(kind: OperandId) -> (r: Option<OperandValue>)
    ensures
        r == fixed_operand(kind),
{
    match operand_shape(kind) {
        Shape::Register { class, fixed: Some(n), masked: _, zeroing: _ } => Some(
            OperandValue::Register(Register { class, index: n, mask: 0, zeroing: false }),
        ),
        Shape::Immediate { width: _, fixed: Some(n) } => Some(OperandValue::Immediate(n as i64)),
        _ => None,
    }
}

/// A hard-coded kind admits the operand that it stands for, and no other.
pub proof fn lemma_fixed_operand_admitted(kind: OperandId, other: OperandValue)
    requires
        fixed_operand(kind) is Some,
    ensures
        admits(kind, fixed_operand(kind)->0),
        admits(kind, other) ==> other == fixed_operand(kind)->0,
{
}

} // verus!
