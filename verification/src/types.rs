use crate::text::{parse_radix, radix_value, str_eq};
use vstd::prelude::*;

verus! {

/// The ways in which an instruction-set description can violate its schema.
#[derive(Clone, Copy, Debug, PartialEq, Eq, Structural)]
pub enum ParseErrorKind {
    /// The text is not a JSON document.
    Syntax,
    /// A value has another JSON type than the schema gives it.
    UnexpectedType,
    /// A key that the closed schema does not list.
    UnexpectedKey,
    /// A string outside the closed set of names for its field.
    UnknownEnumerator,
    /// A number that is malformed or outside the values its field admits.
    InvalidNumber,
    /// A displacement scale that is not a power of two.
    NotPowerOfTwo,
    /// A field that the schema requires is absent.
    MissingField,
    /// The document describes another instruction set than x86-64.
    UnsupportedInstructionSet,
}

/// A schema violation as a mathematical value: what went wrong and where.
pub struct ParseFault {
    pub kind: ParseErrorKind,
    pub mnemonic: Option<Seq<char>>,
    pub form: Option<usize>,
    pub field: Option<Seq<char>>,
}

impl ParseFault {
    /// A violation of the given kind of which no place is known yet.
    pub open spec fn of(kind: ParseErrorKind) -> ParseFault {
        ParseFault { kind, mnemonic: None, form: None, field: None }
    }

    /// Records the key under which the violation lies; the innermost key stays.
    pub open spec fn at_field(self, key: Seq<char>) -> ParseFault {
        if self.field is None {
            ParseFault { field: Some(key), ..self }
        } else {
            self
        }
    }

    /// Records the index of the form in which the violation lies.
    pub open spec fn in_form(self, index: usize) -> ParseFault {
        ParseFault { form: Some(index), ..self }
    }

    /// Records the mnemonic in whose description the violation lies.
    pub open spec fn in_mnemonic(self, name: Seq<char>) -> ParseFault {
        ParseFault { mnemonic: Some(name), ..self }
    }
}

/// A fatal error of the model loader. It names the offending mnemonic, form
/// index and field as far as they are known where the error is raised.
#[derive(Debug)]
pub struct ParseInsError {
    pub kind: ParseErrorKind,
    pub mnemonic: Option<String>,
    pub form: Option<usize>,
    pub field: Option<String>,
}

impl View for ParseInsError {
    type V = ParseFault;

    open spec fn view(&self) -> ParseFault {
        ParseFault {
            kind: self.kind,
            mnemonic: match self.mnemonic {
                Some(s) => Some(s@),
                None => None,
            },
            form: self.form,
            field: match self.field {
                Some(s) => Some(s@),
                None => None,
            },
        }
    }
}

/// The message that belongs to each kind of violation.
pub open spec fn kind_message(kind: ParseErrorKind) -> Seq<char> {
    match kind {
        ParseErrorKind::Syntax => "Malformed JSON document"@,
        ParseErrorKind::UnexpectedType => "Unexpected JSON field type"@,
        ParseErrorKind::UnexpectedKey => "Unexpected field in definition"@,
        ParseErrorKind::UnknownEnumerator => "Unknown enumerator"@,
        ParseErrorKind::InvalidNumber => "Invalid number for JSON field type"@,
        ParseErrorKind::NotPowerOfTwo => "Number was not a power of 2"@,
        ParseErrorKind::MissingField => "Missing required field"@,
        ParseErrorKind::UnsupportedInstructionSet => "Unsupported instruction set"@,
    }
}

impl ParseInsError {
    /// An error of the given kind of which no place is known yet.
    pub fn new(kind: ParseErrorKind) -> (e: ParseInsError)
        ensures
            e@ == ParseFault::of(kind),
    {
        ParseInsError { kind, mnemonic: None, form: None, field: None }
    }

    /// Records the key under which the error lies; the innermost key stays.
    pub fn at_field(self, key: &str) -> (e: ParseInsError)
        ensures
            e@ == self@.at_field(key@),
    {
        if self.field.is_none() {
            ParseInsError {
                kind: self.kind,
                mnemonic: self.mnemonic,
                form: self.form,
                field: Some(key.to_owned()),
            }
        } else {
            self
        }
    }

    /// Records the index of the form in which the error lies.
    pub fn in_form(self, index: usize) -> (e: ParseInsError)
        ensures
            e@ == self@.in_form(index),
    {
        ParseInsError {
            kind: self.kind,
            mnemonic: self.mnemonic,
            form: Some(index),
            field: self.field,
        }
    }

    /// Records the mnemonic in whose description the error lies.
    pub fn in_mnemonic(self, name: &str) -> (e: ParseInsError)
        ensures
            e@ == self@.in_mnemonic(name@),
    {
        ParseInsError {
            kind: self.kind,
            mnemonic: Some(name.to_owned()),
            form: self.form,
            field: self.field,
        }
    }

    /// The message that belongs to the kind of the error.
    pub fn description(&self) -> (s: String)
        ensures
            s@ == kind_message(self.kind),
    {
        match self.kind {
            ParseErrorKind::Syntax => "Malformed JSON document".to_owned(),
            ParseErrorKind::UnexpectedType => "Unexpected JSON field type".to_owned(),
            ParseErrorKind::UnexpectedKey => "Unexpected field in definition".to_owned(),
            ParseErrorKind::UnknownEnumerator => "Unknown enumerator".to_owned(),
            ParseErrorKind::InvalidNumber => "Invalid number for JSON field type".to_owned(),
            ParseErrorKind::NotPowerOfTwo => "Number was not a power of 2".to_owned(),
            ParseErrorKind::MissingField => "Missing required field".to_owned(),
            ParseErrorKind::UnsupportedInstructionSet => "Unsupported instruction set".to_owned(),
        }
    }
}

/// A closed set of values, each known to the instruction-set description
/// under one or more names.
pub trait Enumerator: Sized {
    /// The value that `s` names, if it names one.
    spec fn named(s: Seq<char>) -> Option<Self>;

    /// Reads a name of the closed set; any other string is rejected.
    fn from_str(s: &str) -> (r: Result<Self, ParseInsError>)
        ensures
            match r {
                Ok(x) => Self::named(s@) == Some(x),
                Err(e) => Self::named(s@) is None && e@ == ParseFault::of(
                    ParseErrorKind::UnknownEnumerator,
                ),
            },
    ;
}

/// How a form leaves the x87/MMX register file.
#[derive(Clone, Copy, Debug, PartialEq, Eq, Structural)]
pub enum MMXMode {
    FPU,
    MMX,
    NONE,
}

impl Enumerator for MMXMode {
    open spec fn named(s: Seq<char>) -> Option<Self> {
        if s == "FPU"@ {
            Some(MMXMode::FPU)
        } else if s == "MMX"@ {
            Some(MMXMode::MMX)
        } else {
            None
        }
    }

    fn from_str(s: &str) -> (r: Result<Self, ParseInsError>) {
        if str_eq(s, "FPU") {
            Ok(MMXMode::FPU)
        } else if str_eq(s, "MMX") {
            Ok(MMXMode::MMX)
        } else {
            Err(ParseInsError::new(ParseErrorKind::UnknownEnumerator))
        }
    }
}

impl std::str::FromStr for MMXMode {
    type Err = ParseInsError;

    fn from_str(s: &str) -> (r: Result<Self, ParseInsError>) {
        <MMXMode as Enumerator>::from_str(s)
    }
}

/// Whether a form uses the legacy SSE or the AVX state of the vector registers.
#[derive(Clone, Copy, Debug, PartialEq, Eq, Structural)]
pub enum XMMMode {
    SSE,
    AVX,
    NONE,
}

impl Enumerator for XMMMode {
    open spec fn named(s: Seq<char>) -> Option<Self> {
        if s == "SSE"@ {
            Some(XMMMode::SSE)
        } else if s == "AVX"@ {
            Some(XMMMode::AVX)
        } else {
            None
        }
    }

    fn from_str(s: &str) -> (r: Result<Self, ParseInsError>) {
        if str_eq(s, "SSE") {
            Ok(XMMMode::SSE)
        } else if str_eq(s, "AVX") {
            Ok(XMMMode::AVX)
        } else {
            Err(ParseInsError::new(ParseErrorKind::UnknownEnumerator))
        }
    }
}

impl std::str::FromStr for XMMMode {
    type Err = ParseInsError;

    fn from_str(s: &str) -> (r: Result<Self, ParseInsError>) {
        <XMMMode as Enumerator>::from_str(s)
    }
}

/// A register that a form reads or writes without naming it as an operand.
#[derive(Clone, Copy, Debug, PartialEq, Eq, Structural)]
pub enum ImplicitRegister {
    AX,
    AL,
    DX,
    EAX,
    EBX,
    ECX,
    EDX,
    RAX,
    RBX,
    RCX,
    RDI,
    RDX,
    XMM0,
    NONE,
}

impl Enumerator for ImplicitRegister {
    open spec fn named(s: Seq<char>) -> Option<Self> {
        if s == "ax"@ {
            Some(ImplicitRegister::AX)
        } else if s == "al"@ {
            Some(ImplicitRegister::AL)
        } else if s == "dx"@ {
            Some(ImplicitRegister::DX)
        } else if s == "eax"@ {
            Some(ImplicitRegister::EAX)
        } else if s == "ebx"@ {
            Some(ImplicitRegister::EBX)
        } else if s == "ecx"@ {
            Some(ImplicitRegister::ECX)
        } else if s == "edx"@ {
            Some(ImplicitRegister::EDX)
        } else if s == "rax"@ {
            Some(ImplicitRegister::RAX)
        } else if s == "rbx"@ {
            Some(ImplicitRegister::RBX)
        } else if s == "rcx"@ {
            Some(ImplicitRegister::RCX)
        } else if s == "rdx"@ {
            Some(ImplicitRegister::RDX)
        } else if s == "rdi"@ {
            Some(ImplicitRegister::RDI)
        } else if s == "xmm0"@ {
            Some(ImplicitRegister::XMM0)
        } else {
            None
        }
    }

    fn from_str(s: &str) -> (r: Result<Self, ParseInsError>) {
        if str_eq(s, "ax") {
            Ok(ImplicitRegister::AX)
        } else if str_eq(s, "al") {
            Ok(ImplicitRegister::AL)
        } else if str_eq(s, "dx") {
            Ok(ImplicitRegister::DX)
        } else if str_eq(s, "eax") {
            Ok(ImplicitRegister::EAX)
        } else if str_eq(s, "ebx") {
            Ok(ImplicitRegister::EBX)
        } else if str_eq(s, "ecx") {
            Ok(ImplicitRegister::ECX)
        } else if str_eq(s, "edx") {
            Ok(ImplicitRegister::EDX)
        } else if str_eq(s, "rax") {
            Ok(ImplicitRegister::RAX)
        } else if str_eq(s, "rbx") {
            Ok(ImplicitRegister::RBX)
        } else if str_eq(s, "rcx") {
            Ok(ImplicitRegister::RCX)
        } else if str_eq(s, "rdx") {
            Ok(ImplicitRegister::RDX)
        } else if str_eq(s, "rdi") {
            Ok(ImplicitRegister::RDI)
        } else if str_eq(s, "xmm0") {
            Ok(ImplicitRegister::XMM0)
        } else {
            Err(ParseInsError::new(ParseErrorKind::UnknownEnumerator))
        }
    }
}

impl std::str::FromStr for ImplicitRegister {
    type Err = ParseInsError;

    fn from_str(s: &str) -> (r: Result<Self, ParseInsError>) {
        <ImplicitRegister as Enumerator>::from_str(s)
    }
}

/// The closed taxonomy of operand kinds. `NONE` marks an operand whose kind
/// has not been set; no parsed operand carries it.
#[allow(non_camel_case_types)]
#[derive(Clone, Copy, Debug, PartialEq, Eq, Structural)]
pub enum OperandId {
    _1_,
    _3_,
    al,
    ax,
    eax,
    rax,
    cl,
    xmm0,
    rel8,
    rel32,
    imm4,
    imm8,
    imm16,
    imm32,
    imm64,
    r8,
    r16,
    r32,
    r64,
    mm,
    xmm,
    xmm_k_,
    xmm_k_z_,
    ymm,
    ymm_k_,
    ymm_k_z_,
    zmm,
    zmm_k_,
    zmm_k_z_,
    k,
    k_k_,
    m,
    m8,
    m16,
    m16_k_z_,
    m32,
    m32_k_,
    m32_k_z_,
    m64,
    m64_k_,
    m64_k_z_,
    m80,
    m128,
    m128_k_z_,
    m256,
    m256_k_z_,
    m512,
    m512_k_z_,
    m64__m32bcst,
    m128__m32bcst,
    m256__m32bcst,
    m512__m32bcst,
    m128__m64bcst,
    m256__m64bcst,
    m512__m64bcst,
    moffs32,
    moffs64,
    vm32x,
    vm32x_k_,
    vm32y,
    vm32y_k_,
    vm32z,
    vm32z_k_,
    vm64x,
    vm64x_k_,
    vm64y,
    vm64y_k_,
    vm64z,
    vm64z_k_,
    _sae_,
    _er_,
    NONE,
}

impl Enumerator for OperandId {
    open spec fn named(s: Seq<char>) -> Option<Self> {
        if s == "1"@ {
            Some(OperandId::_1_)
        } else if s == "3"@ {
            Some(OperandId::_3_)
        } else if s == "al"@ {
            Some(OperandId::al)
        } else if s == "ax"@ {
            Some(OperandId::ax)
        } else if s == "eax"@ {
            Some(OperandId::eax)
        } else if s == "rax"@ {
            Some(OperandId::rax)
        } else if s == "cl"@ {
            Some(OperandId::cl)
        } else if s == "xmm0"@ {
            Some(OperandId::xmm0)
        } else if s == "rel8"@ {
            Some(OperandId::rel8)
        } else if s == "rel32"@ {
            Some(OperandId::rel32)
        } else if s == "imm4"@ {
            Some(OperandId::imm4)
        } else if s == "imm8"@ {
            Some(OperandId::imm8)
        } else if s == "imm16"@ {
            Some(OperandId::imm16)
        } else if s == "imm32"@ {
            Some(OperandId::imm32)
        } else if s == "imm64"@ {
            Some(OperandId::imm64)
        } else if s == "r8"@ {
            Some(OperandId::r8)
        } else if s == "r16"@ {
            Some(OperandId::r16)
        } else if s == "r32"@ {
            Some(OperandId::r32)
        } else if s == "r64"@ {
            Some(OperandId::r64)
        } else if s == "mm"@ {
            Some(OperandId::mm)
        } else if s == "xmm"@ {
            Some(OperandId::xmm)
        } else if s == "xmm{k}"@ {
            Some(OperandId::xmm_k_)
        } else if s == "xmm{k}{z}"@ {
            Some(OperandId::xmm_k_z_)
        } else if s == "ymm"@ {
            Some(OperandId::ymm)
        } else if s == "ymm{k}"@ {
            Some(OperandId::ymm_k_)
        } else if s == "ymm{k}{z}"@ {
            Some(OperandId::ymm_k_z_)
        } else if s == "zmm"@ {
            Some(OperandId::zmm)
        } else if s == "zmm{k}"@ {
            Some(OperandId::zmm_k_)
        } else if s == "zmm{k}{z}"@ {
            Some(OperandId::zmm_k_z_)
        } else if s == "k"@ {
            Some(OperandId::k)
        } else if s == "k{k}"@ {
            Some(OperandId::k_k_)
        } else if s == "m"@ {
            Some(OperandId::m)
        } else if s == "m8"@ {
            Some(OperandId::m8)
        } else if s == "m16"@ {
            Some(OperandId::m16)
        } else if s == "m16{k}{z}"@ {
            Some(OperandId::m16_k_z_)
        } else if s == "m32"@ {
            Some(OperandId::m32)
        } else if s == "m32{k}"@ {
            Some(OperandId::m32_k_)
        } else if s == "m32{k}{z}"@ {
            Some(OperandId::m32_k_z_)
        } else if s == "m64"@ {
            Some(OperandId::m64)
        } else if s == "m64{k}"@ {
            Some(OperandId::m64_k_)
        } else if s == "m64{k}{z}"@ {
            Some(OperandId::m64_k_z_)
        } else if s == "m80"@ {
            Some(OperandId::m80)
        } else if s == "m128"@ {
            Some(OperandId::m128)
        } else if s == "m128{k}{z}"@ {
            Some(OperandId::m128_k_z_)
        } else if s == "m256"@ {
            Some(OperandId::m256)
        } else if s == "m256{k}{z}"@ {
            Some(OperandId::m256_k_z_)
        } else if s == "m512"@ {
            Some(OperandId::m512)
        } else if s == "m512{k}{z}"@ {
            Some(OperandId::m512_k_z_)
        } else if s == "m64/m32bcst"@ {
            Some(OperandId::m64__m32bcst)
        } else if s == "m128/m32bcst"@ {
            Some(OperandId::m128__m32bcst)
        } else if s == "m256/m32bcst"@ {
            Some(OperandId::m256__m32bcst)
        } else if s == "m512/m32bcst"@ {
            Some(OperandId::m512__m32bcst)
        } else if s == "m128/m64bcst"@ {
            Some(OperandId::m128__m64bcst)
        } else if s == "m256/m64bcst"@ {
            Some(OperandId::m256__m64bcst)
        } else if s == "m512/m64bcst"@ {
            Some(OperandId::m512__m64bcst)
        } else if s == "moffs32"@ {
            Some(OperandId::moffs32)
        } else if s == "moffs64"@ {
            Some(OperandId::moffs64)
        } else if s == "vm32x"@ {
            Some(OperandId::vm32x)
        } else if s == "vm32x{k}"@ {
            Some(OperandId::vm32x_k_)
        } else if s == "vm32y"@ {
            Some(OperandId::vm32y)
        } else if s == "vm32y{k}"@ {
            Some(OperandId::vm32y_k_)
        } else if s == "vm32z"@ {
            Some(OperandId::vm32z)
        } else if s == "vm32z{k}"@ {
            Some(OperandId::vm32z_k_)
        } else if s == "vm64x"@ {
            Some(OperandId::vm64x)
        } else if s == "vm64x{k}"@ {
            Some(OperandId::vm64x_k_)
        } else if s == "vm64y"@ {
            Some(OperandId::vm64y)
        } else if s == "vm64y{k}"@ {
            Some(OperandId::vm64y_k_)
        } else if s == "vm64z"@ {
            Some(OperandId::vm64z)
        } else if s == "vm64z{k}"@ {
            Some(OperandId::vm64z_k_)
        } else if s == "{sae}"@ {
            Some(OperandId::_sae_)
        } else if s == "{er}"@ {
            Some(OperandId::_er_)
        } else {
            None
        }
    }

    fn from_str(s: &str) -> (r: Result<Self, ParseInsError>) {
        if str_eq(s, "1") {
            Ok(OperandId::_1_)
        } else if str_eq(s, "3") {
            Ok(OperandId::_3_)
        } else if str_eq(s, "al") {
            Ok(OperandId::al)
        } else if str_eq(s, "ax") {
            Ok(OperandId::ax)
        } else if str_eq(s, "eax") {
            Ok(OperandId::eax)
        } else if str_eq(s, "rax") {
            Ok(OperandId::rax)
        } else if str_eq(s, "cl") {
            Ok(OperandId::cl)
        } else if str_eq(s, "xmm0") {
            Ok(OperandId::xmm0)
        } else if str_eq(s, "rel8") {
            Ok(OperandId::rel8)
        } else if str_eq(s, "rel32") {
            Ok(OperandId::rel32)
        } else if str_eq(s, "imm4") {
            Ok(OperandId::imm4)
        } else if str_eq(s, "imm8") {
            Ok(OperandId::imm8)
        } else if str_eq(s, "imm16") {
            Ok(OperandId::imm16)
        } else if str_eq(s, "imm32") {
            Ok(OperandId::imm32)
        } else if str_eq(s, "imm64") {
            Ok(OperandId::imm64)
        } else if str_eq(s, "r8") {
            Ok(OperandId::r8)
        } else if str_eq(s, "r16") {
            Ok(OperandId::r16)
        } else if str_eq(s, "r32") {
            Ok(OperandId::r32)
        } else if str_eq(s, "r64") {
            Ok(OperandId::r64)
        } else if str_eq(s, "mm") {
            Ok(OperandId::mm)
        } else if str_eq(s, "xmm") {
            Ok(OperandId::xmm)
        } else if str_eq(s, "xmm{k}") {
            Ok(OperandId::xmm_k_)
        } else if str_eq(s, "xmm{k}{z}") {
            Ok(OperandId::xmm_k_z_)
        } else if str_eq(s, "ymm") {
            Ok(OperandId::ymm)
        } else if str_eq(s, "ymm{k}") {
            Ok(OperandId::ymm_k_)
        } else if str_eq(s, "ymm{k}{z}") {
            Ok(OperandId::ymm_k_z_)
        } else if str_eq(s, "zmm") {
            Ok(OperandId::zmm)
        } else if str_eq(s, "zmm{k}") {
            Ok(OperandId::zmm_k_)
        } else if str_eq(s, "zmm{k}{z}") {
            Ok(OperandId::zmm_k_z_)
        } else if str_eq(s, "k") {
            Ok(OperandId::k)
        } else if str_eq(s, "k{k}") {
            Ok(OperandId::k_k_)
        } else if str_eq(s, "m") {
            Ok(OperandId::m)
        } else if str_eq(s, "m8") {
            Ok(OperandId::m8)
        } else if str_eq(s, "m16") {
            Ok(OperandId::m16)
        } else if str_eq(s, "m16{k}{z}") {
            Ok(OperandId::m16_k_z_)
        } else if str_eq(s, "m32") {
            Ok(OperandId::m32)
        } else if str_eq(s, "m32{k}") {
            Ok(OperandId::m32_k_)
        } else if str_eq(s, "m32{k}{z}") {
            Ok(OperandId::m32_k_z_)
        } else if str_eq(s, "m64") {
            Ok(OperandId::m64)
        } else if str_eq(s, "m64{k}") {
            Ok(OperandId::m64_k_)
        } else if str_eq(s, "m64{k}{z}") {
            Ok(OperandId::m64_k_z_)
        } else if str_eq(s, "m80") {
            Ok(OperandId::m80)
        } else if str_eq(s, "m128") {
            Ok(OperandId::m128)
        } else if str_eq(s, "m128{k}{z}") {
            Ok(OperandId::m128_k_z_)
        } else if str_eq(s, "m256") {
            Ok(OperandId::m256)
        } else if str_eq(s, "m256{k}{z}") {
            Ok(OperandId::m256_k_z_)
        } else if str_eq(s, "m512") {
            Ok(OperandId::m512)
        } else if str_eq(s, "m512{k}{z}") {
            Ok(OperandId::m512_k_z_)
        } else if str_eq(s, "m64/m32bcst") {
            Ok(OperandId::m64__m32bcst)
        } else if str_eq(s, "m128/m32bcst") {
            Ok(OperandId::m128__m32bcst)
        } else if str_eq(s, "m256/m32bcst") {
            Ok(OperandId::m256__m32bcst)
        } else if str_eq(s, "m512/m32bcst") {
            Ok(OperandId::m512__m32bcst)
        } else if str_eq(s, "m128/m64bcst") {
            Ok(OperandId::m128__m64bcst)
        } else if str_eq(s, "m256/m64bcst") {
            Ok(OperandId::m256__m64bcst)
        } else if str_eq(s, "m512/m64bcst") {
            Ok(OperandId::m512__m64bcst)
        } else if str_eq(s, "moffs32") {
            Ok(OperandId::moffs32)
        } else if str_eq(s, "moffs64") {
            Ok(OperandId::moffs64)
        } else if str_eq(s, "vm32x") {
            Ok(OperandId::vm32x)
        } else if str_eq(s, "vm32x{k}") {
            Ok(OperandId::vm32x_k_)
        } else if str_eq(s, "vm32y") {
            Ok(OperandId::vm32y)
        } else if str_eq(s, "vm32y{k}") {
            Ok(OperandId::vm32y_k_)
        } else if str_eq(s, "vm32z") {
            Ok(OperandId::vm32z)
        } else if str_eq(s, "vm32z{k}") {
            Ok(OperandId::vm32z_k_)
        } else if str_eq(s, "vm64x") {
            Ok(OperandId::vm64x)
        } else if str_eq(s, "vm64x{k}") {
            Ok(OperandId::vm64x_k_)
        } else if str_eq(s, "vm64y") {
            Ok(OperandId::vm64y)
        } else if str_eq(s, "vm64y{k}") {
            Ok(OperandId::vm64y_k_)
        } else if str_eq(s, "vm64z") {
            Ok(OperandId::vm64z)
        } else if str_eq(s, "vm64z{k}") {
            Ok(OperandId::vm64z_k_)
        } else if str_eq(s, "{sae}") {
            Ok(OperandId::_sae_)
        } else if str_eq(s, "{er}") {
            Ok(OperandId::_er_)
        } else {
            Err(ParseInsError::new(ParseErrorKind::UnknownEnumerator))
        }
    }
}

impl std::str::FromStr for OperandId {
    type Err = ParseInsError;

    fn from_str(s: &str) -> (r: Result<Self, ParseInsError>) {
        <OperandId as Enumerator>::from_str(s)
    }
}

/// A literal bit of a prefix; `NONE` where the template leaves it out.
#[derive(Clone, Copy, Debug, PartialEq, Eq, Structural)]
pub enum Bit {
    Zero,
    One,
    NONE,
}

impl Enumerator for Bit {
    open spec fn named(s: Seq<char>) -> Option<Self> {
        if s == "0"@ {
            Some(Bit::Zero)
        } else if s == "1"@ {
            Some(Bit::One)
        } else {
            None
        }
    }

    fn from_str(s: &str) -> (r: Result<Self, ParseInsError>) {
        if str_eq(s, "0") {
            Ok(Bit::Zero)
        } else if str_eq(s, "1") {
            Ok(Bit::One)
        } else {
            Err(ParseInsError::new(ParseErrorKind::UnknownEnumerator))
        }
    }
}

impl std::str::FromStr for Bit {
    type Err = ParseInsError;

    fn from_str(s: &str) -> (r: Result<Self, ParseInsError>) {
        <Bit as Enumerator>::from_str(s)
    }
}

/// A bit that is literal or taken from an operand; `NONE` where the prefix
/// shape does not use it.
#[derive(Clone, Copy, Debug, PartialEq, Eq, Structural)]
pub enum BitRef {
    Zero,
    One,
    Ref(u8),
    NONE,
}

impl Enumerator for BitRef {
    open spec fn named(s: Seq<char>) -> Option<Self> {
        if s == "0"@ {
            Some(BitRef::Zero)
        } else if s == "1"@ {
            Some(BitRef::One)
        } else if s == "#0"@ {
            Some(BitRef::Ref(0))
        } else if s == "#1"@ {
            Some(BitRef::Ref(1))
        } else if s == "#2"@ {
            Some(BitRef::Ref(2))
        } else if s == "#3"@ {
            Some(BitRef::Ref(3))
        } else {
            None
        }
    }

    fn from_str(s: &str) -> (r: Result<Self, ParseInsError>) {
        if str_eq(s, "0") {
            Ok(BitRef::Zero)
        } else if str_eq(s, "1") {
            Ok(BitRef::One)
        } else if str_eq(s, "#0") {
            Ok(BitRef::Ref(0))
        } else if str_eq(s, "#1") {
            Ok(BitRef::Ref(1))
        } else if str_eq(s, "#2") {
            Ok(BitRef::Ref(2))
        } else if str_eq(s, "#3") {
            Ok(BitRef::Ref(3))
        } else {
            Err(ParseInsError::new(ParseErrorKind::UnknownEnumerator))
        }
    }
}

impl std::str::FromStr for BitRef {
    type Err = ParseInsError;

    fn from_str(s: &str) -> (r: Result<Self, ParseInsError>) {
        <BitRef as Enumerator>::from_str(s)
    }
}

/// A field that is zero unless an operand drives it. `EVEX_b_ONE` is the
/// constant one that only the expansion of rounding forms puts on `EVEX.b`.
#[allow(non_camel_case_types)]
#[derive(Clone, Copy, Debug, PartialEq, Eq, Structural)]
pub enum ZeroRef {
    Zero,
    Ref(u8),
    NONE,
    EVEX_b_ONE,
}

impl Enumerator for ZeroRef {
    open spec fn named(s: Seq<char>) -> Option<Self> {
        if s == "0"@ {
            Some(ZeroRef::Zero)
        } else if s == "000"@ {
            Some(ZeroRef::Zero)
        } else if s == "0000"@ {
            Some(ZeroRef::Zero)
        } else if s == "#0"@ {
            Some(ZeroRef::Ref(0))
        } else if s == "#1"@ {
            Some(ZeroRef::Ref(1))
        } else if s == "#2"@ {
            Some(ZeroRef::Ref(2))
        } else if s == "#3"@ {
            Some(ZeroRef::Ref(3))
        } else {
            None
        }
    }

    fn from_str(s: &str) -> (r: Result<Self, ParseInsError>) {
        if str_eq(s, "0") {
            Ok(ZeroRef::Zero)
        } else if str_eq(s, "000") {
            Ok(ZeroRef::Zero)
        } else if str_eq(s, "0000") {
            Ok(ZeroRef::Zero)
        } else if str_eq(s, "#0") {
            Ok(ZeroRef::Ref(0))
        } else if str_eq(s, "#1") {
            Ok(ZeroRef::Ref(1))
        } else if str_eq(s, "#2") {
            Ok(ZeroRef::Ref(2))
        } else if str_eq(s, "#3") {
            Ok(ZeroRef::Ref(3))
        } else {
            Err(ParseInsError::new(ParseErrorKind::UnknownEnumerator))
        }
    }
}

impl std::str::FromStr for ZeroRef {
    type Err = ParseInsError;

    fn from_str(s: &str) -> (r: Result<Self, ParseInsError>) {
        <ZeroRef as Enumerator>::from_str(s)
    }
}

/// The escape that opens a VEX-shaped prefix.
#[derive(Clone, Copy, Debug, PartialEq, Eq, Structural)]
pub enum VEXType {
    VEX,
    XOP,
    NONE,
}

impl Enumerator for VEXType {
    open spec fn named(s: Seq<char>) -> Option<Self> {
        if s == "VEX"@ {
            Some(VEXType::VEX)
        } else if s == "XOP"@ {
            Some(VEXType::XOP)
        } else {
            None
        }
    }

    fn from_str(s: &str) -> (r: Result<Self, ParseInsError>) {
        if str_eq(s, "VEX") {
            Ok(VEXType::VEX)
        } else if str_eq(s, "XOP") {
            Ok(VEXType::XOP)
        } else {
            Err(ParseInsError::new(ParseErrorKind::UnknownEnumerator))
        }
    }
}

impl std::str::FromStr for VEXType {
    type Err = ParseInsError;

    fn from_str(s: &str) -> (r: Result<Self, ParseInsError>) {
        <VEXType as Enumerator>::from_str(s)
    }
}

/// The two-bit vector length of EVEX: a literal, or the length of an operand.
#[derive(Clone, Copy, Debug, PartialEq, Eq, Structural)]
pub enum LLBitRef {
    Zero,
    One,
    Two,
    LastRef(u8),
    NONE,
}

impl Enumerator for LLBitRef {
    open spec fn named(s: Seq<char>) -> Option<Self> {
        if s == "00"@ {
            Some(LLBitRef::Zero)
        } else if s == "01"@ {
            Some(LLBitRef::One)
        } else if s == "10"@ {
            Some(LLBitRef::Two)
        } else if s == "#2"@ {
            Some(LLBitRef::LastRef(2))
        } else if s == "#3"@ {
            Some(LLBitRef::LastRef(3))
        } else {
            None
        }
    }

    fn from_str(s: &str) -> (r: Result<Self, ParseInsError>) {
        if str_eq(s, "00") {
            Ok(LLBitRef::Zero)
        } else if str_eq(s, "01") {
            Ok(LLBitRef::One)
        } else if str_eq(s, "10") {
            Ok(LLBitRef::Two)
        } else if str_eq(s, "#2") {
            Ok(LLBitRef::LastRef(2))
        } else if str_eq(s, "#3") {
            Ok(LLBitRef::LastRef(3))
        } else {
            Err(ParseInsError::new(ParseErrorKind::UnknownEnumerator))
        }
    }
}

impl std::str::FromStr for LLBitRef {
    type Err = ParseInsError;

    fn from_str(s: &str) -> (r: Result<Self, ParseInsError>) {
        <LLBitRef as Enumerator>::from_str(s)
    }
}

/// A field that is absent unless an operand fills it.
#[derive(Clone, Copy, Debug, PartialEq, Eq, Structural)]
pub enum NoneRef {
    NONE,
    Ref(u8),
}

impl Enumerator for NoneRef {
    open spec fn named(s: Seq<char>) -> Option<Self> {
        if s == "#0"@ {
            Some(NoneRef::Ref(0))
        } else if s == "#1"@ {
            Some(NoneRef::Ref(1))
        } else if s == "#2"@ {
            Some(NoneRef::Ref(2))
        } else if s == "#3"@ {
            Some(NoneRef::Ref(3))
        } else if s == "#4"@ {
            Some(NoneRef::Ref(4))
        } else {
            None
        }
    }

    fn from_str(s: &str) -> (r: Result<Self, ParseInsError>) {
        if str_eq(s, "#0") {
            Ok(NoneRef::Ref(0))
        } else if str_eq(s, "#1") {
            Ok(NoneRef::Ref(1))
        } else if str_eq(s, "#2") {
            Ok(NoneRef::Ref(2))
        } else if str_eq(s, "#3") {
            Ok(NoneRef::Ref(3))
        } else if str_eq(s, "#4") {
            Ok(NoneRef::Ref(4))
        } else {
            Err(ParseInsError::new(ParseErrorKind::UnknownEnumerator))
        }
    }
}

impl std::str::FromStr for NoneRef {
    type Err = ParseInsError;

    fn from_str(s: &str) -> (r: Result<Self, ParseInsError>) {
        <NoneRef as Enumerator>::from_str(s)
    }
}

/// The `mod` bits of ModR/M: register-direct, or the addressing mode of a
/// memory operand.
#[derive(Clone, Copy, Debug, PartialEq, Eq, Structural)]
pub enum AddressMode {
    Two,
    Ref(u8),
    NONE,
}

impl Enumerator for AddressMode {
    open spec fn named(s: Seq<char>) -> Option<Self> {
        if s == "11"@ {
            Some(AddressMode::Two)
        } else if s == "#0"@ {
            Some(AddressMode::Ref(0))
        } else if s == "#1"@ {
            Some(AddressMode::Ref(1))
        } else if s == "#2"@ {
            Some(AddressMode::Ref(2))
        } else if s == "#3"@ {
            Some(AddressMode::Ref(3))
        } else {
            None
        }
    }

    fn from_str(s: &str) -> (r: Result<Self, ParseInsError>) {
        if str_eq(s, "11") {
            Ok(AddressMode::Two)
        } else if str_eq(s, "#0") {
            Ok(AddressMode::Ref(0))
        } else if str_eq(s, "#1") {
            Ok(AddressMode::Ref(1))
        } else if str_eq(s, "#2") {
            Ok(AddressMode::Ref(2))
        } else if str_eq(s, "#3") {
            Ok(AddressMode::Ref(3))
        } else {
            Err(ParseInsError::new(ParseErrorKind::UnknownEnumerator))
        }
    }
}

impl std::str::FromStr for AddressMode {
    type Err = ParseInsError;

    fn from_str(s: &str) -> (r: Result<Self, ParseInsError>) {
        <AddressMode as Enumerator>::from_str(s)
    }
}

/// An integer written into the field, or the operand that fills it.
#[derive(Clone, Copy, Debug, PartialEq, Eq, Structural)]
pub enum IntOrRef {
    Extension(u8),
    Ref(u8),
    NONE,
}

impl Enumerator for IntOrRef {
    /// A decimal number that fits a byte is an integer; `#0` to `#4` are operands.
    open spec fn named(s: Seq<char>) -> Option<Self> {
        match radix_value(s, 10) {
            Some(n) => Some(IntOrRef::Extension(n)),
            None => {
                if s == "#0"@ {
                    Some(IntOrRef::Ref(0))
                } else if s == "#1"@ {
                    Some(IntOrRef::Ref(1))
                } else if s == "#2"@ {
                    Some(IntOrRef::Ref(2))
                } else if s == "#3"@ {
                    Some(IntOrRef::Ref(3))
                } else if s == "#4"@ {
                    Some(IntOrRef::Ref(4))
                } else {
                    None
                }
            },
        }
    }

    fn from_str(s: &str) -> (r: Result<Self, ParseInsError>) {
        match parse_radix(s, 10) {
            Some(n) => Ok(IntOrRef::Extension(n)),
            None => {
                if str_eq(s, "#0") {
                    Ok(IntOrRef::Ref(0))
                } else if str_eq(s, "#1") {
                    Ok(IntOrRef::Ref(1))
                } else if str_eq(s, "#2") {
                    Ok(IntOrRef::Ref(2))
                } else if str_eq(s, "#3") {
                    Ok(IntOrRef::Ref(3))
                } else if str_eq(s, "#4") {
                    Ok(IntOrRef::Ref(4))
                } else {
                    Err(ParseInsError::new(ParseErrorKind::UnknownEnumerator))
                }
            },
        }
    }
}

impl std::str::FromStr for IntOrRef {
    type Err = ParseInsError;

    fn from_str(s: &str) -> (r: Result<Self, ParseInsError>) {
        <IntOrRef as Enumerator>::from_str(s)
    }
}

/// The instruction-set extensions that a form may require.
#[derive(Clone, Copy, Debug, PartialEq, Eq, Structural)]
pub enum ISA {
    CPUID,
    RDTSC,
    RDTSCP,
    CMOV,
    MOVBE,
    POPCNT,
    LZCNT,
    TBM,
    BMI,
    BMI2,
    ADX,
    MMX,
    MMXPLUS,
    FEMMS,
    NOW3D,
    NOW3DPLUS,
    SSE,
    SSE2,
    SSE3,
    SSSE3,
    SSE4A,
    SSE41,
    SSE42,
    FMA3,
    FMA4,
    XOP,
    F16C,
    AVX,
    AVX2,
    AVX512F,
    AVX512BW,
    AVX512DQ,
    AVX512VL,
    AVX512PF,
    AVX512ER,
    AVX512CD,
    AVX512VBMI,
    AVX512IFMA,
    RDRAND,
    RDSEED,
    PCLMULQDQ,
    AES,
    SHA,
    UNSUPPORTED,
    PRFCHW,
    PREFETCHWT1,
}

impl Enumerator for ISA {
    open spec fn named(s: Seq<char>) -> Option<Self> {
        if s == "CPUID"@ {
            Some(ISA::CPUID)
        } else if s == "RDTSC"@ {
            Some(ISA::RDTSC)
        } else if s == "RDTSCP"@ {
            Some(ISA::RDTSCP)
        } else if s == "CMOV"@ {
            Some(ISA::CMOV)
        } else if s == "MOVBE"@ {
            Some(ISA::MOVBE)
        } else if s == "POPCNT"@ {
            Some(ISA::POPCNT)
        } else if s == "LZCNT"@ {
            Some(ISA::LZCNT)
        } else if s == "TBM"@ {
            Some(ISA::TBM)
        } else if s == "BMI"@ {
            Some(ISA::BMI)
        } else if s == "BMI2"@ {
            Some(ISA::BMI2)
        } else if s == "ADX"@ {
            Some(ISA::ADX)
        } else if s == "MMX"@ {
            Some(ISA::MMX)
        } else if s == "MMX+"@ {
            Some(ISA::MMXPLUS)
        } else if s == "FEMMS"@ {
            Some(ISA::FEMMS)
        } else if s == "3dnow!"@ {
            Some(ISA::NOW3D)
        } else if s == "3dnow!+"@ {
            Some(ISA::NOW3DPLUS)
        } else if s == "SSE"@ {
            Some(ISA::SSE)
        } else if s == "SSE2"@ {
            Some(ISA::SSE2)
        } else if s == "SSE3"@ {
            Some(ISA::SSE3)
        } else if s == "SSSE3"@ {
            Some(ISA::SSSE3)
        } else if s == "SSE4A"@ {
            Some(ISA::SSE4A)
        } else if s == "SSE4.1"@ {
            Some(ISA::SSE41)
        } else if s == "SSE4.2"@ {
            Some(ISA::SSE42)
        } else if s == "FMA3"@ {
            Some(ISA::FMA3)
        } else if s == "FMA4"@ {
            Some(ISA::FMA4)
        } else if s == "XOP"@ {
            Some(ISA::XOP)
        } else if s == "F16C"@ {
            Some(ISA::F16C)
        } else if s == "AVX"@ {
            Some(ISA::AVX)
        } else if s == "AVX2"@ {
            Some(ISA::AVX2)
        } else if s == "AVX512F"@ {
            Some(ISA::AVX512F)
        } else if s == "AVX512BW"@ {
            Some(ISA::AVX512BW)
        } else if s == "AVX512DQ"@ {
            Some(ISA::AVX512DQ)
        } else if s == "AVX512VL"@ {
            Some(ISA::AVX512VL)
        } else if s == "AVX512PF"@ {
            Some(ISA::AVX512PF)
        } else if s == "AVX512ER"@ {
            Some(ISA::AVX512ER)
        } else if s == "AVX512CD"@ {
            Some(ISA::AVX512CD)
        } else if s == "AVX512VBMI"@ {
            Some(ISA::AVX512VBMI)
        } else if s == "AVX512IFMA"@ {
            Some(ISA::AVX512IFMA)
        } else if s == "RDRAND"@ {
            Some(ISA::RDRAND)
        } else if s == "RDSEED"@ {
            Some(ISA::RDSEED)
        } else if s == "PCLMULQDQ"@ {
            Some(ISA::PCLMULQDQ)
        } else if s == "AES"@ {
            Some(ISA::AES)
        } else if s == "SHA"@ {
            Some(ISA::SHA)
        } else if s == "PRFCHW"@ {
            Some(ISA::PRFCHW)
        } else if s == "PREFETCHWT1"@ {
            Some(ISA::PREFETCHWT1)
        } else {
            None
        }
    }

    fn from_str(s: &str) -> (r: Result<Self, ParseInsError>) {
        if str_eq(s, "CPUID") {
            Ok(ISA::CPUID)
        } else if str_eq(s, "RDTSC") {
            Ok(ISA::RDTSC)
        } else if str_eq(s, "RDTSCP") {
            Ok(ISA::RDTSCP)
        } else if str_eq(s, "CMOV") {
            Ok(ISA::CMOV)
        } else if str_eq(s, "MOVBE") {
            Ok(ISA::MOVBE)
        } else if str_eq(s, "POPCNT") {
            Ok(ISA::POPCNT)
        } else if str_eq(s, "LZCNT") {
            Ok(ISA::LZCNT)
        } else if str_eq(s, "TBM") {
            Ok(ISA::TBM)
        } else if str_eq(s, "BMI") {
            Ok(ISA::BMI)
        } else if str_eq(s, "BMI2") {
            Ok(ISA::BMI2)
        } else if str_eq(s, "ADX") {
            Ok(ISA::ADX)
        } else if str_eq(s, "MMX") {
            Ok(ISA::MMX)
        } else if str_eq(s, "MMX+") {
            Ok(ISA::MMXPLUS)
        } else if str_eq(s, "FEMMS") {
            Ok(ISA::FEMMS)
        } else if str_eq(s, "3dnow!") {
            Ok(ISA::NOW3D)
        } else if str_eq(s, "3dnow!+") {
            Ok(ISA::NOW3DPLUS)
        } else if str_eq(s, "SSE") {
            Ok(ISA::SSE)
        } else if str_eq(s, "SSE2") {
            Ok(ISA::SSE2)
        } else if str_eq(s, "SSE3") {
            Ok(ISA::SSE3)
        } else if str_eq(s, "SSSE3") {
            Ok(ISA::SSSE3)
        } else if str_eq(s, "SSE4A") {
            Ok(ISA::SSE4A)
        } else if str_eq(s, "SSE4.1") {
            Ok(ISA::SSE41)
        } else if str_eq(s, "SSE4.2") {
            Ok(ISA::SSE42)
        } else if str_eq(s, "FMA3") {
            Ok(ISA::FMA3)
        } else if str_eq(s, "FMA4") {
            Ok(ISA::FMA4)
        } else if str_eq(s, "XOP") {
            Ok(ISA::XOP)
        } else if str_eq(s, "F16C") {
            Ok(ISA::F16C)
        } else if str_eq(s, "AVX") {
            Ok(ISA::AVX)
        } else if str_eq(s, "AVX2") {
            Ok(ISA::AVX2)
        } else if str_eq(s, "AVX512F") {
            Ok(ISA::AVX512F)
        } else if str_eq(s, "AVX512BW") {
            Ok(ISA::AVX512BW)
        } else if str_eq(s, "AVX512DQ") {
            Ok(ISA::AVX512DQ)
        } else if str_eq(s, "AVX512VL") {
            Ok(ISA::AVX512VL)
        } else if str_eq(s, "AVX512PF") {
            Ok(ISA::AVX512PF)
        } else if str_eq(s, "AVX512ER") {
            Ok(ISA::AVX512ER)
        } else if str_eq(s, "AVX512CD") {
            Ok(ISA::AVX512CD)
        } else if str_eq(s, "AVX512VBMI") {
            Ok(ISA::AVX512VBMI)
        } else if str_eq(s, "AVX512IFMA") {
            Ok(ISA::AVX512IFMA)
        } else if str_eq(s, "RDRAND") {
            Ok(ISA::RDRAND)
        } else if str_eq(s, "RDSEED") {
            Ok(ISA::RDSEED)
        } else if str_eq(s, "PCLMULQDQ") {
            Ok(ISA::PCLMULQDQ)
        } else if str_eq(s, "AES") {
            Ok(ISA::AES)
        } else if str_eq(s, "SHA") {
            Ok(ISA::SHA)
        } else if str_eq(s, "PRFCHW") {
            Ok(ISA::PRFCHW)
        } else if str_eq(s, "PREFETCHWT1") {
            Ok(ISA::PREFETCHWT1)
        } else {
            Err(ParseInsError::new(ParseErrorKind::UnknownEnumerator))
        }
    }
}

impl std::str::FromStr for ISA {
    type Err = ParseInsError;

    fn from_str(s: &str) -> (r: Result<Self, ParseInsError>) {
        <ISA as Enumerator>::from_str(s)
    }
}

impl ISA {
    /// The stable integer code of the extension.
    pub open spec fn spec_code(self) -> u8 {
        match self {
            ISA::CPUID => 1,
            ISA::RDTSC => 5,
            ISA::RDTSCP => 6,
            ISA::CMOV => 20,
            ISA::MOVBE => 99,
            ISA::POPCNT => 100,
            ISA::LZCNT => 101,
            ISA::TBM => 102,
            ISA::BMI => 103,
            ISA::BMI2 => 104,
            ISA::ADX => 105,
            ISA::MMX => 30,
            ISA::MMXPLUS => 31,
            ISA::FEMMS => 40,
            ISA::NOW3D => 41,
            ISA::NOW3DPLUS => 42,
            ISA::SSE => 50,
            ISA::SSE2 => 51,
            ISA::SSE3 => 52,
            ISA::SSSE3 => 53,
            ISA::SSE4A => 54,
            ISA::SSE41 => 55,
            ISA::SSE42 => 56,
            ISA::FMA3 => 60,
            ISA::FMA4 => 61,
            ISA::XOP => 62,
            ISA::F16C => 63,
            ISA::AVX => 70,
            ISA::AVX2 => 71,
            ISA::AVX512F => 72,
            ISA::AVX512BW => 73,
            ISA::AVX512DQ => 74,
            ISA::AVX512VL => 75,
            ISA::AVX512PF => 76,
            ISA::AVX512ER => 77,
            ISA::AVX512CD => 78,
            ISA::AVX512VBMI => 79,
            ISA::AVX512IFMA => 80,
            ISA::RDRAND => 85,
            ISA::RDSEED => 86,
            ISA::PCLMULQDQ => 90,
            ISA::AES => 91,
            ISA::SHA => 92,
            ISA::UNSUPPORTED => 200,
            ISA::PRFCHW => 201,
            ISA::PREFETCHWT1 => 202,
        }
    }

    /// The stable integer code of the extension.
    #[verifier::when_used_as_spec(spec_code)]
    pub fn code(self) -> (c: u8)
        ensures
            c == self.spec_code(),
    {
        match self {
            ISA::CPUID => 1,
            ISA::RDTSC => 5,
            ISA::RDTSCP => 6,
            ISA::CMOV => 20,
            ISA::MOVBE => 99,
            ISA::POPCNT => 100,
            ISA::LZCNT => 101,
            ISA::TBM => 102,
            ISA::BMI => 103,
            ISA::BMI2 => 104,
            ISA::ADX => 105,
            ISA::MMX => 30,
            ISA::MMXPLUS => 31,
            ISA::FEMMS => 40,
            ISA::NOW3D => 41,
            ISA::NOW3DPLUS => 42,
            ISA::SSE => 50,
            ISA::SSE2 => 51,
            ISA::SSE3 => 52,
            ISA::SSSE3 => 53,
            ISA::SSE4A => 54,
            ISA::SSE41 => 55,
            ISA::SSE42 => 56,
            ISA::FMA3 => 60,
            ISA::FMA4 => 61,
            ISA::XOP => 62,
            ISA::F16C => 63,
            ISA::AVX => 70,
            ISA::AVX2 => 71,
            ISA::AVX512F => 72,
            ISA::AVX512BW => 73,
            ISA::AVX512DQ => 74,
            ISA::AVX512VL => 75,
            ISA::AVX512PF => 76,
            ISA::AVX512ER => 77,
            ISA::AVX512CD => 78,
            ISA::AVX512VBMI => 79,
            ISA::AVX512IFMA => 80,
            ISA::RDRAND => 85,
            ISA::RDSEED => 86,
            ISA::PCLMULQDQ => 90,
            ISA::AES => 91,
            ISA::SHA => 92,
            ISA::UNSUPPORTED => 200,
            ISA::PRFCHW => 201,
            ISA::PREFETCHWT1 => 202,
        }
    }
}

/// A register that a form touches implicitly, and how.
#[derive(Clone, Copy, Debug, PartialEq, Eq, Structural)]
pub struct ImplicitOperand {
    pub id: ImplicitRegister,
    pub input: bool,
    pub output: bool,
}

impl ImplicitOperand {
    /// The record before any field of it has been read.
    pub open spec fn empty() -> ImplicitOperand {
        ImplicitOperand {
            id: ImplicitRegister::NONE,
            input: false,
            output: false,
        }
    }

    /// The record before any field of it has been set.
    pub fn new() -> (r: ImplicitOperand)
        ensures
            r == ImplicitOperand::empty(),
    {
        ImplicitOperand {
            id: ImplicitRegister::NONE,
            input: false,
            output: false,
        }
    }
}

/// One operand of a form's signature.
#[derive(Clone, Copy, Debug, PartialEq, Eq, Structural)]
pub struct Operand {
    pub id: OperandId,
    pub input: bool,
    pub output: bool,
    pub extended_size: u64,
}

impl Operand {
    /// The record before any field of it has been read.
    pub open spec fn empty() -> Operand {
        Operand {
            id: OperandId::NONE,
            input: false,
            output: false,
            extended_size: 0,
        }
    }

    /// The record before any field of it has been set.
    pub fn new() -> (r: Operand)
        ensures
            r == Operand::empty(),
    {
        Operand {
            id: OperandId::NONE,
            input: false,
            output: false,
            extended_size: 0,
        }
    }
}

/// A legacy prefix byte.
#[derive(Clone, Copy, Debug, PartialEq, Eq, Structural)]
pub struct Prefix {
    pub mandatory: bool,
    pub byte: u8,
}

impl Prefix {
    /// The record before any field of it has been read.
    pub open spec fn empty() -> Prefix {
        Prefix {
            mandatory: false,
            byte: 0x00,
        }
    }

    /// The record before any field of it has been set.
    pub fn new() -> (r: Prefix)
        ensures
            r == Prefix::empty(),
    {
        Prefix {
            mandatory: false,
            byte: 0x00,
        }
    }
}

/// The template of a REX prefix.
#[allow(non_snake_case)]
#[derive(Clone, Copy, Debug, PartialEq, Eq, Structural)]
pub struct REX {
    pub mandatory: bool,
    pub W: Bit,
    pub R: BitRef,
    pub B: BitRef,
    pub X: BitRef,
}

impl REX {
    /// The record before any field of it has been read.
    pub open spec fn empty() -> REX {
        REX {
            mandatory: false,
            W: Bit::NONE,
            R: BitRef::NONE,
            B: BitRef::NONE,
            X: BitRef::NONE,
        }
    }

    /// The record before any field of it has been set.
    pub fn new() -> (r: REX)
        ensures
            r == REX::empty(),
    {
        REX {
            mandatory: false,
            W: Bit::NONE,
            R: BitRef::NONE,
            B: BitRef::NONE,
            X: BitRef::NONE,
        }
    }
}

/// The template of a VEX or XOP prefix.
#[allow(non_snake_case)]
#[derive(Clone, Copy, Debug, PartialEq, Eq, Structural)]
pub struct VEX {
    pub id: VEXType,
    pub mmmmm: u8,
    pub pp: u8,
    pub W: Bit,
    pub L: Bit,
    pub R: BitRef,
    pub B: BitRef,
    pub X: BitRef,
    pub vvvv: ZeroRef,
}

impl VEX {
    /// The record before any field of it has been read.
    pub open spec fn empty() -> VEX {
        VEX {
            id: VEXType::NONE,
            mmmmm: 0,
            pp: 0,
            W: Bit::NONE,
            L: Bit::NONE,
            R: BitRef::NONE,
            B: BitRef::NONE,
            X: BitRef::NONE,
            vvvv: ZeroRef::NONE,
        }
    }

    /// The record before any field of it has been set.
    pub fn new() -> (r: VEX)
        ensures
            r == VEX::empty(),
    {
        VEX {
            id: VEXType::NONE,
            mmmmm: 0,
            pp: 0,
            W: Bit::NONE,
            L: Bit::NONE,
            R: BitRef::NONE,
            B: BitRef::NONE,
            X: BitRef::NONE,
            vvvv: ZeroRef::NONE,
        }
    }
}

/// The template of an EVEX prefix.
#[allow(non_snake_case)]
#[derive(Clone, Copy, Debug, PartialEq, Eq, Structural)]
pub struct EVEX {
    pub mm: u8,
    pub pp: u8,
    pub W: Bit,
    pub LL: LLBitRef,
    pub RR: NoneRef,
    pub B: NoneRef,
    pub X: NoneRef,
    pub vvvv: ZeroRef,
    pub V: ZeroRef,
    pub b: ZeroRef,
    pub aaa: ZeroRef,
    pub z: ZeroRef,
    pub disp8xN: u8,
}

impl EVEX {
    /// The record before any field of it has been read.
    pub open spec fn empty() -> EVEX {
        EVEX {
            mm: 0,
            pp: 0,
            W: Bit::NONE,
            LL: LLBitRef::NONE,
            RR: NoneRef::NONE,
            B: NoneRef::NONE,
            X: NoneRef::NONE,
            vvvv: ZeroRef::NONE,
            V: ZeroRef::NONE,
            b: ZeroRef::NONE,
            aaa: ZeroRef::NONE,
            z: ZeroRef::NONE,
            disp8xN: 0,
        }
    }

    /// The record before any field of it has been set.
    pub fn new() -> (r: EVEX)
        ensures
            r == EVEX::empty(),
    {
        EVEX {
            mm: 0,
            pp: 0,
            W: Bit::NONE,
            LL: LLBitRef::NONE,
            RR: NoneRef::NONE,
            B: NoneRef::NONE,
            X: NoneRef::NONE,
            vvvv: ZeroRef::NONE,
            V: ZeroRef::NONE,
            b: ZeroRef::NONE,
            aaa: ZeroRef::NONE,
            z: ZeroRef::NONE,
            disp8xN: 0,
        }
    }
}

/// One opcode byte, and the operand whose register index is merged into it.
#[derive(Clone, Copy, Debug, PartialEq, Eq, Structural)]
pub struct Opcode {
    pub byte: u8,
    pub addend: NoneRef,
}

impl Opcode {
    /// The record before any field of it has been read.
    pub open spec fn empty() -> Opcode {
        Opcode {
            byte: 0,
            addend: NoneRef::NONE,
        }
    }

    /// The record before any field of it has been set.
    pub fn new() -> (r: Opcode)
        ensures
            r == Opcode::empty(),
    {
        Opcode {
            byte: 0,
            addend: NoneRef::NONE,
        }
    }
}

/// The template of the ModR/M byte.
#[derive(Clone, Copy, Debug, PartialEq, Eq, Structural)]
pub struct ModRM {
    pub mode: AddressMode,
    pub rm: NoneRef,
    pub reg: IntOrRef,
}

impl ModRM {
    /// The record before any field of it has been read.
    pub open spec fn empty() -> ModRM {
        ModRM {
            mode: AddressMode::NONE,
            rm: NoneRef::NONE,
            reg: IntOrRef::NONE,
        }
    }

    /// The record before any field of it has been set.
    pub fn new() -> (r: ModRM)
        ensures
            r == ModRM::empty(),
    {
        ModRM {
            mode: AddressMode::NONE,
            rm: NoneRef::NONE,
            reg: IntOrRef::NONE,
        }
    }
}

/// A trailing byte that holds a register index in its high nibble and a
/// payload in its low nibble.
#[derive(Clone, Copy, Debug, PartialEq, Eq, Structural)]
pub struct RegisterByte {
    pub register: NoneRef,
    pub payload: NoneRef,
}

impl RegisterByte {
    /// The record before any field of it has been read.
    pub open spec fn empty() -> RegisterByte {
        RegisterByte {
            register: NoneRef::NONE,
            payload: NoneRef::NONE,
        }
    }

    /// The record before any field of it has been set.
    pub fn new() -> (r: RegisterByte)
        ensures
            r == RegisterByte::empty(),
    {
        RegisterByte {
            register: NoneRef::NONE,
            payload: NoneRef::NONE,
        }
    }
}

/// An immediate of `size` bytes.
#[derive(Clone, Copy, Debug, PartialEq, Eq, Structural)]
pub struct Immediate {
    pub size: u8,
    pub value: IntOrRef,
}

impl Immediate {
    /// The record before any field of it has been read.
    pub open spec fn empty() -> Immediate {
        Immediate {
            size: 0,
            value: IntOrRef::NONE,
        }
    }

    /// The record before any field of it has been set.
    pub fn new() -> (r: Immediate)
        ensures
            r == Immediate::empty(),
    {
        Immediate {
            size: 0,
            value: IntOrRef::NONE,
        }
    }
}

/// A relative branch target of `size` bytes.
#[derive(Clone, Copy, Debug, PartialEq, Eq, Structural)]
pub struct CodeOffset {
    pub size: u8,
    pub value: NoneRef,
}

impl CodeOffset {
    /// The record before any field of it has been read.
    pub open spec fn empty() -> CodeOffset {
        CodeOffset {
            size: 0,
            value: NoneRef::NONE,
        }
    }

    /// The record before any field of it has been set.
    pub fn new() -> (r: CodeOffset)
        ensures
            r == CodeOffset::empty(),
    {
        CodeOffset {
            size: 0,
            value: NoneRef::NONE,
        }
    }
}

/// An absolute data address of `size` bytes.
#[derive(Clone, Copy, Debug, PartialEq, Eq, Structural)]
pub struct DataOffset {
    pub size: u8,
    pub value: NoneRef,
}

impl DataOffset {
    /// The record before any field of it has been read.
    pub open spec fn empty() -> DataOffset {
        DataOffset {
            size: 0,
            value: NoneRef::NONE,
        }
    }

    /// The record before any field of it has been set.
    pub fn new() -> (r: DataOffset)
        ensures
            r == DataOffset::empty(),
    {
        DataOffset {
            size: 0,
            value: NoneRef::NONE,
        }
    }
}

/// One way to turn a form and its operands into bytes.
#[derive(Debug)]
pub struct Encoding {
    pub prefix: Option<Prefix>,
    pub rex: Option<REX>,
    pub vex: Option<VEX>,
    pub evex: Option<EVEX>,
    pub opcodes: Vec<Opcode>,
    pub modrm: Option<ModRM>,
    pub register_byte: Option<RegisterByte>,
    pub immediate: Option<Immediate>,
    pub data_offset: Option<DataOffset>,
    pub code_offset: Option<CodeOffset>,
}

/// An encoding template as a mathematical value.
pub struct EncodingView {
    pub prefix: Option<Prefix>,
    pub rex: Option<REX>,
    pub vex: Option<VEX>,
    pub evex: Option<EVEX>,
    pub opcodes: Seq<Opcode>,
    pub modrm: Option<ModRM>,
    pub register_byte: Option<RegisterByte>,
    pub immediate: Option<Immediate>,
    pub data_offset: Option<DataOffset>,
    pub code_offset: Option<CodeOffset>,
}

impl EncodingView {
    /// The template before any field of it has been read.
    pub open spec fn empty() -> EncodingView {
        EncodingView {
            prefix: None,
            rex: None,
            vex: None,
            evex: None,
            opcodes: Seq::empty(),
            modrm: None,
            register_byte: None,
            immediate: None,
            data_offset: None,
            code_offset: None,
        }
    }
}

impl View for Encoding {
    type V = EncodingView;

    open spec fn view(&self) -> EncodingView {
        EncodingView {
            prefix: self.prefix,
            rex: self.rex,
            vex: self.vex,
            evex: self.evex,
            opcodes: self.opcodes@,
            modrm: self.modrm,
            register_byte: self.register_byte,
            immediate: self.immediate,
            data_offset: self.data_offset,
            code_offset: self.code_offset,
        }
    }
}

impl Encoding {
    /// A template that holds nothing yet.
    pub fn new() -> (r: Encoding)
        ensures
            r@ == EncodingView::empty(),
    {
        Encoding {
            prefix: None,
            rex: None,
            vex: None,
            evex: None,
            opcodes: Vec::new(),
            modrm: None,
            register_byte: None,
            immediate: None,
            data_offset: None,
            code_offset: None,
        }
    }
}

impl Clone for Encoding {
    fn clone(&self) -> (r: Encoding)
        ensures
            r@ == self@,
    {
        let mut opcodes: Vec<Opcode> = Vec::new();
        let mut i: usize = 0;
        while i < self.opcodes.len()
            invariant
                i <= self.opcodes@.len(),
                opcodes@ == self.opcodes@.take(i as int),
            decreases self.opcodes@.len() - i,
        {
            opcodes.push(self.opcodes[i]);
            i = i + 1;
        }
        assert(opcodes@ =~= self.opcodes@);
        Encoding {
            prefix: self.prefix,
            rex: self.rex,
            vex: self.vex,
            evex: self.evex,
            opcodes,
            modrm: self.modrm,
            register_byte: self.register_byte,
            immediate: self.immediate,
            data_offset: self.data_offset,
            code_offset: self.code_offset,
        }
    }
}

/// The templates of a list of encodings, in order.
pub open spec fn encoding_views(encodings: Seq<Encoding>) -> Seq<EncodingView> {
    encodings.map_values(|e: Encoding| e@)
}

/// One legal operand signature of a mnemonic, with the templates that encode it.
#[derive(Debug)]
pub struct InstructionForm {
    pub mmx_mode: MMXMode,
    pub xmm_mode: XMMMode,
    pub canceling_inputs: bool,
    pub isas: Vec<ISA>,
    pub implicit_operands: Vec<ImplicitOperand>,
    pub operands: Vec<Operand>,
    pub encodings: Vec<Encoding>,
}

/// A form as a mathematical value.
pub struct FormView {
    pub mmx_mode: MMXMode,
    pub xmm_mode: XMMMode,
    pub canceling_inputs: bool,
    pub isas: Seq<ISA>,
    pub implicit_operands: Seq<ImplicitOperand>,
    pub operands: Seq<Operand>,
    pub encodings: Seq<EncodingView>,
}

impl FormView {
    /// The form before any field of it has been read.
    pub open spec fn empty() -> FormView {
        FormView {
            mmx_mode: MMXMode::NONE,
            xmm_mode: XMMMode::NONE,
            canceling_inputs: false,
            isas: Seq::empty(),
            implicit_operands: Seq::empty(),
            operands: Seq::empty(),
            encodings: Seq::empty(),
        }
    }
}

impl View for InstructionForm {
    type V = FormView;

    open spec fn view(&self) -> FormView {
        FormView {
            mmx_mode: self.mmx_mode,
            xmm_mode: self.xmm_mode,
            canceling_inputs: self.canceling_inputs,
            isas: self.isas@,
            implicit_operands: self.implicit_operands@,
            operands: self.operands@,
            encodings: encoding_views(self.encodings@),
        }
    }
}

impl InstructionForm {
    /// A form that holds nothing yet.
    pub fn new() -> (r: InstructionForm)
        ensures
            r@ == FormView::empty(),
    {
        let r = InstructionForm {
            mmx_mode: MMXMode::NONE,
            xmm_mode: XMMMode::NONE,
            canceling_inputs: false,
            isas: Vec::new(),
            implicit_operands: Vec::new(),
            operands: Vec::new(),
            encodings: Vec::new(),
        };
        assert(r@.encodings =~= Seq::empty());
        r
    }
}

impl Clone for InstructionForm {
    fn clone(&self) -> (r: InstructionForm)
        ensures
            r@ == self@,
    {
        let mut isas: Vec<ISA> = Vec::new();
        let mut i: usize = 0;
        while i < self.isas.len()
            invariant
                i <= self.isas@.len(),
                isas@ == self.isas@.take(i as int),
            decreases self.isas@.len() - i,
        {
            isas.push(self.isas[i]);
            i = i + 1;
        }
        let mut implicit_operands: Vec<ImplicitOperand> = Vec::new();
        i = 0;
        while i < self.implicit_operands.len()
            invariant
                i <= self.implicit_operands@.len(),
                implicit_operands@ == self.implicit_operands@.take(i as int),
            decreases self.implicit_operands@.len() - i,
        {
            implicit_operands.push(self.implicit_operands[i]);
            i = i + 1;
        }
        let mut operands: Vec<Operand> = Vec::new();
        i = 0;
        while i < self.operands.len()
            invariant
                i <= self.operands@.len(),
                operands@ == self.operands@.take(i as int),
            decreases self.operands@.len() - i,
        {
            operands.push(self.operands[i]);
            i = i + 1;
        }
        let mut encodings: Vec<Encoding> = Vec::new();
        i = 0;
        while i < self.encodings.len()
            invariant
                i <= self.encodings@.len(),
                encodings@.len() == i,
                forall|k: int| 0 <= k < i ==> (#[trigger] encodings@[k])@ == self.encodings@[k]@,
            decreases self.encodings@.len() - i,
        {
            let e = self.encodings[i].clone();
            encodings.push(e);
            i = i + 1;
        }
        assert(isas@ =~= self.isas@);
        assert(implicit_operands@ =~= self.implicit_operands@);
        assert(operands@ =~= self.operands@);
        assert(encoding_views(encodings@) =~= encoding_views(self.encodings@));
        InstructionForm {
            mmx_mode: self.mmx_mode,
            xmm_mode: self.xmm_mode,
            canceling_inputs: self.canceling_inputs,
            isas,
            implicit_operands,
            operands,
            encodings,
        }
    }
}

/// The forms of a list, in order, as mathematical values.
pub open spec fn form_views(forms: Seq<InstructionForm>) -> Seq<FormView> {
    forms.map_values(|f: InstructionForm| f@)
}

/// A mnemonic with its summary and its forms.
#[derive(Debug)]
pub struct Instruction {
    pub name: String,
    pub summary: String,
    pub forms: Vec<InstructionForm>,
}

/// A mnemonic as a mathematical value.
pub struct InstructionView {
    pub name: Seq<char>,
    pub summary: Seq<char>,
    pub forms: Seq<FormView>,
}

impl View for Instruction {
    type V = InstructionView;

    open spec fn view(&self) -> InstructionView {
        InstructionView { name: self.name@, summary: self.summary@, forms: form_views(self.forms@) }
    }
}

impl Instruction {
    /// A mnemonic of which only the name is known.
    pub fn new(name: &String) -> (r: Instruction)
        ensures
            r@ == (InstructionView { name: name@, summary: Seq::empty(), forms: Seq::empty() }),
    {
        let r = Instruction { name: name.clone(), summary: String::new(), forms: Vec::new() };
        assert(r@.forms =~= Seq::empty());
        r
    }
}

impl Clone for Instruction {
    fn clone(&self) -> (r: Instruction)
        ensures
            r@ == self@,
    {
        let mut forms: Vec<InstructionForm> = Vec::new();
        let mut i: usize = 0;
        while i < self.forms.len()
            invariant
                i <= self.forms@.len(),
                forms@.len() == i,
                forall|k: int| 0 <= k < i ==> (#[trigger] forms@[k])@ == self.forms@[k]@,
            decreases self.forms@.len() - i,
        {
            let form = self.forms[i].clone();
            forms.push(form);
            i = i + 1;
        }
        assert(form_views(forms@) =~= form_views(self.forms@));
        Instruction { name: self.name.clone(), summary: self.summary.clone(), forms }
    }
}

/// The mnemonics of a list, in order, as mathematical values.
pub open spec fn instruction_views(instructions: Seq<Instruction>) -> Seq<InstructionView> {
    instructions.map_values(|i: Instruction| i@)
}

} // verus!
