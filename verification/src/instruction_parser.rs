use crate::json::{
    holds_items, holds_members, json_text_value, lemma_view_array, lemma_view_object, parse_json,
    Json, JsonValue,
};
use crate::text::{parse_radix, radix_value, str_eq};
use crate::types::{
    encoding_views, form_views, instruction_views, AddressMode, Bit, BitRef, CodeOffset,
    DataOffset, Encoding, EncodingView, Enumerator, FormView,
    ISA, Immediate, ImplicitOperand, ImplicitRegister, Instruction, InstructionForm,
    InstructionView, IntOrRef, LLBitRef, MMXMode, ModRM, NoneRef, Opcode, Operand, OperandId,
    ParseErrorKind, ParseFault, ParseInsError, Prefix, RegisterByte, VEXType, XMMMode, ZeroRef,
    EVEX, REX, VEX,
};
use vstd::prelude::*;

verus! {

/// Whether a result of the parser is the outcome that the schema gives.
pub open spec fn agrees<T>(r: Result<T, ParseInsError>, expected: Result<T, ParseFault>) -> bool {
    match r {
        Ok(x) => expected == Ok::<T, ParseFault>(x),
        Err(e) => expected == Err::<T, ParseFault>(e@),
    }
}

/// Whether a result of the parser is, by its view, the outcome that the schema gives.
pub open spec fn agrees_as<T: View>(
    r: Result<T, ParseInsError>,
    expected: Result<T::V, ParseFault>,
) -> bool {
    match r {
        Ok(x) => expected == Ok::<T::V, ParseFault>(x@),
        Err(e) => expected == Err::<T::V, ParseFault>(e@),
    }
}

/// The outcome with the key recorded in its fault, if it is one.
pub open spec fn under<T>(outcome: Result<T, ParseFault>, key: Seq<char>) -> Result<T, ParseFault> {
    match outcome {
        Ok(x) => Ok(x),
        Err(e) => Err(e.at_field(key)),
    }
}

/// A record of the schema: an object whose members set its fields one by one.
pub trait Record: Sized {
    /// The record before any member has been read.
    spec fn blank() -> Self;

    /// The record after one more member, or the fault that the member is.
    spec fn with_member(self, key: Seq<char>, value: Json) -> Result<Self, ParseFault>;
}

/// The record that the first `n` members of an object make of `start`. The
/// first member that is a fault ends the reading.
pub open spec fn read_members<R: Record>(
    members: Seq<(Seq<char>, Json)>,
    n: nat,
    start: R,
) -> Result<R, ParseFault>
    decreases n,
{
    if n == 0 {
        Ok(start)
    } else {
        match read_members::<R>(members, (n - 1) as nat, start) {
            Ok(r) => r.with_member(members[n - 1].0, members[n - 1].1),
            Err(e) => Err(e),
        }
    }
}

/// The record that the members of an object make of `start`. Anything but
/// an object is a fault.
pub open spec fn record_from<R: Record>(j: Json, start: R) -> Result<R, ParseFault> {
    match j {
        Json::Object(members) => read_members::<R>(members, members.len(), start),
        _ => Err(ParseFault::of(ParseErrorKind::UnexpectedType)),
    }
}

/// The record that a JSON value describes.
pub open spec fn record_of<R: Record>(j: Json) -> Result<R, ParseFault> {
    record_from(j, R::blank())
}

/// A fault among the first `k` members is the outcome of the whole object.
pub proof fn lemma_fault_ends_reading<R: Record>(
    members: Seq<(Seq<char>, Json)>,
    k: nat,
    n: nat,
    start: R,
)
    requires
        k <= n,
        read_members::<R>(members, k, start) is Err,
    ensures
        read_members::<R>(members, n, start) == read_members::<R>(members, k, start),
    decreases n - k,
{
    if k < n {
        lemma_fault_ends_reading::<R>(members, k, (n - 1) as nat, start);
    }
}

/// A record in memory that is read from an object member by member.
pub trait ReadRecord: Sized {
    /// The record as a mathematical value.
    type Model: Record;

    spec fn model(&self) -> Self::Model;

    /// The record after one more member, or the fault that the member is.
    fn read_member(self, key: &str, value: &JsonValue) -> (r: Result<Self, ParseInsError>)
        ensures
            match r {
                Ok(next) => self.model().with_member(key@, value@) == Ok::<Self::Model, ParseFault>(
                    next.model(),
                ),
                Err(e) => self.model().with_member(key@, value@) == Err::<Self::Model, ParseFault>(
                    e@,
                ),
            },
    ;
}

/// Reads the members of an object into `start`, one by one and in order.
pub fn read_record_from<R: ReadRecord>(value: &JsonValue, start: R) -> (r: Result<R, ParseInsError>)
    ensures
        match r {
            Ok(record) => record_from(value@, start.model()) == Ok::<R::Model, ParseFault>(
                record.model(),
            ),
            Err(e) => record_from(value@, start.model()) == Err::<R::Model, ParseFault>(e@),
        },
{
    match value {
        JsonValue::Object(members) => {
            let ghost m = value@->Object_0;
            let ghost first = start.model();
            proof {
                lemma_view_object(*value);
            }
            let mut record = start;
            let mut i: usize = 0;
            while i < members.len()
                invariant
                    i <= members@.len(),
                    value@ == Json::Object(m),
                    first == start.model(),
                    holds_members(members@, m),
                    read_members::<R::Model>(m, i as nat, first) == Ok::<R::Model, ParseFault>(
                        record.model(),
                    ),
                decreases members@.len() - i,
            {
                match record.read_member(members[i].0.as_str(), &members[i].1) {
                    Ok(next) => {
                        record = next;
                    },
                    Err(e) => {
                        proof {
                            lemma_fault_ends_reading::<R::Model>(m, (i + 1) as nat, m.len(), first);
                        }
                        return Err(e);
                    },
                }
                i = i + 1;
            }
            Ok(record)
        },
        _ => Err(ParseInsError::new(ParseErrorKind::UnexpectedType)),
    }
}

/// A boolean.
pub open spec fn bool_of(j: Json) -> Result<bool, ParseFault> {
    match j {
        Json::Bool(b) => Ok(b),
        _ => Err(ParseFault::of(ParseErrorKind::UnexpectedType)),
    }
}

/// A number that is a non-negative integer below 2^64.
pub open spec fn u64_of(j: Json) -> Result<u64, ParseFault> {
    match j {
        Json::Number(Some(n)) => Ok(n),
        _ => Err(ParseFault::of(ParseErrorKind::UnexpectedType)),
    }
}

/// A string.
pub open spec fn text_of(j: Json) -> Result<Seq<char>, ParseFault> {
    match j {
        Json::String(s) => Ok(s),
        _ => Err(ParseFault::of(ParseErrorKind::UnexpectedType)),
    }
}

/// A string that names a value of a closed set.
pub open spec fn enumerator_of<T: Enumerator>(j: Json) -> Result<T, ParseFault> {
    match j {
        Json::String(s) => match T::named(s) {
            Some(x) => Ok(x),
            None => Err(ParseFault::of(ParseErrorKind::UnknownEnumerator)),
        },
        _ => Err(ParseFault::of(ParseErrorKind::UnexpectedType)),
    }
}

/// A string of digits in the given radix that make a byte.
pub open spec fn byte_of(j: Json, radix: u32) -> Result<u8, ParseFault> {
    match j {
        Json::String(s) => match radix_value(s, radix) {
            Some(b) => Ok(b),
            None => Err(ParseFault::of(ParseErrorKind::InvalidNumber)),
        },
        _ => Err(ParseFault::of(ParseErrorKind::UnexpectedType)),
    }
}

/// A number out of a closed set of sizes.
pub open spec fn size_of(j: Json, allowed: Seq<u64>) -> Result<u8, ParseFault> {
    match j {
        Json::Number(Some(n)) => if allowed.contains(n) && n <= u8::MAX {
            Ok(n as u8)
        } else {
            Err(ParseFault::of(ParseErrorKind::InvalidNumber))
        },
        _ => Err(ParseFault::of(ParseErrorKind::UnexpectedType)),
    }
}

/// Whether a number is 1, 2, 4, 8 and so on.
pub open spec fn is_power_of_two(n: nat) -> bool
    decreases n,
{
    n == 1 || (n >= 2 && n % 2 == 0 && is_power_of_two(n / 2))
}

/// The scale of a compressed displacement: a power of two from 1 to 64.
pub open spec fn scale_of(j: Json) -> Result<u8, ParseFault> {
    match j {
        Json::Number(Some(n)) => if !is_power_of_two(n as nat) {
            Err(ParseFault::of(ParseErrorKind::NotPowerOfTwo))
        } else if n > 64 {
            Err(ParseFault::of(ParseErrorKind::InvalidNumber))
        } else {
            Ok(n as u8)
        },
        _ => Err(ParseFault::of(ParseErrorKind::UnexpectedType)),
    }
}

fn read_bool(key: &str, value: &JsonValue) -> (r: Result<bool, ParseInsError>)
    ensures
        agrees(r, under(bool_of(value@), key@)),
{
    match value {
        JsonValue::Bool(b) => Ok(*b),
        _ => Err(ParseInsError::new(ParseErrorKind::UnexpectedType).at_field(key)),
    }
}

fn read_u64(key: &str, value: &JsonValue) -> (r: Result<u64, ParseInsError>)
    ensures
        agrees(r, under(u64_of(value@), key@)),
{
    match value {
        JsonValue::Number(Some(n)) => Ok(*n),
        _ => Err(ParseInsError::new(ParseErrorKind::UnexpectedType).at_field(key)),
    }
}

fn read_enumerator<T: Enumerator>(key: &str, value: &JsonValue) -> (r: Result<T, ParseInsError>)
    ensures
        agrees(r, under(enumerator_of::<T>(value@), key@)),
{
    match value {
        JsonValue::String(s) => match T::from_str(s.as_str()) {
            Ok(x) => Ok(x),
            Err(e) => Err(e.at_field(key)),
        },
        _ => Err(ParseInsError::new(ParseErrorKind::UnexpectedType).at_field(key)),
    }
}

fn read_byte(key: &str, value: &JsonValue, radix: u32) -> (r: Result<u8, ParseInsError>)
    requires
        2 <= radix <= 36,
    ensures
        agrees(r, under(byte_of(value@, radix), key@)),
{
    match value {
        JsonValue::String(s) => match parse_radix(s.as_str(), radix) {
            Some(b) => Ok(b),
            None => Err(ParseInsError::new(ParseErrorKind::InvalidNumber).at_field(key)),
        },
        _ => Err(ParseInsError::new(ParseErrorKind::UnexpectedType).at_field(key)),
    }
}

fn read_size(key: &str, value: &JsonValue, allowed: &Vec<u64>) -> (r: Result<
    u8,
    ParseInsError,
>)
    ensures
        agrees(r, under(size_of(value@, allowed@), key@)),
{
    match value {
        JsonValue::Number(Some(n)) => {
            let mut i: usize = 0;
            while i < allowed.len()
                invariant
                    i <= allowed@.len(),
                    value@ == Json::Number(Some(*n)),
                    forall|k: int| 0 <= k < i ==> allowed@[k] != *n,
                decreases allowed@.len() - i,
            {
                if allowed[i] == *n {
                    assert(allowed@[i as int] == *n);
                    if *n <= 255 {
                        return Ok(*n as u8);
                    } else {
                        return Err(
                            ParseInsError::new(ParseErrorKind::InvalidNumber).at_field(key),
                        );
                    }
                }
                i = i + 1;
            }
            Err(ParseInsError::new(ParseErrorKind::InvalidNumber).at_field(key))
        },
        _ => Err(ParseInsError::new(ParseErrorKind::UnexpectedType).at_field(key)),
    }
}

/// Whether a number is a power of two.
pub fn power_of_two(n: u64) -> (r: bool)
    ensures
        r == is_power_of_two(n as nat),
{
    let mut m: u64 = n;
    while m >= 2 && m % 2 == 0
        invariant
            is_power_of_two(m as nat) == is_power_of_two(n as nat),
        decreases m,
    {
        m = m / 2;
    }
    m == 1
}

fn read_scale(key: &str, value: &JsonValue) -> (r: Result<u8, ParseInsError>)
    ensures
        agrees(r, under(scale_of(value@), key@)),
{
    match value {
        JsonValue::Number(Some(n)) => {
            if !power_of_two(*n) {
                Err(ParseInsError::new(ParseErrorKind::NotPowerOfTwo).at_field(key))
            } else if *n > 64 {
                Err(ParseInsError::new(ParseErrorKind::InvalidNumber).at_field(key))
            } else {
                Ok(*n as u8)
            }
        },
        _ => Err(ParseInsError::new(ParseErrorKind::UnexpectedType).at_field(key)),
    }
}


impl Record for ImplicitOperand {
    open spec fn blank() -> ImplicitOperand {
        ImplicitOperand::empty()
    }

    open spec fn with_member(self, key: Seq<char>, value: Json) -> Result<
        ImplicitOperand,
        ParseFault,
    > {
        if key == "id"@ {
            match under(enumerator_of::<ImplicitRegister>(value), key) {
                Ok(x) => Ok(ImplicitOperand { id: x, ..self }),
                Err(e) => Err(e),
            }
        } else if key == "input"@ {
            match under(bool_of(value), key) {
                Ok(x) => Ok(ImplicitOperand { input: x, ..self }),
                Err(e) => Err(e),
            }
        } else if key == "output"@ {
            match under(bool_of(value), key) {
                Ok(x) => Ok(ImplicitOperand { output: x, ..self }),
                Err(e) => Err(e),
            }
        } else {
            Err(ParseFault::of(ParseErrorKind::UnexpectedKey).at_field(key))
        }
    }
}

impl ReadRecord for ImplicitOperand {
    type Model = ImplicitOperand;

    open spec fn model(&self) -> ImplicitOperand {
        *self
    }

    fn read_member(self, key: &str, value: &JsonValue) -> (r: Result<
        ImplicitOperand,
        ParseInsError,
    >) {
        if str_eq(key, "id") {
            let x = read_enumerator::<ImplicitRegister>(key, value)?;
            Ok(ImplicitOperand { id: x, ..self })
        } else if str_eq(key, "input") {
            let x = read_bool(key, value)?;
            Ok(ImplicitOperand { input: x, ..self })
        } else if str_eq(key, "output") {
            let x = read_bool(key, value)?;
            Ok(ImplicitOperand { output: x, ..self })
        } else {
            Err(ParseInsError::new(ParseErrorKind::UnexpectedKey).at_field(key))
        }
    }
}

/// Reads one implicit operand: `id`, `input` and `output`, and no other key.
pub fn parse_implicit_operand(value: &JsonValue) -> (r: Result<ImplicitOperand, ParseInsError>)
    ensures
        agrees(r, record_of::<ImplicitOperand>(value@)),
{
    read_record_from(value, ImplicitOperand::new())
}

impl Record for Operand {
    open spec fn blank() -> Operand {
        Operand::empty()
    }

    open spec fn with_member(self, key: Seq<char>, value: Json) -> Result<Operand, ParseFault> {
        if key == "type"@ {
            match under(enumerator_of::<OperandId>(value), key) {
                Ok(x) => Ok(Operand { id: x, ..self }),
                Err(e) => Err(e),
            }
        } else if key == "input"@ {
            match under(bool_of(value), key) {
                Ok(x) => Ok(Operand { input: x, ..self }),
                Err(e) => Err(e),
            }
        } else if key == "output"@ {
            match under(bool_of(value), key) {
                Ok(x) => Ok(Operand { output: x, ..self }),
                Err(e) => Err(e),
            }
        } else if key == "extended_size"@ {
            match under(u64_of(value), key) {
                Ok(x) => Ok(Operand { extended_size: x, ..self }),
                Err(e) => Err(e),
            }
        } else {
            Err(ParseFault::of(ParseErrorKind::UnexpectedKey).at_field(key))
        }
    }
}

impl ReadRecord for Operand {
    type Model = Operand;

    open spec fn model(&self) -> Operand {
        *self
    }

    fn read_member(self, key: &str, value: &JsonValue) -> (r: Result<Operand, ParseInsError>) {
        if str_eq(key, "type") {
            let x = read_enumerator::<OperandId>(key, value)?;
            Ok(Operand { id: x, ..self })
        } else if str_eq(key, "input") {
            let x = read_bool(key, value)?;
            Ok(Operand { input: x, ..self })
        } else if str_eq(key, "output") {
            let x = read_bool(key, value)?;
            Ok(Operand { output: x, ..self })
        } else if str_eq(key, "extended_size") {
            let x = read_u64(key, value)?;
            Ok(Operand { extended_size: x, ..self })
        } else {
            Err(ParseInsError::new(ParseErrorKind::UnexpectedKey).at_field(key))
        }
    }
}

/// Reads the fields of one operand: `type`, `input`, `output` and
/// `extended_size`, and no other key.
pub fn parse_operand_fields(value: &JsonValue) -> (r: Result<Operand, ParseInsError>)
    ensures
        agrees(r, record_of::<Operand>(value@)),
{
    read_record_from(value, Operand::new())
}

impl Record for Prefix {
    open spec fn blank() -> Prefix {
        Prefix::empty()
    }

    open spec fn with_member(self, key: Seq<char>, value: Json) -> Result<Prefix, ParseFault> {
        if key == "mandatory"@ {
            match under(bool_of(value), key) {
                Ok(x) => Ok(Prefix { mandatory: x, ..self }),
                Err(e) => Err(e),
            }
        } else if key == "byte"@ {
            match under(byte_of(value, 16), key) {
                Ok(x) => Ok(Prefix { byte: x, ..self }),
                Err(e) => Err(e),
            }
        } else {
            Err(ParseFault::of(ParseErrorKind::UnexpectedKey).at_field(key))
        }
    }
}

impl ReadRecord for Prefix {
    type Model = Prefix;

    open spec fn model(&self) -> Prefix {
        *self
    }

    fn read_member(self, key: &str, value: &JsonValue) -> (r: Result<Prefix, ParseInsError>) {
        if str_eq(key, "mandatory") {
            let x = read_bool(key, value)?;
            Ok(Prefix { mandatory: x, ..self })
        } else if str_eq(key, "byte") {
            let x = read_byte(key, value, 16)?;
            Ok(Prefix { byte: x, ..self })
        } else {
            Err(ParseInsError::new(ParseErrorKind::UnexpectedKey).at_field(key))
        }
    }
}

/// Reads a legacy prefix: `mandatory` and the byte in hexadecimal.
pub fn parse_prefix(value: &JsonValue) -> (r: Result<Prefix, ParseInsError>)
    ensures
        agrees(r, record_of::<Prefix>(value@)),
{
    read_record_from(value, Prefix::new())
}

impl Record for REX {
    open spec fn blank() -> REX {
        REX::empty()
    }

    open spec fn with_member(self, key: Seq<char>, value: Json) -> Result<REX, ParseFault> {
        if key == "mandatory"@ {
            match under(bool_of(value), key) {
                Ok(x) => Ok(REX { mandatory: x, ..self }),
                Err(e) => Err(e),
            }
        } else if key == "W"@ {
            match under(enumerator_of::<Bit>(value), key) {
                Ok(x) => Ok(REX { W: x, ..self }),
                Err(e) => Err(e),
            }
        } else if key == "R"@ {
            match under(enumerator_of::<BitRef>(value), key) {
                Ok(x) => Ok(REX { R: x, ..self }),
                Err(e) => Err(e),
            }
        } else if key == "B"@ {
            match under(enumerator_of::<BitRef>(value), key) {
                Ok(x) => Ok(REX { B: x, ..self }),
                Err(e) => Err(e),
            }
        } else if key == "X"@ {
            match under(enumerator_of::<BitRef>(value), key) {
                Ok(x) => Ok(REX { X: x, ..self }),
                Err(e) => Err(e),
            }
        } else {
            Err(ParseFault::of(ParseErrorKind::UnexpectedKey).at_field(key))
        }
    }
}

impl ReadRecord for REX {
    type Model = REX;

    open spec fn model(&self) -> REX {
        *self
    }

    fn read_member(self, key: &str, value: &JsonValue) -> (r: Result<REX, ParseInsError>) {
        if str_eq(key, "mandatory") {
            let x = read_bool(key, value)?;
            Ok(REX { mandatory: x, ..self })
        } else if str_eq(key, "W") {
            let x = read_enumerator::<Bit>(key, value)?;
            Ok(REX { W: x, ..self })
        } else if str_eq(key, "R") {
            let x = read_enumerator::<BitRef>(key, value)?;
            Ok(REX { R: x, ..self })
        } else if str_eq(key, "B") {
            let x = read_enumerator::<BitRef>(key, value)?;
            Ok(REX { B: x, ..self })
        } else if str_eq(key, "X") {
            let x = read_enumerator::<BitRef>(key, value)?;
            Ok(REX { X: x, ..self })
        } else {
            Err(ParseInsError::new(ParseErrorKind::UnexpectedKey).at_field(key))
        }
    }
}

/// Reads the template of a REX prefix.
pub fn parse_rex(value: &JsonValue) -> (r: Result<REX, ParseInsError>)
    ensures
        agrees(r, record_of::<REX>(value@)),
{
    read_record_from(value, REX::new())
}

impl Record for VEX {
    open spec fn blank() -> VEX {
        VEX::empty()
    }

    open spec fn with_member(self, key: Seq<char>, value: Json) -> Result<VEX, ParseFault> {
        if key == "type"@ {
            match under(enumerator_of::<VEXType>(value), key) {
                Ok(x) => Ok(VEX { id: x, ..self }),
                Err(e) => Err(e),
            }
        } else if key == "mmmmm"@ {
            match under(byte_of(value, 2), key) {
                Ok(x) => Ok(VEX { mmmmm: x, ..self }),
                Err(e) => Err(e),
            }
        } else if key == "pp"@ {
            match under(byte_of(value, 2), key) {
                Ok(x) => Ok(VEX { pp: x, ..self }),
                Err(e) => Err(e),
            }
        } else if key == "W"@ {
            match under(enumerator_of::<Bit>(value), key) {
                Ok(x) => Ok(VEX { W: x, ..self }),
                Err(e) => Err(e),
            }
        } else if key == "L"@ {
            match under(enumerator_of::<Bit>(value), key) {
                Ok(x) => Ok(VEX { L: x, ..self }),
                Err(e) => Err(e),
            }
        } else if key == "R"@ {
            match under(enumerator_of::<BitRef>(value), key) {
                Ok(x) => Ok(VEX { R: x, ..self }),
                Err(e) => Err(e),
            }
        } else if key == "B"@ {
            match under(enumerator_of::<BitRef>(value), key) {
                Ok(x) => Ok(VEX { B: x, ..self }),
                Err(e) => Err(e),
            }
        } else if key == "X"@ {
            match under(enumerator_of::<BitRef>(value), key) {
                Ok(x) => Ok(VEX { X: x, ..self }),
                Err(e) => Err(e),
            }
        } else if key == "vvvv"@ {
            match under(enumerator_of::<ZeroRef>(value), key) {
                Ok(x) => Ok(VEX { vvvv: x, ..self }),
                Err(e) => Err(e),
            }
        } else {
            Err(ParseFault::of(ParseErrorKind::UnexpectedKey).at_field(key))
        }
    }
}

impl ReadRecord for VEX {
    type Model = VEX;

    open spec fn model(&self) -> VEX {
        *self
    }

    fn read_member(self, key: &str, value: &JsonValue) -> (r: Result<VEX, ParseInsError>) {
        if str_eq(key, "type") {
            let x = read_enumerator::<VEXType>(key, value)?;
            Ok(VEX { id: x, ..self })
        } else if str_eq(key, "mmmmm") {
            let x = read_byte(key, value, 2)?;
            Ok(VEX { mmmmm: x, ..self })
        } else if str_eq(key, "pp") {
            let x = read_byte(key, value, 2)?;
            Ok(VEX { pp: x, ..self })
        } else if str_eq(key, "W") {
            let x = read_enumerator::<Bit>(key, value)?;
            Ok(VEX { W: x, ..self })
        } else if str_eq(key, "L") {
            let x = read_enumerator::<Bit>(key, value)?;
            Ok(VEX { L: x, ..self })
        } else if str_eq(key, "R") {
            let x = read_enumerator::<BitRef>(key, value)?;
            Ok(VEX { R: x, ..self })
        } else if str_eq(key, "B") {
            let x = read_enumerator::<BitRef>(key, value)?;
            Ok(VEX { B: x, ..self })
        } else if str_eq(key, "X") {
            let x = read_enumerator::<BitRef>(key, value)?;
            Ok(VEX { X: x, ..self })
        } else if str_eq(key, "vvvv") {
            let x = read_enumerator::<ZeroRef>(key, value)?;
            Ok(VEX { vvvv: x, ..self })
        } else {
            Err(ParseInsError::new(ParseErrorKind::UnexpectedKey).at_field(key))
        }
    }
}

/// Reads the template of a VEX or XOP prefix; `mmmmm` and `pp` are binary.
pub fn parse_vex(value: &JsonValue) -> (r: Result<VEX, ParseInsError>)
    ensures
        agrees(r, record_of::<VEX>(value@)),
{
    read_record_from(value, VEX::new())
}

impl Record for EVEX {
    open spec fn blank() -> EVEX {
        EVEX::empty()
    }

    open spec fn with_member(self, key: Seq<char>, value: Json) -> Result<EVEX, ParseFault> {
        if key == "mm"@ {
            match under(byte_of(value, 2), key) {
                Ok(x) => Ok(EVEX { mm: x, ..self }),
                Err(e) => Err(e),
            }
        } else if key == "pp"@ {
            match under(byte_of(value, 2), key) {
                Ok(x) => Ok(EVEX { pp: x, ..self }),
                Err(e) => Err(e),
            }
        } else if key == "W"@ {
            match under(enumerator_of::<Bit>(value), key) {
                Ok(x) => Ok(EVEX { W: x, ..self }),
                Err(e) => Err(e),
            }
        } else if key == "LL"@ {
            match under(enumerator_of::<LLBitRef>(value), key) {
                Ok(x) => Ok(EVEX { LL: x, ..self }),
                Err(e) => Err(e),
            }
        } else if key == "RR"@ {
            match under(enumerator_of::<NoneRef>(value), key) {
                Ok(x) => Ok(EVEX { RR: x, ..self }),
                Err(e) => Err(e),
            }
        } else if key == "B"@ {
            match under(enumerator_of::<NoneRef>(value), key) {
                Ok(x) => Ok(EVEX { B: x, ..self }),
                Err(e) => Err(e),
            }
        } else if key == "X"@ {
            match under(enumerator_of::<NoneRef>(value), key) {
                Ok(x) => Ok(EVEX { X: x, ..self }),
                Err(e) => Err(e),
            }
        } else if key == "vvvv"@ {
            match under(enumerator_of::<ZeroRef>(value), key) {
                Ok(x) => Ok(EVEX { vvvv: x, ..self }),
                Err(e) => Err(e),
            }
        } else if key == "V"@ {
            match under(enumerator_of::<ZeroRef>(value), key) {
                Ok(x) => Ok(EVEX { V: x, ..self }),
                Err(e) => Err(e),
            }
        } else if key == "b"@ {
            match under(enumerator_of::<ZeroRef>(value), key) {
                Ok(x) => Ok(EVEX { b: x, ..self }),
                Err(e) => Err(e),
            }
        } else if key == "aaa"@ {
            match under(enumerator_of::<ZeroRef>(value), key) {
                Ok(x) => Ok(EVEX { aaa: x, ..self }),
                Err(e) => Err(e),
            }
        } else if key == "z"@ {
            match under(enumerator_of::<ZeroRef>(value), key) {
                Ok(x) => Ok(EVEX { z: x, ..self }),
                Err(e) => Err(e),
            }
        } else if key == "disp8xN"@ {
            match under(scale_of(value), key) {
                Ok(x) => Ok(EVEX { disp8xN: x, ..self }),
                Err(e) => Err(e),
            }
        } else {
            Err(ParseFault::of(ParseErrorKind::UnexpectedKey).at_field(key))
        }
    }
}

impl ReadRecord for EVEX {
    type Model = EVEX;

    open spec fn model(&self) -> EVEX {
        *self
    }

    fn read_member(self, key: &str, value: &JsonValue) -> (r: Result<EVEX, ParseInsError>) {
        if str_eq(key, "mm") {
            let x = read_byte(key, value, 2)?;
            Ok(EVEX { mm: x, ..self })
        } else if str_eq(key, "pp") {
            let x = read_byte(key, value, 2)?;
            Ok(EVEX { pp: x, ..self })
        } else if str_eq(key, "W") {
            let x = read_enumerator::<Bit>(key, value)?;
            Ok(EVEX { W: x, ..self })
        } else if str_eq(key, "LL") {
            let x = read_enumerator::<LLBitRef>(key, value)?;
            Ok(EVEX { LL: x, ..self })
        } else if str_eq(key, "RR") {
            let x = read_enumerator::<NoneRef>(key, value)?;
            Ok(EVEX { RR: x, ..self })
        } else if str_eq(key, "B") {
            let x = read_enumerator::<NoneRef>(key, value)?;
            Ok(EVEX { B: x, ..self })
        } else if str_eq(key, "X") {
            let x = read_enumerator::<NoneRef>(key, value)?;
            Ok(EVEX { X: x, ..self })
        } else if str_eq(key, "vvvv") {
            let x = read_enumerator::<ZeroRef>(key, value)?;
            Ok(EVEX { vvvv: x, ..self })
        } else if str_eq(key, "V") {
            let x = read_enumerator::<ZeroRef>(key, value)?;
            Ok(EVEX { V: x, ..self })
        } else if str_eq(key, "b") {
            let x = read_enumerator::<ZeroRef>(key, value)?;
            Ok(EVEX { b: x, ..self })
        } else if str_eq(key, "aaa") {
            let x = read_enumerator::<ZeroRef>(key, value)?;
            Ok(EVEX { aaa: x, ..self })
        } else if str_eq(key, "z") {
            let x = read_enumerator::<ZeroRef>(key, value)?;
            Ok(EVEX { z: x, ..self })
        } else if str_eq(key, "disp8xN") {
            let x = read_scale(key, value)?;
            Ok(EVEX { disp8xN: x, ..self })
        } else {
            Err(ParseInsError::new(ParseErrorKind::UnexpectedKey).at_field(key))
        }
    }
}

/// Reads the template of an EVEX prefix; `mm` and `pp` are binary, and
/// `disp8xN` is a power of two from 1 to 64.
pub fn parse_evex(value: &JsonValue) -> (r: Result<EVEX, ParseInsError>)
    ensures
        agrees(r, record_of::<EVEX>(value@)),
{
    read_record_from(value, EVEX::new())
}

impl Record for Opcode {
    open spec fn blank() -> Opcode {
        Opcode::empty()
    }

    open spec fn with_member(self, key: Seq<char>, value: Json) -> Result<Opcode, ParseFault> {
        if key == "byte"@ {
            match under(byte_of(value, 16), key) {
                Ok(x) => Ok(Opcode { byte: x, ..self }),
                Err(e) => Err(e),
            }
        } else if key == "addend"@ {
            match under(enumerator_of::<NoneRef>(value), key) {
                Ok(x) => Ok(Opcode { addend: x, ..self }),
                Err(e) => Err(e),
            }
        } else {
            Err(ParseFault::of(ParseErrorKind::UnexpectedKey).at_field(key))
        }
    }
}

impl ReadRecord for Opcode {
    type Model = Opcode;

    open spec fn model(&self) -> Opcode {
        *self
    }

    fn read_member(self, key: &str, value: &JsonValue) -> (r: Result<Opcode, ParseInsError>) {
        if str_eq(key, "byte") {
            let x = read_byte(key, value, 16)?;
            Ok(Opcode { byte: x, ..self })
        } else if str_eq(key, "addend") {
            let x = read_enumerator::<NoneRef>(key, value)?;
            Ok(Opcode { addend: x, ..self })
        } else {
            Err(ParseInsError::new(ParseErrorKind::UnexpectedKey).at_field(key))
        }
    }
}

/// Reads one opcode byte, in hexadecimal, and its addend.
pub fn parse_opcode(value: &JsonValue) -> (r: Result<Opcode, ParseInsError>)
    ensures
        agrees(r, record_of::<Opcode>(value@)),
{
    read_record_from(value, Opcode::new())
}

impl Record for ModRM {
    open spec fn blank() -> ModRM {
        ModRM::empty()
    }

    open spec fn with_member(self, key: Seq<char>, value: Json) -> Result<ModRM, ParseFault> {
        if key == "mode"@ {
            match under(enumerator_of::<AddressMode>(value), key) {
                Ok(x) => Ok(ModRM { mode: x, ..self }),
                Err(e) => Err(e),
            }
        } else if key == "rm"@ {
            match under(enumerator_of::<NoneRef>(value), key) {
                Ok(x) => Ok(ModRM { rm: x, ..self }),
                Err(e) => Err(e),
            }
        } else if key == "reg"@ {
            match under(enumerator_of::<IntOrRef>(value), key) {
                Ok(x) => Ok(ModRM { reg: x, ..self }),
                Err(e) => Err(e),
            }
        } else {
            Err(ParseFault::of(ParseErrorKind::UnexpectedKey).at_field(key))
        }
    }
}

impl ReadRecord for ModRM {
    type Model = ModRM;

    open spec fn model(&self) -> ModRM {
        *self
    }

    fn read_member(self, key: &str, value: &JsonValue) -> (r: Result<ModRM, ParseInsError>) {
        if str_eq(key, "mode") {
            let x = read_enumerator::<AddressMode>(key, value)?;
            Ok(ModRM { mode: x, ..self })
        } else if str_eq(key, "rm") {
            let x = read_enumerator::<NoneRef>(key, value)?;
            Ok(ModRM { rm: x, ..self })
        } else if str_eq(key, "reg") {
            let x = read_enumerator::<IntOrRef>(key, value)?;
            Ok(ModRM { reg: x, ..self })
        } else {
            Err(ParseInsError::new(ParseErrorKind::UnexpectedKey).at_field(key))
        }
    }
}

/// Reads the template of the ModR/M byte.
pub fn parse_modrm(value: &JsonValue) -> (r: Result<ModRM, ParseInsError>)
    ensures
        agrees(r, record_of::<ModRM>(value@)),
{
    read_record_from(value, ModRM::new())
}

impl Record for RegisterByte {
    open spec fn blank() -> RegisterByte {
        RegisterByte::empty()
    }

    open spec fn with_member(self, key: Seq<char>, value: Json) -> Result<
        RegisterByte,
        ParseFault,
    > {
        if key == "register"@ {
            match under(enumerator_of::<NoneRef>(value), key) {
                Ok(x) => Ok(RegisterByte { register: x, ..self }),
                Err(e) => Err(e),
            }
        } else if key == "payload"@ {
            match under(enumerator_of::<NoneRef>(value), key) {
                Ok(x) => Ok(RegisterByte { payload: x, ..self }),
                Err(e) => Err(e),
            }
        } else {
            Err(ParseFault::of(ParseErrorKind::UnexpectedKey).at_field(key))
        }
    }
}

impl ReadRecord for RegisterByte {
    type Model = RegisterByte;

    open spec fn model(&self) -> RegisterByte {
        *self
    }

    fn read_member(self, key: &str, value: &JsonValue) -> (r: Result<RegisterByte, ParseInsError>) {
        if str_eq(key, "register") {
            let x = read_enumerator::<NoneRef>(key, value)?;
            Ok(RegisterByte { register: x, ..self })
        } else if str_eq(key, "payload") {
            let x = read_enumerator::<NoneRef>(key, value)?;
            Ok(RegisterByte { payload: x, ..self })
        } else {
            Err(ParseInsError::new(ParseErrorKind::UnexpectedKey).at_field(key))
        }
    }
}

/// Reads the template of a register byte.
pub fn parse_register_byte(value: &JsonValue) -> (r: Result<RegisterByte, ParseInsError>)
    ensures
        agrees(r, record_of::<RegisterByte>(value@)),
{
    read_record_from(value, RegisterByte::new())
}

impl Record for Immediate {
    open spec fn blank() -> Immediate {
        Immediate::empty()
    }

    open spec fn with_member(self, key: Seq<char>, value: Json) -> Result<Immediate, ParseFault> {
        if key == "size"@ {
            match under(size_of(value, seq![1u64, 2u64, 4u64, 8u64]), key) {
                Ok(x) => Ok(Immediate { size: x, ..self }),
                Err(e) => Err(e),
            }
        } else if key == "value"@ {
            match under(enumerator_of::<IntOrRef>(value), key) {
                Ok(x) => Ok(Immediate { value: x, ..self }),
                Err(e) => Err(e),
            }
        } else {
            Err(ParseFault::of(ParseErrorKind::UnexpectedKey).at_field(key))
        }
    }
}

impl ReadRecord for Immediate {
    type Model = Immediate;

    open spec fn model(&self) -> Immediate {
        *self
    }

    fn read_member(self, key: &str, value: &JsonValue) -> (r: Result<Immediate, ParseInsError>) {
        if str_eq(key, "size") {
            let x = read_size(key, value, &vec![1u64, 2u64, 4u64, 8u64])?;
            Ok(Immediate { size: x, ..self })
        } else if str_eq(key, "value") {
            let x = read_enumerator::<IntOrRef>(key, value)?;
            Ok(Immediate { value: x, ..self })
        } else {
            Err(ParseInsError::new(ParseErrorKind::UnexpectedKey).at_field(key))
        }
    }
}

/// Reads an immediate; its size is 1, 2, 4 or 8.
pub fn parse_immediate(value: &JsonValue) -> (r: Result<Immediate, ParseInsError>)
    ensures
        agrees(r, record_of::<Immediate>(value@)),
{
    read_record_from(value, Immediate::new())
}

impl Record for CodeOffset {
    open spec fn blank() -> CodeOffset {
        CodeOffset::empty()
    }

    open spec fn with_member(self, key: Seq<char>, value: Json) -> Result<CodeOffset, ParseFault> {
        if key == "size"@ {
            match under(size_of(value, seq![1u64, 4u64]), key) {
                Ok(x) => Ok(CodeOffset { size: x, ..self }),
                Err(e) => Err(e),
            }
        } else if key == "value"@ {
            match under(enumerator_of::<NoneRef>(value), key) {
                Ok(x) => Ok(CodeOffset { value: x, ..self }),
                Err(e) => Err(e),
            }
        } else {
            Err(ParseFault::of(ParseErrorKind::UnexpectedKey).at_field(key))
        }
    }
}

impl ReadRecord for CodeOffset {
    type Model = CodeOffset;

    open spec fn model(&self) -> CodeOffset {
        *self
    }

    fn read_member(self, key: &str, value: &JsonValue) -> (r: Result<CodeOffset, ParseInsError>) {
        if str_eq(key, "size") {
            let x = read_size(key, value, &vec![1u64, 4u64])?;
            Ok(CodeOffset { size: x, ..self })
        } else if str_eq(key, "value") {
            let x = read_enumerator::<NoneRef>(key, value)?;
            Ok(CodeOffset { value: x, ..self })
        } else {
            Err(ParseInsError::new(ParseErrorKind::UnexpectedKey).at_field(key))
        }
    }
}

/// Reads a code offset; its size is 1 or 4.
pub fn parse_code_offset(value: &JsonValue) -> (r: Result<CodeOffset, ParseInsError>)
    ensures
        agrees(r, record_of::<CodeOffset>(value@)),
{
    read_record_from(value, CodeOffset::new())
}

impl Record for DataOffset {
    open spec fn blank() -> DataOffset {
        DataOffset::empty()
    }

    open spec fn with_member(self, key: Seq<char>, value: Json) -> Result<DataOffset, ParseFault> {
        if key == "size"@ {
            match under(size_of(value, seq![4u64, 8u64]), key) {
                Ok(x) => Ok(DataOffset { size: x, ..self }),
                Err(e) => Err(e),
            }
        } else if key == "value"@ {
            match under(enumerator_of::<NoneRef>(value), key) {
                Ok(x) => Ok(DataOffset { value: x, ..self }),
                Err(e) => Err(e),
            }
        } else {
            Err(ParseFault::of(ParseErrorKind::UnexpectedKey).at_field(key))
        }
    }
}

impl ReadRecord for DataOffset {
    type Model = DataOffset;

    open spec fn model(&self) -> DataOffset {
        *self
    }

    fn read_member(self, key: &str, value: &JsonValue) -> (r: Result<DataOffset, ParseInsError>) {
        if str_eq(key, "size") {
            let x = read_size(key, value, &vec![4u64, 8u64])?;
            Ok(DataOffset { size: x, ..self })
        } else if str_eq(key, "value") {
            let x = read_enumerator::<NoneRef>(key, value)?;
            Ok(DataOffset { value: x, ..self })
        } else {
            Err(ParseInsError::new(ParseErrorKind::UnexpectedKey).at_field(key))
        }
    }
}

/// Reads a data offset; its size is 4 or 8.
pub fn parse_data_offset(value: &JsonValue) -> (r: Result<DataOffset, ParseInsError>)
    ensures
        agrees(r, record_of::<DataOffset>(value@)),
{
    read_record_from(value, DataOffset::new())
}

/// An element of a list of the schema.
pub trait Element: Sized {
    /// The element that a JSON value describes.
    spec fn of(j: Json) -> Result<Self, ParseFault>;
}

/// The elements that the first `n` values of an array give, in order. The
/// first value that is a fault ends the reading.
pub open spec fn read_items<E: Element>(items: Seq<Json>, n: nat) -> Result<Seq<E>, ParseFault>
    decreases n,
{
    if n == 0 {
        Ok(Seq::empty())
    } else {
        match read_items::<E>(items, (n - 1) as nat) {
            Ok(list) => match E::of(items[n - 1]) {
                Ok(x) => Ok(list.push(x)),
                Err(e) => Err(e),
            },
            Err(e) => Err(e),
        }
    }
}

/// The list that a JSON value describes. Anything but an array is a fault.
pub open spec fn list_of<E: Element>(j: Json) -> Result<Seq<E>, ParseFault> {
    match j {
        Json::Array(items) => read_items::<E>(items, items.len()),
        _ => Err(ParseFault::of(ParseErrorKind::UnexpectedType)),
    }
}

/// A fault among the first `k` values is the outcome of the whole array.
pub proof fn lemma_fault_ends_list<E: Element>(items: Seq<Json>, k: nat, n: nat)
    requires
        k <= n,
        read_items::<E>(items, k) is Err,
    ensures
        read_items::<E>(items, n) == read_items::<E>(items, k),
    decreases n - k,
{
    if k < n {
        lemma_fault_ends_list::<E>(items, k, (n - 1) as nat);
    }
}

impl Element for ImplicitOperand {
    open spec fn of(j: Json) -> Result<ImplicitOperand, ParseFault> {
        record_of::<ImplicitOperand>(j)
    }
}

impl Element for Operand {
    /// An operand has a kind of the closed taxonomy: one without `type` is a fault.
    open spec fn of(j: Json) -> Result<Operand, ParseFault> {
        match record_of::<Operand>(j) {
            Ok(operand) => if operand.id == OperandId::NONE {
                Err(ParseFault::of(ParseErrorKind::MissingField).at_field("type"@))
            } else {
                Ok(operand)
            },
            Err(e) => Err(e),
        }
    }
}

impl Element for EncodingView {
    open spec fn of(j: Json) -> Result<EncodingView, ParseFault> {
        record_of::<EncodingView>(j)
    }
}

/// Reads the list of a form's implicit operands.
pub fn parse_implicit_operands(value: &JsonValue) -> (r: Result<
    Vec<ImplicitOperand>,
    ParseInsError,
>)
    ensures
        agrees_as(r, list_of::<ImplicitOperand>(value@)),
{
    match value {
        JsonValue::Array(items) => {
            let ghost a = value@->Array_0;
            proof {
                lemma_view_array(*value);
            }
            let mut list: Vec<ImplicitOperand> = Vec::new();
            let mut i: usize = 0;
            while i < items.len()
                invariant
                    i <= items@.len(),
                    value@ == Json::Array(a),
                    holds_items(items@, a),
                    read_items::<ImplicitOperand>(a, i as nat) == Ok::<
                        Seq<ImplicitOperand>,
                        ParseFault,
                    >(list@),
                decreases items@.len() - i,
            {
                match parse_implicit_operand(&items[i]) {
                    Ok(x) => {
                        list.push(x);
                    },
                    Err(e) => {
                        proof {
                            lemma_fault_ends_list::<ImplicitOperand>(a, (i + 1) as nat, a.len());
                        }
                        return Err(e);
                    },
                }
                i = i + 1;
            }
            Ok(list)
        },
        _ => Err(ParseInsError::new(ParseErrorKind::UnexpectedType)),
    }
}

/// Reads one operand. Its kind is one of the closed taxonomy.
pub fn parse_operand(value: &JsonValue) -> (r: Result<Operand, ParseInsError>)
    ensures
        agrees(r, <Operand as Element>::of(value@)),
        r matches Ok(operand) ==> operand.id != OperandId::NONE,
{
    let operand = parse_operand_fields(value)?;
    if operand.id == OperandId::NONE {
        Err(ParseInsError::new(ParseErrorKind::MissingField).at_field("type"))
    } else {
        Ok(operand)
    }
}

/// Reads the list of a form's operands. Each has a kind of the closed
/// taxonomy; a name outside it is rejected.
pub fn parse_operands(value: &JsonValue) -> (r: Result<Vec<Operand>, ParseInsError>)
    ensures
        agrees_as(r, list_of::<Operand>(value@)),
        r matches Ok(list) ==> forall|k: int|
            0 <= k < list@.len() ==> (#[trigger] list@[k]).id != OperandId::NONE,
{
    match value {
        JsonValue::Array(items) => {
            let ghost a = value@->Array_0;
            proof {
                lemma_view_array(*value);
            }
            let mut list: Vec<Operand> = Vec::new();
            let mut i: usize = 0;
            while i < items.len()
                invariant
                    i <= items@.len(),
                    value@ == Json::Array(a),
                    holds_items(items@, a),
                    read_items::<Operand>(a, i as nat) == Ok::<Seq<Operand>, ParseFault>(list@),
                    forall|k: int|
                        0 <= k < list@.len() ==> (#[trigger] list@[k]).id != OperandId::NONE,
                decreases items@.len() - i,
            {
                match parse_operand(&items[i]) {
                    Ok(x) => {
                        list.push(x);
                    },
                    Err(e) => {
                        proof {
                            lemma_fault_ends_list::<Operand>(a, (i + 1) as nat, a.len());
                        }
                        return Err(e);
                    },
                }
                i = i + 1;
            }
            Ok(list)
        },
        _ => Err(ParseInsError::new(ParseErrorKind::UnexpectedType)),
    }
}

impl Record for EncodingView {
    open spec fn blank() -> EncodingView {
        EncodingView::empty()
    }

    /// A key that the encoder does not know is passed over.
    open spec fn with_member(self, key: Seq<char>, value: Json) -> Result<
        EncodingView,
        ParseFault,
    > {
        if key == "prefix"@ {
            match under(record_of::<Prefix>(value), key) {
                Ok(x) => Ok(EncodingView { prefix: Some(x), ..self }),
                Err(e) => Err(e),
            }
        } else if key == "REX"@ {
            match under(record_of::<REX>(value), key) {
                Ok(x) => Ok(EncodingView { rex: Some(x), ..self }),
                Err(e) => Err(e),
            }
        } else if key == "VEX"@ {
            match under(record_of::<VEX>(value), key) {
                Ok(x) => Ok(EncodingView { vex: Some(x), ..self }),
                Err(e) => Err(e),
            }
        } else if key == "EVEX"@ {
            match under(record_of::<EVEX>(value), key) {
                Ok(x) => Ok(EncodingView { evex: Some(x), ..self }),
                Err(e) => Err(e),
            }
        } else if key == "opcode"@ {
            match under(record_of::<Opcode>(value), key) {
                Ok(x) => Ok(EncodingView { opcodes: self.opcodes.push(x), ..self }),
                Err(e) => Err(e),
            }
        } else if key == "ModRM"@ {
            match under(record_of::<ModRM>(value), key) {
                Ok(x) => Ok(EncodingView { modrm: Some(x), ..self }),
                Err(e) => Err(e),
            }
        } else if key == "register_byte"@ {
            match under(record_of::<RegisterByte>(value), key) {
                Ok(x) => Ok(EncodingView { register_byte: Some(x), ..self }),
                Err(e) => Err(e),
            }
        } else if key == "immediate"@ {
            match under(record_of::<Immediate>(value), key) {
                Ok(x) => Ok(EncodingView { immediate: Some(x), ..self }),
                Err(e) => Err(e),
            }
        } else if key == "data_offset"@ {
            match under(record_of::<DataOffset>(value), key) {
                Ok(x) => Ok(EncodingView { data_offset: Some(x), ..self }),
                Err(e) => Err(e),
            }
        } else if key == "code_offset"@ {
            match under(record_of::<CodeOffset>(value), key) {
                Ok(x) => Ok(EncodingView { code_offset: Some(x), ..self }),
                Err(e) => Err(e),
            }
        } else {
            Ok(self)
        }
    }
}

impl ReadRecord for Encoding {
    type Model = EncodingView;

    open spec fn model(&self) -> EncodingView {
        self@
    }

    fn read_member(self, key: &str, value: &JsonValue) -> (r: Result<Encoding, ParseInsError>) {
        let mut record = self;
        if str_eq(key, "prefix") {
            match parse_prefix(value) {
                Ok(x) => {
                    record.prefix = Some(x);
                    Ok(record)
                },
                Err(e) => Err(e.at_field(key)),
            }
        } else if str_eq(key, "REX") {
            match parse_rex(value) {
                Ok(x) => {
                    record.rex = Some(x);
                    Ok(record)
                },
                Err(e) => Err(e.at_field(key)),
            }
        } else if str_eq(key, "VEX") {
            match parse_vex(value) {
                Ok(x) => {
                    record.vex = Some(x);
                    Ok(record)
                },
                Err(e) => Err(e.at_field(key)),
            }
        } else if str_eq(key, "EVEX") {
            match parse_evex(value) {
                Ok(x) => {
                    record.evex = Some(x);
                    Ok(record)
                },
                Err(e) => Err(e.at_field(key)),
            }
        } else if str_eq(key, "opcode") {
            match parse_opcode(value) {
                Ok(x) => {
                    record.opcodes.push(x);
                    Ok(record)
                },
                Err(e) => Err(e.at_field(key)),
            }
        } else if str_eq(key, "ModRM") {
            match parse_modrm(value) {
                Ok(x) => {
                    record.modrm = Some(x);
                    Ok(record)
                },
                Err(e) => Err(e.at_field(key)),
            }
        } else if str_eq(key, "register_byte") {
            match parse_register_byte(value) {
                Ok(x) => {
                    record.register_byte = Some(x);
                    Ok(record)
                },
                Err(e) => Err(e.at_field(key)),
            }
        } else if str_eq(key, "immediate") {
            match parse_immediate(value) {
                Ok(x) => {
                    record.immediate = Some(x);
                    Ok(record)
                },
                Err(e) => Err(e.at_field(key)),
            }
        } else if str_eq(key, "data_offset") {
            match parse_data_offset(value) {
                Ok(x) => {
                    record.data_offset = Some(x);
                    Ok(record)
                },
                Err(e) => Err(e.at_field(key)),
            }
        } else if str_eq(key, "code_offset") {
            match parse_code_offset(value) {
                Ok(x) => {
                    record.code_offset = Some(x);
                    Ok(record)
                },
                Err(e) => Err(e.at_field(key)),
            }
        } else {
            Ok(record)
        }
    }
}

/// Reads one encoding template. Keys that are not part of a template are
/// passed over.
pub fn parse_encoding(value: &JsonValue) -> (r: Result<Encoding, ParseInsError>)
    ensures
        agrees_as(r, record_of::<EncodingView>(value@)),
{
    read_record_from(value, Encoding::new())
}

/// Reads the list of a form's encoding templates, in order.
pub fn parse_encodings(value: &JsonValue) -> (r: Result<Vec<Encoding>, ParseInsError>)
    ensures
        match r {
            Ok(list) => list_of::<EncodingView>(value@) == Ok::<Seq<EncodingView>, ParseFault>(
                encoding_views(list@),
            ),
            Err(e) => list_of::<EncodingView>(value@) == Err::<Seq<EncodingView>, ParseFault>(e@),
        },
{
    match value {
        JsonValue::Array(items) => {
            let ghost a = value@->Array_0;
            proof {
                lemma_view_array(*value);
            }
            let mut list: Vec<Encoding> = Vec::new();
            let mut i: usize = 0;
            assert(encoding_views(list@) =~= Seq::empty());
            while i < items.len()
                invariant
                    i <= items@.len(),
                    value@ == Json::Array(a),
                    holds_items(items@, a),
                    read_items::<EncodingView>(a, i as nat) == Ok::<Seq<EncodingView>, ParseFault>(
                        encoding_views(list@),
                    ),
                decreases items@.len() - i,
            {
                match parse_encoding(&items[i]) {
                    Ok(x) => {
                        let ghost before = encoding_views(list@);
                        list.push(x);
                        assert(encoding_views(list@) =~= before.push(x@));
                    },
                    Err(e) => {
                        proof {
                            lemma_fault_ends_list::<EncodingView>(a, (i + 1) as nat, a.len());
                        }
                        return Err(e);
                    },
                }
                i = i + 1;
            }
            Ok(list)
        },
        _ => Err(ParseInsError::new(ParseErrorKind::UnexpectedType)),
    }
}

/// The extensions that one entry of a form's `isa` list names.
pub struct IsaTags {
    pub tags: Seq<ISA>,
}

impl Record for IsaTags {
    open spec fn blank() -> IsaTags {
        IsaTags { tags: Seq::empty() }
    }

    open spec fn with_member(self, key: Seq<char>, value: Json) -> Result<IsaTags, ParseFault> {
        if key == "id"@ {
            match under(enumerator_of::<ISA>(value), key) {
                Ok(x) => Ok(IsaTags { tags: self.tags.push(x) }),
                Err(e) => Err(e),
            }
        } else {
            Err(ParseFault::of(ParseErrorKind::UnexpectedKey).at_field(key))
        }
    }
}

/// The extensions that the first `n` entries of an `isa` list name, in order.
pub open spec fn read_isas(items: Seq<Json>, n: nat) -> Result<Seq<ISA>, ParseFault>
    decreases n,
{
    if n == 0 {
        Ok(Seq::empty())
    } else {
        match read_isas(items, (n - 1) as nat) {
            Ok(list) => match record_of::<IsaTags>(items[n - 1]) {
                Ok(entry) => Ok(list + entry.tags),
                Err(e) => Err(e),
            },
            Err(e) => Err(e),
        }
    }
}

/// The extensions that a form's `isa` list names.
pub open spec fn isas_of(j: Json) -> Result<Seq<ISA>, ParseFault> {
    match j {
        Json::Array(items) => read_isas(items, items.len()),
        _ => Err(ParseFault::of(ParseErrorKind::UnexpectedType)),
    }
}

/// A fault among the first `k` entries is the outcome of the whole list.
pub proof fn lemma_fault_ends_isas(items: Seq<Json>, k: nat, n: nat)
    requires
        k <= n,
        read_isas(items, k) is Err,
    ensures
        read_isas(items, n) == read_isas(items, k),
    decreases n - k,
{
    if k < n {
        lemma_fault_ends_isas(items, k, (n - 1) as nat);
    }
}

impl ReadRecord for Vec<ISA> {
    type Model = IsaTags;

    open spec fn model(&self) -> IsaTags {
        IsaTags { tags: self@ }
    }

    fn read_member(self, key: &str, value: &JsonValue) -> (r: Result<Vec<ISA>, ParseInsError>) {
        if str_eq(key, "id") {
            let x = read_enumerator::<ISA>(key, value)?;
            let mut tags = self;
            tags.push(x);
            Ok(tags)
        } else {
            Err(ParseInsError::new(ParseErrorKind::UnexpectedKey).at_field(key))
        }
    }
}

/// Reads the extensions that a form requires: a list of objects, each of
/// which names an extension under `id`.
pub fn parse_isa(value: &JsonValue) -> (r: Result<Vec<ISA>, ParseInsError>)
    ensures
        agrees_as(r, isas_of(value@)),
{
    match value {
        JsonValue::Array(items) => {
            let ghost a = value@->Array_0;
            proof {
                lemma_view_array(*value);
            }
            let mut list: Vec<ISA> = Vec::new();
            let mut i: usize = 0;
            while i < items.len()
                invariant
                    i <= items@.len(),
                    value@ == Json::Array(a),
                    holds_items(items@, a),
                    read_isas(a, i as nat) == Ok::<Seq<ISA>, ParseFault>(list@),
                decreases items@.len() - i,
            {
                match read_record_from(&items[i], Vec::<ISA>::new()) {
                    Ok(tags) => {
                        let mut tags = tags;
                        list.append(&mut tags);
                    },
                    Err(e) => {
                        proof {
                            lemma_fault_ends_isas(a, (i + 1) as nat, a.len());
                        }
                        return Err(e);
                    },
                }
                i = i + 1;
            }
            Ok(list)
        },
        _ => Err(ParseInsError::new(ParseErrorKind::UnexpectedType)),
    }
}

impl Record for FormView {
    open spec fn blank() -> FormView {
        FormView::empty()
    }

    /// The keys of a form are closed: any other key is a fault.
    open spec fn with_member(self, key: Seq<char>, value: Json) -> Result<FormView, ParseFault> {
        if key == "mmx_mode"@ {
            match under(enumerator_of::<MMXMode>(value), key) {
                Ok(x) => Ok(FormView { mmx_mode: x, ..self }),
                Err(e) => Err(e),
            }
        } else if key == "xmm_mode"@ {
            match under(enumerator_of::<XMMMode>(value), key) {
                Ok(x) => Ok(FormView { xmm_mode: x, ..self }),
                Err(e) => Err(e),
            }
        } else if key == "canceling_inputs"@ {
            match under(bool_of(value), key) {
                Ok(x) => Ok(FormView { canceling_inputs: x, ..self }),
                Err(e) => Err(e),
            }
        } else if key == "isa"@ {
            match under(isas_of(value), key) {
                Ok(x) => Ok(FormView { isas: self.isas + x, ..self }),
                Err(e) => Err(e),
            }
        } else if key == "implicit_operands"@ {
            match under(list_of::<ImplicitOperand>(value), key) {
                Ok(x) => Ok(FormView { implicit_operands: self.implicit_operands + x, ..self }),
                Err(e) => Err(e),
            }
        } else if key == "operands"@ {
            match under(list_of::<Operand>(value), key) {
                Ok(x) => Ok(FormView { operands: self.operands + x, ..self }),
                Err(e) => Err(e),
            }
        } else if key == "encodings"@ {
            match under(list_of::<EncodingView>(value), key) {
                Ok(x) => Ok(FormView { encodings: self.encodings + x, ..self }),
                Err(e) => Err(e),
            }
        } else {
            Err(ParseFault::of(ParseErrorKind::UnexpectedKey).at_field(key))
        }
    }
}

impl ReadRecord for InstructionForm {
    type Model = FormView;

    open spec fn model(&self) -> FormView {
        self@
    }

    fn read_member(self, key: &str, value: &JsonValue) -> (r: Result<
        InstructionForm,
        ParseInsError,
    >) {
        let mut record = self;
        if str_eq(key, "mmx_mode") {
            let x = read_enumerator::<MMXMode>(key, value)?;
            record.mmx_mode = x;
            Ok(record)
        } else if str_eq(key, "xmm_mode") {
            let x = read_enumerator::<XMMMode>(key, value)?;
            record.xmm_mode = x;
            Ok(record)
        } else if str_eq(key, "canceling_inputs") {
            let x = read_bool(key, value)?;
            record.canceling_inputs = x;
            Ok(record)
        } else if str_eq(key, "isa") {
            match parse_isa(value) {
                Ok(x) => {
                    let mut x = x;
                    record.isas.append(&mut x);
                    Ok(record)
                },
                Err(e) => Err(e.at_field(key)),
            }
        } else if str_eq(key, "implicit_operands") {
            match parse_implicit_operands(value) {
                Ok(x) => {
                    let mut x = x;
                    record.implicit_operands.append(&mut x);
                    Ok(record)
                },
                Err(e) => Err(e.at_field(key)),
            }
        } else if str_eq(key, "operands") {
            match parse_operands(value) {
                Ok(x) => {
                    let mut x = x;
                    record.operands.append(&mut x);
                    Ok(record)
                },
                Err(e) => Err(e.at_field(key)),
            }
        } else if str_eq(key, "encodings") {
            match parse_encodings(value) {
                Ok(x) => {
                    let mut x = x;
                    let ghost before = encoding_views(record.encodings@);
                    let ghost added = encoding_views(x@);
                    record.encodings.append(&mut x);
                    assert(encoding_views(record.encodings@) =~= before + added);
                    Ok(record)
                },
                Err(e) => Err(e.at_field(key)),
            }
        } else {
            Err(ParseInsError::new(ParseErrorKind::UnexpectedKey).at_field(key))
        }
    }
}

/// Reads one form. Its keys are closed: an unknown key is rejected.
pub fn parse_form(value: &JsonValue) -> (r: Result<InstructionForm, ParseInsError>)
    ensures
        agrees_as(r, record_of::<FormView>(value@)),
{
    read_record_from(value, InstructionForm::new())
}

/// The forms that the first `n` values of a list give. A fault names the
/// index of the form in which it lies.
pub open spec fn read_forms(items: Seq<Json>, n: nat) -> Result<Seq<FormView>, ParseFault>
    decreases n,
{
    if n == 0 {
        Ok(Seq::empty())
    } else {
        match read_forms(items, (n - 1) as nat) {
            Ok(list) => match record_of::<FormView>(items[n - 1]) {
                Ok(form) => Ok(list.push(form)),
                Err(e) => Err(e.in_form((n - 1) as usize)),
            },
            Err(e) => Err(e),
        }
    }
}

/// The forms that a mnemonic's `forms` value describes.
pub open spec fn forms_of(j: Json) -> Result<Seq<FormView>, ParseFault> {
    match j {
        Json::Array(items) => read_forms(items, items.len()),
        _ => Err(ParseFault::of(ParseErrorKind::UnexpectedType)),
    }
}

/// A fault among the first `k` forms is the outcome of the whole list.
pub proof fn lemma_fault_ends_forms(items: Seq<Json>, k: nat, n: nat)
    requires
        k <= n,
        read_forms(items, k) is Err,
    ensures
        read_forms(items, n) == read_forms(items, k),
    decreases n - k,
{
    if k < n {
        lemma_fault_ends_forms(items, k, (n - 1) as nat);
    }
}

/// Reads the forms of a mnemonic, in order.
pub fn parse_forms(value: &JsonValue) -> (r: Result<Vec<InstructionForm>, ParseInsError>)
    ensures
        match r {
            Ok(list) => forms_of(value@) == Ok::<Seq<FormView>, ParseFault>(form_views(list@)),
            Err(e) => forms_of(value@) == Err::<Seq<FormView>, ParseFault>(e@),
        },
{
    match value {
        JsonValue::Array(items) => {
            let ghost a = value@->Array_0;
            proof {
                lemma_view_array(*value);
            }
            let mut list: Vec<InstructionForm> = Vec::new();
            let mut i: usize = 0;
            assert(form_views(list@) =~= Seq::empty());
            while i < items.len()
                invariant
                    i <= items@.len(),
                    value@ == Json::Array(a),
                    holds_items(items@, a),
                    read_forms(a, i as nat) == Ok::<Seq<FormView>, ParseFault>(form_views(list@)),
                decreases items@.len() - i,
            {
                match parse_form(&items[i]) {
                    Ok(x) => {
                        let ghost before = form_views(list@);
                        list.push(x);
                        assert(form_views(list@) =~= before.push(x@));
                    },
                    Err(e) => {
                        proof {
                            lemma_fault_ends_forms(a, (i + 1) as nat, a.len());
                        }
                        return Err(e.in_form(i));
                    },
                }
                i = i + 1;
            }
            Ok(list)
        },
        _ => Err(ParseInsError::new(ParseErrorKind::UnexpectedType)),
    }
}

/// Reads a string.
pub fn parse_string(value: &JsonValue) -> (r: Result<String, ParseInsError>)
    ensures
        agrees_as(r, text_of(value@)),
{
    match value {
        JsonValue::String(s) => Ok(s.clone()),
        _ => Err(ParseInsError::new(ParseErrorKind::UnexpectedType)),
    }
}

impl Record for InstructionView {
    open spec fn blank() -> InstructionView {
        InstructionView { name: Seq::empty(), summary: Seq::empty(), forms: Seq::empty() }
    }

    /// Of a mnemonic's description `summary` and `forms` are read; other keys
    /// are passed over.
    open spec fn with_member(self, key: Seq<char>, value: Json) -> Result<
        InstructionView,
        ParseFault,
    > {
        if key == "summary"@ {
            match under(text_of(value), key) {
                Ok(x) => Ok(InstructionView { summary: x, ..self }),
                Err(e) => Err(e),
            }
        } else if key == "forms"@ {
            match under(forms_of(value), key) {
                Ok(x) => Ok(InstructionView { forms: self.forms + x, ..self }),
                Err(e) => Err(e),
            }
        } else {
            Ok(self)
        }
    }
}

/// A mnemonic of which only the name is known.
pub open spec fn named_instruction(name: Seq<char>) -> InstructionView {
    InstructionView { name, summary: Seq::empty(), forms: Seq::empty() }
}

/// The mnemonic that a name and its description give. A fault names the
/// mnemonic in which it lies.
pub open spec fn instruction_of(name: Seq<char>, j: Json) -> Result<InstructionView, ParseFault> {
    match record_from(j, named_instruction(name)) {
        Ok(r) => Ok(r),
        Err(e) => Err(e.in_mnemonic(name)),
    }
}

impl ReadRecord for Instruction {
    type Model = InstructionView;

    open spec fn model(&self) -> InstructionView {
        self@
    }

    fn read_member(self, key: &str, value: &JsonValue) -> (r: Result<Instruction, ParseInsError>) {
        let mut record = self;
        if str_eq(key, "summary") {
            match parse_string(value) {
                Ok(x) => {
                    record.summary = x;
                    Ok(record)
                },
                Err(e) => Err(e.at_field(key)),
            }
        } else if str_eq(key, "forms") {
            match parse_forms(value) {
                Ok(x) => {
                    let mut x = x;
                    let ghost before = form_views(record.forms@);
                    let ghost added = form_views(x@);
                    record.forms.append(&mut x);
                    assert(form_views(record.forms@) =~= before + added);
                    Ok(record)
                },
                Err(e) => Err(e.at_field(key)),
            }
        } else {
            Ok(record)
        }
    }
}

/// Reads the description of one mnemonic.
pub fn parse_instruction(name: &String, value: &JsonValue) -> (r: Result<
    Instruction,
    ParseInsError,
>)
    ensures
        agrees_as(r, instruction_of(name@, value@)),
{
    match read_record_from(value, Instruction::new(name)) {
        Ok(ins) => Ok(ins),
        Err(e) => Err(e.in_mnemonic(name.as_str())),
    }
}

/// The mnemonics that the first `n` members of the `instructions` object
/// give, in order: each key is a mnemonic's name, each value its description.
pub open spec fn read_instructions(members: Seq<(Seq<char>, Json)>, n: nat) -> Result<
    Seq<InstructionView>,
    ParseFault,
>
    decreases n,
{
    if n == 0 {
        Ok(Seq::empty())
    } else {
        match read_instructions(members, (n - 1) as nat) {
            Ok(list) => match instruction_of(members[n - 1].0, members[n - 1].1) {
                Ok(ins) => Ok(list.push(ins)),
                Err(e) => Err(e),
            },
            Err(e) => Err(e),
        }
    }
}

/// The mnemonics that an `instructions` value describes.
pub open spec fn instructions_of(j: Json) -> Result<Seq<InstructionView>, ParseFault> {
    match j {
        Json::Object(members) => read_instructions(members, members.len()),
        _ => Err(ParseFault::of(ParseErrorKind::UnexpectedType)),
    }
}

/// A fault among the first `k` mnemonics is the outcome of the whole object.
pub proof fn lemma_fault_ends_instructions(members: Seq<(Seq<char>, Json)>, k: nat, n: nat)
    requires
        k <= n,
        read_instructions(members, k) is Err,
    ensures
        read_instructions(members, n) == read_instructions(members, k),
    decreases n - k,
{
    if k < n {
        lemma_fault_ends_instructions(members, k, (n - 1) as nat);
    }
}

/// Reads the mnemonics of an `instructions` object, in the order of its members.
pub fn parse_instructions(value: &JsonValue) -> (r: Result<Vec<Instruction>, ParseInsError>)
    ensures
        match r {
            Ok(list) => instructions_of(value@) == Ok::<Seq<InstructionView>, ParseFault>(
                instruction_views(list@),
            ),
            Err(e) => instructions_of(value@) == Err::<Seq<InstructionView>, ParseFault>(e@),
        },
{
    match value {
        JsonValue::Object(members) => {
            let ghost m = value@->Object_0;
            proof {
                lemma_view_object(*value);
            }
            let mut list: Vec<Instruction> = Vec::new();
            let mut i: usize = 0;
            assert(instruction_views(list@) =~= Seq::empty());
            while i < members.len()
                invariant
                    i <= members@.len(),
                    value@ == Json::Object(m),
                    holds_members(members@, m),
                    read_instructions(m, i as nat) == Ok::<Seq<InstructionView>, ParseFault>(
                        instruction_views(list@),
                    ),
                decreases members@.len() - i,
            {
                match parse_instruction(&members[i].0, &members[i].1) {
                    Ok(x) => {
                        let ghost before = instruction_views(list@);
                        list.push(x);
                        assert(instruction_views(list@) =~= before.push(x@));
                    },
                    Err(e) => {
                        proof {
                            lemma_fault_ends_instructions(m, (i + 1) as nat, m.len());
                        }
                        return Err(e);
                    },
                }
                i = i + 1;
            }
            Ok(list)
        },
        _ => Err(ParseInsError::new(ParseErrorKind::UnexpectedType)),
    }
}

/// The mnemonics that a document has given so far.
pub struct Catalog {
    pub instructions: Seq<InstructionView>,
}

impl Record for Catalog {
    open spec fn blank() -> Catalog {
        Catalog { instructions: Seq::empty() }
    }

    /// Of the document's members `instructions` is read; other keys are
    /// passed over.
    open spec fn with_member(self, key: Seq<char>, value: Json) -> Result<Catalog, ParseFault> {
        if key == "instructions"@ {
            match under(instructions_of(value), key) {
                Ok(x) => Ok(Catalog { instructions: self.instructions + x }),
                Err(e) => Err(e),
            }
        } else {
            Ok(self)
        }
    }
}

/// The value of the first member from index `from` on that has the given key.
pub open spec fn member_named(members: Seq<(Seq<char>, Json)>, key: Seq<char>, from: nat) -> Option<
    Json,
>
    decreases members.len() - from,
{
    if from >= members.len() {
        None
    } else if members[from as int].0 == key {
        Some(members[from as int].1)
    } else {
        member_named(members, key, from + 1)
    }
}

/// Whether a document names x86-64 as its instruction set, and if not, what
/// is wrong with it.
pub open spec fn target_check(members: Seq<(Seq<char>, Json)>) -> Result<(), ParseFault> {
    match member_named(members, "instruction_set"@, 0) {
        Some(Json::String(s)) => if s == "x86-64"@ {
            Ok(())
        } else {
            Err(
                ParseFault::of(ParseErrorKind::UnsupportedInstructionSet).at_field(
                    "instruction_set"@,
                ),
            )
        },
        Some(_) => Err(
            ParseFault::of(ParseErrorKind::UnsupportedInstructionSet).at_field("instruction_set"@),
        ),
        None => Err(ParseFault::of(ParseErrorKind::MissingField).at_field("instruction_set"@)),
    }
}

/// The instruction set that a document describes: an object that names
/// x86-64 as its target and lists the mnemonics under `instructions`.
pub open spec fn instruction_set_of(j: Json) -> Result<Seq<InstructionView>, ParseFault> {
    match j {
        Json::Object(members) => match target_check(members) {
            Ok(_) => match record_of::<Catalog>(j) {
                Ok(catalog) => Ok(catalog.instructions),
                Err(e) => Err(e),
            },
            Err(e) => Err(e),
        },
        _ => Err(ParseFault::of(ParseErrorKind::UnexpectedType)),
    }
}

fn check_target(members: &Vec<(String, JsonValue)>, Ghost(m): Ghost<Seq<(Seq<char>, Json)>>) -> (r:
    Result<(), ParseInsError>)
    requires
        holds_members(members@, m),
    ensures
        agrees(r, target_check(m)),
{
    let mut i: usize = 0;
    while i < members.len()
        invariant
            i <= members@.len(),
            holds_members(members@, m),
            member_named(m, "instruction_set"@, 0) == member_named(
                m,
                "instruction_set"@,
                i as nat,
            ),
        decreases members@.len() - i,
    {
        if str_eq(members[i].0.as_str(), "instruction_set") {
            return match &members[i].1 {
                JsonValue::String(s) => if str_eq(s.as_str(), "x86-64") {
                    Ok(())
                } else {
                    Err(
                        ParseInsError::new(ParseErrorKind::UnsupportedInstructionSet).at_field(
                            "instruction_set",
                        ),
                    )
                },
                _ => Err(
                    ParseInsError::new(ParseErrorKind::UnsupportedInstructionSet).at_field(
                        "instruction_set",
                    ),
                ),
            };
        }
        i = i + 1;
    }
    Err(ParseInsError::new(ParseErrorKind::MissingField).at_field("instruction_set"))
}

impl ReadRecord for Vec<Instruction> {
    type Model = Catalog;

    open spec fn model(&self) -> Catalog {
        Catalog { instructions: instruction_views(self@) }
    }

    fn read_member(self, key: &str, value: &JsonValue) -> (r: Result<
        Vec<Instruction>,
        ParseInsError,
    >) {
        let mut list = self;
        if str_eq(key, "instructions") {
            match parse_instructions(value) {
                Ok(x) => {
                    let mut x = x;
                    let ghost before = instruction_views(list@);
                    let ghost added = instruction_views(x@);
                    list.append(&mut x);
                    assert(instruction_views(list@) =~= before + added);
                    Ok(list)
                },
                Err(e) => Err(e.at_field(key)),
            }
        } else {
            Ok(list)
        }
    }
}

/// Reads the instruction set out of a document.
pub fn read_instruction_set(document: &JsonValue) -> (r: Result<Vec<Instruction>, ParseInsError>)
    ensures
        match r {
            Ok(list) => instruction_set_of(document@) == Ok::<Seq<InstructionView>, ParseFault>(
                instruction_views(list@),
            ),
            Err(e) => instruction_set_of(document@) == Err::<Seq<InstructionView>, ParseFault>(e@),
        },
{
    match document {
        JsonValue::Object(members) => {
            proof {
                lemma_view_object(*document);
            }
            check_target(members, Ghost(document@->Object_0))?;
            let start: Vec<Instruction> = Vec::new();
            assert(instruction_views(start@) =~= Seq::empty());
            read_record_from(document, start)
        },
        _ => Err(ParseInsError::new(ParseErrorKind::UnexpectedType)),
    }
}

/// The instruction set that a text describes.
pub open spec fn loaded_instructions(text: Seq<char>) -> Result<Seq<InstructionView>, ParseFault> {
    match json_text_value(text) {
        Some(j) => instruction_set_of(j),
        None => Err(ParseFault::of(ParseErrorKind::Syntax)),
    }
}

/// Reads the instruction set out of the text of a document.
pub fn load_instructions(text: &str) -> (r: Result<Vec<Instruction>, ParseInsError>)
    ensures
        match r {
            Ok(list) => loaded_instructions(text@) == Ok::<Seq<InstructionView>, ParseFault>(
                instruction_views(list@),
            ),
            Err(e) => loaded_instructions(text@) == Err::<Seq<InstructionView>, ParseFault>(e@),
        },
{
    let document = parse_json(text)?;
    read_instruction_set(&document)
}

/// Whether every operand of a list has a kind of the closed taxonomy.
pub open spec fn closed_operands(operands: Seq<Operand>) -> bool {
    forall|k: int| 0 <= k < operands.len() ==> (#[trigger] operands[k]).id != OperandId::NONE
}

/// Whether every operand of every form has a kind of the closed taxonomy.
pub open spec fn closed_forms(forms: Seq<FormView>) -> bool {
    forall|k: int| 0 <= k < forms.len() ==> closed_operands((#[trigger] forms[k]).operands)
}

/// Whether every operand of every form of every mnemonic has a kind of the
/// closed taxonomy.
pub open spec fn closed_set(set: Seq<InstructionView>) -> bool {
    forall|k: int| 0 <= k < set.len() ==> closed_forms((#[trigger] set[k]).forms)
}

proof fn lemma_closed_items(items: Seq<Json>, n: nat)
    ensures
        read_items::<Operand>(items, n) matches Ok(list) ==> closed_operands(list),
    decreases n,
{
    if n > 0 {
        lemma_closed_items(items, (n - 1) as nat);
    }
}

proof fn lemma_closed_form(members: Seq<(Seq<char>, Json)>, n: nat, start: FormView)
    requires
        closed_operands(start.operands),
    ensures
        read_members::<FormView>(members, n, start) matches Ok(form) ==> closed_operands(
            form.operands,
        ),
    decreases n,
{
    if n > 0 {
        lemma_closed_form(members, (n - 1) as nat, start);
        match members[n - 1].1 {
            Json::Array(items) => {
                lemma_closed_items(items, items.len());
            },
            _ => {},
        }
    }
}

proof fn lemma_closed_forms(items: Seq<Json>, n: nat)
    ensures
        read_forms(items, n) matches Ok(forms) ==> closed_forms(forms),
    decreases n,
{
    if n > 0 {
        lemma_closed_forms(items, (n - 1) as nat);
        match items[n - 1] {
            Json::Object(members) => {
                lemma_closed_form(members, members.len(), FormView::blank());
            },
            _ => {},
        }
    }
}

proof fn lemma_closed_instruction(members: Seq<(Seq<char>, Json)>, n: nat, start: InstructionView)
    requires
        closed_forms(start.forms),
    ensures
        read_members::<InstructionView>(members, n, start) matches Ok(ins) ==> closed_forms(
            ins.forms,
        ),
    decreases n,
{
    if n > 0 {
        lemma_closed_instruction(members, (n - 1) as nat, start);
        match members[n - 1].1 {
            Json::Array(items) => {
                lemma_closed_forms(items, items.len());
            },
            _ => {},
        }
    }
}

proof fn lemma_closed_instructions(members: Seq<(Seq<char>, Json)>, n: nat)
    ensures
        read_instructions(members, n) matches Ok(set) ==> closed_set(set),
    decreases n,
{
    if n > 0 {
        lemma_closed_instructions(members, (n - 1) as nat);
        match members[n - 1].1 {
            Json::Object(inner) => {
                lemma_closed_instruction(
                    inner,
                    inner.len(),
                    named_instruction(members[n - 1].0),
                );
            },
            _ => {},
        }
    }
}

proof fn lemma_closed_catalog(members: Seq<(Seq<char>, Json)>, n: nat)
    ensures
        read_members::<Catalog>(members, n, Catalog::blank()) matches Ok(catalog) ==> closed_set(
            catalog.instructions,
        ),
    decreases n,
{
    if n > 0 {
        lemma_closed_catalog(members, (n - 1) as nat);
        match members[n - 1].1 {
            Json::Object(inner) => {
                lemma_closed_instructions(inner, inner.len());
            },
            _ => {},
        }
    }
}

/// The taxonomy is closed: in an instruction set that was read from a
/// document, every operand has one of the kinds that `OperandId` names,
/// and none is left without a kind.
pub proof fn lemma_closed_taxonomy(document: Json)
    ensures
        instruction_set_of(document) matches Ok(set) ==> closed_set(set),
{
    match document {
        Json::Object(members) => {
            lemma_closed_catalog(members, members.len());
        },
        _ => {},
    }
}

/// A name that is none of the taxonomy's names is rejected: an operand
/// whose description gives such a name as its `type` is a fault, wherever
/// among the members the name stands.
pub proof fn lemma_unknown_kind_rejected(
    name: Seq<char>,
    members: Seq<(Seq<char>, Json)>,
    i: int,
)
    requires
        <OperandId as Enumerator>::named(name) is None,
        0 <= i < members.len(),
        members[i] == ("type"@, Json::String(name)),
    ensures
        record_of::<Operand>(Json::Object(members)) is Err,
        <Operand as Element>::of(Json::Object(members)) is Err,
{
    let n = (i + 1) as nat;
    assert(read_members::<Operand>(members, n, Operand::blank()) is Err);
    lemma_fault_ends_reading::<Operand>(members, n, members.len(), Operand::blank());
}

/// Whether no template of a list holds the constant one on `EVEX.b`.
pub open spec fn unmarked_encodings(encodings: Seq<EncodingView>) -> bool {
    forall|k: int|
        0 <= k < encodings.len() ==> ((#[trigger] encodings[k]).evex matches Some(evex)
            ==> evex.b != ZeroRef::EVEX_b_ONE)
}

/// Whether no template of any form holds the constant one on `EVEX.b`.
pub open spec fn unmarked_forms(forms: Seq<FormView>) -> bool {
    forall|k: int| 0 <= k < forms.len() ==> unmarked_encodings((#[trigger] forms[k]).encodings)
}

/// Whether no template of any form of any mnemonic holds the constant one
/// on `EVEX.b`.
pub open spec fn unmarked_set(set: Seq<InstructionView>) -> bool {
    forall|k: int| 0 <= k < set.len() ==> unmarked_forms((#[trigger] set[k]).forms)
}

proof fn lemma_unmarked_evex(members: Seq<(Seq<char>, Json)>, n: nat, start: EVEX)
    requires
        start.b != ZeroRef::EVEX_b_ONE,
    ensures
        read_members::<EVEX>(members, n, start) matches Ok(evex) ==> evex.b
            != ZeroRef::EVEX_b_ONE,
    decreases n,
{
    if n > 0 {
        lemma_unmarked_evex(members, (n - 1) as nat, start);
    }
}

proof fn lemma_unmarked_encoding(members: Seq<(Seq<char>, Json)>, n: nat, start: EncodingView)
    requires
        start.evex matches Some(evex) ==> evex.b != ZeroRef::EVEX_b_ONE,
    ensures
        read_members::<EncodingView>(members, n, start) matches Ok(enc) ==> (enc.evex matches Some(
            evex,
        ) ==> evex.b != ZeroRef::EVEX_b_ONE),
    decreases n,
{
    if n > 0 {
        lemma_unmarked_encoding(members, (n - 1) as nat, start);
        match members[n - 1].1 {
            Json::Object(inner) => {
                lemma_unmarked_evex(inner, inner.len(), EVEX::blank());
            },
            _ => {},
        }
    }
}

proof fn lemma_unmarked_items(items: Seq<Json>, n: nat)
    ensures
        read_items::<EncodingView>(items, n) matches Ok(list) ==> unmarked_encodings(list),
    decreases n,
{
    if n > 0 {
        lemma_unmarked_items(items, (n - 1) as nat);
        match items[n - 1] {
            Json::Object(members) => {
                lemma_unmarked_encoding(members, members.len(), EncodingView::blank());
            },
            _ => {},
        }
    }
}

proof fn lemma_unmarked_form(members: Seq<(Seq<char>, Json)>, n: nat, start: FormView)
    requires
        unmarked_encodings(start.encodings),
    ensures
        read_members::<FormView>(members, n, start) matches Ok(form) ==> unmarked_encodings(
            form.encodings,
        ),
    decreases n,
{
    if n > 0 {
        lemma_unmarked_form(members, (n - 1) as nat, start);
        match members[n - 1].1 {
            Json::Array(items) => {
                lemma_unmarked_items(items, items.len());
            },
            _ => {},
        }
    }
}

proof fn lemma_unmarked_forms(items: Seq<Json>, n: nat)
    ensures
        read_forms(items, n) matches Ok(forms) ==> unmarked_forms(forms),
    decreases n,
{
    if n > 0 {
        lemma_unmarked_forms(items, (n - 1) as nat);
        match items[n - 1] {
            Json::Object(members) => {
                lemma_unmarked_form(members, members.len(), FormView::blank());
            },
            _ => {},
        }
    }
}

proof fn lemma_unmarked_instruction(
    members: Seq<(Seq<char>, Json)>,
    n: nat,
    start: InstructionView,
)
    requires
        unmarked_forms(start.forms),
    ensures
        read_members::<InstructionView>(members, n, start) matches Ok(ins) ==> unmarked_forms(
            ins.forms,
        ),
    decreases n,
{
    if n > 0 {
        lemma_unmarked_instruction(members, (n - 1) as nat, start);
        match members[n - 1].1 {
            Json::Array(items) => {
                lemma_unmarked_forms(items, items.len());
            },
            _ => {},
        }
    }
}

proof fn lemma_unmarked_instructions(members: Seq<(Seq<char>, Json)>, n: nat)
    ensures
        read_instructions(members, n) matches Ok(set) ==> unmarked_set(set),
    decreases n,
{
    if n > 0 {
        lemma_unmarked_instructions(members, (n - 1) as nat);
        match members[n - 1].1 {
            Json::Object(inner) => {
                lemma_unmarked_instruction(
                    inner,
                    inner.len(),
                    named_instruction(members[n - 1].0),
                );
            },
            _ => {},
        }
    }
}

proof fn lemma_unmarked_catalog(members: Seq<(Seq<char>, Json)>, n: nat)
    ensures
        read_members::<Catalog>(members, n, Catalog::blank()) matches Ok(catalog) ==> unmarked_set(
            catalog.instructions,
        ),
    decreases n,
{
    if n > 0 {
        lemma_unmarked_catalog(members, (n - 1) as nat);
        match members[n - 1].1 {
            Json::Object(inner) => {
                lemma_unmarked_instructions(inner, inner.len());
            },
            _ => {},
        }
    }
}

/// No description that was read from a document holds the constant one on
/// `EVEX.b`: no name of a field stands for it, and only the expansion of
/// the rounding forms puts it there.
pub proof fn lemma_parsed_forms_unmarked(document: Json)
    ensures
        instruction_set_of(document) matches Ok(set) ==> unmarked_set(set),
{
    match document {
        Json::Object(members) => {
            lemma_unmarked_catalog(members, members.len());
        },
        _ => {},
    }
}

} // verus!
