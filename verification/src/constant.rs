use vstd::prelude::*;
use crate::jit_type::{JitType, Kind};

verus! {

/// The payload of a constant.
#[derive(Clone, Copy, Debug, PartialEq, Eq, Structural)]
pub enum Literal {
    /// A signed integer.
    Signed(i64),
    /// An unsigned integer.
    Unsigned(u64),
    /// A 64-bit float, as its IEEE 754 bit pattern.
    Float64(u64),
    /// An address in the host's memory.
    Address(usize),
}

impl Kind {
    /// The least number that a scalar of this kind holds.
    pub open spec fn spec_min(self) -> int {
        match self {
            Kind::SByte => -0x80,
            Kind::Short => -0x8000,
            Kind::Int => -0x8000_0000,
            Kind::NInt | Kind::Long => -0x8000_0000_0000_0000,
            _ => 0,
        }
    }

    /// The greatest number that an integer scalar of this kind holds.
    pub open spec fn spec_max(self) -> int {
        match self {
            Kind::SByte => 0x7f,
            Kind::UByte => 0xff,
            Kind::Short => 0x7fff,
            Kind::UShort => 0xffff,
            Kind::Int => 0x7fff_ffff,
            Kind::UInt => 0xffff_ffff,
            Kind::NInt | Kind::Long => 0x7fff_ffff_ffff_ffff,
            Kind::NUInt | Kind::ULong => 0xffff_ffff_ffff_ffff,
            _ => 0,
        }
    }

    /// Whether the scalar is an integer that holds negative numbers.
    pub open spec fn spec_is_signed(self) -> bool {
        self == Kind::SByte || self == Kind::Short || self == Kind::Int || self == Kind::NInt
            || self == Kind::Long
    }

    /// Whether the scalar is an integer that holds no negative number.
    pub open spec fn spec_is_unsigned(self) -> bool {
        self == Kind::UByte || self == Kind::UShort || self == Kind::UInt || self == Kind::NUInt
            || self == Kind::ULong
    }
}

impl Literal {
    /// Whether the payload is of the form that `jit_type` takes and lies in
    /// its range.
    pub open spec fn fits(self, jit_type: JitType) -> bool {
        match self {
            Literal::Signed(v) => jit_type.depth == 0 && jit_type.kind.spec_is_signed()
                && jit_type.kind.spec_min() <= v <= jit_type.kind.spec_max(),
            Literal::Unsigned(v) => jit_type.depth == 0 && jit_type.kind.spec_is_unsigned() && v
                <= jit_type.kind.spec_max(),
            Literal::Float64(_) => jit_type.spec_is_float(),
            Literal::Address(_) => jit_type.spec_is_pointer(),
        }
    }

    /// Whether the payload is zero: the integer 0, the null address, or a
    /// float zero of either sign.
    pub open spec fn spec_is_zero(self) -> bool {
        match self {
            Literal::Signed(v) => v == 0,
            Literal::Unsigned(v) => v == 0,
            Literal::Float64(bits) => bits == 0 || bits == 0x8000_0000_0000_0000,
            Literal::Address(a) => a == 0,
        }
    }

    #[verifier::when_used_as_spec(spec_is_zero)]
    pub fn is_zero(self) -> (b: bool)
        ensures
            b == self.spec_is_zero(),
    {
        match self {
            Literal::Signed(v) => v == 0,
            Literal::Unsigned(v) => v == 0,
            Literal::Float64(bits) => bits == 0 || bits == 0x8000_0000_0000_0000,
            Literal::Address(a) => a == 0,
        }
    }
}

/// A typed literal that belongs to no function yet. Its payload always fits
/// its type.
#[derive(Clone, Copy, Debug, PartialEq, Eq, Structural)]
pub struct Constant {
    jit_type: JitType,
    literal: Literal,
}

impl Constant {
    #[verifier::type_invariant]
    spec fn well_formed(self) -> bool {
        self.literal.fits(self.jit_type)
    }

    /// The type of the constant.
    pub closed spec fn spec_type(self) -> JitType {
        self.jit_type
    }

    /// The payload of the constant.
    pub closed spec fn spec_literal(self) -> Literal {
        self.literal
    }

    /// The constant with the given type and payload.
    pub closed spec fn of(jit_type: JitType, literal: Literal) -> Constant {
        Constant { jit_type, literal }
    }

    /// A constant is its type and its payload, and nothing else.
    pub broadcast proof fn lemma_of(jit_type: JitType, literal: Literal)
        ensures
            (#[trigger] Constant::of(jit_type, literal)).spec_type() == jit_type,
            Constant::of(jit_type, literal).spec_literal() == literal,
    {
    }

    /// A 64-bit signed integer.
    pub fn new_long(number: i64) -> (c: Constant)
        ensures
            c == Constant::of(JitType { kind: Kind::Long, depth: 0 }, Literal::Signed(number)),
    {
        Constant { jit_type: JitType::new(Kind::Long), literal: Literal::Signed(number) }
    }

    /// A 64-bit float, given as its IEEE 754 bit pattern.
    pub fn new_float64(bits: u64) -> (c: Constant)
        ensures
            c == Constant::of(JitType { kind: Kind::Float64, depth: 0 }, Literal::Float64(bits)),
    {
        Constant { jit_type: JitType::new(Kind::Float64), literal: Literal::Float64(bits) }
    }

    /// An 8-bit signed integer.
    pub fn new_i8(number: i8) -> (c: Constant)
        ensures
            c == Constant::of(
                JitType { kind: Kind::SByte, depth: 0 },
                Literal::Signed(number as i64),
            ),
    {
        Constant { jit_type: JitType::new(Kind::SByte), literal: Literal::Signed(number as i64) }
    }

    /// An 8-bit unsigned integer.
    pub fn new_u8(number: u8) -> (c: Constant)
        ensures
            c == Constant::of(
                JitType { kind: Kind::UByte, depth: 0 },
                Literal::Unsigned(number as u64),
            ),
    {
        Constant { jit_type: JitType::new(Kind::UByte), literal: Literal::Unsigned(number as u64) }
    }

    /// A 32-bit signed integer.
    pub fn new_int(number: i32) -> (c: Constant)
        ensures
            c == Constant::of(JitType { kind: Kind::Int, depth: 0 }, Literal::Signed(number as i64)),
    {
        Constant { jit_type: JitType::new(Kind::Int), literal: Literal::Signed(number as i64) }
    }

    /// A 32-bit unsigned integer.
    pub fn new_uint(number: u32) -> (c: Constant)
        ensures
            c == Constant::of(
                JitType { kind: Kind::UInt, depth: 0 },
                Literal::Unsigned(number as u64),
            ),
    {
        Constant { jit_type: JitType::new(Kind::UInt), literal: Literal::Unsigned(number as u64) }
    }

    /// A signed integer of the machine's word.
    pub fn new_nint(number: i64) -> (c: Constant)
        ensures
            c == Constant::of(JitType { kind: Kind::NInt, depth: 0 }, Literal::Signed(number)),
    {
        Constant { jit_type: JitType::new(Kind::NInt), literal: Literal::Signed(number) }
    }

    /// A pointer to void that holds `address`.
    pub fn new_void_ptr(address: usize) -> (c: Constant)
        ensures
            c == Constant::of(JitType { kind: Kind::Void, depth: 1 }, Literal::Address(address)),
    {
        Constant { jit_type: JitType { kind: Kind::Void, depth: 1 }, literal: Literal::Address(address) }
    }

    /// Returns the type of the constant.
    pub fn constant_type(&self) -> (t: JitType)
        ensures
            t == self.spec_type(),
    {
        self.jit_type
    }

    /// Returns the payload of the constant, which fits the constant's type.
    pub fn literal(&self) -> (l: Literal)
        ensures
            l == self.spec_literal(),
            l.fits(self.spec_type()),
    {
        proof {
            use_type_invariant(self);
        }
        self.literal
    }

    /// Whether the payload is zero.
    pub open spec fn spec_is_zero(&self) -> bool {
        self.spec_literal().spec_is_zero()
    }

    /// Returns whether the payload is zero.
    #[verifier::when_used_as_spec(spec_is_zero)]
    pub fn is_zero(&self) -> (b: bool)
        ensures
            b == self.spec_is_zero(),
    {
        self.literal.is_zero()
    }
}

} // verus!
