use vstd::prelude::*;

verus! {

/// The scalar a type descriptor is built on.
#[derive(Clone, Copy, Debug, PartialEq, Eq, Structural)]
pub enum Kind {
    Void,
    SByte,
    UByte,
    Short,
    UShort,
    Int,
    UInt,
    NInt,
    NUInt,
    Long,
    ULong,
    Float64,
}

impl Kind {
    /// The storage that a value of this scalar takes, in bytes, on a
    /// machine whose word has `word` bytes: the integers of the machine's
    /// word take a word, every other scalar its fixed width.
    pub open spec fn spec_size(self, word: usize) -> usize {
        match self {
            Kind::Void => 0usize,
            Kind::SByte | Kind::UByte => 1usize,
            Kind::Short | Kind::UShort => 2usize,
            Kind::Int | Kind::UInt => 4usize,
            Kind::NInt | Kind::NUInt => word,
            Kind::Long | Kind::ULong | Kind::Float64 => 8usize,
        }
    }
}

/// A machine type: a scalar under some number of pointer levels.
///
/// Level 0 is the scalar itself, level 1 a pointer to it, and so on; a
/// pointer to void is `Void` at level 1. Two descriptors denote the same type
/// exactly when they are equal.
#[derive(Clone, Copy, Debug, PartialEq, Eq, Structural)]
pub struct JitType {
    pub kind: Kind,
    pub depth: usize,
}

impl JitType {
    /// The type of a pointer to `self`; meaningful below `usize::MAX` levels.
    pub open spec fn spec_pointer_to(&self) -> JitType {
        JitType { kind: self.kind, depth: (self.depth + 1) as usize }
    }

    /// The type a pointer of type `self` points to; meaningful for pointers.
    pub open spec fn spec_pointee(&self) -> JitType {
        JitType { kind: self.kind, depth: (self.depth - 1) as usize }
    }

    pub open spec fn spec_is_pointer(&self) -> bool {
        self.depth > 0
    }

    pub open spec fn spec_is_void(&self) -> bool {
        self.depth == 0 && self.kind == Kind::Void
    }

    /// A pointer to void: an address with no type behind it.
    pub open spec fn spec_is_void_pointer(&self) -> bool {
        self.depth == 1 && self.kind == Kind::Void
    }

    pub open spec fn spec_is_float(&self) -> bool {
        self.depth == 0 && self.kind == Kind::Float64
    }

    /// Whether the type is an integer scalar.
    pub open spec fn spec_is_integer(&self) -> bool {
        self.depth == 0 && self.kind != Kind::Void && self.kind != Kind::Float64
    }

    /// The storage that a value of this type takes, in bytes, on a machine
    /// whose word has `word` bytes: a pointer takes a word.
    pub open spec fn spec_size(&self, word: usize) -> usize {
        if self.depth > 0 {
            word
        } else {
            self.kind.spec_size(word)
        }
    }

    /// Returns the descriptor of the scalar `kind`.
    pub fn new(kind: Kind) -> (t: JitType)
        ensures
            t == (JitType { kind, depth: 0 }),
    {
        JitType { kind, depth: 0 }
    }

    /// Returns the type of a pointer to `self`.
    #[verifier::when_used_as_spec(spec_pointer_to)]
    pub fn pointer_to(&self) -> (t: JitType)
        requires
            self.depth < usize::MAX,
        ensures
            t == self.spec_pointer_to(),
            t.kind == self.kind,
            t.depth == self.depth + 1,
            t.spec_pointee() == *self,
    {
        JitType { kind: self.kind, depth: self.depth + 1 }
    }

    /// Returns the type behind a pointer, and `None` for a type that is no
    /// pointer.
    pub fn pointee(&self) -> (t: Option<JitType>)
        ensures
            t == if self.spec_is_pointer() {
                Some(self.spec_pointee())
            } else {
                None
            },
            t matches Some(p) ==> p.kind == self.kind && p.depth + 1 == self.depth,
    {
        if self.depth > 0 {
            Some(JitType { kind: self.kind, depth: self.depth - 1 })
        } else {
            None
        }
    }

    #[verifier::when_used_as_spec(spec_is_pointer)]
    pub fn is_pointer(&self) -> (b: bool)
        ensures
            b == self.spec_is_pointer(),
    {
        self.depth > 0
    }

    #[verifier::when_used_as_spec(spec_is_void)]
    pub fn is_void(&self) -> (b: bool)
        ensures
            b == self.spec_is_void(),
    {
        self.depth == 0 && self.kind == Kind::Void
    }

    #[verifier::when_used_as_spec(spec_is_void_pointer)]
    pub fn is_void_pointer(&self) -> (b: bool)
        ensures
            b == self.spec_is_void_pointer(),
    {
        self.depth == 1 && self.kind == Kind::Void
    }

    #[verifier::when_used_as_spec(spec_is_float)]
    pub fn is_float(&self) -> (b: bool)
        ensures
            b == self.spec_is_float(),
    {
        self.depth == 0 && self.kind == Kind::Float64
    }

    #[verifier::when_used_as_spec(spec_is_integer)]
    pub fn is_integer(&self) -> (b: bool)
        ensures
            b == self.spec_is_integer(),
    {
        self.depth == 0 && self.kind != Kind::Void && self.kind != Kind::Float64
    }

    /// Returns the storage that a value of this type takes, in bytes, on a
    /// machine whose word has `word` bytes.
    #[verifier::when_used_as_spec(spec_size)]
    pub fn size(&self, word: usize) -> (n: usize)
        ensures
            n == self.spec_size(word),
    {
        if self.depth > 0 {
            word
        } else {
            match self.kind {
                Kind::Void => 0,
                Kind::SByte | Kind::UByte => 1,
                Kind::Short | Kind::UShort => 2,
                Kind::Int | Kind::UInt => 4,
                Kind::NInt | Kind::NUInt => word,
                Kind::Long | Kind::ULong | Kind::Float64 => 8,
            }
        }
    }
}

} // verus!
