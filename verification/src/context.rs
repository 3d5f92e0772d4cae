use vstd::prelude::*;
use crate::abi::Abi;
use crate::exception::Exception;
use crate::function::Function;
use crate::jit_type::{JitType, Kind};
use crate::model::FunctionModel;
use crate::signature::Signature;

verus! {

/// A session: the bracket inside which functions are built, and the source
/// of the identifiers that tell the values and labels of its functions
/// apart. Identifiers are told apart within one session, not between two.
///
/// A session is closed or open. Only an open session makes functions, and
/// an open session cannot be opened again.
pub struct Context {
    open: bool,
    created: u64,
}

impl Context {
    /// Whether a build is open.
    pub closed spec fn is_open(&self) -> bool {
        self.open
    }

    /// The number of functions that the session has made, which is the
    /// identifier of the next one.
    pub closed spec fn created(&self) -> u64 {
        self.created
    }

    /// Returns a closed session that has made no function.
    pub fn new() -> (c: Context)
        ensures
            !c.is_open(),
            c.created() == 0,
    {
        Context { open: false, created: 0 }
    }

    /// Returns whether a build is open.
    pub fn is_building(&self) -> (b: bool)
        ensures
            b == self.is_open(),
    {
        self.open
    }

    /// Returns the number of functions that the session has made.
    pub fn function_count(&self) -> (n: u64)
        ensures
            n == self.created(),
    {
        self.created
    }

    /// Opens a build. A session whose build is open already is left as it
    /// is, with the error `BuildAlreadyStarted`.
    pub fn build_start(&mut self) -> (r: Result<(), Exception>)
        ensures
            final(self).created() == old(self).created(),
            final(self).is_open(),
            match r {
                Ok(()) => !old(self).is_open(),
                Err(e) => old(self).is_open() && e == Exception::BuildAlreadyStarted,
            },
    {
        if self.open {
            Err(Exception::BuildAlreadyStarted)
        } else {
            self.open = true;
            Ok(())
        }
    }

    /// Closes the build.
    pub fn build_end(&mut self)
        ensures
            !final(self).is_open(),
            final(self).created() == old(self).created(),
    {
        self.open = false;
    }

    /// Makes an empty function with the given calling convention, return
    /// type and parameter types. The function gets the identifier
    /// `created()`, which no other function of this session has. Outside an
    /// open build the error is `BuildNotStarted`; with all identifiers used
    /// up it is `TooManyFunctions`; either way the session stays as it is.
    pub fn function(&mut self, abi: Abi, return_type: JitType, params: Vec<JitType>) -> (r: Result<
        Function,
        Exception,
    >)
        ensures
            final(self).is_open() == old(self).is_open(),
            match r {
                Ok(f) => {
                    &&& old(self).is_open()
                    &&& old(self).created() < u64::MAX
                    &&& final(self).created() == old(self).created() + 1
                    &&& f.wf()
                    &&& f@ == FunctionModel::initial(
                        old(self).created(),
                        abi,
                        return_type,
                        params@,
                    )
                },
                Err(e) => {
                    &&& final(self).created() == old(self).created()
                    &&& e == if !old(self).is_open() {
                        Exception::BuildNotStarted
                    } else {
                        Exception::TooManyFunctions
                    }
                    &&& !old(self).is_open() || old(self).created() == u64::MAX
                },
            },
    {
        if !self.open {
            return Err(Exception::BuildNotStarted);
        }
        if self.created == u64::MAX {
            return Err(Exception::TooManyFunctions);
        }
        let id = self.created;
        self.created = id + 1;
        Ok(Function::new(id, abi, return_type, params))
    }

    /// Makes an empty function of the type `signature`, as `function` does.
    pub fn function_of(&mut self, signature: Signature) -> (r: Result<Function, Exception>)
        ensures
            final(self).is_open() == old(self).is_open(),
            match r {
                Ok(f) => {
                    &&& old(self).is_open()
                    &&& old(self).created() < u64::MAX
                    &&& final(self).created() == old(self).created() + 1
                    &&& f.wf()
                    &&& f@ == FunctionModel::initial(
                        old(self).created(),
                        signature.abi,
                        signature.return_type,
                        signature.params@,
                    )
                },
                Err(e) => {
                    &&& final(self).created() == old(self).created()
                    &&& e == if !old(self).is_open() {
                        Exception::BuildNotStarted
                    } else {
                        Exception::TooManyFunctions
                    }
                    &&& !old(self).is_open() || old(self).created() == u64::MAX
                },
            },
    {
        self.function(signature.abi, signature.return_type, signature.params)
    }

    /// The type of no value.
    pub fn void_type() -> (t: JitType)
        ensures
            t == (JitType { kind: Kind::Void, depth: 0 }),
    {
        JitType::new(Kind::Void)
    }

    /// The 8-bit signed integer.
    pub fn sbyte_type() -> (t: JitType)
        ensures
            t == (JitType { kind: Kind::SByte, depth: 0 }),
    {
        JitType::new(Kind::SByte)
    }

    /// The 8-bit unsigned integer.
    pub fn ubyte_type() -> (t: JitType)
        ensures
            t == (JitType { kind: Kind::UByte, depth: 0 }),
    {
        JitType::new(Kind::UByte)
    }

    /// The 16-bit signed integer.
    pub fn short_type() -> (t: JitType)
        ensures
            t == (JitType { kind: Kind::Short, depth: 0 }),
    {
        JitType::new(Kind::Short)
    }

    /// The 16-bit unsigned integer.
    pub fn ushort_type() -> (t: JitType)
        ensures
            t == (JitType { kind: Kind::UShort, depth: 0 }),
    {
        JitType::new(Kind::UShort)
    }

    /// The 32-bit signed integer.
    pub fn int_type() -> (t: JitType)
        ensures
            t == (JitType { kind: Kind::Int, depth: 0 }),
    {
        JitType::new(Kind::Int)
    }

    /// The 32-bit unsigned integer.
    pub fn uint_type() -> (t: JitType)
        ensures
            t == (JitType { kind: Kind::UInt, depth: 0 }),
    {
        JitType::new(Kind::UInt)
    }

    /// The signed integer of the machine's word.
    pub fn nint_type() -> (t: JitType)
        ensures
            t == (JitType { kind: Kind::NInt, depth: 0 }),
    {
        JitType::new(Kind::NInt)
    }

    /// The unsigned integer of the machine's word.
    pub fn nuint_type() -> (t: JitType)
        ensures
            t == (JitType { kind: Kind::NUInt, depth: 0 }),
    {
        JitType::new(Kind::NUInt)
    }

    /// The 64-bit signed integer.
    pub fn long_type() -> (t: JitType)
        ensures
            t == (JitType { kind: Kind::Long, depth: 0 }),
    {
        JitType::new(Kind::Long)
    }

    /// The 64-bit unsigned integer.
    pub fn ulong_type() -> (t: JitType)
        ensures
            t == (JitType { kind: Kind::ULong, depth: 0 }),
    {
        JitType::new(Kind::ULong)
    }

    /// The 64-bit float.
    pub fn float64_type() -> (t: JitType)
        ensures
            t == (JitType { kind: Kind::Float64, depth: 0 }),
    {
        JitType::new(Kind::Float64)
    }

    /// The pointer to void.
    pub fn void_ptr_type() -> (t: JitType)
        ensures
            t == (JitType { kind: Kind::Void, depth: 1 }),
    {
        JitType { kind: Kind::Void, depth: 1 }
    }
}

} // verus!
