use vstd::prelude::*;

verus! {

/// What the builder reports when it refuses an operation.
#[derive(Clone, Debug, PartialEq, Eq)]
pub enum Exception {
    /// An argument was asked for that the function does not declare. The
    /// text names the number of declared parameters and the index asked for.
    ArgIndexTooLarge(String),
    /// A build was started while one was already open.
    BuildAlreadyStarted,
    /// A function was asked for while no build was open.
    BuildNotStarted,
    /// The session has no identifier left for another function.
    TooManyFunctions,
    /// The function was compiled before.
    AlreadyCompiled,
    /// A branch goes to a label that was never bound.
    UnboundLabel { label: usize },
    /// A label was bound at more than one place.
    LabelBoundTwice { label: usize },
}

/// The character of the decimal digit `d`, for `d` from 0 to 9.
pub open spec fn digit(d: int) -> char {
    if d == 0 {
        '0'
    } else if d == 1 {
        '1'
    } else if d == 2 {
        '2'
    } else if d == 3 {
        '3'
    } else if d == 4 {
        '4'
    } else if d == 5 {
        '5'
    } else if d == 6 {
        '6'
    } else if d == 7 {
        '7'
    } else if d == 8 {
        '8'
    } else {
        '9'
    }
}

/// The number `n` written in decimal, without leading zeros.
pub open spec fn decimal(n: nat) -> Seq<char>
    decreases n,
{
    if n < 10 {
        seq![digit(n as int)]
    } else {
        decimal(n / 10).push(digit((n % 10) as int))
    }
}

/// The number `n` written in decimal, with a minus sign where it is
/// negative.
pub open spec fn signed_decimal(n: int) -> Seq<char> {
    if n < 0 {
        seq!['-'] + decimal((-n) as nat)
    } else {
        decimal(n as nat)
    }
}

/// The text that says that a function declares `declared` parameters and
/// that the one at `requested` was asked for.
pub open spec fn arg_index_text(declared: usize, requested: i32) -> Seq<char> {
    "Function has "@ + decimal(declared as nat) + " args but you requested index "@
        + signed_decimal(requested as int)
}

/// `String::push` of std: the character is added at the end of the text.
#[verifier::external_body]
fn push_char(text: &mut String, c: char)
    ensures
        final(text)@ == old(text)@.push(c),
{
    text.push(c)
}

/// `String::push_str` of std: the piece is added at the end of the text.
#[verifier::external_body]
fn push_text(text: &mut String, piece: &str)
    ensures
        final(text)@ == old(text)@ + piece@,
{
    text.push_str(piece)
}

/// Returns the character of the decimal digit `d`.
fn digit_char(d: u64) -> (c: char)
    requires
        d < 10,
    ensures
        c == digit(d as int),
{
    if d == 0 {
        '0'
    } else if d == 1 {
        '1'
    } else if d == 2 {
        '2'
    } else if d == 3 {
        '3'
    } else if d == 4 {
        '4'
    } else if d == 5 {
        '5'
    } else if d == 6 {
        '6'
    } else if d == 7 {
        '7'
    } else if d == 8 {
        '8'
    } else {
        '9'
    }
}

/// Adds `n`, written in decimal, at the end of `text`.
fn push_decimal(text: &mut String, n: u64)
    ensures
        final(text)@ == old(text)@ + decimal(n as nat),
    decreases n,
{
    if n >= 10 {
        push_decimal(text, n / 10);
    }
    push_char(text, digit_char(n % 10));
    proof {
        if n >= 10 {
            assert(text@ =~= old(text)@ + decimal(n as nat));
        } else {
            assert(text@ =~= old(text)@ + decimal(n as nat));
        }
    }
}

/// Adds `n`, written in decimal with its sign, at the end of `text`.
fn push_signed_decimal(text: &mut String, n: i32)
    ensures
        final(text)@ == old(text)@ + signed_decimal(n as int),
{
    if n < 0 {
        push_char(text, '-');
        let magnitude: i64 = -(n as i64);
        push_decimal(text, magnitude as u64);
        proof {
            assert(text@ =~= old(text)@ + signed_decimal(n as int));
        }
    } else {
        push_decimal(text, n as u64);
    }
}

/// Returns the text that says that a function declares `declared`
/// parameters and that the one at `requested` was asked for.
pub fn describe_arg_index(declared: usize, requested: i32) -> (text: String)
    ensures
        text@ == arg_index_text(declared, requested),
{
    let mut text = "Function has ".to_owned();
    push_decimal(&mut text, declared as u64);
    push_text(&mut text, " args but you requested index ");
    push_signed_decimal(&mut text, requested);
    text
}

impl Exception {
    /// What the error says, in words.
    pub open spec fn spec_message(self) -> Seq<char> {
        match self {
            Exception::ArgIndexTooLarge(text) => text@,
            Exception::BuildAlreadyStarted => "A build is already open"@,
            Exception::BuildNotStarted => "No build is open"@,
            Exception::TooManyFunctions => "The session cannot number another function"@,
            Exception::AlreadyCompiled => "The function was compiled before"@,
            Exception::UnboundLabel { .. } => "A branch goes to a label that was never bound"@,
            Exception::LabelBoundTwice { .. } => "A label was bound at more than one place"@,
        }
    }

    /// Returns what the error says, in words.
    pub fn message(&self) -> (text: String)
        ensures
            text@ == self.spec_message(),
    {
        match self {
            Exception::ArgIndexTooLarge(text) => text.clone(),
            Exception::BuildAlreadyStarted => "A build is already open".to_owned(),
            Exception::BuildNotStarted => "No build is open".to_owned(),
            Exception::TooManyFunctions => "The session cannot number another function".to_owned(),
            Exception::AlreadyCompiled => "The function was compiled before".to_owned(),
            Exception::UnboundLabel { .. } => "A branch goes to a label that was never bound".to_owned(),
            Exception::LabelBoundTwice { .. } => "A label was bound at more than one place".to_owned(),
        }
    }
}

} // verus!
