//! Random values on request: a boolean, a bounded integer, a string of digits.

use fastrand::Rng;
use vstd::prelude::*;
use vstd::string::*;

use crate::rng::{next_bool, next_digit, next_i128};
use crate::text::{
    is_digit_of_base, prefixed_hex, push_prefixed_hex, push_signed_decimal, signed_decimal,
};
use crate::{ExitCode, EXIT_CODE_SUCCESS};

verus! {

/// What is asked of the generator.
#[derive(Debug)]
pub enum RandomTarget {
    /// A single `true` or `false`.
    Boolean,
    /// One integer between two inclusive bounds.
    Integer {
        /// Render the value in hexadecimal.
        hexadecimal: bool,
        /// The least value that may come back; the least `i128` when absent.
        min: Option<i128>,
        /// The greatest value that may come back; the greatest `i128` when absent.
        max: Option<i128>,
    },
    /// A string of digits.
    Digits {
        /// How many digits to produce.
        length: usize,
        /// The numerical base of the digits; ten when absent.
        base: Option<u32>,
    },
}

/// Why a numerical base was turned down.
#[derive(Clone, Copy, Debug, PartialEq, Eq, Structural)]
pub enum BaseError {
    /// The base was zero.
    Zero,
    /// The base was above 36, where the alphabet `0-9a-z` ends.
    AboveLimit,
}

impl BaseError {
    /// The line that tells the user of the error.
    pub open spec fn message_text(self) -> Seq<char> {
        match self {
            BaseError::Zero => "Numerical base was zero"@,
            BaseError::AboveLimit => "Numerical base was above 36"@,
        }
    }

    /// The line that tells the user of the error.
    pub fn message(self) -> (s: String)
        ensures
            s@ == self.message_text(),
    {
        match self {
            BaseError::Zero => String::from_str("Numerical base was zero"),
            BaseError::AboveLimit => String::from_str("Numerical base was above 36"),
        }
    }
}

/// How a request ended, for the process to report.
#[derive(Clone, Copy, Debug, PartialEq, Eq, Structural)]
pub enum RandomExit {
    /// A value was produced, or nothing was asked for.
    Success,
    /// The numerical base was not acceptable.
    BadBase,
}

impl RandomExit {
    /// The process exit code that stands for this ending.
    pub open spec fn code_of(self) -> int {
        match self {
            RandomExit::Success => 0,
            RandomExit::BadBase => -2,
        }
    }

    /// The process exit code that stands for this ending.
    pub fn code(self) -> (c: ExitCode)
        ensures
            c == self.code_of(),
    {
        match self {
            RandomExit::Success => EXIT_CODE_SUCCESS,
            RandomExit::BadBase => -2,
        }
    }

    /// The two endings have different exit codes, and success has code zero.
    pub proof fn codes_are_distinct(a: RandomExit, b: RandomExit)
        ensures
            a.code_of() == b.code_of() ==> a == b,
            a.code_of() == 0 <==> a == RandomExit::Success,
    {
    }
}

/// What a request produced.
#[derive(Debug)]
pub enum RandomOutput {
    /// One line of text that holds the value.
    Line(String),
    /// Nothing: zero digits were asked for.
    Silent,
    /// No value: the request was turned down.
    Rejected(BaseError),
}

impl RandomOutput {
    /// The ending that goes with this output.
    pub open spec fn exit_of(self) -> RandomExit {
        match self {
            RandomOutput::Rejected(_) => RandomExit::BadBase,
            _ => RandomExit::Success,
        }
    }

    /// The ending that goes with this output.
    pub fn exit(&self) -> (e: RandomExit)
        ensures
            e == self.exit_of(),
    {
        match self {
            RandomOutput::Rejected(_) => RandomExit::BadBase,
            _ => RandomExit::Success,
        }
    }

    /// What is to be printed: the value, the error's message, or nothing.
    pub open spec fn printed(self) -> Option<Seq<char>> {
        match self {
            RandomOutput::Line(s) => Some(s@),
            RandomOutput::Silent => None,
            RandomOutput::Rejected(e) => Some(e.message_text()),
        }
    }

    /// What is to be printed: the value, the error's message, or nothing.
    pub fn line(&self) -> (l: Option<String>)
        ensures
            match l {
                Some(s) => self.printed() == Some(s@),
                None => self.printed() is None,
            },
    {
        match self {
            RandomOutput::Line(s) => Some(s.clone()),
            RandomOutput::Silent => None,
            RandomOutput::Rejected(e) => Some(e.message()),
        }
    }
}

/// The base that a digits request works in, or the reason it has none.
pub open spec fn resolved_base(base: Option<u32>) -> Result<u32, BaseError> {
    match base {
        None => Ok(10u32),
        Some(b) => if b == 0 {
            Err(BaseError::Zero)
        } else if b > 36 {
            Err(BaseError::AboveLimit)
        } else {
            Ok(b)
        },
    }
}

/// Settles the base of a digits request: ten by default, one to 36 as given, and
/// an error for zero and for anything above 36.
pub fn resolve_base(base: Option<u32>) -> (r: Result<u32, BaseError>)
    ensures
        r == resolved_base(base),
{
    match base {
        None => Ok(10),
        Some(b) => {
            if b == 0 {
                Err(BaseError::Zero)
            } else if b > 36 {
                Err(BaseError::AboveLimit)
            } else {
                Ok(b)
            }
        },
    }
}

/// The lower bound of an integer request.
pub open spec fn lower_bound(min: Option<i128>) -> i128 {
    match min {
        Some(m) => m,
        None => i128::MIN,
    }
}

/// The upper bound of an integer request.
pub open spec fn upper_bound(max: Option<i128>) -> i128 {
    match max {
        Some(m) => m,
        None => i128::MAX,
    }
}

/// Draws one integer between the two inclusive bounds, each defaulting to the
/// end of the `i128` range.
pub fn random_integer(rng: &mut Rng, min: Option<i128>, max: Option<i128>) -> (v: i128)
    requires
        lower_bound(min) <= upper_bound(max),
    ensures
        lower_bound(min) <= v <= upper_bound(max),
{
    let low: i128 = match min {
        Some(m) => m,
        None => i128::MIN,
    };
    let high: i128 = match max {
        Some(m) => m,
        None => i128::MAX,
    };
    next_i128(rng, low, high)
}

/// The text of an integer: decimal, or hexadecimal behind `0x`.
pub open spec fn integer_text(v: int, hexadecimal: bool) -> Seq<char> {
    if hexadecimal {
        prefixed_hex(v)
    } else {
        signed_decimal(v)
    }
}

/// Renders an integer as [`integer_text`] describes.
pub fn render_integer(v: i128, hexadecimal: bool) -> (s: String)
    ensures
        s@ == integer_text(v as int, hexadecimal),
{
    let mut s = String::new();
    if hexadecimal {
        push_prefixed_hex(&mut s, v);
    } else {
        push_signed_decimal(&mut s, v);
    }
    s
}

/// Whether `s` is `length` digits of the given base.
pub open spec fn is_digit_string(s: Seq<char>, length: nat, base: int) -> bool {
    &&& s.len() == length
    &&& forall|i: int| 0 <= i < s.len() ==> is_digit_of_base(#[trigger] s[i], base)
}

/// Draws `length` digits of the given base, over the alphabet `0-9a-z`.
pub fn random_digits(rng: &mut Rng, length: usize, base: u32) -> (s: String)
    requires
        1 <= base <= 36,
    ensures
        is_digit_string(s@, length as nat, base as int),
{
    let mut s = String::new();
    let mut produced: usize = 0;
    while produced < length
        invariant
            1 <= base <= 36,
            produced <= length,
            is_digit_string(s@, produced as nat, base as int),
        decreases length - produced,
    {
        let c = next_digit(rng, base);
        s.push(c);
        produced = produced + 1;
    }
    s
}

/// The text of a boolean: `true` or `false`.
pub open spec fn bool_text(b: bool) -> Seq<char> {
    if b {
        "true"@
    } else {
        "false"@
    }
}

/// Renders a boolean as `true` or `false`.
pub fn render_bool(b: bool) -> (s: String)
    ensures
        s@ == bool_text(b),
{
    if b {
        String::from_str("true")
    } else {
        String::from_str("false")
    }
}

/// Whether the request can be served: an integer request needs bounds that
/// leave at least one value between them.
pub open spec fn servable(target: RandomTarget) -> bool {
    target matches RandomTarget::Integer { min, max, .. } ==> lower_bound(min) <= upper_bound(max)
}

/// Whether serving the request draws from the generator: zero digits and a
/// rejected base draw nothing.
pub open spec fn draws(target: RandomTarget) -> bool {
    target matches RandomTarget::Digits { length, base } ==> length > 0 && resolved_base(base) is Ok
}

/// Whether `out` is an output that the request admits.
pub open spec fn admits(target: RandomTarget, out: RandomOutput) -> bool {
    match target {
        RandomTarget::Boolean => out matches RandomOutput::Line(s) && exists|b: bool|
            s@ == bool_text(b),
        RandomTarget::Integer { hexadecimal, min, max } => out matches RandomOutput::Line(s)
            && exists|v: i128|
            lower_bound(min) <= v <= upper_bound(max) && s@ == #[trigger] integer_text(
                v as int,
                hexadecimal,
            ),
        RandomTarget::Digits { length, base } => if length == 0 {
            out is Silent
        } else {
            match resolved_base(base) {
                Err(e) => out == RandomOutput::Rejected(e),
                Ok(b) => out matches RandomOutput::Line(s) && is_digit_string(
                    s@,
                    length as nat,
                    b as int,
                ),
            }
        },
    }
}

/// A request for at least one digit in base zero, or in a base above 36, is
/// turned down whatever else it holds: it yields no value, the line it prints
/// is the error's, and the process ends with a code other than zero.
pub proof fn bad_base_is_rejected(length: usize, base: u32, out: RandomOutput)
    requires
        length > 0,
        base == 0 || base > 36,
        admits(RandomTarget::Digits { length, base: Some(base) }, out),
    ensures
        out is Rejected,
        !draws(RandomTarget::Digits { length, base: Some(base) }),
        out.exit_of().code_of() != 0,
        base == 0 ==> out.printed() == Some("Numerical base was zero"@),
        base > 36 ==> out.printed() == Some("Numerical base was above 36"@),
{
}

/// Serves one request.
///
/// A boolean and an integer always give a line. Digits give nothing when none
/// are asked for, whatever the base; otherwise the base is settled first, and a
/// base that is turned down leaves the generator untouched.
pub fn generate(rng: &mut Rng, target: &RandomTarget) -> (out: RandomOutput)
    requires
        servable(*target),
    ensures
        admits(*target, out),
        !draws(*target) ==> *final(rng) == *old(rng),
{
    match target {
        RandomTarget::Boolean => {
            let val = next_bool(rng);
            RandomOutput::Line(render_bool(val))
        },
        RandomTarget::Integer { hexadecimal, min, max } => {
            let val = random_integer(rng, *min, *max);
            RandomOutput::Line(render_integer(val, *hexadecimal))
        },
        RandomTarget::Digits { length, base } => {
            if *length == 0 {
                return RandomOutput::Silent;
            }
            match resolve_base(*base) {
                Err(e) => RandomOutput::Rejected(e),
                Ok(b) => RandomOutput::Line(random_digits(rng, *length, b)),
            }
        },
    }
}

} // verus!
