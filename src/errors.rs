//! Exit codes in the BSD `sysexits` convention, and the error of an
//! argument that does not parse.
use vstd::prelude::*;
use vstd::string::*;

verus! {

#[verifier::external_type_specification]
#[verifier::external_body]
pub struct ExExitCode(sysexits::ExitCode);

/// Holds of the raw values of `sysexits` codes: 0 for success, 64 to 78
/// for the failures.
pub open spec fn is_sysexits_value(v: int) -> bool {
    v == 0 || 64 <= v <= 78
}

/// Relies on `From<ExitCode> for u8`: the code's raw value, `0` or `64..=78`.
#[verifier::external_body]
fn exit_code_value(code: sysexits::ExitCode) -> (r: u8)
    ensures
        is_sysexits_value(r as int),
{
    u8::from(code)
}

/// Conversion of an exit code to the integer that a process exits with.
pub trait ExitCodeExt {
    /// The code as the integer that a process exits with.
    fn to_i32(self) -> (r: i32)
        ensures
            is_sysexits_value(r as int),
    ;
}

impl ExitCodeExt for sysexits::ExitCode {
    fn to_i32(self) -> (r: i32) {
        let v = exit_code_value(self);
        v as i32
    }
}

/// Error type for argument parsing failures.
#[derive(Debug, Clone, PartialEq, Eq)]
pub struct ArgParseError {
    /// The argument name that failed to parse.
    pub name: String,
    /// The error message.
    pub message: String,
}

/// The text of an argument parse error.
pub open spec fn arg_error_text(name: Seq<char>, message: Seq<char>) -> Seq<char> {
    "Invalid value for '"@ + name + "': "@ + message
}

impl ArgParseError {
    /// The error for argument `name` with the parser's `message`.
    pub fn new(name: &str, message: &str) -> (r: ArgParseError)
        ensures
            r.name@ == name@,
            r.message@ == message@,
    {
        ArgParseError { name: String::from_str(name), message: String::from_str(message) }
    }

    /// The error's message, naming the argument.
    pub fn to_string(&self) -> (r: String)
        ensures
            r@ == arg_error_text(self.name@, self.message@),
    {
        let mut out = String::from_str("Invalid value for '");
        out.append(self.name.as_str());
        out.append("': ");
        out.append(self.message.as_str());
        out
    }
}

} // verus!
