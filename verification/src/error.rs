//! The errors that a sandboxed execution can end with, and their messages.
use std::time::Duration;
use vstd::prelude::*;
use vstd::string::to_string_from_display_ensures;

verus! {

#[verifier::external_type_specification]
#[verifier::external_body]
pub struct ExAnyhowError(anyhow::Error);

/// Why an execution failed.
#[derive(Debug)]
pub enum SandboxError {
    /// A module outside the allowlist was requested.
    ModuleNotAllowed(String),
    /// The script ran past the configured time limit.
    ExecutionTimeout { limit: Duration },
    /// The script reached the configured heap limit.
    MemoryLimitExceeded { limit_bytes: usize },
    /// The script threw, or failed to load or evaluate.
    JsError(String),
    /// A failure of the host around the script.
    Internal(anyhow::Error),
}

/// The character for a decimal digit.
pub open spec fn digit_char(d: nat) -> char {
    seq!['0', '1', '2', '3', '4', '5', '6', '7', '8', '9'][d as int]
}

/// The decimal notation of `n`, without sign or leading zeros.
pub open spec fn decimal(n: nat) -> Seq<char>
    decreases n,
{
    if n < 10 {
        seq![digit_char(n)]
    } else {
        decimal(n / 10) + seq![digit_char(n % 10)]
    }
}

fn digit_text(d: usize) -> (res: &'static str)
    requires
        d < 10,
    ensures
        res@ == seq![digit_char(d as nat)],
{
    proof {
        reveal_strlit("0");
        reveal_strlit("1");
        reveal_strlit("2");
        reveal_strlit("3");
        reveal_strlit("4");
        reveal_strlit("5");
        reveal_strlit("6");
        reveal_strlit("7");
        reveal_strlit("8");
        reveal_strlit("9");
    }
    match d {
        0 => "0",
        1 => "1",
        2 => "2",
        3 => "3",
        4 => "4",
        5 => "5",
        6 => "6",
        7 => "7",
        8 => "8",
        _ => "9",
    }
}

/// The decimal notation of `n`, as `usize`'s `Display` writes it.
pub fn decimal_text(n: usize) -> (res: String)
    ensures
        res@ == decimal(n as nat),
    decreases n,
{
    if n < 10 {
        String::from_str(digit_text(n))
    } else {
        let front = decimal_text(n / 10);
        front.concat(digit_text(n % 10))
    }
}

/// The text that `Duration`'s `Debug` writes for `d`, such as `5s` or
/// `1.5ms`; a function of the duration alone.
pub uninterp spec fn duration_debug_of(d: Duration) -> Seq<char>;

/// Renders a duration with `Duration`'s `Debug`, trusted to give
/// `duration_debug_of(*d)`.
#[verifier::external_body]
fn duration_debug_text(d: &Duration) -> (res: String)
    ensures
        res@ == duration_debug_of(*d),
{
    format!("{:?}", d)
}

/// Whether `msg` is the message of `e`.
pub open spec fn is_message_of(e: SandboxError, msg: String) -> bool {
    let text = msg@;
    match e {
        SandboxError::ModuleNotAllowed(s) => text == "module not allowed: "@ + s@,
        SandboxError::ExecutionTimeout { limit } => text == "execution timed out after "@
            + duration_debug_of(limit),
        SandboxError::MemoryLimitExceeded { limit_bytes } => text == "memory limit exceeded ("@
            + decimal(limit_bytes as nat) + " bytes)"@,
        SandboxError::JsError(s) => text == "JS error: "@ + s@,
        SandboxError::Internal(e) => to_string_from_display_ensures::<anyhow::Error>(&e, msg),
    }
}

impl SandboxError {
    /// The message that describes this error to a person.
    pub fn message(&self) -> (res: String)
        ensures
            is_message_of(*self, res),
    {
        match self {
            SandboxError::ModuleNotAllowed(s) => String::from_str("module not allowed: ").concat(
                s.as_str(),
            ),
            SandboxError::ExecutionTimeout { limit } => {
                let head = String::from_str("execution timed out after ");
                let tail = duration_debug_text(limit);
                head.concat(tail.as_str())
            },
            SandboxError::MemoryLimitExceeded { limit_bytes } => {
                let digits = decimal_text(*limit_bytes);
                String::from_str("memory limit exceeded (").concat(digits.as_str()).concat(
                    " bytes)",
                )
            },
            SandboxError::JsError(s) => String::from_str("JS error: ").concat(s.as_str()),
            SandboxError::Internal(e) => e.to_string(),
        }
    }
}

} // verus!
