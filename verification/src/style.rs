//! The status word for a case outcome, optionally decorated with terminal
//! colors when standard output is a terminal.

use vstd::prelude::*;

verus! {

/// The status word printed for a passing case.
pub open spec fn ok_word() -> Seq<char> {
    "ok"@
}

/// The status word printed for a failing case.
pub open spec fn failed_word() -> Seq<char> {
    "FAILED"@
}

/// The uncolored status word for a case outcome.
pub open spec fn plain_status_spec(is_ok: bool) -> Seq<char> {
    if is_ok {
        ok_word()
    } else {
        failed_word()
    }
}

/// The ANSI escape sequence that sets the foreground color to green.
pub open spec fn green_code() -> Seq<char> {
    "\u{1b}[38;5;2m"@
}

/// The ANSI escape sequence that sets the foreground color to red.
pub open spec fn red_code() -> Seq<char> {
    "\u{1b}[38;5;1m"@
}

/// The ANSI escape sequence that resets the foreground color.
pub open spec fn reset_code() -> Seq<char> {
    "\u{1b}[39m"@
}

/// The status word as printed: wrapped in a color code and a reset code
/// when colors are on (green for a pass, red for a failure), bare when
/// they are off.
pub open spec fn status_spec(is_ok: bool, colored: bool) -> Seq<char> {
    if colored {
        (if is_ok {
            green_code()
        } else {
            red_code()
        }) + plain_status_spec(is_ok) + reset_code()
    } else {
        plain_status_spec(is_ok)
    }
}

/// Relies on termion::color::Green::fg_str, which returns the constant
/// ANSI escape sequence "\x1B[38;5;2m" selecting a green foreground.
#[verifier::external_body]
fn green_fg() -> (r: &'static str)
    ensures
        r@ == green_code(),
{
    termion::color::Green.fg_str()
}

/// Relies on termion::color::Red::fg_str, which returns the constant
/// ANSI escape sequence "\x1B[38;5;1m" selecting a red foreground.
#[verifier::external_body]
fn red_fg() -> (r: &'static str)
    ensures
        r@ == red_code(),
{
    termion::color::Red.fg_str()
}

/// Relies on termion::color::Reset::fg_str, which returns the constant
/// ANSI escape sequence "\x1B[39m" resetting the foreground color.
#[verifier::external_body]
fn reset_fg() -> (r: &'static str)
    ensures
        r@ == reset_code(),
{
    termion::color::Reset.fg_str()
}

/// Relies on termion::is_tty, which asks the operating system whether the
/// stream is a terminal; the answer depends on the environment, so nothing
/// is promised of it.
#[verifier::external_body]
pub(crate) fn stdout_is_tty() -> bool {
    termion::is_tty(&std::io::stdout())
}

/// The uncolored status word, as printed when the output is not a terminal.
pub fn plain_status(is_ok: bool) -> (r: &'static str)
    ensures
        r@ == plain_status_spec(is_ok),
{
    if is_ok {
        "ok"
    } else {
        "FAILED"
    }
}

/// The status word for a case outcome, with colors on or off as asked.
pub fn status_text(is_ok: bool, colored: bool) -> (r: String)
    ensures
        r@ == status_spec(is_ok, colored),
{
    if colored {
        let mut s = String::new();
        if is_ok {
            s.append(green_fg());
        } else {
            s.append(red_fg());
        }
        s.append(plain_status(is_ok));
        s.append(reset_fg());
        proof {
            assert(s@ =~= status_spec(is_ok, colored));
        }
        s
    } else {
        let s = plain_status(is_ok);
        s.to_owned()
    }
}

/// The status word for a case outcome, colored exactly when standard
/// output is a terminal. Whether colors are on depends on the environment,
/// so the result is one of the two renderings.
pub fn status(is_ok: bool) -> (r: String)
    ensures
        r@ == status_spec(is_ok, true) || r@ == status_spec(is_ok, false),
{
    let colored = stdout_is_tty();
    status_text(is_ok, colored)
}

} // verus!
