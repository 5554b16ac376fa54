//! What the logger needs to know of the process it runs in.

use vstd::prelude::*;
use vstd::string::StringSliceAdditionalSpecFns;

use crate::terminals::panel::INTERNAL_ARG;
use crate::terminals::same_bytes;

verus! {

/// The two kinds of process that the program runs as.
#[derive(Debug, Clone, Copy, PartialEq, Eq, Structural)]
pub enum ProcKind {
    Controller,
    Panel,
}

/// The kind of the process whose first argument is `first_arg`: a panel
/// process is started with the marker argument, the controller with anything
/// else or nothing.
pub fn proc_kind_of(first_arg: Option<&[u8]>) -> (r: ProcKind)
    ensures
        r is Panel <==> (first_arg matches Some(arg) && arg@ == INTERNAL_ARG.spec_bytes()),
{
    match first_arg {
        Some(arg) => if same_bytes(arg, INTERNAL_ARG.as_bytes()) {
            ProcKind::Panel
        } else {
            ProcKind::Controller
        },
        None => ProcKind::Controller,
    }
}

/// What the `COLOR` setting asks for.
#[derive(Debug, Clone, Copy, PartialEq, Eq, Structural)]
pub enum ColorChoice {
    Never,
    Always,
    /// Colour where the log goes to a terminal.
    Auto,
}

/// Whether `value` is one of the four words in `words`.
pub open spec fn one_of(value: Seq<u8>, words: (&str, &str, &str, &str)) -> bool {
    ||| value == words.0.spec_bytes()
    ||| value == words.1.spec_bytes()
    ||| value == words.2.spec_bytes()
    ||| value == words.3.spec_bytes()
}

/// What the setting `value` asks for; a setting that is not there, or is
/// none of the known words, leaves the choice open.
pub open spec fn color_choice_of(value: Option<Seq<u8>>) -> ColorChoice {
    match value {
        None => ColorChoice::Auto,
        Some(v) => if one_of(v, ("never", "no", "off", "false")) {
            ColorChoice::Never
        } else if one_of(v, ("always", "yes", "on", "true")) {
            ColorChoice::Always
        } else {
            ColorChoice::Auto
        },
    }
}

/// Whether `value` is one of the four words.
fn is_one_of(value: &[u8], a: &str, b: &str, c: &str, d: &str) -> (r: bool)
    ensures
        r == one_of(value@, (a, b, c, d)),
{
    same_bytes(value, a.as_bytes()) || same_bytes(value, b.as_bytes()) || same_bytes(
        value,
        c.as_bytes(),
    ) || same_bytes(value, d.as_bytes())
}

/// What the `COLOR` setting `value` asks for.
pub fn color_choice(value: Option<&[u8]>) -> (r: ColorChoice)
    ensures
        r == color_choice_of(
            match value {
                Some(v) => Some(v@),
                None => None,
            },
        ),
{
    match value {
        None => ColorChoice::Auto,
        Some(v) => if is_one_of(v, "never", "no", "off", "false") {
            ColorChoice::Never
        } else if is_one_of(v, "always", "yes", "on", "true") {
            ColorChoice::Always
        } else {
            ColorChoice::Auto
        },
    }
}

/// Whether log lines are coloured, given what the setting asks for and
/// whether the log goes to a terminal.
pub fn use_color(choice: ColorChoice, to_terminal: bool) -> (r: bool)
    ensures
        r == (match choice {
            ColorChoice::Never => false,
            ColorChoice::Always => true,
            ColorChoice::Auto => to_terminal,
        }),
{
    match choice {
        ColorChoice::Never => false,
        ColorChoice::Always => true,
        ColorChoice::Auto => to_terminal,
    }
}

} // verus!
