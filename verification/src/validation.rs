//! Which combinations of scan options are refused.
use vstd::prelude::*;
use crate::model::{Options, OptionsView};

verus! {

/// A refused combination of scan options.
#[derive(Debug, Clone, Copy, PartialEq, Eq, Structural)]
pub enum OptionsError {
    /// `--trash` together with `--delete`.
    TrashAndDelete,
    /// `--interactive` without `--trash` or `--delete`.
    InteractiveWithoutAction,
    /// `--allow-protected` without any action mode.
    AllowProtectedWithoutAction,
}

/// The first refused combination in the options, if any.
pub open spec fn options_problem(o: OptionsView) -> Option<OptionsError> {
    if o.delete && o.trash {
        Some(OptionsError::TrashAndDelete)
    } else if o.interactive && !o.delete && !o.trash {
        Some(OptionsError::InteractiveWithoutAction)
    } else if o.allow_protected && !o.delete && !o.trash && o.quarantine_path is None {
        Some(OptionsError::AllowProtectedWithoutAction)
    } else {
        None
    }
}

/// The message that explains a refused combination.
pub open spec fn options_error_message(e: OptionsError) -> Seq<char> {
    match e {
        OptionsError::TrashAndDelete => "choose either --trash or --delete, not both"@,
        OptionsError::InteractiveWithoutAction => "--interactive requires --trash or --delete"@,
        OptionsError::AllowProtectedWithoutAction => "--allow-protected requires --quarantine, --trash, or --delete"@,
    }
}

/// The first refused combination in `options` (see `options_problem`).
pub fn scan_options_problem(options: &Options) -> (r: Option<OptionsError>)
    ensures
        r == options_problem(options@),
{
    if options.delete && options.trash {
        Some(OptionsError::TrashAndDelete)
    } else if options.interactive && !options.delete && !options.trash {
        Some(OptionsError::InteractiveWithoutAction)
    } else if options.allow_protected && !options.delete && !options.trash
        && options.quarantine_path.is_none() {
        Some(OptionsError::AllowProtectedWithoutAction)
    } else {
        None
    }
}

/// The message of a refused combination (see `options_error_message`).
pub fn options_error_text(e: OptionsError) -> (s: String)
    ensures
        s@ == options_error_message(e),
{
    match e {
        OptionsError::TrashAndDelete => String::from_str("choose either --trash or --delete, not both"),
        OptionsError::InteractiveWithoutAction => String::from_str(
            "--interactive requires --trash or --delete",
        ),
        OptionsError::AllowProtectedWithoutAction => String::from_str(
            "--allow-protected requires --quarantine, --trash, or --delete",
        ),
    }
}

/// Checks the combination of scan options: `--trash` and `--delete` exclude
/// each other, `--interactive` needs one of them, and `--allow-protected`
/// needs an action mode. The error is the message of the first violation.
pub fn validate_scan_options(options: &Options) -> (r: Result<(), String>)
    ensures
        match r {
            Ok(()) => options_problem(options@) is None,
            Err(msg) => options_problem(options@) is Some && msg@ == options_error_message(
                options_problem(options@)->0,
            ),
        },
{
    match scan_options_problem(options) {
        None => Ok(()),
        Some(e) => Err(options_error_text(e)),
    }
}

} // verus!
