//! Common string fragments.
use vstd::prelude::*;

verus! {

/// The program name.
pub const NAME: &'static str = "zero";

/// The program version.
pub const VERSION: &'static str = "1.0";

/// A generic help message.
pub const HELP: &'static str = "Try 'zero --help' for more information.";

/// A brief description of the program and its usage.
pub const USAGE: &'static str =
    "Securely erase files (single-pass).\n\nUsage:\n    zero [OPTIONS] [PATHS]";

/// What is said of a path in the `Absolute` context.
pub const ABSOLUTE: &'static str = "is absolute";

/// What is said of a path in the `Interactive` context.
pub const INTERACTIVE: &'static str = "will be overwritten";

/// What is said of the bytes of a file during a dry run.
pub const DRYRUN: &'static str = "byte(s) will be overwritten";

/// What is said of the bytes of a file that was overwritten.
pub const OVERWRITE: &'static str = "byte(s) overwritten";

/// A continue prompt.
pub const CONTINUE: &'static str = "- continue? [y/n]";

/// Says that an action has been skipped.
pub const SKIP: &'static str = "Skipped.";

/// A 'yes' response.
pub const YES: &'static str = "y";

/// A 'no' response.
pub const NO: &'static str = "n";

/// What every line about a failure begins with.
pub const ERROR: &'static str = "Error:";

} // verus!
