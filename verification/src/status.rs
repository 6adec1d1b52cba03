//! Exit codes (`E`) and the messages (`M`) that the program words by itself.
use vstd::prelude::*;

verus! {

/// Successful execution.
pub const ESUCCESS: i32 = 0x00;

/// Invalid usage.
pub const EUSAGE: i32 = 0x01;

/// The file or directory cannot be accessed.
pub const MACCESS: &'static str = "Cannot access";

/// The file cannot be overwritten.
pub const MOVERWRITE: &'static str = "Cannot overwrite";

/// The file or directory cannot be found.
pub const MNOTFOUND: &'static str = "not found";

/// A usage error where conflicting options are present.
pub const MCONFLICT: &'static str = "conflicting options";

/// The answer handed in does not belong to the request that was made.
pub const MUNEXPECTED: &'static str = "unexpected reply";

} // verus!
