//! Archive inspection and extraction core.
//!
//! The library validates, summarises and unpacks ZIP archives held as plain
//! bytes, and decodes text files.  All decisions — precondition checks, the
//! exact error strings handed to a caller, and the ordered plan of filesystem
//! actions that an extraction performs — are made here and verified.  The
//! archive codec itself is the `zip` crate, reached through a small trusted
//! surface in `archive`; the filesystem and any user interface live outside
//! the library, which only consumes their observations (does a path exist,
//! what bytes does the file hold) and produces values for them to act on.

use vstd::prelude::*;

pub mod numfmt;
pub mod archive;
pub mod fsmodel;
pub mod ops;
pub mod paths;
pub mod text;

verus! {

/// Greeting retained from the host template.
pub fn greet(name: &str) -> (r: String)
    ensures
        r@ == "Hello, "@ + name@ + "! You've been greeted from Rust!"@,
{
    let mut s = String::from_str("Hello, ");
    s.append(name);
    s.append("! You've been greeted from Rust!");
    s
}

} // verus!

