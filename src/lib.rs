//! A safe binding core for the CrossDB embedded SQL database.
//!
//! The native library is reached through a fixed set of C entry points. This
//! crate holds everything the binding decides on either side of those calls:
//! turning host text into NUL-terminated native strings, reading native
//! bytes back as text, copying rows out of native memory, telling success
//! from failure, and owning each native resource so that it is released
//! exactly once.
use vstd::prelude::*;

pub mod cell;
pub mod conn;
pub mod error;
pub mod result;
pub mod text;

pub use cell::NativeCell;
pub use conn::{Conn, ExecStep, FailedResult, ResultHeader};
pub use error::XdbError;
pub use result::XdbResult;
pub use text::{decimal, native_text, text_of_native};

verus! {

use crate::text::read_text;

/// The native library's version, read from the bytes its version call
/// returns.
pub fn version(raw: &[u8]) -> (r: String)
    ensures
        r@ == read_text(raw@),
{
    text_of_native(raw)
}

} // verus!
