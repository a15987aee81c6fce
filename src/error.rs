//! Errors of the library.

use vstd::prelude::*;
use crate::json::Json;

verus! {

/// What can go wrong while merging a bundle or talking to the index.
#[derive(Debug)]
pub enum ErrorKind {
    /// A string-resource file parsed, but its root is not a dictionary.
    InvalidPlist,
    /// The index could not be created; the search engine replied this.
    CreateIndexUnexpectedReply(Json),
}

} // verus!
