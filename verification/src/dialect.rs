//! The formatting dialect of a document, read off its URI.

use vstd::prelude::*;
use crate::text::{ends_with, is_suffix};

verus! {

/// The two sets of formatting rules the server chooses between.
#[derive(Clone, Copy, Debug, PartialEq, Eq, Structural)]
pub enum Dialect {
    /// Program text.
    Code,
    /// Data and configuration files.
    Data,
}

/// The dialect that a URI selects: `Data` for a name that ends in
/// `.data.tan` or `.config.tan`, `Code` for every other.
pub open spec fn uri_dialect(uri: Seq<char>) -> Dialect {
    if is_suffix(uri, ".data.tan"@) || is_suffix(uri, ".config.tan"@) {
        Dialect::Data
    } else {
        Dialect::Code
    }
}

/// Selects the formatting dialect of a document from its URI alone.
pub fn dialect_from_document_uri(uri: &str) -> (dialect: Dialect)
    ensures
        dialect == uri_dialect(uri@),
{
    if ends_with(uri, ".data.tan") || ends_with(uri, ".config.tan") {
        Dialect::Data
    } else {
        Dialect::Code
    }
}

} // verus!
