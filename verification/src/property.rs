//! Property values of stored Nodes, as far as the library reads them.

use vstd::prelude::*;

verus! {

/// A property value of a stored Node.
#[derive(Debug)]
pub enum PropertyValue {
    /// A text value.
    Text(String),
    /// A byte-string value.
    Bytes(Vec<u8>),
    /// A signed integer.
    Int(i64),
    /// A list of values.
    List(Vec<PropertyValue>),
    /// Any other kind of value.
    Other,
}

} // verus!
