//! Names of elements and attributes as the tree stage sees them.

use vstd::prelude::*;
use crate::namespace::Namespace;

verus! {

/// A fully qualified element or attribute name.
pub struct QualName {
    pub prefix: Option<String>,
    pub ns: Namespace,
    pub local: String,
}

/// A namespace together with a local name.
pub struct ExpandedName {
    pub ns: Namespace,
    pub local: String,
}

/// One attribute of an element in the tree.
pub struct Attribute {
    pub name: QualName,
    pub value: String,
}

} // verus!
