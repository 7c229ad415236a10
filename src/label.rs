//! Debug labels, borrowed from descriptors and owned by the structures.

use vstd::prelude::*;

verus! {

/// A debug label owned by the structure that creates buffers with it.
pub type OwnedLabel = Option<String>;

/// The characters of a borrowed label.
pub open spec fn label_view(label: Option<&str>) -> Option<Seq<char>> {
    match label {
        Some(l) => Some(l@),
        None => None,
    }
}

/// The characters of an owned label.
pub open spec fn owned_label_view(label: &OwnedLabel) -> Option<Seq<char>> {
    match label {
        Some(l) => Some(l@),
        None => None,
    }
}

/// Copies a borrowed label.
pub fn to_owned_label(label: Option<&str>) -> (r: OwnedLabel)
    ensures
        owned_label_view(&r) == label_view(label),
{
    match label {
        Some(l) => Some(l.to_owned()),
        None => None,
    }
}

/// Borrows an owned label.
pub fn as_label(label: &OwnedLabel) -> (r: Option<&str>)
    ensures
        label_view(r) == owned_label_view(label),
{
    match label {
        Some(l) => Some(l.as_str()),
        None => None,
    }
}

} // verus!
