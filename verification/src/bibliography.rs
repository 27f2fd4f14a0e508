//! An input bibliography: its metadata, its references, and its compound
//! entry sets.

use vstd::prelude::*;
use indexmap::IndexMap;

use crate::legacy::ConvertedReference;
use crate::types::InputBibliographyInfo;

verus! {

/// `indexmap::IndexMap`, an insertion-ordered map, carried through as is.
#[verifier::external_type_specification]
#[verifier::external_body]
#[verifier::reject_recursive_types(K)]
#[verifier::reject_recursive_types(V)]
#[verifier::reject_recursive_types(S)]
pub struct ExIndexMap<K, V, S>(IndexMap<K, V, S>);

/// A bibliography as it is read in.
pub struct InputBibliography {
    /// Bibliography metadata.
    pub info: Option<InputBibliographyInfo>,
    /// The list of references.
    pub references: Vec<ConvertedReference>,
    /// Compound entry sets keyed by set id: each maps to an ordered list of
    /// reference ids that a style may treat as one compound numeric group.
    pub sets: Option<IndexMap<String, Vec<String>>>,
}

} // verus!
