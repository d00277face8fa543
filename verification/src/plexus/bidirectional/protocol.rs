//! Trait-based protocol for bidirectional communication.

use vstd::prelude::*;

verus! {

/// Trait for bidirectional request types.
///
/// Each request type provides a type tag for JSON discrimination; the tag
/// should be lowercase and unique per request type.
pub trait BidirRequest {
    /// Returns the type tag for JSON discrimination.
    fn type_tag(&self) -> &'static str;
}

/// Trait for bidirectional response types.
///
/// Each response type provides a type tag for JSON discrimination; the tag
/// should be lowercase and unique per response type.
pub trait BidirResponse {
    /// Returns the type tag for JSON discrimination.
    fn type_tag(&self) -> &'static str;
}

} // verus!
