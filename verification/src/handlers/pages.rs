//! The front page.

use vstd::prelude::*;

verus! {

/// The front page: a form that asks for a place. It shows nothing that
/// depends on the request.
#[derive(Clone, Copy, Debug, PartialEq, Eq, Structural)]
pub struct IndexTemplate {}

/// Answers a request for the front page.
pub fn index() -> (page: IndexTemplate) {
    IndexTemplate {  }
}

} // verus!
