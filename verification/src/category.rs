//! The request payload for creating a category. The handlers that use
//! it live with the web framework, outside this library.

use vstd::prelude::*;

verus! {

/// Parameters of a category-creation request.
pub struct CategoryCreate {
    pub name: String,
}

} // verus!
