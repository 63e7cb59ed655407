//! The post row and creation body shared by the handlers of `services`.

use vstd::prelude::*;

verus! {

/// A stored text post.
#[derive(Debug, Clone, PartialEq, Eq)]
pub struct TextPost {
    pub id: i32,
    pub title: String,
    pub content: String,
    /// The poster.
    pub username: String,
}

/// Body of a post-creation request that names its poster.
#[derive(Debug, Clone, PartialEq, Eq)]
pub struct CreateTextPostBody {
    pub title: String,
    pub content: String,
    /// The poster.
    pub username: String,
}

} // verus!
