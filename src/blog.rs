//! The input that creates a blog post. Posts follow the same
//! store-and-respond pattern as accounts and carry no further rules.

use crate::error::ValidationError;
use vstd::prelude::*;

verus! {

/// Data submitted to create a blog post.
#[derive(Debug)]
pub struct CreateBlogInput {
    pub title: String,
    pub subtitle: Option<String>,
    pub overview: Option<String>,
    pub author: Option<String>,
    /// Path to the post's cover image.
    pub cover: Option<String>,
    pub content: String,
}

impl CreateBlogInput {
    /// Every blog input is accepted: posts have no shape rules.
    pub fn is_valid(&self) -> (r: Result<(), ValidationError>)
        ensures
            r is Ok,
    {
        Ok(())
    }
}

} // verus!
