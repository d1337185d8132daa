//! The data model shared with the surrounding application: the value the
//! sample data layer produces and the pages render.

use vstd::prelude::*;

verus! {

/// A post representation model: the title and the body of one post, as the
/// data layer hands it to the rendering side. The crate's async signal
/// typically carries values derived from it (a page's breadcrumb title, for
/// instance).
#[derive(Debug, Clone)]
pub struct Post {
    pub title: String,
    pub body: String,
}

} // verus!
