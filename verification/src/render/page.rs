//! One standalone page's output path.
//!
//! Which markup its template produces is the template layer's business;
//! the closed `TemplateKind` on the page already names it, so the model
//! here is the resolver-given path alone.

use vstd::prelude::*;
use crate::models::Page;
use crate::urls::{page_rel_path, spec_page_rel_path};

verus! {

/// Where the page's file is written: `{slug}.html`, like a post.
pub fn render_page(page: &Page) -> (r: String)
    ensures
        r@ == spec_page_rel_path(page.slug@),
{
    page_rel_path(page.slug.as_str())
}

} // verus!
