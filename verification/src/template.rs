//! The slide templates a new project can start from.

use vstd::prelude::*;

verus! {

/// The source format of a project's slides.
#[derive(Debug, Clone, Copy, PartialEq, Eq, Structural)]
pub enum Template {
    Markdown,
    HTML,
}

impl Template {
    /// Every template, in declaration order.
    pub open spec fn all() -> Seq<Template> {
        seq![Template::Markdown, Template::HTML]
    }

    /// The whole catalog, for offering a choice.
    pub fn to_vec() -> (all: Vec<Template>)
        ensures
            all@ == Template::all(),
    {
        let all = vec![Template::Markdown, Template::HTML];
        assert(all@ =~= Template::all());
        all
    }
}

} // verus!
