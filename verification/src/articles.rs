use vstd::prelude::*;

verus! {

/// Partial article metadata as returned by the listing endpoint.
///
/// One of these exists per listed item for a single loop iteration only.
#[derive(Debug)]
pub struct ArticlePreFetch {
    pub id: u128,
    pub title: String,
    pub description: String,
}

/// The remaining article data fetched per item.
#[derive(Debug)]
pub struct ArticleContent {
    pub body_html: String,
}

/// The merge of a preview and its content: the sole durable output unit.
#[derive(Debug)]
pub struct Article {
    pub id: u128,
    pub title: String,
    pub description: String,
    pub body_html: String,
}

/// What merging a preview with its content yields: every field is taken
/// unchanged from its source, nothing is invented or dropped.
pub open spec fn merged(pre: ArticlePreFetch, content: ArticleContent) -> Article {
    Article {
        id: pre.id,
        title: pre.title,
        description: pre.description,
        body_html: content.body_html,
    }
}

impl Article {
    /// Merges a preview and its content into the output record.
    ///
    /// A record is only ever built whole: both halves must already be in
    /// hand, so no partially resolved article can be produced.
    pub fn merge(pre: ArticlePreFetch, content: ArticleContent) -> (r: Article)
        ensures
            r == merged(pre, content),
    {
        Article {
            id: pre.id,
            title: pre.title,
            description: pre.description,
            body_html: content.body_html,
        }
    }
}

} // verus!
