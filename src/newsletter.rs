use vstd::prelude::*;

verus! {

/// The body of a newsletter issue: a title and its content.
pub struct BodyData {
    pub title: String,
    pub content: Content,
}

/// A newsletter's content, in HTML and in plain text.
pub struct Content {
    pub html: String,
    pub text: String,
}

} // verus!
