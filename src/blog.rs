//! A post workflow in types: a draft takes text, goes to review, and only an
//! approved post shows its content.
use vstd::prelude::*;
use vstd::string::StringExecFns;

verus! {

/// An approved post.
pub struct Post {
    content: String,
}

/// A post being written.
pub struct DraftPost {
    content: String,
}

/// A post waiting for approval.
pub struct PendingReviewPost {
    content: String,
}

impl Post {
    pub closed spec fn text(&self) -> Seq<char> {
        self.content@
    }

    /// A new, empty draft.
    pub fn new() -> (r: DraftPost)
        ensures
            r.text() == Seq::<char>::empty(),
    {
        DraftPost { content: String::new() }
    }

    /// The approved text.
    pub fn content(&self) -> (r: &str)
        ensures
            r@ == self.text(),
    {
        self.content.as_str()
    }
}

impl DraftPost {
    pub closed spec fn text(&self) -> Seq<char> {
        self.content@
    }

    /// Appends `text` to the draft.
    pub fn add_text(&mut self, text: &str)
        ensures
            final(self).text() == old(self).text() + text@,
    {
        self.content.append(text);
    }

    /// Sends the draft to review, text unchanged.
    pub fn request_review(self) -> (r: PendingReviewPost)
        ensures
            r.text() == self.text(),
    {
        PendingReviewPost { content: self.content }
    }
}

impl PendingReviewPost {
    pub closed spec fn text(&self) -> Seq<char> {
        self.content@
    }

    /// Approves the post, text unchanged.
    pub fn approve(self) -> (r: Post)
        ensures
            r.text() == self.text(),
    {
        Post { content: self.content }
    }
}

} // verus!
