//! A blog-post workflow encoded in the type system: a draft can only
//! gather text, only a draft can be sent for review, and only a reviewed
//! post can be approved into a published post.  Invalid state transitions
//! do not type-check, and the text is carried unchanged through every
//! transition.

use vstd::prelude::*;
use vstd::string::StringExecFns;

verus! {

/// A published post: the only state whose content can be read.
pub struct Post {
    content: String,
}

/// A post waiting for review; it cannot be read or edited.
pub struct PendingReviewPost {
    content: String,
}

/// A draft post: text can still be added, but it cannot be read.
pub struct DraftPost {
    content: String,
}

impl Post {
    /// The text of the published post.
    pub closed spec fn spec_content(&self) -> Seq<char> {
        self.content@
    }

    /// A new post starts its life as an empty draft.
    pub fn new() -> (draft: DraftPost)
        ensures
            draft.spec_content() == Seq::<char>::empty(),
    {
        DraftPost { content: String::new() }
    }

    /// Reading the content is only possible once the post is published.
    pub fn content(&self) -> (text: &str)
        ensures
            text@ == self.spec_content(),
    {
        self.content.as_str()
    }
}

impl PendingReviewPost {
    /// The text under review.
    pub closed spec fn spec_content(&self) -> Seq<char> {
        self.content@
    }

    /// Approval consumes the pending post and is the only way to obtain a
    /// published one; the text is kept as it stands.
    pub fn approve(self) -> (post: Post)
        ensures
            post.spec_content() == self.spec_content(),
    {
        Post { content: self.content }
    }
}

impl DraftPost {
    /// The text gathered so far.
    pub closed spec fn spec_content(&self) -> Seq<char> {
        self.content@
    }

    /// Appends text to the draft.
    pub fn add_text(&mut self, text: &str)
        ensures
            final(self).spec_content() == old(self).spec_content() + text@,
    {
        self.content.append(text);
    }

    /// Requesting review consumes the draft and is the only way to obtain
    /// a pending post; the text is kept as it stands.
    pub fn request_review(self) -> (pending: PendingReviewPost)
        ensures
            pending.spec_content() == self.spec_content(),
    {
        PendingReviewPost { content: self.content }
    }
}

/// The workflow end to end: draft, review, approve; the published content
/// is exactly the text that was added to the draft.
pub fn blog_example() {
    let mut post = Post::new();
    post.add_text("I ate a salad for lunch today");
    let post = post.request_review();
    let post = post.approve();
    assert(post.spec_content() =~= "I ate a salad for lunch today"@);
}

} // verus!
