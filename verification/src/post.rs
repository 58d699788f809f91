//! The blog post and the values that describe it in contracts.

use vstd::prelude::*;

verus! {

/// A stored post.
#[derive(Debug)]
pub struct BlogPost {
    pub id: usize,
    pub title: String,
    pub content: String,
}

/// What a post is, mathematically: its identifier and its two texts.
pub struct PostView {
    pub id: usize,
    pub title: Seq<char>,
    pub content: Seq<char>,
}

impl View for BlogPost {
    type V = PostView;

    open spec fn view(&self) -> PostView {
        PostView { id: self.id, title: self.title@, content: self.content@ }
    }
}

impl Clone for BlogPost {
    fn clone(&self) -> (copy: Self)
        ensures
            copy@ == self@,
    {
        BlogPost { id: self.id, title: self.title.clone(), content: self.content.clone() }
    }
}

/// The two form fields from which a post is created or updated.
#[derive(Debug, Clone, Copy)]
pub struct NewPost<'r> {
    pub title: &'r str,
    pub content: &'r str,
}

/// The one way in which an operation on a post can fail.
#[derive(Debug, Clone, Copy, PartialEq, Eq, Structural)]
pub enum PostError {
    /// No post is stored under the identifier.
    NotFound,
}

} // verus!
