//! What holds of the operations taken together, whatever the posts are.

use crate::handlers::{created, deleted, next_id, updated};
use crate::page::{index_page, lemma_index_shows_title, lists_all, occurs_in, post_page};
use crate::post::PostView;
use vstd::prelude::*;

verus! {

/// Whether every post carries the identifier under which it is stored.
pub open spec fn keyed_by_id(posts: Map<usize, PostView>) -> bool {
    forall|id: usize| #[trigger] posts.contains_key(id) ==> posts[id].id == id
}

/// A post that was just created is there to be read, and its page holds the
/// title and the content that it was created with.
pub proof fn law_create_then_read(posts: Map<usize, PostView>, title: Seq<char>, content: Seq<char>)
    requires
        next_id(posts) <= usize::MAX,
    ensures
        ({
            let id = next_id(posts) as usize;
            let after = created(posts, title, content);
            &&& after.contains_key(id)
            &&& after[id] == PostView { id, title, content }
            &&& post_page(after[id]) == "<h1>"@ + title + "</h1><p>"@ + content + "</p>"@
        }),
{
}

/// An update of a post that is not there changes nothing.
pub proof fn law_update_missing(
    posts: Map<usize, PostView>,
    id: usize,
    title: Seq<char>,
    content: Seq<char>,
)
    requires
        !posts.contains_key(id),
    ensures
        updated(posts, id, title, content) == posts,
{
}

/// An update touches the post that it names and no other; that post keeps
/// its identifier.
pub proof fn law_update_in_place(
    posts: Map<usize, PostView>,
    id: usize,
    title: Seq<char>,
    content: Seq<char>,
)
    requires
        posts.contains_key(id),
    ensures
        ({
            let after = updated(posts, id, title, content);
            &&& after.dom() == posts.dom()
            &&& after[id] == PostView { id: posts[id].id, title, content }
            &&& forall|other: usize|
                other != id && #[trigger] posts.contains_key(other) ==> after[other] == posts[other]
        }),
{
}

/// A post that was deleted is no longer there to be read, and every other
/// post stays as it was.
pub proof fn law_delete_then_read(posts: Map<usize, PostView>, id: usize)
    ensures
        !deleted(posts, id).contains_key(id),
        forall|other: usize|
            other != id && #[trigger] posts.contains_key(other) ==> deleted(posts, id).contains_key(
                other,
            ) && deleted(posts, id)[other] == posts[other],
{
}

/// Once a post is created, the listing page shows its title, in whatever
/// order the posts are listed.
pub proof fn law_listing_shows_created(
    posts: Map<usize, PostView>,
    title: Seq<char>,
    content: Seq<char>,
    order: Seq<usize>,
)
    requires
        next_id(posts) <= usize::MAX,
        lists_all(order, created(posts, title, content)),
    ensures
        occurs_in(title, index_page(created(posts, title, content), order)),
{
    lemma_index_shows_title(created(posts, title, content), order, next_id(posts) as usize);
}

/// No operation breaks the rule that a post carries the identifier under
/// which it is stored, and the empty store keeps it.
pub proof fn law_keyed_by_id(
    posts: Map<usize, PostView>,
    id: usize,
    title: Seq<char>,
    content: Seq<char>,
)
    requires
        keyed_by_id(posts),
    ensures
        keyed_by_id(Map::<usize, PostView>::empty()),
        next_id(posts) <= usize::MAX ==> keyed_by_id(created(posts, title, content)),
        keyed_by_id(updated(posts, id, title, content)),
        keyed_by_id(deleted(posts, id)),
{
}

/// Creation takes the place of a post exactly where the next identifier is
/// in use already; otherwise there is one post more.
pub proof fn law_create_count(posts: Map<usize, PostView>, title: Seq<char>, content: Seq<char>)
    requires
        posts.dom().finite(),
        next_id(posts) <= usize::MAX,
    ensures
        ({
            let id = next_id(posts) as usize;
            let after = created(posts, title, content);
            &&& posts.contains_key(id) ==> after.len() == posts.len()
            &&& !posts.contains_key(id) ==> after.len() == posts.len() + 1
        }),
{
}

} // verus!
