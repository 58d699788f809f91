//! The operations of the blog, each on the store that it is handed.

use crate::decimal::push_decimal;
use crate::page::{
    created_message, deleted_message, edit_page, index_page, lemma_index_shows_title,
    lemma_listing_is_empty, lemma_lists_all_is_empty, listing, lists_all, occurs_in, post_page,
    push_listing_entry, render_edit, render_post, updated_message, CREATE_FORM,
};
use crate::post::{BlogPost, NewPost, PostError, PostView};
use crate::store::PostStore;
use std::collections::hash_map::Entry;
use vstd::prelude::*;
use vstd::std_specs::iter::IteratorSpec;
use vstd::string::*;

verus! {

broadcast use vstd::std_specs::hash::group_hash_axioms;

/// The listing page: every post once, in the order in which the store hands
/// them out. Whatever that order is, the page shows the title of every post.
pub fn index(posts: &PostStore) -> (page: String)
    ensures
        exists|order: Seq<usize>| lists_all(order, posts@) && page@ == index_page(posts@, order),
        forall|id: usize| #[trigger]
            posts@.contains_key(id) ==> occurs_in(posts@[id].title, page@),
{
    let mut content = String::new();
    let ghost walk: Seq<(usize, BlogPost)> = posts.posts.iter().remaining().unref();
    let ghost keys: Seq<usize> = walk.map_values(|entry: (usize, BlogPost)| entry.0);
    let ghost mut order: Seq<usize> = Seq::empty();
    proof {
        posts.lemma_view();
        posts.lemma_walk();
    }
    for entry in it: posts.posts.iter()
        invariant
            it.seq().unref() == walk,
            keys == walk.map_values(|entry: (usize, BlogPost)| entry.0),
            forall|i: int|
                0 <= i < walk.len() ==> posts@.contains_key((#[trigger] walk[i]).0) && posts@[walk[i].0]
                    == walk[i].1@,
            order == keys.take(it.index()),
            content@ == listing(posts@, order),
    {
        push_listing_entry(&mut content, entry.1);
        proof {
            let ghost next = order.push(*entry.0);
            assert(next.drop_last() =~= order);
            assert(next =~= keys.take(it.index() + 1));
            order = next;
        }
    }
    proof {
        assert(order =~= keys);
        lemma_listing_is_empty(posts@, order);
        lemma_lists_all_is_empty(order, posts@);
    }
    if content.as_str().is_empty() {
        content.append("<h3>No posts available.</h3>");
    }
    let mut page = String::from_str("<h1>Blog Posts</h1>");
    page.append(content.as_str());
    page.append(CREATE_FORM);
    proof {
        assert(page@ =~= index_page(posts@, order));
        assert forall|id: usize| #[trigger] posts@.contains_key(id) implies occurs_in(
            posts@[id].title,
            page@,
        ) by {
            lemma_index_shows_title(posts@, order, id);
        }
    }
    page
}

/// The identifier that the next post is created under: one more than the
/// number of posts.
pub open spec fn next_id(posts: Map<usize, PostView>) -> nat {
    posts.len() + 1
}

/// The posts once a post with the two texts is created: it stands under the
/// next identifier, in place of a post that stood there.
pub open spec fn created(
    posts: Map<usize, PostView>,
    title: Seq<char>,
    content: Seq<char>,
) -> Map<usize, PostView> {
    let id = next_id(posts) as usize;
    posts.insert(id, PostView { id, title, content })
}

/// The posts once the post `id` is given the two texts: it keeps its
/// identifier, and nothing changes where there is no such post.
pub open spec fn updated(
    posts: Map<usize, PostView>,
    id: usize,
    title: Seq<char>,
    content: Seq<char>,
) -> Map<usize, PostView> {
    if posts.contains_key(id) {
        posts.insert(id, PostView { id: posts[id].id, title, content })
    } else {
        posts
    }
}

/// The posts once the post `id` is deleted.
pub open spec fn deleted(posts: Map<usize, PostView>, id: usize) -> Map<usize, PostView> {
    posts.remove(id)
}

/// Stores a new post with the two texts of `new_post` under the next
/// identifier, and answers with that identifier.
pub fn create_post(new_post: NewPost, posts: &mut PostStore) -> (page: String)
    requires
        next_id(old(posts)@) <= usize::MAX,
    ensures
        final(posts)@ == created(old(posts)@, new_post.title@, new_post.content@),
        page@ == created_message(next_id(old(posts)@) as usize),
{
    let id: usize = posts.len() + 1;
    let new_blog_post = BlogPost {
        id,
        title: new_post.title.to_string(),
        content: new_post.content.to_string(),
    };
    proof {
        posts.lemma_view();
    }
    posts.posts.insert(id, new_blog_post);
    proof {
        posts.lemma_view();
    }
    let mut page = String::from_str("Post created with ID: ");
    push_decimal(&mut page, id);
    page
}

/// The page of the post `id`, where there is one.
pub fn get_post(id: usize, posts: &PostStore) -> (page: Option<String>)
    ensures
        match page {
            Some(page) => posts@.contains_key(id) && page@ == post_page(posts@[id]),
            None => !posts@.contains_key(id),
        },
{
    proof {
        posts.lemma_view();
    }
    match posts.posts.get(&id) {
        Some(post) => Some(render_post(post)),
        None => None,
    }
}

/// The page on which the post `id` is edited, where there is one.
pub fn edit_post(id: usize, posts: &PostStore) -> (page: Option<String>)
    ensures
        match page {
            Some(page) => posts@.contains_key(id) && page@ == edit_page(posts@[id]),
            None => !posts@.contains_key(id),
        },
{
    proof {
        posts.lemma_view();
    }
    match posts.posts.get(&id) {
        Some(post) => Some(render_edit(post)),
        None => None,
    }
}

/// Gives the post `id` the two texts of `new_post`, where there is such a
/// post; the store stays as it is where there is none.
pub fn update_post(id: usize, new_post: NewPost, posts: &mut PostStore) -> (outcome: Result<
    String,
    PostError,
>)
    ensures
        final(posts)@ == updated(old(posts)@, id, new_post.title@, new_post.content@),
        match outcome {
            Ok(page) => old(posts)@.contains_key(id) && page@ == updated_message(id),
            Err(error) => error == PostError::NotFound && !old(posts)@.contains_key(id),
        },
{
    proof {
        posts.lemma_view();
    }
    match posts.posts.entry(id) {
        Entry::Occupied(mut entry) => {
            let post = entry.get_mut();
            post.title = new_post.title.to_string();
            post.content = new_post.content.to_string();
            proof {
                posts.lemma_view();
            }
            let mut page = String::from_str("Post updated with ID: ");
            push_decimal(&mut page, id);
            Ok(page)
        },
        Entry::Vacant(_) => {
            proof {
                posts.lemma_view();
            }
            Err(PostError::NotFound)
        },
    }
}

/// Removes the post `id`, where there is one.
pub fn delete_post(id: usize, posts: &mut PostStore) -> (outcome: Result<String, PostError>)
    ensures
        final(posts)@ == deleted(old(posts)@, id),
        match outcome {
            Ok(page) => old(posts)@.contains_key(id) && page@ == deleted_message(id),
            Err(error) => error == PostError::NotFound && !old(posts)@.contains_key(id),
        },
{
    proof {
        posts.lemma_view();
    }
    let removed = posts.posts.remove(&id);
    proof {
        posts.lemma_view();
    }
    if removed.is_some() {
        let mut page = String::from_str("Post with ID: ");
        push_decimal(&mut page, id);
        page.append(" has been deleted.");
        Ok(page)
    } else {
        Err(PostError::NotFound)
    }
}

} // verus!
