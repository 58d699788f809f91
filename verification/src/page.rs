//! The HTML fragments that the blog answers with.

use crate::decimal::{decimal, push_decimal};
use crate::post::{BlogPost, PostView};
use vstd::prelude::*;
use vstd::string::*;

verus! {

/// The form through which a post is created, as it ends the listing page.
pub const CREATE_FORM: &'static str = r#"
        <form action="/create" method="post">
            <label for="title">Title:</label><br>
            <input type="text" id="title" name="title" required><br>
            <label for="content">Content:</label><br>
            <textarea id="content" name="content" required></textarea><br>
            <input type="submit" value="Submit">
        </form>
    "#;

/// What opens the page on which a post is edited, up to the identifier in
/// the address that the form is sent to.
pub const EDIT_FORM_HEAD: &'static str = r#"
            <h1>Edit Post</h1>
            <form action="/post/"#;

/// What stands between that identifier and the title to edit.
pub const EDIT_FORM_TITLE: &'static str = r#"/update" method="post">
                <label for="title">Title:</label><br>
                <input type="text" id="title" name="title" value=""#;

/// What stands between the title and the content to edit.
pub const EDIT_FORM_CONTENT: &'static str = r#"" required><br>
                <label for="content">Content:</label><br>
                <textarea id="content" name="content" required>"#;

/// What closes the page after the content.
pub const EDIT_FORM_TAIL: &'static str = r#"</textarea><br>
                <input type="submit" value="Update">
            </form>
            "#;

/// The page that shows one post.
pub open spec fn post_page(post: PostView) -> Seq<char> {
    "<h1>"@ + post.title + "</h1><p>"@ + post.content + "</p>"@
}

/// Renders the page that shows one post.
pub fn render_post(post: &BlogPost) -> (page: String)
    ensures
        page@ == post_page(post@),
{
    let mut page = String::from_str("<h1>");
    page.append(post.title.as_str());
    page.append("</h1><p>");
    page.append(post.content.as_str());
    page.append("</p>");
    page
}

/// The page on which a post is edited: a form that holds its two texts and
/// is sent to the address of its update.
pub open spec fn edit_page(post: PostView) -> Seq<char> {
    EDIT_FORM_HEAD@ + decimal(post.id as nat) + EDIT_FORM_TITLE@ + post.title + EDIT_FORM_CONTENT@
        + post.content + EDIT_FORM_TAIL@
}

/// Renders the page on which a post is edited.
pub fn render_edit(post: &BlogPost) -> (page: String)
    ensures
        page@ == edit_page(post@),
{
    let mut page = String::from_str(EDIT_FORM_HEAD);
    push_decimal(&mut page, post.id);
    page.append(EDIT_FORM_TITLE);
    page.append(post.title.as_str());
    page.append(EDIT_FORM_CONTENT);
    page.append(post.content.as_str());
    page.append(EDIT_FORM_TAIL);
    page
}

/// What is answered once a post is created under `id`.
pub open spec fn created_message(id: usize) -> Seq<char> {
    "Post created with ID: "@ + decimal(id as nat)
}

/// What is answered once the post `id` is updated.
pub open spec fn updated_message(id: usize) -> Seq<char> {
    "Post updated with ID: "@ + decimal(id as nat)
}

/// What is answered once the post `id` is deleted.
pub open spec fn deleted_message(id: usize) -> Seq<char> {
    "Post with ID: "@ + decimal(id as nat) + " has been deleted."@
}

/// The entry of one post in the listing: its texts, then the links to edit
/// and to delete it.
pub open spec fn listing_entry(post: PostView) -> Seq<char> {
    "<h2>"@ + post.title + "</h2><p>"@ + post.content + "</p><a href=\"/post/"@ + decimal(
        post.id as nat,
    ) + "/edit\">Edit</a> | <a href=\"/post/"@ + decimal(post.id as nat)
        + "/delete\">Delete</a><hr>"@
}

/// Appends the listing entry of `post` to `out`.
pub fn push_listing_entry(out: &mut String, post: &BlogPost)
    ensures
        final(out)@ == old(out)@ + listing_entry(post@),
{
    out.append("<h2>");
    out.append(post.title.as_str());
    out.append("</h2><p>");
    out.append(post.content.as_str());
    out.append("</p><a href=\"/post/");
    push_decimal(out, post.id);
    out.append("/edit\">Edit</a> | <a href=\"/post/");
    push_decimal(out, post.id);
    out.append("/delete\">Delete</a><hr>");
}

/// The entries of the posts `order`, one after the other.
pub open spec fn listing(posts: Map<usize, PostView>, order: Seq<usize>) -> Seq<char>
    decreases order.len(),
{
    if order.len() == 0 {
        Seq::empty()
    } else {
        listing(posts, order.drop_last()) + listing_entry(posts[order.last()])
    }
}

/// Whether `order` names every post of `posts` exactly once.
pub open spec fn lists_all(order: Seq<usize>, posts: Map<usize, PostView>) -> bool {
    order.no_duplicates() && order.to_set() == posts.dom()
}

/// Whether `needle` stands somewhere in `text`, as one unbroken run.
pub open spec fn occurs_in(needle: Seq<char>, text: Seq<char>) -> bool {
    exists|at: int|
        0 <= at <= text.len() - needle.len() && #[trigger] text.subrange(at, at + needle.len())
            == needle
}

/// A text occurs in whatever is put together around it.
pub proof fn lemma_occurs_between(before: Seq<char>, needle: Seq<char>, after: Seq<char>)
    ensures
        occurs_in(needle, before + needle + after),
{
    let text = before + needle + after;
    let at = before.len() as int;
    assert(text.subrange(at, at + needle.len()) =~= needle);
}

/// What occurs in a text occurs in every text that holds it.
pub proof fn lemma_occurs_within(
    needle: Seq<char>,
    text: Seq<char>,
    before: Seq<char>,
    after: Seq<char>,
)
    requires
        occurs_in(needle, text),
    ensures
        occurs_in(needle, before + text + after),
{
    let at = choose|at: int|
        0 <= at <= text.len() - needle.len() && #[trigger] text.subrange(at, at + needle.len())
            == needle;
    let whole = before + text + after;
    let shifted = before.len() + at;
    assert(whole.subrange(shifted, shifted + needle.len()) =~= text.subrange(
        at,
        at + needle.len(),
    ));
}

/// The title of a post occurs in its listing entry.
pub proof fn lemma_entry_shows_title(post: PostView)
    ensures
        occurs_in(post.title, listing_entry(post)),
{
    let after = "</h2><p>"@ + post.content + "</p><a href=\"/post/"@ + decimal(post.id as nat)
        + "/edit\">Edit</a> | <a href=\"/post/"@ + decimal(post.id as nat)
        + "/delete\">Delete</a><hr>"@;
    assert(listing_entry(post) =~= "<h2>"@ + post.title + after);
    lemma_occurs_between("<h2>"@, post.title, after);
}

/// The title of every listed post occurs in the listing.
pub proof fn lemma_listing_shows_title(posts: Map<usize, PostView>, order: Seq<usize>, i: int)
    requires
        0 <= i < order.len(),
    ensures
        occurs_in(posts[order[i]].title, listing(posts, order)),
    decreases order.len(),
{
    let title = posts[order[i]].title;
    let earlier = listing(posts, order.drop_last());
    let entry = listing_entry(posts[order.last()]);
    if i == order.len() - 1 {
        lemma_entry_shows_title(posts[order.last()]);
        lemma_occurs_within(title, entry, earlier, Seq::empty());
        assert(earlier + entry + Seq::<char>::empty() =~= listing(posts, order));
    } else {
        lemma_listing_shows_title(posts, order.drop_last(), i);
        lemma_occurs_within(title, earlier, Seq::empty(), entry);
        assert(Seq::<char>::empty() + earlier + entry =~= listing(posts, order));
    }
}

/// A listing is empty only where it lists nothing.
pub proof fn lemma_listing_is_empty(posts: Map<usize, PostView>, order: Seq<usize>)
    ensures
        listing(posts, order).len() == 0 <==> order.len() == 0,
{
    reveal_strlit("<h2>");
}

/// An order that names every post is empty only where there is no post.
pub proof fn lemma_lists_all_is_empty(order: Seq<usize>, posts: Map<usize, PostView>)
    requires
        lists_all(order, posts),
    ensures
        order.len() == 0 <==> posts.is_empty(),
{
    if order.len() > 0 {
        assert(order.to_set().contains(order[0]));
    } else {
        assert(order.to_set() =~= Set::empty());
    }
}

/// The listing page for the posts taken in `order`: the heading, the entries
/// (or a notice where there is no post) and the form for a new post.
pub open spec fn index_page(posts: Map<usize, PostView>, order: Seq<usize>) -> Seq<char> {
    "<h1>Blog Posts</h1>"@ + (if posts.is_empty() {
        "<h3>No posts available.</h3>"@
    } else {
        listing(posts, order)
    }) + CREATE_FORM@
}

/// The listing page shows the title of every post.
pub proof fn lemma_index_shows_title(posts: Map<usize, PostView>, order: Seq<usize>, id: usize)
    requires
        lists_all(order, posts),
        posts.contains_key(id),
    ensures
        occurs_in(posts[id].title, index_page(posts, order)),
{
    assert(order.to_set().contains(id));
    let i = choose|i: int| 0 <= i < order.len() && order[i] == id;
    lemma_listing_shows_title(posts, order, i);
    assert(!posts.is_empty());
    lemma_occurs_within(
        posts[id].title,
        listing(posts, order),
        "<h1>Blog Posts</h1>"@,
        CREATE_FORM@,
    );
}

} // verus!
