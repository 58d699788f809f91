use blog::decimal::push_decimal;
use blog::page::{render_edit, render_post, CREATE_FORM};
use blog::{
    create_post, delete_post, edit_post, get_post, index, update_post, BlogPost, NewPost,
    PostError, PostStore,
};

fn store_with(posts: &[(&str, &str)]) -> PostStore {
    let mut store = PostStore::new();
    for (title, content) in posts {
        create_post(NewPost { title, content }, &mut store);
    }
    store
}

fn decimal_of(n: usize) -> String {
    let mut out = String::new();
    push_decimal(&mut out, n);
    out
}

#[test]
fn test_index() {
    let posts = PostStore::new();
    let page = index(&posts);
    assert!(page.starts_with("<h1>"));
    assert!(page.contains("Blog Posts"));
}

#[test]
fn index_of_empty_store_is_heading_notice_and_form() {
    let posts = PostStore::new();
    let expected = format!("<h1>Blog Posts</h1><h3>No posts available.</h3>{}", CREATE_FORM);
    assert_eq!(index(&posts), expected);
}

#[test]
fn create_form_is_the_expected_text() {
    let expected = "\n        <form action=\"/create\" method=\"post\">\n            <label for=\"title\">Title:</label><br>\n            <input type=\"text\" id=\"title\" name=\"title\" required><br>\n            <label for=\"content\">Content:</label><br>\n            <textarea id=\"content\" name=\"content\" required></textarea><br>\n            <input type=\"submit\" value=\"Submit\">\n        </form>\n    ";
    assert_eq!(CREATE_FORM, expected);
}

#[test]
fn index_of_one_post_is_exact() {
    let posts = store_with(&[("Hello", "First words")]);
    let expected = format!(
        "<h1>Blog Posts</h1><h2>Hello</h2><p>First words</p><a href=\"/post/1/edit\">Edit</a> | <a href=\"/post/1/delete\">Delete</a><hr>{}",
        CREATE_FORM
    );
    assert_eq!(index(&posts), expected);
}

#[test]
fn index_lists_every_post_once() {
    let posts = store_with(&[("alpha", "a"), ("beta", "b"), ("gamma", "c")]);
    let page = index(&posts);
    let entries = [
        "<h2>alpha</h2><p>a</p><a href=\"/post/1/edit\">Edit</a> | <a href=\"/post/1/delete\">Delete</a><hr>",
        "<h2>beta</h2><p>b</p><a href=\"/post/2/edit\">Edit</a> | <a href=\"/post/2/delete\">Delete</a><hr>",
        "<h2>gamma</h2><p>c</p><a href=\"/post/3/edit\">Edit</a> | <a href=\"/post/3/delete\">Delete</a><hr>",
    ];
    let mut total = "<h1>Blog Posts</h1>".len() + CREATE_FORM.len();
    for entry in entries {
        assert_eq!(page.matches(entry).count(), 1);
        total += entry.len();
    }
    assert_eq!(page.len(), total);
    assert!(page.starts_with("<h1>Blog Posts</h1><h2>"));
    assert!(page.ends_with(CREATE_FORM));
    assert!(!page.contains("No posts available."));
}

#[test]
fn listing_contains_title_after_creation() {
    let mut posts = PostStore::new();
    assert!(!index(&posts).contains("A day at the lake"));
    create_post(NewPost { title: "A day at the lake", content: "Cold." }, &mut posts);
    assert!(index(&posts).contains("A day at the lake"));
}

#[test]
fn listing_does_not_escape_markup() {
    let posts = store_with(&[("<b>bold</b>", "<script>x</script>")]);
    let page = index(&posts);
    assert!(page.contains("<h2><b>bold</b></h2><p><script>x</script></p>"));
}

#[test]
fn create_answers_with_size_plus_one() {
    let mut posts = PostStore::new();
    assert_eq!(posts.len(), 0);
    let first = create_post(NewPost { title: "one", content: "1" }, &mut posts);
    assert_eq!(first, "Post created with ID: 1");
    assert_eq!(posts.len(), 1);
    let second = create_post(NewPost { title: "two", content: "2" }, &mut posts);
    assert_eq!(second, "Post created with ID: 2");
    assert_eq!(posts.len(), 2);
}

#[test]
fn create_then_read_returns_same_title_and_content() {
    let mut posts = PostStore::new();
    create_post(NewPost { title: "Title here", content: "Content here" }, &mut posts);
    let page = get_post(1, &posts);
    assert_eq!(page, Some("<h1>Title here</h1><p>Content here</p>".to_string()));
}

#[test]
fn read_of_missing_post_is_none() {
    let posts = store_with(&[("one", "1")]);
    assert_eq!(get_post(0, &posts), None);
    assert_eq!(get_post(2, &posts), None);
    assert_eq!(get_post(usize::MAX, &posts), None);
}

#[test]
fn edit_page_is_exact() {
    let posts = store_with(&[("one", "1"), ("Second", "Body text")]);
    let expected = "\n            <h1>Edit Post</h1>\n            <form action=\"/post/2/update\" method=\"post\">\n                <label for=\"title\">Title:</label><br>\n                <input type=\"text\" id=\"title\" name=\"title\" value=\"Second\" required><br>\n                <label for=\"content\">Content:</label><br>\n                <textarea id=\"content\" name=\"content\" required>Body text</textarea><br>\n                <input type=\"submit\" value=\"Update\">\n            </form>\n            ";
    assert_eq!(edit_post(2, &posts), Some(expected.to_string()));
}

#[test]
fn edit_of_missing_post_is_none() {
    let posts = PostStore::new();
    assert_eq!(edit_post(1, &posts), None);
}

#[test]
fn update_changes_both_texts_in_place() {
    let mut posts = store_with(&[("one", "1"), ("two", "2")]);
    let outcome = update_post(2, NewPost { title: "deux", content: "II" }, &mut posts);
    assert_eq!(outcome, Ok("Post updated with ID: 2".to_string()));
    assert_eq!(get_post(2, &posts), Some("<h1>deux</h1><p>II</p>".to_string()));
    assert_eq!(get_post(1, &posts), Some("<h1>one</h1><p>1</p>".to_string()));
    assert_eq!(posts.len(), 2);
    assert!(edit_post(2, &posts).unwrap().contains("action=\"/post/2/update\""));
}

#[test]
fn update_of_missing_post_is_not_found() {
    let mut posts = store_with(&[("one", "1")]);
    let outcome = update_post(5, NewPost { title: "x", content: "y" }, &mut posts);
    assert_eq!(outcome, Err(PostError::NotFound));
    assert_eq!(posts.len(), 1);
    assert_eq!(get_post(1, &posts), Some("<h1>one</h1><p>1</p>".to_string()));
    assert_eq!(get_post(5, &posts), None);
}

#[test]
fn delete_then_read_is_not_found() {
    let mut posts = store_with(&[("one", "1"), ("two", "2")]);
    let outcome = delete_post(1, &mut posts);
    assert_eq!(outcome, Ok("Post with ID: 1 has been deleted.".to_string()));
    assert_eq!(get_post(1, &posts), None);
    assert_eq!(edit_post(1, &posts), None);
    assert_eq!(get_post(2, &posts), Some("<h1>two</h1><p>2</p>".to_string()));
    assert_eq!(posts.len(), 1);
    assert!(!index(&posts).contains("one"));
}

#[test]
fn delete_of_missing_post_is_not_found() {
    let mut posts = store_with(&[("one", "1")]);
    assert_eq!(delete_post(2, &mut posts), Err(PostError::NotFound));
    assert_eq!(posts.len(), 1);
    assert_eq!(delete_post(1, &mut posts), Ok("Post with ID: 1 has been deleted.".to_string()));
    assert_eq!(delete_post(1, &mut posts), Err(PostError::NotFound));
    assert_eq!(posts.len(), 0);
}

#[test]
fn create_after_delete_takes_the_place_of_a_post() {
    let mut posts = store_with(&[("one", "1"), ("two", "2")]);
    assert!(delete_post(1, &mut posts).is_ok());
    let page = create_post(NewPost { title: "three", content: "3" }, &mut posts);
    assert_eq!(page, "Post created with ID: 2");
    assert_eq!(posts.len(), 1);
    assert_eq!(get_post(2, &posts), Some("<h1>three</h1><p>3</p>".to_string()));
    assert_eq!(get_post(1, &posts), None);
}

#[test]
fn decimal_numerals() {
    assert_eq!(decimal_of(0), "0");
    assert_eq!(decimal_of(7), "7");
    assert_eq!(decimal_of(9), "9");
    assert_eq!(decimal_of(10), "10");
    assert_eq!(decimal_of(101), "101");
    assert_eq!(decimal_of(9876543210), "9876543210");
    assert_eq!(decimal_of(usize::MAX), usize::MAX.to_string());
}

#[test]
fn decimal_is_appended() {
    let mut out = String::from("id=");
    push_decimal(&mut out, 42);
    push_decimal(&mut out, 0);
    assert_eq!(out, "id=420");
}

#[test]
fn identifiers_of_several_digits_are_rendered_whole() {
    let mut posts = PostStore::new();
    for _ in 0..12 {
        create_post(NewPost { title: "t", content: "c" }, &mut posts);
    }
    assert_eq!(posts.len(), 12);
    assert!(index(&posts).contains("<a href=\"/post/12/edit\">Edit</a> | <a href=\"/post/12/delete\">Delete</a><hr>"));
    assert_eq!(delete_post(12, &mut posts), Ok("Post with ID: 12 has been deleted.".to_string()));
    assert_eq!(
        update_post(11, NewPost { title: "u", content: "v" }, &mut posts),
        Ok("Post updated with ID: 11".to_string())
    );
}

#[test]
fn pages_render_the_post_they_are_given() {
    let post = BlogPost { id: 30, title: "T".to_string(), content: "C".to_string() };
    assert_eq!(render_post(&post), "<h1>T</h1><p>C</p>");
    assert!(render_edit(&post).contains("<form action=\"/post/30/update\" method=\"post\">"));
    assert!(render_edit(&post).contains("value=\"T\" required>"));
    assert!(render_edit(&post).contains("required>C</textarea>"));
}

#[test]
fn clone_keeps_the_post() {
    let post = BlogPost { id: 3, title: "T".to_string(), content: "C".to_string() };
    let copy = post.clone();
    assert_eq!(copy.id, 3);
    assert_eq!(copy.title, "T");
    assert_eq!(copy.content, "C");
}

#[test]
fn texts_may_be_empty_or_hold_any_characters() {
    let mut posts = PostStore::new();
    create_post(NewPost { title: "", content: "" }, &mut posts);
    create_post(NewPost { title: "naïve — ü", content: "日本語\n\"quoted\"" }, &mut posts);
    assert_eq!(get_post(1, &posts), Some("<h1></h1><p></p>".to_string()));
    assert_eq!(
        get_post(2, &posts),
        Some("<h1>naïve — ü</h1><p>日本語\n\"quoted\"</p>".to_string())
    );
}
