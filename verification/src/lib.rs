//! A blog kept in memory: posts are created, read, edited and deleted, and
//! every answer is a fragment of HTML. The operations work on a store that
//! the caller hands in; each states in its contract what it answers and how
//! it leaves the store.

pub mod decimal;
pub mod handlers;
pub mod laws;
pub mod page;
pub mod post;
pub mod store;

pub use handlers::{create_post, delete_post, edit_post, get_post, index, update_post};
pub use post::{BlogPost, NewPost, PostError};
pub use store::PostStore;
