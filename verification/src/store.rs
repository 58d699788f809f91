//! The collection of posts, keyed by identifier.

use crate::post::{BlogPost, PostView};
use std::collections::HashMap;
use vstd::prelude::*;
use vstd::std_specs::iter::IteratorSpec;

verus! {

broadcast use vstd::std_specs::hash::group_hash_axioms;

/// The posts of a blog. Its view maps each identifier in use to the post
/// that is stored under it.
pub struct PostStore {
    pub(crate) posts: HashMap<usize, BlogPost>,
}

impl View for PostStore {
    type V = Map<usize, PostView>;

    closed spec fn view(&self) -> Map<usize, PostView> {
        self.posts@.map_values(|post: BlogPost| post@)
    }
}

impl PostStore {
    /// A store with no posts.
    pub fn new() -> (store: Self)
        ensures
            store@ == Map::<usize, PostView>::empty(),
    {
        let store = PostStore { posts: HashMap::new() };
        store
    }

    /// The number of posts.
    pub fn len(&self) -> (n: usize)
        ensures
            n == self@.len(),
    {
        proof {
            self.lemma_view();
        }
        self.posts.len()
    }

    /// The view holds the keys of the map, each with the view of its post; and
    /// they are finitely many.
    pub(crate) proof fn lemma_view(&self)
        ensures
            self@.dom() == self.posts@.dom(),
            self@.dom().finite(),
            forall|id: usize| #[trigger] self@.contains_key(id) ==> self@[id] == self.posts@[id]@,
    {
        assert(self@.dom() =~= self.posts@.dom());
    }

    /// The keys, in the order in which the map hands out its entries, name
    /// every post exactly once.
    pub(crate) proof fn lemma_walk(&self)
        ensures
            ({
                let walk = self.posts.iter().remaining().unref();
                let keys = walk.map_values(|entry: (usize, BlogPost)| entry.0);
                &&& keys.no_duplicates()
                &&& keys.to_set() == self@.dom()
                &&& forall|i: int|
                    0 <= i < walk.len() ==> self@.contains_key((#[trigger] walk[i]).0)
                        && self@[walk[i].0] == walk[i].1@
            }),
    {
        let entries = self.posts.iter().remaining();
        let walk = entries.unref();
        let keys = walk.map_values(|entry: (usize, BlogPost)| entry.0);
        self.lemma_view();
        assert forall|i: int| 0 <= i < walk.len() implies self.posts@.contains_key(
            (#[trigger] walk[i]).0,
        ) && self.posts@[walk[i].0] == walk[i].1 by {
            assert(self.posts@.contains_key(*entries[i].0));
        }
        assert forall|id: usize| self.posts@.contains_key(id) implies keys.contains(id) by {
            assert(entries.contains((&id, &self.posts@[id])));
            let i = choose|i: int| 0 <= i < entries.len() && entries[i] == (&id, &self.posts@[id]);
            assert(keys[i] == id);
        }
        assert forall|id: usize| keys.contains(id) implies self.posts@.contains_key(id) by {
            let i = choose|i: int| 0 <= i < keys.len() && keys[i] == id;
            assert(self.posts@.contains_key(walk[i].0));
        }
        assert(keys.to_set() =~= self.posts@.dom());
        keys.lemma_no_dup_set_cardinality();
    }
}

} // verus!
