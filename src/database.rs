use crate::models::{Post, PostView};
use vstd::prelude::*;

verus! {

/// The first post of `posts`, in insertion order, whose identifier is `id`.
pub open spec fn first_with_id(posts: Seq<PostView>, id: u128) -> Option<PostView>
    decreases posts.len(),
{
    if posts.len() == 0 {
        None
    } else if posts[0].uuid == id {
        Some(posts[0])
    } else {
        first_with_id(posts.drop_first(), id)
    }
}

/// No two posts of `posts` share an identifier.
pub open spec fn ids_unique(posts: Seq<PostView>) -> bool {
    forall|i: int, j: int|
        0 <= i < posts.len() && 0 <= j < posts.len() && i != j ==> posts[i].uuid != posts[j].uuid
}

/// The views of a sequence of posts.
pub open spec fn views(posts: Seq<Post>) -> Seq<PostView> {
    posts.map_values(|p: Post| p@)
}

/// The post store: every post ever added, oldest first.  It only grows.
pub struct Database {
    posts: Vec<Post>,
}

impl View for Database {
    type V = Seq<PostView>;

    closed spec fn view(&self) -> Seq<PostView> {
        views(self.posts@)
    }
}

impl Database {
    pub fn new() -> (r: Database)
        ensures
            r@ == Seq::<PostView>::empty(),
    {
        let r = Database { posts: Vec::new() };
        assert(r@ =~= Seq::<PostView>::empty());
        r
    }

    /// Appends `post` at the end; identifiers are not checked for uniqueness.
    pub fn add_post(&mut self, post: Post)
        ensures
            final(self)@ == old(self)@.push(post@),
    {
        self.posts.push(post);
        assert(self@ =~= old(self)@.push(post@));
    }

    /// All posts, in insertion order.
    pub fn posts(&self) -> (r: &Vec<Post>)
        ensures
            views(r@) == self@,
    {
        &self.posts
    }

    /// A copy of all posts, in insertion order.  The store is left as it is,
    /// so two reads with no append between them give the same posts.
    pub fn snapshot(&self) -> (r: Vec<Post>)
        ensures
            views(r@) == self@,
    {
        let mut r: Vec<Post> = Vec::new();
        let mut i: usize = 0;
        while i < self.posts.len()
            invariant
                i <= self.posts@.len(),
                views(r@) == views(self.posts@).subrange(0, i as int),
            decreases self.posts@.len() - i,
        {
            let p = self.posts[i].duplicate();
            let ghost before = r@;
            r.push(p);
            assert(views(r@) =~= views(before).push(p@));
            i = i + 1;
            assert(views(r@) =~= views(self.posts@).subrange(0, i as int));
        }
        assert(views(self.posts@).subrange(0, i as int) =~= views(self.posts@));
        r
    }

    /// The first post, in insertion order, whose identifier is `id`.
    pub fn find_post(&self, id: u128) -> (r: Option<Post>)
        ensures
            match r {
                Some(p) => first_with_id(self@, id) == Some(p@) && p@.uuid == id,
                None => first_with_id(self@, id) is None,
            },
    {
        let mut i: usize = 0;
        assert(self@.subrange(0, self@.len() as int) =~= self@);
        while i < self.posts.len()
            invariant
                i <= self.posts@.len(),
                self@.len() == self.posts@.len(),
                first_with_id(self@, id) == first_with_id(self@.subrange(i as int, self@.len() as int), id),
            decreases self.posts@.len() - i,
        {
            let ghost rest = self@.subrange(i as int, self@.len() as int);
            if self.posts[i].uuid() == id {
                return Some(self.posts[i].duplicate());
            }
            assert(rest.drop_first() =~= self@.subrange(i + 1, self@.len() as int));
            i = i + 1;
        }
        None
    }
}

/// Looking up the identifier of a post held in a store with unique
/// identifiers finds exactly that post.
pub proof fn lemma_first_with_id_finds(posts: Seq<PostView>, k: int)
    requires
        ids_unique(posts),
        0 <= k < posts.len(),
    ensures
        first_with_id(posts, posts[k].uuid) == Some(posts[k]),
    decreases posts.len(),
{
    if k > 0 {
        let rest = posts.drop_first();
        assert(ids_unique(rest));
        assert(rest[k - 1] == posts[k]);
        lemma_first_with_id_finds(rest, k - 1);
    }
}

/// An identifier that no post carries is not found.
pub proof fn lemma_first_with_id_absent(posts: Seq<PostView>, id: u128)
    requires
        forall|i: int| 0 <= i < posts.len() ==> posts[i].uuid != id,
    ensures
        first_with_id(posts, id) is None,
    decreases posts.len(),
{
    if posts.len() > 0 {
        let rest = posts.drop_first();
        assert forall|i: int| 0 <= i < rest.len() implies rest[i].uuid != id by {
            assert(rest[i] == posts[i + 1]);
        }
        lemma_first_with_id_absent(rest, id);
    }
}

} // verus!
