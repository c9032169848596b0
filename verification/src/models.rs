//! The data model: users, posts and comments, the in-memory store that owns
//! them, and one verified function per operation of the API.

use vstd::prelude::*;

verus! {

use crate::errors::AppError;
use vstd::pervasive::VecAdditionalExecFns;
use vstd::string::StringExecFns;

/// A registered account: an auto-incremented id and a unique username.
#[derive(Debug, PartialEq)]
pub struct User {
    pub id: i32,
    pub username: String,
}

/// A post authored by a user; `published` starts out false and is flipped
/// once by `publish_post`.
#[derive(Debug, PartialEq)]
pub struct Post {
    pub id: i32,
    pub user_id: i32,
    pub title: String,
    pub body: String,
    pub published: bool,
}

/// A comment by a user on a post. No existence check is made on either id
/// at creation time, so a dangling reference is possible.
#[derive(Debug, PartialEq)]
pub struct Comment {
    pub id: i32,
    pub post_id: i32,
    pub user_id: i32,
    pub body: String,
}

/// The summary of a post carried in a user's comment history.
#[derive(Debug, PartialEq)]
pub struct PostWithComment {
    pub id: i32,
    pub title: String,
    pub published: bool,
}

/// How to look a user up: by username or by id.
#[derive(Debug, PartialEq)]
pub enum UserKey {
    Username(String),
    ID(i32),
}

/// Mathematical image of a [`User`].
#[verifier::ext_equal]
pub ghost struct UserView {
    pub id: int,
    pub username: Seq<char>,
}

/// Mathematical image of a [`Post`].
#[verifier::ext_equal]
pub ghost struct PostView {
    pub id: int,
    pub user_id: int,
    pub title: Seq<char>,
    pub body: Seq<char>,
    pub published: bool,
}

/// Mathematical image of a [`Comment`].
#[verifier::ext_equal]
pub ghost struct CommentView {
    pub id: int,
    pub post_id: int,
    pub user_id: int,
    pub body: Seq<char>,
}

/// Mathematical image of a [`PostWithComment`].
#[verifier::ext_equal]
pub ghost struct PostWithCommentView {
    pub id: int,
    pub title: Seq<char>,
    pub published: bool,
}

impl View for User {
    type V = UserView;

    open spec fn view(&self) -> UserView {
        UserView { id: self.id as int, username: self.username@ }
    }
}

impl View for Post {
    type V = PostView;

    open spec fn view(&self) -> PostView {
        PostView {
            id: self.id as int,
            user_id: self.user_id as int,
            title: self.title@,
            body: self.body@,
            published: self.published,
        }
    }
}

impl View for Comment {
    type V = CommentView;

    open spec fn view(&self) -> CommentView {
        CommentView {
            id: self.id as int,
            post_id: self.post_id as int,
            user_id: self.user_id as int,
            body: self.body@,
        }
    }
}

impl View for PostWithComment {
    type V = PostWithCommentView;

    open spec fn view(&self) -> PostWithCommentView {
        PostWithCommentView { id: self.id as int, title: self.title@, published: self.published }
    }
}

/// Mathematical image of a [`UserKey`].
pub ghost enum UserKeyView {
    Username(Seq<char>),
    ID(int),
}

impl View for UserKey {
    type V = UserKeyView;

    open spec fn view(&self) -> UserKeyView {
        match self {
            UserKey::Username(name) => UserKeyView::Username(name@),
            UserKey::ID(id) => UserKeyView::ID(*id as int),
        }
    }
}

/// Mathematical image of the whole store: the three tables in insertion order.
#[verifier::ext_equal]
pub ghost struct StoreView {
    pub users: Seq<UserView>,
    pub posts: Seq<PostView>,
    pub comments: Seq<CommentView>,
}

impl StoreView {
    /// Well-formedness: each table assigns ids 1, 2, 3, ... in insertion
    /// order (so ids fit an `i32` and are unique), and usernames are unique.
    pub open spec fn wf(&self) -> bool {
        &&& self.users.len() <= i32::MAX
        &&& self.posts.len() <= i32::MAX
        &&& self.comments.len() <= i32::MAX
        &&& forall|i: int| 0 <= i < self.users.len() ==> (#[trigger] self.users[i]).id == i + 1
        &&& forall|i: int| 0 <= i < self.posts.len() ==> (#[trigger] self.posts[i]).id == i + 1
        &&& forall|i: int|
            0 <= i < self.comments.len() ==> (#[trigger] self.comments[i]).id == i + 1
        &&& forall|i: int, j: int|
            0 <= i < j < self.users.len() ==> (#[trigger] self.users[i]).username != (
            #[trigger] self.users[j]).username
    }
}

/// Whether some user already holds `name`.
pub open spec fn username_taken(users: Seq<UserView>, name: Seq<char>) -> bool {
    exists|i: int| 0 <= i < users.len() && (#[trigger] users[i]).username == name
}

/// Whether `u` is the user that `key` designates.
pub open spec fn key_matches(key: UserKeyView, u: UserView) -> bool {
    match key {
        UserKeyView::Username(name) => u.username == name,
        UserKeyView::ID(id) => u.id == id,
    }
}

/// The record that creating a user named `name` in state `s` adds.
pub open spec fn new_user(s: StoreView, name: Seq<char>) -> UserView {
    UserView { id: s.users.len() as int + 1, username: name }
}

/// The state after creating a user named `name` in state `s`.
pub open spec fn create_user_spec(s: StoreView, name: Seq<char>) -> StoreView {
    StoreView { users: s.users.push(new_user(s, name)), posts: s.posts, comments: s.comments }
}

/// The record that creating a post in state `s` adds: it gets the next id
/// and starts out unpublished.
pub open spec fn new_post(s: StoreView, user_id: int, title: Seq<char>, body: Seq<char>) -> PostView {
    PostView {
        id: s.posts.len() as int + 1,
        user_id: user_id,
        title: title,
        body: body,
        published: false,
    }
}

/// The state after creating a post in state `s`.
pub open spec fn create_post_spec(
    s: StoreView,
    user_id: int,
    title: Seq<char>,
    body: Seq<char>,
) -> StoreView {
    StoreView {
        users: s.users,
        posts: s.posts.push(new_post(s, user_id, title, body)),
        comments: s.comments,
    }
}

/// The state after publishing the post with id `post_id` (which must exist).
pub open spec fn publish_post_spec(s: StoreView, post_id: int) -> StoreView {
    let p = s.posts[post_id - 1];
    StoreView {
        users: s.users,
        posts: s.posts.update(
            post_id - 1,
            PostView {
                id: p.id,
                user_id: p.user_id,
                title: p.title,
                body: p.body,
                published: true,
            },
        ),
        comments: s.comments,
    }
}

/// The record that creating a comment in state `s` adds.
pub open spec fn new_comment(s: StoreView, user_id: int, post_id: int, body: Seq<char>) -> CommentView {
    CommentView { id: s.comments.len() as int + 1, post_id: post_id, user_id: user_id, body: body }
}

/// The state after creating a comment in state `s`. No existence check is
/// made on `user_id` or `post_id`.
pub open spec fn create_comment_spec(
    s: StoreView,
    user_id: int,
    post_id: int,
    body: Seq<char>,
) -> StoreView {
    StoreView {
        users: s.users,
        posts: s.posts,
        comments: s.comments.push(new_comment(s, user_id, post_id, body)),
    }
}

/// The summary of a post as it appears in a user's comment history.
pub open spec fn post_summary(p: PostView) -> PostWithCommentView {
    PostWithCommentView { id: p.id, title: p.title, published: p.published }
}

/// The public listing restricted to posts at index `i` and beyond: every
/// published post whose owner is registered, paired with its owner, newest
/// (highest id, so highest index) first.
pub open spec fn published_pairs_from(s: StoreView, i: int) -> Seq<(PostView, UserView)>
    decreases s.posts.len() - i,
{
    if i < 0 || i >= s.posts.len() {
        Seq::empty()
    } else {
        let rest = published_pairs_from(s, i + 1);
        let p = s.posts[i];
        if p.published && 1 <= p.user_id <= s.users.len() {
            rest.push((p, s.users[p.user_id - 1]))
        } else {
            rest
        }
    }
}

/// The posts owned by `user_id` at index `i` and beyond, regardless of
/// publish state, newest first.
pub open spec fn user_posts_from(s: StoreView, user_id: int, i: int) -> Seq<PostView>
    decreases s.posts.len() - i,
{
    if i < 0 || i >= s.posts.len() {
        Seq::empty()
    } else {
        let rest = user_posts_from(s, user_id, i + 1);
        if s.posts[i].user_id == user_id {
            rest.push(s.posts[i])
        } else {
            rest
        }
    }
}

/// The comments on `post_id` among the first `i` comments, each paired
/// with the commenting user (comments whose author is not registered are
/// dropped by the join), in insertion order.
pub open spec fn post_comment_pairs_below(s: StoreView, post_id: int, i: int) -> Seq<
    (CommentView, UserView),
>
    decreases i,
{
    if i <= 0 {
        Seq::empty()
    } else {
        let rest = post_comment_pairs_below(s, post_id, i - 1);
        let c = s.comments[i - 1];
        if c.post_id == post_id && 1 <= c.user_id <= s.users.len() {
            rest.push((c, s.users[c.user_id - 1]))
        } else {
            rest
        }
    }
}

/// The comments by `user_id` among the first `i` comments, each paired
/// with the summary of the post it targets (comments on an unregistered
/// post are dropped by the join), in insertion order.
pub open spec fn user_comment_pairs_below(s: StoreView, user_id: int, i: int) -> Seq<
    (CommentView, PostWithCommentView),
>
    decreases i,
{
    if i <= 0 {
        Seq::empty()
    } else {
        let rest = user_comment_pairs_below(s, user_id, i - 1);
        let c = s.comments[i - 1];
        if c.user_id == user_id && 1 <= c.post_id <= s.posts.len() {
            rest.push((c, post_summary(s.posts[c.post_id - 1])))
        } else {
            rest
        }
    }
}

/// Whether the executable pairs in `v` are, element for element, the
/// mathematical pairs in `w`.
pub open spec fn post_user_pairs_match(v: Seq<(Post, User)>, w: Seq<(PostView, UserView)>) -> bool {
    &&& v.len() == w.len()
    &&& forall|i: int|
        0 <= i < v.len() ==> (#[trigger] v[i]).0@ == w[i].0 && v[i].1@ == w[i].1
}

/// Whether the executable posts in `v` are, element for element, the
/// mathematical posts in `w`.
pub open spec fn posts_match(v: Seq<Post>, w: Seq<PostView>) -> bool {
    &&& v.len() == w.len()
    &&& forall|i: int| 0 <= i < v.len() ==> (#[trigger] v[i])@ == w[i]
}

/// Whether the executable pairs in `v` are, element for element, the
/// mathematical pairs in `w`.
pub open spec fn comment_user_pairs_match(
    v: Seq<(Comment, User)>,
    w: Seq<(CommentView, UserView)>,
) -> bool {
    &&& v.len() == w.len()
    &&& forall|i: int|
        0 <= i < v.len() ==> (#[trigger] v[i]).0@ == w[i].0 && v[i].1@ == w[i].1
}

/// Whether the executable pairs in `v` are, element for element, the
/// mathematical pairs in `w`.
pub open spec fn comment_post_pairs_match(
    v: Seq<(Comment, PostWithComment)>,
    w: Seq<(CommentView, PostWithCommentView)>,
) -> bool {
    &&& v.len() == w.len()
    &&& forall|i: int|
        0 <= i < v.len() ==> (#[trigger] v[i]).0@ == w[i].0 && v[i].1@ == w[i].1
}

/// The in-memory store: the sole owner of all persisted state. It plays the
/// role of the relational engine behind the data-access functions; the
/// invariant [`StoreView::wf`] captures what the engine's constraints and
/// auto-increment keys would enforce.
pub struct Store {
    users: Vec<User>,
    posts: Vec<Post>,
    comments: Vec<Comment>,
}

impl Store {
    /// The three tables, in insertion order.
    pub closed spec fn view(&self) -> StoreView {
        StoreView {
            users: self.users@.map_values(|u: User| u@),
            posts: self.posts@.map_values(|p: Post| p@),
            comments: self.comments@.map_values(|c: Comment| c@),
        }
    }

    /// The store's invariant, stated of its mathematical image.
    pub open spec fn wf(&self) -> bool {
        self@.wf()
    }

    /// An empty store.
    pub fn new() -> (s: Store)
        ensures
            s.wf(),
            s@.users.len() == 0,
            s@.posts.len() == 0,
            s@.comments.len() == 0,
    {
        Store { users: Vec::new(), posts: Vec::new(), comments: Vec::new() }
    }

    /// How many users are registered.
    pub fn user_count(&self) -> (n: usize)
        ensures
            n == self@.users.len(),
    {
        self.users.len()
    }

    /// How many posts exist.
    pub fn post_count(&self) -> (n: usize)
        ensures
            n == self@.posts.len(),
    {
        self.posts.len()
    }

    /// How many comments exist.
    pub fn comment_count(&self) -> (n: usize)
        ensures
            n == self@.comments.len(),
    {
        self.comments.len()
    }
}

/// Inserts a new account under `username` and returns the stored record.
/// Fails with `RecordAlreadyExists`, leaving the store unchanged, exactly
/// when the username is already held.
pub fn create_user(store: &mut Store, username: &str) -> (r: Result<User, AppError>)
    requires
        old(store).wf(),
        old(store)@.users.len() < i32::MAX,
    ensures
        final(store).wf(),
        username_taken(old(store)@.users, username@) ==> {
            &&& r matches Err(e) && e == AppError::RecordAlreadyExists
            &&& final(store)@ == old(store)@
        },
        !username_taken(old(store)@.users, username@) ==> {
            &&& r matches Ok(u) && u@ == new_user(old(store)@, username@)
            &&& final(store)@ == create_user_spec(old(store)@, username@)
        },
{
    let uname = String::from_str(username);
    let n: usize = store.users.len();
    let mut i: usize = 0;
    #[verifier::loop_isolation(false)]
    while i < n
        invariant
            i <= n,
            forall|k: int| 0 <= k < i ==> (#[trigger] store@.users[k]).username != username@,
        decreases n - i,
    {
        if store.users[i].username == uname {
            proof {
                assert(store@.users[i as int].username == username@);
            }
            return Err(AppError::RecordAlreadyExists);
        }
        i += 1;
    }
    assert(!username_taken(store@.users, username@));
    let id: i32 = (store.users.len() + 1) as i32;
    store.users.push(User { id, username: uname });
    let ret = User { id, username: String::from_str(username) };
    proof {
        assert(store@ =~~= create_user_spec(old(store)@, username@));
    }
    Ok(ret)
}

/// Looks a user up by username or by id. Returns the matching record, or
/// fails with `RecordNotFound` exactly when no user matches the key.
pub fn find_user(store: &Store, key: UserKey) -> (r: Result<User, AppError>)
    requires
        store.wf(),
    ensures
        match r {
            Ok(u) => exists|i: int|
                0 <= i < store@.users.len() && u@ == #[trigger] store@.users[i] && key_matches(
                    key@,
                    store@.users[i],
                ),
            Err(e) => {
                &&& e == AppError::RecordNotFound
                &&& forall|i: int|
                    0 <= i < store@.users.len() ==> !key_matches(
                        key@,
                        #[trigger] store@.users[i],
                    )
            },
        },
{
    match key {
        UserKey::Username(name) => {
            let n: usize = store.users.len();
            let mut i: usize = 0;
            #[verifier::loop_isolation(false)]
            while i < n
                invariant
                    i <= n,
                    forall|k: int|
                        0 <= k < i ==> (#[trigger] store@.users[k]).username != name@,
                decreases n - i,
            {
                if store.users[i].username == name {
                    let found = User {
                        id: store.users[i].id,
                        username: store.users[i].username.clone(),
                    };
                    proof {
                        assert(found@ == store@.users[i as int]);
                        assert(key_matches(key@, store@.users[i as int]));
                    }
                    return Ok(found);
                }
                i += 1;
            }
            proof {
                assert(forall|k: int|
                    0 <= k < store@.users.len() ==> !key_matches(
                        key@,
                        #[trigger] store@.users[k],
                    ));
            }
            Err(AppError::RecordNotFound)
        },
        UserKey::ID(id) => {
            if 1 <= id && (id as usize) <= store.users.len() {
                let idx = (id - 1) as usize;
                let found = User {
                    id: store.users[idx].id,
                    username: store.users[idx].username.clone(),
                };
                proof {
                    assert(found@ == store@.users[idx as int]);
                    assert(key_matches(key@, store@.users[idx as int]));
                }
                Ok(found)
            } else {
                assert(forall|i: int|
                    0 <= i < store@.users.len() ==> (#[trigger] store@.users[i]).id != id);
                Err(AppError::RecordNotFound)
            }
        },
    }
}

/// Inserts a post owned by `user`, unpublished, and returns the stored
/// record. No check is made here that `user` is a registered account: the
/// caller looks the owner up first (see [`create_post_for_user`]).
pub fn create_post(store: &mut Store, user: &User, title: String, body: String) -> (r: Result<
    Post,
    AppError,
>)
    requires
        old(store).wf(),
        old(store)@.posts.len() < i32::MAX,
    ensures
        final(store).wf(),
        r matches Ok(p) && p@ == new_post(old(store)@, user@.id, title@, body@),
        final(store)@ == create_post_spec(old(store)@, user@.id, title@, body@),
{
    let id: i32 = (store.posts.len() + 1) as i32;
    let ret = Post {
        id,
        user_id: user.id,
        title: title.clone(),
        body: body.clone(),
        published: false,
    };
    store.posts.push(Post { id, user_id: user.id, title, body, published: false });
    proof {
        assert(store@ =~~= create_post_spec(old(store)@, user@.id, title@, body@));
    }
    Ok(ret)
}

/// Sets the published flag of the post with id `post_id` and returns the
/// updated record; fails with `RecordNotFound`, leaving the store
/// unchanged, exactly when no post has that id.
pub fn publish_post(store: &mut Store, post_id: i32) -> (r: Result<Post, AppError>)
    requires
        old(store).wf(),
    ensures
        final(store).wf(),
        1 <= post_id <= old(store)@.posts.len() ==> {
            &&& r matches Ok(p) && p@ == publish_post_spec(old(store)@, post_id as int).posts[post_id
                - 1]
            &&& final(store)@ == publish_post_spec(old(store)@, post_id as int)
        },
        !(1 <= post_id <= old(store)@.posts.len()) ==> {
            &&& r matches Err(e) && e == AppError::RecordNotFound
            &&& final(store)@ == old(store)@
        },
{
    if 1 <= post_id && (post_id as usize) <= store.posts.len() {
        let idx = (post_id - 1) as usize;
        let user_id: i32 = store.posts[idx].user_id;
        let title = store.posts[idx].title.clone();
        let body = store.posts[idx].body.clone();
        let ret = Post {
            id: post_id,
            user_id,
            title: title.clone(),
            body: body.clone(),
            published: true,
        };
        store.posts.set(idx, Post { id: post_id, user_id, title, body, published: true });
        proof {
            assert(store@ =~~= publish_post_spec(old(store)@, post_id as int));
        }
        Ok(ret)
    } else {
        Err(AppError::RecordNotFound)
    }
}

/// Inserts a comment by `user_id` on `post_id` and returns the stored
/// record. As in the schema, neither id is checked for existence, so a
/// dangling reference is possible.
pub fn create_comment(store: &mut Store, user_id: i32, post_id: i32, body: String) -> (r: Result<
    Comment,
    AppError,
>)
    requires
        old(store).wf(),
        old(store)@.comments.len() < i32::MAX,
    ensures
        final(store).wf(),
        r matches Ok(c) && c@ == new_comment(old(store)@, user_id as int, post_id as int, body@),
        final(store)@ == create_comment_spec(old(store)@, user_id as int, post_id as int, body@),
{
    let id: i32 = (store.comments.len() + 1) as i32;
    let ret = Comment { id, post_id, user_id, body: body.clone() };
    store.comments.push(Comment { id, post_id, user_id, body });
    proof {
        assert(store@ =~~= create_comment_spec(old(store)@, user_id as int, post_id as int, body@));
    }
    Ok(ret)
}

/// The operation behind `POST /user/{id}/posts`: looks the owner up by id,
/// then creates the post for it. Fails with `RecordNotFound`, leaving the
/// store unchanged, exactly when no user has id `user_id`.
pub fn create_post_for_user(store: &mut Store, user_id: i32, title: String, body: String) -> (r:
    Result<Post, AppError>)
    requires
        old(store).wf(),
        old(store)@.posts.len() < i32::MAX,
    ensures
        final(store).wf(),
        1 <= user_id <= old(store)@.users.len() ==> {
            &&& r matches Ok(p) && p@ == new_post(old(store)@, user_id as int, title@, body@)
            &&& final(store)@ == create_post_spec(old(store)@, user_id as int, title@, body@)
        },
        !(1 <= user_id <= old(store)@.users.len()) ==> {
            &&& r matches Err(e) && e == AppError::RecordNotFound
            &&& final(store)@ == old(store)@
        },
{
    match find_user(store, UserKey::ID(user_id)) {
        Ok(user) => {
            proof {
                let i = choose|i: int|
                    0 <= i < store@.users.len() && user@ == #[trigger] store@.users[i]
                        && key_matches(UserKey::ID(user_id)@, store@.users[i]);
                assert(user@.id == user_id);
            }
            create_post(store, &user, title, body)
        },
        Err(e) => {
            proof {
                if 1 <= user_id <= store@.users.len() {
                    assert(key_matches(UserKey::ID(user_id)@, store@.users[user_id - 1]));
                }
            }
            Err(e)
        },
    }
}

/// All published posts joined with their owning user, newest first.
pub fn all_posts(store: &Store) -> (r: Result<Vec<(Post, User)>, AppError>)
    requires
        store.wf(),
    ensures
        r matches Ok(v) && post_user_pairs_match(v@, published_pairs_from(store@, 0)),
{
    let mut out: Vec<(Post, User)> = Vec::new();
    let mut i: usize = store.posts.len();
    #[verifier::loop_isolation(false)]
    while i > 0
        invariant
            i <= store.posts.len(),
            post_user_pairs_match(out@, published_pairs_from(store@, i as int)),
        decreases i,
    {
        i = i - 1;
        let p = &store.posts[i];
        if p.published && 1 <= p.user_id && (p.user_id as usize) <= store.users.len() {
            let uidx = (p.user_id - 1) as usize;
            let post = Post {
                id: p.id,
                user_id: p.user_id,
                title: p.title.clone(),
                body: p.body.clone(),
                published: p.published,
            };
            let user = User {
                id: store.users[uidx].id,
                username: store.users[uidx].username.clone(),
            };
            out.push((post, user));
        }
    }
    Ok(out)
}

/// All posts owned by `user_id`, regardless of publish state, newest first.
pub fn user_posts(store: &Store, user_id: i32) -> (r: Result<Vec<Post>, AppError>)
    requires
        store.wf(),
    ensures
        r matches Ok(v) && posts_match(v@, user_posts_from(store@, user_id as int, 0)),
{
    let mut out: Vec<Post> = Vec::new();
    let mut i: usize = store.posts.len();
    #[verifier::loop_isolation(false)]
    while i > 0
        invariant
            i <= store.posts.len(),
            posts_match(out@, user_posts_from(store@, user_id as int, i as int)),
        decreases i,
    {
        i = i - 1;
        let p = &store.posts[i];
        if p.user_id == user_id {
            out.push(Post {
                id: p.id,
                user_id: p.user_id,
                title: p.title.clone(),
                body: p.body.clone(),
                published: p.published,
            });
        }
    }
    Ok(out)
}

/// All comments on `post_id` joined with the commenting user, in insertion
/// order.
pub fn post_comments(store: &Store, post_id: i32) -> (r: Result<Vec<(Comment, User)>, AppError>)
    requires
        store.wf(),
    ensures
        r matches Ok(v) && comment_user_pairs_match(
            v@,
            post_comment_pairs_below(store@, post_id as int, store@.comments.len() as int),
        ),
{
    let mut out: Vec<(Comment, User)> = Vec::new();
    let n: usize = store.comments.len();
    let mut i: usize = 0;
    #[verifier::loop_isolation(false)]
    while i < n
        invariant
            i <= n,
            comment_user_pairs_match(out@, post_comment_pairs_below(store@, post_id as int, i as int)),
        decreases n - i,
    {
        let c = &store.comments[i];
        if c.post_id == post_id && 1 <= c.user_id && (c.user_id as usize) <= store.users.len() {
            let uidx = (c.user_id - 1) as usize;
            let comment = Comment {
                id: c.id,
                post_id: c.post_id,
                user_id: c.user_id,
                body: c.body.clone(),
            };
            let user = User {
                id: store.users[uidx].id,
                username: store.users[uidx].username.clone(),
            };
            out.push((comment, user));
        }
        i += 1;
    }
    Ok(out)
}

/// All comments by `user_id`, each joined with the summary of the post it
/// targets, in insertion order.
pub fn user_comments(store: &Store, user_id: i32) -> (r: Result<
    Vec<(Comment, PostWithComment)>,
    AppError,
>)
    requires
        store.wf(),
    ensures
        r matches Ok(v) && comment_post_pairs_match(
            v@,
            user_comment_pairs_below(store@, user_id as int, store@.comments.len() as int),
        ),
{
    let mut out: Vec<(Comment, PostWithComment)> = Vec::new();
    let n: usize = store.comments.len();
    let mut i: usize = 0;
    #[verifier::loop_isolation(false)]
    while i < n
        invariant
            i <= n,
            comment_post_pairs_match(out@, user_comment_pairs_below(store@, user_id as int, i as int)),
        decreases n - i,
    {
        let c = &store.comments[i];
        if c.user_id == user_id && 1 <= c.post_id && (c.post_id as usize) <= store.posts.len() {
            let pidx = (c.post_id - 1) as usize;
            let comment = Comment {
                id: c.id,
                post_id: c.post_id,
                user_id: c.user_id,
                body: c.body.clone(),
            };
            let summary = PostWithComment {
                id: store.posts[pidx].id,
                title: store.posts[pidx].title.clone(),
                published: store.posts[pidx].published,
            };
            out.push((comment, summary));
        }
        i += 1;
    }
    Ok(out)
}

} // verus!
