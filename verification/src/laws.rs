//! Cross-operation guarantees of the store, stated over the mathematical
//! model and proved once and for all.

use vstd::prelude::*;

verus! {

use crate::models::{
    StoreView, create_user_spec, new_user, username_taken, create_comment_spec, new_comment,
    create_post_spec, new_post, publish_post_spec, published_pairs_from, user_posts_from,
    post_comment_pairs_below, user_comment_pairs_below, post_summary,
};

/// Creating a user under a fresh username keeps the store well formed, and
/// a later lookup of that username finds exactly the user just created:
/// the one holding the next id the store hands out.
pub proof fn lemma_create_then_find_user(s: StoreView, name: Seq<char>)
    requires
        s.wf(),
        s.users.len() < i32::MAX,
        !username_taken(s.users, name),
    ensures
        create_user_spec(s, name).wf(),
        username_taken(create_user_spec(s, name).users, name),
        forall|i: int|
            0 <= i < create_user_spec(s, name).users.len() && (#[trigger] create_user_spec(
                s,
                name,
            ).users[i]).username == name ==> create_user_spec(s, name).users[i].id == s.users.len()
                + 1,
{
    let s2 = create_user_spec(s, name);
    let n: int = s.users.len() as int;
    assert(s2.users[n] == new_user(s, name));
    assert(username_taken(s2.users, name));
    assert forall|i: int, j: int|
        0 <= i < j < s2.users.len() implies (#[trigger] s2.users[i]).username != (
    #[trigger] s2.users[j]).username by {
        if j == n {
            assert(s.users[i].username != name);
        }
    }
    assert forall|i: int|
        0 <= i < s2.users.len() && (#[trigger] s2.users[i]).username == name implies s2.users[i].id
        == n + 1 by {
        if i < n {
            assert(s.users[i].username != name);
        }
    }
}

/// The public listing from index `i` on, characterized: each of its pairs
/// is a published post (at the index its id names, in `[i, len)`) together
/// with that post's registered owner; every published post with a
/// registered owner and index at least `i` appears in it; and the pairs
/// come newest first, with strictly descending post ids.
pub proof fn lemma_published_pairs_characterize(s: StoreView, i: int)
    requires
        s.wf(),
        0 <= i <= s.posts.len(),
    ensures
        forall|j: int|
            0 <= j < published_pairs_from(s, i).len() ==> {
                let pr = #[trigger] published_pairs_from(s, i)[j];
                &&& i + 1 <= pr.0.id <= s.posts.len()
                &&& pr.0 == s.posts[pr.0.id - 1]
                &&& pr.0.published
                &&& 1 <= pr.0.user_id <= s.users.len()
                &&& pr.1 == s.users[pr.0.user_id - 1]
            },
        forall|k: int|
            i <= k < s.posts.len() && (#[trigger] s.posts[k]).published && 1 <= s.posts[k].user_id
                <= s.users.len() ==> exists|j: int|
                0 <= j < published_pairs_from(s, i).len() && (#[trigger] published_pairs_from(
                    s,
                    i,
                )[j]).0 == s.posts[k],
        forall|j1: int, j2: int|
            0 <= j1 < j2 < published_pairs_from(s, i).len() ==> (#[trigger] published_pairs_from(
                s,
                i,
            )[j1]).0.id > (#[trigger] published_pairs_from(s, i)[j2]).0.id,
    decreases s.posts.len() - i,
{
    if i < s.posts.len() {
        lemma_published_pairs_characterize(s, i + 1);
        let ps = published_pairs_from(s, i);
        let rest = published_pairs_from(s, i + 1);
        let p = s.posts[i];
        if p.published && 1 <= p.user_id <= s.users.len() {
            assert(ps == rest.push((p, s.users[p.user_id - 1])));
            assert(ps[ps.len() - 1].0 == s.posts[i]);
            assert forall|k: int|
                i <= k < s.posts.len() && (#[trigger] s.posts[k]).published && 1
                    <= s.posts[k].user_id <= s.users.len() implies exists|j: int|
                0 <= j < ps.len() && (#[trigger] ps[j]).0 == s.posts[k] by {
                if k == i {
                    assert(ps[ps.len() - 1].0 == s.posts[k]);
                } else {
                    let j = choose|j: int| 0 <= j < rest.len() && (#[trigger] rest[j]).0
                        == s.posts[k];
                    assert(ps[j].0 == s.posts[k]);
                }
            }
        } else {
            assert(ps == rest);
            assert forall|k: int|
                i <= k < s.posts.len() && (#[trigger] s.posts[k]).published && 1
                    <= s.posts[k].user_id <= s.users.len() implies exists|j: int|
                0 <= j < ps.len() && (#[trigger] ps[j]).0 == s.posts[k] by {
                let j = choose|j: int| 0 <= j < rest.len() && (#[trigger] rest[j]).0 == s.posts[k];
                assert(ps[j].0 == s.posts[k]);
            }
        }
    }
}

/// A post that is not published appears nowhere in the public listing.
pub proof fn lemma_unpublished_post_not_listed(s: StoreView, post_id: int)
    requires
        s.wf(),
        1 <= post_id <= s.posts.len(),
        !s.posts[post_id - 1].published,
    ensures
        forall|j: int|
            0 <= j < published_pairs_from(s, 0).len() ==> (#[trigger] published_pairs_from(
                s,
                0,
            )[j]).0.id != post_id,
{
    lemma_published_pairs_characterize(s, 0);
}

/// A freshly created post is unpublished and so appears nowhere in the
/// public listing.
pub proof fn lemma_new_post_not_listed(s: StoreView, user_id: int, title: Seq<char>, body: Seq<char>)
    requires
        s.wf(),
        s.posts.len() < i32::MAX,
    ensures
        create_post_spec(s, user_id, title, body).wf(),
        !new_post(s, user_id, title, body).published,
        forall|j: int|
            0 <= j < published_pairs_from(create_post_spec(s, user_id, title, body), 0).len()
                ==> (#[trigger] published_pairs_from(
                create_post_spec(s, user_id, title, body),
                0,
            )[j]).0.id != new_post(s, user_id, title, body).id,
{
    let s2 = create_post_spec(s, user_id, title, body);
    assert(s2.posts[s.posts.len() as int] == new_post(s, user_id, title, body));
    lemma_unpublished_post_not_listed(s2, s.posts.len() as int + 1);
}

/// Publishing a post whose owner is registered keeps the store well formed
/// and makes the post appear in the public listing exactly once, with its
/// `published` flag true and paired with its owner.
pub proof fn lemma_publish_post_listed_once(s: StoreView, post_id: int)
    requires
        s.wf(),
        1 <= post_id <= s.posts.len(),
        1 <= s.posts[post_id - 1].user_id <= s.users.len(),
    ensures
        publish_post_spec(s, post_id).wf(),
        ({
            let s2 = publish_post_spec(s, post_id);
            let ps = published_pairs_from(s2, 0);
            exists|j: int|
                0 <= j < ps.len() && (#[trigger] ps[j]).0 == s2.posts[post_id - 1] && ps[j].0.published
                    && ps[j].1 == s.users[s.posts[post_id - 1].user_id - 1]
        }),
        forall|j1: int, j2: int|
            0 <= j1 < published_pairs_from(publish_post_spec(s, post_id), 0).len() && 0 <= j2
                < published_pairs_from(publish_post_spec(s, post_id), 0).len()
                && (#[trigger] published_pairs_from(publish_post_spec(s, post_id), 0)[j1]).0.id
                == post_id && (#[trigger] published_pairs_from(publish_post_spec(s, post_id), 0)[j2]).0.id
                == post_id ==> j1 == j2,
{
    let s2 = publish_post_spec(s, post_id);
    assert(s2.posts[post_id - 1].published);
    assert(s2.posts[post_id - 1].id == post_id);
    lemma_published_pairs_characterize(s2, 0);
    let ps = published_pairs_from(s2, 0);
    let j0 = choose|j: int| 0 <= j < ps.len() && (#[trigger] ps[j]).0 == s2.posts[post_id - 1];
    assert(ps[j0].1 == s2.users[ps[j0].0.user_id - 1]);
    assert forall|j1: int, j2: int|
        0 <= j1 < ps.len() && 0 <= j2 < ps.len() && (#[trigger] ps[j1]).0.id == post_id
            && (#[trigger] ps[j2]).0.id == post_id implies j1 == j2 by {
        if j1 < j2 {
            assert(ps[j1].0.id > ps[j2].0.id);
        }
        if j2 < j1 {
            assert(ps[j2].0.id > ps[j1].0.id);
        }
    }
}

/// The per-user listing from index `i` on, characterized: each of its
/// entries is a post owned by the user (at the index its id names, in
/// `[i, len)`), whether published or not; every post of the user with
/// index at least `i` appears in it; and the entries come newest first,
/// with strictly descending ids.
pub proof fn lemma_user_posts_characterize(s: StoreView, user_id: int, i: int)
    requires
        s.wf(),
        0 <= i <= s.posts.len(),
    ensures
        forall|j: int|
            0 <= j < user_posts_from(s, user_id, i).len() ==> {
                let p = #[trigger] user_posts_from(s, user_id, i)[j];
                &&& i + 1 <= p.id <= s.posts.len()
                &&& p == s.posts[p.id - 1]
                &&& p.user_id == user_id
            },
        forall|k: int|
            i <= k < s.posts.len() && (#[trigger] s.posts[k]).user_id == user_id ==> exists|j: int|
                0 <= j < user_posts_from(s, user_id, i).len() && #[trigger] user_posts_from(
                    s,
                    user_id,
                    i,
                )[j] == s.posts[k],
        forall|j1: int, j2: int|
            0 <= j1 < j2 < user_posts_from(s, user_id, i).len() ==> (#[trigger] user_posts_from(
                s,
                user_id,
                i,
            )[j1]).id > (#[trigger] user_posts_from(s, user_id, i)[j2]).id,
    decreases s.posts.len() - i,
{
    if i < s.posts.len() {
        lemma_user_posts_characterize(s, user_id, i + 1);
        let ps = user_posts_from(s, user_id, i);
        let rest = user_posts_from(s, user_id, i + 1);
        if s.posts[i].user_id == user_id {
            assert(ps == rest.push(s.posts[i]));
            assert(ps[ps.len() - 1] == s.posts[i]);
            assert forall|k: int|
                i <= k < s.posts.len() && (#[trigger] s.posts[k]).user_id == user_id implies exists|
                j: int,
            | 0 <= j < ps.len() && #[trigger] ps[j] == s.posts[k] by {
                if k == i {
                    assert(ps[ps.len() - 1] == s.posts[k]);
                } else {
                    let j = choose|j: int| 0 <= j < rest.len() && #[trigger] rest[j] == s.posts[k];
                    assert(ps[j] == s.posts[k]);
                }
            }
        } else {
            assert(ps == rest);
            assert forall|k: int|
                i <= k < s.posts.len() && (#[trigger] s.posts[k]).user_id == user_id implies exists|
                j: int,
            | 0 <= j < ps.len() && #[trigger] ps[j] == s.posts[k] by {
                let j = choose|j: int| 0 <= j < rest.len() && #[trigger] rest[j] == s.posts[k];
                assert(ps[j] == s.posts[k]);
            }
        }
    }
}

/// A comment just created on post P by user U (both registered) ends the
/// comment thread of P, paired with U's identity, and ends the comment
/// history of U, paired with the summary of P.
pub proof fn lemma_comment_appears(s: StoreView, user_id: int, post_id: int, body: Seq<char>)
    requires
        s.wf(),
        s.comments.len() < i32::MAX,
        1 <= user_id <= s.users.len(),
        1 <= post_id <= s.posts.len(),
    ensures
        create_comment_spec(s, user_id, post_id, body).wf(),
        ({
            let s2 = create_comment_spec(s, user_id, post_id, body);
            let c = new_comment(s, user_id, post_id, body);
            let thread = post_comment_pairs_below(s2, post_id, s2.comments.len() as int);
            let history = user_comment_pairs_below(s2, user_id, s2.comments.len() as int);
            &&& thread.len() > 0
            &&& thread.last() == (c, s.users[user_id - 1])
            &&& history.len() > 0
            &&& history.last() == (c, post_summary(s.posts[post_id - 1]))
        }),
{
    let s2 = create_comment_spec(s, user_id, post_id, body);
    let c = new_comment(s, user_id, post_id, body);
    let n: int = s.comments.len() as int;
    assert(s2.comments[n] == c);
    assert(post_comment_pairs_below(s2, post_id, n + 1) == post_comment_pairs_below(
        s2,
        post_id,
        n,
    ).push((c, s.users[user_id - 1])));
    assert(user_comment_pairs_below(s2, user_id, n + 1) == user_comment_pairs_below(
        s2,
        user_id,
        n,
    ).push((c, post_summary(s.posts[post_id - 1]))));
}

} // verus!
