use blog::errors::AppError;
use blog::models::{
    all_posts, create_comment, create_post, create_post_for_user, create_user, find_user,
    post_comments, publish_post, user_comments, user_posts, Store, User, UserKey,
};

#[test]
fn create_user_fresh_then_lookup() {
    let mut s = Store::new();
    let u = create_user(&mut s, "alice").unwrap();
    assert_eq!(u.id, 1);
    assert_eq!(u.username, "alice");
    let by_name = find_user(&s, UserKey::Username(String::from("alice"))).unwrap();
    assert_eq!(by_name.id, u.id);
    assert_eq!(by_name.username, "alice");
    let by_id = find_user(&s, UserKey::ID(1)).unwrap();
    assert_eq!(by_id.username, "alice");
}

#[test]
fn create_user_duplicate_rejected() {
    let mut s = Store::new();
    create_user(&mut s, "alice").unwrap();
    let err = create_user(&mut s, "alice").unwrap_err();
    assert_eq!(err, AppError::RecordAlreadyExists);
    assert_eq!(err.status_code(), 400);
    assert_eq!(s.user_count(), 1);
    // the second account under a fresh name still gets the next id
    let bob = create_user(&mut s, "bob").unwrap();
    assert_eq!(bob.id, 2);
}

#[test]
fn find_missing_user_not_found() {
    let mut s = Store::new();
    create_user(&mut s, "alice").unwrap();
    let err = find_user(&s, UserKey::Username(String::from("bob"))).unwrap_err();
    assert_eq!(err, AppError::RecordNotFound);
    assert_eq!(err.status_code(), 404);
    assert_eq!(find_user(&s, UserKey::ID(5)).unwrap_err(), AppError::RecordNotFound);
    assert_eq!(find_user(&s, UserKey::ID(0)).unwrap_err(), AppError::RecordNotFound);
    assert_eq!(find_user(&s, UserKey::ID(-3)).unwrap_err(), AppError::RecordNotFound);
}

#[test]
fn new_post_unlisted_until_published() {
    let mut s = Store::new();
    create_user(&mut s, "alice").unwrap();
    let p = create_post_for_user(&mut s, 1, String::from("t"), String::from("b")).unwrap();
    assert_eq!(p.id, 1);
    assert!(!p.published);
    assert!(all_posts(&s).unwrap().is_empty());
    let published = publish_post(&mut s, 1).unwrap();
    assert!(published.published);
    let listing = all_posts(&s).unwrap();
    assert_eq!(listing.len(), 1);
    assert_eq!(listing[0].0.id, 1);
    assert!(listing[0].0.published);
    assert_eq!(listing[0].1.username, "alice");
}

#[test]
fn publish_missing_post_not_found() {
    let mut s = Store::new();
    create_user(&mut s, "alice").unwrap();
    let err = publish_post(&mut s, 42).unwrap_err();
    assert_eq!(err, AppError::RecordNotFound);
    assert_eq!(publish_post(&mut s, 0).unwrap_err(), AppError::RecordNotFound);
}

#[test]
fn create_post_for_missing_user_not_found() {
    let mut s = Store::new();
    let err = create_post_for_user(&mut s, 1, String::from("t"), String::from("b")).unwrap_err();
    assert_eq!(err, AppError::RecordNotFound);
    assert_eq!(s.post_count(), 0);
}

#[test]
fn user_posts_all_states_newest_first() {
    let mut s = Store::new();
    create_user(&mut s, "alice").unwrap();
    create_user(&mut s, "bob").unwrap();
    create_post_for_user(&mut s, 1, String::from("a1"), String::from("x")).unwrap();
    create_post_for_user(&mut s, 2, String::from("b1"), String::from("x")).unwrap();
    create_post_for_user(&mut s, 1, String::from("a2"), String::from("x")).unwrap();
    create_post_for_user(&mut s, 1, String::from("a3"), String::from("x")).unwrap();
    publish_post(&mut s, 3).unwrap();
    let mine = user_posts(&s, 1).unwrap();
    let ids: Vec<i32> = mine.iter().map(|p| p.id).collect();
    assert_eq!(ids, vec![4, 3, 1]);
    let titles: Vec<&str> = mine.iter().map(|p| p.title.as_str()).collect();
    assert_eq!(titles, vec!["a3", "a2", "a1"]);
    // publish state is irrelevant to the per-user listing
    assert!(mine.iter().any(|p| p.published));
    assert!(mine.iter().any(|p| !p.published));
    let theirs = user_posts(&s, 2).unwrap();
    assert_eq!(theirs.len(), 1);
    assert_eq!(theirs[0].title, "b1");
}

#[test]
fn all_posts_newest_first() {
    let mut s = Store::new();
    create_user(&mut s, "alice").unwrap();
    for t in ["p1", "p2", "p3"] {
        create_post_for_user(&mut s, 1, String::from(t), String::from("x")).unwrap();
        let id = s.post_count() as i32;
        publish_post(&mut s, id).unwrap();
    }
    let listing = all_posts(&s).unwrap();
    let ids: Vec<i32> = listing.iter().map(|(p, _)| p.id).collect();
    assert_eq!(ids, vec![3, 2, 1]);
}

#[test]
fn comment_appears_in_both_joins() {
    let mut s = Store::new();
    create_user(&mut s, "alice").unwrap();
    create_user(&mut s, "bob").unwrap();
    create_post_for_user(&mut s, 1, String::from("t"), String::from("b")).unwrap();
    let c = create_comment(&mut s, 2, 1, String::from("nice")).unwrap();
    assert_eq!(c.id, 1);
    let thread = post_comments(&s, 1).unwrap();
    assert_eq!(thread.len(), 1);
    assert_eq!(thread[0].0.body, "nice");
    assert_eq!(thread[0].1.id, 2);
    assert_eq!(thread[0].1.username, "bob");
    let history = user_comments(&s, 2).unwrap();
    assert_eq!(history.len(), 1);
    assert_eq!(history[0].0.body, "nice");
    assert_eq!(history[0].1.id, 1);
    assert_eq!(history[0].1.title, "t");
    assert!(!history[0].1.published);
}

#[test]
fn post_comments_keep_insertion_order() {
    let mut s = Store::new();
    create_user(&mut s, "alice").unwrap();
    create_post_for_user(&mut s, 1, String::from("t"), String::from("b")).unwrap();
    create_comment(&mut s, 1, 1, String::from("first")).unwrap();
    create_comment(&mut s, 1, 1, String::from("second")).unwrap();
    let thread = post_comments(&s, 1).unwrap();
    let bodies: Vec<&str> = thread.iter().map(|(c, _)| c.body.as_str()).collect();
    assert_eq!(bodies, vec!["first", "second"]);
}

#[test]
fn dangling_comment_is_accepted_but_dropped_by_joins() {
    let mut s = Store::new();
    // no user 9 and no post 7 exist; the insert still succeeds
    let c = create_comment(&mut s, 9, 7, String::from("ghost")).unwrap();
    assert_eq!(c.id, 1);
    assert_eq!(s.comment_count(), 1);
    assert!(post_comments(&s, 7).unwrap().is_empty());
    assert!(user_comments(&s, 9).unwrap().is_empty());
}

#[test]
fn post_with_unregistered_owner_never_listed() {
    let mut s = Store::new();
    let ghost_owner = User { id: 99, username: String::from("ghost") };
    create_post(&mut s, &ghost_owner, String::from("t"), String::from("b")).unwrap();
    publish_post(&mut s, 1).unwrap();
    assert!(all_posts(&s).unwrap().is_empty());
    // the post itself still exists under its owner's id
    assert_eq!(user_posts(&s, 99).unwrap().len(), 1);
}

#[test]
fn empty_store_listings_are_empty() {
    let s = Store::new();
    assert!(all_posts(&s).unwrap().is_empty());
    assert!(user_posts(&s, 1).unwrap().is_empty());
    assert!(post_comments(&s, 1).unwrap().is_empty());
    assert!(user_comments(&s, 1).unwrap().is_empty());
}

#[test]
fn end_to_end_scenario() {
    let mut s = Store::new();
    // POST /users {"username":"alice"}
    let alice = create_user(&mut s, "alice").unwrap();
    assert_eq!(alice.id, 1);
    assert_eq!(alice.username, "alice");
    // POST /user/1/posts {"title":"hi","body":"b"}
    let post = create_post_for_user(&mut s, 1, String::from("hi"), String::from("b")).unwrap();
    assert_eq!(post.id, 1);
    assert_eq!(post.user_id, 1);
    assert_eq!(post.title, "hi");
    assert_eq!(post.body, "b");
    assert!(!post.published);
    // GET /posts -> []
    assert!(all_posts(&s).unwrap().is_empty());
    // POST /posts/1/publish
    let post = publish_post(&mut s, 1).unwrap();
    assert!(post.published);
    // GET /posts -> [(post, alice)]
    let listing = all_posts(&s).unwrap();
    assert_eq!(listing.len(), 1);
    let (p, u) = &listing[0];
    assert_eq!((p.id, p.user_id, p.title.as_str(), p.body.as_str(), p.published), (1, 1, "hi", "b", true));
    assert_eq!((u.id, u.username.as_str()), (1, "alice"));
}
