use plume_federation::activity::{
    Activity, ActivityKind, Article, Embedded, Image, LicensedArticle, Note, Object, TagLink,
};
use plume_federation::activity_pub::{Id, Licensed, Source, PUBLIC_VISIBILITY};
use plume_federation::blogs::{Blog, NewBlog};
use plume_federation::comments::Comment;
use plume_federation::follows::{Follow, NewFollow};
use plume_federation::inbox::{inbox, passes, Inbound, InboxError, InboxResult};
use plume_federation::resolve::{
    has_room, knows_post, knows_user, receive_article, resolve_blog, resolve_post, resolve_user,
    Remote,
};
use plume_federation::likes::{Like, NewLike};
use plume_federation::medias::Media;
use plume_federation::mentions::Mention;
use plume_federation::post_authors::PostAuthor;
use plume_federation::posts::Post;
use plume_federation::reshares::Reshare;
use plume_federation::sign::SignatureValidity;
use plume_federation::store::Store;
use plume_federation::tags::Tag;
use plume_federation::users::{NewUser, User};

const NOW: i64 = 1556712000;
const ALICE: &str = "https://here.example/@/alice";
const BOB: &str = "https://b.example/@/bob";
const BLOG: &str = "https://here.example/~/blog";
const POST: &str = "https://here.example/~/blog/post";

fn id(text: &str) -> Id {
    Id(text.to_string())
}

fn new_user(host: &str, name: &str, instance_id: i32) -> NewUser {
    NewUser {
        username: name.to_string(),
        fqn: format!("{}@{}", name, host),
        ap_url: format!("https://{}/@/{}", host, name),
        inbox_url: format!("https://{}/@/{}/inbox", host, name),
        shared_inbox_url: Some(format!("https://{}/inbox", host)),
        followers_endpoint: format!("https://{}/@/{}/followers", host, name),
        public_key: "-----BEGIN PUBLIC KEY-----".to_string(),
        instance_id,
    }
}

fn stored(id: i32, new: NewUser) -> User {
    User {
        id,
        username: new.username,
        fqn: new.fqn,
        ap_url: new.ap_url,
        inbox_url: new.inbox_url,
        shared_inbox_url: new.shared_inbox_url,
        followers_endpoint: new.followers_endpoint,
        public_key: new.public_key,
        instance_id: new.instance_id,
    }
}

/// A store with Alice, her blog and one post of hers.
fn store() -> Store {
    let mut store = Store::new(1, "here.example".to_string(), NOW);
    store.users.add(stored(1, new_user("here.example", "alice", 1)));
    store.blogs.add(Blog {
        id: 1,
        actor_id: "blog".to_string(),
        title: "Blog".to_string(),
        fqn: "blog".to_string(),
        ap_url: BLOG.to_string(),
        inbox_url: format!("{}/inbox", BLOG),
        instance_id: 1,
    });
    store.posts.add(Post {
        id: 1,
        blog_id: 1,
        slug: "post".to_string(),
        title: "Post".to_string(),
        content: "<p>Hello.</p>".to_string(),
        published: true,
        license: "CC-BY-SA".to_string(),
        creation_date: NOW - 3600,
        ap_url: POST.to_string(),
        subtitle: "A post".to_string(),
        source: "Hello.".to_string(),
        cover_id: None,
    });
    store.post_authors.add(PostAuthor { id: 1, post_id: 1, author_id: 1 });
    store
}

fn bob() -> Remote {
    Remote::Actor(new_user("b.example", "bob", 2))
}

fn activity(kind: ActivityKind, ap_url: &str, actor: &str, object: Object) -> Activity {
    Activity {
        kind,
        id: ap_url.to_string(),
        actor: id(actor),
        object,
        to: vec![id(PUBLIC_VISIBILITY)],
        cc: vec![],
    }
}

fn verified(activity: Activity) -> Inbound {
    Inbound { transport: SignatureValidity::Valid, signed: true, activity }
}

fn like_of_bob() -> Inbound {
    verified(activity(ActivityKind::Like, "https://b.example/like/1", BOB, Object::Link(id(POST))))
}

fn note(ap_url: &str, author: &str, in_reply_to: Option<&str>, public: bool) -> Note {
    Note {
        id: ap_url.to_string(),
        content: "<p>Nice.</p>".to_string(),
        in_reply_to: in_reply_to.map(id),
        attributed_to: id(author),
        summary: "spoiler".to_string(),
        sensitive: true,
        to: if public { vec![id(PUBLIC_VISIBILITY)] } else { vec![id(ALICE)] },
        cc: vec![],
    }
}

fn remote_article(ap_url: &str, icon: Option<Image>) -> LicensedArticle {
    LicensedArticle {
        object: Article {
            id: ap_url.to_string(),
            name: "My Remote Article".to_string(),
            attributed_to: vec![id(BOB), id("https://b.example/~/notes"), id("https://b.example/@/nobody")],
            content: "<p>Far away.</p>".to_string(),
            source: Source { media_type: "text/markdown".to_string(), content: "Far away.".to_string() },
            published: NOW - 60,
            summary: "From afar".to_string(),
            tag: vec![
                Some(TagLink::Hashtag { href: "https://b.example/tag/far".to_string(), name: "far".to_string() }),
                None,
                Some(TagLink::Mention { href: ALICE.to_string(), name: "@alice".to_string() }),
                Some(TagLink::Hashtag { href: "https://b.example/tag/away".to_string(), name: "away".to_string() }),
            ],
            icon,
            url: ap_url.to_string(),
            to: vec![id(PUBLIC_VISIBILITY)],
            cc: vec![],
        },
        custom_props: Licensed { license: Some("WTFPL".to_string()) },
    }
}

fn notes_blog() -> Remote {
    Remote::Blog(NewBlog {
        actor_id: "notes".to_string(),
        title: "Notes".to_string(),
        fqn: "notes@b.example".to_string(),
        ap_url: "https://b.example/~/notes".to_string(),
        inbox_url: "https://b.example/~/notes/inbox".to_string(),
        instance_id: 2,
    })
}

#[test]
fn a_like_of_a_remote_user_is_stored_once() {
    let mut store = store();
    let fetched = vec![bob()];
    let first = inbox(&mut store, &fetched, &like_of_bob());
    let expected = Like {
        id: 1,
        user_id: 2,
        post_id: 1,
        creation_date: NOW,
        ap_url: "https://b.example/like/1".to_string(),
    };
    assert_eq!(first, Ok(InboxResult::Liked(expected.clone())));
    assert_eq!(store.likes.rows, vec![expected.clone()]);
    assert_eq!(store.users.rows.len(), 2);
    assert_eq!(store.users.rows[1], stored(2, new_user("b.example", "bob", 2)));
    let second = inbox(&mut store, &Vec::new(), &like_of_bob());
    assert_eq!(second, Ok(InboxResult::Liked(expected.clone())));
    assert_eq!(store.likes.rows, vec![expected]);
    assert_eq!(store.likes.next_id, 2);
    assert_eq!(store.users.rows.len(), 2);
}

#[test]
fn an_unverified_activity_is_rejected() {
    let mut store = store();
    let fetched = vec![bob()];
    for transport in [
        SignatureValidity::Invalid,
        SignatureValidity::ValidNoDigest,
        SignatureValidity::Absent,
        SignatureValidity::Outdated,
    ] {
        let mut inbound = like_of_bob();
        inbound.transport = transport;
        assert!(!passes(&inbound));
        assert_eq!(inbox(&mut store, &fetched, &inbound), Err(InboxError::Rejected));
    }
    let mut unsigned = like_of_bob();
    unsigned.signed = false;
    assert!(!passes(&unsigned));
    assert_eq!(inbox(&mut store, &fetched, &unsigned), Err(InboxError::Rejected));
    assert!(store.likes.rows.is_empty());
    assert_eq!(store.users.rows.len(), 1);
    assert!(passes(&like_of_bob()));
}

#[test]
fn deletions_and_undos_pass_on_the_word_of_the_request() {
    let mut store = store();
    store.likes.add(Like { id: 1, user_id: 1, post_id: 1, creation_date: NOW, ap_url: "https://here.example/like/1".to_string() });
    let mut undo = verified(activity(
        ActivityKind::Undo,
        "https://here.example/like/1#delete",
        ALICE,
        Object::Link(id("https://here.example/like/1")),
    ));
    undo.signed = false;
    assert!(passes(&undo));
    assert_eq!(inbox(&mut store, &Vec::new(), &undo), Ok(InboxResult::Other));
    assert!(store.likes.rows.is_empty());
    let mut delete = verified(activity(ActivityKind::Delete, "x#delete", ALICE, Object::Tombstone(id(POST))));
    delete.signed = false;
    delete.transport = SignatureValidity::ValidNoDigest;
    assert_eq!(inbox(&mut store, &Vec::new(), &delete), Err(InboxError::Rejected));
    assert_eq!(store.posts.rows.len(), 1);
}

#[test]
fn a_follow_of_an_unknown_actor_fails_and_stores_nothing() {
    let mut store = store();
    let follow = verified(activity(ActivityKind::Follow, "https://b.example/follow/1", BOB, Object::Link(id(ALICE))));
    assert_eq!(inbox(&mut store, &Vec::new(), &follow), Err(InboxError::Resolution));
    assert!(store.follows.rows.is_empty());
    assert_eq!(store.users.rows.len(), 1);
    let wrong_kind = vec![Remote::Note(note(BOB, BOB, None, true))];
    assert_eq!(inbox(&mut store, &wrong_kind, &follow), Err(InboxError::Resolution));
    assert!(store.follows.rows.is_empty());
    let unknown_target = verified(activity(ActivityKind::Follow, "https://b.example/follow/2", BOB, Object::Link(id("https://c.example/@/cat"))));
    assert_eq!(inbox(&mut store, &vec![bob()], &unknown_target), Err(InboxError::Resolution));
    assert_eq!(store.users.rows.len(), 1);
}

#[test]
fn a_follow_is_stored_with_the_fetched_actor() {
    let mut store = store();
    let follow = verified(activity(ActivityKind::Follow, "https://b.example/follow/1", BOB, Object::Link(id(ALICE))));
    let expected = Follow { id: 1, follower_id: 2, following_id: 1, ap_url: "https://b.example/follow/1".to_string() };
    assert_eq!(inbox(&mut store, &vec![bob()], &follow), Ok(InboxResult::Followed(expected.clone())));
    assert_eq!(store.follows.rows, vec![expected.clone()]);
    assert_eq!(inbox(&mut store, &vec![bob()], &follow), Ok(InboxResult::Followed(expected.clone())));
    assert_eq!(store.follows.rows, vec![expected]);
    assert_eq!(store.users.rows.len(), 2);
    let odd = verified(activity(ActivityKind::Follow, "https://b.example/follow/3", BOB, Object::Tombstone(id(ALICE))));
    assert_eq!(inbox(&mut store, &vec![bob()], &odd), Ok(InboxResult::Other));
    assert_eq!(store.follows.rows.len(), 1);
}

#[test]
fn a_user_who_follows_themselves_is_stored_once() {
    let mut store = store();
    let follow = verified(activity(ActivityKind::Follow, "https://b.example/follow/9", BOB, Object::Link(id(BOB))));
    let expected = Follow { id: 1, follower_id: 2, following_id: 2, ap_url: "https://b.example/follow/9".to_string() };
    assert_eq!(inbox(&mut store, &vec![bob()], &follow), Ok(InboxResult::Followed(expected)));
    assert_eq!(store.users.rows.len(), 2);
}

#[test]
fn undoing_a_like_that_is_not_stored_does_nothing() {
    let mut store = store();
    let inner = Embedded {
        kind: ActivityKind::Like,
        id: "https://b.example/like/404".to_string(),
        actor: id(BOB),
        object: id(POST),
        to: vec![],
        cc: vec![],
    };
    let undo = verified(activity(ActivityKind::Undo, "https://b.example/like/404#delete", BOB, Object::Activity(inner)));
    assert_eq!(inbox(&mut store, &Vec::new(), &undo), Ok(InboxResult::Other));
    assert_eq!(store.users.rows.len(), 1);
    assert!(store.likes.rows.is_empty());
    assert_eq!(store.posts.rows.len(), 1);
}

#[test]
fn only_the_owner_undoes() {
    let mut store = store();
    let fetched = vec![bob()];
    assert!(inbox(&mut store, &fetched, &like_of_bob()).is_ok());
    let by_alice = verified(activity(ActivityKind::Undo, "u", ALICE, Object::Link(id("https://b.example/like/1"))));
    assert_eq!(inbox(&mut store, &fetched, &by_alice), Err(InboxError::Rejected));
    assert_eq!(store.likes.rows.len(), 1);
    let by_bob = verified(activity(ActivityKind::Undo, "u", BOB, Object::Link(id("https://b.example/like/1"))));
    assert_eq!(inbox(&mut store, &fetched, &by_bob), Ok(InboxResult::Other));
    assert!(store.likes.rows.is_empty());
    assert_eq!(inbox(&mut store, &fetched, &by_bob), Ok(InboxResult::Other));
    let follow = verified(activity(ActivityKind::Follow, "https://b.example/follow/1", BOB, Object::Link(id(ALICE))));
    assert!(inbox(&mut store, &fetched, &follow).is_ok());
    let announce = verified(activity(ActivityKind::Announce, "https://b.example/reshare/1", BOB, Object::Link(id(POST))));
    assert!(inbox(&mut store, &fetched, &announce).is_ok());
    let undo_follow = verified(activity(ActivityKind::Undo, "u", BOB, Object::Link(id("https://b.example/follow/1"))));
    assert_eq!(inbox(&mut store, &fetched, &undo_follow), Ok(InboxResult::Other));
    assert!(store.follows.rows.is_empty());
    assert_eq!(store.reshares.rows.len(), 1);
    let undo_reshare = verified(activity(ActivityKind::Undo, "u", BOB, Object::Link(id("https://b.example/reshare/1"))));
    assert_eq!(inbox(&mut store, &fetched, &undo_reshare), Ok(InboxResult::Other));
    assert!(store.reshares.rows.is_empty());
}

#[test]
fn a_reshare_is_stored_once() {
    let mut store = store();
    let announce = verified(activity(ActivityKind::Announce, "https://b.example/reshare/1", BOB, Object::Link(id(POST))));
    let expected = Reshare { id: 1, user_id: 2, post_id: 1, ap_url: "https://b.example/reshare/1".to_string(), creation_date: NOW };
    assert_eq!(inbox(&mut store, &vec![bob()], &announce), Ok(InboxResult::Reshared(expected.clone())));
    assert_eq!(inbox(&mut store, &vec![], &announce), Ok(InboxResult::Reshared(expected.clone())));
    assert_eq!(store.reshares.rows, vec![expected]);
    let unknown_post = verified(activity(ActivityKind::Announce, "https://b.example/reshare/2", BOB, Object::Link(id("https://c.example/post"))));
    assert_eq!(inbox(&mut store, &vec![bob()], &unknown_post), Err(InboxError::Resolution));
    assert_eq!(store.reshares.rows.len(), 1);
}

#[test]
fn a_note_on_a_post_becomes_a_comment() {
    let mut store = store();
    let create = verified(activity(
        ActivityKind::Create,
        "https://b.example/comment/1/activity",
        BOB,
        Object::Note(note("https://b.example/comment/1", BOB, Some(POST), true)),
    ));
    let expected = Comment {
        id: 1,
        content: "<p>Nice.</p>".to_string(),
        in_response_to_id: None,
        post_id: 1,
        author_id: 2,
        creation_date: NOW,
        ap_url: Some("https://b.example/comment/1".to_string()),
        sensitive: true,
        spoiler_text: "spoiler".to_string(),
        public_visibility: true,
    };
    assert_eq!(inbox(&mut store, &vec![bob()], &create), Ok(InboxResult::Commented(expected.clone())));
    assert_eq!(inbox(&mut store, &vec![], &create), Ok(InboxResult::Commented(expected.clone())));
    assert_eq!(store.comments.rows, vec![expected]);
    let answer = verified(activity(
        ActivityKind::Create,
        "https://here.example/comment/2/activity",
        ALICE,
        Object::Note(note("https://here.example/comment/2", ALICE, Some("https://b.example/comment/1"), false)),
    ));
    let reply = Comment {
        id: 2,
        content: "<p>Nice.</p>".to_string(),
        in_response_to_id: Some(1),
        post_id: 1,
        author_id: 1,
        creation_date: NOW,
        ap_url: Some("https://here.example/comment/2".to_string()),
        sensitive: true,
        spoiler_text: "spoiler".to_string(),
        public_visibility: false,
    };
    assert_eq!(inbox(&mut store, &vec![], &answer), Ok(InboxResult::Commented(reply)));
    assert_eq!(store.comments.rows.len(), 2);
}

#[test]
fn a_note_must_be_by_its_actor_and_answer_something() {
    let mut store = store();
    let forged = verified(activity(
        ActivityKind::Create,
        "a",
        BOB,
        Object::Note(note("https://b.example/comment/1", ALICE, Some(POST), true)),
    ));
    assert_eq!(inbox(&mut store, &vec![bob()], &forged), Err(InboxError::Rejected));
    let alone = verified(activity(ActivityKind::Create, "a", BOB, Object::Note(note("https://b.example/comment/1", BOB, None, true))));
    assert_eq!(inbox(&mut store, &vec![bob()], &alone), Ok(InboxResult::Other));
    let lost = verified(activity(
        ActivityKind::Create,
        "a",
        BOB,
        Object::Note(note("https://b.example/comment/1", BOB, Some("https://c.example/nowhere"), true)),
    ));
    assert_eq!(inbox(&mut store, &vec![bob()], &lost), Err(InboxError::Resolution));
    assert!(store.comments.rows.is_empty());
    assert_eq!(store.users.rows.len(), 1);
}

#[test]
fn an_article_becomes_a_post_with_authors_tags_and_cover() {
    let mut store = store();
    let icon = Image {
        url: "https://b.example/media/cover.png".to_string(),
        summary: Some("eyes".to_string()),
        content: "A cover".to_string(),
        attributed_to: vec![id(BOB)],
    };
    let article = remote_article("https://b.example/~/notes/far", Some(icon));
    let create = verified(activity(ActivityKind::Create, "https://b.example/~/notes/faractivity", BOB, Object::Article(article)));
    let fetched = vec![bob(), notes_blog()];
    let expected = Post {
        id: 2,
        blog_id: 2,
        slug: "my-remote-article".to_string(),
        title: "My Remote Article".to_string(),
        content: "<p>Far away.</p>".to_string(),
        published: true,
        license: "WTFPL".to_string(),
        creation_date: NOW - 60,
        ap_url: "https://b.example/~/notes/far".to_string(),
        subtitle: "From afar".to_string(),
        source: "Far away.".to_string(),
        cover_id: Some(1),
    };
    assert_eq!(inbox(&mut store, &fetched, &create), Ok(InboxResult::Post(expected.clone())));
    assert_eq!(store.posts.rows.len(), 2);
    assert_eq!(store.posts.rows[1], expected);
    assert_eq!(store.blogs.rows.len(), 2);
    assert_eq!(store.blogs.rows[1].ap_url, "https://b.example/~/notes");
    assert_eq!(store.users.rows.len(), 2);
    assert_eq!(store.post_authors.rows[1..].to_vec(), vec![PostAuthor { id: 2, post_id: 2, author_id: 2 }]);
    assert_eq!(
        store.tags.rows,
        vec![
            Tag { id: 1, tag: "far".to_string(), is_hashtag: false, post_id: 2 },
            Tag { id: 2, tag: "away".to_string(), is_hashtag: false, post_id: 2 },
        ]
    );
    assert_eq!(
        store.medias.rows,
        vec![Media {
            id: 1,
            file_path: String::new(),
            alt_text: "A cover".to_string(),
            is_remote: true,
            remote_url: Some("https://b.example/media/cover.png".to_string()),
            sensitive: true,
            content_warning: Some("eyes".to_string()),
            owner_id: 2,
        }]
    );
    assert_eq!(inbox(&mut store, &Vec::new(), &create), Ok(InboxResult::Post(expected)));
    assert_eq!(store.posts.rows.len(), 2);
    assert_eq!(store.tags.rows.len(), 2);
    assert_eq!(store.medias.rows.len(), 1);
}

#[test]
fn an_article_needs_a_blog_and_an_author() {
    let mut store = store();
    let article = remote_article("https://b.example/~/notes/far", None);
    assert_eq!(receive_article(&mut store, &vec![bob()], &article), Err(InboxError::Resolution));
    assert_eq!(receive_article(&mut store, &vec![notes_blog()], &article), Err(InboxError::Resolution));
    assert_eq!(store.posts.rows.len(), 1);
    assert_eq!(store.blogs.rows.len(), 1);
    assert_eq!(store.users.rows.len(), 1);
    let by_other = verified(activity(ActivityKind::Create, "a", ALICE, Object::Article(article.clone())));
    assert_eq!(inbox(&mut store, &vec![bob(), notes_blog()], &by_other), Err(InboxError::Rejected));
    let post = receive_article(&mut store, &vec![bob(), notes_blog()], &article).unwrap();
    assert_eq!(post.cover_id, None);
    assert!(store.medias.rows.is_empty());
    assert_eq!(post.id, 2);
}

#[test]
fn a_like_resolves_a_post_that_was_fetched() {
    let mut store = store();
    let far = "https://b.example/~/notes/far";
    let fetched = vec![bob(), notes_blog(), Remote::Article(remote_article(far, None))];
    assert_eq!(knows_post(&store, &fetched, far), Some(8));
    assert_eq!(knows_post(&store, &fetched, POST), Some(0));
    assert_eq!(knows_post(&store, &vec![bob()], far), None);
    let like = verified(activity(ActivityKind::Like, "https://here.example/like/7", ALICE, Object::Link(id(far))));
    let expected = Like { id: 1, user_id: 1, post_id: 2, creation_date: NOW, ap_url: "https://here.example/like/7".to_string() };
    assert_eq!(inbox(&mut store, &fetched, &like), Ok(InboxResult::Liked(expected)));
    assert_eq!(store.posts.rows[1].ap_url, far);
    assert_eq!(resolve_post(&mut store, &Vec::new(), far).unwrap().id, 2);
    assert_eq!(resolve_post(&mut store, &Vec::new(), "https://c.example/x"), Err(InboxError::Resolution));
}

#[test]
fn resolution_looks_in_the_store_first() {
    let mut store = store();
    let mut other_alice = new_user("here.example", "alice", 9);
    other_alice.username = "impostor".to_string();
    let fetched = vec![Remote::Actor(other_alice), bob()];
    assert!(knows_user(&store, &fetched, ALICE));
    assert!(knows_user(&store, &fetched, BOB));
    assert!(!knows_user(&store, &fetched, "https://c.example/@/cat"));
    assert_eq!(resolve_user(&mut store, &fetched, ALICE).unwrap().username, "alice");
    assert_eq!(store.users.rows.len(), 1);
    assert_eq!(resolve_user(&mut store, &fetched, BOB).unwrap().id, 2);
    assert_eq!(resolve_user(&mut store, &Vec::new(), BOB).unwrap().id, 2);
    assert_eq!(store.users.rows.len(), 2);
    assert_eq!(resolve_user(&mut store, &fetched, "https://c.example/@/cat"), Err(InboxError::Resolution));
    assert_eq!(resolve_blog(&mut store, &fetched, BLOG).unwrap().id, 1);
    assert_eq!(resolve_blog(&mut store, &fetched, BOB), Err(InboxError::Resolution));
    assert_eq!(resolve_blog(&mut store, &vec![notes_blog()], "https://b.example/~/notes").unwrap().id, 2);
}

#[test]
fn a_full_table_is_a_persistence_failure() {
    let mut store = store();
    store.likes.next_id = i32::MAX - 2;
    assert!(!has_room(&store, 2));
    assert!(has_room(&store, 1));
    assert_eq!(inbox(&mut store, &vec![bob()], &like_of_bob()), Err(InboxError::Persistence));
    assert!(store.likes.rows.is_empty());
    assert_eq!(store.users.rows.len(), 1);
    store.likes.next_id = 1;
    store.users.next_id = i32::MAX;
    assert_eq!(resolve_user(&mut store, &vec![bob()], BOB), Err(InboxError::Persistence));
    assert_eq!(Follow::insert(&mut store, NewFollow { follower_id: 1, following_id: 1, ap_url: "f".to_string() }).map(|f| f.id), Ok(1));
    store.follows.next_id = i32::MAX;
    assert!(Follow::insert(&mut store, NewFollow { follower_id: 1, following_id: 1, ap_url: "g".to_string() }).is_err());
    assert_eq!(store.follows.rows.len(), 1);
}

#[test]
fn an_update_revises_the_post_in_place() {
    let mut store = store();
    let mut article = remote_article(POST, None);
    article.custom_props.license = None;
    let update = verified(activity(ActivityKind::Update, "https://here.example/~/blog/post/update-1", ALICE, Object::Article(article.clone())));
    let expected = Post {
        id: 1,
        blog_id: 1,
        slug: "post".to_string(),
        title: "My Remote Article".to_string(),
        content: "<p>Far away.</p>".to_string(),
        published: true,
        license: "CC-BY-SA".to_string(),
        creation_date: NOW - 3600,
        ap_url: POST.to_string(),
        subtitle: "From afar".to_string(),
        source: "Far away.".to_string(),
        cover_id: None,
    };
    assert_eq!(inbox(&mut store, &Vec::new(), &update), Ok(InboxResult::Post(expected.clone())));
    assert_eq!(store.posts.rows, vec![expected.clone()]);
    assert_eq!(inbox(&mut store, &Vec::new(), &update), Ok(InboxResult::Post(expected.clone())));
    assert_eq!(store.posts.rows, vec![expected]);
    let by_bob = verified(activity(ActivityKind::Update, "u", BOB, Object::Article(article)));
    assert_eq!(inbox(&mut store, &vec![bob()], &by_bob), Err(InboxError::Rejected));
    let unknown = verified(activity(ActivityKind::Update, "u", ALICE, Object::Article(remote_article("https://c.example/p", None))));
    assert_eq!(inbox(&mut store, &Vec::new(), &unknown), Err(InboxError::Resolution));
    let odd = verified(activity(ActivityKind::Update, "u", ALICE, Object::Link(id(POST))));
    assert_eq!(inbox(&mut store, &Vec::new(), &odd), Ok(InboxResult::Other));
}

#[test]
fn a_deletion_takes_the_post_and_its_mentions() {
    let mut store = store();
    store.mentions.add(Mention { id: 1, mentioned_id: 1, post_id: Some(1), comment_id: None });
    store.mentions.add(Mention { id: 2, mentioned_id: 1, post_id: Some(5), comment_id: None });
    store.mentions.add(Mention { id: 3, mentioned_id: 1, post_id: None, comment_id: Some(1) });
    let by_bob = verified(activity(ActivityKind::Delete, "d", BOB, Object::Tombstone(id(POST))));
    assert_eq!(inbox(&mut store, &vec![bob()], &by_bob), Err(InboxError::Rejected));
    assert_eq!(store.posts.rows.len(), 1);
    let delete = verified(activity(ActivityKind::Delete, "d", ALICE, Object::Tombstone(id(POST))));
    assert_eq!(inbox(&mut store, &Vec::new(), &delete), Ok(InboxResult::Other));
    assert!(store.posts.rows.is_empty());
    assert_eq!(store.posts.next_id, 2);
    assert_eq!(store.mentions.rows.iter().map(|m| m.id).collect::<Vec<i32>>(), vec![2, 3]);
    assert_eq!(inbox(&mut store, &Vec::new(), &delete), Ok(InboxResult::Other));
}

#[test]
fn a_deletion_takes_a_comment_of_its_author() {
    let mut store = store();
    let create = verified(activity(ActivityKind::Create, "c", BOB, Object::Note(note("https://b.example/comment/1", BOB, Some(POST), true))));
    assert!(inbox(&mut store, &vec![bob()], &create).is_ok());
    let by_alice = verified(activity(ActivityKind::Delete, "d", ALICE, Object::Link(id("https://b.example/comment/1"))));
    assert_eq!(inbox(&mut store, &Vec::new(), &by_alice), Err(InboxError::Rejected));
    let by_bob = verified(activity(ActivityKind::Delete, "d", BOB, Object::Link(id("https://b.example/comment/1"))));
    assert_eq!(inbox(&mut store, &Vec::new(), &by_bob), Ok(InboxResult::Other));
    assert!(store.comments.rows.is_empty());
    let odd = verified(activity(ActivityKind::Delete, "d", BOB, Object::Note(note("n", BOB, None, true))));
    assert_eq!(inbox(&mut store, &Vec::new(), &odd), Ok(InboxResult::Other));
}

#[test]
fn kinds_that_take_no_such_object_do_nothing() {
    let mut store = store();
    let like = verified(activity(ActivityKind::Like, "l", ALICE, Object::Tombstone(id(POST))));
    assert_eq!(inbox(&mut store, &Vec::new(), &like), Ok(InboxResult::Other));
    let create = verified(activity(ActivityKind::Create, "c", ALICE, Object::Link(id(POST))));
    assert_eq!(inbox(&mut store, &Vec::new(), &create), Ok(InboxResult::Other));
    let undo = verified(activity(ActivityKind::Undo, "u", ALICE, Object::Tombstone(id(POST))));
    assert_eq!(inbox(&mut store, &Vec::new(), &undo), Ok(InboxResult::Other));
    assert_eq!(store.posts.rows.len(), 1);
    assert!(store.likes.rows.is_empty());
    let _ = NewLike { user_id: 1, post_id: 1, ap_url: String::new() };
}
