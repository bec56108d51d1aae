use plume_federation::activity::{
    Activity, ActivityKind, Embedded, Image, Object, TagLink,
};
use plume_federation::activity_pub::{
    ap_accept_header, ActivityStream, Hashtag, HashtagType, Id, IntoId, PUBLIC_VISIBILITY,
};
use plume_federation::blogs::Blog;
use plume_federation::follows::{Follow, NewFollow};
use plume_federation::likes::{Like, NewLike};
use plume_federation::medias::Media;
use plume_federation::mentions::Mention;
use plume_federation::post_authors::PostAuthor;
use plume_federation::posts::{decimal, NewPost, Post, PostUpdate};
use plume_federation::reshares::{NewReshare, Reshare};
use plume_federation::store::{Error, Store};
use plume_federation::tags::{names_of, Tag};
use plume_federation::users::User;

const NOW: i64 = 1556712000;

fn id(text: &str) -> Id {
    Id(text.to_string())
}

fn user(id: i32, host: &str, name: &str, instance_id: i32) -> User {
    User {
        id,
        username: name.to_string(),
        fqn: if instance_id == 1 { name.to_string() } else { format!("{}@{}", name, host) },
        ap_url: format!("https://{}/@/{}", host, name),
        inbox_url: format!("https://{}/@/{}/inbox", host, name),
        shared_inbox_url: Some(format!("https://{}/inbox", host)),
        followers_endpoint: format!("https://{}/@/{}/followers", host, name),
        public_key: String::new(),
        instance_id,
    }
}

fn a_post(id: i32, blog_id: i32, slug: &str, published: bool, date: i64) -> Post {
    Post {
        id,
        blog_id,
        slug: slug.to_string(),
        title: format!("Title {}", id),
        content: "<p>Hello.</p>".to_string(),
        published,
        license: "CC-BY-SA".to_string(),
        creation_date: date,
        ap_url: format!("https://here.example/~/blog/{}", slug),
        subtitle: "Sub".to_string(),
        source: "Hello.".to_string(),
        cover_id: None,
    }
}

fn hashtag(name: Option<&str>) -> Hashtag {
    Hashtag { kind: HashtagType, href: None, name: name.map(|n| n.to_string()) }
}

/// Alice (1) and Amy (2) are local, Bob (3) and Bea (4) are remote. Bob and
/// Bea follow Alice; Amy follows Bob. Post 1 is by Alice and Amy.
fn store() -> Store {
    let mut store = Store::new(1, "here.example".to_string(), NOW);
    store.users.add(user(1, "here.example", "alice", 1));
    store.users.add(user(2, "here.example", "amy", 1));
    store.users.add(user(3, "b.example", "bob", 2));
    store.users.add(user(4, "b.example", "bea", 2));
    for (n, (from, to)) in [(3, 1), (4, 1), (2, 3), (1, 2)].iter().enumerate() {
        store.follows.add(Follow {
            id: n as i32 + 1,
            follower_id: *from,
            following_id: *to,
            ap_url: format!("https://x.example/follow/{}", n + 1),
        });
    }
    store.blogs.add(Blog {
        id: 1,
        actor_id: "blog".to_string(),
        title: "Blog".to_string(),
        fqn: "blog".to_string(),
        ap_url: "https://here.example/~/blog".to_string(),
        inbox_url: "https://here.example/~/blog/inbox".to_string(),
        instance_id: 1,
    });
    store.blogs.add(Blog {
        id: 2,
        actor_id: "notes".to_string(),
        title: "Notes".to_string(),
        fqn: "notes@b.example".to_string(),
        ap_url: "https://b.example/~/notes".to_string(),
        inbox_url: "https://b.example/~/notes/inbox".to_string(),
        instance_id: 2,
    });
    store.posts.add(a_post(1, 1, "one", true, 100));
    store.posts.add(a_post(2, 1, "two", true, 300));
    store.posts.add(a_post(3, 2, "three", true, 200));
    store.posts.add(a_post(4, 1, "four", false, 400));
    store.posts.add(a_post(5, 2, "five", true, 300));
    for (n, (post_id, author_id)) in [(1, 1), (1, 2), (2, 1), (3, 3), (4, 2), (5, 4)].iter().enumerate() {
        store.post_authors.add(PostAuthor { id: n as i32 + 1, post_id: *post_id, author_id: *author_id });
    }
    store
}

fn ids_of(posts: &Vec<Post>) -> Vec<i32> {
    posts.iter().map(|p| p.id).collect()
}

#[test]
fn accepted_media_types_are_four() {
    assert_eq!(
        ap_accept_header(),
        vec![
            "application/ld+json; profile=\"https://w3.org/ns/activitystreams\"",
            "application/ld+json;profile=\"https://w3.org/ns/activitystreams\"",
            "application/activity+json",
            "application/ld+json",
        ]
    );
    assert_eq!(ActivityStream::new(5).0, 5);
    assert_eq!(Id::new("x".to_string()).as_str(), "x");
    assert_eq!(id("y").copy(), id("y"));
}

#[test]
fn the_article_of_a_post_names_authors_blog_and_followers() {
    let mut store = store();
    store.mentions.add(Mention { id: 1, mentioned_id: 3, post_id: Some(1), comment_id: None });
    store.mentions.add(Mention { id: 2, mentioned_id: 99, post_id: Some(1), comment_id: None });
    store.mentions.add(Mention { id: 3, mentioned_id: 4, post_id: Some(2), comment_id: None });
    store.tags.add(Tag { id: 1, tag: "rust".to_string(), is_hashtag: false, post_id: 1 });
    store.tags.add(Tag { id: 2, tag: "other".to_string(), is_hashtag: false, post_id: 2 });
    store.tags.add(Tag { id: 3, tag: "Verus".to_string(), is_hashtag: true, post_id: 1 });
    let post = Post::get(&store, 1).unwrap();
    let article = post.to_activity(&store).unwrap();
    let object = &article.object;
    assert_eq!(object.id, "https://here.example/~/blog/one");
    assert_eq!(object.url, "https://here.example/~/blog/one");
    assert_eq!(object.name, "Title 1");
    assert_eq!(
        object.attributed_to,
        vec![
            id("https://here.example/@/alice"),
            id("https://here.example/@/amy"),
            id("https://here.example/~/blog")
        ]
    );
    assert_eq!(object.content, "<p>Hello.</p>");
    assert_eq!(object.source.content, "Hello.");
    assert_eq!(object.source.media_type, "text/markdown");
    assert_eq!(object.published, 100);
    assert_eq!(object.summary, "Sub");
    assert_eq!(
        object.tag,
        vec![
            Some(TagLink::Mention { href: "https://b.example/@/bob".to_string(), name: "@bob@b.example".to_string() }),
            None,
            Some(TagLink::Hashtag { href: "https://here.example/tag/rust".to_string(), name: "rust".to_string() }),
            Some(TagLink::Hashtag { href: "https://here.example/tag/Verus".to_string(), name: "Verus".to_string() }),
        ]
    );
    assert_eq!(object.icon, None);
    assert_eq!(object.to, vec![id(PUBLIC_VISIBILITY)]);
    assert_eq!(
        object.cc,
        vec![id("https://b.example/@/bob"), id("https://b.example/@/bea"), id("https://here.example/@/alice")]
    );
    assert_eq!(article.custom_props.license, Some("CC-BY-SA".to_string()));
    assert_eq!(
        post.get_receivers_urls(&store),
        vec!["https://b.example/@/bob", "https://b.example/@/bea", "https://here.example/@/alice"]
    );
}

#[test]
fn the_cover_of_a_post_needs_its_file_and_owner() {
    let mut store = store();
    store.medias.add(Media {
        id: 1,
        file_path: "static/media/a.png".to_string(),
        alt_text: "A".to_string(),
        is_remote: false,
        remote_url: None,
        sensitive: true,
        content_warning: None,
        owner_id: 1,
    });
    store.medias.add(Media {
        id: 2,
        file_path: String::new(),
        alt_text: "B".to_string(),
        is_remote: true,
        remote_url: Some("https://b.example/b.png".to_string()),
        sensitive: false,
        content_warning: Some("unused".to_string()),
        owner_id: 3,
    });
    store.medias.add(Media {
        id: 3,
        file_path: String::new(),
        alt_text: "C".to_string(),
        is_remote: true,
        remote_url: None,
        sensitive: false,
        content_warning: None,
        owner_id: 3,
    });
    store.medias.add(Media {
        id: 4,
        file_path: "c.png".to_string(),
        alt_text: "D".to_string(),
        is_remote: false,
        remote_url: None,
        sensitive: true,
        content_warning: Some("careful".to_string()),
        owner_id: 77,
    });
    let mut post = Post::get(&store, 1).unwrap();
    post.cover_id = Some(1);
    assert_eq!(
        post.to_activity(&store).unwrap().object.icon,
        Some(Image {
            url: "https://here.example/static/media/a.png".to_string(),
            summary: Some(String::new()),
            content: "A".to_string(),
            attributed_to: vec![id("https://here.example/@/alice")],
        })
    );
    assert_eq!(post.cover_url(&store), Some("https://here.example/static/media/a.png".to_string()));
    post.cover_id = Some(2);
    assert_eq!(
        post.to_activity(&store).unwrap().object.icon,
        Some(Image {
            url: "https://b.example/b.png".to_string(),
            summary: None,
            content: "B".to_string(),
            attributed_to: vec![id("https://b.example/@/bob")],
        })
    );
    post.cover_id = Some(3);
    assert_eq!(post.to_activity(&store), Err(Error::NotFound));
    assert_eq!(post.cover_url(&store), None);
    post.cover_id = Some(4);
    assert_eq!(post.to_activity(&store), Err(Error::NotFound));
    assert_eq!(post.cover_url(&store), Some("https://here.example/c.png".to_string()));
    post.cover_id = Some(9);
    assert_eq!(post.to_activity(&store), Err(Error::NotFound));
    post.cover_id = None;
    post.blog_id = 9;
    assert_eq!(post.to_activity(&store), Err(Error::NotFound));
    assert_eq!(post.get_blog(&store), Err(Error::NotFound));
    assert_eq!(post.url(&store), Err(Error::NotFound));
    assert_eq!(Media::get(&store, 2).unwrap().url(&store), Ok("https://b.example/b.png".to_string()));
    assert_eq!(Media::get(&store, 3).unwrap().url(&store), Err(Error::NotFound));
    assert_eq!(Media::get(&store, 5), Err(Error::NotFound));
}

#[test]
fn creation_update_and_deletion_are_by_the_first_author() {
    let store = store();
    let post = Post::get(&store, 1).unwrap();
    let article = post.to_activity(&store).unwrap();
    let create = post.create_activity(&store).unwrap();
    assert_eq!(
        create,
        Activity {
            kind: ActivityKind::Create,
            id: "https://here.example/~/blog/oneactivity".to_string(),
            actor: id("https://here.example/@/alice"),
            object: Object::Article(article.clone()),
            to: article.object.to.clone(),
            cc: article.object.cc.clone(),
        }
    );
    let update = post.update_activity(&store).unwrap();
    assert_eq!(update.kind, ActivityKind::Update);
    assert_eq!(update.id, "https://here.example/~/blog/one/update-1556712000");
    assert_eq!(update.object, Object::Article(article));
    let delete = post.build_delete(&store).unwrap();
    assert_eq!(
        delete,
        Activity {
            kind: ActivityKind::Delete,
            id: "https://here.example/~/blog/one#delete".to_string(),
            actor: id("https://here.example/@/alice"),
            object: Object::Tombstone(id("https://here.example/~/blog/one")),
            to: vec![id(PUBLIC_VISIBILITY)],
            cc: vec![],
        }
    );
    let orphan = a_post(9, 1, "nine", true, 1);
    assert_eq!(orphan.create_activity(&store), Err(Error::NotFound));
    assert_eq!(orphan.update_activity(&store), Err(Error::NotFound));
    assert_eq!(orphan.build_delete(&store), Err(Error::NotFound));
    assert_eq!(orphan.to_activity(&store).unwrap().object.attributed_to, vec![id("https://here.example/~/blog")]);
}

#[test]
fn numbers_are_written_in_decimal() {
    assert_eq!(decimal(0), "0");
    assert_eq!(decimal(7), "7");
    assert_eq!(decimal(10), "10");
    assert_eq!(decimal(1556712000), "1556712000");
    assert_eq!(decimal(-45), "-45");
    assert_eq!(decimal(i64::MAX), "9223372036854775807");
    assert_eq!(decimal(i64::MIN), "-9223372036854775808");
}

#[test]
fn a_follow_and_its_undo_address_the_followed_user() {
    let store = store();
    let follow = Follow::find(&store, 3, 1).unwrap();
    assert_eq!(follow.id, 1);
    assert_eq!(Follow::find(&store, 1, 3), Err(Error::NotFound));
    assert_eq!(Follow::get(&store, 2).unwrap().follower_id, 4);
    assert_eq!(Follow::find_by_ap_url(&store, "https://x.example/follow/3").unwrap().id, 3);
    assert_eq!(Follow::find_by_ap_url(&store, "https://x.example/follow/9"), Err(Error::NotFound));
    assert_eq!(
        follow.to_activity(&store).unwrap(),
        Activity {
            kind: ActivityKind::Follow,
            id: "https://x.example/follow/1".to_string(),
            actor: id("https://b.example/@/bob"),
            object: Object::Link(id("https://here.example/@/alice")),
            to: vec![id("https://here.example/@/alice")],
            cc: vec![id(PUBLIC_VISIBILITY)],
        }
    );
    assert_eq!(
        follow.build_undo(&store).unwrap(),
        Activity {
            kind: ActivityKind::Undo,
            id: "https://x.example/follow/1/undo".to_string(),
            actor: id("https://b.example/@/bob"),
            object: Object::Link(id("https://x.example/follow/1")),
            to: vec![id("https://here.example/@/alice")],
            cc: vec![id(PUBLIC_VISIBILITY)],
        }
    );
    let lost = Follow { id: 9, follower_id: 3, following_id: 99, ap_url: "f".to_string() };
    assert_eq!(lost.to_activity(&store), Err(Error::NotFound));
    assert_eq!(lost.build_undo(&store), Err(Error::NotFound));
    assert_eq!(follow.clone().into_id(), id("https://x.example/follow/1"));
    let _ = NewFollow { follower_id: 1, following_id: 2, ap_url: String::new() };
}

#[test]
fn a_like_and_its_undo_address_everyone() {
    let mut store = store();
    let alice = plume_federation::users::User::get(&store, 1).unwrap();
    let post = Post::get(&store, 3).unwrap();
    let new = NewLike::new(&post, &alice);
    assert_eq!(new.ap_url, "https://here.example/@/alice/like/https://here.example/~/blog/three");
    assert_eq!((new.user_id, new.post_id), (1, 3));
    let like = Like::insert(&mut store, new).unwrap();
    assert_eq!(like.id, 1);
    assert_eq!(like.creation_date, NOW);
    assert_eq!(Like::get(&store, 1), Ok(like.clone()));
    assert_eq!(Like::find_by_ap_url(&store, &like.ap_url), Ok(like.clone()));
    assert_eq!(Like::find_by_user_on_post(&store, 1, 3), Ok(like.clone()));
    assert_eq!(Like::find_by_user_on_post(&store, 3, 1), Err(Error::NotFound));
    let expected = Activity {
        kind: ActivityKind::Like,
        id: like.ap_url.clone(),
        actor: id("https://here.example/@/alice"),
        object: Object::Link(id("https://here.example/~/blog/three")),
        to: vec![id(PUBLIC_VISIBILITY)],
        cc: vec![id("https://here.example/@/alice/followers")],
    };
    assert_eq!(like.to_activity(&store), Ok(expected.clone()));
    assert_eq!(
        like.build_undo(&store).unwrap(),
        Activity {
            kind: ActivityKind::Undo,
            id: format!("{}#delete", like.ap_url),
            actor: id("https://here.example/@/alice"),
            object: Object::Activity(expected.clone().embedded().unwrap()),
            to: vec![id(PUBLIC_VISIBILITY)],
            cc: vec![id("https://here.example/@/alice/followers")],
        }
    );
    assert_eq!(
        expected.embedded(),
        Some(Embedded {
            kind: ActivityKind::Like,
            id: like.ap_url.clone(),
            actor: id("https://here.example/@/alice"),
            object: id("https://here.example/~/blog/three"),
            to: vec![id(PUBLIC_VISIBILITY)],
            cc: vec![id("https://here.example/@/alice/followers")],
        })
    );
    assert_eq!(like.build_undo(&store).unwrap().embedded(), None);
    assert_eq!(post.count_likes(&store), 1);
    assert_eq!(Post::get(&store, 1).unwrap().count_likes(&store), 0);
    let lost = Like { id: 9, user_id: 99, post_id: 1, creation_date: 0, ap_url: "l".to_string() };
    assert_eq!(lost.to_activity(&store), Err(Error::NotFound));
    assert_eq!(lost.build_undo(&store), Err(Error::NotFound));
}

#[test]
fn a_reshare_and_its_undo_address_everyone() {
    let mut store = store();
    let bob = plume_federation::users::User::get(&store, 3).unwrap();
    let post = Post::get(&store, 1).unwrap();
    let new = NewReshare::new(&post, &bob);
    assert_eq!(new.ap_url, "https://b.example/@/bob/reshare/https://here.example/~/blog/one");
    let reshare = Reshare::insert(&mut store, new).unwrap();
    assert_eq!(reshare.get_post(&store), Ok(post.clone()));
    assert_eq!(reshare.get_user(&store), Ok(bob.clone()));
    let announce = reshare.to_activity(&store).unwrap();
    assert_eq!(announce.kind, ActivityKind::Announce);
    assert_eq!(announce.actor, id("https://b.example/@/bob"));
    assert_eq!(announce.object, Object::Link(id("https://here.example/~/blog/one")));
    assert_eq!(announce.id, reshare.ap_url);
    assert_eq!(announce.to, vec![id(PUBLIC_VISIBILITY)]);
    assert_eq!(announce.cc, vec![id("https://b.example/@/bob/followers")]);
    let undo = reshare.build_undo(&store).unwrap();
    assert_eq!(undo.kind, ActivityKind::Undo);
    assert_eq!(undo.id, format!("{}#delete", reshare.ap_url));
    assert_eq!(undo.object, Object::Activity(announce.embedded().unwrap()));
    assert_eq!(post.count_reshares(&store), 1);
    store.now = NOW + 10;
    let second = Reshare::insert(&mut store, NewReshare { user_id: 3, post_id: 2, ap_url: "r2".to_string() }).unwrap();
    store.now = NOW + 5;
    let third = Reshare::insert(&mut store, NewReshare { user_id: 3, post_id: 3, ap_url: "r3".to_string() }).unwrap();
    let _ = Reshare::insert(&mut store, NewReshare { user_id: 1, post_id: 3, ap_url: "r4".to_string() }).unwrap();
    assert_eq!(
        Reshare::get_recents_for_author(&store, &bob, 2),
        vec![second.clone(), third.clone()]
    );
    assert_eq!(Reshare::get_recents_for_author(&store, &bob, 10), vec![second, third, reshare.clone()]);
    assert_eq!(Reshare::get_recents_for_author(&store, &bob, 0), vec![]);
    assert_eq!(Reshare::find_by_user_on_post(&store, 3, 1), Ok(reshare.clone()));
    assert_eq!(Reshare::get(&store, 1), Ok(reshare.clone()));
    assert_eq!(Reshare::find_by_ap_url(&store, "r4").unwrap().id, 4);
}

#[test]
fn tags_of_one_kind_are_replaced() {
    let mut store = store();
    let post = Post::get(&store, 1).unwrap();
    store.tags.add(Tag { id: 1, tag: "keep".to_string(), is_hashtag: false, post_id: 1 });
    store.tags.add(Tag { id: 2, tag: "drop".to_string(), is_hashtag: false, post_id: 1 });
    store.tags.add(Tag { id: 3, tag: "drop".to_string(), is_hashtag: true, post_id: 1 });
    store.tags.add(Tag { id: 4, tag: "drop".to_string(), is_hashtag: false, post_id: 2 });
    let given = vec![hashtag(Some("new")), hashtag(None), hashtag(Some("keep")), hashtag(Some("new"))];
    assert_eq!(names_of(&given), vec!["new", "keep", "new"]);
    assert_eq!(post.update_tags(&mut store, &given), Ok(()));
    assert_eq!(
        store.tags.rows,
        vec![
            Tag { id: 1, tag: "keep".to_string(), is_hashtag: false, post_id: 1 },
            Tag { id: 3, tag: "drop".to_string(), is_hashtag: true, post_id: 1 },
            Tag { id: 4, tag: "drop".to_string(), is_hashtag: false, post_id: 2 },
            Tag { id: 5, tag: "new".to_string(), is_hashtag: false, post_id: 1 },
            Tag { id: 6, tag: "new".to_string(), is_hashtag: false, post_id: 1 },
        ]
    );
    assert_eq!(store.tags.next_id, 7);
    assert_eq!(post.update_hashtags(&mut store, &vec![hashtag(Some("Tag"))]), Ok(()));
    assert_eq!(
        Tag::for_post(&store, 1),
        vec![
            Tag { id: 1, tag: "keep".to_string(), is_hashtag: false, post_id: 1 },
            Tag { id: 5, tag: "new".to_string(), is_hashtag: false, post_id: 1 },
            Tag { id: 6, tag: "new".to_string(), is_hashtag: false, post_id: 1 },
            Tag { id: 7, tag: "Tag".to_string(), is_hashtag: true, post_id: 1 },
        ]
    );
    assert_eq!(post.update_tags(&mut store, &Vec::new()), Ok(()));
    assert_eq!(Tag::for_post(&store, 1).len(), 1);
    store.tags.next_id = i32::MAX - 1;
    let before = store.tags.rows.clone();
    assert_eq!(post.update_tags(&mut store, &vec![hashtag(Some("a"))]), Err(Error::Full));
    assert_eq!(store.tags.rows, before);
    assert_eq!(post.update_tags(&mut store, &vec![hashtag(None)]), Ok(()));
}

#[test]
fn posts_are_listed_most_recent_first() {
    let mut store = store();
    let alice = plume_federation::users::User::get(&store, 1).unwrap();
    let amy = plume_federation::users::User::get(&store, 2).unwrap();
    let blog = store.blogs.rows[0].clone();
    assert_eq!(ids_of(&Post::get_recents(&store, 10)), vec![2, 5, 3, 1]);
    assert_eq!(ids_of(&Post::get_recents(&store, 2)), vec![2, 5]);
    assert_eq!(ids_of(&Post::get_recents(&store, 0)), Vec::<i32>::new());
    assert_eq!(ids_of(&Post::get_recents(&store, -3)), Vec::<i32>::new());
    assert_eq!(ids_of(&Post::get_recents_page(&store, (1, 3))), vec![5, 3]);
    assert_eq!(ids_of(&Post::get_recents_page(&store, (3, 10))), vec![1]);
    assert_eq!(ids_of(&Post::get_recents_page(&store, (4, 10))), Vec::<i32>::new());
    assert_eq!(ids_of(&Post::get_recents_page(&store, (2, 1))), Vec::<i32>::new());
    assert_eq!(ids_of(&Post::get_recents_page(&store, (-1, 1))), vec![2, 5]);
    assert_eq!(ids_of(&Post::get_recents_page(&store, (i32::MIN, i32::MAX))), vec![2, 5, 3, 1]);
    assert_eq!(ids_of(&Post::get_recents_for_author(&store, &alice, 5)), vec![2, 1]);
    assert_eq!(ids_of(&Post::get_recents_for_author(&store, &amy, 5)), vec![1]);
    assert_eq!(ids_of(&Post::drafts_by_author(&store, &amy)), vec![4]);
    assert_eq!(ids_of(&Post::drafts_by_author(&store, &alice)), Vec::<i32>::new());
    assert_eq!(ids_of(&Post::get_for_blog(&store, &blog)), vec![1, 2]);
    assert_eq!(ids_of(&Post::get_recents_for_blog(&store, &blog, 1)), vec![2]);
    assert_eq!(ids_of(&Post::blog_page(&store, &blog, (0, 5))), vec![2, 1]);
    assert_eq!(Post::count_for_blog(&store, &blog), 2);
    assert_eq!(ids_of(&Post::get_instance_page(&store, 2, (0, 5))), vec![5, 3]);
    assert_eq!(ids_of(&Post::get_instance_page(&store, 1, (0, 1))), vec![2]);
    assert_eq!(ids_of(&Post::user_feed_page(&store, vec![3, 2], (0, 5))), vec![3, 1]);
    assert_eq!(ids_of(&Post::user_feed_page(&store, vec![], (0, 5))), Vec::<i32>::new());
    assert_eq!(Post::count(&store), 4);
    assert_eq!(Post::count_local(&store), 2);
    store.tags.add(Tag { id: 1, tag: "rust".to_string(), is_hashtag: false, post_id: 1 });
    store.tags.add(Tag { id: 2, tag: "rust".to_string(), is_hashtag: true, post_id: 5 });
    store.tags.add(Tag { id: 3, tag: "rust".to_string(), is_hashtag: true, post_id: 4 });
    store.tags.add(Tag { id: 4, tag: "go".to_string(), is_hashtag: true, post_id: 2 });
    assert_eq!(ids_of(&Post::list_by_tag(&store, "rust".to_string(), (0, 5))), vec![5, 1]);
    assert_eq!(Post::count_for_tag(&store, "rust".to_string()), 2);
    assert_eq!(Post::count_for_tag(&store, "none".to_string()), 0);
    assert_eq!(
        ids_of(&Post::list_filtered(&store, None, Some("Sub".to_string()), None)),
        vec![1, 2, 3, 4, 5]
    );
    assert_eq!(
        ids_of(&Post::list_filtered(&store, Some("Title 4".to_string()), Some("Sub".to_string()), Some("<p>Hello.</p>".to_string()))),
        vec![4]
    );
    assert_eq!(ids_of(&Post::list_filtered(&store, Some("Title 4".to_string()), None, Some("x".to_string()))), Vec::<i32>::new());
}

#[test]
fn a_post_knows_its_authors_blog_and_path() {
    let store = store();
    let post = Post::get(&store, 1).unwrap();
    assert_eq!(post.get_authors(&store).iter().map(|u| u.id).collect::<Vec<i32>>(), vec![1, 2]);
    assert!(post.is_author(&store, 2));
    assert!(!post.is_author(&store, 3));
    assert_eq!(post.get_blog(&store).unwrap().id, 1);
    assert_eq!(post.url(&store), Ok("/~/blog/one".to_string()));
    assert_eq!(Post::get(&store, 3).unwrap().url(&store), Ok("/~/notes@b.example/three".to_string()));
    assert_eq!(Post::find_by_ap_url(&store, "https://here.example/~/blog/two").unwrap().id, 2);
    assert_eq!(Post::find_by_ap_url(&store, "nowhere"), Err(Error::NotFound));
    assert_eq!(Post::get(&store, 9), Err(Error::NotFound));
    assert_eq!(post.clone().into_id(), id("https://here.example/~/blog/one"));
    let alice = plume_federation::users::User::get(&store, 1).unwrap();
    assert_eq!(alice.get_followers(&store).iter().map(|u| u.id).collect::<Vec<i32>>(), vec![3, 4]);
    assert!(alice.is_local(1));
    assert!(!alice.is_local(2));
    assert_eq!(alice.get_inbox_url(), "https://here.example/@/alice/inbox");
    assert_eq!(alice.get_shared_inbox_url(), Some("https://here.example/inbox".to_string()));
    assert_eq!(plume_federation::users::User::find_by_ap_url(&store, "https://b.example/@/bea").unwrap().id, 4);
    assert_eq!(alice.into_id(), id("https://here.example/@/alice"));
    assert_eq!(store.blogs.rows[1].clone().into_id(), id("https://b.example/~/notes"));
}

#[test]
fn a_post_is_updated_and_deleted_by_its_identifier() {
    let mut store = store();
    store.mentions.add(Mention { id: 1, mentioned_id: 3, post_id: Some(2), comment_id: None });
    store.mentions.add(Mention { id: 2, mentioned_id: 3, post_id: Some(1), comment_id: None });
    let mut post = Post::get(&store, 2).unwrap();
    post.title = "Changed".to_string();
    assert_eq!(post.update(&mut store), Ok(post.clone()));
    assert_eq!(store.posts.rows[1], post);
    assert_eq!(store.posts.rows.len(), 5);
    assert_eq!(Mention::list_for_post(&store, 2).len(), 1);
    assert_eq!(post.delete(&mut store), Ok(()));
    assert_eq!(ids_of(&store.posts.rows), vec![1, 3, 4, 5]);
    assert_eq!(store.mentions.rows.len(), 1);
    assert_eq!(post.delete(&mut store), Err(Error::NotFound));
    assert_eq!(post.update(&mut store), Err(Error::NotFound));
    let mention = store.mentions.rows[0].clone();
    assert_eq!(mention.to_activity(&store), Ok(TagLink::Mention { href: "https://b.example/@/bob".to_string(), name: "@bob@b.example".to_string() }));
    assert_eq!(mention.delete(&mut store), Ok(()));
    assert_eq!(mention.delete(&mut store), Err(Error::NotFound));
    let update = PostUpdate {
        ap_url: "u".to_string(),
        title: None,
        subtitle: None,
        content: None,
        cover: None,
        source: None,
        license: None,
        tags: None,
    };
    assert_eq!(update.clone(), update);
}

#[test]
fn a_new_post_is_stamped_unless_it_brings_its_date() {
    let mut store = store();
    let new = |date: Option<i64>| NewPost {
        blog_id: 1,
        slug: "six".to_string(),
        title: "Six".to_string(),
        content: "c".to_string(),
        published: false,
        license: "l".to_string(),
        creation_date: date,
        ap_url: "https://here.example/~/blog/six".to_string(),
        subtitle: "s".to_string(),
        source: "c".to_string(),
        cover_id: Some(4),
    };
    let stamped = Post::insert(&mut store, new(None)).unwrap();
    assert_eq!(stamped.id, 6);
    assert_eq!(stamped.creation_date, NOW);
    assert_eq!(stamped.cover_id, Some(4));
    assert_eq!(Post::insert(&mut store, new(Some(7))).unwrap().creation_date, 7);
    assert_eq!(store.posts.rows.len(), 7);
    assert_eq!(store.posts.rows[5], stamped);
    store.posts.next_id = i32::MAX;
    assert_eq!(Post::insert(&mut store, new(None)), Err(Error::Full));
    assert_eq!(store.posts.rows.len(), 7);
}
