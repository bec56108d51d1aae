//! Posts.

use crate::activity::{
    ids, ids_of, one_id, optional_text, tag_links, Activity, ActivityKind, ActivityView, Article,
    ArticleView, Image, ImageView, LicensedArticle, LicensedArticleView, Object, ObjectView,
    TagLink, TagLinkView,
};
use crate::activity_pub::{Hashtag, Id, IntoId, Licensed, Source, PUBLIC_VISIBILITY};
use crate::blogs::Blog;
use crate::likes::Like;
use crate::listing::{
    count_of, counted, limit_to, limited, page, page_of, recent_first, sort_recent, Dated,
};
use crate::medias::{media_url, Media};
use crate::mentions::{in_post, link_of, Mention};
use crate::post_authors::PostAuthor;
use crate::reshares::Reshare;
use crate::store::{Error, Store, StoreView};
use crate::table::{first_index, first_match, with_key, Addressed, Row, TableView};
use crate::tags::{given_names, new_names, of_post, retagged, tag_link, tag_views, Tag};
use crate::text::{copy_text, join2, same_text, texts};
use crate::users::{follower_of, User};
use vstd::prelude::*;

verus! {

/// One post of a blog.
#[derive(Clone, Debug, PartialEq, Eq)]
pub struct Post {
    pub id: i32,
    pub blog_id: i32,
    pub slug: String,
    pub title: String,
    pub content: String,
    pub published: bool,
    pub license: String,
    /// Seconds since the Unix epoch.
    pub creation_date: i64,
    pub ap_url: String,
    pub subtitle: String,
    pub source: String,
    pub cover_id: Option<i32>,
}

impl Row for Post {
    open spec fn key(&self) -> i32 {
        self.id
    }

    fn id(&self) -> (id: i32) {
        self.id
    }

    fn copy(&self) -> (row: Post) {
        Post {
            id: self.id,
            blog_id: self.blog_id,
            slug: copy_text(&self.slug),
            title: copy_text(&self.title),
            content: copy_text(&self.content),
            published: self.published,
            license: copy_text(&self.license),
            creation_date: self.creation_date,
            ap_url: copy_text(&self.ap_url),
            subtitle: copy_text(&self.subtitle),
            source: copy_text(&self.source),
            cover_id: self.cover_id,
        }
    }
}

impl Addressed for Post {
    open spec fn address(&self) -> Option<Seq<char>> {
        Some(self.ap_url@)
    }

    fn has_address(&self, url: &str) -> (yes: bool) {
        same_text(self.ap_url.as_str(), url)
    }
}

/// A post to be stored.
#[derive(Clone, Debug, PartialEq, Eq)]
pub struct NewPost {
    pub blog_id: i32,
    pub slug: String,
    pub title: String,
    pub content: String,
    pub published: bool,
    pub license: String,
    /// Seconds since the Unix epoch; the time of storing where absent.
    pub creation_date: Option<i64>,
    pub ap_url: String,
    pub subtitle: String,
    pub source: String,
    pub cover_id: Option<i32>,
}

/// The media type of the source of a post.
pub const SOURCE_MEDIA_TYPE: &'static str = "text/markdown";

/// The record that a user wrote a post.
pub open spec fn authorship(post_id: i32, author_id: i32) -> spec_fn(PostAuthor) -> bool {
    |link: PostAuthor| link.post_id == post_id && link.author_id == author_id
}

/// The users who wrote a post.
pub open spec fn author_of(links: Seq<PostAuthor>, post_id: i32) -> spec_fn(User) -> bool {
    |user: User| first_match(links, authorship(post_id, user.id)) is Some
}

/// The authors of a post, in the order in which users were stored.
pub open spec fn authors_of(store: Store, post_id: i32) -> Seq<User> {
    store.users@.rows.filter(author_of(store.post_authors@.rows, post_id))
}

/// The addresses of users.
pub open spec fn addresses(users: Seq<User>) -> Seq<Seq<char>> {
    users.map_values(|user: User| user.ap_url@)
}

/// The followers of a user.
pub open spec fn followers_of(store: Store, user_id: i32) -> Seq<User> {
    store.users@.rows.filter(follower_of(store.follows@.rows, user_id))
}

/// The addresses of the followers of each of some users, user after user.
pub open spec fn receivers(store: Store, authors: Seq<User>) -> Seq<Seq<char>>
    decreases authors.len(),
{
    if authors.len() == 0 {
        Seq::empty()
    } else {
        receivers(store, authors.drop_last()) + addresses(followers_of(store, authors.last().id))
    }
}

/// The references written into the article of a post: its mentions, then
/// its tags. A mention of a user who is not known stands as `None`.
pub open spec fn references(store: Store, post_id: i32) -> Seq<Option<TagLinkView>> {
    store.mentions@.rows.filter(in_post(post_id)).map_values(
        |mention: Mention| link_of(store, mention),
    ) + store.tags@.rows.filter(of_post(post_id)).map_values(
        |tag: Tag| Some(tag_link(tag, store.local_domain@)),
    )
}

/// The cover that a media file makes. It needs the address of the file and
/// the owner of the file. The warning of a sensitive file is its summary.
pub open spec fn cover_of(store: Store, media: Media) -> Option<ImageView> {
    match (media_url(media, store.local_domain@), store.users.by_id(media.owner_id)) {
        (Some(url), Some(owner)) => Some(
            ImageView {
                url,
                summary: if media.sensitive {
                    match media.content_warning {
                        Some(warning) => Some(warning@),
                        None => Some(Seq::empty()),
                    }
                } else {
                    None
                },
                content: media.alt_text@,
                attributed_to: seq![owner.ap_url@],
            },
        ),
        _ => None,
    }
}

/// The cover of a post: `Some(None)` for a post without one, `None` where
/// the cover of the post cannot be made.
pub open spec fn icon_of(store: Store, post: Post) -> Option<Option<ImageView>> {
    match post.cover_id {
        None => Some(None),
        Some(media_id) => match store.medias.by_id(media_id) {
            None => None,
            Some(media) => match cover_of(store, media) {
                Some(image) => Some(Some(image)),
                None => None,
            },
        },
    }
}

/// The article that shows a post to other instances. It is attributed to
/// the authors and to the blog, addressed to everyone, with the followers
/// of the authors in copy. There is none where the blog or the cover of the
/// post cannot be found.
pub open spec fn article_of(store: Store, post: Post) -> Option<LicensedArticleView> {
    match (store.blogs.by_id(post.blog_id), icon_of(store, post)) {
        (Some(blog), Some(icon)) => Some(
            LicensedArticleView {
                object: ArticleView {
                    id: post.ap_url@,
                    name: post.title@,
                    attributed_to: addresses(authors_of(store, post.id)).push(blog.ap_url@),
                    content: post.content@,
                    source_content: post.source@,
                    source_media_type: SOURCE_MEDIA_TYPE@,
                    published: post.creation_date,
                    summary: post.subtitle@,
                    tag: references(store, post.id),
                    icon,
                    url: post.ap_url@,
                    to: seq![PUBLIC_VISIBILITY@],
                    cc: receivers(store, authors_of(store, post.id)),
                },
                license: Some(post.license@),
            },
        ),
        _ => None,
    }
}

/// The activity that carries the article of a post, by its first author.
pub open spec fn article_activity(
    kind: ActivityKind,
    id: Seq<char>,
    actor: User,
    article: LicensedArticleView,
) -> ActivityView {
    ActivityView {
        kind,
        id,
        actor: actor.ap_url@,
        object: ObjectView::Article(article),
        to: article.object.to,
        cc: article.object.cc,
    }
}

/// The activity that tells of the deletion of something: what is left of it
/// is its address.
pub open spec fn deletion(address: Seq<char>, actor: User) -> ActivityView {
    ActivityView {
        kind: ActivityKind::Delete,
        id: address + "#delete"@,
        actor: actor.ap_url@,
        object: ObjectView::Tombstone(address),
        to: seq![PUBLIC_VISIBILITY@],
        cc: Seq::empty(),
    }
}

/// The digits of a number, the sign first for a negative one.
pub open spec fn digits(number: int) -> Seq<char>
    decreases
        if number < 0 {
            -number + 1
        } else {
            number
        },
{
    if number < 0 {
        seq!['-'] + digits(-number)
    } else if number < 10 {
        seq![digit(number)]
    } else {
        digits(number / 10).push(digit(number % 10))
    }
}

/// The digit of a number below ten.
pub open spec fn digit(number: int) -> char {
    ('0' as u8 + number) as u8 as char
}

/// Write a number in decimal.
pub fn decimal(number: i64) -> (text: String)
    ensures
        text@ == digits(number as int),
{
    let mut rest: i128 = number as i128;
    let negative = rest < 0;
    if negative {
        rest = -rest;
    }
    let ghost size = rest as int;
    let mut reversed: Vec<char> = Vec::new();
    let first = (('0' as u8) + ((rest % 10) as u8)) as char;
    reversed.push(first);
    rest = rest / 10;
    while rest > 0
        invariant
            0 <= rest,
            reversed@.len() >= 1,
            rest > 0 ==> digits(size) == digits(rest as int) + reversed@.reverse(),
            rest == 0 ==> digits(size) == reversed@.reverse(),
            0 <= size,
        decreases rest,
    {
        let ghost before = reversed@;
        let ghost current = rest as int;
        let c = (('0' as u8) + ((rest % 10) as u8)) as char;
        reversed.push(c);
        rest = rest / 10;
        proof {
            assert(reversed@.reverse() =~= seq![c] + before.reverse());
            if rest > 0 {
                assert(digits(current) == digits(rest as int).push(c));
                assert(digits(size) =~= digits(rest as int) + reversed@.reverse());
            } else {
                assert(digits(current) == seq![c]);
                assert(digits(size) =~= reversed@.reverse());
            }
        }
    }
    let mut text = String::new();
    if negative {
        crate::text::push_char(&mut text, '-');
    }
    let ghost sign = text@;
    let mut i: usize = reversed.len();
    while i > 0
        invariant
            i <= reversed@.len(),
            text@ == sign + reversed@.reverse().take(reversed@.len() - i),
        decreases i,
    {
        i -= 1;
        crate::text::push_char(&mut text, reversed[i]);
        assert(reversed@.reverse().take(reversed@.len() - i) =~= reversed@.reverse().take(
            reversed@.len() - i - 1,
        ).push(reversed@[i as int]));
    }
    assert(reversed@.reverse().take(reversed@.len() as int) =~= reversed@.reverse());
    proof {
        if negative {
            assert(sign =~= seq!['-']);
        } else {
            assert(sign + reversed@.reverse() =~= reversed@.reverse());
        }
    }
    text
}

impl Post {
    /// Store a post. Where no date of creation is given, the post is stamped
    /// with the time of the store. It fails only where the table is full,
    /// and then changes nothing.
    pub fn insert(store: &mut Store, new: NewPost) -> (stored: Result<Post, Error>)
        ensures
            match stored {
                Ok(post) => {
                    &&& old(store).posts.next_id < i32::MAX
                    &&& post == Post {
                        id: old(store).posts.next_id,
                        blog_id: new.blog_id,
                        slug: new.slug,
                        title: new.title,
                        content: new.content,
                        published: new.published,
                        license: new.license,
                        creation_date: match new.creation_date {
                            Some(date) => date,
                            None => old(store).now,
                        },
                        ap_url: new.ap_url,
                        subtitle: new.subtitle,
                        source: new.source,
                        cover_id: new.cover_id,
                    }
                    &&& final(store)@ == (StoreView {
                        posts: TableView {
                            rows: old(store).posts@.rows.push(post),
                            next_id: (old(store).posts.next_id + 1) as i32,
                        },
                        ..old(store)@
                    })
                },
                Err(error) => {
                    &&& old(store).posts.next_id == i32::MAX
                    &&& error == Error::Full
                    &&& final(store)@ == old(store)@
                },
            },
            old(store).wf() ==> final(store).wf(),
    {
        if store.posts.next_id == i32::MAX {
            return Err(Error::Full);
        }
        let post = Post {
            id: store.posts.next_id,
            blog_id: new.blog_id,
            slug: new.slug,
            title: new.title,
            content: new.content,
            published: new.published,
            license: new.license,
            creation_date: match new.creation_date {
                Some(date) => date,
                None => store.now,
            },
            ap_url: new.ap_url,
            subtitle: new.subtitle,
            source: new.source,
            cover_id: new.cover_id,
        };
        let stored = post.copy();
        store.posts.add(post);
        Ok(stored)
    }

    /// The post with an identifier.
    pub fn get(store: &Store, id: i32) -> (found: Result<Post, Error>)
        ensures
            found == match store.posts.by_id(id) {
                Some(post) => Ok::<Post, Error>(post),
                None => Err::<Post, Error>(Error::NotFound),
            },
    {
        match store.posts.get(id) {
            Some(post) => Ok(post.copy()),
            None => Err(Error::NotFound),
        }
    }

    /// The post with an address.
    pub fn find_by_ap_url(store: &Store, ap_url: &str) -> (found: Result<Post, Error>)
        ensures
            found == match store.posts.by_url(ap_url@) {
                Some(post) => Ok::<Post, Error>(post),
                None => Err::<Post, Error>(Error::NotFound),
            },
    {
        match store.posts.find(ap_url) {
            Some(post) => Ok(post.copy()),
            None => Err(Error::NotFound),
        }
    }

    /// The authors of the post, in the order in which users were stored.
    pub fn get_authors(&self, store: &Store) -> (authors: Vec<User>)
        ensures
            authors@ == authors_of(*store, self.id),
    {
        let post_id = self.id;
        let test = |user: &User| -> (yes: bool)
            ensures
                yes == author_of(store.post_authors@.rows, post_id)(*user),
            {
                let author_id = user.id;
                let wrote = |link: &PostAuthor| -> (yes: bool)
                    ensures
                        yes == authorship(post_id, author_id)(*link),
                    { link.post_id == post_id && link.author_id == author_id };
                store.post_authors.any(wrote, Ghost(authorship(post_id, author_id)))
            };
        store.users.select(test, Ghost(author_of(store.post_authors@.rows, post_id)))
    }

    /// Whether a user wrote the post.
    pub fn is_author(&self, store: &Store, author_id: i32) -> (yes: bool)
        ensures
            yes == first_match(store.post_authors@.rows, authorship(self.id, author_id)) is Some,
    {
        let post_id = self.id;
        let wrote = |link: &PostAuthor| -> (yes: bool)
            ensures
                yes == authorship(post_id, author_id)(*link),
            { link.post_id == post_id && link.author_id == author_id };
        store.post_authors.any(wrote, Ghost(authorship(post_id, author_id)))
    }

    /// The blog of the post.
    pub fn get_blog(&self, store: &Store) -> (blog: Result<Blog, Error>)
        ensures
            blog == match store.blogs.by_id(self.blog_id) {
                Some(found) => Ok::<Blog, Error>(found),
                None => Err::<Blog, Error>(Error::NotFound),
            },
    {
        match store.blogs.get(self.blog_id) {
            Some(blog) => Ok(blog.copy()),
            None => Err(Error::NotFound),
        }
    }

    /// The addresses of those who are told of the post: the followers of
    /// each of its authors.
    pub fn get_receivers_urls(&self, store: &Store) -> (urls: Vec<String>)
        ensures
            texts(urls@) == receivers(*store, authors_of(*store, self.id)),
    {
        let authors = self.get_authors(store);
        let mut urls: Vec<String> = Vec::new();
        let mut i: usize = 0;
        assert(authors@.take(0) =~= Seq::empty());
        assert(texts(urls@) =~= Seq::empty());
        while i < authors.len()
            invariant
                i <= authors@.len(),
                texts(urls@) == receivers(*store, authors@.take(i as int)),
            decreases authors@.len() - i,
        {
            let followers = authors[i].get_followers(store);
            let ghost before = texts(urls@);
            let ghost added = addresses(followers@);
            assert(authors@.take(i + 1).drop_last() =~= authors@.take(i as int));
            assert(authors@.take(i + 1).last() == authors@[i as int]);
            let mut j: usize = 0;
            while j < followers.len()
                invariant
                    j <= followers@.len(),
                    added == addresses(followers@),
                    texts(urls@) == before + added.take(j as int),
                decreases followers@.len() - j,
            {
                let ghost so_far = texts(urls@);
                urls.push(copy_text(&followers[j].ap_url));
                assert(added[j as int] == followers@[j as int].ap_url@);
                assert(texts(urls@) =~= so_far.push(added[j as int]));
                assert(texts(urls@) =~= before + added.take(j as int).push(added[j as int]));
                assert(added.take(j + 1) =~= added.take(j as int).push(added[j as int]));
                j += 1;
            }
            assert(added.take(followers@.len() as int) =~= added);
            i += 1;
        }
        assert(authors@.take(authors@.len() as int) =~= authors@);
        urls
    }

    /// The references to write into the article of the post.
    fn tag_references(&self, store: &Store) -> (links: Vec<Option<TagLink>>)
        ensures
            tag_links(links@) == references(*store, self.id),
    {
        let mentions = Mention::list_for_post(store, self.id);
        let tags = Tag::for_post(store, self.id);
        let ghost first = mentions@.map_values(|mention: Mention| link_of(*store, mention));
        let ghost second = tags@.map_values(|tag: Tag| Some(tag_link(tag, store.local_domain@)));
        let mut links: Vec<Option<TagLink>> = Vec::new();
        let mut i: usize = 0;
        assert(tag_links(links@) =~= first.take(0));
        while i < mentions.len()
            invariant
                i <= mentions@.len(),
                first == mentions@.map_values(|mention: Mention| link_of(*store, mention)),
                tag_links(links@) == first.take(i as int),
            decreases mentions@.len() - i,
        {
            let link = match mentions[i].to_activity(store) {
                Ok(link) => Some(link),
                Err(_) => None,
            };
            links.push(link);
            assert(tag_links(links@) =~= first.take(i as int).push(first[i as int]));
            assert(first.take(i + 1) =~= first.take(i as int).push(first[i as int]));
            i += 1;
        }
        assert(first.take(mentions@.len() as int) =~= first);
        let mut j: usize = 0;
        while j < tags.len()
            invariant
                j <= tags@.len(),
                second == tags@.map_values(|tag: Tag| Some(tag_link(tag, store.local_domain@))),
                tag_links(links@) == first + second.take(j as int),
            decreases tags@.len() - j,
        {
            let ghost so_far = tag_links(links@);
            links.push(Some(tags[j].to_activity(store)));
            assert(second[j as int] == Some(tag_link(tags@[j as int], store.local_domain@)));
            assert(tag_links(links@) =~= so_far.push(second[j as int]));
            assert(tag_links(links@) =~= first + second.take(j as int).push(second[j as int]));
            assert(second.take(j + 1) =~= second.take(j as int).push(second[j as int]));
            j += 1;
        }
        assert(second.take(tags@.len() as int) =~= second);
        links
    }

    /// The cover of the post, if it has one.
    fn cover(&self, store: &Store) -> (cover: Result<Option<Image>, Error>)
        ensures
            match icon_of(*store, *self) {
                Some(icon) => cover matches Ok(made) && (match made {
                    Some(image) => Some(image@),
                    None => None,
                }) == icon,
                None => cover == Err::<Option<Image>, Error>(Error::NotFound),
            },
    {
        let media_id = match self.cover_id {
            Some(media_id) => media_id,
            None => { return Ok(None); },
        };
        let media = match store.medias.get(media_id) {
            Some(media) => media,
            None => { return Err(Error::NotFound); },
        };
        let url = match media.url(store) {
            Ok(url) => url,
            Err(error) => { return Err(error); },
        };
        let summary = if media.sensitive {
            match &media.content_warning {
                Some(warning) => Some(copy_text(warning)),
                None => Some(String::new()),
            }
        } else {
            None
        };
        let owner = match store.users.get(media.owner_id) {
            Some(owner) => owner,
            None => { return Err(Error::NotFound); },
        };
        Ok(
            Some(
                Image {
                    url,
                    summary,
                    content: copy_text(&media.alt_text),
                    attributed_to: one_id(owner.ap_url.as_str()),
                },
            ),
        )
    }

    /// The article that shows the post to other instances.
    pub fn to_activity(&self, store: &Store) -> (article: Result<LicensedArticle, Error>)
        ensures
            match article_of(*store, *self) {
                Some(view) => article matches Ok(made) && made@ == view,
                None => article == Err::<LicensedArticle, Error>(Error::NotFound),
            },
    {
        let cc = self.get_receivers_urls(store);
        let tag = self.tag_references(store);
        let authors = self.get_authors(store);
        let mut attributed_to: Vec<Id> = Vec::new();
        let mut i: usize = 0;
        while i < authors.len()
            invariant
                i <= authors@.len(),
                ids(attributed_to@) == addresses(authors@).take(i as int),
            decreases authors@.len() - i,
        {
            attributed_to.push(Id::new(copy_text(&authors[i].ap_url)));
            assert(ids(attributed_to@) =~= addresses(authors@).take(i as int).push(
                authors@[i as int].ap_url@,
            ));
            assert(addresses(authors@).take(i + 1) =~= addresses(authors@).take(i as int).push(
                authors@[i as int].ap_url@,
            ));
            i += 1;
        }
        assert(addresses(authors@).take(authors@.len() as int) =~= addresses(authors@));
        let blog = match store.blogs.get(self.blog_id) {
            Some(blog) => blog,
            None => { return Err(Error::NotFound); },
        };
        let ghost before = ids(attributed_to@);
        attributed_to.push(Id::new(copy_text(&blog.ap_url)));
        assert(ids(attributed_to@) =~= before.push(blog.ap_url@));
        let icon = match self.cover(store) {
            Ok(icon) => icon,
            Err(error) => { return Err(error); },
        };
        let object = Article {
            id: copy_text(&self.ap_url),
            name: copy_text(&self.title),
            attributed_to,
            content: copy_text(&self.content),
            source: Source {
                content: copy_text(&self.source),
                media_type: String::from_str(SOURCE_MEDIA_TYPE),
            },
            published: self.creation_date,
            summary: copy_text(&self.subtitle),
            tag,
            icon,
            url: copy_text(&self.ap_url),
            to: one_id(PUBLIC_VISIBILITY),
            cc: ids_of(&cc),
        };
        Ok(LicensedArticle::new(object, Licensed { license: Some(copy_text(&self.license)) }))
    }

    /// The activity that carries the article of the post under an address.
    fn announce(&self, store: &Store, kind: ActivityKind, id: String) -> (activity: Result<
        Activity,
        Error,
    >)
        ensures
            match article_of(*store, *self) {
                Some(article) => if authors_of(*store, self.id).len() > 0 {
                    activity matches Ok(made) && made@ == article_activity(
                        kind,
                        id@,
                        authors_of(*store, self.id)[0],
                        article,
                    )
                } else {
                    activity == Err::<Activity, Error>(Error::NotFound)
                },
                None => activity == Err::<Activity, Error>(Error::NotFound),
            },
    {
        let article = match self.to_activity(store) {
            Ok(article) => article,
            Err(error) => { return Err(error); },
        };
        let authors = self.get_authors(store);
        if authors.len() == 0 {
            return Err(Error::NotFound);
        }
        let to = copy_ids(&article.object.to);
        let cc = copy_ids(&article.object.cc);
        Ok(
            Activity {
                kind,
                id,
                actor: Id::new(copy_text(&authors[0].ap_url)),
                object: Object::Article(article),
                to,
                cc,
            },
        )
    }

    /// The activity that tells of the publication of the post, by its first
    /// author. It needs an author, and the article of the post.
    pub fn create_activity(&self, store: &Store) -> (activity: Result<Activity, Error>)
        ensures
            match article_of(*store, *self) {
                Some(article) => if authors_of(*store, self.id).len() > 0 {
                    activity matches Ok(made) && made@ == article_activity(
                        ActivityKind::Create,
                        self.ap_url@ + "activity"@,
                        authors_of(*store, self.id)[0],
                        article,
                    )
                } else {
                    activity == Err::<Activity, Error>(Error::NotFound)
                },
                None => activity == Err::<Activity, Error>(Error::NotFound),
            },
    {
        self.announce(store, ActivityKind::Create, join2(self.ap_url.as_str(), "activity"))
    }

    /// The activity that tells of a revision of the post, by its first
    /// author. Its address ends in the time of the store.
    pub fn update_activity(&self, store: &Store) -> (activity: Result<Activity, Error>)
        ensures
            match article_of(*store, *self) {
                Some(article) => if authors_of(*store, self.id).len() > 0 {
                    activity matches Ok(made) && made@ == article_activity(
                        ActivityKind::Update,
                        self.ap_url@ + "/update-"@ + digits(store.now as int),
                        authors_of(*store, self.id)[0],
                        article,
                    )
                } else {
                    activity == Err::<Activity, Error>(Error::NotFound)
                },
                None => activity == Err::<Activity, Error>(Error::NotFound),
            },
    {
        let stamp = decimal(store.now);
        self.announce(
            store,
            ActivityKind::Update,
            String::from_str(self.ap_url.as_str()).concat("/update-").concat(stamp.as_str()),
        )
    }

    /// The activity that tells of the deletion of the post, by its first
    /// author.
    pub fn build_delete(&self, store: &Store) -> (activity: Result<Activity, Error>)
        ensures
            if authors_of(*store, self.id).len() > 0 {
                activity matches Ok(made) && made@ == deletion(
                    self.ap_url@,
                    authors_of(*store, self.id)[0],
                )
            } else {
                activity == Err::<Activity, Error>(Error::NotFound)
            },
    {
        let authors = self.get_authors(store);
        if authors.len() == 0 {
            return Err(Error::NotFound);
        }
        let cc: Vec<Id> = Vec::new();
        assert(ids(cc@) =~= Seq::empty());
        Ok(
            Activity {
                kind: ActivityKind::Delete,
                id: join2(self.ap_url.as_str(), "#delete"),
                actor: Id::new(copy_text(&authors[0].ap_url)),
                object: Object::Tombstone(Id::new(copy_text(&self.ap_url))),
                to: one_id(PUBLIC_VISIBILITY),
                cc,
            },
        )
    }
}

impl Post {
    /// Give the post new tags of the kind that is set beside the text: the
    /// tags named again stay, the others of that kind go, and each name that
    /// the post did not have is added.
    pub fn update_tags(&self, store: &mut Store, tags: &Vec<Hashtag>) -> (done: Result<(), Error>)
        ensures
            done is Ok == (old(store).tags.next_id + new_names(
                old(store).tags@.rows,
                self.id,
                false,
                given_names(tags@),
            ).len() < i32::MAX),
            done matches Err(error) ==> error == Error::Full && final(store)@ == old(store)@,
            done is Ok ==> tag_views(final(store).tags@.rows) == retagged(
                old(store).tags@.rows,
                old(store).tags.next_id,
                self.id,
                false,
                given_names(tags@),
            ) && final(store)@ == (StoreView { tags: final(store).tags@, ..old(store)@ }),
            old(store).wf() ==> final(store).wf(),
    {
        Tag::replace(store, self.id, false, tags)
    }

    /// Give the post new tags of the kind that is written into the text.
    pub fn update_hashtags(&self, store: &mut Store, tags: &Vec<Hashtag>) -> (done: Result<
        (),
        Error,
    >)
        ensures
            done is Ok == (old(store).tags.next_id + new_names(
                old(store).tags@.rows,
                self.id,
                true,
                given_names(tags@),
            ).len() < i32::MAX),
            done matches Err(error) ==> error == Error::Full && final(store)@ == old(store)@,
            done is Ok ==> tag_views(final(store).tags@.rows) == retagged(
                old(store).tags@.rows,
                old(store).tags.next_id,
                self.id,
                true,
                given_names(tags@),
            ) && final(store)@ == (StoreView { tags: final(store).tags@, ..old(store)@ }),
            old(store).wf() ==> final(store).wf(),
    {
        Tag::replace(store, self.id, true, tags)
    }
}

/// A copy of a list of identifiers.
pub fn copy_ids(list: &Vec<Id>) -> (copy: Vec<Id>)
    ensures
        copy@ == list@,
        ids(copy@) == ids(list@),
{
    let mut copy: Vec<Id> = Vec::new();
    let mut i: usize = 0;
    while i < list.len()
        invariant
            i <= list@.len(),
            copy@ == list@.take(i as int),
        decreases list@.len() - i,
    {
        copy.push(list[i].copy());
        assert(list@.take(i + 1) =~= list@.take(i as int).push(list@[i as int]));
        i += 1;
    }
    assert(list@.take(list@.len() as int) =~= list@);
    copy
}

/// A revision of a post, as another instance sent it.
#[derive(Clone, Debug, PartialEq, Eq)]
pub struct PostUpdate {
    pub ap_url: String,
    pub title: Option<String>,
    pub subtitle: Option<String>,
    pub content: Option<String>,
    pub cover: Option<i32>,
    pub source: Option<String>,
    pub license: Option<String>,
    pub tags: Option<Vec<Option<TagLink>>>,
}

impl IntoId for Post {
    fn into_id(self) -> (id: Id)
        ensures
            id.0 == self.ap_url,
    {
        Id::new(self.ap_url)
    }
}

impl Dated for Post {
    open spec fn date(&self) -> i64 {
        self.creation_date
    }

    fn stamp(&self) -> (secs: i64) {
        self.creation_date
    }
}

/// The posts that are published.
pub open spec fn published() -> spec_fn(Post) -> bool {
    |post: Post| post.published
}

/// The published posts of a blog.
pub open spec fn published_in(blog_id: i32) -> spec_fn(Post) -> bool {
    |post: Post| post.blog_id == blog_id && post.published
}

/// The record that a post has a tag.
pub open spec fn tagging(tag: Seq<char>, post_id: i32) -> spec_fn(Tag) -> bool {
    |row: Tag| row.tag@ == tag && row.post_id == post_id
}

/// The published posts with a tag.
pub open spec fn tagged(tags: Seq<Tag>, tag: Seq<char>) -> spec_fn(Post) -> bool {
    |post: Post| post.published && first_match(tags, tagging(tag, post.id)) is Some
}

/// The record that a user of an instance wrote a post.
pub open spec fn local_authorship(users: Seq<User>, instance_id: i32, post_id: i32) -> spec_fn(
    PostAuthor,
) -> bool {
    |link: PostAuthor|
        link.post_id == post_id && match first_match(users, with_key(link.author_id)) {
            Some(user) => user.instance_id == instance_id,
            None => false,
        }
}

/// The published posts that a user of an instance wrote.
pub open spec fn written_on(users: Seq<User>, links: Seq<PostAuthor>, instance_id: i32) -> spec_fn(
    Post,
) -> bool {
    |post: Post|
        post.published && first_match(links, local_authorship(users, instance_id, post.id)) is Some
}

/// The posts that a user wrote, published or not as asked.
pub open spec fn written_by(links: Seq<PostAuthor>, author_id: i32, shown: bool) -> spec_fn(
    Post,
) -> bool {
    |post: Post|
        post.published == shown && first_match(links, authorship(post.id, author_id)) is Some
}

/// The blog with an identifier, if it is of an instance.
pub open spec fn blog_on(blog_id: i32, instance_id: i32) -> spec_fn(Blog) -> bool {
    |blog: Blog| blog.id == blog_id && blog.instance_id == instance_id
}

/// The published posts of the blogs of an instance.
pub open spec fn published_on(blogs: Seq<Blog>, instance_id: i32) -> spec_fn(Post) -> bool {
    |post: Post| post.published && first_match(blogs, blog_on(post.blog_id, instance_id)) is Some
}

/// The record that one of some users wrote a post.
pub open spec fn authorship_among(authors: Seq<i32>, post_id: i32) -> spec_fn(PostAuthor) -> bool {
    |link: PostAuthor| link.post_id == post_id && authors.contains(link.author_id)
}

/// The published posts that one of some users wrote.
pub open spec fn written_among(links: Seq<PostAuthor>, authors: Seq<i32>) -> spec_fn(Post) -> bool {
    |post: Post| post.published && first_match(links, authorship_among(authors, post.id)) is Some
}

/// The posts with the given title, subtitle and content, as far as these
/// are given.
pub open spec fn fitting(
    title: Option<Seq<char>>,
    subtitle: Option<Seq<char>>,
    content: Option<Seq<char>>,
) -> spec_fn(Post) -> bool {
    |post: Post|
        {
            &&& title matches Some(wanted) ==> post.title@ == wanted
            &&& subtitle matches Some(wanted) ==> post.subtitle@ == wanted
            &&& content matches Some(wanted) ==> post.content@ == wanted
        }
}

/// The likes of a post.
pub open spec fn like_of(post_id: i32) -> spec_fn(Like) -> bool {
    |like: Like| like.post_id == post_id
}

/// The reshares of a post.
pub open spec fn reshare_of(post_id: i32) -> spec_fn(Reshare) -> bool {
    |reshare: Reshare| reshare.post_id == post_id
}

/// Whether a number is in a list.
pub fn has_number(list: &Vec<i32>, wanted: i32) -> (yes: bool)
    ensures
        yes == list@.contains(wanted),
{
    let mut i: usize = 0;
    while i < list.len()
        invariant
            i <= list@.len(),
            forall|j: int| 0 <= j < i ==> list@[j] != wanted,
        decreases list@.len() - i,
    {
        if list[i] == wanted {
            return true;
        }
        i += 1;
    }
    false
}

/// Whether a text is given and differs from another.
fn differs(wanted: &Option<String>, text: &String) -> (yes: bool)
    ensures
        yes == (wanted matches Some(w) && w@ != text@),
{
    match wanted {
        Some(wanted) => !same_text(wanted.as_str(), text.as_str()),
        None => false,
    }
}

impl Post {
    /// The published posts that a test accepts besides, as copies.
    fn tagged_posts(store: &Store, tag: &str) -> (posts: Vec<Post>)
        ensures
            posts@ == store.posts@.rows.filter(tagged(store.tags@.rows, tag@)),
    {
        let test = |post: &Post| -> (yes: bool)
            ensures
                yes == tagged(store.tags@.rows, tag@)(*post),
            {
                let post_id = post.id;
                let tags = |row: &Tag| -> (yes: bool)
                    ensures
                        yes == tagging(tag@, post_id)(*row),
                    { same_text(row.tag.as_str(), tag) && row.post_id == post_id };
                post.published && store.tags.any(tags, Ghost(tagging(tag@, post_id)))
            };
        store.posts.select(test, Ghost(tagged(store.tags@.rows, tag@)))
    }

    /// A page of the published posts with a tag, the most recent first.
    pub fn list_by_tag(store: &Store, tag: String, range: (i32, i32)) -> (posts: Vec<Post>)
        ensures
            posts@ == page_of(
                recent_first(store.posts@.rows.filter(tagged(store.tags@.rows, tag@))),
                range.0,
                range.1,
            ),
    {
        let all = Post::tagged_posts(store, tag.as_str());
        page(&sort_recent(&all), range.0, range.1)
    }

    /// The number of published posts with a tag.
    pub fn count_for_tag(store: &Store, tag: String) -> (count: i64)
        ensures
            count == counted(
                store.posts@.rows.filter(tagged(store.tags@.rows, tag@)).len() as int,
            ),
    {
        count_of(Post::tagged_posts(store, tag.as_str()).len())
    }

    /// The number of published posts that users of this instance wrote.
    pub fn count_local(store: &Store) -> (count: i64)
        ensures
            count == counted(
                store.posts@.rows.filter(
                    written_on(store.users@.rows, store.post_authors@.rows, store.local_instance),
                ).len() as int,
            ),
    {
        let instance_id = store.local_instance;
        let test = |post: &Post| -> (yes: bool)
            ensures
                yes == written_on(store.users@.rows, store.post_authors@.rows, instance_id)(*post),
            {
                let post_id = post.id;
                let local = |link: &PostAuthor| -> (yes: bool)
                    ensures
                        yes == local_authorship(store.users@.rows, instance_id, post_id)(*link),
                    {
                        link.post_id == post_id && match store.users.get(link.author_id) {
                            Some(user) => user.instance_id == instance_id,
                            None => false,
                        }
                    };
                post.published && store.post_authors.any(
                    local,
                    Ghost(local_authorship(store.users@.rows, instance_id, post_id)),
                )
            };
        count_of(
            store.posts.count(
                test,
                Ghost(written_on(store.users@.rows, store.post_authors@.rows, instance_id)),
            ),
        )
    }

    /// The number of published posts.
    pub fn count(store: &Store) -> (count: i64)
        ensures
            count == counted(store.posts@.rows.filter(published()).len() as int),
    {
        let test = |post: &Post| -> (yes: bool)
            ensures
                yes == published()(*post),
            { post.published };
        count_of(store.posts.count(test, Ghost(published())))
    }

    /// The posts with the given title, subtitle and content, as far as
    /// these are given; published or not.
    pub fn list_filtered(
        store: &Store,
        title: Option<String>,
        subtitle: Option<String>,
        content: Option<String>,
    ) -> (posts: Vec<Post>)
        ensures
            posts@ == store.posts@.rows.filter(
                fitting(optional_text(title), optional_text(subtitle), optional_text(content)),
            ),
    {
        let ghost wanted = fitting(
            optional_text(title),
            optional_text(subtitle),
            optional_text(content),
        );
        let (title, subtitle, content) = (&title, &subtitle, &content);
        let test = |post: &Post| -> (yes: bool)
            ensures
                yes == wanted(*post),
            {
                !differs(title, &post.title) && !differs(subtitle, &post.subtitle) && !differs(
                    content,
                    &post.content,
                )
            };
        store.posts.select(test, Ghost(wanted))
    }

    /// The published posts, as copies.
    fn published_posts(store: &Store) -> (posts: Vec<Post>)
        ensures
            posts@ == store.posts@.rows.filter(published()),
    {
        let test = |post: &Post| -> (yes: bool)
            ensures
                yes == published()(*post),
            { post.published };
        store.posts.select(test, Ghost(published()))
    }

    /// The most recent published posts, up to a limit.
    pub fn get_recents(store: &Store, limit: i64) -> (posts: Vec<Post>)
        ensures
            posts@ == limited(recent_first(store.posts@.rows.filter(published())), limit),
    {
        limit_to(&sort_recent(&Post::published_posts(store)), limit)
    }

    /// The posts of an author, published or not as asked, as copies.
    fn posts_of(store: &Store, author_id: i32, shown: bool) -> (posts: Vec<Post>)
        ensures
            posts@ == store.posts@.rows.filter(
                written_by(store.post_authors@.rows, author_id, shown),
            ),
    {
        let test = |post: &Post| -> (yes: bool)
            ensures
                yes == written_by(store.post_authors@.rows, author_id, shown)(*post),
            {
                let post_id = post.id;
                let wrote = |link: &PostAuthor| -> (yes: bool)
                    ensures
                        yes == authorship(post_id, author_id)(*link),
                    { link.post_id == post_id && link.author_id == author_id };
                post.published == shown && store.post_authors.any(
                    wrote,
                    Ghost(authorship(post_id, author_id)),
                )
            };
        store.posts.select(test, Ghost(written_by(store.post_authors@.rows, author_id, shown)))
    }

    /// The most recent published posts of an author, up to a limit.
    pub fn get_recents_for_author(store: &Store, author: &User, limit: i64) -> (posts: Vec<Post>)
        ensures
            posts@ == limited(
                recent_first(
                    store.posts@.rows.filter(written_by(store.post_authors@.rows, author.id, true)),
                ),
                limit,
            ),
    {
        limit_to(&sort_recent(&Post::posts_of(store, author.id, true)), limit)
    }

    /// The posts of an author that are not published, the most recent
    /// first.
    pub fn drafts_by_author(store: &Store, author: &User) -> (posts: Vec<Post>)
        ensures
            posts@ == recent_first(
                store.posts@.rows.filter(written_by(store.post_authors@.rows, author.id, false)),
            ),
    {
        sort_recent(&Post::posts_of(store, author.id, false))
    }

    /// The published posts of a blog, in the order in which they were
    /// stored.
    pub fn get_for_blog(store: &Store, blog: &Blog) -> (posts: Vec<Post>)
        ensures
            posts@ == store.posts@.rows.filter(published_in(blog.id)),
    {
        let blog_id = blog.id;
        let test = |post: &Post| -> (yes: bool)
            ensures
                yes == published_in(blog_id)(*post),
            { post.blog_id == blog_id && post.published };
        store.posts.select(test, Ghost(published_in(blog_id)))
    }

    /// The most recent published posts of a blog, up to a limit.
    pub fn get_recents_for_blog(store: &Store, blog: &Blog, limit: i64) -> (posts: Vec<Post>)
        ensures
            posts@ == limited(
                recent_first(store.posts@.rows.filter(published_in(blog.id))),
                limit,
            ),
    {
        limit_to(&sort_recent(&Post::get_for_blog(store, blog)), limit)
    }

    /// The number of published posts of a blog.
    pub fn count_for_blog(store: &Store, blog: &Blog) -> (count: i64)
        ensures
            count == counted(store.posts@.rows.filter(published_in(blog.id)).len() as int),
    {
        count_of(Post::get_for_blog(store, blog).len())
    }

    /// A page of the published posts of a blog, the most recent first.
    pub fn blog_page(store: &Store, blog: &Blog, range: (i32, i32)) -> (posts: Vec<Post>)
        ensures
            posts@ == page_of(
                recent_first(store.posts@.rows.filter(published_in(blog.id))),
                range.0,
                range.1,
            ),
    {
        page(&sort_recent(&Post::get_for_blog(store, blog)), range.0, range.1)
    }

    /// A page of all published posts known to this instance, the most
    /// recent first.
    pub fn get_recents_page(store: &Store, range: (i32, i32)) -> (posts: Vec<Post>)
        ensures
            posts@ == page_of(recent_first(store.posts@.rows.filter(published())), range.0, range.1),
    {
        page(&sort_recent(&Post::published_posts(store)), range.0, range.1)
    }

    /// A page of the published posts of the blogs of one instance, the most
    /// recent first.
    pub fn get_instance_page(store: &Store, instance_id: i32, range: (i32, i32)) -> (posts:
        Vec<Post>)
        ensures
            posts@ == page_of(
                recent_first(
                    store.posts@.rows.filter(published_on(store.blogs@.rows, instance_id)),
                ),
                range.0,
                range.1,
            ),
    {
        let test = |post: &Post| -> (yes: bool)
            ensures
                yes == published_on(store.blogs@.rows, instance_id)(*post),
            {
                let blog_id = post.blog_id;
                let there = |blog: &Blog| -> (yes: bool)
                    ensures
                        yes == blog_on(blog_id, instance_id)(*blog),
                    { blog.id == blog_id && blog.instance_id == instance_id };
                post.published && store.blogs.any(there, Ghost(blog_on(blog_id, instance_id)))
            };
        let all = store.posts.select(test, Ghost(published_on(store.blogs@.rows, instance_id)));
        page(&sort_recent(&all), range.0, range.1)
    }

    /// A page of the published posts of the users that someone follows,
    /// the most recent first.
    pub fn user_feed_page(store: &Store, followed: Vec<i32>, range: (i32, i32)) -> (posts:
        Vec<Post>)
        ensures
            posts@ == page_of(
                recent_first(
                    store.posts@.rows.filter(written_among(store.post_authors@.rows, followed@)),
                ),
                range.0,
                range.1,
            ),
    {
        let test = |post: &Post| -> (yes: bool)
            ensures
                yes == written_among(store.post_authors@.rows, followed@)(*post),
            {
                let post_id = post.id;
                let wrote = |link: &PostAuthor| -> (yes: bool)
                    ensures
                        yes == authorship_among(followed@, post_id)(*link),
                    { link.post_id == post_id && has_number(&followed, link.author_id) };
                post.published && store.post_authors.any(
                    wrote,
                    Ghost(authorship_among(followed@, post_id)),
                )
            };
        let all = store.posts.select(test, Ghost(written_among(store.post_authors@.rows, followed@)));
        page(&sort_recent(&all), range.0, range.1)
    }

    /// The number of likes of the post.
    pub fn count_likes(&self, store: &Store) -> (count: i64)
        ensures
            count == counted(store.likes@.rows.filter(like_of(self.id)).len() as int),
    {
        let post_id = self.id;
        let test = |like: &Like| -> (yes: bool)
            ensures
                yes == like_of(post_id)(*like),
            { like.post_id == post_id };
        count_of(store.likes.count(test, Ghost(like_of(post_id))))
    }

    /// The number of reshares of the post.
    pub fn count_reshares(&self, store: &Store) -> (count: i64)
        ensures
            count == counted(store.reshares@.rows.filter(reshare_of(self.id)).len() as int),
    {
        let post_id = self.id;
        let test = |reshare: &Reshare| -> (yes: bool)
            ensures
                yes == reshare_of(post_id)(*reshare),
            { reshare.post_id == post_id };
        count_of(store.reshares.count(test, Ghost(reshare_of(post_id))))
    }

    /// The path of the post on this instance: the name of its blog, then
    /// its slug.
    pub fn url(&self, store: &Store) -> (url: Result<String, Error>)
        ensures
            match store.blogs.by_id(self.blog_id) {
                Some(blog) => url matches Ok(path) && path@ == "/~/"@ + blog.fqn@ + "/"@
                    + self.slug@,
                None => url == Err::<String, Error>(Error::NotFound),
            },
    {
        match store.blogs.get(self.blog_id) {
            Some(blog) => Ok(
                String::from_str("/~/").concat(blog.fqn.as_str()).concat("/").concat(
                    self.slug.as_str(),
                ),
            ),
            None => Err(Error::NotFound),
        }
    }

    /// The address of the cover of the post, where it has one that can be
    /// found.
    pub fn cover_url(&self, store: &Store) -> (url: Option<String>)
        ensures
            optional_text(url) == match self.cover_id {
                Some(media_id) => match store.medias.by_id(media_id) {
                    Some(media) => media_url(media, store.local_domain@),
                    None => None,
                },
                None => None,
            },
    {
        let media_id = match self.cover_id {
            Some(media_id) => media_id,
            None => { return None; },
        };
        match store.medias.get(media_id) {
            Some(media) => match media.url(store) {
                Ok(url) => Some(url),
                Err(_) => None,
            },
            None => None,
        }
    }

    /// Store the post as it is now, in place of the stored post with its
    /// identifier.
    pub fn update(&self, store: &mut Store) -> (updated: Result<Post, Error>)
        ensures
            match first_index(old(store).posts@.rows, with_key(self.id)) {
                Some(at) => updated == Ok::<Post, Error>(*self) && final(store)@ == (StoreView {
                    posts: TableView {
                        rows: old(store).posts@.rows.update(at, *self),
                        next_id: old(store).posts.next_id,
                    },
                    ..old(store)@
                }),
                None => updated == Err::<Post, Error>(Error::NotFound) && final(store)@ == old(
                    store,
                )@,
            },
            old(store).wf() ==> final(store).wf(),
    {
        match store.posts.position(self.id) {
            Some(at) => {
                store.posts.rows.set(at, self.copy());
                Ok(self.copy())
            },
            None => Err(Error::NotFound),
        }
    }

    /// Take the post out of the store, with the mentions in it.
    pub fn delete(&self, store: &mut Store) -> (done: Result<(), Error>)
        ensures
            match first_index(old(store).posts@.rows, with_key(self.id)) {
                Some(at) => done is Ok && final(store)@ == (StoreView {
                    posts: TableView {
                        rows: old(store).posts@.rows.remove(at),
                        next_id: old(store).posts.next_id,
                    },
                    mentions: TableView {
                        rows: old(store).mentions@.rows.filter(not_in_post(self.id)),
                        next_id: old(store).mentions.next_id,
                    },
                    ..old(store)@
                }),
                None => done == Err::<(), Error>(Error::NotFound) && final(store)@ == old(store)@,
            },
            old(store).wf() ==> final(store).wf(),
    {
        let at = match store.posts.position(self.id) {
            Some(at) => at,
            None => { return Err(Error::NotFound); },
        };
        let post_id = self.id;
        let keep = |mention: &Mention| -> (yes: bool)
            ensures
                yes == not_in_post(post_id)(*mention),
            {
                match mention.post_id {
                    Some(id) => id != post_id,
                    None => true,
                }
            };
        let kept = store.mentions.select(keep, Ghost(not_in_post(post_id)));
        proof {
            if store.wf() {
                crate::table::lemma_filter_numbered(
                    store.mentions@.rows,
                    not_in_post(post_id),
                    store.mentions.next_id,
                );
            }
        }
        store.mentions.rows = kept;
        store.posts.rows.remove(at);
        Ok(())
    }
}

/// The mentions that are not in a post.
pub open spec fn not_in_post(post_id: i32) -> spec_fn(Mention) -> bool {
    |mention: Mention| mention.post_id != Some(post_id)
}

} // verus!
