//! Resolution: how what an activity refers to is found. The store is looked
//! up first; what is not stored is taken from the representations that were
//! fetched from other instances, and stored before it is used.

use crate::activity::{ids, optional_text, Image, LicensedArticle, Note, TagLink};
use crate::blogs::{Blog, NewBlog};
use crate::inbox::InboxError;
use crate::medias::Media;
use crate::post_authors::PostAuthor;
use crate::posts::Post;
use crate::store::{Store, StoreView};
use crate::table::{
    extended, first_match, grown, lemma_distinct_push, lemma_filter_step, lemma_first_match_at,
    lemma_first_match_extended, lemma_first_match_none, lemma_first_match_push,
    lemma_first_match_sound, row_at, with_address, Addressed, Row, TableView,
};
use crate::tags::{numbered, tag_views, Tag, TagView};
use crate::text::{copy_optional_text, copy_text, kebab_case, kebab_text, same_text, texts};
use crate::users::{NewUser, User};
use vstd::prelude::*;

verus! {

/// What was fetched from an address on another instance.
#[derive(Clone, Debug, PartialEq, Eq)]
pub enum Remote {
    Actor(NewUser),
    Blog(NewBlog),
    Article(LicensedArticle),
    Note(Note),
}

impl Remote {
    /// The address that the representation gives as its own.
    pub open spec fn address(self) -> Seq<char> {
        match self {
            Remote::Actor(user) => user.ap_url@,
            Remote::Blog(blog) => blog.ap_url@,
            Remote::Article(article) => article.object.id@,
            Remote::Note(note) => note.id@,
        }
    }

    /// Whether the representation gives an address as its own.
    pub fn has_address(&self, url: &str) -> (yes: bool)
        ensures
            yes == (self.address() == url@),
    {
        match self {
            Remote::Actor(user) => same_text(user.ap_url.as_str(), url),
            Remote::Blog(blog) => same_text(blog.ap_url.as_str(), url),
            Remote::Article(article) => same_text(article.object.id.as_str(), url),
            Remote::Note(note) => same_text(note.id.as_str(), url),
        }
    }
}

/// The representations that give an address as their own.
pub open spec fn remote_at(url: Seq<char>) -> spec_fn(Remote) -> bool {
    |remote: Remote| remote.address() == url
}

/// What was fetched from an address: the first representation that gives it
/// as its own.
pub open spec fn fetched_from(fetched: Seq<Remote>, url: Seq<char>) -> Option<Remote> {
    first_match(fetched, remote_at(url))
}

/// Find what was fetched from an address.
pub fn find_fetched<'a>(fetched: &'a Vec<Remote>, url: &str) -> (found: Option<&'a Remote>)
    ensures
        found is Some == fetched_from(fetched@, url@) is Some,
        found matches Some(remote) ==> fetched_from(fetched@, url@) == Some(*remote),
{
    let mut i: usize = 0;
    while i < fetched.len()
        invariant
            i <= fetched@.len(),
            forall|j: int| 0 <= j < i ==> fetched@[j].address() != url@,
        decreases fetched@.len() - i,
    {
        if fetched[i].has_address(url) {
            proof {
                lemma_first_match_at(fetched@, remote_at(url@), i as int);
            }
            return Some(&fetched[i]);
        }
        i += 1;
    }
    proof {
        lemma_first_match_none(fetched@, remote_at(url@));
    }
    None
}

/// The user that a fetched representation gives for an address.
pub open spec fn remote_user(fetched: Seq<Remote>, url: Seq<char>) -> Option<NewUser> {
    match fetched_from(fetched, url) {
        Some(Remote::Actor(user)) => Some(user),
        _ => None,
    }
}

/// The row that stores a fetched user.
pub open spec fn user_row(id: i32, new: NewUser) -> User {
    User {
        id,
        username: new.username,
        fqn: new.fqn,
        ap_url: new.ap_url,
        inbox_url: new.inbox_url,
        shared_inbox_url: new.shared_inbox_url,
        followers_endpoint: new.followers_endpoint,
        public_key: new.public_key,
        instance_id: new.instance_id,
    }
}

/// Whether the user at an address can be resolved: it is stored, or a
/// representation of it was fetched.
pub open spec fn user_known(store: StoreView, fetched: Seq<Remote>, url: Seq<char>) -> bool {
    row_at(store.users, url) is Some || remote_user(fetched, url) is Some
}

/// Whether the user at an address can be resolved.
pub fn knows_user(store: &Store, fetched: &Vec<Remote>, url: &str) -> (yes: bool)
    ensures
        yes == user_known(store@, fetched@, url@),
{
    if store.users.find(url).is_some() {
        return true;
    }
    match find_fetched(fetched, url) {
        Some(Remote::Actor(_)) => true,
        _ => false,
    }
}

/// Resolve the user at an address: the stored one, or else the fetched one,
/// which is stored first. Nothing else changes, and nothing at all on
/// failure.
pub fn resolve_user(store: &mut Store, fetched: &Vec<Remote>, url: &str) -> (resolved: Result<
    User,
    InboxError,
>)
    ensures
        match row_at(old(store)@.users, url@) {
            Some(user) => resolved == Ok::<User, InboxError>(user) && final(store)@ == old(store)@,
            None => match remote_user(fetched@, url@) {
                Some(new) => if old(store).users.next_id < i32::MAX {
                    &&& resolved == Ok::<User, InboxError>(user_row(old(store).users.next_id, new))
                    &&& final(store)@ == (StoreView {
                        users: grown(old(store)@.users, resolved->Ok_0),
                        ..old(store)@
                    })
                } else {
                    resolved == Err::<User, InboxError>(InboxError::Persistence) && final(store)@
                        == old(store)@
                },
                None => resolved == Err::<User, InboxError>(InboxError::Resolution)
                    && final(store)@ == old(store)@,
            },
        },
        resolved matches Ok(user) ==> row_at(final(store)@.users, url@) == Some(user),
        extended(old(store)@.users, final(store)@.users),
        old(store).wf() ==> final(store).wf(),
        old(store)@.addressed() ==> final(store)@.addressed(),
{
    match store.users.find(url) {
        Some(user) => { return Ok(user.copy()); },
        None => {},
    }
    let new = match find_fetched(fetched, url) {
        Some(Remote::Actor(new)) => new,
        _ => { return Err(InboxError::Resolution); },
    };
    if store.users.next_id == i32::MAX {
        return Err(InboxError::Persistence);
    }
    let user = User {
        id: store.users.next_id,
        username: copy_text(&new.username),
        fqn: copy_text(&new.fqn),
        ap_url: copy_text(&new.ap_url),
        inbox_url: copy_text(&new.inbox_url),
        shared_inbox_url: copy_optional_text(&new.shared_inbox_url),
        followers_endpoint: copy_text(&new.followers_endpoint),
        public_key: copy_text(&new.public_key),
        instance_id: new.instance_id,
    };
    let resolved = user.copy();
    proof {
        lemma_first_match_push(store.users@.rows, with_address(url@), user);
        lemma_first_match_sound(fetched@, remote_at(url@));
        if store@.addressed() {
            lemma_distinct_push(store.users@.rows, user);
        }
    }
    store.users.add(user);
    Ok(resolved)
}

/// Whether every table has room for a number of new rows.
pub open spec fn roomy(store: StoreView, extra: int) -> bool {
    &&& store.users.next_id + extra < i32::MAX
    &&& store.blogs.next_id + extra < i32::MAX
    &&& store.posts.next_id + extra < i32::MAX
    &&& store.post_authors.next_id + extra < i32::MAX
    &&& store.comments.next_id + extra < i32::MAX
    &&& store.follows.next_id + extra < i32::MAX
    &&& store.likes.next_id + extra < i32::MAX
    &&& store.reshares.next_id + extra < i32::MAX
    &&& store.tags.next_id + extra < i32::MAX
    &&& store.medias.next_id + extra < i32::MAX
}

/// Whether a table has room for a number of new rows.
fn fits(next_id: i32, extra: usize) -> (yes: bool)
    ensures
        yes == (next_id + extra < i32::MAX),
{
    (next_id as i128) + (extra as i128) < (i32::MAX as i128)
}

/// Whether every table has room for a number of new rows.
pub fn has_room(store: &Store, extra: usize) -> (yes: bool)
    ensures
        yes == roomy(store@, extra as int),
{
    fits(store.users.next_id, extra) && fits(store.blogs.next_id, extra) && fits(
        store.posts.next_id,
        extra,
    ) && fits(store.post_authors.next_id, extra) && fits(store.comments.next_id, extra) && fits(
        store.follows.next_id,
        extra,
    ) && fits(store.likes.next_id, extra) && fits(store.reshares.next_id, extra) && fits(
        store.tags.next_id,
        extra,
    ) && fits(store.medias.next_id, extra)
}

/// The blog that a fetched representation gives for an address.
pub open spec fn remote_blog(fetched: Seq<Remote>, url: Seq<char>) -> Option<NewBlog> {
    match fetched_from(fetched, url) {
        Some(Remote::Blog(blog)) => Some(blog),
        _ => None,
    }
}

/// The row that stores a fetched blog.
pub open spec fn blog_row(id: i32, new: NewBlog) -> Blog {
    Blog {
        id,
        actor_id: new.actor_id,
        title: new.title,
        fqn: new.fqn,
        ap_url: new.ap_url,
        inbox_url: new.inbox_url,
        instance_id: new.instance_id,
    }
}

/// Whether the blog at an address can be resolved: it is stored, or a
/// representation of it was fetched.
pub open spec fn blog_known(store: StoreView, fetched: Seq<Remote>, url: Seq<char>) -> bool {
    row_at(store.blogs, url) is Some || remote_blog(fetched, url) is Some
}

/// Whether the blog at an address can be resolved.
pub fn knows_blog(store: &Store, fetched: &Vec<Remote>, url: &str) -> (yes: bool)
    ensures
        yes == blog_known(store@, fetched@, url@),
{
    if store.blogs.find(url).is_some() {
        return true;
    }
    match find_fetched(fetched, url) {
        Some(Remote::Blog(_)) => true,
        _ => false,
    }
}

/// Resolve the blog at an address: the stored one, or else the fetched one,
/// which is stored first. Nothing else changes, and nothing at all on
/// failure.
pub fn resolve_blog(store: &mut Store, fetched: &Vec<Remote>, url: &str) -> (resolved: Result<
    Blog,
    InboxError,
>)
    ensures
        match row_at(old(store)@.blogs, url@) {
            Some(blog) => resolved == Ok::<Blog, InboxError>(blog) && final(store)@ == old(store)@,
            None => match remote_blog(fetched@, url@) {
                Some(new) => if old(store).blogs.next_id < i32::MAX {
                    &&& resolved == Ok::<Blog, InboxError>(blog_row(old(store).blogs.next_id, new))
                    &&& final(store)@ == (StoreView {
                        blogs: grown(old(store)@.blogs, resolved->Ok_0),
                        ..old(store)@
                    })
                } else {
                    resolved == Err::<Blog, InboxError>(InboxError::Persistence) && final(store)@
                        == old(store)@
                },
                None => resolved == Err::<Blog, InboxError>(InboxError::Resolution)
                    && final(store)@ == old(store)@,
            },
        },
        resolved matches Ok(blog) ==> row_at(final(store)@.blogs, url@) == Some(blog),
        old(store).wf() ==> final(store).wf(),
        old(store)@.addressed() ==> final(store)@.addressed(),
{
    match store.blogs.find(url) {
        Some(blog) => { return Ok(blog.copy()); },
        None => {},
    }
    let new = match find_fetched(fetched, url) {
        Some(Remote::Blog(new)) => new,
        _ => { return Err(InboxError::Resolution); },
    };
    if store.blogs.next_id == i32::MAX {
        return Err(InboxError::Persistence);
    }
    let blog = Blog {
        id: store.blogs.next_id,
        actor_id: copy_text(&new.actor_id),
        title: copy_text(&new.title),
        fqn: copy_text(&new.fqn),
        ap_url: copy_text(&new.ap_url),
        inbox_url: copy_text(&new.inbox_url),
        instance_id: new.instance_id,
    };
    let resolved = blog.copy();
    proof {
        lemma_first_match_push(store.blogs@.rows, with_address(url@), blog);
        lemma_first_match_sound(fetched@, remote_at(url@));
        if store@.addressed() {
            lemma_distinct_push(store.blogs@.rows, blog);
        }
    }
    store.blogs.add(blog);
    Ok(resolved)
}

/// A user that can be resolved can still be resolved after users were
/// added to the store.
pub proof fn lemma_stays_known(
    before: StoreView,
    fetched: Seq<Remote>,
    url: Seq<char>,
    after: StoreView,
)
    requires
        user_known(before, fetched, url),
        extended(before.users, after.users),
    ensures
        user_known(after, fetched, url),
{
    if row_at(before.users, url) is Some {
        lemma_first_match_extended(before.users.rows, after.users.rows, with_address(url));
    }
}

/// A user that was resolved is still the user at its address after users
/// were added to the store.
pub proof fn lemma_stays_resolved(before: StoreView, after: StoreView, url: Seq<char>, user: User)
    requires
        row_at(before.users, url) == Some(user),
        extended(before.users, after.users),
    ensures
        row_at(after.users, url) == Some(user),
{
    lemma_first_match_extended(before.users.rows, after.users.rows, with_address(url));
}

/// The names of the tags among the references of an article.
pub open spec fn hashtag_names(links: Seq<Option<TagLink>>) -> Seq<Seq<char>>
    decreases links.len(),
{
    if links.len() == 0 {
        Seq::empty()
    } else {
        let before = hashtag_names(links.drop_last());
        match links.last() {
            Some(TagLink::Hashtag { href, name }) => before.push(name@),
            _ => before,
        }
    }
}

/// There are no more tag names than references.
pub proof fn lemma_hashtag_names_len(links: Seq<Option<TagLink>>)
    ensures
        hashtag_names(links).len() <= links.len(),
    decreases links.len(),
{
    if links.len() > 0 {
        lemma_hashtag_names_len(links.drop_last());
    }
}

/// The names of the tags among the references of an article.
pub fn names_of_hashtags(links: &Vec<Option<TagLink>>) -> (names: Vec<String>)
    ensures
        texts(names@) == hashtag_names(links@),
{
    let mut names: Vec<String> = Vec::new();
    let mut i: usize = 0;
    assert(links@.take(0) =~= Seq::empty());
    assert(texts(names@) =~= Seq::empty());
    while i < links.len()
        invariant
            i <= links@.len(),
            texts(names@) == hashtag_names(links@.take(i as int)),
        decreases links@.len() - i,
    {
        let ghost before = texts(names@);
        assert(links@.take(i + 1).drop_last() =~= links@.take(i as int));
        assert(links@.take(i + 1).last() == links@[i as int]);
        match &links[i] {
            Some(TagLink::Hashtag { href: _, name }) => {
                names.push(copy_text(name));
                assert(texts(names@) =~= before.push(name@));
            },
            _ => {},
        }
        i += 1;
    }
    assert(links@.take(links@.len() as int) =~= links@);
    names
}

/// The addresses of blogs that can be resolved.
pub open spec fn is_known_blog(store: StoreView, fetched: Seq<Remote>) -> spec_fn(Seq<char>) -> bool {
    |url: Seq<char>| blog_known(store, fetched, url)
}

/// The addresses of users that can be resolved.
pub open spec fn is_known_user(store: StoreView, fetched: Seq<Remote>) -> spec_fn(Seq<char>) -> bool {
    |url: Seq<char>| user_known(store, fetched, url)
}

/// The blog of an article: the first of those it is attributed to that is
/// a blog that can be resolved.
pub open spec fn article_blog(store: StoreView, fetched: Seq<Remote>, article: LicensedArticle)
    -> Option<Seq<char>> {
    first_match(ids(article.object.attributed_to@), is_known_blog(store, fetched))
}

/// The authors of an article: those it is attributed to that are users who
/// can be resolved.
pub open spec fn article_authors(store: StoreView, fetched: Seq<Remote>, article: LicensedArticle)
    -> Seq<Seq<char>> {
    ids(article.object.attributed_to@).filter(is_known_user(store, fetched))
}

/// The rows that an article may bring to any one table, at most.
pub open spec fn article_needs(article: LicensedArticle) -> int {
    (1 + article.object.attributed_to@.len() + article.object.tag@.len()) as int
}

/// How a post shows the article it was made from. It is published; its
/// slug is the title in kebab case; a missing license is the empty text.
pub open spec fn post_from(post: Post, article: LicensedArticle) -> bool {
    &&& post.slug@ == kebab_text(article.object.name@)
    &&& post.title == article.object.name
    &&& post.content == article.object.content
    &&& post.published
    &&& post.license@ == match article.custom_props.license {
        Some(license) => license@,
        None => Seq::<char>::empty(),
    }
    &&& post.creation_date == article.object.published
    &&& post.ap_url == article.object.id
    &&& post.subtitle == article.object.summary
    &&& post.source == article.object.source.content
}

/// How a media file shows the cover it was made from: it is a file of
/// another instance, and sensitive if the cover came with a warning.
pub open spec fn media_from(media: Media, image: Image) -> bool {
    &&& media.file_path@ == Seq::<char>::empty()
    &&& media.alt_text == image.content
    &&& media.is_remote
    &&& optional_text(media.remote_url) == Some(image.url@)
    &&& media.sensitive == image.summary is Some
    &&& media.content_warning == image.summary
}

/// Whether the user at an address is stored under an identifier.
pub open spec fn resolved_as(users: TableView<User>, url: Seq<char>, id: i32) -> bool {
    match row_at(users, url) {
        Some(user) => user.id == id,
        None => false,
    }
}

/// The records that the authors of a post wrote it: one for each author, in
/// their order, after the records that were there.
pub open spec fn authors_recorded(
    before: TableView<PostAuthor>,
    after: TableView<PostAuthor>,
    users: TableView<User>,
    authors: Seq<Seq<char>>,
    post_id: i32,
) -> bool {
    &&& after.rows.len() == before.rows.len() + authors.len()
    &&& before.rows.is_prefix_of(after.rows)
    &&& after.next_id == before.next_id + authors.len()
    &&& forall|k: int|
        #![trigger authors[k]]
        0 <= k < authors.len() ==> {
            &&& after.rows[before.rows.len() + k].id == before.next_id + k
            &&& after.rows[before.rows.len() + k].post_id == post_id
            &&& resolved_as(users, authors[k], after.rows[before.rows.len() + k].author_id)
        }
}

/// What receiving an article does. A post that is stored under the address
/// of the article is given back. Otherwise the article must be attributed
/// to a blog and to at least one user that can be resolved, and the store
/// must have room: then the post is stored, with its blog and its authors
/// where they were fetched, a record for each author, a tag for each tag
/// named in the article, and the cover as a media file of the first author.
pub open spec fn article_received(
    before: StoreView,
    fetched: Seq<Remote>,
    article: LicensedArticle,
    after: StoreView,
    result: Result<Post, InboxError>,
) -> bool {
    match row_at(before.posts, article.object.id@) {
        Some(existing) => result == Ok::<Post, InboxError>(existing) && after == before,
        None => if !(article_blog(before, fetched, article) is Some && article_authors(
            before,
            fetched,
            article,
        ).len() > 0) {
            result == Err::<Post, InboxError>(InboxError::Resolution) && after == before
        } else if !roomy(before, article_needs(article)) {
            result == Err::<Post, InboxError>(InboxError::Persistence) && after == before
        } else {
            let authors = article_authors(before, fetched, article);
            &&& result matches Ok(post)
            &&& post.id == before.posts.next_id
            &&& post_from(post, article)
            &&& row_at(after.blogs, article_blog(before, fetched, article).unwrap()) matches Some(
                blog,
            )
            &&& blog.id == post.blog_id
            &&& extended(before.users, after.users)
            &&& after.users.next_id <= before.users.next_id + authors.len()
            &&& authors.len() <= article.object.attributed_to@.len()
            &&& extended(before.blogs, after.blogs)
            &&& after.posts == grown(before.posts, post)
            &&& row_at(after.posts, article.object.id@) == Some(post)
            &&& authors_recorded(
                before.post_authors,
                after.post_authors,
                after.users,
                authors,
                post.id,
            )
            &&& tag_views(after.tags.rows) == tag_views(before.tags.rows) + numbered(
                hashtag_names(article.object.tag@),
                post.id,
                false,
                before.tags.next_id as int,
            )
            &&& match article.object.icon {
                Some(image) => {
                    &&& post.cover_id == Some(before.medias.next_id)
                    &&& after.medias.rows.len() == before.medias.rows.len() + 1
                    &&& before.medias.rows.is_prefix_of(after.medias.rows)
                    &&& after.medias.rows.last().id == before.medias.next_id
                    &&& resolved_as(after.users, authors[0], after.medias.rows.last().owner_id)
                    &&& media_from(after.medias.rows.last(), image)
                },
                None => post.cover_id is None && after.medias == before.medias,
            }
            &&& after == (StoreView {
                users: after.users,
                blogs: after.blogs,
                posts: after.posts,
                post_authors: after.post_authors,
                tags: after.tags,
                medias: after.medias,
                ..before
            })
        },
    }
}

/// Find the blog of an article.
fn find_article_blog(store: &Store, fetched: &Vec<Remote>, article: &LicensedArticle) -> (found:
    Option<usize>)
    ensures
        found is Some == article_blog(store@, fetched@, *article) is Some,
        found matches Some(at) ==> at < article.object.attributed_to@.len() && article_blog(
            store@,
            fetched@,
            *article,
        ) == Some(article.object.attributed_to@[at as int]@),
{
    let list = &article.object.attributed_to;
    let mut i: usize = 0;
    while i < list.len()
        invariant
            i <= list@.len(),
            list@ == article.object.attributed_to@,
            forall|j: int| 0 <= j < i ==> !blog_known(store@, fetched@, ids(list@)[j]),
        decreases list@.len() - i,
    {
        if knows_blog(store, fetched, list[i].as_str()) {
            proof {
                lemma_first_match_at(ids(list@), is_known_blog(store@, fetched@), i as int);
            }
            return Some(i);
        }
        i += 1;
    }
    proof {
        lemma_first_match_none(ids(list@), is_known_blog(store@, fetched@));
    }
    None
}

/// Find the authors of an article.
fn find_article_authors(store: &Store, fetched: &Vec<Remote>, article: &LicensedArticle) -> (found:
    Vec<String>)
    ensures
        texts(found@) == article_authors(store@, fetched@, *article),
        found@.len() <= article.object.attributed_to@.len(),
{
    let list = &article.object.attributed_to;
    let mut found: Vec<String> = Vec::new();
    let mut i: usize = 0;
    proof {
        reveal(Seq::filter);
        assert(ids(list@).take(0) =~= Seq::empty());
        assert(texts(found@) =~= Seq::empty());
    }
    while i < list.len()
        invariant
            i <= list@.len(),
            list@ == article.object.attributed_to@,
            found@.len() <= i,
            texts(found@) == ids(list@).take(i as int).filter(is_known_user(store@, fetched@)),
        decreases list@.len() - i,
    {
        let ghost before = texts(found@);
        proof {
            lemma_filter_step(
                ids(list@),
                is_known_user(store@, fetched@),
                i as int,
            );
        }
        if knows_user(store, fetched, list[i].as_str()) {
            found.push(copy_text(&list[i].0));
            assert(texts(found@) =~= before.push(list@[i as int]@));
        }
        i += 1;
    }
    assert(ids(list@).take(list@.len() as int) =~= ids(list@));
    found
}

/// Receive an article: store the post that it shows, unless a post is
/// stored under its address already.
pub fn receive_article(store: &mut Store, fetched: &Vec<Remote>, article: &LicensedArticle) -> (result:
    Result<Post, InboxError>)
    ensures
        article_received(old(store)@, fetched@, *article, final(store)@, result),
        old(store).wf() ==> final(store).wf(),
        old(store)@.addressed() ==> final(store)@.addressed(),
{
    match store.posts.find(article.object.id.as_str()) {
        Some(existing) => { return Ok(existing.copy()); },
        None => {},
    }
    let blog_at = match find_article_blog(store, fetched, article) {
        Some(at) => at,
        None => { return Err(InboxError::Resolution); },
    };
    let authors = find_article_authors(store, fetched, article);
    if authors.len() == 0 {
        return Err(InboxError::Resolution);
    }
    let needs = match (1usize).checked_add(article.object.attributed_to.len()) {
        Some(sum) => match sum.checked_add(article.object.tag.len()) {
            Some(needs) => needs,
            None => { return Err(InboxError::Persistence); },
        },
        None => { return Err(InboxError::Persistence); },
    };
    if !has_room(store, needs) {
        return Err(InboxError::Persistence);
    }
    let names = names_of_hashtags(&article.object.tag);
    proof {
        lemma_hashtag_names_len(article.object.tag@);
    }
    let ghost before = store@;
    let ghost blog_url = article.object.attributed_to@[blog_at as int]@;
    let ghost author_urls = texts(authors@);
    proof {
        assert forall|j: int| 0 <= j < author_urls.len() implies user_known(
            before,
            fetched@,
            #[trigger] author_urls[j],
        ) by {
            let all = ids(article.object.attributed_to@);
            let known = is_known_user(before, fetched@);
            all.lemma_filter_contains_rev(known, author_urls[j]);
        }
        lemma_first_match_sound(
            ids(article.object.attributed_to@),
            is_known_blog(before, fetched@),
        );
    }
    let blog = match resolve_blog(store, fetched, article.object.attributed_to[blog_at].as_str()) {
        Ok(blog) => blog,
        Err(error) => {
            // Not reached: what makes this fail was ruled out above.
            assert(false);
            return Err(error);
        },
    };
    let author_ids = resolve_authors(store, fetched, &authors, Ghost(before));
    let ghost settled = store@;
    let cover_id = match &article.object.icon {
        Some(image) => {
            let media = Media {
                id: store.medias.next_id,
                file_path: String::new(),
                alt_text: copy_text(&image.content),
                is_remote: true,
                remote_url: Some(copy_text(&image.url)),
                sensitive: image.summary.is_some(),
                content_warning: copy_optional_text(&image.summary),
                owner_id: author_ids[0],
            };
            let id = media.id;
            store.medias.add(media);
            Some(id)
        },
        None => None,
    };
    let license = match &article.custom_props.license {
        Some(license) => copy_text(license),
        None => String::new(),
    };
    let post = Post {
        id: store.posts.next_id,
        blog_id: blog.id,
        slug: kebab_case(article.object.name.as_str()),
        title: copy_text(&article.object.name),
        content: copy_text(&article.object.content),
        published: true,
        license,
        creation_date: article.object.published,
        ap_url: copy_text(&article.object.id),
        subtitle: copy_text(&article.object.summary),
        source: copy_text(&article.object.source.content),
        cover_id,
    };
    let stored = post.copy();
    proof {
        lemma_first_match_push(store.posts@.rows, with_address(article.object.id@), post);
        if old(store)@.addressed() {
            lemma_distinct_push(store.posts@.rows, post);
        }
    }
    store.posts.add(post);
    record_authors(store, stored.id, &author_ids, Ghost(author_urls));
    add_tags(store, stored.id, &names);
    Ok(stored)
}

/// Resolve the authors of an article, in their order.
fn resolve_authors(
    store: &mut Store,
    fetched: &Vec<Remote>,
    authors: &Vec<String>,
    Ghost(before): Ghost<StoreView>,
) -> (author_ids: Vec<i32>)
    requires
        extended(before.users, old(store)@.users),
        old(store)@.users.next_id == before.users.next_id,
        before.users.next_id + authors@.len() < i32::MAX,
        forall|j: int|
            0 <= j < authors@.len() ==> user_known(before, fetched@, #[trigger] texts(authors@)[j]),
    ensures
        author_ids@.len() == authors@.len(),
        extended(old(store)@.users, final(store)@.users),
        final(store)@.users.next_id <= before.users.next_id + authors@.len(),
        forall|j: int|
            0 <= j < authors@.len() ==> resolved_as(
                final(store)@.users,
                #[trigger] texts(authors@)[j],
                author_ids@[j],
            ),
        final(store)@ == (StoreView { users: final(store)@.users, ..old(store)@ }),
        old(store).wf() ==> final(store).wf(),
        old(store)@.addressed() ==> final(store)@.addressed(),
{
    let mut author_ids: Vec<i32> = Vec::new();
    let mut k: usize = 0;
    while k < authors.len()
        invariant
            k <= authors@.len(),
            author_ids@.len() == k,
            before.users.next_id + authors@.len() < i32::MAX,
            extended(before.users, store@.users),
            extended(old(store)@.users, store@.users),
            store@.users.next_id <= before.users.next_id + k,
            forall|j: int|
                0 <= j < authors@.len() ==> user_known(
                    before,
                    fetched@,
                    #[trigger] texts(authors@)[j],
                ),
            forall|j: int|
                0 <= j < k ==> resolved_as(
                    store@.users,
                    #[trigger] texts(authors@)[j],
                    author_ids@[j],
                ),
            store@ == (StoreView { users: store@.users, ..old(store)@ }),
            old(store).wf() ==> store.wf(),
            old(store)@.addressed() ==> store@.addressed(),
        decreases authors@.len() - k,
    {
        let ghost middle = store@;
        let ghost url = texts(authors@)[k as int];
        proof {
            lemma_stays_known(before, fetched@, url, middle);
        }
        let author = match resolve_user(store, fetched, authors[k].as_str()) {
            Ok(author) => author,
            Err(error) => {
                // Not reached: what makes this fail was ruled out above.
                assert(false);
                return author_ids;
            },
        };
        author_ids.push(author.id);
        proof {
            assert forall|j: int| 0 <= j < k + 1 implies resolved_as(
                store@.users,
                #[trigger] texts(authors@)[j],
                author_ids@[j],
            ) by {
                if j < k {
                    let found = row_at(middle.users, texts(authors@)[j]).unwrap();
                    lemma_stays_resolved(middle, store@, texts(authors@)[j], found);
                }
            }
        }
        k += 1;
    }
    author_ids
}

/// Record the authors of a post.
fn record_authors(
    store: &mut Store,
    post_id: i32,
    author_ids: &Vec<i32>,
    Ghost(urls): Ghost<Seq<Seq<char>>>,
)
    requires
        old(store)@.post_authors.next_id + author_ids@.len() < i32::MAX,
        urls.len() == author_ids@.len(),
        forall|j: int|
            0 <= j < urls.len() ==> resolved_as(old(store)@.users, #[trigger] urls[j], author_ids@[j]),
    ensures
        authors_recorded(
            old(store)@.post_authors,
            final(store)@.post_authors,
            final(store)@.users,
            urls,
            post_id,
        ),
        final(store)@ == (StoreView { post_authors: final(store)@.post_authors, ..old(store)@ }),
        old(store).wf() ==> final(store).wf(),
        old(store)@.addressed() ==> final(store)@.addressed(),
{
    let ghost start = store@.post_authors;
    let mut a: usize = 0;
    while a < author_ids.len()
        invariant
            a <= author_ids@.len(),
            start == old(store)@.post_authors,
            start.next_id + author_ids@.len() < i32::MAX,
            store@.post_authors.next_id == start.next_id + a,
            store@.post_authors.rows.len() == start.rows.len() + a,
            start.rows.is_prefix_of(store@.post_authors.rows),
            forall|j: int|
                0 <= j < a ==> {
                    &&& (#[trigger] store@.post_authors.rows[start.rows.len() + j]).id
                        == start.next_id + j
                    &&& store@.post_authors.rows[start.rows.len() + j].post_id == post_id
                    &&& store@.post_authors.rows[start.rows.len() + j].author_id == author_ids@[j]
                },
            store@ == (StoreView { post_authors: store@.post_authors, ..old(store)@ }),
            old(store).wf() ==> store.wf(),
            old(store)@.addressed() ==> store@.addressed(),
        decreases author_ids@.len() - a,
    {
        let link = PostAuthor { id: store.post_authors.next_id, post_id, author_id: author_ids[a] };
        store.post_authors.add(link);
        a += 1;
    }
}

/// Add tags to a post, one for each name.
fn add_tags(store: &mut Store, post_id: i32, names: &Vec<String>)
    requires
        old(store)@.tags.next_id + names@.len() < i32::MAX,
    ensures
        tag_views(final(store)@.tags.rows) == tag_views(old(store)@.tags.rows) + numbered(
            texts(names@),
            post_id,
            false,
            old(store)@.tags.next_id as int,
        ),
        final(store)@.tags.next_id == old(store)@.tags.next_id + names@.len(),
        final(store)@ == (StoreView { tags: final(store)@.tags, ..old(store)@ }),
        old(store).wf() ==> final(store).wf(),
        old(store)@.addressed() ==> final(store)@.addressed(),
{
    let ghost base = tag_views(store.tags@.rows);
    let ghost first = store.tags.next_id as int;
    let ghost wanted = texts(names@);
    let mut t: usize = 0;
    assert(numbered(wanted.take(0), post_id, false, first) =~= Seq::empty());
    assert(base + Seq::<TagView>::empty() =~= base);
    while t < names.len()
        invariant
            t <= names@.len(),
            wanted == texts(names@),
            first + names@.len() < i32::MAX,
            store.tags.next_id == first + t,
            tag_views(store.tags@.rows) == base + numbered(
                wanted.take(t as int),
                post_id,
                false,
                first,
            ),
            store@ == (StoreView { tags: store@.tags, ..old(store)@ }),
            old(store).wf() ==> store.wf(),
            old(store)@.addressed() ==> store@.addressed(),
        decreases names@.len() - t,
    {
        let ghost so_far = tag_views(store.tags@.rows);
        let tag = Tag { id: store.tags.next_id, tag: copy_text(&names[t]), is_hashtag: false, post_id };
        let ghost view = tag@;
        store.tags.add(tag);
        proof {
            assert(tag_views(store.tags@.rows) =~= so_far.push(view));
            assert(numbered(wanted.take(t + 1), post_id, false, first) =~= numbered(
                wanted.take(t as int),
                post_id,
                false,
                first,
            ).push(view));
        }
        t += 1;
    }
    assert(wanted.take(names@.len() as int) =~= wanted);
}

/// The article that a fetched representation gives for an address.
pub open spec fn remote_article(fetched: Seq<Remote>, url: Seq<char>) -> Option<LicensedArticle> {
    match fetched_from(fetched, url) {
        Some(Remote::Article(article)) => Some(article),
        _ => None,
    }
}

/// Whether an article can be taken up as a post: it is attributed to a blog
/// and to at least one user that can be resolved.
pub open spec fn acceptable(store: StoreView, fetched: Seq<Remote>, article: LicensedArticle)
    -> bool {
    article_blog(store, fetched, article) is Some && article_authors(store, fetched, article).len()
        > 0
}

/// Whether the post at an address can be resolved: it is stored, or an
/// article that can be taken up was fetched from the address.
pub open spec fn post_known(store: StoreView, fetched: Seq<Remote>, url: Seq<char>) -> bool {
    row_at(store.posts, url) is Some || match remote_article(fetched, url) {
        Some(article) => acceptable(store, fetched, article),
        None => false,
    }
}

/// The rows that resolving a post may bring to any one table, at most.
pub open spec fn post_needs(store: StoreView, fetched: Seq<Remote>, url: Seq<char>) -> int {
    if row_at(store.posts, url) is Some {
        0
    } else {
        match remote_article(fetched, url) {
            Some(article) => article_needs(article),
            None => 0,
        }
    }
}

/// What resolving a post does: a stored post is given back; an article
/// fetched from the address is received; anything else fails.
pub open spec fn post_resolved(
    before: StoreView,
    fetched: Seq<Remote>,
    url: Seq<char>,
    after: StoreView,
    result: Result<Post, InboxError>,
) -> bool {
    match row_at(before.posts, url) {
        Some(post) => result == Ok::<Post, InboxError>(post) && after == before,
        None => match remote_article(fetched, url) {
            Some(article) => article_received(before, fetched, article, after, result),
            None => result == Err::<Post, InboxError>(InboxError::Resolution) && after == before,
        },
    }
}

/// Whether the post at an address can be resolved, and how many rows that
/// may bring to any one table.
pub fn knows_post(store: &Store, fetched: &Vec<Remote>, url: &str) -> (found: Option<usize>)
    ensures
        found is Some ==> post_known(store@, fetched@, url@),
        found matches Some(needs) ==> needs == post_needs(store@, fetched@, url@),
        found is None ==> !post_known(store@, fetched@, url@) || post_needs(
            store@,
            fetched@,
            url@,
        ) > usize::MAX,
{
    if store.posts.find(url).is_some() {
        return Some(0);
    }
    let article = match find_fetched(fetched, url) {
        Some(Remote::Article(article)) => article,
        _ => { return None; },
    };
    if find_article_blog(store, fetched, article).is_none() {
        return None;
    }
    if find_article_authors(store, fetched, article).len() == 0 {
        return None;
    }
    match (1usize).checked_add(article.object.attributed_to.len()) {
        Some(sum) => sum.checked_add(article.object.tag.len()),
        None => None,
    }
}

/// Resolve the post at an address: the stored one, or else the one that an
/// article fetched from the address shows, which is stored first.
pub fn resolve_post(store: &mut Store, fetched: &Vec<Remote>, url: &str) -> (resolved: Result<
    Post,
    InboxError,
>)
    ensures
        post_resolved(old(store)@, fetched@, url@, final(store)@, resolved),
        old(store).wf() ==> final(store).wf(),
        old(store)@.addressed() ==> final(store)@.addressed(),
{
    match store.posts.find(url) {
        Some(post) => { return Ok(post.copy()); },
        None => {},
    }
    match find_fetched(fetched, url) {
        Some(Remote::Article(article)) => {
            proof {
                lemma_first_match_sound(fetched@, remote_at(url@));
            }
            receive_article(store, fetched, article)
        },
        _ => Err(InboxError::Resolution),
    }
}

/// Whether the user and the post of an activity are both stored.
pub open spec fn pair_stored(store: StoreView, actor: Seq<char>, target: Seq<char>) -> bool {
    row_at(store.users, actor) is Some && row_at(store.posts, target) is Some
}

/// What resolving the user and the post of an activity does. Both must be
/// resolved. Where both are stored, they are given back and nothing
/// changes. Otherwise the store must have room for what they bring and for
/// two rows more; on failure nothing changes.
pub open spec fn pair_resolved(
    before: StoreView,
    fetched: Seq<Remote>,
    actor: Seq<char>,
    target: Seq<char>,
    after: StoreView,
    result: Result<(User, Post), InboxError>,
) -> bool {
    if !(user_known(before, fetched, actor) && post_known(before, fetched, target)) {
        result == Err::<(User, Post), InboxError>(InboxError::Resolution) && after == before
    } else if pair_stored(before, actor, target) {
        &&& result matches Ok(pair)
        &&& row_at(before.users, actor) == Some(pair.0)
        &&& row_at(before.posts, target) == Some(pair.1)
        &&& after == before
    } else if !roomy(before, 2 + post_needs(before, fetched, target)) {
        result == Err::<(User, Post), InboxError>(InboxError::Persistence) && after == before
    } else {
        &&& result matches Ok(pair)
        &&& row_at(after.users, actor) == Some(pair.0)
        &&& row_at(after.posts, target) == Some(pair.1)
        &&& extended(before.users, after.users)
        &&& extended(before.posts, after.posts)
        &&& after.users.next_id <= before.users.next_id + 1 + post_needs(before, fetched, target)
        &&& after == (StoreView {
            users: after.users,
            blogs: after.blogs,
            posts: after.posts,
            post_authors: after.post_authors,
            tags: after.tags,
            medias: after.medias,
            ..before
        })
        &&& row_at(before.posts, target) is Some ==> after == (StoreView {
            users: after.users,
            ..before
        })
    }
}

/// Resolve the user and the post of an activity.
pub fn resolve_pair(store: &mut Store, fetched: &Vec<Remote>, actor: &str, target: &str) -> (result:
    Result<(User, Post), InboxError>)
    ensures
        pair_resolved(old(store)@, fetched@, actor@, target@, final(store)@, result),
        old(store).wf() ==> final(store).wf(),
        old(store)@.addressed() ==> final(store)@.addressed(),
{
    if !knows_user(store, fetched, actor) {
        return Err(InboxError::Resolution);
    }
    match (store.users.find(actor), store.posts.find(target)) {
        (Some(user), Some(post)) => { return Ok((user.copy(), post.copy())); },
        _ => {},
    }
    let needs = match knows_post(store, fetched, target) {
        Some(needs) => needs,
        None => {
            if post_is_known(store, fetched, target) {
                return Err(InboxError::Persistence);
            }
            return Err(InboxError::Resolution);
        },
    };
    let total = match needs.checked_add(2) {
        Some(total) => total,
        None => { return Err(InboxError::Persistence); },
    };
    if !has_room(store, total) {
        return Err(InboxError::Persistence);
    }
    let ghost before = store@;
    proof {
        lemma_first_match_sound(fetched@, remote_at(target@));
    }
    let post = match resolve_post(store, fetched, target) {
        Ok(post) => post,
        Err(error) => {
            // Not reached: what makes this fail was ruled out above.
            assert(false);
            return Err(error);
        },
    };
    let ghost middle = store@;
    proof {
        lemma_stays_known(before, fetched@, actor@, middle);
    }
    let user = match resolve_user(store, fetched, actor) {
        Ok(user) => user,
        Err(error) => {
            // Not reached: what makes this fail was ruled out above.
            assert(false);
            return Err(error);
        },
    };
    Ok((user, post))
}

/// Whether the post at an address can be resolved.
fn post_is_known(store: &Store, fetched: &Vec<Remote>, url: &str) -> (yes: bool)
    ensures
        yes == post_known(store@, fetched@, url@),
{
    if store.posts.find(url).is_some() {
        return true;
    }
    let article = match find_fetched(fetched, url) {
        Some(Remote::Article(article)) => article,
        _ => { return false; },
    };
    find_article_blog(store, fetched, article).is_some() && find_article_authors(
        store,
        fetched,
        article,
    ).len() > 0
}

} // verus!
