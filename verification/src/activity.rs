//! Activities: the messages that instances exchange, and the objects that
//! they carry.

use crate::activity_pub::{Id, Licensed, Source};
use crate::text::texts;
use vstd::prelude::*;

verus! {

/// What an activity does.
#[derive(Debug, Copy, Clone, PartialEq, Eq, Structural)]
pub enum ActivityKind {
    Create,
    Update,
    Delete,
    Follow,
    Undo,
    Like,
    Announce,
}

/// The identifiers of a list, as texts.
pub open spec fn ids(list: Seq<Id>) -> Seq<Seq<char>> {
    list.map_values(|id: Id| id@)
}

/// A reference written into an article for a mention or a tag.
#[derive(Clone, Debug, PartialEq, Eq)]
pub enum TagLink {
    /// A user who is mentioned.
    Mention { href: String, name: String },
    /// A tag.
    Hashtag { href: String, name: String },
}

/// The content of a `TagLink`.
pub enum TagLinkView {
    Mention { href: Seq<char>, name: Seq<char> },
    Hashtag { href: Seq<char>, name: Seq<char> },
}

impl View for TagLink {
    type V = TagLinkView;

    open spec fn view(&self) -> TagLinkView {
        match *self {
            TagLink::Mention { href, name } => TagLinkView::Mention { href: href@, name: name@ },
            TagLink::Hashtag { href, name } => TagLinkView::Hashtag { href: href@, name: name@ },
        }
    }
}

/// The references of a list, by their content; one that could not be made
/// stands as `None`.
pub open spec fn tag_links(list: Seq<Option<TagLink>>) -> Seq<Option<TagLinkView>> {
    list.map_values(
        |link: Option<TagLink>|
            match link {
                Some(link) => Some(link@),
                None => None,
            },
    )
}

/// The cover of an article.
#[derive(Clone, Debug, PartialEq, Eq)]
pub struct Image {
    pub url: String,
    /// The warning shown in place of a sensitive image.
    pub summary: Option<String>,
    /// The text that describes the image.
    pub content: String,
    pub attributed_to: Vec<Id>,
}

/// The content of an `Image`.
pub struct ImageView {
    pub url: Seq<char>,
    pub summary: Option<Seq<char>>,
    pub content: Seq<char>,
    pub attributed_to: Seq<Seq<char>>,
}

/// A text that may be absent, by its characters.
pub open spec fn optional_text(text: Option<String>) -> Option<Seq<char>> {
    match text {
        Some(text) => Some(text@),
        None => None,
    }
}

impl View for Image {
    type V = ImageView;

    open spec fn view(&self) -> ImageView {
        ImageView {
            url: self.url@,
            summary: optional_text(self.summary),
            content: self.content@,
            attributed_to: ids(self.attributed_to@),
        }
    }
}

/// A post, as other instances see it.
#[derive(Clone, Debug, PartialEq, Eq)]
pub struct Article {
    pub id: String,
    pub name: String,
    pub attributed_to: Vec<Id>,
    pub content: String,
    pub source: Source,
    /// Seconds since the Unix epoch.
    pub published: i64,
    pub summary: String,
    pub tag: Vec<Option<TagLink>>,
    pub icon: Option<Image>,
    pub url: String,
    pub to: Vec<Id>,
    pub cc: Vec<Id>,
}

/// The content of an `Article`.
pub struct ArticleView {
    pub id: Seq<char>,
    pub name: Seq<char>,
    pub attributed_to: Seq<Seq<char>>,
    pub content: Seq<char>,
    pub source_content: Seq<char>,
    pub source_media_type: Seq<char>,
    pub published: i64,
    pub summary: Seq<char>,
    pub tag: Seq<Option<TagLinkView>>,
    pub icon: Option<ImageView>,
    pub url: Seq<char>,
    pub to: Seq<Seq<char>>,
    pub cc: Seq<Seq<char>>,
}

impl View for Article {
    type V = ArticleView;

    open spec fn view(&self) -> ArticleView {
        ArticleView {
            id: self.id@,
            name: self.name@,
            attributed_to: ids(self.attributed_to@),
            content: self.content@,
            source_content: self.source.content@,
            source_media_type: self.source.media_type@,
            published: self.published,
            summary: self.summary@,
            tag: tag_links(self.tag@),
            icon: match self.icon {
                Some(image) => Some(image@),
                None => None,
            },
            url: self.url@,
            to: ids(self.to@),
            cc: ids(self.cc@),
        }
    }
}

/// An article with its license.
#[derive(Clone, Debug, PartialEq, Eq)]
pub struct LicensedArticle {
    pub object: Article,
    pub custom_props: Licensed,
}

/// The content of a `LicensedArticle`.
pub struct LicensedArticleView {
    pub object: ArticleView,
    pub license: Option<Seq<char>>,
}

impl View for LicensedArticle {
    type V = LicensedArticleView;

    open spec fn view(&self) -> LicensedArticleView {
        LicensedArticleView {
            object: self.object@,
            license: optional_text(self.custom_props.license),
        }
    }
}

impl LicensedArticle {
    pub fn new(object: Article, custom_props: Licensed) -> (article: LicensedArticle)
        ensures
            article.object == object,
            article.custom_props == custom_props,
    {
        LicensedArticle { object, custom_props }
    }
}

/// A comment, as other instances see it.
#[derive(Clone, Debug, PartialEq, Eq)]
pub struct Note {
    pub id: String,
    pub content: String,
    /// The post or the comment that is answered.
    pub in_reply_to: Option<Id>,
    pub attributed_to: Id,
    /// The warning shown before the content, if any.
    pub summary: String,
    pub sensitive: bool,
    pub to: Vec<Id>,
    pub cc: Vec<Id>,
}

/// The content of a `Note`.
pub struct NoteView {
    pub id: Seq<char>,
    pub content: Seq<char>,
    pub in_reply_to: Option<Seq<char>>,
    pub attributed_to: Seq<char>,
    pub summary: Seq<char>,
    pub sensitive: bool,
    pub to: Seq<Seq<char>>,
    pub cc: Seq<Seq<char>>,
}

impl View for Note {
    type V = NoteView;

    open spec fn view(&self) -> NoteView {
        NoteView {
            id: self.id@,
            content: self.content@,
            in_reply_to: match self.in_reply_to {
                Some(id) => Some(id@),
                None => None,
            },
            attributed_to: self.attributed_to@,
            summary: self.summary@,
            sensitive: self.sensitive,
            to: ids(self.to@),
            cc: ids(self.cc@),
        }
    }
}

/// An activity that is carried inside another one: a like or a reshare
/// that is undone.
#[derive(Clone, Debug, PartialEq, Eq)]
pub struct Embedded {
    pub kind: ActivityKind,
    pub id: String,
    pub actor: Id,
    pub object: Id,
    pub to: Vec<Id>,
    pub cc: Vec<Id>,
}

/// The content of an `Embedded`.
pub struct EmbeddedView {
    pub kind: ActivityKind,
    pub id: Seq<char>,
    pub actor: Seq<char>,
    pub object: Seq<char>,
    pub to: Seq<Seq<char>>,
    pub cc: Seq<Seq<char>>,
}

impl View for Embedded {
    type V = EmbeddedView;

    open spec fn view(&self) -> EmbeddedView {
        EmbeddedView {
            kind: self.kind,
            id: self.id@,
            actor: self.actor@,
            object: self.object@,
            to: ids(self.to@),
            cc: ids(self.cc@),
        }
    }
}

/// What an activity is about: a reference to something, or the thing
/// itself.
#[derive(Clone, Debug, PartialEq, Eq)]
pub enum Object {
    /// Something named by its identifier.
    Link(Id),
    Article(LicensedArticle),
    Note(Note),
    /// What is left of something deleted: its identifier.
    Tombstone(Id),
    Activity(Embedded),
}

/// The content of an `Object`.
pub enum ObjectView {
    Link(Seq<char>),
    Article(LicensedArticleView),
    Note(NoteView),
    Tombstone(Seq<char>),
    Activity(EmbeddedView),
}

impl View for Object {
    type V = ObjectView;

    open spec fn view(&self) -> ObjectView {
        match *self {
            Object::Link(id) => ObjectView::Link(id@),
            Object::Article(article) => ObjectView::Article(article@),
            Object::Note(note) => ObjectView::Note(note@),
            Object::Tombstone(id) => ObjectView::Tombstone(id@),
            Object::Activity(inner) => ObjectView::Activity(inner@),
        }
    }
}

/// A message that tells other instances of something done here, or tells
/// this instance of something done elsewhere.
#[derive(Clone, Debug, PartialEq, Eq)]
pub struct Activity {
    pub kind: ActivityKind,
    pub id: String,
    pub actor: Id,
    pub object: Object,
    pub to: Vec<Id>,
    pub cc: Vec<Id>,
}

/// The content of an `Activity`.
pub struct ActivityView {
    pub kind: ActivityKind,
    pub id: Seq<char>,
    pub actor: Seq<char>,
    pub object: ObjectView,
    pub to: Seq<Seq<char>>,
    pub cc: Seq<Seq<char>>,
}

impl View for Activity {
    type V = ActivityView;

    open spec fn view(&self) -> ActivityView {
        ActivityView {
            kind: self.kind,
            id: self.id@,
            actor: self.actor@,
            object: self.object@,
            to: ids(self.to@),
            cc: ids(self.cc@),
        }
    }
}

/// A list that holds one identifier.
pub fn one_id(text: &str) -> (list: Vec<Id>)
    ensures
        ids(list@) == seq![text@],
{
    let mut list: Vec<Id> = Vec::new();
    list.push(Id::new(String::from_str(text)));
    assert(ids(list@) =~= seq![text@]);
    list
}

/// The identifiers with the given texts.
pub fn ids_of(list: &Vec<String>) -> (made: Vec<Id>)
    ensures
        ids(made@) == texts(list@),
{
    let mut made: Vec<Id> = Vec::new();
    let mut i: usize = 0;
    while i < list.len()
        invariant
            i <= list@.len(),
            ids(made@) == texts(list@).take(i as int),
        decreases list@.len() - i,
    {
        made.push(Id::new(list[i].clone()));
        assert(ids(made@) =~= texts(list@).take(i as int).push(list@[i as int]@));
        assert(texts(list@).take(i + 1) =~= texts(list@).take(i as int).push(list@[i as int]@));
        i += 1;
    }
    assert(texts(list@).take(list@.len() as int) =~= texts(list@));
    made
}

impl Activity {
    /// The activity as something to carry inside another one. What it is
    /// about must be a reference.
    pub fn embedded(self) -> (inner: Option<Embedded>)
        ensures
            inner is Some == self.object is Link,
            inner matches Some(e) ==> e@ == (EmbeddedView {
                kind: self.kind,
                id: self.id@,
                actor: self.actor@,
                object: self.object->Link_0@,
                to: ids(self.to@),
                cc: ids(self.cc@),
            }),
    {
        match self.object {
            Object::Link(object) => Some(
                Embedded {
                    kind: self.kind,
                    id: self.id,
                    actor: self.actor,
                    object,
                    to: self.to,
                    cc: self.cc,
                },
            ),
            _ => None,
        }
    }
}

} // verus!
