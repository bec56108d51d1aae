//! Activities on the wire: how an activity is written as a JSON document,
//! and how a JSON document is read as an activity.

use crate::activity::{
    ids, optional_text, tag_links, Activity, ActivityKind, ActivityView, Article, ArticleView,
    Embedded, EmbeddedView, Image, ImageView, LicensedArticle, LicensedArticleView, Note,
    NoteView, Object, ObjectView, TagLink, TagLinkView,
};
use crate::activity_pub::{Id, Licensed, Source};
use crate::json::{
    array_value, as_bool, as_text, bool_value, items, json_array, json_bool, json_items,
    json_member, json_object, json_of_bool, json_optional, json_str, json_string, member,
    object_of, optional_value, pair_views, string_value,
};
use crate::text::{copy_text, same_text, texts};
use crate::time::{parse_rfc3339, rfc3339_instant, rfc3339_text, write_rfc3339};
use serde_json::Value;
use vstd::prelude::*;

verus! {

/// The name of a kind of activity.
pub open spec fn kind_name(kind: ActivityKind) -> Seq<char> {
    match kind {
        ActivityKind::Create => "Create"@,
        ActivityKind::Update => "Update"@,
        ActivityKind::Delete => "Delete"@,
        ActivityKind::Follow => "Follow"@,
        ActivityKind::Undo => "Undo"@,
        ActivityKind::Like => "Like"@,
        ActivityKind::Announce => "Announce"@,
    }
}

/// The name of a kind of activity names that kind, and no kind is named as
/// an article, a note or a tombstone is.
pub proof fn lemma_kind_named(kind: ActivityKind)
    ensures
        kind_named(kind_name(kind)) == Some(kind),
        kind_name(kind) != "Article"@,
        kind_name(kind) != "Note"@,
        kind_name(kind) != "Tombstone"@,
{
    reveal_strlit("Create");
    reveal_strlit("Update");
    reveal_strlit("Delete");
    reveal_strlit("Follow");
    reveal_strlit("Undo");
    reveal_strlit("Like");
    reveal_strlit("Announce");
    reveal_strlit("Article");
    reveal_strlit("Note");
    reveal_strlit("Tombstone");
    assert(mark("Create"@) == (6nat, 'C'));
    assert(mark("Update"@) == (6nat, 'U'));
    assert(mark("Delete"@) == (6nat, 'D'));
    assert(mark("Follow"@) == (6nat, 'F'));
    assert(mark("Undo"@) == (4nat, 'U'));
    assert(mark("Like"@) == (4nat, 'L'));
    assert(mark("Announce"@) == (8nat, 'A'));
    assert(mark("Article"@) == (7nat, 'A'));
    assert(mark("Note"@) == (4nat, 'N'));
    assert(mark("Tombstone"@) == (9nat, 'T'));
}

/// The name of a kind of activity.
pub fn name_of(kind: ActivityKind) -> (name: &'static str)
    ensures
        name@ == kind_name(kind),
{
    match kind {
        ActivityKind::Create => "Create",
        ActivityKind::Update => "Update",
        ActivityKind::Delete => "Delete",
        ActivityKind::Follow => "Follow",
        ActivityKind::Undo => "Undo",
        ActivityKind::Like => "Like",
        ActivityKind::Announce => "Announce",
    }
}

/// A member that holds a text.
pub open spec fn text_field(key: Seq<char>, text: Seq<char>) -> (Seq<char>, Value) {
    (key, json_string(text))
}

/// A member that holds a text if there is one, and `null` else.
pub open spec fn optional_field(key: Seq<char>, text: Option<Seq<char>>) -> (Seq<char>, Value) {
    (
        key,
        json_optional(
            match text {
                Some(text) => Some(json_string(text)),
                None => None,
            },
        ),
    )
}

/// The JSON strings of some texts.
pub open spec fn strings(list: Seq<Seq<char>>) -> Seq<Value> {
    list.map_values(|text: Seq<char>| json_string(text))
}

/// A member that holds a list of texts.
pub open spec fn list_field(key: Seq<char>, list: Seq<Seq<char>>) -> (Seq<char>, Value) {
    (key, json_array(strings(list)))
}

/// The document of an activity that is carried inside another.
pub open spec fn embedded_json(inner: EmbeddedView) -> Value {
    json_object(
        seq![
            text_field("type"@, kind_name(inner.kind)),
            text_field("id"@, inner.id),
            text_field("actor"@, inner.actor),
            text_field("object"@, inner.object),
            list_field("to"@, inner.to),
            list_field("cc"@, inner.cc),
        ],
    )
}

/// The document of what is left of something deleted.
pub open spec fn tombstone_json(address: Seq<char>) -> Value {
    json_object(seq![text_field("type"@, "Tombstone"@), text_field("id"@, address)])
}

/// The document of a note.
pub open spec fn note_json(note: NoteView) -> Value {
    json_object(
        seq![
            text_field("type"@, "Note"@),
            text_field("id"@, note.id),
            text_field("content"@, note.content),
            optional_field("inReplyTo"@, note.in_reply_to),
            text_field("attributedTo"@, note.attributed_to),
            text_field("summary"@, note.summary),
            ("sensitive"@, json_of_bool(note.sensitive)),
            list_field("to"@, note.to),
            list_field("cc"@, note.cc),
        ],
    )
}

/// The document of a reference in an article: `null` for one that could
/// not be made.
pub open spec fn tag_json(link: Option<TagLinkView>) -> Value {
    json_optional(
        match link {
            Some(TagLinkView::Mention { href, name }) => Some(
                json_object(
                    seq![
                        text_field("type"@, "Mention"@),
                        text_field("href"@, href),
                        text_field("name"@, name),
                    ],
                ),
            ),
            Some(TagLinkView::Hashtag { href, name }) => Some(
                json_object(
                    seq![
                        text_field("type"@, "Hashtag"@),
                        text_field("href"@, href),
                        text_field("name"@, name),
                    ],
                ),
            ),
            None => None,
        },
    )
}

/// The documents of the references in an article.
pub open spec fn tags_json(links: Seq<Option<TagLinkView>>) -> Seq<Value> {
    links.map_values(|link: Option<TagLinkView>| tag_json(link))
}

/// The document of a cover.
pub open spec fn image_json(image: ImageView) -> Value {
    json_object(
        seq![
            text_field("type"@, "Image"@),
            text_field("url"@, image.url),
            optional_field("summary"@, image.summary),
            text_field("content"@, image.content),
            list_field("attributedTo"@, image.attributed_to),
        ],
    )
}

/// The members of the document of an article with its license. The date
/// of publication is written as an RFC 3339 text.
pub open spec fn article_fields(article: LicensedArticleView) -> Seq<(Seq<char>, Value)> {
    seq![
        text_field("type"@, "Article"@),
        text_field("id"@, article.object.id),
        text_field("name"@, article.object.name),
        list_field("attributedTo"@, article.object.attributed_to),
        text_field("content"@, article.object.content),
        (
            "source"@,
            json_object(
                seq![
                    text_field("content"@, article.object.source_content),
                    text_field("mediaType"@, article.object.source_media_type),
                ],
            ),
        ),
        optional_field("published"@, rfc3339_text(article.object.published)),
        text_field("summary"@, article.object.summary),
        ("tag"@, json_array(tags_json(article.object.tag))),
        (
            "icon"@,
            json_optional(
                match article.object.icon {
                    Some(image) => Some(image_json(image)),
                    None => None,
                },
            ),
        ),
        text_field("url"@, article.object.url),
        list_field("to"@, article.object.to),
        list_field("cc"@, article.object.cc),
        optional_field("license"@, article.license),
    ]
}

/// The document of an article with its license.
pub open spec fn article_json(article: LicensedArticleView) -> Value {
    json_object(article_fields(article))
}

/// The document of what an activity is about: a reference is written as
/// its text.
pub open spec fn object_json(object: ObjectView) -> Value {
    match object {
        ObjectView::Link(address) => json_string(address),
        ObjectView::Article(article) => article_json(article),
        ObjectView::Note(note) => note_json(note),
        ObjectView::Tombstone(address) => tombstone_json(address),
        ObjectView::Activity(inner) => embedded_json(inner),
    }
}

/// The document of an activity.
pub open spec fn activity_json(activity: ActivityView) -> Value {
    json_object(
        seq![
            text_field("type"@, kind_name(activity.kind)),
            text_field("id"@, activity.id),
            text_field("actor"@, activity.actor),
            ("object"@, object_json(activity.object)),
            list_field("to"@, activity.to),
            list_field("cc"@, activity.cc),
        ],
    )
}

/// What tells the keys of a document apart: the length of a key and its
/// first character.
pub open spec fn mark(key: Seq<char>) -> (nat, char) {
    (key.len(), key[0])
}

/// Whether every key of a list of members occurs in it once.
pub open spec fn keyed_once(pairs: Seq<(String, Value)>) -> bool {
    forall|i: int, j: int|
        0 <= i < pairs.len() && 0 <= j < pairs.len() && i != j ==> pairs[i].0@ != pairs[j].0@
}

fn text_pair(key: &str, text: &str) -> (pair: (String, Value))
    ensures
        (pair.0@, pair.1) == text_field(key@, text@),
        json_str(pair.1) == Some(text@),
        json_items(pair.1) is None,
{
    (String::from_str(key), string_value(text))
}

fn optional_pair(key: &str, text: &Option<String>) -> (pair: (String, Value))
    ensures
        (pair.0@, pair.1) == optional_field(key@, optional_text(*text)),
        json_str(pair.1) == optional_text(*text),
        reference(pair.1) == optional_text(*text),
{
    let inner = match text {
        Some(text) => Some(string_value(text.as_str())),
        None => None,
    };
    let value = optional_value(inner);
    assert(inner is None ==> json_member(value, "id"@) is None);
    (String::from_str(key), value)
}

fn list_pair(key: &str, list: &Vec<Id>) -> (pair: (String, Value))
    ensures
        (pair.0@, pair.1) == list_field(key@, ids(list@)),
        json_items(pair.1) matches Some(values) && references(values) == ids(list@),
{
    let mut values: Vec<Value> = Vec::new();
    let mut i: usize = 0;
    assert(ids(list@).take(0) =~= references(values@));
    while i < list.len()
        invariant
            i <= list@.len(),
            values@ == strings(ids(list@)).take(i as int),
            references(values@) == ids(list@).take(i as int),
        decreases list@.len() - i,
    {
        let ghost before = values@;
        values.push(string_value(list[i].as_str()));
        assert(values@.drop_last() =~= before);
        assert(ids(list@).take(i + 1) =~= ids(list@).take(i as int).push(list@[i as int]@));
        assert(values@ =~= strings(ids(list@)).take(i as int).push(json_string(list@[i as int]@)));
        assert(strings(ids(list@)).take(i + 1) =~= strings(ids(list@)).take(i as int).push(
            json_string(list@[i as int]@),
        ));
        i += 1;
    }
    assert(strings(ids(list@)).take(list@.len() as int) =~= strings(ids(list@)));
    assert(ids(list@).take(list@.len() as int) =~= ids(list@));
    (String::from_str(key), array_value(values))
}

impl Embedded {
    /// The activity as a JSON document. Read again, the document gives the
    /// activity.
    pub fn to_json(&self) -> (value: Value)
        ensures
            value == embedded_json(self@),
            read_embedded(value) == Some(self@),
            json_str(value) is None,
            text_of(value, "type"@) == Some(kind_name(self.kind)),
    {
        proof {
            reveal_strlit("type");
            reveal_strlit("id");
            reveal_strlit("actor");
            reveal_strlit("object");
            reveal_strlit("to");
            reveal_strlit("cc");
            lemma_kind_named(self.kind);
        }
        let mut pairs: Vec<(String, Value)> = Vec::new();
        pairs.push(text_pair("type", name_of(self.kind)));
        pairs.push(text_pair("id", self.id.as_str()));
        pairs.push(text_pair("actor", self.actor.as_str()));
        pairs.push(text_pair("object", self.object.as_str()));
        pairs.push(list_pair("to", &self.to));
        pairs.push(list_pair("cc", &self.cc));
        assert(pair_views(pairs@) =~= seq![
            text_field("type"@, kind_name(self.kind)),
            text_field("id"@, self.id@),
            text_field("actor"@, self.actor@),
            text_field("object"@, self.object@),
            list_field("to"@, ids(self.to@)),
            list_field("cc"@, ids(self.cc@)),
        ]);
        assert(keyed_once(pairs@)) by {
            assert(mark(pairs@[0].0@) == (4nat, 't'));
            assert(mark(pairs@[1].0@) == (2nat, 'i'));
            assert(mark(pairs@[2].0@) == (5nat, 'a'));
            assert(mark(pairs@[3].0@) == (6nat, 'o'));
            assert(mark(pairs@[4].0@) == (2nat, 't'));
            assert(mark(pairs@[5].0@) == (2nat, 'c'));
        }
        let ghost members = pairs@;
        let value = object_of(pairs);
        proof {
            assert(json_member(value, members[0].0@) == Some(members[0].1));
            assert(json_member(value, members[1].0@) == Some(members[1].1));
            assert(json_member(value, members[2].0@) == Some(members[2].1));
            assert(json_member(value, members[3].0@) == Some(members[3].1));
            assert(json_member(value, members[4].0@) == Some(members[4].1));
            assert(json_member(value, members[5].0@) == Some(members[5].1));
        }
        value
    }
}

/// The JSON document of what is left of something deleted. Read again as
/// what an activity is about, the document gives the same.
pub fn tombstone_to_json(address: &Id) -> (value: Value)
    ensures
        value == tombstone_json(address@),
        read_object(value) == Some(ObjectView::Tombstone(address@)),
{
    proof {
        reveal_strlit("type");
        reveal_strlit("id");
        reveal_strlit("Tombstone");
        reveal_strlit("Article");
        reveal_strlit("Note");
    }
    let mut pairs: Vec<(String, Value)> = Vec::new();
    pairs.push(text_pair("type", "Tombstone"));
    pairs.push(text_pair("id", address.as_str()));
    assert(pair_views(pairs@) =~= seq![
        text_field("type"@, "Tombstone"@),
        text_field("id"@, address@),
    ]);
    assert(keyed_once(pairs@)) by {
        assert(mark(pairs@[0].0@) == (4nat, 't'));
        assert(mark(pairs@[1].0@) == (2nat, 'i'));
    }
    let ghost members = pairs@;
    let value = object_of(pairs);
    proof {
        assert(json_member(value, members[0].0@) == Some(members[0].1));
        assert(json_member(value, members[1].0@) == Some(members[1].1));
        assert(mark("Tombstone"@) == (9nat, 'T'));
        assert(mark("Article"@) == (7nat, 'A'));
        assert(mark("Note"@) == (4nat, 'N'));
    }
    value
}

impl Note {
    /// The note as a JSON document. Read again, the document gives the note.
    pub fn to_json(&self) -> (value: Value)
        ensures
            value == note_json(self@),
            read_note(value) == Some(self@),
            json_str(value) is None,
            text_of(value, "type"@) == Some("Note"@),
    {
        proof {
            reveal_strlit("type");
            reveal_strlit("id");
            reveal_strlit("content");
            reveal_strlit("inReplyTo");
            reveal_strlit("attributedTo");
            reveal_strlit("summary");
            reveal_strlit("sensitive");
            reveal_strlit("to");
            reveal_strlit("cc");
        }
        let in_reply_to = match &self.in_reply_to {
            Some(target) => Some(copy_text(&target.0)),
            None => None,
        };
        let mut pairs: Vec<(String, Value)> = Vec::new();
        pairs.push(text_pair("type", "Note"));
        pairs.push(text_pair("id", self.id.as_str()));
        pairs.push(text_pair("content", self.content.as_str()));
        pairs.push(optional_pair("inReplyTo", &in_reply_to));
        pairs.push(text_pair("attributedTo", self.attributed_to.as_str()));
        pairs.push(text_pair("summary", self.summary.as_str()));
        pairs.push((String::from_str("sensitive"), bool_value(self.sensitive)));
        pairs.push(list_pair("to", &self.to));
        pairs.push(list_pair("cc", &self.cc));
        assert(pair_views(pairs@) =~= seq![
            text_field("type"@, "Note"@),
            text_field("id"@, self@.id),
            text_field("content"@, self@.content),
            optional_field("inReplyTo"@, self@.in_reply_to),
            text_field("attributedTo"@, self@.attributed_to),
            text_field("summary"@, self@.summary),
            ("sensitive"@, json_of_bool(self@.sensitive)),
            list_field("to"@, self@.to),
            list_field("cc"@, self@.cc),
        ]);
        assert(keyed_once(pairs@)) by {
            assert(mark(pairs@[0].0@) == (4nat, 't'));
            assert(mark(pairs@[1].0@) == (2nat, 'i'));
            assert(mark(pairs@[2].0@) == (7nat, 'c'));
            assert(mark(pairs@[3].0@) == (9nat, 'i'));
            assert(mark(pairs@[4].0@) == (12nat, 'a'));
            assert(mark(pairs@[5].0@) == (7nat, 's'));
            assert(mark(pairs@[6].0@) == (9nat, 's'));
            assert(mark(pairs@[7].0@) == (2nat, 't'));
            assert(mark(pairs@[8].0@) == (2nat, 'c'));
        }
        let ghost members = pairs@;
        let value = object_of(pairs);
        proof {
            assert(json_member(value, members[0].0@) == Some(members[0].1));
            assert(json_member(value, members[1].0@) == Some(members[1].1));
            assert(json_member(value, members[2].0@) == Some(members[2].1));
            assert(json_member(value, members[3].0@) == Some(members[3].1));
            assert(json_member(value, members[4].0@) == Some(members[4].1));
            assert(json_member(value, members[5].0@) == Some(members[5].1));
            assert(json_member(value, members[6].0@) == Some(members[6].1));
            assert(json_member(value, members[7].0@) == Some(members[7].1));
            assert(json_member(value, members[8].0@) == Some(members[8].1));
            assert(references_at(value, "attributedTo"@) =~= seq![self.attributed_to@]);
        }
        value
    }
}

/// The JSON document of a reference in an article. Read again, the
/// document gives the reference.
pub fn tag_to_json(link: &Option<TagLink>) -> (value: Value)
    ensures
        value == tag_json(
            match *link {
                Some(link) => Some(link@),
                None => None,
            },
        ),
        read_tag(value) == match *link {
            Some(link) => Some(link@),
            None => None,
        },
{
    proof {
        reveal_strlit("type");
        reveal_strlit("href");
        reveal_strlit("name");
        reveal_strlit("Mention");
        reveal_strlit("Hashtag");
    }
    let inner = match link {
        Some(TagLink::Mention { href, name }) => {
            let mut pairs: Vec<(String, Value)> = Vec::new();
            pairs.push(text_pair("type", "Mention"));
            pairs.push(text_pair("href", href.as_str()));
            pairs.push(text_pair("name", name.as_str()));
            assert(pair_views(pairs@) =~= seq![
                text_field("type"@, "Mention"@),
                text_field("href"@, href@),
                text_field("name"@, name@),
            ]);
            assert(keyed_once(pairs@)) by {
                assert(mark(pairs@[0].0@) == (4nat, 't'));
                assert(mark(pairs@[1].0@) == (4nat, 'h'));
                assert(mark(pairs@[2].0@) == (4nat, 'n'));
            }
            let ghost members = pairs@;
            let object = object_of(pairs);
            assert(json_member(object, members[0].0@) == Some(members[0].1));
            assert(json_member(object, members[1].0@) == Some(members[1].1));
            assert(json_member(object, members[2].0@) == Some(members[2].1));
            assert(read_tag(object) == Some(TagLinkView::Mention { href: href@, name: name@ }));
            Some(object)
        },
        Some(TagLink::Hashtag { href, name }) => {
            let mut pairs: Vec<(String, Value)> = Vec::new();
            pairs.push(text_pair("type", "Hashtag"));
            pairs.push(text_pair("href", href.as_str()));
            pairs.push(text_pair("name", name.as_str()));
            assert(pair_views(pairs@) =~= seq![
                text_field("type"@, "Hashtag"@),
                text_field("href"@, href@),
                text_field("name"@, name@),
            ]);
            assert(keyed_once(pairs@)) by {
                assert(mark(pairs@[0].0@) == (4nat, 't'));
                assert(mark(pairs@[1].0@) == (4nat, 'h'));
                assert(mark(pairs@[2].0@) == (4nat, 'n'));
            }
            let ghost members = pairs@;
            let object = object_of(pairs);
            assert(json_member(object, members[0].0@) == Some(members[0].1));
            assert(json_member(object, members[1].0@) == Some(members[1].1));
            assert(json_member(object, members[2].0@) == Some(members[2].1));
            assert("Hashtag"@[0] != "Mention"@[0]);
            assert(read_tag(object) == Some(TagLinkView::Hashtag { href: href@, name: name@ }));
            Some(object)
        },
        None => None,
    };
    let value = optional_value(inner);
    assert(inner is None ==> json_member(value, "type"@) is None);
    value
}

impl Image {
    /// The cover as a JSON document. Read again, the document gives the
    /// cover.
    pub fn to_json(&self) -> (value: Value)
        ensures
            value == image_json(self@),
            read_image(value) == Some(self@),
    {
        proof {
            reveal_strlit("type");
            reveal_strlit("url");
            reveal_strlit("summary");
            reveal_strlit("content");
            reveal_strlit("attributedTo");
        }
        let mut pairs: Vec<(String, Value)> = Vec::new();
        pairs.push(text_pair("type", "Image"));
        pairs.push(text_pair("url", self.url.as_str()));
        pairs.push(optional_pair("summary", &self.summary));
        pairs.push(text_pair("content", self.content.as_str()));
        pairs.push(list_pair("attributedTo", &self.attributed_to));
        assert(pair_views(pairs@) =~= seq![
            text_field("type"@, "Image"@),
            text_field("url"@, self@.url),
            optional_field("summary"@, self@.summary),
            text_field("content"@, self@.content),
            list_field("attributedTo"@, self@.attributed_to),
        ]);
        assert(keyed_once(pairs@)) by {
            assert(mark(pairs@[0].0@) == (4nat, 't'));
            assert(mark(pairs@[1].0@) == (3nat, 'u'));
            assert(mark(pairs@[2].0@) == (7nat, 's'));
            assert(mark(pairs@[3].0@) == (7nat, 'c'));
            assert(mark(pairs@[4].0@) == (12nat, 'a'));
        }
        let ghost members = pairs@;
        let value = object_of(pairs);
        assert(json_member(value, members[1].0@) == Some(members[1].1));
        assert(json_member(value, members[2].0@) == Some(members[2].1));
        assert(json_member(value, members[3].0@) == Some(members[3].1));
        assert(json_member(value, members[4].0@) == Some(members[4].1));
        value
    }
}

/// The seconds that are read from the text written for a date: zero where
/// the date cannot be written, or what is written cannot be read.
pub open spec fn reread(secs: i64) -> i64 {
    match rfc3339_text(secs) {
        Some(text) => match rfc3339_instant(text) {
            Some(instant) => instant.secs,
            None => 0,
        },
        None => 0,
    }
}

/// What is read from the document of an article: the article, with the
/// date of publication as it is read from its text.
pub open spec fn article_read_back(article: LicensedArticleView) -> LicensedArticleView {
    LicensedArticleView {
        object: ArticleView { published: reread(article.object.published), ..article.object },
        license: article.license,
    }
}

impl LicensedArticle {
    /// The article as a JSON document. Read again, the document gives the
    /// article: all of it but the date of publication, which is the one read
    /// from the text that was written for it.
    pub fn to_json(&self) -> (value: Value)
        ensures
            value == article_json(self@),
            read_article(value) == Some(article_read_back(self@)),
            json_str(value) is None,
            text_of(value, "type"@) == Some("Article"@),
    {
        proof {
            reveal_strlit("type");
            reveal_strlit("id");
            reveal_strlit("name");
            reveal_strlit("attributedTo");
            reveal_strlit("content");
            reveal_strlit("mediaType");
            reveal_strlit("source");
            reveal_strlit("published");
            reveal_strlit("summary");
            reveal_strlit("tag");
            reveal_strlit("icon");
            reveal_strlit("url");
            reveal_strlit("to");
            reveal_strlit("cc");
            reveal_strlit("license");
        }
        let object = &self.object;
        let mut source: Vec<(String, Value)> = Vec::new();
        source.push(text_pair("content", object.source.content.as_str()));
        source.push(text_pair("mediaType", object.source.media_type.as_str()));
        assert(pair_views(source@) =~= seq![
            text_field("content"@, self@.object.source_content),
            text_field("mediaType"@, self@.object.source_media_type),
        ]);
        assert(keyed_once(source@)) by {
            assert(mark(source@[0].0@) == (7nat, 'c'));
            assert(mark(source@[1].0@) == (9nat, 'm'));
        }
        let ghost source_members = source@;
        let source = object_of(source);
        assert(json_member(source, source_members[0].0@) == Some(source_members[0].1));
        assert(json_member(source, source_members[1].0@) == Some(source_members[1].1));
        let ghost wanted = tags_json(self@.object.tag);
        let mut tags: Vec<Value> = Vec::new();
        let mut i: usize = 0;
        while i < object.tag.len()
            invariant
                i <= object.tag@.len(),
                object == &self.object,
                wanted == tags_json(self@.object.tag),
                tags@ == wanted.take(i as int),
                forall|j: int| 0 <= j < i ==> read_tag(#[trigger] tags@[j]) == self@.object.tag[j],
            decreases object.tag@.len() - i,
        {
            tags.push(tag_to_json(&object.tag[i]));
            assert(tag_links(object.tag@)[i as int] == match object.tag@[i as int] {
                Some(link) => Some(link@),
                None => None,
            });
            assert(tags@ =~= wanted.take(i as int).push(wanted[i as int]));
            assert(wanted.take(i + 1) =~= wanted.take(i as int).push(wanted[i as int]));
            i += 1;
        }
        assert(wanted.take(object.tag@.len() as int) =~= wanted);
        assert(read_tags(tags@) =~= self@.object.tag);
        let icon = match &object.icon {
            Some(image) => Some(image.to_json()),
            None => None,
        };
        let published = write_rfc3339(object.published);
        let mut pairs: Vec<(String, Value)> = Vec::new();
        pairs.push(text_pair("type", "Article"));
        pairs.push(text_pair("id", object.id.as_str()));
        pairs.push(text_pair("name", object.name.as_str()));
        pairs.push(list_pair("attributedTo", &object.attributed_to));
        pairs.push(text_pair("content", object.content.as_str()));
        pairs.push((String::from_str("source"), source));
        pairs.push(optional_pair("published", &published));
        pairs.push(text_pair("summary", object.summary.as_str()));
        pairs.push((String::from_str("tag"), array_value(tags)));
        let icon = optional_value(icon);
        assert(read_image(icon) == self@.object.icon) by {
            if object.icon is None {
                assert(json_member(icon, "url"@) is None);
            }
        }
        pairs.push((String::from_str("icon"), icon));
        pairs.push(text_pair("url", object.url.as_str()));
        pairs.push(list_pair("to", &object.to));
        pairs.push(list_pair("cc", &object.cc));
        pairs.push(optional_pair("license", &self.custom_props.license));
        assert(pair_views(pairs@) =~= article_fields(self@));
        assert(keyed_once(pairs@)) by {
            assert(mark(pairs@[0].0@) == (4nat, 't'));
            assert(mark(pairs@[1].0@) == (2nat, 'i'));
            assert(mark(pairs@[2].0@) == (4nat, 'n'));
            assert(mark(pairs@[3].0@) == (12nat, 'a'));
            assert(mark(pairs@[4].0@) == (7nat, 'c'));
            assert(mark(pairs@[5].0@) == (6nat, 's'));
            assert(mark(pairs@[6].0@) == (9nat, 'p'));
            assert(mark(pairs@[7].0@) == (7nat, 's'));
            assert(mark(pairs@[8].0@) == (3nat, 't'));
            assert(mark(pairs@[9].0@) == (4nat, 'i'));
            assert(mark(pairs@[10].0@) == (3nat, 'u'));
            assert(mark(pairs@[11].0@) == (2nat, 't'));
            assert(mark(pairs@[12].0@) == (2nat, 'c'));
            assert(mark(pairs@[13].0@) == (7nat, 'l'));
        }
        let ghost members = pairs@;
        let value = object_of(pairs);
        proof {
            assert(json_member(value, members[0].0@) == Some(members[0].1));
            assert(json_member(value, members[1].0@) == Some(members[1].1));
            assert(json_member(value, members[2].0@) == Some(members[2].1));
            assert(json_member(value, members[3].0@) == Some(members[3].1));
            assert(json_member(value, members[4].0@) == Some(members[4].1));
            assert(json_member(value, members[5].0@) == Some(members[5].1));
            assert(json_member(value, members[6].0@) == Some(members[6].1));
            assert(json_member(value, members[7].0@) == Some(members[7].1));
            assert(json_member(value, members[8].0@) == Some(members[8].1));
            assert(json_member(value, members[9].0@) == Some(members[9].1));
            assert(json_member(value, members[10].0@) == Some(members[10].1));
            assert(json_member(value, members[11].0@) == Some(members[11].1));
            assert(json_member(value, members[12].0@) == Some(members[12].1));
            assert(json_member(value, members[13].0@) == Some(members[13].1));
        }
        value
    }
}

/// What is read from the document of what an activity is about: the same,
/// an article with the date of publication as it is read from its text.
pub open spec fn object_read_back(object: ObjectView) -> ObjectView {
    match object {
        ObjectView::Article(article) => ObjectView::Article(article_read_back(article)),
        other => other,
    }
}

impl Object {
    /// What an activity is about, as a JSON document. Read again, the
    /// document gives the same, but for the date of an article.
    pub fn to_json(&self) -> (value: Value)
        ensures
            value == object_json(self@),
            read_object(value) == Some(object_read_back(self@)),
    {
        proof {
            reveal_strlit("Article");
            reveal_strlit("Note");
            reveal_strlit("Tombstone");
            assert(mark("Article"@) == (7nat, 'A'));
            assert(mark("Note"@) == (4nat, 'N'));
            assert(mark("Tombstone"@) == (9nat, 'T'));
            if let Object::Activity(inner) = self {
                lemma_kind_named(inner.kind);
            }
        }
        match self {
            Object::Link(address) => string_value(address.as_str()),
            Object::Article(article) => article.to_json(),
            Object::Note(note) => note.to_json(),
            Object::Tombstone(address) => tombstone_to_json(address),
            Object::Activity(inner) => inner.to_json(),
        }
    }
}

/// What is read from the document of an activity: the activity, an article
/// in it with the date of publication as it is read from its text.
pub open spec fn activity_read_back(activity: ActivityView) -> ActivityView {
    ActivityView { object: object_read_back(activity.object), ..activity }
}

impl Activity {
    /// The activity as a JSON document, as it is handed to a broadcast.
    /// Read again, the document gives the activity, but for the date of an
    /// article in it.
    pub fn to_json(&self) -> (value: Value)
        ensures
            value == activity_json(self@),
            crate::json::json_is_object(value),
            read_activity(value) == Some(activity_read_back(self@)),
    {
        proof {
            reveal_strlit("type");
            reveal_strlit("id");
            reveal_strlit("actor");
            reveal_strlit("object");
            reveal_strlit("to");
            reveal_strlit("cc");
            lemma_kind_named(self.kind);
        }
        let mut pairs: Vec<(String, Value)> = Vec::new();
        pairs.push(text_pair("type", name_of(self.kind)));
        pairs.push(text_pair("id", self.id.as_str()));
        pairs.push(text_pair("actor", self.actor.as_str()));
        pairs.push((String::from_str("object"), self.object.to_json()));
        pairs.push(list_pair("to", &self.to));
        pairs.push(list_pair("cc", &self.cc));
        assert(pair_views(pairs@) =~= seq![
            text_field("type"@, kind_name(self.kind)),
            text_field("id"@, self@.id),
            text_field("actor"@, self@.actor),
            ("object"@, object_json(self@.object)),
            list_field("to"@, self@.to),
            list_field("cc"@, self@.cc),
        ]);
        assert(keyed_once(pairs@)) by {
            assert(mark(pairs@[0].0@) == (4nat, 't'));
            assert(mark(pairs@[1].0@) == (2nat, 'i'));
            assert(mark(pairs@[2].0@) == (5nat, 'a'));
            assert(mark(pairs@[3].0@) == (6nat, 'o'));
            assert(mark(pairs@[4].0@) == (2nat, 't'));
            assert(mark(pairs@[5].0@) == (2nat, 'c'));
        }
        let ghost members = pairs@;
        let value = object_of(pairs);
        proof {
            assert(json_member(value, members[0].0@) == Some(members[0].1));
            assert(json_member(value, members[1].0@) == Some(members[1].1));
            assert(json_member(value, members[2].0@) == Some(members[2].1));
            assert(json_member(value, members[3].0@) == Some(members[3].1));
            assert(json_member(value, members[4].0@) == Some(members[4].1));
            assert(json_member(value, members[5].0@) == Some(members[5].1));
        }
        value
    }
}

/// The kind of activity with a name.
pub open spec fn kind_named(name: Seq<char>) -> Option<ActivityKind> {
    if name == "Create"@ {
        Some(ActivityKind::Create)
    } else if name == "Update"@ {
        Some(ActivityKind::Update)
    } else if name == "Delete"@ {
        Some(ActivityKind::Delete)
    } else if name == "Follow"@ {
        Some(ActivityKind::Follow)
    } else if name == "Undo"@ {
        Some(ActivityKind::Undo)
    } else if name == "Like"@ {
        Some(ActivityKind::Like)
    } else if name == "Announce"@ {
        Some(ActivityKind::Announce)
    } else {
        None
    }
}

/// The kind of activity with a name.
pub fn kind_of(name: &str) -> (kind: Option<ActivityKind>)
    ensures
        kind == kind_named(name@),
{
    if same_text(name, "Create") {
        Some(ActivityKind::Create)
    } else if same_text(name, "Update") {
        Some(ActivityKind::Update)
    } else if same_text(name, "Delete") {
        Some(ActivityKind::Delete)
    } else if same_text(name, "Follow") {
        Some(ActivityKind::Follow)
    } else if same_text(name, "Undo") {
        Some(ActivityKind::Undo)
    } else if same_text(name, "Like") {
        Some(ActivityKind::Like)
    } else if same_text(name, "Announce") {
        Some(ActivityKind::Announce)
    } else {
        None
    }
}

/// The text that a document holds under a key.
pub open spec fn text_of(value: Value, key: Seq<char>) -> Option<Seq<char>> {
    match json_member(value, key) {
        Some(found) => json_str(found),
        None => None,
    }
}

/// The text that a document holds under a key, or the empty text.
pub open spec fn text_or_empty(value: Value, key: Seq<char>) -> Seq<char> {
    match text_of(value, key) {
        Some(text) => text,
        None => Seq::empty(),
    }
}

/// The address that a value refers to: the value itself where it is a
/// text, the `id` of an object else.
pub open spec fn reference(value: Value) -> Option<Seq<char>> {
    match json_str(value) {
        Some(text) => Some(text),
        None => text_of(value, "id"@),
    }
}

/// The addresses that values refer to; a value that refers to none is
/// passed over.
pub open spec fn references(values: Seq<Value>) -> Seq<Seq<char>>
    decreases values.len(),
{
    if values.len() == 0 {
        Seq::empty()
    } else {
        let before = references(values.drop_last());
        match reference(values.last()) {
            Some(address) => before.push(address),
            None => before,
        }
    }
}

/// The addresses that a document holds under a key: those of a list, or the
/// one of a single value.
pub open spec fn references_at(value: Value, key: Seq<char>) -> Seq<Seq<char>> {
    match json_member(value, key) {
        None => Seq::empty(),
        Some(found) => match json_items(found) {
            Some(values) => references(values),
            None => match reference(found) {
                Some(address) => seq![address],
                None => Seq::empty(),
            },
        },
    }
}

/// The address that a document holds under a key.
pub open spec fn reference_at(value: Value, key: Seq<char>) -> Option<Seq<char>> {
    match json_member(value, key) {
        Some(found) => reference(found),
        None => None,
    }
}

/// What a document says of an activity that is carried inside another: it
/// needs a kind, an address, an actor, and an object by reference.
pub open spec fn read_embedded(value: Value) -> Option<EmbeddedView> {
    match (text_of(value, "type"@), text_of(value, "id"@), reference_at(value, "actor"@), reference_at(
        value,
        "object"@,
    )) {
        (Some(name), Some(id), Some(actor), Some(object)) => match kind_named(name) {
            Some(kind) => Some(
                EmbeddedView {
                    kind,
                    id,
                    actor,
                    object,
                    to: references_at(value, "to"@),
                    cc: references_at(value, "cc"@),
                },
            ),
            None => None,
        },
        _ => None,
    }
}

/// What a document says of a note: it needs an address and an author. A
/// note is sensitive only where the document says so.
pub open spec fn read_note(value: Value) -> Option<NoteView> {
    match text_of(value, "id"@) {
        Some(id) => if references_at(value, "attributedTo"@).len() > 0 {
            Some(
                NoteView {
                    id,
                    content: text_or_empty(value, "content"@),
                    in_reply_to: reference_at(value, "inReplyTo"@),
                    attributed_to: references_at(value, "attributedTo"@)[0],
                    summary: text_or_empty(value, "summary"@),
                    sensitive: match json_member(value, "sensitive"@) {
                        Some(found) => json_bool(found) == Some(true),
                        None => false,
                    },
                    to: references_at(value, "to"@),
                    cc: references_at(value, "cc"@),
                },
            )
        } else {
            None
        },
        None => None,
    }
}

/// What a document says of a reference in an article.
pub open spec fn read_tag(value: Value) -> Option<TagLinkView> {
    match text_of(value, "type"@) {
        Some(name) => if name == "Mention"@ {
            Some(
                TagLinkView::Mention {
                    href: text_or_empty(value, "href"@),
                    name: text_or_empty(value, "name"@),
                },
            )
        } else if name == "Hashtag"@ {
            Some(
                TagLinkView::Hashtag {
                    href: text_or_empty(value, "href"@),
                    name: text_or_empty(value, "name"@),
                },
            )
        } else {
            None
        },
        None => None,
    }
}

/// What documents say of the references in an article.
pub open spec fn read_tags(values: Seq<Value>) -> Seq<Option<TagLinkView>> {
    values.map_values(|value: Value| read_tag(value))
}

/// What a document says of a cover: it needs the address of the image.
pub open spec fn read_image(value: Value) -> Option<ImageView> {
    match text_of(value, "url"@) {
        Some(url) => Some(
            ImageView {
                url,
                summary: text_of(value, "summary"@),
                content: text_or_empty(value, "content"@),
                attributed_to: references_at(value, "attributedTo"@),
            },
        ),
        None => None,
    }
}

/// The seconds that a document gives as the date of publication: zero
/// where it gives none that can be read.
pub open spec fn published_at(value: Value) -> i64 {
    match text_of(value, "published"@) {
        Some(text) => match rfc3339_instant(text) {
            Some(instant) => instant.secs,
            None => 0,
        },
        None => 0,
    }
}

/// What a document says of an article: it needs an address. What is
/// missing is empty; a missing `url` is the address.
pub open spec fn read_article(value: Value) -> Option<LicensedArticleView> {
    match text_of(value, "id"@) {
        Some(id) => Some(
            LicensedArticleView {
                object: ArticleView {
                    id,
                    name: text_or_empty(value, "name"@),
                    attributed_to: references_at(value, "attributedTo"@),
                    content: text_or_empty(value, "content"@),
                    source_content: match json_member(value, "source"@) {
                        Some(source) => text_or_empty(source, "content"@),
                        None => Seq::empty(),
                    },
                    source_media_type: match json_member(value, "source"@) {
                        Some(source) => text_or_empty(source, "mediaType"@),
                        None => Seq::empty(),
                    },
                    published: published_at(value),
                    summary: text_or_empty(value, "summary"@),
                    tag: match json_member(value, "tag"@) {
                        Some(found) => match json_items(found) {
                            Some(values) => read_tags(values),
                            None => Seq::empty(),
                        },
                        None => Seq::empty(),
                    },
                    icon: match json_member(value, "icon"@) {
                        Some(found) => read_image(found),
                        None => None,
                    },
                    url: match text_of(value, "url"@) {
                        Some(url) => url,
                        None => id,
                    },
                    to: references_at(value, "to"@),
                    cc: references_at(value, "cc"@),
                },
                license: text_of(value, "license"@),
            },
        ),
        None => None,
    }
}

/// What a value says of the object of an activity. A text is a reference;
/// an object is read by its type, and one of a type that is not known here
/// is a reference to its address.
pub open spec fn read_object(value: Value) -> Option<ObjectView> {
    match json_str(value) {
        Some(address) => Some(ObjectView::Link(address)),
        None => match text_of(value, "type"@) {
            Some(name) => if name == "Article"@ {
                match read_article(value) {
                    Some(article) => Some(ObjectView::Article(article)),
                    None => None,
                }
            } else if name == "Note"@ {
                match read_note(value) {
                    Some(note) => Some(ObjectView::Note(note)),
                    None => None,
                }
            } else if name == "Tombstone"@ {
                match text_of(value, "id"@) {
                    Some(address) => Some(ObjectView::Tombstone(address)),
                    None => None,
                }
            } else if kind_named(name) is Some {
                match read_embedded(value) {
                    Some(inner) => Some(ObjectView::Activity(inner)),
                    None => None,
                }
            } else {
                match text_of(value, "id"@) {
                    Some(address) => Some(ObjectView::Link(address)),
                    None => None,
                }
            },
            None => match text_of(value, "id"@) {
                Some(address) => Some(ObjectView::Link(address)),
                None => None,
            },
        },
    }
}

/// What a document says of an activity: it needs a kind that is known
/// here, an address, an actor and an object.
pub open spec fn read_activity(value: Value) -> Option<ActivityView> {
    match (
        text_of(value, "type"@),
        text_of(value, "id"@),
        reference_at(value, "actor"@),
        json_member(value, "object"@),
    ) {
        (Some(name), Some(id), Some(actor), Some(found)) => match (
            kind_named(name),
            read_object(found),
        ) {
            (Some(kind), Some(object)) => Some(
                ActivityView {
                    kind,
                    id,
                    actor,
                    object,
                    to: references_at(value, "to"@),
                    cc: references_at(value, "cc"@),
                },
            ),
            _ => None,
        },
        _ => None,
    }
}

/// The content of something that may be absent.
pub open spec fn content_of<T: View>(thing: Option<T>) -> Option<T::V> {
    match thing {
        Some(thing) => Some(thing@),
        None => None,
    }
}

pub(crate) fn get_text(value: &Value, key: &str) -> (text: Option<String>)
    ensures
        optional_text(text) == text_of(*value, key@),
{
    match member(value, key) {
        Some(found) => as_text(&found),
        None => None,
    }
}

fn get_text_or_empty(value: &Value, key: &str) -> (text: String)
    ensures
        text@ == text_or_empty(*value, key@),
{
    match get_text(value, key) {
        Some(text) => text,
        None => String::new(),
    }
}

fn get_reference(value: &Value) -> (address: Option<String>)
    ensures
        optional_text(address) == reference(*value),
{
    match as_text(value) {
        Some(text) => Some(text),
        None => get_text(value, "id"),
    }
}

fn get_reference_at(value: &Value, key: &str) -> (address: Option<String>)
    ensures
        optional_text(address) == reference_at(*value, key@),
{
    match member(value, key) {
        Some(found) => get_reference(&found),
        None => None,
    }
}

fn get_references_at(value: &Value, key: &str) -> (list: Vec<Id>)
    ensures
        ids(list@) == references_at(*value, key@),
{
    let mut list: Vec<Id> = Vec::new();
    assert(ids(list@) =~= Seq::empty());
    let found = match member(value, key) {
        Some(found) => found,
        None => { return list; },
    };
    match items(&found) {
        Some(values) => {
            let mut i: usize = 0;
            assert(values@.take(0) =~= Seq::empty());
            while i < values.len()
                invariant
                    i <= values@.len(),
                    ids(list@) == references(values@.take(i as int)),
                decreases values@.len() - i,
            {
                let ghost before = ids(list@);
                assert(values@.take(i + 1).drop_last() =~= values@.take(i as int));
                assert(values@.take(i + 1).last() == values@[i as int]);
                match get_reference(&values[i]) {
                    Some(address) => {
                        list.push(Id::new(address));
                        assert(ids(list@) =~= before.push(address@));
                    },
                    None => {},
                }
                i += 1;
            }
            assert(values@.take(values@.len() as int) =~= values@);
            list
        },
        None => match get_reference(&found) {
            Some(address) => {
                list.push(Id::new(address));
                assert(ids(list@) =~= seq![address@]);
                list
            },
            None => list,
        },
    }
}

impl Embedded {
    /// Read a document as an activity that is carried inside another.
    pub fn from_json(value: &Value) -> (inner: Option<Embedded>)
        ensures
            content_of(inner) == read_embedded(*value),
    {
        let name = get_text(value, "type");
        let id = get_text(value, "id");
        let actor = get_reference_at(value, "actor");
        let object = get_reference_at(value, "object");
        match (name, id, actor, object) {
            (Some(name), Some(id), Some(actor), Some(object)) => match kind_of(name.as_str()) {
                Some(kind) => Some(
                    Embedded {
                        kind,
                        id,
                        actor: Id::new(actor),
                        object: Id::new(object),
                        to: get_references_at(value, "to"),
                        cc: get_references_at(value, "cc"),
                    },
                ),
                None => None,
            },
            _ => None,
        }
    }
}

impl Note {
    /// Read a document as a note.
    pub fn from_json(value: &Value) -> (note: Option<Note>)
        ensures
            content_of(note) == read_note(*value),
    {
        let id = match get_text(value, "id") {
            Some(id) => id,
            None => { return None; },
        };
        let authors = get_references_at(value, "attributedTo");
        if authors.len() == 0 {
            return None;
        }
        let in_reply_to = match get_reference_at(value, "inReplyTo") {
            Some(target) => Some(Id::new(target)),
            None => None,
        };
        let sensitive = match member(value, "sensitive") {
            Some(found) => match as_bool(&found) {
                Some(truth) => truth,
                None => false,
            },
            None => false,
        };
        Some(
            Note {
                id,
                content: get_text_or_empty(value, "content"),
                in_reply_to,
                attributed_to: authors[0].copy(),
                summary: get_text_or_empty(value, "summary"),
                sensitive,
                to: get_references_at(value, "to"),
                cc: get_references_at(value, "cc"),
            },
        )
    }
}

/// Read a document as a reference in an article.
pub fn tag_from_json(value: &Value) -> (link: Option<TagLink>)
    ensures
        content_of(link) == read_tag(*value),
{
    let name = match get_text(value, "type") {
        Some(name) => name,
        None => { return None; },
    };
    if same_text(name.as_str(), "Mention") {
        Some(
            TagLink::Mention {
                href: get_text_or_empty(value, "href"),
                name: get_text_or_empty(value, "name"),
            },
        )
    } else if same_text(name.as_str(), "Hashtag") {
        Some(
            TagLink::Hashtag {
                href: get_text_or_empty(value, "href"),
                name: get_text_or_empty(value, "name"),
            },
        )
    } else {
        None
    }
}

impl Image {
    /// Read a document as a cover.
    pub fn from_json(value: &Value) -> (image: Option<Image>)
        ensures
            content_of(image) == read_image(*value),
    {
        match get_text(value, "url") {
            Some(url) => Some(
                Image {
                    url,
                    summary: get_text(value, "summary"),
                    content: get_text_or_empty(value, "content"),
                    attributed_to: get_references_at(value, "attributedTo"),
                },
            ),
            None => None,
        }
    }
}

fn get_tags(value: &Value) -> (links: Vec<Option<TagLink>>)
    ensures
        tag_links(links@) == match json_member(*value, "tag"@) {
            Some(found) => match json_items(found) {
                Some(values) => read_tags(values),
                None => Seq::empty(),
            },
            None => Seq::empty(),
        },
{
    let mut links: Vec<Option<TagLink>> = Vec::new();
    assert(tag_links(links@) =~= Seq::empty());
    let values = match member(value, "tag") {
        Some(found) => match items(&found) {
            Some(values) => values,
            None => { return links; },
        },
        None => { return links; },
    };
    let mut i: usize = 0;
    while i < values.len()
        invariant
            i <= values@.len(),
            tag_links(links@) == read_tags(values@).take(i as int),
        decreases values@.len() - i,
    {
        let ghost before = tag_links(links@);
        let link = tag_from_json(&values[i]);
        links.push(link);
        assert(tag_links(links@) =~= before.push(read_tags(values@)[i as int]));
        assert(read_tags(values@).take(i + 1) =~= read_tags(values@).take(i as int).push(
            read_tags(values@)[i as int],
        ));
        i += 1;
    }
    assert(read_tags(values@).take(values@.len() as int) =~= read_tags(values@));
    links
}

impl LicensedArticle {
    /// Read a document as an article with its license.
    pub fn from_json(value: &Value) -> (article: Option<LicensedArticle>)
        ensures
            content_of(article) == read_article(*value),
    {
        let id = match get_text(value, "id") {
            Some(id) => id,
            None => { return None; },
        };
        let source = match member(value, "source") {
            Some(source) => Source {
                content: get_text_or_empty(&source, "content"),
                media_type: get_text_or_empty(&source, "mediaType"),
            },
            None => Source { content: String::new(), media_type: String::new() },
        };
        let published = match get_text(value, "published") {
            Some(text) => match parse_rfc3339(text.as_str()) {
                Some(instant) => instant.secs,
                None => 0,
            },
            None => 0,
        };
        let icon = match member(value, "icon") {
            Some(found) => Image::from_json(&found),
            None => None,
        };
        let url = match get_text(value, "url") {
            Some(url) => url,
            None => copy_text(&id),
        };
        Some(
            LicensedArticle {
                object: Article {
                    id,
                    name: get_text_or_empty(value, "name"),
                    attributed_to: get_references_at(value, "attributedTo"),
                    content: get_text_or_empty(value, "content"),
                    source,
                    published,
                    summary: get_text_or_empty(value, "summary"),
                    tag: get_tags(value),
                    icon,
                    url,
                    to: get_references_at(value, "to"),
                    cc: get_references_at(value, "cc"),
                },
                custom_props: Licensed { license: get_text(value, "license") },
            },
        )
    }
}

impl Object {
    /// Read a value as the object of an activity.
    pub fn from_json(value: &Value) -> (object: Option<Object>)
        ensures
            content_of(object) == read_object(*value),
    {
        match as_text(value) {
            Some(address) => { return Some(Object::Link(Id::new(address))); },
            None => {},
        }
        let by_address = match get_text(value, "id") {
            Some(address) => Some(Object::Link(Id::new(address))),
            None => None,
        };
        let name = match get_text(value, "type") {
            Some(name) => name,
            None => { return by_address; },
        };
        if same_text(name.as_str(), "Article") {
            match LicensedArticle::from_json(value) {
                Some(article) => Some(Object::Article(article)),
                None => None,
            }
        } else if same_text(name.as_str(), "Note") {
            match Note::from_json(value) {
                Some(note) => Some(Object::Note(note)),
                None => None,
            }
        } else if same_text(name.as_str(), "Tombstone") {
            match get_text(value, "id") {
                Some(address) => Some(Object::Tombstone(Id::new(address))),
                None => None,
            }
        } else if kind_of(name.as_str()).is_some() {
            match Embedded::from_json(value) {
                Some(inner) => Some(Object::Activity(inner)),
                None => None,
            }
        } else {
            by_address
        }
    }
}

impl Activity {
    /// Read a document as an activity. A document of a kind that is not
    /// known here, or one that lacks what an activity needs, is none.
    pub fn from_json(value: &Value) -> (activity: Option<Activity>)
        ensures
            content_of(activity) == read_activity(*value),
    {
        let name = get_text(value, "type");
        let id = get_text(value, "id");
        let actor = get_reference_at(value, "actor");
        let found = member(value, "object");
        match (name, id, actor, found) {
            (Some(name), Some(id), Some(actor), Some(found)) => {
                let kind = kind_of(name.as_str());
                let object = Object::from_json(&found);
                match (kind, object) {
                    (Some(kind), Some(object)) => Some(
                        Activity {
                            kind,
                            id,
                            actor: Id::new(actor),
                            object,
                            to: get_references_at(value, "to"),
                            cc: get_references_at(value, "cc"),
                        },
                    ),
                    _ => None,
                }
            },
            _ => None,
        }
    }
}

} // verus!
