//! Tags of posts.

use crate::activity::{TagLink, TagLinkView};
use crate::activity_pub::Hashtag;
use crate::store::{Error, Store, StoreView};
use crate::table::{lemma_filter_step, Row};
use crate::text::{copy_text, has_text, texts};
use vstd::prelude::*;

verus! {

/// One tag of one post.
#[derive(Clone, Debug, PartialEq, Eq)]
pub struct Tag {
    pub id: i32,
    pub tag: String,
    /// Whether the tag was written into the text of the post.
    pub is_hashtag: bool,
    pub post_id: i32,
}

impl Row for Tag {
    open spec fn key(&self) -> i32 {
        self.id
    }

    fn id(&self) -> (id: i32) {
        self.id
    }

    fn copy(&self) -> (row: Tag) {
        Tag {
            id: self.id,
            tag: copy_text(&self.tag),
            is_hashtag: self.is_hashtag,
            post_id: self.post_id,
        }
    }
}

/// The tags of a post.
pub open spec fn of_post(post_id: i32) -> spec_fn(Tag) -> bool {
    |tag: Tag| tag.post_id == post_id
}

/// The reference that stands for a tag in an article: the page of the tag
/// on the instance with the given domain, and the tag itself as its name.
pub open spec fn tag_link(tag: Tag, domain: Seq<char>) -> TagLinkView {
    TagLinkView::Hashtag { href: "https://"@ + domain + "/tag/"@ + tag.tag@, name: tag.tag@ }
}

impl Tag {
    /// The tags of a post, in the order in which they were stored.
    pub fn for_post(store: &Store, post_id: i32) -> (tags: Vec<Tag>)
        ensures
            tags@ == store.tags@.rows.filter(of_post(post_id)),
    {
        let test = |tag: &Tag| -> (yes: bool)
            ensures
                yes == (tag.post_id == post_id),
            { tag.post_id == post_id };
        store.tags.select(test, Ghost(of_post(post_id)))
    }

    /// The reference that stands for this tag in an article.
    pub fn to_activity(&self, store: &Store) -> (link: TagLink)
        ensures
            link@ == tag_link(*self, store.local_domain@),
    {
        TagLink::Hashtag {
            href: String::from_str("https://").concat(store.local_domain.as_str()).concat(
                "/tag/",
            ).concat(self.tag.as_str()),
            name: copy_text(&self.tag),
        }
    }
}

/// The content of a `Tag`.
pub struct TagView {
    pub id: int,
    pub tag: Seq<char>,
    pub is_hashtag: bool,
    pub post_id: i32,
}

impl View for Tag {
    type V = TagView;

    open spec fn view(&self) -> TagView {
        TagView {
            id: self.id as int,
            tag: self.tag@,
            is_hashtag: self.is_hashtag,
            post_id: self.post_id,
        }
    }
}

/// Tags by their content.
pub open spec fn tag_views(tags: Seq<Tag>) -> Seq<TagView> {
    tags.map_values(|tag: Tag| tag@)
}

/// The names that a list of tags gives: a tag without a name gives none.
pub open spec fn given_names(tags: Seq<Hashtag>) -> Seq<Seq<char>>
    decreases tags.len(),
{
    if tags.len() == 0 {
        Seq::empty()
    } else {
        let before = given_names(tags.drop_last());
        match tags.last().name {
            Some(name) => before.push(name@),
            None => before,
        }
    }
}

/// The tags of one kind of a post.
pub open spec fn of_kind(post_id: i32, hashtags: bool) -> spec_fn(Tag) -> bool {
    |tag: Tag| tag.post_id == post_id && tag.is_hashtag == hashtags
}

/// The names of the tags of one kind that a post has.
pub open spec fn present_names(rows: Seq<Tag>, post_id: i32, hashtags: bool) -> Seq<Seq<char>> {
    rows.filter(of_kind(post_id, hashtags)).map_values(|tag: Tag| tag.tag@)
}

/// The names that are not among some others.
pub open spec fn missing_from(others: Seq<Seq<char>>) -> spec_fn(Seq<char>) -> bool {
    |name: Seq<char>| !others.contains(name)
}

/// The tags that stay when a post gets new tags of one kind: those of
/// other posts, those of the other kind, and those that are named again.
pub open spec fn stays(post_id: i32, hashtags: bool, names: Seq<Seq<char>>) -> spec_fn(Tag) -> bool {
    |tag: Tag| !(tag.post_id == post_id && tag.is_hashtag == hashtags && !names.contains(tag.tag@))
}

/// New tags of a post, numbered from an identifier on.
pub open spec fn numbered(names: Seq<Seq<char>>, post_id: i32, hashtags: bool, first: int) -> Seq<
    TagView,
> {
    Seq::new(
        names.len(),
        |k: int| TagView { id: first + k, tag: names[k], is_hashtag: hashtags, post_id },
    )
}

/// The given names for which a post gets a new tag of one kind: those that
/// none of its tags of that kind has.
pub open spec fn new_names(rows: Seq<Tag>, post_id: i32, hashtags: bool, given: Seq<Seq<char>>) -> Seq<
    Seq<char>,
> {
    given.filter(missing_from(present_names(rows, post_id, hashtags)))
}

/// The tags after a post got new tags of one kind: the tags that stay, then
/// a new tag for each given name that the post did not have, in the order
/// in which the names were given. A name given twice is added twice.
pub open spec fn retagged(
    rows: Seq<Tag>,
    next_id: i32,
    post_id: i32,
    hashtags: bool,
    given: Seq<Seq<char>>,
) -> Seq<TagView> {
    tag_views(rows.filter(stays(post_id, hashtags, given))) + numbered(
        given.filter(missing_from(present_names(rows, post_id, hashtags))),
        post_id,
        hashtags,
        next_id as int,
    )
}

/// The names that a list of tags gives.
pub fn names_of(tags: &Vec<Hashtag>) -> (names: Vec<String>)
    ensures
        texts(names@) == given_names(tags@),
{
    let mut names: Vec<String> = Vec::new();
    let mut i: usize = 0;
    assert(tags@.take(0) =~= Seq::empty());
    assert(texts(names@) =~= Seq::empty());
    while i < tags.len()
        invariant
            i <= tags@.len(),
            texts(names@) == given_names(tags@.take(i as int)),
        decreases tags@.len() - i,
    {
        let ghost before = texts(names@);
        assert(tags@.take(i + 1).drop_last() =~= tags@.take(i as int));
        assert(tags@.take(i + 1).last() == tags@[i as int]);
        match &tags[i].name {
            Some(name) => {
                names.push(copy_text(name));
                assert(texts(names@) =~= before.push(name@));
            },
            None => {},
        }
        i += 1;
    }
    assert(tags@.take(tags@.len() as int) =~= tags@);
    names
}

impl Tag {
    /// Give a post new tags of one kind. The store is left as it was,
    /// with an error, where the table has no room for the tags that are to
    /// be added.
    pub fn replace(store: &mut Store, post_id: i32, hashtags: bool, tags: &Vec<Hashtag>) -> (done:
        Result<(), Error>)
        ensures
            done is Ok == (old(store).tags.next_id + new_names(
                old(store).tags@.rows,
                post_id,
                hashtags,
                given_names(tags@),
            ).len() < i32::MAX),
            done matches Err(error) ==> error == Error::Full && final(store)@ == old(store)@,
            done is Ok ==> {
                let added = given_names(tags@).filter(
                    missing_from(present_names(old(store).tags@.rows, post_id, hashtags)),
                );
                &&& tag_views(final(store).tags@.rows) == retagged(
                    old(store).tags@.rows,
                    old(store).tags.next_id,
                    post_id,
                    hashtags,
                    given_names(tags@),
                )
                &&& final(store).tags.next_id == old(store).tags.next_id + added.len()
                &&& final(store)@ == (StoreView { tags: final(store).tags@, ..old(store)@ })
            },
            old(store).wf() ==> final(store).wf(),
    {
        let names = names_of(tags);
        let ghost rows = store.tags@.rows;
        let ghost first = store.tags.next_id as int;
        let ghost present = present_names(rows, post_id, hashtags);
        let ghost wanted = texts(names@).filter(missing_from(present));
        let of_this_kind = |tag: &Tag| -> (yes: bool)
            ensures
                yes == of_kind(post_id, hashtags)(*tag),
            { tag.post_id == post_id && tag.is_hashtag == hashtags };
        let had = store.tags.select(of_this_kind, Ghost(of_kind(post_id, hashtags)));
        let mut had_names: Vec<String> = Vec::new();
        let mut h: usize = 0;
        while h < had.len()
            invariant
                h <= had@.len(),
                present == had@.map_values(|tag: Tag| tag.tag@),
                texts(had_names@) == present.take(h as int),
            decreases had@.len() - h,
        {
            had_names.push(copy_text(&had[h].tag));
            assert(texts(had_names@) =~= present.take(h as int).push(present[h as int]));
            assert(present.take(h + 1) =~= present.take(h as int).push(present[h as int]));
            h += 1;
        }
        assert(present.take(had@.len() as int) =~= present);
        let mut to_add: Vec<String> = Vec::new();
        let mut i: usize = 0;
        proof {
            reveal(Seq::filter);
            assert(texts(names@).take(0) =~= Seq::empty());
            assert(texts(to_add@) =~= Seq::empty());
        }
        while i < names.len()
            invariant
                i <= names@.len(),
                texts(had_names@) == present,
                texts(to_add@) == texts(names@).take(i as int).filter(missing_from(present)),
                to_add@.len() <= i,
            decreases names@.len() - i,
        {
            let ghost before = texts(to_add@);
            proof {
                lemma_filter_step(texts(names@), missing_from(present), i as int);
            }
            if !has_text(&had_names, names[i].as_str()) {
                to_add.push(copy_text(&names[i]));
                assert(texts(to_add@) =~= before.push(names@[i as int]@));
            }
            i += 1;
        }
        assert(texts(names@).take(names@.len() as int) =~= texts(names@));
        if (to_add.len() as i128) + (store.tags.next_id as i128) >= i32::MAX as i128 {
            return Err(Error::Full);
        }
        let keep = |tag: &Tag| -> (yes: bool)
            ensures
                yes == stays(post_id, hashtags, texts(names@))(*tag),
            {
                !(tag.post_id == post_id && tag.is_hashtag == hashtags && !has_text(
                    &names,
                    tag.tag.as_str(),
                ))
            };
        let kept = store.tags.select(keep, Ghost(stays(post_id, hashtags, texts(names@))));
        proof {
            if store.wf() {
                crate::table::lemma_filter_numbered(
                    store.tags@.rows,
                    stays(post_id, hashtags, texts(names@)),
                    store.tags.next_id,
                );
            }
        }
        store.tags.rows = kept;
        let ghost base = tag_views(store.tags@.rows);
        let mut k: usize = 0;
        assert(numbered(wanted.take(0), post_id, hashtags, first) =~= Seq::empty());
        assert(base + Seq::<TagView>::empty() =~= base);
        while k < to_add.len()
            invariant
                k <= to_add@.len(),
                to_add@.len() <= names@.len(),
                wanted == texts(to_add@),
                first + to_add@.len() < i32::MAX,
                store.tags.next_id == first + k,
                tag_views(store.tags@.rows) == base + numbered(
                    wanted.take(k as int),
                    post_id,
                    hashtags,
                    first,
                ),
                *store == (Store { tags: store.tags, ..*old(store) }),
                old(store).wf() ==> store.wf(),
            decreases to_add@.len() - k,
        {
            let ghost so_far = tag_views(store.tags@.rows);
            let tag = Tag {
                id: store.tags.next_id,
                tag: copy_text(&to_add[k]),
                is_hashtag: hashtags,
                post_id,
            };
            let ghost view = tag@;
            store.tags.add(tag);
            proof {
                assert(tag_views(store.tags@.rows) =~= so_far.push(view));
                assert(numbered(wanted.take(k + 1), post_id, hashtags, first) =~= numbered(
                    wanted.take(k as int),
                    post_id,
                    hashtags,
                    first,
                ).push(view));
            }
            k += 1;
        }
        assert(wanted.take(to_add@.len() as int) =~= wanted);
        Ok(())
    }
}

} // verus!
