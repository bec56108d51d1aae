//! Media files: the covers of posts.

use crate::store::{Error, Store};
use crate::table::Row;
use crate::text::{copy_optional_text, copy_text};
use vstd::prelude::*;

verus! {

/// A media file, kept here or on another instance.
#[derive(Clone, Debug, PartialEq, Eq)]
pub struct Media {
    pub id: i32,
    /// Where the file is kept, for a file of this instance.
    pub file_path: String,
    pub alt_text: String,
    pub is_remote: bool,
    /// Where the file is, for a file of another instance.
    pub remote_url: Option<String>,
    pub sensitive: bool,
    pub content_warning: Option<String>,
    pub owner_id: i32,
}

impl Row for Media {
    open spec fn key(&self) -> i32 {
        self.id
    }

    fn id(&self) -> (id: i32) {
        self.id
    }

    fn copy(&self) -> (row: Media) {
        Media {
            id: self.id,
            file_path: copy_text(&self.file_path),
            alt_text: copy_text(&self.alt_text),
            is_remote: self.is_remote,
            remote_url: copy_optional_text(&self.remote_url),
            sensitive: self.sensitive,
            content_warning: copy_optional_text(&self.content_warning),
            owner_id: self.owner_id,
        }
    }
}

/// Where a media file is found: a file of another instance where that
/// instance keeps it, a file of this instance under the instance's domain.
pub open spec fn media_url(media: Media, domain: Seq<char>) -> Option<Seq<char>> {
    if media.is_remote {
        match media.remote_url {
            Some(url) => Some(url@),
            None => None,
        }
    } else {
        Some("https://"@ + domain + "/"@ + media.file_path@)
    }
}

impl Media {
    /// The media file with an identifier.
    pub fn get(store: &Store, id: i32) -> (found: Result<Media, Error>)
        ensures
            found == match store.medias.by_id(id) {
                Some(media) => Ok::<Media, Error>(media),
                None => Err::<Media, Error>(Error::NotFound),
            },
    {
        match store.medias.get(id) {
            Some(media) => Ok(media.copy()),
            None => Err(Error::NotFound),
        }
    }

    /// Where the file is found. A file of another instance whose place is
    /// not known has no address.
    pub fn url(&self, store: &Store) -> (url: Result<String, Error>)
        ensures
            match media_url(*self, store.local_domain@) {
                Some(text) => url matches Ok(made) && made@ == text,
                None => url == Err::<String, Error>(Error::NotFound),
            },
    {
        if self.is_remote {
            match &self.remote_url {
                Some(url) => Ok(copy_text(url)),
                None => Err(Error::NotFound),
            }
        } else {
            Ok(
                String::from_str("https://").concat(store.local_domain.as_str()).concat("/").concat(
                    self.file_path.as_str(),
                ),
            )
        }
    }
}

} // verus!
