//! The records of the three entity kinds, as the extractor produces them.

use vstd::prelude::*;

verus! {

/// A book.
#[derive(Clone, Debug, PartialEq, Eq)]
pub struct Book {
    pub title: String,
    pub cover: Option<String>,
    pub source: Option<String>,
    pub isbn: Option<String>,
    pub authors: Vec<String>,
    pub publisher: Option<String>,
    pub subtitle: Option<String>,
    pub translators: Vec<String>,
    pub original_title: Option<String>,
    pub language: Option<String>,
    pub pub_time: Option<String>,
    pub bookformat: Option<String>,
    pub price: Option<String>,
    pub pages: Option<String>,
    pub other_info: Option<String>,
    pub tags: Vec<String>,
    pub description: Option<String>,
    pub content: Option<String>,
}

/// A movie or a series.
#[derive(Clone, Debug, PartialEq, Eq)]
pub struct Movie {
    pub title: String,
    pub cover: Option<String>,
    pub source: Option<String>,
    pub imdb: Option<String>,
    pub directors: Vec<String>,
    pub writers: Vec<String>,
    pub stars: Vec<String>,
    pub genres: Vec<String>,
    pub countries: Vec<String>,
    pub languages: Vec<String>,
    pub runtime: Option<String>,
    pub season: Option<String>,
    pub episode: Option<String>,
    pub episode_runtime: Option<String>,
    pub release_dates: Vec<String>,
    pub alias: Vec<String>,
    pub tags: Vec<String>,
    pub description: Option<String>,
}

/// A music album.
#[derive(Clone, Debug, PartialEq, Eq)]
pub struct Album {
    pub title: String,
    pub cover: Option<String>,
    pub source: Option<String>,
    pub artists: Vec<String>,
    pub companies: Vec<String>,
    pub pub_time: Option<String>,
    pub genre: Option<String>,
    pub medium: Option<String>,
    pub code: Option<String>,
    pub format: Option<String>,
    pub tags: Vec<String>,
    pub description: Option<String>,
    pub content: Option<String>,
    pub tracks: Vec<String>,
}

/// A record that may carry a cover reference: a site-relative path.
pub trait Cover: Sized {
    /// The cover reference of the record.
    spec fn cover_ref(&self) -> Option<String>;

    /// Takes the cover reference out of the record.
    fn cover(self) -> (r: Option<String>)
        ensures
            r == self.cover_ref(),
    ;
}

impl Cover for Book {
    open spec fn cover_ref(&self) -> Option<String> {
        self.cover
    }

    fn cover(self) -> (r: Option<String>) {
        self.cover
    }
}

impl Cover for Movie {
    open spec fn cover_ref(&self) -> Option<String> {
        self.cover
    }

    fn cover(self) -> (r: Option<String>) {
        self.cover
    }
}

impl Cover for Album {
    open spec fn cover_ref(&self) -> Option<String> {
        self.cover
    }

    fn cover(self) -> (r: Option<String>) {
        self.cover
    }
}

/// An extracted field: an empty text stands for a missing field.
pub fn empty2none(input: String) -> (r: Option<String>)
    ensures
        input@.len() == 0 ==> r is None,
        input@.len() != 0 ==> r == Some(input),
{
    if input.as_str().is_empty() {
        None
    } else {
        Some(input)
    }
}

} // verus!
