//! The settings of a crawl.

use crate::kind::EntityKind;
use vstd::prelude::*;

verus! {

/// How many fetches a pipeline keeps in flight at most.
pub const DEFAULT_CONCURRENCY: usize = 100;

/// The timeout of a metadata request, in seconds.
pub const METADATA_TIMEOUT_SECS: u64 = 5;

/// The timeout of a cover download, in seconds: images take longer than pages.
pub const COVER_TIMEOUT_SECS: u64 = 30;

/// The smallest id the remote assigns.
pub const MIN_ID: u32 = 1;

/// Where the checkpoint store lives, where the covers of each kind go, and
/// the optional overrides of the concurrency ceiling and of each kind's id
/// range.
#[derive(Clone, Debug, PartialEq, Eq)]
pub struct Config {
    pub db: String,
    pub book_cover_path: String,
    pub movie_cover_path: String,
    pub album_cover_path: String,
    pub concurrency: Option<usize>,
    pub book_min_id: Option<u32>,
    pub book_max_id: Option<u32>,
    pub movie_min_id: Option<u32>,
    pub movie_max_id: Option<u32>,
    pub album_min_id: Option<u32>,
    pub album_max_id: Option<u32>,
}

impl Config {
    /// A configuration with no overrides.
    pub fn new(db: String, book_cover_path: String, movie_cover_path: String, album_cover_path: String) -> (r: Self)
        ensures
            r == (Config {
                db,
                book_cover_path,
                movie_cover_path,
                album_cover_path,
                concurrency: None,
                book_min_id: None,
                book_max_id: None,
                movie_min_id: None,
                movie_max_id: None,
                album_min_id: None,
                album_max_id: None,
            }),
    {
        Config {
            db,
            book_cover_path,
            movie_cover_path,
            album_cover_path,
            concurrency: None,
            book_min_id: None,
            book_max_id: None,
            movie_min_id: None,
            movie_max_id: None,
            album_min_id: None,
            album_max_id: None,
        }
    }

    /// The concurrency ceiling: the override, unless it is missing or 0.
    pub fn concurrency(&self) -> (r: usize)
        ensures
            r >= 1,
            r == (match self.concurrency {
                Some(n) => if n >= 1 {
                    n
                } else {
                    DEFAULT_CONCURRENCY
                },
                None => DEFAULT_CONCURRENCY,
            }),
    {
        match self.concurrency {
            Some(n) => if n >= 1 {
                n
            } else {
                DEFAULT_CONCURRENCY
            },
            None => DEFAULT_CONCURRENCY,
        }
    }

    /// The smallest id to crawl for a kind: its override, or the smallest id
    /// the remote assigns.
    pub fn min_id(&self, kind: EntityKind) -> (r: u32)
        ensures
            r == (match (match kind {
                EntityKind::Book => self.book_min_id,
                EntityKind::Movie => self.movie_min_id,
                EntityKind::Album => self.album_min_id,
            }) {
                Some(m) => m,
                None => MIN_ID,
            }),
    {
        let o = match kind {
            EntityKind::Book => self.book_min_id,
            EntityKind::Movie => self.movie_min_id,
            EntityKind::Album => self.album_min_id,
        };
        match o {
            Some(m) => m,
            None => MIN_ID,
        }
    }

    /// The largest id to crawl for a kind, where one is configured.
    pub fn max_id(&self, kind: EntityKind) -> (r: Option<u32>)
        ensures
            r == (match kind {
                EntityKind::Book => self.book_max_id,
                EntityKind::Movie => self.movie_max_id,
                EntityKind::Album => self.album_max_id,
            }),
    {
        match kind {
            EntityKind::Book => self.book_max_id,
            EntityKind::Movie => self.movie_max_id,
            EntityKind::Album => self.album_max_id,
        }
    }

    /// The cover directory of a kind.
    pub fn cover_path(&self, kind: EntityKind) -> (r: &String)
        ensures
            r == (match kind {
                EntityKind::Book => &self.book_cover_path,
                EntityKind::Movie => &self.movie_cover_path,
                EntityKind::Album => &self.album_cover_path,
            }),
    {
        match kind {
            EntityKind::Book => &self.book_cover_path,
            EntityKind::Movie => &self.movie_cover_path,
            EntityKind::Album => &self.album_cover_path,
        }
    }
}

} // verus!
