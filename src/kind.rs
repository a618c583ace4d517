//! The entity kinds of the catalog, where their pages live, and the names
//! of their checkpoint tables.

use vstd::prelude::*;
use vstd::string::StringExecFns;

verus! {

/// The origin of the catalog site.
pub const SITE_ORIGIN: &'static str = "https://neodb.social";

/// The decimal digit `d`.
pub open spec fn digit_char(d: int) -> char {
    "0123456789"@[d]
}

/// The decimal notation of `n`, without leading zeros.
pub open spec fn decimal(n: nat) -> Seq<char>
    decreases n,
{
    if n < 10 {
        seq![digit_char(n as int)]
    } else {
        decimal(n / 10) + seq![digit_char((n % 10) as int)]
    }
}

/// Writes `n` in decimal.
pub fn decimal_string(n: u32) -> (r: String)
    ensures
        r@ == decimal(n as nat),
    decreases n,
{
    let digits: &str = "0123456789";
    proof {
        reveal_strlit("0123456789");
    }
    let d: usize = (n % 10) as usize;
    let last = digits.substring_char(d, d + 1);
    assert(last@ =~= seq![digit_char(d as int)]);
    if n < 10 {
        String::from_str(last)
    } else {
        decimal_string(n / 10).concat(last)
    }
}

/// The kinds of entity that the catalog serves.
#[derive(Clone, Copy, PartialEq, Eq, Structural, Debug)]
pub enum EntityKind {
    Book,
    Movie,
    Album,
}

impl EntityKind {
    /// The singular name of the kind, the stem of its table names.
    pub open spec fn name_spec(self) -> Seq<char> {
        match self {
            EntityKind::Book => "book"@,
            EntityKind::Movie => "movie"@,
            EntityKind::Album => "album"@,
        }
    }

    /// The path of the kind's pages under the site origin.
    pub open spec fn path_spec(self) -> Seq<char> {
        match self {
            EntityKind::Book => "books"@,
            EntityKind::Movie => "movies"@,
            EntityKind::Album => "music/album"@,
        }
    }

    /// Where the pages of the kind live: `{origin}/{path}`.
    pub open spec fn site_spec(self) -> Seq<char> {
        SITE_ORIGIN@ + "/"@ + self.path_spec()
    }

    /// The kinds, in the order a crawl handles them.
    pub fn all() -> (r: Vec<EntityKind>)
        ensures
            r@ == seq![EntityKind::Movie, EntityKind::Book, EntityKind::Album],
    {
        vec![EntityKind::Movie, EntityKind::Book, EntityKind::Album]
    }

    /// The singular name of the kind.
    pub fn name(&self) -> (r: &'static str)
        ensures
            r@ == self.name_spec(),
    {
        match self {
            EntityKind::Book => "book",
            EntityKind::Movie => "movie",
            EntityKind::Album => "album",
        }
    }

    /// The path of the kind's pages under the site origin.
    pub fn path(&self) -> (r: &'static str)
        ensures
            r@ == self.path_spec(),
    {
        match self {
            EntityKind::Book => "books",
            EntityKind::Movie => "movies",
            EntityKind::Album => "music/album",
        }
    }

    /// The table of stored records: `{kind}s`.
    pub fn records_table(&self) -> (r: String)
        ensures
            r@ == self.name_spec() + "s"@,
    {
        String::from_str(self.name()).concat("s")
    }

    /// The table of ids confirmed absent: `{kind}_404`.
    pub fn absent_table(&self) -> (r: String)
        ensures
            r@ == self.name_spec() + "_404"@,
    {
        String::from_str(self.name()).concat("_404")
    }

    /// The table of ids whose cover is done: `{kind}_covers`.
    pub fn covers_table(&self) -> (r: String)
        ensures
            r@ == self.name_spec() + "_covers"@,
    {
        String::from_str(self.name()).concat("_covers")
    }

    /// Where the pages of the kind live.
    pub fn site(&self) -> (r: String)
        ensures
            r@ == self.site_spec(),
    {
        String::from_str(SITE_ORIGIN).concat("/").concat(self.path())
    }

    /// The page of the entity `id`: `{site}/{id}`.
    pub fn page_url(&self, id: u32) -> (r: String)
        ensures
            r@ == self.site_spec() + "/"@ + decimal(id as nat),
    {
        let digits = decimal_string(id);
        self.site().concat("/").concat(digits.as_str())
    }
}

} // verus!
