use datura::cover::{cover_outcome, download_file_name, url_extension};
use datura::kind::decimal_string;
use datura::{
    decode_id, empty2none, encode_id, plan_cover, Album, Book, Config, Cover, CoverOutcome,
    CoverPlan, EntityKind, FetchOutcome, Movie,
};

#[test]
fn keys_are_big_endian() {
    assert_eq!(encode_id(1), vec![0, 0, 0, 1]);
    assert_eq!(encode_id(0x0102_0304), vec![1, 2, 3, 4]);
    assert_eq!(encode_id(u32::MAX), vec![255, 255, 255, 255]);
    assert_eq!(decode_id(&[0, 0, 1, 0]), Some(256));
    assert_eq!(decode_id(&[1, 2, 3]), None);
    assert_eq!(decode_id(&[]), None);
    assert_eq!(decode_id(&[1, 2, 3, 4, 5]), None);
}

#[test]
fn keys_round_trip_and_keep_order() {
    let ids = [0u32, 1, 255, 256, 65_535, 65_536, 1_000_000, u32::MAX - 1, u32::MAX];
    for id in ids {
        assert_eq!(decode_id(&encode_id(id)), Some(id));
    }
    for a in ids {
        for b in ids {
            assert_eq!(encode_id(a) < encode_id(b), a < b);
        }
    }
}

#[test]
fn decimal_strings() {
    assert_eq!(decimal_string(0), "0");
    assert_eq!(decimal_string(7), "7");
    assert_eq!(decimal_string(10), "10");
    assert_eq!(decimal_string(305), "305");
    assert_eq!(decimal_string(u32::MAX), "4294967295");
}

#[test]
fn kind_tables_and_urls() {
    assert_eq!(EntityKind::Book.records_table(), "books");
    assert_eq!(EntityKind::Book.absent_table(), "book_404");
    assert_eq!(EntityKind::Book.covers_table(), "book_covers");
    assert_eq!(EntityKind::Movie.records_table(), "movies");
    assert_eq!(EntityKind::Album.absent_table(), "album_404");
    assert_eq!(EntityKind::Album.covers_table(), "album_covers");
    assert_eq!(EntityKind::Movie.site(), "https://neodb.social/movies");
    assert_eq!(EntityKind::Album.page_url(42), "https://neodb.social/music/album/42");
    assert_eq!(EntityKind::Book.page_url(1), "https://neodb.social/books/1");
    assert_eq!(EntityKind::all(), vec![EntityKind::Movie, EntityKind::Book, EntityKind::Album]);
}

#[test]
fn cover_plans() {
    assert_eq!(plan_cover(12, None), CoverPlan::NoCover);
    assert_eq!(
        plan_cover(12, Some("/m/item/2023/ab.cd.jpg".to_string())),
        CoverPlan::Download {
            url: "https://neodb.social/m/item/2023/ab.cd.jpg".to_string(),
            file_name: "12.jpg".to_string(),
        }
    );
    assert_eq!(
        plan_cover(7, Some("/media/cover.v2/img".to_string())),
        CoverPlan::Download {
            url: "https://neodb.social/media/cover.v2/img".to_string(),
            file_name: "7".to_string(),
        }
    );
}

#[test]
fn url_extensions() {
    assert_eq!(url_extension("https://neodb.social/m/a.png"), Some("png"));
    assert_eq!(url_extension("https://neodb.social/m/a"), None);
    assert_eq!(url_extension("https://neodb.social/m/a."), Some(""));
    assert_eq!(url_extension("plain.webp"), Some("webp"));
}

#[test]
fn cover_outcomes() {
    assert_eq!(cover_outcome(FetchOutcome::Fetched), CoverOutcome::Saved);
    assert_eq!(cover_outcome(FetchOutcome::NotFound), CoverOutcome::Failed);
    assert_eq!(cover_outcome(FetchOutcome::Failed), CoverOutcome::Failed);
}

#[test]
fn empty_fields_become_none() {
    assert_eq!(empty2none(String::new()), None);
    assert_eq!(empty2none("x".to_string()), Some("x".to_string()));
    assert_eq!(empty2none(" ".to_string()), Some(" ".to_string()));
}

fn book(cover: Option<&str>) -> Book {
    Book {
        title: "T".to_string(),
        cover: cover.map(|c| c.to_string()),
        source: None,
        isbn: None,
        authors: vec![],
        publisher: None,
        subtitle: None,
        translators: vec![],
        original_title: None,
        language: None,
        pub_time: None,
        bookformat: None,
        price: None,
        pages: None,
        other_info: None,
        tags: vec![],
        description: None,
        content: None,
    }
}

#[test]
fn records_give_their_cover() {
    assert_eq!(book(Some("/c.jpg")).cover(), Some("/c.jpg".to_string()));
    assert_eq!(book(None).cover(), None);
    let m = Movie {
        title: "M".to_string(),
        cover: Some("/m.png".to_string()),
        source: None,
        imdb: None,
        directors: vec![],
        writers: vec![],
        stars: vec![],
        genres: vec![],
        countries: vec![],
        languages: vec![],
        runtime: None,
        season: None,
        episode: None,
        episode_runtime: None,
        release_dates: vec![],
        alias: vec![],
        tags: vec![],
        description: None,
    };
    assert_eq!(m.cover(), Some("/m.png".to_string()));
    let a = Album {
        title: "A".to_string(),
        cover: None,
        source: None,
        artists: vec![],
        companies: vec![],
        pub_time: None,
        genre: None,
        medium: None,
        code: None,
        format: None,
        tags: vec![],
        description: None,
        content: None,
        tracks: vec![],
    };
    assert_eq!(a.cover(), None);
}

#[test]
fn config_cover_paths() {
    let c = Config::new("db".to_string(), "b".to_string(), "m".to_string(), "a".to_string());
    assert_eq!(c.cover_path(EntityKind::Book), "b");
    assert_eq!(c.cover_path(EntityKind::Movie), "m");
    assert_eq!(c.cover_path(EntityKind::Album), "a");
}

#[test]
fn config_overrides() {
    let mut c = Config::new("db".to_string(), "b".to_string(), "m".to_string(), "a".to_string());
    assert_eq!(c.concurrency(), 100);
    assert_eq!(c.min_id(EntityKind::Movie), 1);
    assert_eq!(c.max_id(EntityKind::Movie), None);
    c.concurrency = Some(0);
    assert_eq!(c.concurrency(), 100);
    c.concurrency = Some(8);
    assert_eq!(c.concurrency(), 8);
    c.movie_min_id = Some(50);
    c.album_max_id = Some(900);
    assert_eq!(c.min_id(EntityKind::Movie), 50);
    assert_eq!(c.min_id(EntityKind::Book), 1);
    assert_eq!(c.max_id(EntityKind::Album), Some(900));
    assert_eq!(c.max_id(EntityKind::Book), None);
}

#[test]
fn download_file_names() {
    assert_eq!(download_file_name("https://img.example/a/b/c.jpg"), "c.jpg");
    assert_eq!(download_file_name("/a/b/"), "tmp.bin");
    assert_eq!(download_file_name("/x.png"), "x.png");
    assert_eq!(download_file_name("plain"), "plain");
    assert_eq!(download_file_name(""), "tmp.bin");
}
