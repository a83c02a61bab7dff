use pin_blog::catalog::{
    build_catalog, insert_post, select_posts, Candidate, Dated, Listing, PostEntry,
};
use pin_blog::config::Config;
use pin_blog::history::{HistoryOutcome, QueryError};
use pin_blog::pages::{PageError, Status};
use pin_blog::resolver::{
    finish_resolution, plan_resolution, Observation, ResolveError, ResolveStep,
};

fn names(items: &[&[u8]]) -> Listing {
    Listing::Entries(items.iter().map(|n| n.to_vec()).collect())
}

fn dated(stem: &str, resolution: Result<i64, ResolveError>) -> Dated {
    Dated { stem: String::from(stem), resolution }
}

fn entry(stem: &str, timestamp: i64) -> PostEntry {
    PostEntry { stem: String::from(stem), timestamp, link: format!("post/{}", stem) }
}

fn stems(catalog: &[PostEntry]) -> Vec<&str> {
    catalog.iter().map(|p| p.stem.as_str()).collect()
}

#[test]
fn a_folder_without_markdown_gives_an_empty_catalog() {
    let listing = names(&[b"c.txt", b"notes", b".md", b"a.mdx", b"image.png", b"md"]);
    let candidates = select_posts(&listing).unwrap();
    assert_eq!(candidates, Vec::<Candidate>::new());
    let nothing: Vec<Dated> = Vec::new();
    assert_eq!(build_catalog(&nothing), Vec::<PostEntry>::new());
}

#[test]
fn an_empty_folder_gives_an_empty_catalog() {
    assert_eq!(select_posts(&names(&[])), Ok(Vec::new()));
}

#[test]
fn a_missing_folder_is_an_empty_catalog_and_no_error() {
    let config = Config { folder_path: String::from("./blog"), git_repo: None };
    assert_eq!(plan_resolution(&config, "./blog/posts/a.md"), ResolveStep::ReadChangeTime);
    let candidates = select_posts(&Listing::Missing);
    assert_eq!(candidates, Ok(Vec::new()));
    let resolved: Vec<Dated> = Vec::new();
    assert_eq!(build_catalog(&resolved), Vec::<PostEntry>::new());
}

#[test]
fn an_unreadable_folder_fails_the_request() {
    let listing = Listing::Unreadable(String::from("Permission denied"));
    assert_eq!(
        select_posts(&listing),
        Err(PageError {
            status: Status::InternalServerError,
            reason: String::from("Permission denied"),
        })
    );
}

#[test]
fn candidates_keep_position_and_stem() {
    let listing = names(&[b"c.txt", b"a.md", b"\xff.md", b"B.MD", b"d.md.bak", b"e.f.md"]);
    assert_eq!(
        select_posts(&listing),
        Ok(vec![
            Candidate { index: 1, stem: String::from("a") },
            Candidate { index: 3, stem: String::from("B") },
            Candidate { index: 5, stem: String::from("e.f") },
        ])
    );
}

#[test]
fn posts_are_listed_newest_first() {
    let listing = names(&[b"a.md", b"b.md", b"c.txt"]);
    let candidates = select_posts(&listing).unwrap();
    assert_eq!(candidates.len(), 2);
    let histories: [&[u8]; 2] = [b"100", b"200"];
    let mut resolved: Vec<Dated> = Vec::new();
    for candidate in candidates {
        let outcome = HistoryOutcome::Finished {
            code: Some(0),
            stdout: histories[resolved.len()].to_vec(),
        };
        resolved.push(Dated {
            stem: candidate.stem,
            resolution: finish_resolution(Observation::History(outcome)),
        });
    }
    let catalog = build_catalog(&resolved);
    assert_eq!(catalog, vec![entry("b", 200), entry("a", 100)]);
    assert_eq!(stems(&catalog), vec!["b", "a"]);
}

#[test]
fn distinct_times_give_a_strictly_descending_catalog() {
    let resolved = vec![
        dated("one", Ok(10)),
        dated("two", Ok(-5)),
        dated("three", Ok(300)),
        dated("four", Ok(0)),
        dated("five", Ok(i64::MAX)),
        dated("six", Ok(i64::MIN)),
        dated("seven", Ok(299)),
    ];
    let catalog = build_catalog(&resolved);
    assert_eq!(stems(&catalog), vec!["five", "three", "seven", "one", "four", "two", "six"]);
    for pair in catalog.windows(2) {
        assert!(pair[0].timestamp > pair[1].timestamp);
    }
}

#[test]
fn failed_resolutions_are_left_out() {
    let resolved = vec![
        dated("kept", Ok(5)),
        dated("uncommitted", Err(ResolveError::Query(QueryError::EmptyOutput))),
        dated("outside", Err(ResolveError::OutsideWorkingCopy)),
        dated("also-kept", Ok(7)),
        dated("vanished", Err(ResolveError::Metadata(String::from("No such file")))),
    ];
    let catalog = build_catalog(&resolved);
    assert_eq!(catalog.len(), 2);
    assert_eq!(catalog, vec![entry("also-kept", 7), entry("kept", 5)]);
}

#[test]
fn an_uncommitted_file_is_not_sorted_as_oldest() {
    let resolved = vec![
        dated("old", Ok(-100)),
        dated("draft", Err(ResolveError::Query(QueryError::EmptyOutput))),
        dated("new", Ok(100)),
    ];
    assert_eq!(stems(&build_catalog(&resolved)), vec!["new", "old"]);
}

#[test]
fn equal_times_keep_every_post() {
    let resolved = vec![dated("x", Ok(1)), dated("y", Ok(1)), dated("z", Ok(2)), dated("x", Ok(1))];
    let catalog = build_catalog(&resolved);
    assert_eq!(catalog.len(), 4);
    assert_eq!(catalog[0], entry("z", 2));
    let mut rest = stems(&catalog[1..]);
    rest.sort();
    assert_eq!(rest, vec!["x", "x", "y"]);
    for pair in catalog.windows(2) {
        assert!(pair[0].timestamp >= pair[1].timestamp);
    }
}

#[test]
fn a_post_links_to_its_stem() {
    let catalog = build_catalog(&vec![dated("hello-world", Ok(1))]);
    assert_eq!(catalog[0].link, "post/hello-world");
    assert_eq!(catalog[0].stem, "hello-world");
    assert_eq!(catalog[0].timestamp, 1);
}

#[test]
fn inserting_keeps_the_order() {
    let mut catalog = vec![entry("c", 30), entry("b", 20), entry("a", 10)];
    insert_post(&mut catalog, entry("n", 25));
    assert_eq!(stems(&catalog), vec!["c", "n", "b", "a"]);
    insert_post(&mut catalog, entry("top", 40));
    insert_post(&mut catalog, entry("bottom", 5));
    assert_eq!(stems(&catalog), vec!["top", "c", "n", "b", "a", "bottom"]);
    let mut empty: Vec<PostEntry> = Vec::new();
    insert_post(&mut empty, entry("only", 1));
    assert_eq!(stems(&empty), vec!["only"]);
}
