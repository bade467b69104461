use sitegen::date::parse_date;
use sitegen::models::{Frontmatter, Post};
use sitegen::store::{build_store, sort_posts};

fn post(title: &str, date: &str, slug: &str, draft: bool) -> Post {
    Post {
        frontmatter: Frontmatter {
            title: title.to_string(),
            date: date.to_string(),
            slug: slug.to_string(),
            draft,
            summary: String::new(),
            tags: Vec::new(),
            category: String::new(),
        },
        content: String::new(),
        pub_date: parse_date(date).expect("test date"),
    }
}

fn slugs(posts: &[Post]) -> Vec<&str> {
    posts.iter().map(|p| p.frontmatter.slug.as_str()).collect()
}

#[test]
fn sorts_newest_first() {
    let input = vec![
        post("A", "2024-01-01", "a", false),
        post("C", "2024-03-01", "c", false),
        post("B", "2024-02-01", "b", false),
    ];
    let store = build_store(input);
    assert_eq!(slugs(&store), vec!["c", "b", "a"]);
}

#[test]
fn three_dated_posts_order_as_given() {
    let input = vec![
        post("C", "2024-03-01", "c", false),
        post("B", "2024-02-01", "b", false),
        post("A", "2024-01-01", "a", false),
    ];
    let store = build_store(input);
    assert_eq!(slugs(&store), vec!["c", "b", "a"]);
}

#[test]
fn equal_dates_keep_input_order() {
    let input = vec![
        post("First", "2024-01-05", "first", false),
        post("Second", "2024-01-05", "second", false),
        post("Newer", "2024-02-01", "newer", false),
        post("Third", "2024-01-05", "third", false),
    ];
    let store = build_store(input);
    assert_eq!(slugs(&store), vec!["newer", "first", "second", "third"]);
}

#[test]
fn sort_alone_is_stable_too() {
    let input = vec![
        post("B1", "2024-01-05", "b1", false),
        post("A", "2024-01-09", "a", false),
        post("B2", "2024-01-05", "b2", false),
    ];
    let sorted = sort_posts(input);
    assert_eq!(slugs(&sorted), vec!["a", "b1", "b2"]);
}

#[test]
fn drafts_never_reach_the_store() {
    let input = vec![
        post("Old", "2020-01-01", "old", false),
        post("Hidden", "2030-01-01", "hidden", true),
        post("New", "2024-01-01", "new", false),
    ];
    let store = build_store(input);
    assert_eq!(slugs(&store), vec!["new", "old"]);
}

#[test]
fn an_all_draft_build_is_empty() {
    let input = vec![post("D", "2024-01-01", "d", true)];
    let store = build_store(input);
    assert!(store.is_empty());
}
