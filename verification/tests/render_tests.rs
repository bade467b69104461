use sitegen::date::parse_date;
use sitegen::models::{Frontmatter, Group, Page, Post, TemplateKind};
use sitegen::render::categories::render_categories;
use sitegen::render::index::render_index;
use sitegen::render::page::render_page;
use sitegen::render::post::render_post;
use sitegen::render::rss::render_rss;
use sitegen::render::sitemap::render_sitemap;
use sitegen::render::tags::render_tags;
use sitegen::store::build_store;
use sitegen::urls::{abs_url, category_rel_path, page_rel_path, post_rel_path, tag_rel_path};

const BASE: &str = "https://example.org/";

fn post(title: &str, date: &str, slug: &str, tags: &[&str], category: &str) -> Post {
    Post {
        frontmatter: Frontmatter {
            title: title.to_string(),
            date: date.to_string(),
            slug: slug.to_string(),
            draft: false,
            summary: format!("{} in short", title),
            tags: tags.iter().map(|t| t.to_string()).collect(),
            category: category.to_string(),
        },
        content: format!("<p>{}</p>", title),
        pub_date: parse_date(date).expect("test date"),
    }
}

fn page(title: &str, slug: &str) -> Page {
    Page {
        title: title.to_string(),
        slug: slug.to_string(),
        content: String::new(),
        template: TemplateKind::Default,
        custom_data: None,
    }
}

fn three_posts() -> Vec<Post> {
    build_store(vec![
        post("C", "2024-03-01", "c", &["x"], "misc"),
        post("B", "2024-02-01", "b", &["x", "y"], ""),
        post("A", "2024-01-01", "a", &["y"], "misc"),
    ])
}

fn group_by_key<'a>(groups: &'a [Group], key: &str) -> &'a Group {
    groups.iter().find(|g| g.key == key).expect("group should exist")
}

#[test]
fn navigation_follows_the_sorted_order() {
    let posts = three_posts();
    let newest = render_post(&posts, 0);
    assert!(newest.next_post.is_none());
    assert_eq!(newest.previous_post.as_ref().map(|l| l.slug.as_str()), Some("b"));

    let middle = render_post(&posts, 1);
    assert_eq!(middle.next_post.as_ref().map(|l| l.slug.as_str()), Some("c"));
    assert_eq!(middle.previous_post.as_ref().map(|l| l.slug.as_str()), Some("a"));

    let oldest = render_post(&posts, 2);
    assert_eq!(oldest.next_post.as_ref().map(|l| l.slug.as_str()), Some("b"));
    assert!(oldest.previous_post.is_none());

    assert_eq!(newest.rel_path, "c.html");
}

#[test]
fn navigation_links_carry_title_and_slug() {
    let posts = three_posts();
    let middle = render_post(&posts, 1);
    let next = middle.next_post.expect("has next");
    assert_eq!(next.title, "C");
    assert_eq!(next.slug, "c");
}

#[test]
fn tag_pages_list_exactly_the_tagged_posts_in_order() {
    let posts = three_posts();
    let groups = render_tags(&posts);
    assert_eq!(groups.len(), 2);
    let x = group_by_key(&groups, "x");
    assert_eq!(x.members, vec![0, 1]);
    let y = group_by_key(&groups, "y");
    assert_eq!(y.members, vec![1, 2]);
}

#[test]
fn tag_keys_are_not_folded_or_trimmed() {
    let posts = build_store(vec![
        post("P", "2024-01-01", "p", &["Rust", "rust", " rust"], ""),
    ]);
    let groups = render_tags(&posts);
    assert_eq!(groups.len(), 3);
}

#[test]
fn empty_categories_make_no_group() {
    let posts = three_posts();
    let groups = render_categories(&posts);
    assert_eq!(groups.len(), 1);
    let misc = group_by_key(&groups, "misc");
    assert_eq!(misc.members, vec![0, 2]);
}

#[test]
fn the_index_lists_the_store_in_order() {
    let posts = three_posts();
    let index = render_index(&posts);
    assert_eq!(index.rel_path, "index.html");
    assert_eq!(index.entries.len(), 3);
    assert_eq!(index.entries[0].title, "C");
    assert_eq!(index.entries[0].rel_path, "c.html");
    assert_eq!(index.entries[2].date, "2024-01-01");
    assert_eq!(index.entries[1].summary, "B in short");
}

#[test]
fn feed_items_use_resolver_links_and_midnight_stamps() {
    let posts = three_posts();
    let items = render_rss(&posts, BASE);
    assert_eq!(items.len(), 3);
    assert_eq!(items[0].link, "https://example.org/c.html");
    assert_eq!(items[0].pub_date, "2024-03-01T00:00:00+00:00");
    assert_eq!(items[2].title, "A");
    assert_eq!(items[2].content, "<p>A</p>");
}

#[test]
fn page_files_sit_beside_posts() {
    let p = page("About", "about");
    assert_eq!(render_page(&p), "about.html");
}

#[test]
fn the_sitemap_counts_every_entity_once() {
    let posts = three_posts();
    let pages = vec![page("About", "about"), page("Contact", "contact")];
    let tags = render_tags(&posts);
    let categories = render_categories(&posts);
    let urls = render_sitemap(&posts, &pages, &tags, &categories, BASE, "now");
    assert_eq!(urls.len(), 1 + 3 + 2 + 2 + 1);
}

#[test]
fn sitemap_urls_match_the_resolver_byte_for_byte() {
    let posts = three_posts();
    let pages = vec![page("About", "about")];
    let tags = render_tags(&posts);
    let categories = render_categories(&posts);
    let urls = render_sitemap(&posts, &pages, &tags, &categories, BASE, "now");

    assert_eq!(urls[0].loc, BASE);
    for (i, p) in posts.iter().enumerate() {
        assert_eq!(urls[1 + i].loc, abs_url(BASE, &post_rel_path(&p.frontmatter.slug)));
    }
    assert_eq!(urls[4].loc, abs_url(BASE, &page_rel_path("about")));
    for (i, g) in tags.iter().enumerate() {
        assert_eq!(urls[5 + i].loc, abs_url(BASE, &tag_rel_path(&g.key)));
    }
    for (i, g) in categories.iter().enumerate() {
        assert_eq!(urls[5 + tags.len() + i].loc, abs_url(BASE, &category_rel_path(&g.key)));
    }
    assert!(urls[5].loc.contains("tags/"));
    assert!(urls[urls.len() - 1].loc.contains("categories/"));
}

#[test]
fn sitemap_stamps_come_from_the_latest_post() {
    let posts = three_posts();
    let pages = vec![page("About", "about")];
    let tags = render_tags(&posts);
    let categories = render_categories(&posts);
    let urls = render_sitemap(&posts, &pages, &tags, &categories, BASE, "ignored");
    assert_eq!(urls[0].lastmod, "2024-03-01T00:00:00+00:00");
    assert_eq!(urls[1].lastmod, "2024-03-01T00:00:00+00:00");
    assert_eq!(urls[3].lastmod, "2024-01-01T00:00:00+00:00");
    assert_eq!(urls[4].lastmod, "2024-03-01T00:00:00+00:00");
}

#[test]
fn an_empty_store_stamps_the_sitemap_with_build_time() {
    let posts: Vec<Post> = Vec::new();
    let pages = vec![page("About", "about")];
    let tags = render_tags(&posts);
    let categories = render_categories(&posts);
    let urls = render_sitemap(&posts, &pages, &tags, &categories, BASE, "2024-06-01T12:00:00+00:00");
    assert_eq!(urls.len(), 2);
    assert_eq!(urls[0].lastmod, "2024-06-01T12:00:00+00:00");
}

#[test]
fn drafts_appear_in_no_output() {
    let store = build_store(vec![
        post("Shown", "2024-01-01", "shown", &["t"], "cat"),
        Post {
            frontmatter: Frontmatter {
                title: "Hidden".to_string(),
                date: "2030-01-01".to_string(),
                slug: "hidden".to_string(),
                draft: true,
                summary: String::new(),
                tags: vec!["t".to_string()],
                category: "cat".to_string(),
            },
            content: String::new(),
            pub_date: parse_date("2030-01-01").unwrap(),
        },
    ]);
    let index = render_index(&store);
    assert!(index.entries.iter().all(|e| e.title != "Hidden"));
    let tags = render_tags(&store);
    assert_eq!(group_by_key(&tags, "t").members, vec![0]);
    let items = render_rss(&store, BASE);
    assert!(items.iter().all(|i| i.title != "Hidden"));
    let no_pages: Vec<Page> = Vec::new();
    let urls = render_sitemap(&store, &no_pages, &tags, &render_categories(&store), BASE, "now");
    assert!(urls.iter().all(|u| !u.loc.contains("hidden")));
    assert_eq!(urls.len(), 1 + 1 + 0 + 1 + 1);
}
