use hnscraper::{
    get_more_link, get_submissions_from_document, hn_auth_cookie, make_absolute_url,
    more_link_from_links, page_from_body, posts_from_links, request_url, scrape_page,
    status_is_success, username_from_auth, favorites_path, upvoted_path, Document, Link,
    HN_BASE_URL,
};

// Sample HTML for testing parsing functions
const SAMPLE_HN_HTML: &str = r#"
        <html>
        <body>
        <table>
            <tr class="athing">
                <td class="title">
                    <span class="titleline">
                        <a href="https://example.com/story1">First Story Title</a>
                    </span>
                </td>
            </tr>
            <tr class="athing">
                <td class="title">
                    <span class="titleline">
                        <a href="https://example.com/story2">Second Story Title</a>
                    </span>
                </td>
            </tr>
        </table>
        <a class="morelink" href="?p=2">More</a>
        </body>
        </html>
    "#;

const SAMPLE_HN_HTML_NO_MORE: &str = r#"
        <html>
        <body>
        <table>
            <tr class="athing">
                <td class="title">
                    <span class="titleline">
                        <a href="https://example.com/last-story">Last Story</a>
                    </span>
                </td>
            </tr>
        </table>
        </body>
        </html>
    "#;

#[test]
fn test_get_submissions_from_document() {
    let document = Document::parse_document(SAMPLE_HN_HTML);
    let submissions = get_submissions_from_document(&document);

    assert_eq!(submissions.len(), 2);
    assert_eq!(submissions[0].title, "First Story Title");
    assert_eq!(submissions[0].url, "https://example.com/story1");
    assert_eq!(submissions[1].title, "Second Story Title");
    assert_eq!(submissions[1].url, "https://example.com/story2");
}

#[test]
fn test_get_submissions_empty_document() {
    let document = Document::parse_document("<html><body></body></html>");
    let submissions = get_submissions_from_document(&document);
    assert_eq!(submissions.len(), 0);
}

#[test]
fn test_username_from_auth() {
    assert_eq!(
        username_from_auth("test_user&cookie=abc"),
        Some("test_user".to_string())
    );
    assert_eq!(
        username_from_auth("single_user"),
        Some("single_user".to_string())
    );
    assert_eq!(username_from_auth(""), Some("".to_string()));
}

#[test]
fn test_get_more_link_exists() {
    let document = Document::parse_document(SAMPLE_HN_HTML);
    let more_link = get_more_link(&document);

    assert!(more_link.is_some());
    assert_eq!(more_link.unwrap(), "?p=2");
}

#[test]
fn test_get_more_link_not_exists() {
    let document = Document::parse_document(SAMPLE_HN_HTML_NO_MORE);
    let more_link = get_more_link(&document);

    assert!(more_link.is_none());
}

#[test]
fn username_stops_at_first_ampersand() {
    assert_eq!(username_from_auth("a&b&c"), Some("a".to_string()));
    assert_eq!(username_from_auth("&token"), Some("".to_string()));
    assert_eq!(username_from_auth("ünïcode&x"), Some("ünïcode".to_string()));
}

#[test]
fn auth_cookie_names_user_and_domain() {
    assert_eq!(
        hn_auth_cookie("test_user_auth_token"),
        "user=test_user_auth_token; Domain=news.ycombinator.com"
    );
}

#[test]
fn discussion_links_become_absolute() {
    assert_eq!(
        make_absolute_url("item?id=123"),
        "https://news.ycombinator.com/item?id=123"
    );
    assert_eq!(make_absolute_url("https://example.com/a"), "https://example.com/a");
    assert_eq!(make_absolute_url("item"), "item");
    assert_eq!(make_absolute_url(""), "");
    assert_eq!(HN_BASE_URL, "https://news.ycombinator.com");
}

#[test]
fn relative_story_link_on_page_is_resolved() {
    let html = r#"<table><tr class="athing"><td class="title"><span class="titleline">
        <a href="item?id=42">Ask HN: <b>Something</b></a></span></td></tr></table>"#;
    let document = Document::parse_document(html);
    let posts = get_submissions_from_document(&document);
    assert_eq!(posts.len(), 1);
    assert_eq!(posts[0].title, "Ask HN: Something");
    assert_eq!(posts[0].url, "https://news.ycombinator.com/item?id=42");
}

#[test]
fn posts_follow_links_in_order() {
    let links = vec![
        Link { href: Some("item?id=1".to_string()), text: "one".to_string() },
        Link { href: None, text: "two".to_string() },
        Link { href: Some("https://x.org/".to_string()), text: "three".to_string() },
    ];
    let posts = posts_from_links(&links);
    assert_eq!(posts.len(), 3);
    assert_eq!(posts[0].title, "one");
    assert_eq!(posts[0].url, "https://news.ycombinator.com/item?id=1");
    assert_eq!(posts[1].title, "two");
    assert_eq!(posts[1].url, "");
    assert_eq!(posts[2].url, "https://x.org/");
}

#[test]
fn more_link_is_first_anchor_only() {
    let none: Vec<Link> = Vec::new();
    assert_eq!(more_link_from_links(&none), None);
    let links = vec![
        Link { href: None, text: "More".to_string() },
        Link { href: Some("?p=3".to_string()), text: "More".to_string() },
    ];
    assert_eq!(more_link_from_links(&links), None);
    let links = vec![Link { href: Some("?p=2".to_string()), text: "More".to_string() }];
    assert_eq!(more_link_from_links(&links), Some("?p=2".to_string()));
}

#[test]
fn scrape_page_reads_posts_and_more_link() {
    let document = Document::parse_document(SAMPLE_HN_HTML);
    let (posts, more) = scrape_page(&document).unwrap();
    assert_eq!(posts.len(), 2);
    assert_eq!(posts[1].title, "Second Story Title");
    assert_eq!(more, Some("?p=2".to_string()));
}

#[test]
fn pages_are_walked_until_no_more_link() {
    let base = "http://127.0.0.1:8080";
    let first = request_url(base, &Some("upvoted".to_string()));
    assert_eq!(first, Some("http://127.0.0.1:8080/upvoted".to_string()));

    let first_page = r#"<html><body><table><tr class="athing"><td class="title">
        <span class="titleline"><a href="https://example.com/story1">Test Story 1</a></span>
        </td></tr></table><a class="morelink" href="?p=2">More</a></body></html>"#;
    let (posts, next) = page_from_body(first_page).unwrap();
    assert_eq!(posts.len(), 1);
    assert_eq!(posts[0].title, "Test Story 1");
    assert_eq!(posts[0].url, "https://example.com/story1");
    assert_eq!(request_url(base, &next), Some("http://127.0.0.1:8080/?p=2".to_string()));

    let second_page = r#"<html><body><table><tr class="athing"><td class="title">
        <span class="titleline"><a href="https://example.com/story2">Test Story 2</a></span>
        </td></tr></table></body></html>"#;
    let (posts, next) = page_from_body(second_page).unwrap();
    assert_eq!(posts.len(), 1);
    assert_eq!(posts[0].title, "Test Story 2");
    assert_eq!(next, None);
    assert_eq!(request_url(base, &next), None);
}

#[test]
fn page_without_matching_elements_is_empty() {
    let malformed = r#"<html><body><div>This doesn't match our selectors</div></body></html>"#;
    let (posts, next) = page_from_body(malformed).unwrap();
    assert_eq!(posts.len(), 0);
    assert_eq!(next, None);
}

#[test]
fn only_success_statuses_continue() {
    assert!(status_is_success(200));
    assert!(status_is_success(299));
    assert!(!status_is_success(199));
    assert!(!status_is_success(301));
    assert!(!status_is_success(404));
    assert!(!status_is_success(500));
}

#[test]
fn listing_paths_name_the_user() {
    assert_eq!(upvoted_path("test_user"), "upvoted?id=test_user");
    assert_eq!(favorites_path("test_user"), "favorites?id=test_user");
}
