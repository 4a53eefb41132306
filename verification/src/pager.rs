use vstd::prelude::*;
use vstd::string::StringExecFns;

use crate::scrape::{
    css_selector_parses, lemma_page_more_link, lemma_page_posts, selected_links, opt_view, page_more_link, page_posts, posts_view, scrape_page, Document,
    HNPost, MORE_LINK_SELECTOR, TITLE_LINK_SELECTOR,
};

verus! {

/// The URL of the page at `path` below `base_url`.
pub open spec fn page_url_of(base_url: Seq<char>, path: Seq<char>) -> Seq<char> {
    base_url + "/"@ + path
}

/// What to fetch next while walking a listing: the page at `path`, or nothing
/// once the previous page had no "more" link.
pub fn request_url(base_url: &str, path: &Option<String>) -> (url: Option<String>)
    ensures
        path is None ==> url is None,
        path matches Some(p) ==> url matches Some(u) && u@ == page_url_of(base_url@, p@),
        path matches Some(p) ==> url matches Some(u) && u@ == base_url@ + "/"@ + p@,
{
    match path {
        None => None,
        Some(p) => {
            let mut url = String::from_str(base_url);
            url.append("/");
            url.append(p.as_str());
            Some(url)
        },
    }
}

/// Whether an HTTP status is a success (`200..=299`), the only case in which a
/// page's body is read; any other status ends the walk.
pub fn status_is_success(status: u16) -> (ok: bool)
    ensures
        ok <==> 200 <= status <= 299,
{
    200 <= status && status <= 299
}

/// What a fetched page yields: its stories and, as the next state, the path of
/// the next page. `None` (the walk ends) only when a selector is rejected.
pub fn page_from_body(body: &str) -> (page: Option<(Vec<HNPost>, Option<String>)>)
    ensures
        page is Some <==> css_selector_parses(TITLE_LINK_SELECTOR@) && css_selector_parses(
            MORE_LINK_SELECTOR@,
        ),
        page matches Some((posts, more)) ==> {
            &&& posts_view(posts@) == page_posts(body@)
            &&& opt_view(more) == page_more_link(body@)
            &&& ({
                let links = selected_links(body@, "tr.athing td.title span.titleline > a"@);
                &&& posts@.len() == links.len()
                &&& forall|i: int|
                    0 <= i < links.len() ==> (#[trigger] posts@[i]).title@ == links[i].1
                        && (match links[i].0 {
                        None => posts@[i].url@.len() == 0,
                        Some(h) => if h.len() >= 5 && h.take(5) == "item?"@ {
                            posts@[i].url@ == "https://news.ycombinator.com/"@ + h
                        } else {
                            posts@[i].url@ == h
                        },
                    })
            })
            &&& ({
                let links = selected_links(body@, "a.morelink"@);
                &&& links.len() == 0 ==> more is None
                &&& links.len() > 0 ==> (more is Some <==> links[0].0 is Some)
                &&& links.len() > 0 ==> (more matches Some(m) ==> links[0].0 == Some(m@))
            })
        },
{
    proof {
        lemma_page_posts(body@);
        lemma_page_more_link(body@);
    }
    let document = Document::parse_document(body);
    scrape_page(&document)
}

/// The next page is always asked for below the same site, as `{base}/{path}`:
/// the URL starts with the base and ends with the path.
pub proof fn lemma_page_url(base_url: Seq<char>, path: Seq<char>)
    ensures
        page_url_of(base_url, path) == base_url + "/"@ + path,
        page_url_of(base_url, path).take(base_url.len() as int) == base_url,
        page_url_of(base_url, path).skip(base_url.len() as int + 1) == path,
{
    reveal_strlit("/");
    let u = page_url_of(base_url, path);
    assert(u.take(base_url.len() as int) =~= base_url);
    assert(u.skip(base_url.len() as int + 1) =~= path);
}

/// The listing paths name the user after a fixed query prefix.
pub proof fn lemma_listing_paths(username: Seq<char>)
    ensures
        upvoted_path_of(username) == "upvoted?id="@ + username,
        favorites_path_of(username) == "favorites?id="@ + username,
        upvoted_path_of(username).skip(11) == username,
        favorites_path_of(username).skip(13) == username,
{
    reveal_strlit("upvoted?id=");
    reveal_strlit("favorites?id=");
    assert(upvoted_path_of(username).skip(11) =~= username);
    assert(favorites_path_of(username).skip(13) =~= username);
}

/// The listing of the stories that `username` upvoted: `upvoted?id={username}`.
pub open spec fn upvoted_path_of(username: Seq<char>) -> Seq<char> {
    "upvoted?id="@ + username
}

/// The listing of the stories that `username` marked as favorites: `favorites?id={username}`.
pub open spec fn favorites_path_of(username: Seq<char>) -> Seq<char> {
    "favorites?id="@ + username
}

/// The first page of a user's upvoted stories.
pub fn upvoted_path(username: &str) -> (path: String)
    ensures
        path@ == upvoted_path_of(username@),
        path@ == "upvoted?id="@ + username@,
{
    let mut path = String::from_str("upvoted?id=");
    path.append(username);
    path
}

/// The first page of a user's favorite stories.
pub fn favorites_path(username: &str) -> (path: String)
    ensures
        path@ == favorites_path_of(username@),
        path@ == "favorites?id="@ + username@,
{
    let mut path = String::from_str("favorites?id=");
    path.append(username);
    path
}

} // verus!
