use vstd::prelude::*;
use vstd::string::StrSliceExecFns;
use vstd::string::StringExecFns;

verus! {

broadcast use vstd::string::group_string_axioms;

/// The site whose pages are scraped; relative story links are resolved against it.
pub const HN_BASE_URL: &'static str = "https://news.ycombinator.com";

/// The anchors that carry a story's title and link on a listing page.
pub const TITLE_LINK_SELECTOR: &'static str = "tr.athing td.title span.titleline > a";

/// The anchor that leads to the next listing page.
pub const MORE_LINK_SELECTOR: &'static str = "a.morelink";

/// What the scraper logic reads of one matched anchor element: its `href`
/// attribute, if it has one, and its text content.
#[derive(Debug, Clone)]
pub struct Link {
    pub href: Option<String>,
    pub text: String,
}

/// A link as plain values: the `href` (if any) and the text.
pub type LinkView = (Option<Seq<char>>, Seq<char>);

impl View for Link {
    type V = LinkView;

    open spec fn view(&self) -> LinkView {
        (
            match self.href {
                Some(h) => Some(h@),
                None => None,
            },
            self.text@,
        )
    }
}

/// The views of a sequence of links, in order.
pub open spec fn links_view(links: Seq<Link>) -> Seq<LinkView> {
    links.map_values(|l: Link| l@)
}

/// A story on a listing page.
#[derive(Debug, Clone)]
pub struct HNPost {
    pub title: String,
    pub url: String,
}

/// A post as plain values: its title and its URL.
pub type PostView = (Seq<char>, Seq<char>);

impl View for HNPost {
    type V = PostView;

    open spec fn view(&self) -> PostView {
        (self.title@, self.url@)
    }
}

/// The views of a sequence of posts, in order.
pub open spec fn posts_view(posts: Seq<HNPost>) -> Seq<PostView> {
    posts.map_values(|p: HNPost| p@)
}

/// The prefix that marks a link to a discussion page on the site itself.
pub open spec fn item_prefix() -> Seq<char> {
    seq!['i', 't', 'e', 'm', '?']
}

/// Whether `s` begins with `p`.
pub open spec fn has_prefix(s: Seq<char>, p: Seq<char>) -> bool {
    p.len() <= s.len() && s.take(p.len() as int) == p
}

/// The URL a story's `href` stands for: discussion links (`item?...`) are made
/// absolute against the site; anything else is kept as written.
pub open spec fn absolute_url(href: Seq<char>) -> Seq<char> {
    if has_prefix(href, item_prefix()) {
        HN_BASE_URL@ + "/"@ + href
    } else {
        href
    }
}

/// The post that a title anchor describes; an anchor without `href` gets an empty URL.
pub open spec fn post_of_link(link: LinkView) -> PostView {
    let href = match link.0 {
        Some(h) => h,
        None => Seq::<char>::empty(),
    };
    (link.1, absolute_url(href))
}

/// The posts that a page's title anchors describe, one per anchor, in order.
pub open spec fn posts_of_links(links: Seq<LinkView>) -> Seq<PostView> {
    links.map_values(|l: LinkView| post_of_link(l))
}

/// The next-page path that a page's "more" anchors give: the `href` of the first
/// one, if there is one and it has that attribute.
pub open spec fn more_link_of_links(links: Seq<LinkView>) -> Option<Seq<char>> {
    if links.len() == 0 {
        None
    } else {
        links[0].0
    }
}

/// The view of an optional string.
pub open spec fn opt_view(s: Option<String>) -> Option<Seq<char>> {
    match s {
        Some(v) => Some(v@),
        None => None,
    }
}

/// The site prefix of discussion links, written out.
pub proof fn lemma_site_prefix_text()
    ensures
        HN_BASE_URL@ + "/"@ == "https://news.ycombinator.com/"@,
        item_prefix() == "item?"@,
        TITLE_LINK_SELECTOR@ == "tr.athing td.title span.titleline > a"@,
        MORE_LINK_SELECTOR@ == "a.morelink"@,
{
    reveal_strlit("https://news.ycombinator.com");
    reveal_strlit("/");
    reveal_strlit("https://news.ycombinator.com/");
    reveal_strlit("item?");
    assert(HN_BASE_URL@ + "/"@ =~= "https://news.ycombinator.com/"@);
    assert(item_prefix() =~= "item?"@);
}

/// Whether `s` begins with `item?`.
fn is_item_link(s: &str) -> (res: bool)
    ensures
        res == has_prefix(s@, item_prefix()),
{
    let n: usize = s.unicode_len();
    if n < 5 {
        return false;
    }
    let ok = s.get_char(0) == 'i' && s.get_char(1) == 't' && s.get_char(2) == 'e'
        && s.get_char(3) == 'm' && s.get_char(4) == '?';
    proof {
        if ok {
            assert(s@.take(5) =~= item_prefix());
        } else {
            if s@.take(5) == item_prefix() {
                assert(s@.take(5)[0] == 'i');
                assert(s@.take(5)[1] == 't');
                assert(s@.take(5)[2] == 'e');
                assert(s@.take(5)[3] == 'm');
                assert(s@.take(5)[4] == '?');
            }
        }
    }
    ok
}

/// Resolves a story's `href` as [`absolute_url`] says.
pub fn make_absolute_url(href: &str) -> (url: String)
    ensures
        url@ == absolute_url(href@),
        href@.len() >= 5 && href@.take(5) == "item?"@ ==> url@ == "https://news.ycombinator.com/"@
            + href@,
        !(href@.len() >= 5 && href@.take(5) == "item?"@) ==> url@ == href@,
{
    proof {
        lemma_site_prefix_text();
    }
    if is_item_link(href) {
        let mut url = String::from_str(HN_BASE_URL);
        url.append("/");
        url.append(href);
        url
    } else {
        String::from_str(href)
    }
}

/// Turns one title anchor into a post.
pub fn post_from_link(link: &Link) -> (post: HNPost)
    ensures
        post@ == post_of_link(link@),
        post.title@ == link.text@,
        (match link@.0 {
                None => post.url@.len() == 0,
                Some(h) => if h.len() >= 5 && h.take(5) == "item?"@ {
                    post.url@ == "https://news.ycombinator.com/"@ + h
                } else {
                    post.url@ == h
                },
            }),
{
    proof {
        lemma_site_prefix_text();
    }
    let url = match &link.href {
        Some(h) => make_absolute_url(h.as_str()),
        None => make_absolute_url(""),
    };
    proof {
        reveal_strlit("");
    }
    HNPost { title: link.text.clone(), url }
}

/// Turns a page's title anchors into posts, one per anchor, in the same order.
pub fn posts_from_links(links: &Vec<Link>) -> (posts: Vec<HNPost>)
    ensures
        posts_view(posts@) == posts_of_links(links_view(links@)),
        posts@.len() == links@.len(),
        forall|i: int|
            0 <= i < links@.len() ==> (#[trigger] posts@[i]).title@ == links@[i].text@
                && (match links@[i]@.0 {
                None => posts@[i].url@.len() == 0,
                Some(h) => if h.len() >= 5 && h.take(5) == "item?"@ {
                    posts@[i].url@ == "https://news.ycombinator.com/"@ + h
                } else {
                    posts@[i].url@ == h
                },
            }),
{
    proof {
        lemma_site_prefix_text();
    }
    let mut posts: Vec<HNPost> = Vec::new();
    for i in 0..links.len()
        invariant
            posts@.len() == i,
            forall|j: int| 0 <= j < i ==> #[trigger] posts@[j]@ == post_of_link(links@[j]@),
    {
        let post = post_from_link(&links[i]);
        posts.push(post);
    }
    assert(posts_view(posts@) =~= posts_of_links(links_view(links@)));
    assert forall|i: int| 0 <= i < links@.len() implies (#[trigger] posts@[i]).title@
        == links@[i].text@ && (match links@[i]@.0 {
                None => posts@[i].url@.len() == 0,
                Some(h) => if h.len() >= 5 && h.take(5) == "item?"@ {
                    posts@[i].url@ == "https://news.ycombinator.com/"@ + h
                } else {
                    posts@[i].url@ == h
                },
            }) by {
        assert(posts_view(posts@)[i] == posts@[i]@);
        assert(links_view(links@)[i] == links@[i]@);
    }
    posts
}

/// The next-page path given by a page's "more" anchors, as [`more_link_of_links`] says.
pub fn more_link_from_links(links: &Vec<Link>) -> (more: Option<String>)
    ensures
        opt_view(more) == more_link_of_links(links_view(links@)),
        links@.len() == 0 ==> more is None,
        links@.len() > 0 ==> (more is Some <==> links@[0].href is Some),
        links@.len() > 0 ==> (more matches Some(m) ==> links@[0].href matches Some(h) && m@ == h@),
{
    if links.len() == 0 {
        None
    } else {
        match &links[0].href {
            Some(h) => Some(h.clone()),
            None => None,
        }
    }
}


/// `scraper::Selector`, a compiled CSS selector group.
#[verifier::external_type_specification]
#[verifier::external_body]
pub struct ExSelector(scraper::Selector);

/// Whether scraper accepts `selector` as a CSS selector group.
pub uninterp spec fn css_selector_parses(selector: Seq<char>) -> bool;

/// The elements that `Html::parse_document(html).select(selector)` yields, in the
/// order scraper yields them, each as its `href` attribute and its text.
pub uninterp spec fn selected_links(html: Seq<char>, selector: Seq<char>) -> Seq<LinkView>;

/// A CSS selector group together with its source text.
struct CssSelector {
    source: String,
    compiled: scraper::Selector,
}

impl View for CssSelector {
    type V = Seq<char>;

    closed spec fn view(&self) -> Seq<char> {
        self.source@
    }
}

/// Calls `scraper::Selector::parse`. Claimed: the result is `Some` exactly when
/// scraper accepts the text, and then it carries that text.
#[verifier::external_body]
fn parse_css_selector(text: &str) -> (res: Option<CssSelector>)
    ensures
        res is Some <==> css_selector_parses(text@),
        res matches Some(sel) ==> sel@ == text@,
{
    match scraper::Selector::parse(text) {
        Ok(compiled) => Some(CssSelector { source: text.to_string(), compiled }),
        Err(_) => None,
    }
}

/// Calls `scraper::Html::parse_document` on `html` and `Html::select` with the
/// compiled selector, and reads each matched element's `href` attribute
/// (`ElementRef::attr`) and its text (`ElementRef::text`, concatenated).
/// Claimed: the result is [`selected_links`] of the text and the selector's
/// source; what that sequence holds is left to scraper.
#[verifier::external_body]
fn select_links(html: &str, selector: &CssSelector) -> (links: Vec<Link>)
    ensures
        links_view(links@) == selected_links(html@, selector@),
{
    let document = scraper::Html::parse_document(html);
    document
        .select(&selector.compiled)
        .map(|element| Link {
            href: element.value().attr("href").map(|h| h.to_string()),
            text: element.text().collect::<String>(),
        })
        .collect()
}

/// An HTML page, held as its source text; the queries below parse it.
pub struct Document {
    html: String,
}

impl View for Document {
    type V = Seq<char>;

    closed spec fn view(&self) -> Seq<char> {
        self.html@
    }
}

impl Document {
    /// Takes a page's HTML source.
    pub fn parse_document(html: &str) -> (doc: Document)
        ensures
            doc@ == html@,
    {
        Document { html: String::from_str(html) }
    }
}

/// The posts of a parsed page: one per title anchor, in order.
pub open spec fn page_posts(page: Seq<char>) -> Seq<PostView> {
    posts_of_links(selected_links(page, TITLE_LINK_SELECTOR@))
}

/// The next-page path of a parsed page.
pub open spec fn page_more_link(page: Seq<char>) -> Option<Seq<char>> {
    more_link_of_links(selected_links(page, MORE_LINK_SELECTOR@))
}

/// The stories of a page are the anchors that scraper selects with
/// `tr.athing td.title span.titleline > a`, one post per anchor and in the same
/// order: the anchor's text is the title; an anchor without `href` gets an empty
/// URL, one whose `href` begins with `item?` gets that `href` below
/// `https://news.ycombinator.com/`, and any other keeps its `href` as written.
pub proof fn lemma_page_posts(page: Seq<char>)
    ensures
        ({
            let links = selected_links(page, "tr.athing td.title span.titleline > a"@);
            &&& page_posts(page).len() == links.len()
            &&& forall|i: int|
                0 <= i < links.len() ==> (#[trigger] page_posts(page)[i]).0 == links[i].1
                    && (match links[i].0 {
                        None => page_posts(page)[i].1.len() == 0,
                        Some(h) => if h.len() >= 5 && h.take(5) == "item?"@ {
                            page_posts(page)[i].1 == "https://news.ycombinator.com/"@ + h
                        } else {
                            page_posts(page)[i].1 == h
                        },
                    })
        }),
{
    lemma_site_prefix_text();
    let links = selected_links(page, TITLE_LINK_SELECTOR@);
    assert forall|i: int| 0 <= i < links.len() implies (#[trigger] page_posts(page)[i]).0
        == links[i].1 && (match links[i].0 {
            None => page_posts(page)[i].1.len() == 0,
            Some(h) => if h.len() >= 5 && h.take(5) == "item?"@ {
                page_posts(page)[i].1 == "https://news.ycombinator.com/"@ + h
            } else {
                page_posts(page)[i].1 == h
            },
        }) by {
        assert(page_posts(page)[i] == post_of_link(links[i]));
    }
}

/// The next-page link of a page is the `href` of the first anchor that scraper
/// selects with `a.morelink`, whatever that `href` is; no such anchor, or one
/// without `href`, gives none.
pub proof fn lemma_page_more_link(page: Seq<char>)
    ensures
        ({
            let links = selected_links(page, "a.morelink"@);
            &&& links.len() == 0 ==> page_more_link(page) is None
            &&& links.len() > 0 ==> page_more_link(page) == links[0].0
        }),
{
    lemma_site_prefix_text();
}

/// A story's `href` that begins with `item?` is put below
/// `https://news.ycombinator.com/`; any other is kept exactly as written. Either
/// way the `href` is the end of the URL.
pub proof fn lemma_absolute_url(href: Seq<char>)
    ensures
        href.len() >= 5 && href.take(5) == "item?"@ ==> absolute_url(href)
            == "https://news.ycombinator.com/"@ + href,
        !(href.len() >= 5 && href.take(5) == "item?"@) ==> absolute_url(href) == href,
        absolute_url(href).len() >= href.len(),
        absolute_url(href).skip(absolute_url(href).len() - href.len()) == href,
{
    lemma_site_prefix_text();
    let u = absolute_url(href);
    assert(u.skip(u.len() - href.len()) =~= href);
}

/// The next-page link given by a list of "more" anchors is the `href` of the
/// first one, whatever it is, and none when there is no anchor.
pub proof fn lemma_more_link_of_links(links: Seq<LinkView>)
    ensures
        links.len() == 0 ==> more_link_of_links(links) is None,
        links.len() > 0 ==> more_link_of_links(links) == links[0].0,
{
}

/// The stories listed on a page, in order, with discussion links made absolute.
pub fn get_submissions_from_document(document: &Document) -> (posts: Vec<HNPost>)
    requires
        css_selector_parses(TITLE_LINK_SELECTOR@),
    ensures
        posts_view(posts@) == page_posts(document@),
        ({
            let links = selected_links(document@, "tr.athing td.title span.titleline > a"@);
            &&& posts@.len() == links.len()
            &&& forall|i: int|
                0 <= i < links.len() ==> (#[trigger] posts@[i]).title@ == links[i].1
                    && (match links[i].0 {
                        None => posts@[i].url@.len() == 0,
                        Some(h) => if h.len() >= 5 && h.take(5) == "item?"@ {
                            posts@[i].url@ == "https://news.ycombinator.com/"@ + h
                        } else {
                            posts@[i].url@ == h
                        },
                    })
        }),
{
    proof {
        lemma_page_posts(document@);
    }
    match parse_css_selector(TITLE_LINK_SELECTOR) {
        Some(selector) => {
            let links = select_links(&document.html, &selector);
            posts_from_links(&links)
        },
        None => Vec::new(),
    }
}

/// The path of the page's "more" link, if it has one.
pub fn get_more_link(document: &Document) -> (more: Option<String>)
    requires
        css_selector_parses(MORE_LINK_SELECTOR@),
    ensures
        opt_view(more) == page_more_link(document@),
        ({
            let links = selected_links(document@, "a.morelink"@);
            &&& links.len() == 0 ==> more is None
            &&& links.len() > 0 ==> (more is Some <==> links[0].0 is Some)
            &&& links.len() > 0 ==> (more matches Some(m) ==> links[0].0 == Some(m@))
        }),
{
    proof {
        lemma_page_more_link(document@);
    }
    match parse_css_selector(MORE_LINK_SELECTOR) {
        Some(selector) => {
            let links = select_links(&document.html, &selector);
            more_link_from_links(&links)
        },
        None => None,
    }
}

/// Reads a page: its stories and the path of the next page. `None` when scraper
/// rejects one of the two selectors, in which case nothing can be read.
pub fn scrape_page(document: &Document) -> (page: Option<(Vec<HNPost>, Option<String>)>)
    ensures
        page is Some <==> css_selector_parses(TITLE_LINK_SELECTOR@) && css_selector_parses(
            MORE_LINK_SELECTOR@,
        ),
        page matches Some((posts, more)) ==> {
            &&& posts_view(posts@) == page_posts(document@)
            &&& opt_view(more) == page_more_link(document@)
            &&& ({
            let links = selected_links(document@, "tr.athing td.title span.titleline > a"@);
            &&& posts@.len() == links.len()
            &&& forall|i: int|
                0 <= i < links.len() ==> (#[trigger] posts@[i]).title@ == links[i].1
                    && (match links[i].0 {
                        None => posts@[i].url@.len() == 0,
                        Some(h) => if h.len() >= 5 && h.take(5) == "item?"@ {
                            posts@[i].url@ == "https://news.ycombinator.com/"@ + h
                        } else {
                            posts@[i].url@ == h
                        },
                    })
        })
            &&& ({
            let links = selected_links(document@, "a.morelink"@);
            &&& links.len() == 0 ==> more is None
            &&& links.len() > 0 ==> (more is Some <==> links[0].0 is Some)
            &&& links.len() > 0 ==> (more matches Some(m) ==> links[0].0 == Some(m@))
        })
        },
{
    proof {
        lemma_page_posts(document@);
        lemma_page_more_link(document@);
    }
    let titles_ok = parse_css_selector(TITLE_LINK_SELECTOR).is_some();
    let more_ok = parse_css_selector(MORE_LINK_SELECTOR).is_some();
    if titles_ok && more_ok {
        Some((get_submissions_from_document(document), get_more_link(document)))
    } else {
        None
    }
}

} // verus!
