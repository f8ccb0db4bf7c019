use vstd::prelude::*;
use crate::error::AppError;
use crate::text::same_text;

verus! {

/// The attributes of one link element that feed selection reads: `title`,
/// `type` and `href`, each absent or present with its value.
pub type LinkView = (Option<Seq<char>>, Option<Seq<char>>, Option<Seq<char>>);

/// The link elements that the `select` crate finds in a page, in document order.
pub uninterp spec fn link_elements(html: Seq<char>) -> Seq<LinkView>;

/// One link element of a page, as the attributes that feed selection reads.
#[derive(Debug)]
pub struct LinkAttrs {
    pub title: Option<String>,
    pub kind: Option<String>,
    pub href: Option<String>,
}

/// The text of an attribute that may be absent.
pub open spec fn opt_view(o: Option<String>) -> Option<Seq<char>> {
    match o {
        Some(s) => Some(s@),
        None => None,
    }
}

impl View for LinkAttrs {
    type V = LinkView;

    open spec fn view(&self) -> LinkView {
        (opt_view(self.title), opt_view(self.kind), opt_view(self.href))
    }
}

/// The attribute views of a sequence of link elements.
pub open spec fn links_view(links: Seq<LinkAttrs>) -> Seq<LinkView> {
    links.map_values(|l: LinkAttrs| l@)
}

/// The most characters of markup that a page may hold: the parser keeps the
/// markup in a buffer whose byte length must fit in a `u32`, and a character
/// takes at most four bytes.
pub const MAX_PAGE_CHARS: usize = 0x3FFF_FFFF;

/// Relies on `select::document::Document::from` to parse the markup, on
/// `Document::find` with `Name("link")` to walk its link elements in document
/// order, and on `Node::attr` for their attributes.
#[verifier::external_body]
fn link_elements_of(html: &str) -> (r: Vec<LinkAttrs>)
    requires
        html@.len() <= MAX_PAGE_CHARS,
    ensures
        links_view(r@) == link_elements(html@),
{
    let document = select::document::Document::from(html);
    document.find(select::predicate::Name("link")).map(
        |node| LinkAttrs {
            title: node.attr("title").map(String::from),
            kind: node.attr("type").map(String::from),
            href: node.attr("href").map(String::from),
        },
    ).collect()
}

/// A link element announces the feed: its title is exactly `RSS` and its type
/// exactly `application/rss+xml`.
pub open spec fn is_feed_link(l: LinkView) -> bool {
    l.0 == Some("RSS"@) && l.1 == Some("application/rss+xml"@)
}

/// The position of the first feed link among the first `n` links.
pub open spec fn first_feed_in(links: Seq<LinkView>, n: nat) -> Option<int>
    decreases n,
{
    if n == 0 {
        None
    } else {
        match first_feed_in(links, (n - 1) as nat) {
            Some(i) => Some(i),
            None => if is_feed_link(links[n - 1]) {
                Some(n - 1)
            } else {
                None
            },
        }
    }
}

/// The position of the first feed link.
pub open spec fn first_feed(links: Seq<LinkView>) -> Option<int> {
    first_feed_in(links, links.len())
}

/// The feed address that a sequence of link elements gives: the `href` of the
/// first feed link, or nothing where there is no feed link or it has no `href`.
pub open spec fn feed_of_links(links: Seq<LinkView>) -> Option<Seq<char>> {
    match first_feed(links) {
        Some(i) => links[i].2,
        None => None,
    }
}

/// The feed address that a page gives.
pub open spec fn feed_of_page(html: Seq<char>) -> Option<Seq<char>> {
    feed_of_links(link_elements(html))
}

/// `first_feed_in` finds the first feed link, and only it.
pub proof fn lemma_first_feed_in(links: Seq<LinkView>, n: nat)
    requires
        n <= links.len(),
    ensures
        match first_feed_in(links, n) {
            Some(i) => 0 <= i < n && is_feed_link(links[i]) && forall|j: int|
                0 <= j < i ==> !is_feed_link(#[trigger] links[j]),
            None => forall|j: int| 0 <= j < n ==> !is_feed_link(#[trigger] links[j]),
        },
    decreases n,
{
    if n > 0 {
        lemma_first_feed_in(links, (n - 1) as nat);
    }
}

/// The first feed link is the one that nothing before it qualifies for.
pub proof fn lemma_first_feed_unique(links: Seq<LinkView>, i: int)
    requires
        0 <= i < links.len(),
        is_feed_link(links[i]),
        forall|j: int| 0 <= j < i ==> !is_feed_link(#[trigger] links[j]),
    ensures
        first_feed(links) == Some(i),
{
    lemma_first_feed_in(links, links.len());
    match first_feed(links) {
        Some(k) => {
            if k < i {
                assert(!is_feed_link(links[k]));
            }
            if k > i {
                assert(!is_feed_link(links[i]));
            }
        },
        None => {
            assert(!is_feed_link(links[i]));
        },
    }
}

/// Extraction depends on the markup alone: the same markup gives the same
/// feed address, however often it is read.
pub proof fn lemma_extraction_deterministic(a: Seq<char>, b: Seq<char>)
    requires
        a == b,
    ensures
        feed_of_page(a) == feed_of_page(b),
{
}

/// Of two feed links, the earlier wins: where links `a` and `b` both qualify,
/// `a` comes before `b`, and none before `a` qualifies, the feed address is
/// the `href` of `a`, never that of `b`.
pub proof fn lemma_first_match(links: Seq<LinkView>, a: int, b: int)
    requires
        0 <= a < b < links.len(),
        is_feed_link(links[a]),
        is_feed_link(links[b]),
        forall|j: int| 0 <= j < a ==> !is_feed_link(#[trigger] links[j]),
    ensures
        feed_of_links(links) == links[a].2,
{
    lemma_first_feed_unique(links, a);
}

/// Without a link element whose title and type both qualify, or where the
/// first that qualifies lacks an `href`, there is no feed address.
pub proof fn lemma_no_feed(links: Seq<LinkView>)
    requires
        (forall|j: int| 0 <= j < links.len() ==> !is_feed_link(#[trigger] links[j])) || (exists|
            i: int,
        |
            0 <= i < links.len() && is_feed_link(#[trigger] links[i]) && links[i].2 is None
                && forall|j: int| 0 <= j < i ==> !is_feed_link(#[trigger] links[j])),
    ensures
        feed_of_links(links) is None,
{
    lemma_first_feed_in(links, links.len());
    if exists|i: int|
        0 <= i < links.len() && is_feed_link(#[trigger] links[i]) && links[i].2 is None
            && forall|j: int| 0 <= j < i ==> !is_feed_link(#[trigger] links[j]) {
        let i = choose|i: int|
            0 <= i < links.len() && is_feed_link(#[trigger] links[i]) && links[i].2 is None
                && forall|j: int| 0 <= j < i ==> !is_feed_link(#[trigger] links[j]);
        lemma_first_feed_unique(links, i);
    }
}

/// Reads the feed link out of a page's markup.
pub struct HTMLParser;

impl HTMLParser {
    /// Whether a link element announces the feed.
    pub fn is_feed_link(link: &LinkAttrs) -> (r: bool)
        ensures
            r == is_feed_link(link@),
    {
        let title_ok = match &link.title {
            Some(t) => same_text(t.as_str(), "RSS"),
            None => false,
        };
        let kind_ok = match &link.kind {
            Some(k) => same_text(k.as_str(), "application/rss+xml"),
            None => false,
        };
        title_ok && kind_ok
    }

    /// The feed address among a page's link elements, in document order: the
    /// `href` of the first link whose title and type qualify.
    pub fn select_feed(links: &Vec<LinkAttrs>) -> (r: Result<String, AppError>)
        ensures
            match feed_of_links(links_view(links@)) {
                Some(f) => r matches Ok(v) && v@ == f,
                None => r matches Err(AppError::FeedNotFound),
            },
    {
        let ghost lv = links_view(links@);
        let mut i: usize = 0;
        while i < links.len()
            invariant
                lv == links_view(links@),
                i <= links.len(),
                forall|j: int| 0 <= j < i ==> !is_feed_link(#[trigger] lv[j]),
            decreases links.len() - i,
        {
            if Self::is_feed_link(&links[i]) {
                proof {
                    lemma_first_feed_unique(lv, i as int);
                }
                return match &links[i].href {
                    Some(h) => Ok(h.clone()),
                    None => Err(AppError::FeedNotFound),
                };
            }
            i = i + 1;
        }
        proof {
            lemma_first_feed_in(lv, lv.len());
            match first_feed(lv) {
                Some(k) => {
                    assert(!is_feed_link(lv[k]));
                },
                None => {},
            }
        }
        Err(AppError::FeedNotFound)
    }

    /// The feed address of a page: the `href` of its first link element whose
    /// title is `RSS` and whose type is `application/rss+xml`.
    pub fn extract_feed_url(html_content: &str) -> (r: Result<String, AppError>)
        requires
            html_content@.len() <= MAX_PAGE_CHARS,
        ensures
            match feed_of_page(html_content@) {
                Some(f) => r matches Ok(v) && v@ == f,
                None => r matches Err(AppError::FeedNotFound),
            },
    {
        let links = link_elements_of(html_content);
        Self::select_feed(&links)
    }
}

} // verus!
