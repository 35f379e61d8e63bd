//! Listing pages of an album: their URLs, the end-of-album test, and the
//! collection of pages as they arrive, in order.
use vstd::prelude::*;
use crate::text::{contains, decimal, decimal_of, occurs_in};

verus! {

/// The URL of page `n` of the album at `base`.
pub open spec fn page_url_spec(base: Seq<char>, n: nat) -> Seq<char> {
    base + "/?p="@ + decimal_of(n)
}

/// The link to page `n` as it stands on the page before it.
pub open spec fn next_link_spec(base: Seq<char>, n: nat) -> Seq<char> {
    "<a href=\""@ + base + "/?p="@ + decimal_of(n) + "\" onclick=\"return false\">"@
}

/// A page whose content holds no link to page `next` is the last one.
pub open spec fn is_last_spec(base: Seq<char>, content: Seq<char>, next: nat) -> bool {
    !occurs_in(next_link_spec(base, next), content)
}

/// Formats page URLs of one album and tells its last page.
pub struct EXPageIndicator {
    pub base: String,
}

impl EXPageIndicator {
    /// The URL of page `n`.
    pub fn format_n(&self, n: usize) -> (r: String)
        ensures
            r@ == page_url_spec(self.base@, n as nat),
    {
        let mut url = self.base.clone();
        url.append("/?p=");
        let digits = decimal(n);
        url.append(digits.as_str());
        url
    }

    /// Whether the page with this content is the last: it links to no page `next_page`.
    pub fn is_last_page(&self, content: &str, next_page: usize) -> (r: bool)
        ensures
            r == is_last_spec(self.base@, content@, next_page as nat),
    {
        let mut link = String::from_str("<a href=\"");
        link.append(self.base.as_str());
        link.append("/?p=");
        let digits = decimal(next_page);
        link.append(digits.as_str());
        link.append("\" onclick=\"return false\">");
        !contains(content, link.as_str())
    }
}

/// The characters of each string.
pub open spec fn texts(v: Seq<String>) -> Seq<Seq<char>> {
    v.map_values(|s: String| s@)
}

/// The pages of an album collected so far, from page `start` on.
///
/// Each page is handed in by the caller after it fetched [`Paged::page_url`].
/// Collection stops with the first page that [`EXPageIndicator::is_last_page`]
/// calls the last one.
pub struct Paged {
    indicator: EXPageIndicator,
    start: usize,
    pages: Vec<String>,
    finished: bool,
}

impl Paged {
    pub closed spec fn base(&self) -> Seq<char> {
        self.indicator.base@
    }

    pub closed spec fn start(&self) -> nat {
        self.start as nat
    }

    /// The content of the pages collected so far, in page order.
    pub closed spec fn pages(&self) -> Seq<Seq<char>> {
        texts(self.pages@)
    }

    /// Whether the last page has been seen.
    pub closed spec fn finished(&self) -> bool {
        self.finished
    }

    /// Every page but the last collected one links to its successor, and a
    /// finished collection holds at least one page and ends with a last page.
    pub closed spec fn wf(&self) -> bool {
        &&& self.start + self.pages@.len() <= usize::MAX
        &&& forall|i: int|
            0 <= i < self.pages@.len() - 1 ==> !is_last_spec(
                self.base(),
                #[trigger] self.pages()[i],
                (self.start + i + 1) as nat,
            )
        &&& !self.finished && self.pages@.len() > 0 ==> !is_last_spec(
            self.base(),
            self.pages()[self.pages@.len() - 1],
            (self.start + self.pages@.len()) as nat,
        )
        &&& self.finished ==> self.pages@.len() > 0 && is_last_spec(
            self.base(),
            self.pages()[self.pages@.len() - 1],
            (self.start + self.pages@.len()) as nat,
        )
    }

    /// An empty collection that begins at page `start`.
    pub fn new(start: usize, indicator: EXPageIndicator) -> (r: Paged)
        ensures
            r.wf(),
            r.base() == indicator.base@,
            r.start() == start,
            r.pages() == Seq::<Seq<char>>::empty(),
            !r.finished(),
    {
        let r = Paged { indicator, start, pages: Vec::new(), finished: false };
        assert(r.pages() =~= Seq::<Seq<char>>::empty());
        r
    }

    /// Whether the last page has been seen.
    pub fn is_finished(&self) -> (r: bool)
        ensures
            r == self.finished(),
    {
        self.finished
    }

    /// The URL of the page to fetch next.
    pub fn page_url(&self) -> (r: String)
        requires
            self.wf(),
        ensures
            r@ == page_url_spec(self.base(), self.start() + self.pages().len()),
    {
        self.indicator.format_n(self.start + self.pages.len())
    }

    /// Records the content of the page at [`Paged::page_url`]; returns whether
    /// it is the last page.
    pub fn push_page(&mut self, content: String) -> (r: bool)
        requires
            old(self).wf(),
            !old(self).finished(),
            old(self).start() + old(self).pages().len() + 1 < usize::MAX,
        ensures
            final(self).wf(),
            final(self).base() == old(self).base(),
            final(self).start() == old(self).start(),
            final(self).pages() == old(self).pages().push(content@),
            r == final(self).finished(),
            r == is_last_spec(
                old(self).base(),
                content@,
                old(self).start() + old(self).pages().len() + 1,
            ),
    {
        let next = self.start + self.pages.len() + 1;
        let last = self.indicator.is_last_page(content.as_str(), next);
        self.pages.push(content);
        self.finished = last;
        assert(self.pages() =~= old(self).pages().push(content@));
        last
    }

    /// The collected pages, in page order.
    pub fn into_pages(self) -> (r: Vec<String>)
        ensures
            texts(r@) == self.pages(),
    {
        self.pages
    }
}

/// A finished collection from page `start` holds exactly `k` pages, where `k`
/// is the least count for which page `start + k - 1` is the last one: every
/// earlier page links to its successor, and there is at least one page.
pub proof fn lemma_finished_pages_minimal(p: &Paged)
    requires
        p.wf(),
        p.finished(),
    ensures
        p.pages().len() >= 1,
        is_last_spec(p.base(), p.pages()[p.pages().len() - 1], p.start() + p.pages().len()),
        forall|k: int|
            1 <= k < p.pages().len() ==> !is_last_spec(
                p.base(),
                #[trigger] p.pages()[k - 1],
                (p.start() + k) as nat,
            ),
{
    assert forall|k: int| 1 <= k < p.pages().len() implies !is_last_spec(
        p.base(),
        #[trigger] p.pages()[k - 1],
        (p.start() + k) as nat,
    ) by {
        assert(p.pages@.len() == p.pages().len());
        let i = k - 1;
        assert(0 <= i < p.pages@.len() - 1);
        assert(!is_last_spec(p.base(), p.pages()[i], (p.start + i + 1) as nat));
    }
}

} // verus!
