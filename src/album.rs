//! Albums: metadata and item links drawn from listing pages, the lazy stream
//! of item links, and the binary URL drawn from an item's detail page.
use vstd::prelude::*;
use crate::paged::{texts, EXPageIndicator, Paged};
use crate::path::{album_url, album_url_spec, parse_path, parse_path_spec};
use crate::pattern::{all_captures, all_groups, first_capture, first_group, opt_chars, Pattern};

verus! {

/// Group 1 is the album title.
pub const TITLE_PATTERN: &'static str = r#"<h1 id="gj">(.*?)</h1>"#;

/// Group 1 is the link to one item's detail page.
pub const ITEM_LINK_PATTERN: &'static str = r#"<a href="(https://exhentai\.org/s/\w+/[\w-]+)">"#;

/// Group 1 is the URL of the item's binary content.
pub const IMAGE_PATTERN: &'static str = r#"<img id="img" src="(.*?)""#;

/// The name an album gets when its first page shows no title.
pub const NO_TITLE: &'static str = "No Title";

/// The three patterns that pages are read with.
pub struct SitePatterns {
    title: Pattern,
    item_link: Pattern,
    image: Pattern,
}

impl SitePatterns {
    /// Each pattern was compiled from its constant.
    pub closed spec fn wf(&self) -> bool {
        &&& self.title.source() == TITLE_PATTERN@
        &&& self.item_link.source() == ITEM_LINK_PATTERN@
        &&& self.image.source() == IMAGE_PATTERN@
    }

    /// Compiles the three patterns; `None` where the regex engine rejects one.
    pub fn new() -> (r: Option<SitePatterns>)
        ensures
            r matches Some(p) ==> p.wf(),
    {
        let title = Pattern::new(TITLE_PATTERN)?;
        let item_link = Pattern::new(ITEM_LINK_PATTERN)?;
        let image = Pattern::new(IMAGE_PATTERN)?;
        Some(SitePatterns { title, item_link, image })
    }
}

/// Why an album could not be resolved.
#[derive(Debug, Clone, Copy, PartialEq, Eq, Structural)]
pub enum FetchError {
    /// The path is not of the shape `g/<album id>/<album token>`.
    InvalidPath,
    /// The listing pages hold no item link: the album is likely deleted, or
    /// access to it is blocked.
    NoItems,
}

/// The text of each fetch error.
pub open spec fn fetch_error_text(e: FetchError) -> Seq<char> {
    match e {
        FetchError::InvalidPath => INVALID_PATH_TEXT@,
        FetchError::NoItems => NO_ITEMS_TEXT@,
    }
}

pub const INVALID_PATH_TEXT: &'static str =
    "invalid input path, gallery url is expected(like https://exhentai.org/g/2129939/01a6e086b9)";

pub const NO_ITEMS_TEXT: &'static str =
    "invalid url, maybe resource has been deleted, or our ip is blocked.";

pub const IMAGE_NOT_FOUND_TEXT: &'static str = "unable to find image in page";

/// The text of each stream error.
pub open spec fn stream_error_text(e: StreamError) -> Seq<char> {
    match e {
        StreamError::ImageNotFound => IMAGE_NOT_FOUND_TEXT@,
    }
}

impl FetchError {
    /// A sentence that describes the error.
    pub fn message(&self) -> (r: String)
        ensures
            r@ == fetch_error_text(*self),
    {
        match self {
            FetchError::InvalidPath => String::from_str(INVALID_PATH_TEXT),
            FetchError::NoItems => String::from_str(NO_ITEMS_TEXT),
        }
    }
}

/// Why one item could not be resolved.
#[derive(Debug, Clone, Copy, PartialEq, Eq, Structural)]
pub enum StreamError {
    /// The detail page shows no binary URL.
    ImageNotFound,
}

impl StreamError {
    /// A sentence that describes the error.
    pub fn message(&self) -> (r: String)
        ensures
            r@ == stream_error_text(*self),
    {
        match self {
            StreamError::ImageNotFound => String::from_str(IMAGE_NOT_FOUND_TEXT),
        }
    }
}

/// What is known of an album.
#[derive(Debug, Clone)]
pub struct AlbumMeta {
    pub link: String,
    pub name: String,
    pub class: Option<String>,
    pub description: Option<String>,
    pub authors: Option<Vec<String>>,
    pub tags: Option<Vec<String>>,
}

/// What is known of one item.
#[derive(Debug, Clone)]
pub struct ImageMeta {
    /// The detail-page link, a stable key for the item.
    pub id: String,
    /// The URL of the binary content.
    pub url: String,
    pub description: Option<String>,
}

/// The captures that are set, in order.
pub open spec fn present(caps: Seq<Option<Seq<char>>>) -> Seq<Seq<char>>
    decreases caps.len(),
{
    if caps.len() == 0 {
        Seq::empty()
    } else {
        let rest = present(caps.drop_last());
        match caps.last() {
            Some(c) => rest.push(c),
            None => rest,
        }
    }
}

/// The item links of one listing page, in the order they stand.
pub open spec fn page_links(page: Seq<char>) -> Seq<Seq<char>> {
    present(all_captures(ITEM_LINK_PATTERN@, page))
}

/// The item links of all listing pages, in page order.
pub open spec fn album_links(pages: Seq<Seq<char>>) -> Seq<Seq<char>>
    decreases pages.len(),
{
    if pages.len() == 0 {
        Seq::empty()
    } else {
        album_links(pages.drop_last()) + page_links(pages.last())
    }
}

/// The album title shown on its first page, or the placeholder.
pub open spec fn album_title(first_page: Seq<char>) -> Seq<char> {
    match first_capture(TITLE_PATTERN@, first_page) {
        Some(t) => t,
        None => NO_TITLE@,
    }
}

/// The binary URL shown on a detail page.
pub open spec fn image_url(page: Seq<char>) -> Option<Seq<char>> {
    first_capture(IMAGE_PATTERN@, page)
}

/// Appends the item links of one page to `links`.
fn push_page_links(patterns: &SitePatterns, page: &str, links: &mut Vec<String>)
    requires
        patterns.wf(),
    ensures
        texts(final(links)@) == texts(old(links)@) + page_links(page@),
{
    let caps = all_groups(&patterns.item_link, page);
    let ghost all = all_captures(ITEM_LINK_PATTERN@, page@);
    let ghost start = texts(links@);
    let mut i: usize = 0;
    while i < caps.len()
        invariant
            patterns.wf(),
            all == all_captures(patterns.item_link.source(), page@),
            caps@.len() == all.len(),
            forall|j: int| 0 <= j < caps@.len() ==> opt_chars(#[trigger] caps@[j]) == all[j],
            i <= caps@.len(),
            texts(links@) == start + present(all.subrange(0, i as int)),
        decreases caps@.len() - i,
    {
        let ghost before = texts(links@);
        assert(all.subrange(0, i as int + 1).drop_last() =~= all.subrange(0, i as int));
        assert(opt_chars(caps@[i as int]) == all[i as int]);
        match &caps[i] {
            Some(link) => {
                links.push(link.clone());
                assert(texts(links@) =~= before.push(link@));
            },
            None => {},
        }
        i = i + 1;
    }
    assert(all.subrange(0, caps@.len() as int) =~= all);
}

/// The lazy sequence of item links of an album, consumed front to back.
pub struct LinkStream {
    links: Vec<String>,
    pos: usize,
}

/// What one pull from a stream whose unconsumed links are `rest` yields, and
/// what stays unconsumed after it.
pub open spec fn pull(rest: Seq<Seq<char>>) -> (Option<Seq<char>>, Seq<Seq<char>>) {
    if rest.len() == 0 {
        (None, rest)
    } else {
        (Some(rest[0]), rest.drop_first())
    }
}

/// What `n` successive pulls yield, in order.
pub open spec fn pulls(rest: Seq<Seq<char>>, n: nat) -> Seq<Option<Seq<char>>>
    decreases n,
{
    if n == 0 {
        Seq::empty()
    } else {
        seq![pull(rest).0] + pulls(pull(rest).1, (n - 1) as nat)
    }
}

impl LinkStream {
    pub closed spec fn wf(&self) -> bool {
        self.pos <= self.links@.len()
    }

    /// The links not consumed yet, in order.
    pub closed spec fn rest(&self) -> Seq<Seq<char>> {
        texts(self.links@).subrange(self.pos as int, self.links@.len() as int)
    }

    /// A stream over `links`, none consumed.
    pub fn new(links: Vec<String>) -> (r: LinkStream)
        ensures
            r.wf(),
            r.rest() == texts(links@),
    {
        let r = LinkStream { links, pos: 0 };
        assert(r.rest() =~= texts(r.links@));
        r
    }

    /// Consumes and returns the next link; `None` once all are consumed.
    pub fn next(&mut self) -> (r: Option<String>)
        requires
            old(self).wf(),
        ensures
            final(self).wf(),
            opt_chars(r) == pull(old(self).rest()).0,
            final(self).rest() == pull(old(self).rest()).1,
    {
        if self.pos < self.links.len() {
            let link = self.links[self.pos].clone();
            let ghost before = self.rest();
            self.pos = self.pos + 1;
            assert(self.rest() =~= before.drop_first());
            Some(link)
        } else {
            None
        }
    }

    /// How many links are left: the same number as lower and upper bound.
    pub fn size_hint(&self) -> (r: (usize, Option<usize>))
        requires
            self.wf(),
        ensures
            r.0 == self.rest().len(),
            r.1 == Some(r.0),
    {
        let n = self.links.len() - self.pos;
        (n, Some(n))
    }
}

/// Builds the album at `url` from its listing pages, in page order.
///
/// The title comes from the first page. The stream yields the item links of
/// all pages in page order; where there are none, the album counts as missing.
pub fn build_album(patterns: &SitePatterns, url: String, pages: &Vec<String>) -> (r: Result<
    (AlbumMeta, LinkStream),
    FetchError,
>)
    requires
        patterns.wf(),
    ensures
        r is Ok <==> album_links(texts(pages@)).len() > 0,
        r matches Err(e) ==> e == FetchError::NoItems,
        r matches Ok((meta, stream)) ==> {
            &&& meta.link@ == url@
            &&& meta.name@ == album_title(pages@[0]@)
            &&& meta.class is None && meta.description is None
            &&& meta.authors is None && meta.tags is None
            &&& stream.wf()
            &&& stream.rest() == album_links(texts(pages@))
            &&& stream.rest().len() > 0
        },
{
    let mut links: Vec<String> = Vec::new();
    let mut i: usize = 0;
    while i < pages.len()
        invariant
            patterns.wf(),
            i <= pages@.len(),
            texts(links@) == album_links(texts(pages@.subrange(0, i as int))),
        decreases pages@.len() - i,
    {
        push_page_links(patterns, pages[i].as_str(), &mut links);
        assert(texts(pages@.subrange(0, i as int + 1)).drop_last() =~= texts(
            pages@.subrange(0, i as int),
        ));
        assert(texts(pages@.subrange(0, i as int + 1)).last() == pages@[i as int]@);
        i = i + 1;
    }
    assert(pages@.subrange(0, pages@.len() as int) =~= pages@);
    if links.len() == 0 {
        return Err(FetchError::NoItems);
    }
    proof {
        if pages@.len() == 0 {
            assert(texts(pages@) =~= Seq::<Seq<char>>::empty());
        }
    }
    let name = match first_group(&patterns.title, pages[0].as_str()) {
        Some(t) => t,
        None => String::from_str(NO_TITLE),
    };
    let meta = AlbumMeta {
        link: url,
        name,
        class: None,
        description: None,
        authors: None,
        tags: None,
    };
    Ok((meta, LinkStream::new(links)))
}

/// The metadata of the item at `link`, read from its detail page: an error
/// where the page shows no binary URL.
pub fn image_meta(patterns: &SitePatterns, link: String, page: &str) -> (r: Result<
    ImageMeta,
    StreamError,
>)
    requires
        patterns.wf(),
    ensures
        r is Ok <==> image_url(page@) is Some,
        r matches Err(e) ==> e == StreamError::ImageNotFound,
        r matches Ok(m) ==> m.id@ == link@ && Some(m.url@) == image_url(page@)
            && m.description is None,
{
    match first_group(&patterns.image, page) {
        Some(url) => Ok(ImageMeta { id: link, url, description: None }),
        None => Err(StreamError::ImageNotFound),
    }
}

/// Starts resolving the album at `path`: its canonical URL, and an empty
/// collection of its listing pages from page 0.
pub fn start_album(path: &str) -> (r: Result<(String, Paged), FetchError>)
    ensures
        r is Err <==> parse_path_spec(path@) is None,
        r matches Err(e) ==> e == FetchError::InvalidPath,
        r matches Ok((url, paged)) ==> {
            &&& parse_path_spec(path@) matches Some((id, token))
            &&& url@ == album_url_spec(id, token)
            &&& paged.wf()
            &&& paged.base() == url@
            &&& paged.start() == 0
            &&& paged.pages().len() == 0
            &&& !paged.finished()
        },
{
    match parse_path(path) {
        None => Err(FetchError::InvalidPath),
        Some((id, token)) => {
            let url = album_url(id.as_str(), token.as_str());
            let paged = Paged::new(0, EXPageIndicator { base: url.clone() });
            Ok((url, paged))
        },
    }
}

/// Finishes resolving the album at `url` once all its listing pages are in.
pub fn finish_album(patterns: &SitePatterns, url: String, paged: Paged) -> (r: Result<
    (AlbumMeta, LinkStream),
    FetchError,
>)
    requires
        patterns.wf(),
        paged.wf(),
        paged.finished(),
    ensures
        r is Ok <==> album_links(paged.pages()).len() > 0,
        r matches Err(e) ==> e == FetchError::NoItems,
        r matches Ok((meta, stream)) ==> {
            &&& meta.link@ == url@
            &&& meta.name@ == album_title(paged.pages()[0])
            &&& stream.wf()
            &&& stream.rest() == album_links(paged.pages())
            &&& stream.rest().len() > 0
        },
{
    proof {
        crate::paged::lemma_finished_pages_minimal(&paged);
    }
    let pages = paged.into_pages();
    assert(pages@[0]@ == texts(pages@)[0]);
    build_album(patterns, url, &pages)
}

/// The item links of listing pages read in two runs, `first` and then
/// `second`, are those of `first` followed by those of `second`: links keep
/// page order, and within a page the order they stand in.
pub proof fn lemma_album_links_concat(first: Seq<Seq<char>>, second: Seq<Seq<char>>)
    ensures
        album_links(first + second) == album_links(first) + album_links(second),
    decreases second.len(),
{
    if second.len() == 0 {
        assert(first + second =~= first);
        assert(album_links(first) + album_links(second) =~= album_links(first));
    } else {
        lemma_album_links_concat(first, second.drop_last());
        assert((first + second).drop_last() =~= first + second.drop_last());
        assert((first + second).last() == second.last());
        assert(album_links(first + second) =~= album_links(first) + album_links(second));
    }
}

/// Pulling `n + 1` times from a stream with `n` unconsumed links yields each
/// link once, in order, and then the end; pulls past the end keep yielding
/// the end.
pub proof fn lemma_pulls_to_end(rest: Seq<Seq<char>>, extra: nat)
    ensures
        pulls(rest, rest.len() + 1 + extra) == rest.map_values(|l: Seq<char>| Some(l)) + Seq::new(
            extra + 1,
            |i: int| None::<Seq<char>>,
        ),
    decreases rest.len() + extra,
{
    if rest.len() == 0 {
        if extra == 0 {
            assert(pulls(rest, 0) == Seq::<Option<Seq<char>>>::empty());
            assert(pulls(rest, 1) =~= seq![None::<Seq<char>>]);
            assert(rest.map_values(|l: Seq<char>| Some(l)) + Seq::new(1, |i: int| None::<Seq<char>>)
                =~= seq![None::<Seq<char>>]);
        } else {
            lemma_pulls_to_end(rest, (extra - 1) as nat);
            assert(pulls(rest, rest.len() + 1 + extra) =~= rest.map_values(|l: Seq<char>| Some(l))
                + Seq::new(extra + 1, |i: int| None::<Seq<char>>));
        }
    } else {
        lemma_pulls_to_end(rest.drop_first(), extra);
        assert(pulls(rest, rest.len() + 1 + extra) =~= rest.map_values(|l: Seq<char>| Some(l))
            + Seq::new(extra + 1, |i: int| None::<Seq<char>>));
    }
}

} // verus!
