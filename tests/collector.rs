use eh_collector::album::{
    build_album, finish_album, image_meta, start_album, FetchError, LinkStream, SitePatterns,
    StreamError,
};
use eh_collector::config::ExConfig;
use eh_collector::paged::{EXPageIndicator, Paged};
use eh_collector::path::{album_url, parse_path};
use eh_collector::pattern::Pattern;
use eh_collector::retry::{RetryPolicy, RetryStep};

const LISTING: &str = r#"<div class="gdtm" style="height:170px"><div style="margin:1px auto 0; width:100px; height:140px; background:transparent url(https://ehgt.org/m/002122/2122174-00.jpg) -600px 0 no-repeat"><a href="https://exhentai.org/s/bd2b37d829/2122174-7"><img alt="007" title="Page 7: 2.png" src="https://ehgt.org/g/blank.gif" style="width:100px; height:139px; margin:-1px 0 0 -1px" /></a></div></div><div class="gdtm" style="height:170px"><div style="margin:1px auto 0; width:100px; height:100px; background:transparent url(https://ehgt.org/m/002122/2122174-00.jpg) -700px 0 no-repeat"><a href="https://exhentai.org/s/4ca72f757d/2122174-8"><img alt="008" title="Page 8: 3.png" src="https://ehgt.org/g/blank.gif" style="width:100px; height:99px; margin:-1px 0 0 -1px" />"#;

fn patterns() -> SitePatterns {
    SitePatterns::new().unwrap()
}

fn config() -> ExConfig {
    ExConfig {
        ipb_pass_hash: "balabala".to_string(),
        ipb_member_id: "balabala".to_string(),
        igneous: "balabala".to_string(),
    }
}

/// Runs the page collection over fixed page contents, as a fetching caller would.
fn collect(path: &str, contents: &[&str]) -> Result<(String, Paged, Vec<String>), FetchError> {
    let (url, mut paged) = start_album(path)?;
    let mut urls = Vec::new();
    for c in contents {
        assert!(!paged.is_finished());
        urls.push(paged.page_url());
        if paged.push_page(c.to_string()) {
            break;
        }
    }
    Ok((url, paged, urls))
}

fn listing_page(title: &str, links: &[&str], next_link: Option<&str>) -> String {
    let mut page = format!("<html><h1 id=\"gj\">{title}</h1>");
    for l in links {
        page.push_str(&format!("<div><a href=\"{l}\"><img src=\"x\"/></a></div>"));
    }
    if let Some(n) = next_link {
        page.push_str(&format!("<a href=\"{n}\" onclick=\"return false\">&gt;</a>"));
    }
    page.push_str("</html>");
    page
}

#[test]
fn demo() {
    let config = config();
    println!("config {config:#?}");
    let page = listing_page(
        "Some Album",
        &[
            "https://exhentai.org/s/bd2b37d829/2129939-1",
            "https://exhentai.org/s/4ca72f757d/2129939-2",
        ],
        None,
    );
    let (url, paged, _) = collect("/g/2129939/01a6e086b9", &[&page]).unwrap();
    let (album, mut image_stream) = finish_album(&patterns(), url, paged).unwrap();
    println!("album: {album:?}");
    assert_eq!(album.link, "https://exhentai.org/g/2129939/01a6e086b9");
    assert_eq!(album.name, "Some Album");
    let first = image_stream.next().unwrap();
    let detail = r#"<div><img id="img" src="https://host.example/h/abc/1.jpg" style="x"></div>"#;
    let meta = image_meta(&patterns(), first, detail).unwrap();
    println!("first image meta: {meta:?}");
    assert_eq!(meta.id, "https://exhentai.org/s/bd2b37d829/2129939-1");
    assert_eq!(meta.url, "https://host.example/h/abc/1.jpg");
    assert_eq!(meta.description, None);
}

#[test]
fn invalid_url() {
    let config = config();
    println!("config {config:#?}");
    let page = "<html><p>Key missing, or incorrect key provided.</p></html>";
    let (url, paged, _) = collect("/g/2129939/00000", &[page]).unwrap();
    let output = finish_album(&patterns(), url, paged);
    assert!(output.is_err());
    println!("output err {:?}", output.as_ref().err());
    assert_eq!(output.err(), Some(FetchError::NoItems));
}

#[test]
fn regex_match() {
    let (_, mut links) = build_album(&patterns(), "u".to_string(), &vec![LISTING.to_string()]).unwrap();
    assert_eq!(links.next().as_deref(), Some("https://exhentai.org/s/bd2b37d829/2122174-7"));
    assert_eq!(links.next().as_deref(), Some("https://exhentai.org/s/4ca72f757d/2122174-8"));
    assert_eq!(links.next(), None);
}

#[test]
fn scenario_album_two_items_in_order() {
    let page = listing_page(
        "Title Here",
        &["https://exhentai.org/s/aaaa/2129939-1", "https://exhentai.org/s/bbbb/2129939-2"],
        None,
    );
    let (url, paged, urls) = collect("g/2129939/01a6e086b9", &[&page]).unwrap();
    assert_eq!(urls, vec!["https://exhentai.org/g/2129939/01a6e086b9/?p=0".to_string()]);
    let (album, mut stream) = finish_album(&patterns(), url, paged).unwrap();
    assert_eq!(album.name, "Title Here");
    assert_eq!(album.link, "https://exhentai.org/g/2129939/01a6e086b9");
    assert!(album.class.is_none() && album.description.is_none());
    assert!(album.authors.is_none() && album.tags.is_none());
    assert_eq!(stream.size_hint(), (2, Some(2)));
    assert_eq!(stream.next().as_deref(), Some("https://exhentai.org/s/aaaa/2129939-1"));
    assert_eq!(stream.next().as_deref(), Some("https://exhentai.org/s/bbbb/2129939-2"));
    assert_eq!(stream.next(), None);
}

#[test]
fn scenario_no_items_is_deleted_or_blocked() {
    let page = listing_page("Gone", &[], None);
    let (url, paged, _) = collect("g/2129939/00000", &[&page]).unwrap();
    let r = finish_album(&patterns(), url, paged);
    assert_eq!(r.err(), Some(FetchError::NoItems));
    assert_eq!(
        FetchError::NoItems.message(),
        "invalid url, maybe resource has been deleted, or our ip is blocked."
    );
}

#[test]
fn missing_title_gets_placeholder() {
    let page = "<a href=\"https://exhentai.org/s/aaaa/1-1\">";
    let r = build_album(&patterns(), "u".to_string(), &vec![page.to_string()]);
    let (album, _) = r.unwrap();
    assert_eq!(album.name, "No Title");
}

#[test]
fn pages_collected_until_last() {
    let base = "https://exhentai.org/g/1/t";
    let p0 = listing_page("T", &["https://exhentai.org/s/a/1-1"], Some(&format!("{base}/?p=1")));
    let p1 = listing_page("T", &["https://exhentai.org/s/b/1-2"], Some(&format!("{base}/?p=2")));
    let p2 = listing_page("T", &["https://exhentai.org/s/c/1-3"], None);
    let p3 = listing_page("T", &["https://exhentai.org/s/d/1-4"], None);
    let (url, paged, urls) = collect("/g/1/t/", &[&p0, &p1, &p2, &p3]).unwrap();
    assert!(paged.is_finished());
    assert_eq!(
        urls,
        vec![format!("{base}/?p=0"), format!("{base}/?p=1"), format!("{base}/?p=2")]
    );
    let (_, mut stream) = finish_album(&patterns(), url, paged).unwrap();
    assert_eq!(stream.size_hint(), (3, Some(3)));
    let mut got = Vec::new();
    while let Some(l) = stream.next() {
        got.push(l);
    }
    assert_eq!(
        got,
        vec![
            "https://exhentai.org/s/a/1-1".to_string(),
            "https://exhentai.org/s/b/1-2".to_string(),
            "https://exhentai.org/s/c/1-3".to_string()
        ]
    );
}

#[test]
fn single_page_is_always_returned() {
    let (_, paged, urls) = collect("g/5/x", &["nothing here"]).unwrap();
    assert!(paged.is_finished());
    assert_eq!(urls.len(), 1);
    assert_eq!(paged.into_pages(), vec!["nothing here".to_string()]);
}

#[test]
fn same_pages_give_same_links() {
    let pages = vec![LISTING.to_string(), LISTING.to_string()];
    let (_, mut a) = build_album(&patterns(), "u".to_string(), &pages).unwrap();
    let (_, mut b) = build_album(&patterns(), "u".to_string(), &pages).unwrap();
    let mut la = Vec::new();
    let mut lb = Vec::new();
    while let Some(l) = a.next() {
        la.push(l);
    }
    while let Some(l) = b.next() {
        lb.push(l);
    }
    assert_eq!(la.len(), 4);
    assert_eq!(la, lb);
    assert_eq!(la[0], "https://exhentai.org/s/bd2b37d829/2122174-7");
    assert_eq!(la[3], "https://exhentai.org/s/4ca72f757d/2122174-8");
}

#[test]
fn stream_ends_and_stays_ended() {
    let mut s = LinkStream::new(vec!["a".to_string(), "b".to_string(), "c".to_string()]);
    assert_eq!(s.size_hint(), (3, Some(3)));
    assert_eq!(s.next().as_deref(), Some("a"));
    assert_eq!(s.size_hint(), (2, Some(2)));
    assert_eq!(s.next().as_deref(), Some("b"));
    assert_eq!(s.next().as_deref(), Some("c"));
    assert_eq!(s.next(), None);
    assert_eq!(s.next(), None);
    assert_eq!(s.size_hint(), (0, Some(0)));
}

#[test]
fn detail_page_without_image_fails_only_that_item() {
    let mut s = LinkStream::new(vec!["l1".to_string(), "l2".to_string()]);
    let first = s.next().unwrap();
    let r = image_meta(&patterns(), first, "<html>no image</html>");
    assert_eq!(r.err(), Some(StreamError::ImageNotFound));
    assert_eq!(StreamError::ImageNotFound.message(), "unable to find image in page");
    let second = s.next().unwrap();
    let m = image_meta(&patterns(), second, r#"<img id="img" src="https://i/2.png" />"#).unwrap();
    assert_eq!(m.id, "l2");
    assert_eq!(m.url, "https://i/2.png");
}

#[test]
fn invalid_paths_are_rejected() {
    for p in ["", "/", "g", "g/1", "g/1/", "x/1/2", "gg/1/2", "g/1/2/3", "/g/1/2/3/"] {
        assert_eq!(start_album(p).err(), Some(FetchError::InvalidPath), "{p}");
    }
    assert!(FetchError::InvalidPath.message().starts_with("invalid input path"));
}

#[test]
fn valid_paths_are_split() {
    assert_eq!(
        parse_path("///g/2129939/01a6e086b9//"),
        Some(("2129939".to_string(), "01a6e086b9".to_string()))
    );
    assert_eq!(parse_path("g//tok"), Some((String::new(), "tok".to_string())));
    assert_eq!(album_url("7", "ab"), "https://exhentai.org/g/7/ab");
}

#[test]
fn page_indicator_formats_and_detects_last() {
    let ind = EXPageIndicator { base: "https://exhentai.org/g/1/t".to_string() };
    assert_eq!(ind.format_n(0), "https://exhentai.org/g/1/t/?p=0");
    assert_eq!(ind.format_n(12), "https://exhentai.org/g/1/t/?p=12");
    let page = "xx<a href=\"https://exhentai.org/g/1/t/?p=3\" onclick=\"return false\">yy";
    assert!(!ind.is_last_page(page, 3));
    assert!(ind.is_last_page(page, 4));
    assert!(ind.is_last_page("", 1));
}

#[test]
fn last_page_test_matches_whole_link_only() {
    let ind = EXPageIndicator { base: "https://exhentai.org/g/1/t".to_string() };
    let page = "<a href=\"https://exhentai.org/g/1/t/?p=10\" onclick=\"return false\">";
    assert!(!ind.is_last_page(page, 10));
    assert!(ind.is_last_page(page, 1));
    assert!(ind.is_last_page("<a href=\"https://exhentai.org/g/1/t/?p=10\">", 10));
    assert_eq!(ind.format_n(1907), "https://exhentai.org/g/1/t/?p=1907");
}

#[test]
fn title_is_first_match() {
    let page = "<h1 id=\"gj\">Name</h1><h1 id=\"gj\">Other</h1><a href=\"https://exhentai.org/s/aa/1-1\">";
    let (album, _) = build_album(&patterns(), "u".to_string(), &vec![page.to_string()]).unwrap();
    assert_eq!(album.name, "Name");
    assert!(Pattern::new("(unclosed").is_none());
    assert!(Pattern::new("a(b)c").is_some());
}

#[test]
fn cookie_from_config() {
    let c = ExConfig {
        ipb_pass_hash: "h".to_string(),
        ipb_member_id: "m".to_string(),
        igneous: "i".to_string(),
    };
    assert_eq!(c.cookie_value(), "ipb_pass_hash=h;ipb_member_id=m;igneous=i;nw=1");
}

fn run(policy: &RetryPolicy, outcomes: &[Result<u32, &'static str>]) -> Option<Result<u32, &'static str>> {
    let mut failures: u32 = 0;
    for o in outcomes {
        match policy.step(failures, *o) {
            RetryStep::Finish(r) => return Some(r),
            RetryStep::Again => failures += 1,
        }
    }
    None
}

#[test]
fn retry_succeeds_within_budget() {
    let p = RetryPolicy::standard();
    assert_eq!(p.max_retries, 5);
    assert_eq!(p.delay_ms, 200);
    assert!(p.jitter);
    for k in 0..=5 {
        let mut outcomes: Vec<Result<u32, &'static str>> = (0..k).map(|_| Err("e")).collect();
        outcomes.push(Ok(7));
        assert_eq!(run(&p, &outcomes), Some(Ok(7)));
    }
}

#[test]
fn retry_gives_last_error_after_six_failures() {
    let p = RetryPolicy::standard();
    let outcomes = [Err("1"), Err("2"), Err("3"), Err("4"), Err("5"), Err("6"), Ok(1)];
    assert_eq!(run(&p, &outcomes), Some(Err("6")));
}

#[test]
fn retry_delays() {
    let p = RetryPolicy::standard();
    assert_eq!(p.delay_ms(1000), 200);
    assert_eq!(p.delay_ms(500), 100);
    assert_eq!(p.delay_ms(1), 0);
    let fixed = RetryPolicy { delay_ms: 200, max_retries: 5, jitter: false };
    assert_eq!(fixed.delay_ms(1), 200);
}
