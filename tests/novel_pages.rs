use novel_scraper::bili::{
    assemble_info, assemble_profile, catalog_entry_from_parts, catalog_url, chapter_url, detect_cloudflare_block, info_url, novel_info_from_page,
    parse_info_page, parse_li_element, parse_volumes_li_elements, profile_from_page,
};
use novel_scraper::text::contains_text;
use novel_scraper::{
    get_novel_id, parse_decimal_i32, try_get_novel_id, BiliNovel, BiliNovelSource, CatalogError,
    CatalogItem, InfoPageError, NovelSourceError,
};

const HOME: &str = r#"<html><head><title>Novel</title></head><body>
<div class="book-layout"><img src="https://img.example/cover.jpg"></div>
<h1 class="book-title">The Title</h1>
<div class="book-cell"><p class="book-meta"><span><em>Fantasy</em></span><span><em>School</em></span></p>
<p class="book-meta">Ongoing</p><p class="book-meta">Finished</p></div>
<span class="tag-small orange">Publisher Co</span>
<div class="book-rand-a"><span>An Author</span></div>
<div id="bookSummary"><content>A summary.</content></div>
</body></html>"#;

#[test]
fn novel_ids_from_urls() {
    assert_eq!(try_get_novel_id("https://www.bilinovel.com/novel/2890.html").as_deref(), Some("2890"));
    assert_eq!(try_get_novel_id("https://linovelib.com/novel/17/catalog").as_deref(), Some("17"));
    assert_eq!(try_get_novel_id("https://example.com/novel/2890.html"), None);
    assert!(BiliNovel::url_belongs_to_source("https://www.linovelib.com/novel/5.html"));
    assert!(!BiliNovel::url_belongs_to_source("https://www.bilinovel.com/books/5.html"));
    assert!(BiliNovelSource::is_this_source("https://www.bilinovel.com/novel/2890.html"));
}

#[test]
fn novel_id_from_info_path() {
    assert_eq!(get_novel_id("/novel/2890.html"), Some(2890));
    assert_eq!(get_novel_id("/novel/2890/catalog"), None);
    assert_eq!(get_novel_id("/novel/99999999999.html"), None);
}

#[test]
fn decimal_parsing() {
    assert_eq!(parse_decimal_i32("0"), Some(0));
    assert_eq!(parse_decimal_i32("2147483647"), Some(i32::MAX));
    assert_eq!(parse_decimal_i32("2147483648"), None);
    assert_eq!(parse_decimal_i32(""), None);
    assert_eq!(parse_decimal_i32("12a"), None);
    assert_eq!(parse_decimal_i32("-1"), None);
}

#[test]
fn page_addresses() {
    assert_eq!(info_url("2890"), "https://www.bilinovel.com/novel/2890.html");
    assert_eq!(catalog_url("2890"), "https://www.bilinovel.com/novel/2890/catalog");
}

#[test]
fn profile_from_home_page() {
    let p = match profile_from_page("2890".to_owned(), HOME) {
        Ok(p) => p,
        Err(_) => panic!("profile expected"),
    };
    assert_eq!(p.id, "2890");
    assert_eq!(p.title, "The Title");
    assert_eq!(p.author, "An Author");
    assert_eq!(p.cover_image.as_deref(), Some("https://img.example/cover.jpg"));
    assert_eq!(p.tags, Some(vec!["Fantasy".to_owned(), "School".to_owned()]));
    assert_eq!(p.publisher.as_deref(), Some("Publisher Co"));
    assert_eq!(p.description, "A summary.");
}

#[test]
fn profile_requires_title_then_author() {
    match profile_from_page("1".to_owned(), "<p>nothing</p>") {
        Err(NovelSourceError::ParseError(m)) => assert_eq!(m, "Failed to get title"),
        _ => panic!("title error expected"),
    }
    match profile_from_page("1".to_owned(), r#"<h1 class="book-title">T</h1>"#) {
        Err(NovelSourceError::ParseError(m)) => assert_eq!(m, "Failed to get author"),
        _ => panic!("author error expected"),
    }
}

#[test]
fn profile_without_tags_or_description() {
    let p = match assemble_profile("7".to_owned(), Some("T".to_owned()), None, vec![], None, Some("A".to_owned()), None) {
        Ok(p) => p,
        Err(_) => panic!("profile expected"),
    };
    assert_eq!(p.tags, None);
    assert_eq!(p.description, "");
    assert_eq!(p.cover_image, None);
}

#[test]
fn info_page_fields() {
    let info = parse_info_page(HOME, "2890".to_owned(), "https://www.bilinovel.com/novel/2890.html".to_owned())
        .unwrap_or_else(|e| panic!("{}", e.message()));
    assert_eq!(info.title, "The Title");
    assert_eq!(info.status, "Finished");
    assert_eq!(info.cover.as_deref(), Some("https://img.example/cover.jpg"));
    assert_eq!(info.tags.len(), 2);
    assert_eq!(info.publisher.as_deref(), Some("Publisher Co"));
    assert_eq!(info.author, "An Author");
    assert_eq!(info.description, "A summary.");
    assert_eq!(info.id, "2890");
}

#[test]
fn info_page_missing_fields() {
    let e = |d: &str| parse_info_page(d, "1".to_owned(), "u".to_owned()).err();
    assert_eq!(e("<p></p>"), Some(InfoPageError::MissingTitle));
    assert_eq!(e(r#"<h1 class="book-title">T</h1>"#), Some(InfoPageError::MissingCover));
    assert_eq!(
        e(r#"<h1 class="book-title">T</h1><div class="book-layout"><img alt="x"></div>"#),
        Some(InfoPageError::MissingCoverUrl)
    );
    assert_eq!(
        e(r#"<h1 class="book-title">T</h1><div class="book-layout"><img src="c"></div>"#),
        Some(InfoPageError::MissingPublisher)
    );
    assert_eq!(InfoPageError::MissingStatus.message(), "Cannot find status");
}

#[test]
fn cloudflare_page_is_refused() {
    let page = "<html><head><title>Just a moment... Cloudflare</title></head><body></body></html>";
    assert!(detect_cloudflare_block(page));
    assert!(!detect_cloudflare_block(HOME));
    assert_eq!(
        novel_info_from_page(page, "1".to_owned(), "u".to_owned()).err(),
        Some(InfoPageError::CloudflareBlock)
    );
}

#[test]
fn text_containment() {
    assert!(contains_text("javascript:void(0)", "javascript"));
    assert!(contains_text("abc", ""));
    assert!(!contains_text("java", "javascript"));
    assert!(contains_text("xxjavascript", "javascript"));
}

#[test]
fn chapter_addresses() {
    assert_eq!(chapter_url(Some("/novel/1/2.html".to_owned())).as_deref(), Some("https://www.bilinovel.com/novel/1/2.html"));
    assert_eq!(chapter_url(Some("javascript:cid(0)".to_owned())), None);
    assert_eq!(chapter_url(None), None);
}

#[test]
fn catalog_entries() {
    match parse_li_element(r#"<li class="chapter-bar">Volume 1</li>"#) {
        Ok(CatalogItem::ChapterBar { volume_title }) => assert_eq!(volume_title, "Volume 1"),
        _ => panic!("chapter bar expected"),
    }
    match parse_li_element(r#"<li class="volume-cover"><a href="/v"><img src="c.jpg"></a></li>"#) {
        Ok(CatalogItem::VolumeCover { cover_url }) => assert_eq!(cover_url, "c.jpg"),
        _ => panic!("cover expected"),
    }
    match parse_li_element(r#"<li class="jsChapter"><a href="/novel/1/9.html">Ch 9</a></li>"#) {
        Ok(CatalogItem::Chapter { chapter_name, chapter_url }) => {
            assert_eq!(chapter_name, "Ch 9");
            assert_eq!(chapter_url.as_deref(), Some("https://www.bilinovel.com/novel/1/9.html"));
        }
        _ => panic!("chapter expected"),
    }
    match parse_li_element(r#"<li class="jsChapter"><a href="javascript:cid(0)">Ch 10</a></li>"#) {
        Ok(CatalogItem::Chapter { chapter_url, .. }) => assert_eq!(chapter_url, None),
        _ => panic!("chapter expected"),
    }
    assert!(matches!(parse_li_element(r#"<li class="other">x</li>"#), Ok(CatalogItem::Unknown)));
    assert!(matches!(parse_li_element(r#"<li class="volume-cover">x</li>"#), Err(CatalogError::MissingCoverUrl)));
    assert!(matches!(parse_li_element(r#"<li class="jsChapter">x</li>"#), Err(CatalogError::MissingChapterLink)));
}

#[test]
fn catalog_page_keeps_readable_entries() {
    let doc = r#"<html><body><ul id="volumes">
<li class="catalog-volume chapter-bar">Volume 1</li>
<li class="catalog-volume volume-cover">no image</li>
<li class="catalog-volume jsChapter"><a href="/novel/1/1.html">One</a></li>
<li class="other jsChapter"><a href="/novel/1/2.html">Skipped</a></li>
</ul></body></html>"#;
    let items = parse_volumes_li_elements(doc);
    assert_eq!(items.len(), 2);
    assert!(matches!(&items[0], CatalogItem::ChapterBar { volume_title } if volume_title == "Volume 1"));
    assert!(matches!(&items[1], CatalogItem::Chapter { chapter_name, .. } if chapter_name == "One"));
}

#[test]
fn mirror_addresses() {
    assert_eq!(novel_scraper::bili::home_page_url("2890"), "https://linovelib.com/novel/2890");
    assert_eq!(novel_scraper::bili::mirror_catalog_url("2890"), "https://linovelib.com/novel/2890/catalog");
}

#[test]
fn info_from_fields_in_order() {
    let s = |x: &str| Some(x.to_owned());
    let ok = assemble_info(
        "u".to_owned(),
        "9".to_owned(),
        s("T"),
        Some(s("c.png")),
        vec!["tag".to_owned()],
        s("P"),
        s("Done"),
        s("A"),
        s("D"),
    )
    .unwrap_or_else(|e| panic!("{}", e.message()));
    assert_eq!((ok.url.as_str(), ok.id.as_str(), ok.status.as_str()), ("u", "9", "Done"));
    assert_eq!(ok.cover.as_deref(), Some("c.png"));
    let err = |cover: Option<Option<String>>, status: Option<String>, author: Option<String>| {
        assemble_info("u".to_owned(), "9".to_owned(), s("T"), cover, vec![], s("P"), status, author, None).err()
    };
    assert_eq!(err(None, s("x"), s("a")), Some(InfoPageError::MissingCover));
    assert_eq!(err(Some(None), s("x"), s("a")), Some(InfoPageError::MissingCoverUrl));
    assert_eq!(err(Some(s("c")), None, None), Some(InfoPageError::MissingStatus));
    assert_eq!(err(Some(s("c")), s("x"), None), Some(InfoPageError::MissingAuthor));
    assert_eq!(err(Some(s("c")), s("x"), s("a")), Some(InfoPageError::MissingDescription));
}

#[test]
fn catalog_entry_from_read_parts() {
    let s = |x: &str| Some(x.to_owned());
    assert!(matches!(
        catalog_entry_from_parts(s("Vol 2"), true, None, true, None, None),
        Ok(CatalogItem::ChapterBar { volume_title }) if volume_title == "Vol 2"
    ));
    assert!(matches!(
        catalog_entry_from_parts(None, true, None, true, s("x"), None),
        Err(CatalogError::MissingCoverUrl)
    ));
    match catalog_entry_from_parts(None, false, None, true, s("Ch"), s("/c/1.html")) {
        Ok(CatalogItem::Chapter { chapter_name, chapter_url }) => {
            assert_eq!(chapter_name, "Ch");
            assert_eq!(chapter_url.as_deref(), Some("https://www.bilinovel.com/c/1.html"));
        }
        _ => panic!("chapter expected"),
    }
    assert!(matches!(catalog_entry_from_parts(None, false, s("x"), false, s("y"), None), Ok(CatalogItem::Unknown)));
}
