//! Reading the site's novel pages: the information page, the profile built
//! from it, and the entries of a catalog page.
use vstd::prelude::*;
use vstd::string::StringExecFns;

use crate::html_select::{
    all_html, all_selected_html, all_selected_texts, all_texts, first_attr, first_selected_attr,
    first_selected_text, first_text, last_selected_text, last_text, opt_text, texts,
};
use crate::novel_url::{first_capture, novel_url_pattern, try_get_novel_id};
use crate::text::{contains_seq, contains_text};

verus! {

#[verifier::external_type_specification]
#[verifier::external_body]
pub struct ExReqwestError(reqwest::Error);

pub const SOURCE_URL: &'static str = "https://www.bilinovel.com";

/// The mirror whose home and catalog pages the profile reader fetches.
pub const MIRROR_URL: &'static str = "https://linovelib.com";

pub const TITLE_SELECTOR: &'static str = ".book-title";

pub const COVER_SELECTOR: &'static str = ".book-layout img";

pub const TAGS_SELECTOR: &'static str = ".book-cell .book-meta span em";

pub const PUBLISHER_SELECTOR: &'static str = ".tag-small.orange";

pub const STATUS_SELECTOR: &'static str = ".book-cell .book-meta+.book-meta";

pub const AUTHOR_SELECTOR: &'static str = ".book-rand-a span";

pub const DESCRIPTION_SELECTOR: &'static str = "#bookSummary content";

pub const CATALOG_ENTRY_SELECTOR: &'static str = "#volumes>*.catalog-volume";

/// An entry's own classes, once its outer HTML is parsed on its own.
pub const CHAPTER_BAR_SELECTOR: &'static str = "body > .chapter-bar";

pub const VOLUME_COVER_SELECTOR: &'static str = "body > .volume-cover";

pub const VOLUME_COVER_IMAGE_SELECTOR: &'static str = "body > .volume-cover a > img";

pub const CHAPTER_SELECTOR: &'static str = "body > .jsChapter";

pub const CHAPTER_LINK_SELECTOR: &'static str = "body > .jsChapter a";

/// The novel sources of the site, by their two page layouts.
pub struct BiliNovelSource;

pub struct BiliNovel;

impl BiliNovelSource {
    /// Whether `url` addresses a novel of the site.
    pub fn is_this_source(url: &str) -> (r: bool)
        ensures
            r == first_capture(novel_url_pattern(), url@) is Some,
    {
        try_get_novel_id(url).is_some()
    }
}

impl BiliNovel {
    /// Whether `url` addresses a novel of the site.
    pub fn url_belongs_to_source(url: &str) -> (r: bool)
        ensures
            r == first_capture(novel_url_pattern(), url@) is Some,
    {
        try_get_novel_id(url).is_some()
    }
}

/// The address of a novel's information page.
pub fn info_url(id: &str) -> (r: String)
    ensures
        r@ == SOURCE_URL@ + "/novel/"@ + id@ + ".html"@,
{
    String::from_str(SOURCE_URL).concat("/novel/").concat(id).concat(".html")
}

/// The address of a novel's catalog page.
pub fn catalog_url(id: &str) -> (r: String)
    ensures
        r@ == SOURCE_URL@ + "/novel/"@ + id@ + "/catalog"@,
{
    String::from_str(SOURCE_URL).concat("/novel/").concat(id).concat("/catalog")
}

/// The address of a novel's home page on the mirror.
pub fn home_page_url(id: &str) -> (r: String)
    ensures
        r@ == MIRROR_URL@ + "/novel/"@ + id@,
{
    String::from_str(MIRROR_URL).concat("/novel/").concat(id)
}

/// The address of a novel's catalog page on the mirror.
pub fn mirror_catalog_url(id: &str) -> (r: String)
    ensures
        r@ == MIRROR_URL@ + "/novel/"@ + id@ + "/catalog"@,
{
    String::from_str(MIRROR_URL).concat("/novel/").concat(id).concat("/catalog")
}

/// What a novel's home page says about it.
#[derive(Clone, Debug)]
pub struct NovelProfile {
    pub id: String,
    pub title: String,
    pub author: String,
    pub cover_image: Option<String>,
    pub tags: Option<Vec<String>>,
    pub publisher: Option<String>,
    pub description: String,
}

pub enum NovelSourceError {
    InvalidUrl(String),
    NetworkError(reqwest::Error),
    ParseError(String),
}

pub open spec fn is_parse_error(e: NovelSourceError, message: Seq<char>) -> bool {
    e is ParseError && e->ParseError_0@ == message
}

pub open spec fn flatten(o: Option<Option<Seq<char>>>) -> Option<Seq<char>> {
    match o {
        Some(Some(x)) => Some(x),
        _ => None,
    }
}

/// `p` holds exactly these fields; no tags are kept as `None`, and a missing
/// description as an empty one.
pub open spec fn profile_is(
    p: NovelProfile,
    id: Seq<char>,
    title: Seq<char>,
    author: Seq<char>,
    cover_image: Option<Seq<char>>,
    tags: Seq<Seq<char>>,
    publisher: Option<Seq<char>>,
    description: Option<Seq<char>>,
) -> bool {
    &&& p.id@ == id
    &&& p.title@ == title
    &&& p.author@ == author
    &&& opt_text(p.cover_image) == cover_image
    &&& match p.tags {
        None => tags.len() == 0,
        Some(t) => tags.len() > 0 && texts(t@) == tags,
    }
    &&& opt_text(p.publisher) == publisher
    &&& p.description@ == match description {
        Some(d) => d,
        None => Seq::empty(),
    }
}

/// Builds a profile from the fields read off a home page. Title and author
/// are required, in that order.
pub fn assemble_profile(
    id: String,
    title: Option<String>,
    cover_image: Option<String>,
    tags: Vec<String>,
    publisher: Option<String>,
    author: Option<String>,
    description: Option<String>,
) -> (r: Result<NovelProfile, NovelSourceError>)
    ensures
        title is None ==> r is Err && is_parse_error(r->Err_0, "Failed to get title"@),
        title is Some && author is None ==> r is Err && is_parse_error(
            r->Err_0,
            "Failed to get author"@,
        ),
        title is Some && author is Some ==> r is Ok && profile_is(
            r->Ok_0,
            id@,
            title->0@,
            author->0@,
            opt_text(cover_image),
            texts(tags@),
            opt_text(publisher),
            opt_text(description),
        ),
{
    let title = match title {
        Some(t) => t,
        None => return Err(NovelSourceError::ParseError("Failed to get title".to_owned())),
    };
    let author = match author {
        Some(a) => a,
        None => return Err(NovelSourceError::ParseError("Failed to get author".to_owned())),
    };
    let tags = if tags.len() == 0 {
        None
    } else {
        Some(tags)
    };
    let description = match description {
        Some(d) => d,
        None => String::new(),
    };
    Ok(NovelProfile { id, title, author, cover_image, tags, publisher, description })
}

/// Reads the profile of novel `id` off its home page `page`.
pub fn profile_from_page(id: String, page: &str) -> (r: Result<NovelProfile, NovelSourceError>)
    ensures
        first_text(page@, TITLE_SELECTOR@) is None ==> r is Err && is_parse_error(
            r->Err_0,
            "Failed to get title"@,
        ),
        first_text(page@, TITLE_SELECTOR@) is Some && first_text(page@, AUTHOR_SELECTOR@) is None
            ==> r is Err && is_parse_error(r->Err_0, "Failed to get author"@),
        first_text(page@, TITLE_SELECTOR@) is Some && first_text(page@, AUTHOR_SELECTOR@) is Some
            ==> r is Ok && profile_is(
            r->Ok_0,
            id@,
            first_text(page@, TITLE_SELECTOR@)->0,
            first_text(page@, AUTHOR_SELECTOR@)->0,
            flatten(first_attr(page@, COVER_SELECTOR@, "src"@)),
            all_texts(page@, TAGS_SELECTOR@),
            first_text(page@, PUBLISHER_SELECTOR@),
            first_text(page@, DESCRIPTION_SELECTOR@),
        ),
{
    let title = first_selected_text(page, TITLE_SELECTOR);
    let cover_image = match first_selected_attr(page, COVER_SELECTOR, "src") {
        Some(src) => src,
        None => None,
    };
    let tags = all_selected_texts(page, TAGS_SELECTOR);
    let publisher = first_selected_text(page, PUBLISHER_SELECTOR);
    let author = first_selected_text(page, AUTHOR_SELECTOR);
    let description = first_selected_text(page, DESCRIPTION_SELECTOR);
    assemble_profile(id, title, cover_image, tags, publisher, author, description)
}

/// What the information page of a novel says about it.
#[derive(Debug)]
pub struct NovelInfo {
    pub url: String,
    pub id: String,
    pub title: String,
    pub author: String,
    pub status: String,
    pub cover: Option<String>,
    pub tags: Vec<String>,
    pub publisher: Option<String>,
    pub description: String,
}

/// Why an information page could not be read.
#[derive(Clone, Copy, Debug, PartialEq, Eq, Structural)]
pub enum InfoPageError {
    /// The site answered with Cloudflare's challenge page instead.
    CloudflareBlock,
    MissingTitle,
    MissingCover,
    MissingCoverUrl,
    MissingPublisher,
    MissingStatus,
    MissingAuthor,
    MissingDescription,
}

impl InfoPageError {
    pub fn message(&self) -> (r: &'static str) {
        match self {
            InfoPageError::CloudflareBlock => "Cloudflare block detected",
            InfoPageError::MissingTitle => "Cannot find book title",
            InfoPageError::MissingCover => "Cannot find book cover",
            InfoPageError::MissingCoverUrl => "cover url not found",
            InfoPageError::MissingPublisher => "Cannot find publisher",
            InfoPageError::MissingStatus => "Cannot find status",
            InfoPageError::MissingAuthor => "Cannot find author",
            InfoPageError::MissingDescription => "Cannot find description",
        }
    }
}

/// The page's title names Cloudflare: the site served its challenge page.
pub open spec fn is_cloudflare_block(document: Seq<char>) -> bool {
    match first_text(document, "title"@) {
        Some(t) => contains_seq(t, "Cloudflare"@),
        None => false,
    }
}

pub fn detect_cloudflare_block(document: &str) -> (r: bool)
    ensures
        r == is_cloudflare_block(document@),
{
    match first_selected_text(document, "title") {
        Some(t) => contains_text(t.as_str(), "Cloudflare"),
        None => false,
    }
}

pub open spec fn opt_opt_text(o: Option<Option<String>>) -> Option<Option<Seq<char>>> {
    match o {
        Some(a) => Some(opt_text(a)),
        None => None,
    }
}

/// The first required field that is missing, in the order an information
/// page is read; `cover` is `None` without a cover element and `Some(None)`
/// when the element has no address.
pub open spec fn missing_field(
    title: Option<Seq<char>>,
    cover: Option<Option<Seq<char>>>,
    publisher: Option<Seq<char>>,
    status: Option<Seq<char>>,
    author: Option<Seq<char>>,
    description: Option<Seq<char>>,
) -> Option<InfoPageError> {
    if title is None {
        Some(InfoPageError::MissingTitle)
    } else if cover is None {
        Some(InfoPageError::MissingCover)
    } else if cover->0 is None {
        Some(InfoPageError::MissingCoverUrl)
    } else if publisher is None {
        Some(InfoPageError::MissingPublisher)
    } else if status is None {
        Some(InfoPageError::MissingStatus)
    } else if author is None {
        Some(InfoPageError::MissingAuthor)
    } else if description is None {
        Some(InfoPageError::MissingDescription)
    } else {
        None
    }
}

/// `info` holds exactly these fields, none of them missing.
pub open spec fn info_holds(
    info: NovelInfo,
    url: Seq<char>,
    id: Seq<char>,
    title: Option<Seq<char>>,
    cover: Option<Option<Seq<char>>>,
    tags: Seq<Seq<char>>,
    publisher: Option<Seq<char>>,
    status: Option<Seq<char>>,
    author: Option<Seq<char>>,
    description: Option<Seq<char>>,
) -> bool {
    &&& info.url@ == url
    &&& info.id@ == id
    &&& info.title@ == title->0
    &&& opt_text(info.cover) == cover->0
    &&& texts(info.tags@) == tags
    &&& opt_text(info.publisher) == publisher
    &&& info.status@ == status->0
    &&& info.author@ == author->0
    &&& info.description@ == description->0
}

/// The first required field that information page `d` lacks.
pub open spec fn info_page_error(d: Seq<char>) -> Option<InfoPageError> {
    missing_field(
        first_text(d, TITLE_SELECTOR@),
        first_attr(d, COVER_SELECTOR@, "src"@),
        first_text(d, PUBLISHER_SELECTOR@),
        last_text(d, STATUS_SELECTOR@),
        first_text(d, AUTHOR_SELECTOR@),
        first_text(d, DESCRIPTION_SELECTOR@),
    )
}

/// `info` holds what page `d` of novel `id` at `url` says.
pub open spec fn info_is(info: NovelInfo, url: Seq<char>, id: Seq<char>, d: Seq<char>) -> bool {
    info_holds(
        info,
        url,
        id,
        first_text(d, TITLE_SELECTOR@),
        first_attr(d, COVER_SELECTOR@, "src"@),
        all_texts(d, TAGS_SELECTOR@),
        first_text(d, PUBLISHER_SELECTOR@),
        last_text(d, STATUS_SELECTOR@),
        first_text(d, AUTHOR_SELECTOR@),
        first_text(d, DESCRIPTION_SELECTOR@),
    )
}

/// Builds the information of novel `id`, fetched from `url`, from the
/// fields read off its page; every field but the tags is required.
pub fn assemble_info(
    url: String,
    id: String,
    title: Option<String>,
    cover: Option<Option<String>>,
    tags: Vec<String>,
    publisher: Option<String>,
    status: Option<String>,
    author: Option<String>,
    description: Option<String>,
) -> (r: Result<NovelInfo, InfoPageError>)
    ensures
        match missing_field(
            opt_text(title),
            opt_opt_text(cover),
            opt_text(publisher),
            opt_text(status),
            opt_text(author),
            opt_text(description),
        ) {
            Some(e) => r == Err::<NovelInfo, InfoPageError>(e),
            None => r is Ok && info_holds(
                r->Ok_0,
                url@,
                id@,
                opt_text(title),
                opt_opt_text(cover),
                texts(tags@),
                opt_text(publisher),
                opt_text(status),
                opt_text(author),
                opt_text(description),
            ),
        },
{
    let title = match title {
        Some(t) => t,
        None => return Err(InfoPageError::MissingTitle),
    };
    let cover = match cover {
        Some(Some(c)) => c,
        Some(None) => return Err(InfoPageError::MissingCoverUrl),
        None => return Err(InfoPageError::MissingCover),
    };
    let publisher = match publisher {
        Some(p) => p,
        None => return Err(InfoPageError::MissingPublisher),
    };
    let status = match status {
        Some(s) => s,
        None => return Err(InfoPageError::MissingStatus),
    };
    let author = match author {
        Some(a) => a,
        None => return Err(InfoPageError::MissingAuthor),
    };
    let description = match description {
        Some(d) => d,
        None => return Err(InfoPageError::MissingDescription),
    };
    Ok(NovelInfo {
        url,
        id,
        title,
        author,
        status,
        cover: Some(cover),
        tags,
        publisher: Some(publisher),
        description,
    })
}

/// Reads the information page `document` of novel `id`, fetched from `url`.
pub fn parse_info_page(document: &str, id: String, url: String) -> (r: Result<NovelInfo, InfoPageError>)
    ensures
        match info_page_error(document@) {
            Some(e) => r == Err::<NovelInfo, InfoPageError>(e),
            None => r is Ok && info_is(r->Ok_0, url@, id@, document@),
        },
{
    let title = first_selected_text(document, TITLE_SELECTOR);
    let cover = first_selected_attr(document, COVER_SELECTOR, "src");
    let tags = all_selected_texts(document, TAGS_SELECTOR);
    let publisher = first_selected_text(document, PUBLISHER_SELECTOR);
    let status = last_selected_text(document, STATUS_SELECTOR);
    let author = first_selected_text(document, AUTHOR_SELECTOR);
    let description = first_selected_text(document, DESCRIPTION_SELECTOR);
    assemble_info(url, id, title, cover, tags, publisher, status, author, description)
}

/// Reads a fetched information page, refusing Cloudflare's challenge page.
pub fn novel_info_from_page(document: &str, id: String, url: String) -> (r: Result<NovelInfo, InfoPageError>)
    ensures
        is_cloudflare_block(document@) ==> r == Err::<NovelInfo, InfoPageError>(
            InfoPageError::CloudflareBlock,
        ),
        !is_cloudflare_block(document@) ==> match info_page_error(document@) {
            Some(e) => r == Err::<NovelInfo, InfoPageError>(e),
            None => r is Ok && info_is(r->Ok_0, url@, id@, document@),
        },
{
    if detect_cloudflare_block(document) {
        return Err(InfoPageError::CloudflareBlock);
    }
    parse_info_page(document, id, url)
}

/// One entry of a catalog page.
pub enum CatalogItem {
    /// The bar that opens a volume, with the volume's title.
    ChapterBar { volume_title: String },
    VolumeCover { cover_url: String },
    /// A chapter; it has no address while the site hides it behind script.
    Chapter { chapter_name: String, chapter_url: Option<String> },
    Unknown,
}

/// A catalog entry's text content.
pub enum CatalogEntryView {
    ChapterBar(Seq<char>),
    VolumeCover(Seq<char>),
    Chapter(Seq<char>, Option<Seq<char>>),
    Unknown,
}

impl View for CatalogItem {
    type V = CatalogEntryView;

    open spec fn view(&self) -> CatalogEntryView {
        match self {
            CatalogItem::ChapterBar { volume_title } => CatalogEntryView::ChapterBar(volume_title@),
            CatalogItem::VolumeCover { cover_url } => CatalogEntryView::VolumeCover(cover_url@),
            CatalogItem::Chapter { chapter_name, chapter_url } => CatalogEntryView::Chapter(
                chapter_name@,
                opt_text(*chapter_url),
            ),
            CatalogItem::Unknown => CatalogEntryView::Unknown,
        }
    }
}

#[derive(Clone, Copy, Debug, PartialEq, Eq, Structural)]
pub enum CatalogError {
    /// A volume cover entry without an image address.
    MissingCoverUrl,
    /// A chapter entry without a link.
    MissingChapterLink,
}

/// A chapter's address: the site's own link, unless it only runs script.
pub open spec fn chapter_address(href: Option<Seq<char>>) -> Option<Seq<char>> {
    match href {
        Some(h) => if contains_seq(h, "javascript"@) {
            None
        } else {
            Some(SOURCE_URL@ + h)
        },
        None => None,
    }
}

pub fn chapter_url(href: Option<String>) -> (r: Option<String>)
    ensures
        opt_text(r) == chapter_address(opt_text(href)),
{
    match href {
        Some(h) => {
            if contains_text(h.as_str(), "javascript") {
                None
            } else {
                Some(String::from_str(SOURCE_URL).concat(h.as_str()))
            }
        },
        None => None,
    }
}

/// What a catalog entry holds, from what was read off it: the text of the
/// entry if it is a chapter bar, whether it is a volume cover and the
/// address of its image, whether it is a chapter and the text and target
/// of its link. The first class that is known decides.
pub open spec fn entry_from_parts(
    chapter_bar: Option<Seq<char>>,
    is_volume_cover: bool,
    cover_src: Option<Seq<char>>,
    is_chapter: bool,
    link_text: Option<Seq<char>>,
    link_href: Option<Seq<char>>,
) -> Result<CatalogEntryView, CatalogError> {
    if chapter_bar is Some {
        Ok(CatalogEntryView::ChapterBar(chapter_bar->0))
    } else if is_volume_cover {
        match cover_src {
            Some(u) => Ok(CatalogEntryView::VolumeCover(u)),
            None => Err(CatalogError::MissingCoverUrl),
        }
    } else if is_chapter {
        match link_text {
            Some(name) => Ok(CatalogEntryView::Chapter(name, chapter_address(link_href))),
            None => Err(CatalogError::MissingChapterLink),
        }
    } else {
        Ok(CatalogEntryView::Unknown)
    }
}

/// What the outer HTML `h` of a catalog entry holds.
pub open spec fn catalog_entry(h: Seq<char>) -> Result<CatalogEntryView, CatalogError> {
    entry_from_parts(
        first_text(h, CHAPTER_BAR_SELECTOR@),
        first_text(h, VOLUME_COVER_SELECTOR@) is Some,
        flatten(first_attr(h, VOLUME_COVER_IMAGE_SELECTOR@, "src"@)),
        first_text(h, CHAPTER_SELECTOR@) is Some,
        first_text(h, CHAPTER_LINK_SELECTOR@),
        flatten(first_attr(h, CHAPTER_LINK_SELECTOR@, "href"@)),
    )
}

/// Builds a catalog entry from what was read off it; see [`entry_from_parts`].
pub fn catalog_entry_from_parts(
    chapter_bar: Option<String>,
    is_volume_cover: bool,
    cover_src: Option<String>,
    is_chapter: bool,
    link_text: Option<String>,
    link_href: Option<String>,
) -> (r: Result<CatalogItem, CatalogError>)
    ensures
        match entry_from_parts(
            opt_text(chapter_bar),
            is_volume_cover,
            opt_text(cover_src),
            is_chapter,
            opt_text(link_text),
            opt_text(link_href),
        ) {
            Ok(v) => r is Ok && r->Ok_0@ == v,
            Err(e) => r == Err::<CatalogItem, CatalogError>(e),
        },
{
    if let Some(volume_title) = chapter_bar {
        return Ok(CatalogItem::ChapterBar { volume_title });
    }
    if is_volume_cover {
        return match cover_src {
            Some(cover_url) => Ok(CatalogItem::VolumeCover { cover_url }),
            None => Err(CatalogError::MissingCoverUrl),
        };
    }
    if is_chapter {
        return match link_text {
            Some(chapter_name) => Ok(CatalogItem::Chapter { chapter_name, chapter_url: chapter_url(link_href) }),
            None => Err(CatalogError::MissingChapterLink),
        };
    }
    Ok(CatalogItem::Unknown)
}

fn flatten_attr(a: Option<Option<String>>) -> (r: Option<String>)
    ensures
        opt_text(r) == flatten(opt_opt_text(a)),
{
    match a {
        Some(Some(v)) => Some(v),
        _ => None,
    }
}

/// Reads one catalog entry from its outer HTML.
pub fn parse_li_element(html: &str) -> (r: Result<CatalogItem, CatalogError>)
    ensures
        match catalog_entry(html@) {
            Ok(v) => r is Ok && r->Ok_0@ == v,
            Err(e) => r == Err::<CatalogItem, CatalogError>(e),
        },
{
    let chapter_bar = first_selected_text(html, CHAPTER_BAR_SELECTOR);
    let is_volume_cover = first_selected_text(html, VOLUME_COVER_SELECTOR).is_some();
    let cover_src = flatten_attr(first_selected_attr(html, VOLUME_COVER_IMAGE_SELECTOR, "src"));
    let is_chapter = first_selected_text(html, CHAPTER_SELECTOR).is_some();
    let link_text = first_selected_text(html, CHAPTER_LINK_SELECTOR);
    let link_href = flatten_attr(first_selected_attr(html, CHAPTER_LINK_SELECTOR, "href"));
    catalog_entry_from_parts(chapter_bar, is_volume_cover, cover_src, is_chapter, link_text, link_href)
}

/// The entries among `hs` that read without error, in order.
pub open spec fn readable_entries(hs: Seq<Seq<char>>) -> Seq<CatalogEntryView>
    decreases hs.len(),
{
    if hs.len() == 0 {
        Seq::empty()
    } else {
        match catalog_entry(hs.last()) {
            Ok(v) => readable_entries(hs.drop_last()).push(v),
            Err(_) => readable_entries(hs.drop_last()),
        }
    }
}

/// The readable entries of catalog page `document`; entries that do not
/// read are left out.
pub fn parse_volumes_li_elements(document: &str) -> (r: Vec<CatalogItem>)
    ensures
        r@.map_values(|i: CatalogItem| i@) == readable_entries(all_html(document@, CATALOG_ENTRY_SELECTOR@)),
{
    let entries = all_selected_html(document, CATALOG_ENTRY_SELECTOR);
    let ghost hs = all_html(document@, CATALOG_ENTRY_SELECTOR@);
    let mut items: Vec<CatalogItem> = Vec::new();
    let mut i: usize = 0;
    while i < entries.len()
        invariant
            texts(entries@) == hs,
            0 <= i <= entries@.len(),
            items@.map_values(|i: CatalogItem| i@) == readable_entries(hs.take(i as int)),
        decreases entries@.len() - i,
    {
        assert(hs.take(i as int + 1).drop_last() =~= hs.take(i as int));
        assert(hs[i as int] == entries@[i as int]@);
        match parse_li_element(entries[i].as_str()) {
            Ok(item) => {
                items.push(item);
                assert(items@.map_values(|i: CatalogItem| i@) =~= readable_entries(hs.take(i as int)).push(
                    item@,
                ));
            },
            Err(_) => {},
        }
        i = i + 1;
    }
    assert(hs.take(entries@.len() as int) =~= hs);
    items
}

/// A novel's volumes, as its catalog lists them.
pub struct NovelCatalog {
    pub profile: std::sync::Arc<NovelProfile>,
    pub volumes: Vec<NovelVolumeInfo>,
}

pub struct NovelVolumeInfo {
    pub index: usize,
    pub novel_profile: std::sync::Arc<NovelProfile>,
    pub volume_name: String,
    pub cover_image: Option<String>,
    pub chapter_titles: Vec<String>,
}

pub struct DownloadedChapter {
    pub title: String,
    pub content: String,
}

/// A volume whose chapters have been fetched.
pub struct DownloadedVolume {
    pub volume_name: String,
    pub chapters: Vec<DownloadedChapter>,
    pub cover_image: Option<Vec<u8>>,
    pub profile: std::sync::Arc<NovelProfile>,
}

impl DownloadedVolume {
    pub fn from_chapters(
        volume_name: String,
        chapters: Vec<DownloadedChapter>,
        cover_image: Option<Vec<u8>>,
        profile: std::sync::Arc<NovelProfile>,
    ) -> (r: Self)
        ensures
            r.volume_name == volume_name,
            r.chapters == chapters,
            r.cover_image == cover_image,
            r.profile == profile,
    {
        DownloadedVolume { volume_name, chapters, cover_image, profile }
    }
}

} // verus!
