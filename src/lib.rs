//! Image-header sniffing for downloaded cover art, and the plain logic of a
//! light-novel crawler: recognising novel addresses, reading novel pages,
//! undoing the site's glyph substitution and dressing outgoing requests.

pub mod bili;
pub mod codebook;
pub mod cursor;
pub mod html_select;
pub mod image;
pub mod novel_url;
pub mod request_sender;
pub mod sniff_laws;
pub mod text;

pub use bili::{
    BiliNovel, BiliNovelSource, CatalogError, CatalogItem, InfoPageError, NovelInfo, NovelProfile,
    NovelSourceError,
};
pub use codebook::SecretMap;
pub use cursor::{ByteCursor, SniffError};
pub use image::{get_image_meta, sniff, ImageFormat, ImageMeta};
pub use novel_url::{get_novel_id, parse_decimal_i32, try_get_novel_id};
pub use request_sender::{after_failed_attempt, next_proxy_index, RequestSender, RetryStep, UserAgentList};
