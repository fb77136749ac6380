//! The records that the image service returns.
//!
//! Fields mirror the service's JSON; decoding the JSON is left to the caller.

use vstd::prelude::*;

verus! {

/// One page of search results with its pagination metadata.
#[derive(Debug, Clone)]
pub struct WHSearchResponse {
    pub data: Vec<WHImageData>,
    pub meta: WHSearchMetaData,
}

/// Pagination metadata of a search.
#[derive(Debug, Clone)]
pub struct WHSearchMetaData {
    pub current_page: i32,
    pub last_page: i32,
    pub per_page: i8,
    pub total: u64,
    pub query: String,
    pub seed: Option<String>,
}

/// The envelope of a lookup of one image by its identifier.
#[derive(Debug, Clone)]
pub struct WHDirectModel {
    pub data: WHImageData,
}

/// A tag attached to an image.
#[derive(Debug, Clone)]
pub struct WHTag {
    pub id: i32,
    pub name: String,
    pub alias: String,
    pub category_id: i32,
    pub category: String,
    pub purity: String,
    pub created_at: String,
}

/// Avatar images of an uploader, by pixel size.
#[derive(Debug, Clone)]
pub struct WHAvatar {
    pub px200: String,
    pub px128: String,
    pub px32: String,
    pub px20: String,
}

/// The user who uploaded an image.
#[derive(Debug, Clone)]
pub struct WHUploader {
    pub username: String,
    pub group: String,
    pub avatar: WHAvatar,
}

/// Metadata of one remote image. `id` is its stable identity; `path` is the
/// full-resolution URL and `thumbs.small` the thumbnail URL.
#[derive(Debug, Clone)]
pub struct WHImageData {
    pub id: String,
    pub url: String,
    pub short_url: String,
    pub uploader: Option<WHUploader>,
    pub views: i32,
    pub favorites: i32,
    pub source: String,
    pub purity: String,
    pub category: String,
    pub dimension_x: i32,
    pub dimension_y: i32,
    pub resolution: String,
    pub ratio: String,
    pub file_size: i32,
    pub file_type: String,
    pub created_at: String,
    pub colors: Vec<String>,
    pub path: String,
    pub thumbs: WHImageThumbnailImageData,
    pub tags: Option<Vec<WHTag>>,
}

/// Thumbnail URLs of an image, by size.
#[derive(Debug, Clone)]
pub struct WHImageThumbnailImageData {
    pub large: String,
    pub original: String,
    pub small: String,
}

} // verus!
