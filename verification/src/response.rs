//! Response models handed to request handlers, and the listing record
//! they are built from.

use vstd::prelude::*;

verus! {

/// The success payloads a handler can wrap.
pub enum OkResponses {
    TokenResponse(TokenResponse),
}

/// A successful response envelope.
pub struct OkResponse<T> {
    pub data: T,
}

/// A failure response envelope.
pub struct ErrorResponse<T> {
    pub errors: Vec<T>,
}

/// A session token freshly issued for a user.
pub struct TokenResponse {
    pub token: String,
    pub username: String,
}

/// The identifier of a torrent that was just registered.
pub struct NewTorrentResponse {
    pub torrent_id: i64,
}

/// One category row: its name and how many visible torrents carry it.
pub struct CategoryResponse {
    pub name: String,
    pub num_torrents: Option<i64>,
}

/// One file inside a torrent's metadata.
pub struct File {
    pub path: Vec<String>,
    pub length: i64,
    pub md5sum: Option<String>,
}

/// A stored torrent as the listing queries return it.
pub struct TorrentListing {
    pub torrent_id: i64,
    pub uploader: String,
    pub info_hash: String,
    pub title: String,
    pub description: Option<String>,
    pub category_id: i64,
    pub upload_date: i64,
    pub file_size: i64,
    pub seeders: i64,
    pub leechers: i64,
}

/// A torrent as presented to clients: the listing record plus the file
/// list, which is filled in separately when requested.
pub struct TorrentResponse {
    pub torrent_id: i64,
    pub uploader: String,
    pub info_hash: String,
    pub title: String,
    pub description: Option<String>,
    pub category_id: i64,
    pub upload_date: i64,
    pub file_size: i64,
    pub seeders: i64,
    pub leechers: i64,
    pub files: Option<Vec<File>>,
}

impl TorrentResponse {
    /// Presents a listing record unchanged, with no file list yet.
    pub fn from_listing(torrent_listing: TorrentListing) -> (r: TorrentResponse)
        ensures
            r.torrent_id == torrent_listing.torrent_id,
            r.uploader == torrent_listing.uploader,
            r.info_hash == torrent_listing.info_hash,
            r.title == torrent_listing.title,
            r.description == torrent_listing.description,
            r.category_id == torrent_listing.category_id,
            r.upload_date == torrent_listing.upload_date,
            r.file_size == torrent_listing.file_size,
            r.seeders == torrent_listing.seeders,
            r.leechers == torrent_listing.leechers,
            r.files is None,
    {
        TorrentResponse {
            torrent_id: torrent_listing.torrent_id,
            uploader: torrent_listing.uploader,
            info_hash: torrent_listing.info_hash,
            title: torrent_listing.title,
            description: torrent_listing.description,
            category_id: torrent_listing.category_id,
            upload_date: torrent_listing.upload_date,
            file_size: torrent_listing.file_size,
            seeders: torrent_listing.seeders,
            leechers: torrent_listing.leechers,
            files: None,
        }
    }
}

/// One page of listing results together with the total row count.
pub struct TorrentsResponse {
    pub total: i32,
    pub results: Vec<TorrentListing>,
}

} // verus!
