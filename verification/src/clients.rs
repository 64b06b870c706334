//! The clients of the external services as the state the player keeps for
//! each (its settings and, where the service needs them, its credentials),
//! the request URLs they build, and the integration manager that holds
//! them. Sending a request and reading the reply is left to the caller.

use vstd::prelude::*;
use vstd::string::StringExecFns;

use crate::clock::utc_now_millis;
use crate::cloud_storage::{is_drive_folder, DropboxConfig, GoogleDriveConfig, GoogleDriveFile};
use crate::integrations::{
    law_connected_agrees_with_status, needs_credentials, status_of, ConnectionStatus, IntegrationProvider,
};
use crate::ipc::IPCGuard;
use crate::performance::texts_of;
use crate::podcast::{podcast_categories, podcast_category_tree, category_view, subcategories_are_leaves, PodcastCategory, PodcastConfig};
use crate::spotify::SpotifyConfig;
use crate::scan::{parse_u64, parse_u64_spec};
use crate::text::{copy_opt_string, decimal, owned, str_chars};
use crate::urls::{i32_text, join_strings, joined_with, signed_decimal, u32_text, url_encode, url_encoded};
use crate::versioning::opt_view;
use crate::youtube::YouTubeConfig;

verus! {

/// Why a request cannot be made.
#[derive(Debug, Clone, Copy, PartialEq, Eq, Structural)]
pub enum ClientError {
    NotAuthenticated,
}

impl ClientError {
    /// The error's message.
    pub fn message(&self) -> (s: String)
        ensures
            s@ == "Not authenticated"@,
    {
        "Not authenticated".to_string()
    }
}

/// Appends `label` and then the URL encoding of `value`.
pub(crate) fn push_encoded(url: &mut String, label: &str, value: &str)
    ensures
        final(url)@ == old(url)@ + label@ + url_encoded(value@),
{
    url.append(label);
    let e = url_encode(value);
    url.append(e.as_str());
}

/// Appends `label` and then `value` as they are.
pub(crate) fn push_plain(url: &mut String, label: &str, value: &str)
    ensures
        final(url)@ == old(url)@ + label@ + value@,
{
    url.append(label);
    url.append(value);
}

/// The authorization URL of Google's OAuth2 service, asking for offline
/// access and consent.
pub open spec fn google_auth_url(client_id: Seq<char>, redirect_uri: Seq<char>, scopes: Seq<Seq<char>>, state: Seq<char>) -> Seq<char> {
    "https://accounts.google.com/o/oauth2/v2/auth?client_id="@ + url_encoded(client_id) + "&redirect_uri="@
        + url_encoded(redirect_uri) + "&response_type=code&scope="@ + url_encoded(joined_with(scopes, " "@))
        + "&state="@ + url_encoded(state) + "&access_type=offline&prompt=consent"@
}

/// Builds the authorization URL of Google's OAuth2 service.
fn build_google_auth_url(client_id: &String, redirect_uri: &String, scopes: &Vec<String>, state: &str) -> (u: String)
    ensures
        u@ == google_auth_url(client_id@, redirect_uri@, texts_of(scopes@), state@),
{
    let joined = join_strings(scopes, " ");
    let mut u = owned("");
    proof {
        reveal_strlit("");
    }
    push_encoded(&mut u, "https://accounts.google.com/o/oauth2/v2/auth?client_id=", client_id.as_str());
    push_encoded(&mut u, "&redirect_uri=", redirect_uri.as_str());
    push_encoded(&mut u, "&response_type=code&scope=", joined.as_str());
    push_encoded(&mut u, "&state=", state);
    u.append("&access_type=offline&prompt=consent");
    assert(u@ =~= google_auth_url(client_id@, redirect_uri@, texts_of(scopes@), state@));
    u
}

// ---------------------------------------------------------------- Spotify

/// Spotify OAuth2 credentials.
#[derive(Debug, Clone)]
pub struct SpotifyCredentials {
    pub access_token: String,
    pub refresh_token: Option<String>,
    /// When the access token expires, in milliseconds since the Unix epoch
    pub expires_at: i64,
    pub token_type: String,
    pub scope: Option<String>,
}

impl SpotifyCredentials {
    /// Whether the access token has expired at the time `now`.
    pub fn is_expired_at(&self, now: i64) -> (r: bool)
        ensures
            r == (self.expires_at <= now),
    {
        self.expires_at <= now
    }

    /// Whether the access token has expired by the system clock.
    pub fn is_expired(&self) -> bool {
        self.is_expired_at(utc_now_millis())
    }
}

/// The authorization URL of Spotify's accounts service.
pub open spec fn spotify_auth_url(c: SpotifyConfig, state: Seq<char>) -> Seq<char> {
    c.accounts_url@ + "/authorize?client_id="@ + url_encoded(c.oauth.client_id@) + "&response_type=code&redirect_uri="@
        + url_encoded(c.oauth.redirect_uri@) + "&scope="@ + url_encoded(joined_with(texts_of(c.oauth.scopes@), " "@))
        + "&state="@ + url_encoded(state)
}

/// The URL of a track search.
pub open spec fn spotify_search_url(c: SpotifyConfig, query: Seq<char>, limit: u32, offset: u32) -> Seq<char> {
    c.api_base_url@ + "/search?q="@ + url_encoded(query) + "&type=track&limit="@ + decimal(limit as nat) + "&offset="@
        + decimal(offset as nat)
}

/// The player's Spotify client: its settings and credentials.
pub struct SpotifyClient {
    config: SpotifyConfig,
    credentials: Option<SpotifyCredentials>,
}

impl SpotifyClient {
    /// The client's settings.
    pub closed spec fn settings(&self) -> SpotifyConfig {
        self.config
    }

    /// The credentials the client holds.
    pub closed spec fn held_credentials(&self) -> Option<SpotifyCredentials> {
        self.credentials
    }

    /// A client with the given settings and no credentials.
    pub fn new(config: SpotifyConfig) -> (c: SpotifyClient)
        ensures
            c.settings() == config,
            c.held_credentials() is None,
    {
        SpotifyClient { config, credentials: None }
    }

    /// The URL that asks the user to authorize the player.
    pub fn get_auth_url(&self, state: &str) -> (u: String)
        ensures
            u@ == spotify_auth_url(self.settings(), state@),
    {
        let scopes = join_strings(&self.config.oauth.scopes, " ");
        let mut u = self.config.accounts_url.clone();
        push_encoded(&mut u, "/authorize?client_id=", self.config.oauth.client_id.as_str());
        push_encoded(&mut u, "&response_type=code&redirect_uri=", self.config.oauth.redirect_uri.as_str());
        push_encoded(&mut u, "&scope=", scopes.as_str());
        push_encoded(&mut u, "&state=", state);
        u
    }

    /// The URL of a track search; an error without credentials.
    pub fn search_tracks_url(&self, query: &str, limit: u32, offset: u32) -> (r: Result<String, ClientError>)
        ensures
            match r {
                Ok(u) => self.held_credentials() is Some && u@ == spotify_search_url(self.settings(), query@, limit, offset),
                Err(e) => self.held_credentials() is None && e == ClientError::NotAuthenticated,
            },
    {
        if self.credentials.is_none() {
            return Err(ClientError::NotAuthenticated);
        }
        let mut u = self.config.api_base_url.clone();
        push_encoded(&mut u, "/search?q=", query);
        push_plain(&mut u, "&type=track&limit=", u32_text(limit).as_str());
        push_plain(&mut u, "&offset=", u32_text(offset).as_str());
        Ok(u)
    }

    /// The credentials the client holds.
    pub fn get_credentials(&self) -> (c: Option<&SpotifyCredentials>)
        ensures
            match c {
                Some(x) => self.held_credentials() == Some(*x),
                None => self.held_credentials() is None,
            },
    {
        self.credentials.as_ref()
    }

    /// Replaces the credentials.
    pub fn set_credentials(&mut self, credentials: SpotifyCredentials)
        ensures
            final(self).held_credentials() == Some(credentials),
            final(self).settings() == old(self).settings(),
    {
        self.credentials = Some(credentials);
    }
}

// ---------------------------------------------------------------- YouTube

/// YouTube OAuth2 credentials.
#[derive(Debug, Clone)]
pub struct YouTubeCredentials {
    pub access_token: String,
    pub refresh_token: Option<String>,
    /// When the access token expires, in milliseconds since the Unix epoch
    pub expires_at: i64,
    pub token_type: String,
    pub scope: Option<String>,
}

impl YouTubeCredentials {
    /// Whether the access token has expired at the time `now`.
    pub fn is_expired_at(&self, now: i64) -> (r: bool)
        ensures
            r == (self.expires_at <= now),
    {
        self.expires_at <= now
    }

    /// Whether the access token has expired by the system clock.
    pub fn is_expired(&self) -> bool {
        self.is_expired_at(utc_now_millis())
    }
}

/// The URL of a video search.
pub open spec fn youtube_search_url(c: YouTubeConfig, query: Seq<char>, max_results: u32) -> Seq<char> {
    c.api_base_url@ + "/search?part=snippet&q="@ + url_encoded(query) + "&type=video&maxResults="@ + decimal(
        max_results as nat,
    )
}

/// The URL of the user's playlists.
pub open spec fn youtube_playlists_url(c: YouTubeConfig, max_results: u32) -> Seq<char> {
    c.api_base_url@ + "/playlists?part=snippet,contentDetails,status&mine=true&maxResults="@ + decimal(
        max_results as nat,
    )
}

/// The URL of the items of a playlist.
pub open spec fn youtube_playlist_items_url(c: YouTubeConfig, playlist_id: Seq<char>, max_results: u32) -> Seq<char> {
    c.api_base_url@ + "/playlistItems?part=snippet,contentDetails&playlistId="@ + playlist_id + "&maxResults="@
        + decimal(max_results as nat)
}

/// The URL of the user's subscriptions.
pub open spec fn youtube_subscriptions_url(c: YouTubeConfig, max_results: u32) -> Seq<char> {
    c.api_base_url@ + "/subscriptions?part=snippet&mine=true&maxResults="@ + decimal(max_results as nat)
}

/// The player's YouTube client: its settings and credentials.
pub struct YouTubeClient {
    config: YouTubeConfig,
    credentials: Option<YouTubeCredentials>,
}

impl YouTubeClient {
    /// The client's settings.
    pub closed spec fn settings(&self) -> YouTubeConfig {
        self.config
    }

    /// The credentials the client holds.
    pub closed spec fn held_credentials(&self) -> Option<YouTubeCredentials> {
        self.credentials
    }

    /// A client with the given settings and no credentials.
    pub fn new(config: YouTubeConfig) -> (c: YouTubeClient)
        ensures
            c.settings() == config,
            c.held_credentials() is None,
    {
        YouTubeClient { config, credentials: None }
    }

    /// The URL that asks the user to authorize the player.
    pub fn get_auth_url(&self, state: &str) -> (u: String)
        ensures
            u@ == google_auth_url(
                self.settings().oauth.client_id@,
                self.settings().oauth.redirect_uri@,
                texts_of(self.settings().oauth.scopes@),
                state@,
            ),
    {
        build_google_auth_url(&self.config.oauth.client_id, &self.config.oauth.redirect_uri, &self.config.oauth.scopes, state)
    }

    /// The URL of a video search; an error without credentials.
    pub fn search_videos_url(&self, query: &str, max_results: u32) -> (r: Result<String, ClientError>)
        ensures
            match r {
                Ok(u) => self.held_credentials() is Some && u@ == youtube_search_url(self.settings(), query@, max_results),
                Err(e) => self.held_credentials() is None && e == ClientError::NotAuthenticated,
            },
    {
        if self.credentials.is_none() {
            return Err(ClientError::NotAuthenticated);
        }
        let mut u = self.config.api_base_url.clone();
        push_encoded(&mut u, "/search?part=snippet&q=", query);
        push_plain(&mut u, "&type=video&maxResults=", u32_text(max_results).as_str());
        Ok(u)
    }

    /// The URL of the user's playlists; an error without credentials.
    pub fn playlists_url(&self, max_results: u32) -> (r: Result<String, ClientError>)
        ensures
            match r {
                Ok(u) => self.held_credentials() is Some && u@ == youtube_playlists_url(self.settings(), max_results),
                Err(e) => self.held_credentials() is None && e == ClientError::NotAuthenticated,
            },
    {
        if self.credentials.is_none() {
            return Err(ClientError::NotAuthenticated);
        }
        let mut u = self.config.api_base_url.clone();
        push_plain(&mut u, "/playlists?part=snippet,contentDetails,status&mine=true&maxResults=", u32_text(max_results).as_str());
        Ok(u)
    }

    /// The URL of the items of a playlist; an error without credentials.
    pub fn playlist_items_url(&self, playlist_id: &str, max_results: u32) -> (r: Result<String, ClientError>)
        ensures
            match r {
                Ok(u) => self.held_credentials() is Some && u@ == youtube_playlist_items_url(
                    self.settings(),
                    playlist_id@,
                    max_results,
                ),
                Err(e) => self.held_credentials() is None && e == ClientError::NotAuthenticated,
            },
    {
        if self.credentials.is_none() {
            return Err(ClientError::NotAuthenticated);
        }
        let mut u = self.config.api_base_url.clone();
        push_plain(&mut u, "/playlistItems?part=snippet,contentDetails&playlistId=", playlist_id);
        push_plain(&mut u, "&maxResults=", u32_text(max_results).as_str());
        Ok(u)
    }

    /// The URL of the user's subscriptions; an error without credentials.
    pub fn subscriptions_url(&self, max_results: u32) -> (r: Result<String, ClientError>)
        ensures
            match r {
                Ok(u) => self.held_credentials() is Some && u@ == youtube_subscriptions_url(self.settings(), max_results),
                Err(e) => self.held_credentials() is None && e == ClientError::NotAuthenticated,
            },
    {
        if self.credentials.is_none() {
            return Err(ClientError::NotAuthenticated);
        }
        let mut u = self.config.api_base_url.clone();
        push_plain(&mut u, "/subscriptions?part=snippet&mine=true&maxResults=", u32_text(max_results).as_str());
        Ok(u)
    }

    /// The credentials the client holds.
    pub fn get_credentials(&self) -> (c: Option<&YouTubeCredentials>)
        ensures
            match c {
                Some(x) => self.held_credentials() == Some(*x),
                None => self.held_credentials() is None,
            },
    {
        self.credentials.as_ref()
    }

    /// Replaces the credentials.
    pub fn set_credentials(&mut self, credentials: YouTubeCredentials)
        ensures
            final(self).held_credentials() == Some(credentials),
            final(self).settings() == old(self).settings(),
    {
        self.credentials = Some(credentials);
    }
}

// ---------------------------------------------------------------- Google Drive

/// Google Drive OAuth2 credentials.
#[derive(Debug, Clone)]
pub struct GoogleDriveCredentials {
    pub access_token: String,
    pub refresh_token: Option<String>,
    /// When the access token expires, in milliseconds since the Unix epoch
    pub expires_at: i64,
}

impl GoogleDriveCredentials {
    /// Whether the access token has expired at the time `now`.
    pub fn is_expired_at(&self, now: i64) -> (r: bool)
        ensures
            r == (self.expires_at <= now),
    {
        self.expires_at <= now
    }

    /// Whether the access token has expired by the system clock.
    pub fn is_expired(&self) -> bool {
        self.is_expired_at(utc_now_millis())
    }
}

/// The fields of a file listing that the Drive API returns.
pub open spec fn drive_fields_param() -> Seq<char> {
    "&fields=files(id,name,mimeType,size,createdTime,modifiedTime,parents,thumbnailLink,webViewLink)"@
}

/// The URL of a file listing with the query `query`.
pub open spec fn drive_files_url(c: GoogleDriveConfig, page_size: i32, query: Seq<char>) -> Seq<char> {
    c.api_base_url@ + "/files?pageSize="@ + signed_decimal(page_size as int) + "&q="@ + url_encoded(query)
        + drive_fields_param()
}

/// The query for the files of a folder that are not in the trash.
pub open spec fn drive_folder_query(folder: Seq<char>) -> Seq<char> {
    "'"@ + folder + "' in parents and trashed = false"@
}

/// The condition on one MIME type.
pub open spec fn mime_clause(m: Seq<char>) -> Seq<char> {
    "mimeType contains '"@ + m + "'"@
}

/// The query of a file search: by name, not in the trash and, where MIME
/// types are given, of one of them.
pub open spec fn drive_search_query(query: Seq<char>, mimes: Option<Seq<Seq<char>>>) -> Seq<char> {
    let base = seq!["name contains '"@ + query + "'"@, "trashed = false"@];
    let parts = match mimes {
        None => base,
        Some(ms) => base.push("("@ + joined_with(ms.map_values(|m: Seq<char>| mime_clause(m)), " or "@) + ")"@),
    };
    joined_with(parts, " and "@)
}

/// Texts of string slices.
pub open spec fn str_texts(v: Seq<&str>) -> Seq<Seq<char>> {
    v.map_values(|m: &str| m@)
}

/// The fields of a file entry of a Drive listing, as far as they are
/// present and are strings (`first_parent` is the first of `parents`).
#[derive(Debug, Clone)]
pub struct DriveFileFields {
    pub id: Option<String>,
    pub name: Option<String>,
    pub mime_type: Option<String>,
    pub size: Option<String>,
    pub created_time: Option<String>,
    pub modified_time: Option<String>,
    pub first_parent: Option<String>,
    pub thumbnail_link: Option<String>,
    pub web_view_link: Option<String>,
}

/// The MIME type of an entry, empty where it has none.
pub open spec fn entry_mime(f: DriveFileFields) -> Seq<char> {
    match f.mime_type {
        Some(m) => m@,
        None => ""@,
    }
}

/// An entry is read as a file when it has an identifier and a name.
pub open spec fn entry_kept(f: DriveFileFields) -> bool {
    f.id is Some && f.name is Some
}

/// `file` is what the entry `f` reads as.
pub open spec fn drive_file_from(f: DriveFileFields, file: GoogleDriveFile) -> bool {
    &&& f.id matches Some(id) && file.id@ == id@
    &&& f.name matches Some(name) && file.name@ == name@
    &&& opt_view(file.mime_type) == Some(entry_mime(f))
    &&& file.size == match opt_view(f.size) {
        Some(t) => parse_u64_spec(t),
        None => None,
    }
    &&& opt_view(file.created_time) == opt_view(f.created_time)
    &&& opt_view(file.modified_time) == opt_view(f.modified_time)
    &&& file.is_folder == (entry_mime(f) == "application/vnd.google-apps.folder"@)
    &&& opt_view(file.parent_id) == opt_view(f.first_parent)
    &&& opt_view(file.thumbnail_url) == opt_view(f.thumbnail_link)
    &&& opt_view(file.web_view_link) == opt_view(f.web_view_link)
    &&& file.download_url is None
}

/// The entries of a listing that are read as files, in order.
pub open spec fn kept_entries(items: Seq<DriveFileFields>) -> Seq<DriveFileFields>
    decreases items.len(),
{
    if items.len() == 0 {
        Seq::empty()
    } else if entry_kept(items.last()) {
        kept_entries(items.drop_last()).push(items.last())
    } else {
        kept_entries(items.drop_last())
    }
}

/// The file an entry reads as, where it has an identifier and a name.
pub fn drive_file_from_fields(f: &DriveFileFields) -> (r: Option<GoogleDriveFile>)
    ensures
        match r {
            Some(file) => drive_file_from(*f, file),
            None => !entry_kept(*f),
        },
{
    proof {
        reveal_strlit("");
    }
    let mime = match &f.mime_type {
        Some(m) => m.clone(),
        None => String::new(),
    };
    assert(mime@ =~= entry_mime(*f));
    let id = match &f.id {
        Some(x) => x.clone(),
        None => {
            return None;
        },
    };
    let name = match &f.name {
        Some(x) => x.clone(),
        None => {
            return None;
        },
    };
    let size = match &f.size {
        Some(t) => parse_u64(&str_chars(t.as_str())),
        None => None,
    };
    let is_folder = is_drive_folder(&mime);
    Some(
        GoogleDriveFile {
            id,
            name,
            mime_type: Some(mime),
            size,
            created_time: copy_opt_string(&f.created_time),
            modified_time: copy_opt_string(&f.modified_time),
            is_folder,
            parent_id: copy_opt_string(&f.first_parent),
            thumbnail_url: copy_opt_string(&f.thumbnail_link),
            web_view_link: copy_opt_string(&f.web_view_link),
            download_url: None,
        },
    )
}

/// The files of a listing: each entry with an identifier and a name, in
/// order.
pub fn drive_files_from_items(items: &Vec<DriveFileFields>) -> (r: Vec<GoogleDriveFile>)
    ensures
        r@.len() == kept_entries(items@).len(),
        forall|i: int| 0 <= i < r@.len() ==> drive_file_from(#[trigger] kept_entries(items@)[i], r@[i]),
{
    let mut files: Vec<GoogleDriveFile> = Vec::new();
    let mut i: usize = 0;
    assert(items@.take(0) =~= Seq::<DriveFileFields>::empty());
    while i < items.len()
        invariant
            i <= items.len(),
            files@.len() == kept_entries(items@.take(i as int)).len(),
            forall|j: int|
                0 <= j < files@.len() ==> drive_file_from(#[trigger] kept_entries(items@.take(i as int))[j], files@[j]),
        decreases items.len() - i,
    {
        assert(items@.take(i + 1).drop_last() =~= items@.take(i as int));
        assert(items@.take(i + 1).last() == items@[i as int]);
        match drive_file_from_fields(&items[i]) {
            Some(file) => {
                files.push(file);
            },
            None => {},
        }
        i = i + 1;
    }
    assert(items@.take(items@.len() as int) =~= items@);
    files
}

/// The player's Google Drive client: its settings and credentials.
pub struct GoogleDriveClient {
    config: GoogleDriveConfig,
    credentials: Option<GoogleDriveCredentials>,
}

impl GoogleDriveClient {
    /// The client's settings.
    pub closed spec fn settings(&self) -> GoogleDriveConfig {
        self.config
    }

    /// The credentials the client holds.
    pub closed spec fn held_credentials(&self) -> Option<GoogleDriveCredentials> {
        self.credentials
    }

    /// A client with the given settings and no credentials.
    pub fn new(config: GoogleDriveConfig) -> (c: GoogleDriveClient)
        ensures
            c.settings() == config,
            c.held_credentials() is None,
    {
        GoogleDriveClient { config, credentials: None }
    }

    /// The URL that asks the user to authorize the player.
    pub fn get_auth_url(&self, state: &str) -> (u: String)
        ensures
            u@ == google_auth_url(
                self.settings().oauth.client_id@,
                self.settings().oauth.redirect_uri@,
                texts_of(self.settings().oauth.scopes@),
                state@,
            ),
    {
        build_google_auth_url(&self.config.oauth.client_id, &self.config.oauth.redirect_uri, &self.config.oauth.scopes, state)
    }

    /// Builds the URL of a file listing with the query `query`.
    fn files_url(&self, page_size: i32, query: &str) -> (u: String)
        ensures
            u@ == drive_files_url(self.settings(), page_size, query@),
    {
        let mut u = self.config.api_base_url.clone();
        push_plain(&mut u, "/files?pageSize=", i32_text(page_size).as_str());
        push_encoded(&mut u, "&q=", query);
        u.append("&fields=files(id,name,mimeType,size,createdTime,modifiedTime,parents,thumbnailLink,webViewLink)");
        u
    }

    /// The URL that lists a folder (the root where none is given), with the
    /// configured page size where none is given; an error without
    /// credentials.
    pub fn list_files_url(&self, folder_id: Option<&str>, page_size: Option<i32>) -> (r: Result<String, ClientError>)
        ensures
            match r {
                Ok(u) => self.held_credentials() is Some && u@ == drive_files_url(
                    self.settings(),
                    match page_size {
                        Some(p) => p,
                        None => self.settings().page_size,
                    },
                    drive_folder_query(
                        match folder_id {
                            Some(f) => f@,
                            None => "root"@,
                        },
                    ),
                ),
                Err(e) => self.held_credentials() is None && e == ClientError::NotAuthenticated,
            },
    {
        if self.credentials.is_none() {
            return Err(ClientError::NotAuthenticated);
        }
        let folder: &str = match folder_id {
            Some(f) => f,
            None => "root",
        };
        let page = match page_size {
            Some(p) => p,
            None => self.config.page_size,
        };
        let mut q = owned("'");
        q.append(folder);
        q.append("' in parents and trashed = false");
        Ok(self.files_url(page, q.as_str()))
    }

    /// The URL of a file search by name, optionally restricted to some MIME
    /// types; an error without credentials.
    pub fn search_files_url(&self, query: &str, mime_types: Option<&[&str]>, page_size: Option<i32>) -> (r: Result<String, ClientError>)
        ensures
            match r {
                Ok(u) => self.held_credentials() is Some && u@ == drive_files_url(
                    self.settings(),
                    match page_size {
                        Some(p) => p,
                        None => self.settings().page_size,
                    },
                    drive_search_query(
                        query@,
                        match mime_types {
                            Some(ms) => Some(str_texts(ms@)),
                            None => None,
                        },
                    ),
                ),
                Err(e) => self.held_credentials() is None && e == ClientError::NotAuthenticated,
            },
    {
        if self.credentials.is_none() {
            return Err(ClientError::NotAuthenticated);
        }
        let mut parts: Vec<String> = Vec::new();
        let mut name_part = owned("name contains '");
        name_part.append(query);
        name_part.append("'");
        parts.push(name_part);
        parts.push(owned("trashed = false"));
        let ghost base = seq!["name contains '"@ + query@ + "'"@, "trashed = false"@];
        assert(texts_of(parts@) =~= base);
        match mime_types {
            Some(ms) => {
                let mut clauses: Vec<String> = Vec::new();
                let mut i: usize = 0;
                while i < ms.len()
                    invariant
                        i <= ms@.len(),
                        texts_of(clauses@) =~= str_texts(ms@).take(i as int).map_values(
                            |m: Seq<char>| mime_clause(m),
                        ),
                    decreases ms.len() - i,
                {
                    let mut c = owned("mimeType contains '");
                    c.append(ms[i]);
                    c.append("'");
                    let ghost before = clauses@;
                    clauses.push(c);
                    proof {
                        assert(clauses@ =~= before.push(c));
                        assert(texts_of(clauses@) =~= texts_of(before).push(c@));
                        assert(str_texts(ms@).take(i + 1) =~= str_texts(ms@).take(i as int).push(ms@[i as int]@));
                        assert(c@ == mime_clause(ms@[i as int]@));
                    }
                    i = i + 1;
                }
                assert(str_texts(ms@).take(ms@.len() as int) =~= str_texts(ms@));
                let joined = join_strings(&clauses, " or ");
                let mut group = owned("(");
                group.append(joined.as_str());
                group.append(")");
                parts.push(group);
                assert(texts_of(parts@) =~= base.push(
                    "("@ + joined_with(str_texts(ms@).map_values(|m: Seq<char>| mime_clause(m)), " or "@) + ")"@,
                ));
            },
            None => {},
        }
        let full = join_strings(&parts, " and ");
        let page = match page_size {
            Some(p) => p,
            None => self.config.page_size,
        };
        Ok(self.files_url(page, full.as_str()))
    }

    /// The URL a file is downloaded from, with the access token; `None`
    /// without credentials.
    pub fn get_download_url(&self, file_id: &str) -> (r: Option<String>)
        ensures
            match r {
                Some(u) => self.held_credentials() matches Some(c) && u@ == self.settings().api_base_url@
                    + "/files/"@ + file_id@ + "?alt=media&access_token="@ + url_encoded(c.access_token@),
                None => self.held_credentials() is None,
            },
    {
        match &self.credentials {
            None => None,
            Some(c) => {
                let mut u = self.config.api_base_url.clone();
                push_plain(&mut u, "/files/", file_id);
                push_encoded(&mut u, "?alt=media&access_token=", c.access_token.as_str());
                Some(u)
            },
        }
    }

    /// The credentials the client holds.
    pub fn get_credentials(&self) -> (c: Option<&GoogleDriveCredentials>)
        ensures
            match c {
                Some(x) => self.held_credentials() == Some(*x),
                None => self.held_credentials() is None,
            },
    {
        self.credentials.as_ref()
    }

    /// Replaces the credentials.
    pub fn set_credentials(&mut self, credentials: GoogleDriveCredentials)
        ensures
            final(self).held_credentials() == Some(credentials),
            final(self).settings() == old(self).settings(),
    {
        self.credentials = Some(credentials);
    }
}

// ---------------------------------------------------------------- Dropbox

/// Dropbox OAuth2 credentials.
#[derive(Debug, Clone)]
pub struct DropboxCredentials {
    pub access_token: String,
    pub refresh_token: Option<String>,
    /// When the access token expires, in milliseconds since the Unix epoch
    pub expires_at: i64,
}

/// The authorization URL of Dropbox.
pub open spec fn dropbox_auth_url(c: DropboxConfig, state: Seq<char>) -> Seq<char> {
    "https://www.dropbox.com/oauth2/authorize?client_id="@ + url_encoded(c.oauth.client_id@) + "&redirect_uri="@
        + url_encoded(c.oauth.redirect_uri@) + "&response_type=code&state="@ + url_encoded(state)
}

/// The player's Dropbox client: its settings and credentials.
pub struct DropboxClient {
    config: DropboxConfig,
    credentials: Option<DropboxCredentials>,
}

impl DropboxClient {
    /// The client's settings.
    pub closed spec fn settings(&self) -> DropboxConfig {
        self.config
    }

    /// The credentials the client holds.
    pub closed spec fn held_credentials(&self) -> Option<DropboxCredentials> {
        self.credentials
    }

    /// A client with the given settings and no credentials.
    pub fn new(config: DropboxConfig) -> (c: DropboxClient)
        ensures
            c.settings() == config,
            c.held_credentials() is None,
    {
        DropboxClient { config, credentials: None }
    }

    /// The URL that asks the user to authorize the player.
    pub fn get_auth_url(&self, state: &str) -> (u: String)
        ensures
            u@ == dropbox_auth_url(self.settings(), state@),
    {
        let mut u = owned("");
        proof {
            reveal_strlit("");
        }
        push_encoded(&mut u, "https://www.dropbox.com/oauth2/authorize?client_id=", self.config.oauth.client_id.as_str());
        push_encoded(&mut u, "&redirect_uri=", self.config.oauth.redirect_uri.as_str());
        push_encoded(&mut u, "&response_type=code&state=", state);
        assert(u@ =~= dropbox_auth_url(self.settings(), state@));
        u
    }

    /// The URL that lists a folder; an error without credentials.
    pub fn list_files_url(&self) -> (r: Result<String, ClientError>)
        ensures
            match r {
                Ok(u) => self.held_credentials() is Some && u@ == self.settings().api_base_url@ + "/files/list_folder"@,
                Err(e) => self.held_credentials() is None && e == ClientError::NotAuthenticated,
            },
    {
        if self.credentials.is_none() {
            return Err(ClientError::NotAuthenticated);
        }
        let mut u = self.config.api_base_url.clone();
        u.append("/files/list_folder");
        Ok(u)
    }

    /// The URL that searches files; an error without credentials.
    pub fn search_files_url(&self) -> (r: Result<String, ClientError>)
        ensures
            match r {
                Ok(u) => self.held_credentials() is Some && u@ == self.settings().api_base_url@ + "/files/search_v2"@,
                Err(e) => self.held_credentials() is None && e == ClientError::NotAuthenticated,
            },
    {
        if self.credentials.is_none() {
            return Err(ClientError::NotAuthenticated);
        }
        let mut u = self.config.api_base_url.clone();
        u.append("/files/search_v2");
        Ok(u)
    }

    /// The credentials the client holds.
    pub fn get_credentials(&self) -> (c: Option<&DropboxCredentials>)
        ensures
            match c {
                Some(x) => self.held_credentials() == Some(*x),
                None => self.held_credentials() is None,
            },
    {
        self.credentials.as_ref()
    }

    /// Replaces the credentials.
    pub fn set_credentials(&mut self, credentials: DropboxCredentials)
        ensures
            final(self).held_credentials() == Some(credentials),
            final(self).settings() == old(self).settings(),
    {
        self.credentials = Some(credentials);
    }
}

// ---------------------------------------------------------------- TMDB, Filmweb, Trakt

/// The player's client of The Movie Database.
pub struct TMDBClient {
    pub api_key: String,
    pub base_url: String,
}

impl TMDBClient {
    /// A client with the given API key, for the public API.
    pub fn new(api_key: &str) -> (c: TMDBClient)
        ensures
            c.api_key@ == api_key@,
            c.base_url@ == "https://api.themoviedb.org/3"@,
    {
        TMDBClient { api_key: owned(api_key), base_url: owned("https://api.themoviedb.org/3") }
    }

    /// The URL of a movie search.
    pub fn search_movie_url(&self, query: &str) -> (u: String)
        ensures
            u@ == self.base_url@ + "/search/movie?api_key="@ + self.api_key@ + "&query="@ + url_encoded(query@),
    {
        let mut u = self.base_url.clone();
        push_plain(&mut u, "/search/movie?api_key=", self.api_key.as_str());
        push_encoded(&mut u, "&query=", query);
        u
    }

    /// The URL of a movie's details.
    pub fn movie_url(&self, id: u32) -> (u: String)
        ensures
            u@ == self.base_url@ + "/movie/"@ + decimal(id as nat) + "?api_key="@ + self.api_key@,
    {
        let mut u = self.base_url.clone();
        push_plain(&mut u, "/movie/", u32_text(id).as_str());
        push_plain(&mut u, "?api_key=", self.api_key.as_str());
        u
    }

    /// The URL of a movie's cast.
    pub fn cast_url(&self, id: u32) -> (u: String)
        ensures
            u@ == self.base_url@ + "/movie/"@ + decimal(id as nat) + "/credits?api_key="@ + self.api_key@,
    {
        let mut u = self.base_url.clone();
        push_plain(&mut u, "/movie/", u32_text(id).as_str());
        push_plain(&mut u, "/credits?api_key=", self.api_key.as_str());
        u
    }
}

/// The player's Filmweb client.
pub struct FilmwebClient {
    pub base_url: String,
}

impl FilmwebClient {
    /// A client of the Filmweb site.
    pub fn new() -> (c: FilmwebClient)
        ensures
            c.base_url@ == "https://www.filmweb.pl"@,
    {
        FilmwebClient { base_url: owned("https://www.filmweb.pl") }
    }

    /// The URL of a movie search.
    pub fn search_movie_url(&self, query: &str) -> (u: String)
        ensures
            u@ == self.base_url@ + "/search?q="@ + url_encoded(query@),
    {
        let mut u = self.base_url.clone();
        push_encoded(&mut u, "/search?q=", query);
        u
    }
}

/// The player's Trakt.tv client.
pub struct TraktClient {
    pub client_id: String,
    pub client_secret: String,
    pub access_token: Option<String>,
    pub base_url: String,
}

impl TraktClient {
    /// A client with the given application identity and no access token.
    pub fn new(client_id: &str, client_secret: &str) -> (c: TraktClient)
        ensures
            c.client_id@ == client_id@,
            c.client_secret@ == client_secret@,
            c.access_token is None,
            c.base_url@ == "https://api.trakt.tv"@,
    {
        TraktClient {
            client_id: owned(client_id),
            client_secret: owned(client_secret),
            access_token: None,
            base_url: owned("https://api.trakt.tv"),
        }
    }

    /// The URL a token is asked for at.
    pub fn token_url(&self) -> (u: String)
        ensures
            u@ == self.base_url@ + "/oauth/token"@,
    {
        let mut u = self.base_url.clone();
        u.append("/oauth/token");
        u
    }

    /// The URL of the watch history, with the header value that
    /// authorizes the request; an error without an access token.
    pub fn history_request(&self) -> (r: Result<(String, String), ClientError>)
        ensures
            match r {
                Ok((u, auth)) => self.access_token matches Some(t) && u@ == self.base_url@ + "/sync/history"@
                    && auth@ == "Bearer "@ + t@,
                Err(e) => self.access_token is None && e == ClientError::NotAuthenticated,
            },
    {
        match &self.access_token {
            None => Err(ClientError::NotAuthenticated),
            Some(t) => {
                let mut u = self.base_url.clone();
                u.append("/sync/history");
                let mut auth = owned("Bearer ");
                auth.append(t.as_str());
                Ok((u, auth))
            },
        }
    }
}

// ---------------------------------------------------------------- Podcasts

/// The URL of an iTunes podcast search.
pub open spec fn podcast_search_url(query: Seq<char>, limit: u32) -> Seq<char> {
    "https://itunes.apple.com/search?term="@ + url_encoded(query) + "&media=podcast&entity=podcast&limit="@ + decimal(
        limit as nat,
    )
}

/// The player's podcast client.
pub struct PodcastClient {
    pub config: PodcastConfig,
}

impl PodcastClient {
    /// A client with the given settings.
    pub fn new(config: PodcastConfig) -> (c: PodcastClient)
        ensures
            c.config == config,
    {
        PodcastClient { config }
    }

    /// The URL of a podcast search.
    pub fn search_podcasts_url(&self, query: &str, limit: u32) -> (u: String)
        ensures
            u@ == podcast_search_url(query@, limit),
    {
        let mut u = owned("");
        proof {
            reveal_strlit("");
        }
        push_encoded(&mut u, "https://itunes.apple.com/search?term=", query);
        push_plain(&mut u, "&media=podcast&entity=podcast&limit=", u32_text(limit).as_str());
        assert(u@ =~= podcast_search_url(query@, limit));
        u
    }

    /// The URL of a podcast's lookup by its iTunes identifier.
    pub fn podcast_lookup_url(&self, id: &str) -> (u: String)
        ensures
            u@ == "https://itunes.apple.com/lookup?id="@ + id@ + "&entity=podcast"@,
    {
        let mut u = owned("https://itunes.apple.com/lookup?id=");
        push_plain(&mut u, "", id);
        proof {
            reveal_strlit("");
        }
        u.append("&entity=podcast");
        assert(u@ =~= "https://itunes.apple.com/lookup?id="@ + id@ + "&entity=podcast"@);
        u
    }

    /// The URL of the chart of top podcasts.
    pub fn top_podcasts_url(&self, limit: u32) -> (u: String)
        ensures
            u@ == "https://itunes.apple.com/us/rss/toppodcasts/limit="@ + decimal(limit as nat)
                + "/explicit=true/json"@,
    {
        let mut u = owned("https://itunes.apple.com/us/rss/toppodcasts/limit=");
        u.append(u32_text(limit).as_str());
        u.append("/explicit=true/json");
        u
    }

    /// The podcast categories offered.
    pub fn get_categories(&self) -> (r: Vec<PodcastCategory>)
        ensures
            r@.map_values(|c: PodcastCategory| category_view(c)) == podcast_category_tree(),
            subcategories_are_leaves(r@),
    {
        podcast_categories()
    }
}

// ---------------------------------------------------------------- The manager

/// The clients of the services the player has set up.
pub struct IntegrationManager {
    pub tmdb: Option<TMDBClient>,
    pub filmweb: Option<FilmwebClient>,
    pub trakt: Option<TraktClient>,
    pub ipc_guard: Option<IPCGuard>,
    pub spotify: Option<SpotifyClient>,
    pub youtube: Option<YouTubeClient>,
    pub google_drive: Option<GoogleDriveClient>,
    pub dropbox: Option<DropboxClient>,
    pub podcast: Option<PodcastClient>,
}

/// Whether the client of a service was set up.
pub open spec fn client_present(m: IntegrationManager, p: IntegrationProvider) -> bool {
    match p {
        IntegrationProvider::TMDB => m.tmdb is Some,
        IntegrationProvider::Filmweb => m.filmweb is Some,
        IntegrationProvider::Trakt => m.trakt is Some,
        IntegrationProvider::Spotify => m.spotify is Some,
        IntegrationProvider::YouTube => m.youtube is Some,
        IntegrationProvider::GoogleDrive => m.google_drive is Some,
        IntegrationProvider::Dropbox => m.dropbox is Some,
        IntegrationProvider::ITunes => m.podcast is Some,
    }
}

/// Whether the client of a service holds credentials (false for the
/// services whose clients hold none).
pub open spec fn credentials_present(m: IntegrationManager, p: IntegrationProvider) -> bool {
    match p {
        IntegrationProvider::Spotify => m.spotify matches Some(c) && c.held_credentials() is Some,
        IntegrationProvider::YouTube => m.youtube matches Some(c) && c.held_credentials() is Some,
        IntegrationProvider::GoogleDrive => m.google_drive matches Some(c) && c.held_credentials() is Some,
        IntegrationProvider::Dropbox => m.dropbox matches Some(c) && c.held_credentials() is Some,
        _ => false,
    }
}

/// Whether the credentials of a service's client have expired at `now`
/// (false for the services whose credentials are not checked for expiry).
pub open spec fn credentials_expired_at(m: IntegrationManager, p: IntegrationProvider, now: i64) -> bool {
    match p {
        IntegrationProvider::Spotify => m.spotify matches Some(c) && c.held_credentials() matches Some(k)
            && k.expires_at <= now,
        IntegrationProvider::YouTube => m.youtube matches Some(c) && c.held_credentials() matches Some(k)
            && k.expires_at <= now,
        IntegrationProvider::GoogleDrive => m.google_drive matches Some(c) && c.held_credentials() matches Some(k)
            && k.expires_at <= now,
        _ => false,
    }
}

/// The status of a service at the time `now`.
pub open spec fn manager_status(m: IntegrationManager, p: IntegrationProvider, now: i64) -> ConnectionStatus {
    status_of(p, client_present(m, p), credentials_present(m, p), credentials_expired_at(m, p, now))
}

/// A service the manager counts as connected has the connected or the
/// expired status at any time, and one it does not count as connected is
/// disconnected; no service is ever reported as failed.
pub proof fn law_manager_connected_agrees(m: IntegrationManager, p: IntegrationProvider, now: i64)
    ensures
        (client_present(m, p) && (!needs_credentials(p) || credentials_present(m, p))) <==> manager_status(m, p, now)
            != ConnectionStatus::Disconnected,
        manager_status(m, p, now) != ConnectionStatus::Failed,
{
    law_connected_agrees_with_status(p, client_present(m, p), credentials_present(m, p), credentials_expired_at(m, p, now));
}

impl IntegrationManager {
    /// A manager with no service set up.
    pub fn new() -> (m: IntegrationManager)
        ensures
            m.tmdb is None,
            m.filmweb is None,
            m.trakt is None,
            m.ipc_guard is None,
            m.spotify is None,
            m.youtube is None,
            m.google_drive is None,
            m.dropbox is None,
            m.podcast is None,
    {
        IntegrationManager {
            tmdb: None,
            filmweb: None,
            trakt: None,
            ipc_guard: None,
            spotify: None,
            youtube: None,
            google_drive: None,
            dropbox: None,
            podcast: None,
        }
    }

    /// Sets up The Movie Database with an API key.
    pub fn init_tmdb(&mut self, api_key: &str)
        ensures
            final(self).tmdb matches Some(c) && c.api_key@ == api_key@ && c.base_url@ == "https://api.themoviedb.org/3"@,
            *final(self) == (IntegrationManager { tmdb: final(self).tmdb, ..*old(self) }),
    {
        self.tmdb = Some(TMDBClient::new(api_key));
    }

    /// Sets up Filmweb.
    pub fn init_filmweb(&mut self)
        ensures
            final(self).filmweb matches Some(c) && c.base_url@ == "https://www.filmweb.pl"@,
            *final(self) == (IntegrationManager { filmweb: final(self).filmweb, ..*old(self) }),
    {
        self.filmweb = Some(FilmwebClient::new());
    }

    /// Sets up Trakt.tv; a missing secret is kept as an empty one.
    pub fn init_trakt(&mut self, client_id: &str, client_secret: Option<&str>)
        ensures
            final(self).trakt matches Some(c) && c.client_id@ == client_id@ && c.client_secret@ == match client_secret {
                Some(s) => s@,
                None => ""@,
            } && c.access_token is None,
            *final(self) == (IntegrationManager { trakt: final(self).trakt, ..*old(self) }),
    {
        let secret: &str = match client_secret {
            Some(s) => s,
            None => "",
        };
        self.trakt = Some(TraktClient::new(client_id, secret));
    }

    /// Sets up the antivirus guard.
    pub fn init_ipc_guard(&mut self)
        ensures
            final(self).ipc_guard matches Some(g) && g.is_enabled() && g.scanner_path() is None,
            *final(self) == (IntegrationManager { ipc_guard: final(self).ipc_guard, ..*old(self) }),
    {
        self.ipc_guard = Some(IPCGuard::new());
    }

    /// Sets up Spotify.
    pub fn init_spotify(&mut self, config: SpotifyConfig)
        ensures
            final(self).spotify matches Some(c) && c.settings() == config && c.held_credentials() is None,
            *final(self) == (IntegrationManager { spotify: final(self).spotify, ..*old(self) }),
    {
        self.spotify = Some(SpotifyClient::new(config));
    }

    /// Sets up YouTube.
    pub fn init_youtube(&mut self, config: YouTubeConfig)
        ensures
            final(self).youtube matches Some(c) && c.settings() == config && c.held_credentials() is None,
            *final(self) == (IntegrationManager { youtube: final(self).youtube, ..*old(self) }),
    {
        self.youtube = Some(YouTubeClient::new(config));
    }

    /// Sets up Google Drive.
    pub fn init_google_drive(&mut self, config: GoogleDriveConfig)
        ensures
            final(self).google_drive matches Some(c) && c.settings() == config && c.held_credentials() is None,
            *final(self) == (IntegrationManager { google_drive: final(self).google_drive, ..*old(self) }),
    {
        self.google_drive = Some(GoogleDriveClient::new(config));
    }

    /// Sets up Dropbox.
    pub fn init_dropbox(&mut self, config: DropboxConfig)
        ensures
            final(self).dropbox matches Some(c) && c.settings() == config && c.held_credentials() is None,
            *final(self) == (IntegrationManager { dropbox: final(self).dropbox, ..*old(self) }),
    {
        self.dropbox = Some(DropboxClient::new(config));
    }

    /// Sets up the podcast service.
    pub fn init_podcast(&mut self, config: PodcastConfig)
        ensures
            final(self).podcast matches Some(c) && c.config == config,
            *final(self) == (IntegrationManager { podcast: final(self).podcast, ..*old(self) }),
    {
        self.podcast = Some(PodcastClient::new(config));
    }

    /// Whether a service is connected: its client was set up and, where the
    /// service needs credentials, the client holds them.
    pub fn is_connected(&self, provider: IntegrationProvider) -> (r: bool)
        ensures
            r == (client_present(*self, provider) && (!needs_credentials(provider) || credentials_present(
                *self,
                provider,
            ))),
    {
        match provider {
            IntegrationProvider::TMDB => self.tmdb.is_some(),
            IntegrationProvider::Filmweb => self.filmweb.is_some(),
            IntegrationProvider::Trakt => self.trakt.is_some(),
            IntegrationProvider::Spotify => match &self.spotify {
                Some(c) => c.get_credentials().is_some(),
                None => false,
            },
            IntegrationProvider::YouTube => match &self.youtube {
                Some(c) => c.get_credentials().is_some(),
                None => false,
            },
            IntegrationProvider::GoogleDrive => match &self.google_drive {
                Some(c) => c.get_credentials().is_some(),
                None => false,
            },
            IntegrationProvider::Dropbox => match &self.dropbox {
                Some(c) => c.get_credentials().is_some(),
                None => false,
            },
            IntegrationProvider::ITunes => self.podcast.is_some(),
        }
    }

    /// The status of a service at the time `now` (milliseconds since the
    /// Unix epoch, as the credentials' expiry times are).
    pub fn get_status_at(&self, provider: IntegrationProvider, now: i64) -> (s: ConnectionStatus)
        ensures
            s == manager_status(*self, provider, now),
    {
        match provider {
            IntegrationProvider::TMDB => if self.tmdb.is_some() {
                ConnectionStatus::Connected
            } else {
                ConnectionStatus::Disconnected
            },
            IntegrationProvider::Filmweb => if self.filmweb.is_some() {
                ConnectionStatus::Connected
            } else {
                ConnectionStatus::Disconnected
            },
            IntegrationProvider::Trakt => if self.trakt.is_some() {
                ConnectionStatus::Connected
            } else {
                ConnectionStatus::Disconnected
            },
            IntegrationProvider::Spotify => {
                if let Some(client) = &self.spotify {
                    if let Some(creds) = client.get_credentials() {
                        if creds.is_expired_at(now) {
                            ConnectionStatus::Expired
                        } else {
                            ConnectionStatus::Connected
                        }
                    } else {
                        ConnectionStatus::Disconnected
                    }
                } else {
                    ConnectionStatus::Disconnected
                }
            },
            IntegrationProvider::YouTube => {
                if let Some(client) = &self.youtube {
                    if let Some(creds) = client.get_credentials() {
                        if creds.is_expired_at(now) {
                            ConnectionStatus::Expired
                        } else {
                            ConnectionStatus::Connected
                        }
                    } else {
                        ConnectionStatus::Disconnected
                    }
                } else {
                    ConnectionStatus::Disconnected
                }
            },
            IntegrationProvider::GoogleDrive => {
                if let Some(client) = &self.google_drive {
                    if let Some(creds) = client.get_credentials() {
                        if creds.is_expired_at(now) {
                            ConnectionStatus::Expired
                        } else {
                            ConnectionStatus::Connected
                        }
                    } else {
                        ConnectionStatus::Disconnected
                    }
                } else {
                    ConnectionStatus::Disconnected
                }
            },
            IntegrationProvider::Dropbox => {
                if let Some(client) = &self.dropbox {
                    if client.get_credentials().is_some() {
                        ConnectionStatus::Connected
                    } else {
                        ConnectionStatus::Disconnected
                    }
                } else {
                    ConnectionStatus::Disconnected
                }
            },
            IntegrationProvider::ITunes => if self.podcast.is_some() {
                ConnectionStatus::Connected
            } else {
                ConnectionStatus::Disconnected
            },
        }
    }

    /// The status of a service by the system clock: the status at some
    /// time, whatever the clock says.
    pub fn get_status(&self, provider: IntegrationProvider) -> (s: ConnectionStatus)
        ensures
            exists|now: i64| s == manager_status(*self, provider, now),
    {
        let now = utc_now_millis();
        self.get_status_at(provider, now)
    }
}

} // verus!
