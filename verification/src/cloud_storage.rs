//! Cloud storage: Google Drive and Dropbox settings, the files and quotas
//! their APIs describe, and how a quota and a folder are recognised.

use vstd::prelude::*;

use crate::performance::texts_of;
use crate::text::{copy_opt_string, owned, string_equals_str};

verus! {

/// Google Drive OAuth configuration
#[derive(Debug, Clone)]
pub struct GoogleDriveOAuthConfig {
    pub client_id: String,
    pub client_secret: String,
    pub redirect_uri: String,
    pub scopes: Vec<String>,
}

/// Google Drive configuration
#[derive(Debug, Clone)]
pub struct GoogleDriveConfig {
    pub oauth: GoogleDriveOAuthConfig,
    pub api_base_url: String,
    pub timeout_seconds: u64,
    pub page_size: i32,
}

/// Google Drive file
#[derive(Debug, Clone)]
pub struct GoogleDriveFile {
    pub id: String,
    pub name: String,
    pub mime_type: Option<String>,
    pub size: Option<u64>,
    pub created_time: Option<String>,
    pub modified_time: Option<String>,
    pub is_folder: bool,
    pub parent_id: Option<String>,
    pub thumbnail_url: Option<String>,
    pub web_view_link: Option<String>,
    pub download_url: Option<String>,
}

/// Google Drive storage quota
#[derive(Debug, Clone)]
pub struct GoogleDriveQuota {
    pub total_bytes: u64,
    pub used_bytes: u64,
    pub available_bytes: u64,
}

/// Dropbox OAuth configuration
#[derive(Debug, Clone)]
pub struct DropboxOAuthConfig {
    pub client_id: String,
    pub client_secret: String,
    pub redirect_uri: String,
}

/// Dropbox configuration
#[derive(Debug, Clone)]
pub struct DropboxConfig {
    pub oauth: DropboxOAuthConfig,
    pub api_base_url: String,
    pub content_base_url: String,
    pub timeout_seconds: u64,
}

/// Dropbox file
#[derive(Debug, Clone)]
pub struct DropboxFile {
    pub id: String,
    pub name: String,
    pub path: String,
    pub size: Option<u64>,
    pub modified_time: Option<String>,
    pub is_folder: bool,
    pub download_url: Option<String>,
}

/// Dropbox storage quota
#[derive(Debug, Clone)]
pub struct DropboxQuota {
    pub total_bytes: u64,
    pub used_bytes: u64,
    pub available_bytes: u64,
}


impl Default for GoogleDriveOAuthConfig {
    fn default() -> (c: GoogleDriveOAuthConfig)
        ensures
            c.client_id@.len() == 0,
            c.client_secret@.len() == 0,
            c.redirect_uri@ == "http://localhost:8080/callback/gdrive"@,
            texts_of(c.scopes@) == seq!["https://www.googleapis.com/auth/drive.readonly"@],
    {
        let mut scopes: Vec<String> = Vec::new();
        scopes.push(owned("https://www.googleapis.com/auth/drive.readonly"));
        assert(texts_of(scopes@) =~= seq!["https://www.googleapis.com/auth/drive.readonly"@]);
        GoogleDriveOAuthConfig {
            client_id: String::new(),
            client_secret: String::new(),
            redirect_uri: owned("http://localhost:8080/callback/gdrive"),
            scopes,
        }
    }
}

impl Default for GoogleDriveConfig {
    fn default() -> (c: GoogleDriveConfig)
        ensures
            c.oauth.redirect_uri@ == "http://localhost:8080/callback/gdrive"@,
            c.api_base_url@ == "https://www.googleapis.com/drive/v3"@,
            c.timeout_seconds == 60,
            c.page_size == 100,
    {
        GoogleDriveConfig {
            oauth: GoogleDriveOAuthConfig::default(),
            api_base_url: owned("https://www.googleapis.com/drive/v3"),
            timeout_seconds: 60,
            page_size: 100,
        }
    }
}

impl Default for DropboxOAuthConfig {
    fn default() -> (c: DropboxOAuthConfig)
        ensures
            c.client_id@.len() == 0,
            c.client_secret@.len() == 0,
            c.redirect_uri@ == "http://localhost:8080/callback/dropbox"@,
    {
        DropboxOAuthConfig {
            client_id: String::new(),
            client_secret: String::new(),
            redirect_uri: owned("http://localhost:8080/callback/dropbox"),
        }
    }
}

impl Default for DropboxConfig {
    fn default() -> (c: DropboxConfig)
        ensures
            c.oauth.redirect_uri@ == "http://localhost:8080/callback/dropbox"@,
            c.api_base_url@ == "https://api.dropboxapi.com/2"@,
            c.content_base_url@ == "https://content.dropboxapi.com/2"@,
            c.timeout_seconds == 60,
    {
        DropboxConfig {
            oauth: DropboxOAuthConfig::default(),
            api_base_url: owned("https://api.dropboxapi.com/2"),
            content_base_url: owned("https://content.dropboxapi.com/2"),
            timeout_seconds: 60,
        }
    }
}

/// Bytes left of a quota: what is used is taken off the total, down to zero.
pub open spec fn available(total: u64, used: u64) -> u64 {
    if used <= total { (total - used) as u64 } else { 0 }
}

impl GoogleDriveQuota {
    /// The quota for a total and a used number of bytes.
    pub fn from_usage(total: u64, used: u64) -> (q: GoogleDriveQuota)
        ensures
            q.total_bytes == total,
            q.used_bytes == used,
            q.available_bytes == available(total, used),
    {
        GoogleDriveQuota { total_bytes: total, used_bytes: used, available_bytes: total.saturating_sub(used) }
    }
}

impl DropboxQuota {
    /// The quota for a total and a used number of bytes.
    pub fn from_usage(total: u64, used: u64) -> (q: DropboxQuota)
        ensures
            q.total_bytes == total,
            q.used_bytes == used,
            q.available_bytes == available(total, used),
    {
        DropboxQuota { total_bytes: total, used_bytes: used, available_bytes: total.saturating_sub(used) }
    }
}

/// Whether a Google Drive MIME type marks a folder.
pub fn is_drive_folder(mime_type: &String) -> (r: bool)
    ensures
        r == (mime_type@ == "application/vnd.google-apps.folder"@),
{
    string_equals_str(mime_type, "application/vnd.google-apps.folder")
}

/// Whether a Dropbox entry tag marks a folder.
pub fn is_dropbox_folder(tag: &String) -> (r: bool)
    ensures
        r == (tag@ == "folder"@),
{
    string_equals_str(tag, "folder")
}

/// The fields of an entry of a Dropbox listing or search, as far as they
/// are present (`tag` is the entry's `.tag`).
#[derive(Debug, Clone)]
pub struct DropboxEntryFields {
    pub tag: Option<String>,
    pub id: Option<String>,
    pub name: Option<String>,
    pub path_display: Option<String>,
    pub size: Option<u64>,
    pub server_modified: Option<String>,
}

/// An optional text, or the empty text where it is absent.
pub open spec fn text_or_empty(t: Option<String>) -> Seq<char> {
    match t {
        Some(s) => s@,
        None => Seq::empty(),
    }
}

/// `file` is what the entry `f` reads as: identifier and path default to
/// the empty text, the entry is a folder when its tag (`file` where
/// absent) is `folder`, and there is no download URL.
pub open spec fn dropbox_file_from(f: DropboxEntryFields, file: DropboxFile) -> bool {
    &&& f.name == Some(file.name)
    &&& file.id@ == text_or_empty(f.id)
    &&& file.path@ == text_or_empty(f.path_display)
    &&& file.size == f.size
    &&& file.modified_time == f.server_modified
    &&& file.is_folder == (f.tag matches Some(t) && t@ == "folder"@)
    &&& file.download_url is None
}

/// The entries that are read: those with a name, in order.
pub open spec fn kept_dropbox_entries(entries: Seq<DropboxEntryFields>) -> Seq<DropboxEntryFields>
    decreases entries.len(),
{
    if entries.len() == 0 {
        Seq::empty()
    } else if entries.last().name is Some {
        kept_dropbox_entries(entries.drop_last()).push(entries.last())
    } else {
        kept_dropbox_entries(entries.drop_last())
    }
}

/// A copy of an optional text, or the empty text.
fn text_or_empty_of(t: &Option<String>) -> (r: String)
    ensures
        r@ == text_or_empty(*t),
{
    match t {
        Some(s) => s.clone(),
        None => {
            proof {
                reveal_strlit("");
            }
            owned("")
        },
    }
}

/// The file an entry reads as, where it has a name.
fn dropbox_file_from_fields(f: &DropboxEntryFields) -> (r: Option<DropboxFile>)
    ensures
        match r {
            Some(file) => dropbox_file_from(*f, file),
            None => f.name is None,
        },
{
    let name = match &f.name {
        Some(x) => x.clone(),
        None => {
            return None;
        },
    };
    let tag = match &f.tag {
        Some(t) => t.clone(),
        None => owned("file"),
    };
    proof {
        reveal_strlit("file");
        reveal_strlit("folder");
    }
    let is_folder = is_dropbox_folder(&tag);
    assert(is_folder == (f.tag matches Some(t) && t@ == "folder"@)) by {
        if f.tag is None {
            assert(tag@ == "file"@);
            assert(tag@.len() != "folder"@.len());
        }
    }
    Some(
        DropboxFile {
            id: text_or_empty_of(&f.id),
            name,
            path: text_or_empty_of(&f.path_display),
            size: f.size,
            modified_time: copy_opt_string(&f.server_modified),
            is_folder,
            download_url: None,
        },
    )
}

/// The files of a Dropbox listing or search: each entry with a name, in
/// order.
pub fn dropbox_files_from_entries(entries: &Vec<DropboxEntryFields>) -> (r: Vec<DropboxFile>)
    ensures
        r@.len() == kept_dropbox_entries(entries@).len(),
        forall|i: int| 0 <= i < r@.len() ==> dropbox_file_from(#[trigger] kept_dropbox_entries(entries@)[i], r@[i]),
{
    let mut out: Vec<DropboxFile> = Vec::new();
    let mut i: usize = 0;
    assert(entries@.take(0) =~= Seq::<DropboxEntryFields>::empty());
    while i < entries.len()
        invariant
            i <= entries.len(),
            out@.len() == kept_dropbox_entries(entries@.take(i as int)).len(),
            forall|j: int|
                0 <= j < out@.len() ==> dropbox_file_from(
                    #[trigger] kept_dropbox_entries(entries@.take(i as int))[j],
                    out@[j],
                ),
        decreases entries.len() - i,
    {
        assert(entries@.take(i + 1).drop_last() =~= entries@.take(i as int));
        assert(entries@.take(i + 1).last() == entries@[i as int]);
        match dropbox_file_from_fields(&entries[i]) {
            Some(file) => {
                out.push(file);
            },
            None => {},
        }
        i = i + 1;
    }
    assert(entries@.take(entries@.len() as int) =~= entries@);
    out
}

} // verus!
