//! The external services the player integrates with, how the state of a
//! service's client reads as a connection status, and the builder that
//! collects the settings of the services to start.

use vstd::prelude::*;

use crate::clients::IntegrationManager;
use crate::cloud_storage::{DropboxConfig, GoogleDriveConfig};
use crate::podcast::PodcastConfig;
use crate::spotify::SpotifyConfig;
use crate::youtube::YouTubeConfig;

verus! {

/// The services the player integrates with.
#[derive(Debug, Clone, Copy, PartialEq, Eq, Hash, Structural)]
pub enum IntegrationProvider {
    /// The Movie Database
    TMDB,
    /// Filmweb (Polish ratings)
    Filmweb,
    /// Trakt.tv
    Trakt,
    Spotify,
    YouTube,
    GoogleDrive,
    Dropbox,
    /// iTunes/Podcasts
    ITunes,
}

/// Connection status of a service.
#[derive(Debug, Clone, Copy, PartialEq, Eq, Structural)]
pub enum ConnectionStatus {
    Disconnected,
    Connected,
    Expired,
    Failed,
}

/// Whether a service's credentials expire: those of Spotify, YouTube and
/// Google Drive are checked for expiry; Dropbox credentials are not.
pub open spec fn credentials_expire(p: IntegrationProvider) -> bool {
    p == IntegrationProvider::Spotify || p == IntegrationProvider::YouTube || p == IntegrationProvider::GoogleDrive
}

/// Whether a service needs credentials to count as connected.
pub open spec fn needs_credentials(p: IntegrationProvider) -> bool {
    credentials_expire(p) || p == IntegrationProvider::Dropbox
}

/// The status of a service given whether its client was set up, whether
/// the client holds credentials, and whether those have expired.
pub open spec fn status_of(p: IntegrationProvider, client: bool, credentials: bool, expired: bool) -> ConnectionStatus {
    if !client {
        ConnectionStatus::Disconnected
    } else if !needs_credentials(p) {
        ConnectionStatus::Connected
    } else if !credentials {
        ConnectionStatus::Disconnected
    } else if credentials_expire(p) && expired {
        ConnectionStatus::Expired
    } else {
        ConnectionStatus::Connected
    }
}

impl IntegrationProvider {
    /// Whether this service's credentials are checked for expiry.
    pub fn credentials_expire(&self) -> (r: bool)
        ensures
            r == credentials_expire(*self),
    {
        match self {
            IntegrationProvider::Spotify | IntegrationProvider::YouTube | IntegrationProvider::GoogleDrive => true,
            _ => false,
        }
    }

    /// Whether this service needs credentials to count as connected.
    pub fn needs_credentials(&self) -> (r: bool)
        ensures
            r == needs_credentials(*self),
    {
        match self {
            IntegrationProvider::Spotify
            | IntegrationProvider::YouTube
            | IntegrationProvider::GoogleDrive
            | IntegrationProvider::Dropbox => true,
            _ => false,
        }
    }

    /// The status of this service given whether its client was set up,
    /// whether it holds credentials, and whether those have expired.
    pub fn status(&self, client: bool, credentials: bool, expired: bool) -> (s: ConnectionStatus)
        ensures
            s == status_of(*self, client, credentials, expired),
    {
        if !client {
            ConnectionStatus::Disconnected
        } else if !self.needs_credentials() {
            ConnectionStatus::Connected
        } else if !credentials {
            ConnectionStatus::Disconnected
        } else if self.credentials_expire() && expired {
            ConnectionStatus::Expired
        } else {
            ConnectionStatus::Connected
        }
    }

    /// Whether this service counts as connected: its client was set up and,
    /// where credentials are needed, it holds them (expired or not).
    pub fn is_connected(&self, client: bool, credentials: bool) -> (r: bool)
        ensures
            r == (client && (!needs_credentials(*self) || credentials)),
    {
        client && (!self.needs_credentials() || credentials)
    }
}

/// A service counted as connected has the connected or the expired status,
/// and a service not counted as connected is disconnected.
pub proof fn law_connected_agrees_with_status(p: IntegrationProvider, client: bool, credentials: bool, expired: bool)
    ensures
        (client && (!needs_credentials(p) || credentials)) <==> status_of(p, client, credentials, expired) != ConnectionStatus::Disconnected,
        status_of(p, client, credentials, expired) != ConnectionStatus::Failed,
{
}

/// Collects the settings of the services to start.
pub struct IntegrationManagerBuilder {
    pub tmdb_api_key: Option<String>,
    pub trakt_client_id: Option<String>,
    pub trakt_client_secret: Option<String>,
    pub spotify_config: Option<SpotifyConfig>,
    pub youtube_config: Option<YouTubeConfig>,
    pub google_drive_config: Option<GoogleDriveConfig>,
    pub dropbox_config: Option<DropboxConfig>,
    pub podcast_config: Option<PodcastConfig>,
    pub init_filmweb: bool,
    pub init_ipc: bool,
}

impl IntegrationManagerBuilder {
    /// A builder that starts no service.
    pub fn new() -> (b: IntegrationManagerBuilder)
        ensures
            b.tmdb_api_key is None,
            b.trakt_client_id is None,
            b.trakt_client_secret is None,
            b.spotify_config is None,
            b.youtube_config is None,
            b.google_drive_config is None,
            b.dropbox_config is None,
            b.podcast_config is None,
            !b.init_filmweb,
            !b.init_ipc,
    {
        IntegrationManagerBuilder {
            tmdb_api_key: None,
            trakt_client_id: None,
            trakt_client_secret: None,
            spotify_config: None,
            youtube_config: None,
            google_drive_config: None,
            dropbox_config: None,
            podcast_config: None,
            init_filmweb: false,
            init_ipc: false,
        }
    }

    /// Starts TMDB with an API key.
    pub fn with_tmdb(self, api_key: String) -> (b: IntegrationManagerBuilder)
        ensures
            b == (IntegrationManagerBuilder { tmdb_api_key: Some(api_key), ..self }),
    {
        let mut s = self;
        s.tmdb_api_key = Some(api_key);
        s
    }

    /// Starts Trakt with a client identifier and, optionally, a secret.
    pub fn with_trakt(self, client_id: String, client_secret: Option<String>) -> (b: IntegrationManagerBuilder)
        ensures
            b == (IntegrationManagerBuilder { trakt_client_id: Some(client_id), trakt_client_secret: client_secret, ..self }),
    {
        let mut s = self;
        s.trakt_client_id = Some(client_id);
        s.trakt_client_secret = client_secret;
        s
    }

    /// Starts Spotify with the given settings.
    pub fn with_spotify(self, config: SpotifyConfig) -> (b: IntegrationManagerBuilder)
        ensures
            b == (IntegrationManagerBuilder { spotify_config: Some(config), ..self }),
    {
        let mut s = self;
        s.spotify_config = Some(config);
        s
    }

    /// Starts YouTube with the given settings.
    pub fn with_youtube(self, config: YouTubeConfig) -> (b: IntegrationManagerBuilder)
        ensures
            b == (IntegrationManagerBuilder { youtube_config: Some(config), ..self }),
    {
        let mut s = self;
        s.youtube_config = Some(config);
        s
    }

    /// Starts Google Drive with the given settings.
    pub fn with_google_drive(self, config: GoogleDriveConfig) -> (b: IntegrationManagerBuilder)
        ensures
            b == (IntegrationManagerBuilder { google_drive_config: Some(config), ..self }),
    {
        let mut s = self;
        s.google_drive_config = Some(config);
        s
    }

    /// Starts Dropbox with the given settings.
    pub fn with_dropbox(self, config: DropboxConfig) -> (b: IntegrationManagerBuilder)
        ensures
            b == (IntegrationManagerBuilder { dropbox_config: Some(config), ..self }),
    {
        let mut s = self;
        s.dropbox_config = Some(config);
        s
    }

    /// Starts the podcast service with the given settings.
    pub fn with_podcast(self, config: PodcastConfig) -> (b: IntegrationManagerBuilder)
        ensures
            b == (IntegrationManagerBuilder { podcast_config: Some(config), ..self }),
    {
        let mut s = self;
        s.podcast_config = Some(config);
        s
    }

    /// Starts Filmweb.
    pub fn with_filmweb(self) -> (b: IntegrationManagerBuilder)
        ensures
            b == (IntegrationManagerBuilder { init_filmweb: true, ..self }),
    {
        let mut s = self;
        s.init_filmweb = true;
        s
    }

    /// Starts the antivirus guard.
    pub fn with_ipc(self) -> (b: IntegrationManagerBuilder)
        ensures
            b == (IntegrationManagerBuilder { init_ipc: true, ..self }),
    {
        let mut s = self;
        s.init_ipc = true;
        s
    }

    /// Sets up the services asked for: a service is set up exactly when
    /// its settings (or, for Filmweb and the antivirus guard, its flag)
    /// were given, and Trakt.tv only with a client identifier.
    pub fn build(self) -> (m: IntegrationManager)
        ensures
            (m.tmdb is Some) == (self.tmdb_api_key is Some),
            self.tmdb_api_key matches Some(k) ==> m.tmdb matches Some(c) && c.api_key@ == k@,
            (m.filmweb is Some) == self.init_filmweb,
            (m.trakt is Some) == (self.trakt_client_id is Some),
            self.trakt_client_id matches Some(id) ==> m.trakt matches Some(c) && c.client_id@ == id@
                && c.client_secret@ == match self.trakt_client_secret {
                Some(s) => s@,
                None => Seq::<char>::empty(),
            },
            (m.ipc_guard is Some) == self.init_ipc,
            m.ipc_guard matches Some(g) ==> g.is_enabled() && g.scanner_path() is None,
            match self.spotify_config {
                Some(cfg) => m.spotify matches Some(c) && c.settings() == cfg && c.held_credentials() is None,
                None => m.spotify is None,
            },
            match self.youtube_config {
                Some(cfg) => m.youtube matches Some(c) && c.settings() == cfg && c.held_credentials() is None,
                None => m.youtube is None,
            },
            match self.google_drive_config {
                Some(cfg) => m.google_drive matches Some(c) && c.settings() == cfg && c.held_credentials() is None,
                None => m.google_drive is None,
            },
            match self.dropbox_config {
                Some(cfg) => m.dropbox matches Some(c) && c.settings() == cfg && c.held_credentials() is None,
                None => m.dropbox is None,
            },
            match self.podcast_config {
                Some(cfg) => m.podcast matches Some(c) && c.config == cfg,
                None => m.podcast is None,
            },
    {
        proof {
            reveal_strlit("");
        }
        let mut manager = IntegrationManager::new();
        if let Some(api_key) = &self.tmdb_api_key {
            manager.init_tmdb(api_key.as_str());
        }
        if self.init_filmweb {
            manager.init_filmweb();
        }
        if let Some(client_id) = &self.trakt_client_id {
            let secret: Option<&str> = match &self.trakt_client_secret {
                Some(s) => Some(s.as_str()),
                None => None,
            };
            manager.init_trakt(client_id.as_str(), secret);
        }
        if self.init_ipc {
            manager.init_ipc_guard();
        }
        if let Some(config) = self.spotify_config {
            manager.init_spotify(config);
        }
        if let Some(config) = self.youtube_config {
            manager.init_youtube(config);
        }
        if let Some(config) = self.google_drive_config {
            manager.init_google_drive(config);
        }
        if let Some(config) = self.dropbox_config {
            manager.init_dropbox(config);
        }
        if let Some(config) = self.podcast_config {
            manager.init_podcast(config);
        }
        manager
    }
}

impl Default for IntegrationManagerBuilder {
    fn default() -> (b: IntegrationManagerBuilder)
        ensures
            b.tmdb_api_key is None,
            b.spotify_config is None,
            !b.init_filmweb,
            !b.init_ipc,
    {
        IntegrationManagerBuilder::new()
    }
}

} // verus!
