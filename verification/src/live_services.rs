//! The live streaming services together: broadcasters and their streams,
//! viewers, chat and discovery, with the settings and counters they share,
//! and the health report made from them.

use vstd::prelude::*;

use crate::broadcasting::{DefaultBroadcasterService, LiveStream, StreamId};
use crate::chat_service::DefaultChatService;
use crate::live_streaming::{default_live_config, HealthStatus, LiveStreamingConfig, LiveStreamingError, StreamingStats};
use crate::market::record_of;
use crate::stream_types::{StreamCategory, StreamStatus};
use crate::viewers::{DefaultViewerService, ViewerId};

verus! {

/// The identifiers and names of the categories streams are listed under.
pub open spec fn category_names() -> Seq<(Seq<char>, Seq<char>)> {
    seq![
        ("gaming"@, "Gaming"@),
        ("music"@, "Music"@),
        ("creative"@, "Creative"@),
        ("irl"@, "Just Chatting"@),
        ("sports"@, "Sports"@),
        ("education"@, "Education"@),
        ("technology"@, "Technology"@),
        ("entertainment"@, "Entertainment"@),
    ]
}

/// The streams featured on the front page, where they are live, in the
/// order featured, looking at the first `limit` of them.
pub open spec fn live_featured(featured: Seq<Seq<char>>, streams: Seq<LiveStream>, limit: int) -> Seq<LiveStream>
    decreases featured.len(),
{
    if featured.len() == 0 {
        Seq::empty()
    } else {
        let prev = live_featured(featured.drop_last(), streams, limit);
        match record_of(streams, featured.last()) {
            Some(s) => if featured.len() - 1 < limit && s.status == StreamStatus::Live {
                prev.push(s)
            } else {
                prev
            },
            None => prev,
        }
    }
}

/// Discovery of streams: the categories and the featured streams.
pub struct DefaultDiscoveryService {
    featured_streams: Vec<StreamId>,
    categories: Vec<StreamCategory>,
}

impl DefaultDiscoveryService {
    /// The featured streams' identifiers, in the order featured.
    pub closed spec fn featured(&self) -> Seq<Seq<char>> {
        self.featured_streams@.map_values(|s: StreamId| s.0@)
    }

    /// The categories.
    pub closed spec fn category_list(&self) -> Seq<StreamCategory> {
        self.categories@
    }

    /// A discovery service with the standard categories and no featured
    /// stream.
    pub fn new() -> (d: DefaultDiscoveryService)
        ensures
            d.featured().len() == 0,
            d.category_list().len() == category_names().len(),
            forall|i: int| 0 <= i < d.category_list().len() ==> (#[trigger] d.category_list()[i]).id@
                == category_names()[i].0 && d.category_list()[i].name@ == category_names()[i].1
                && d.category_list()[i].parent_id is None,
    {
        let mut categories: Vec<StreamCategory> = Vec::new();
        categories.push(StreamCategory::new("gaming", "Gaming"));
        categories.push(StreamCategory::new("music", "Music"));
        categories.push(StreamCategory::new("creative", "Creative"));
        categories.push(StreamCategory::new("irl", "Just Chatting"));
        categories.push(StreamCategory::new("sports", "Sports"));
        categories.push(StreamCategory::new("education", "Education"));
        categories.push(StreamCategory::new("technology", "Technology"));
        categories.push(StreamCategory::new("entertainment", "Entertainment"));
        let d = DefaultDiscoveryService { featured_streams: Vec::new(), categories };
        assert(d.featured() =~= Seq::<Seq<char>>::empty());
        d
    }

    /// The categories streams are listed under.
    pub fn get_categories(&self) -> (r: Result<&Vec<StreamCategory>, LiveStreamingError>)
        ensures
            r matches Ok(c) && c@ == self.category_list(),
    {
        Ok(&self.categories)
    }

    /// The live streams among the first `limit` featured ones.
    pub fn get_featured_streams<'a>(&self, limit: usize, broadcasters: &'a DefaultBroadcasterService) -> (r: Result<
        Vec<&'a LiveStream>,
        LiveStreamingError,
    >)
        ensures
            r matches Ok(v) && v@.map_values(|x: &LiveStream| *x) == live_featured(
                self.featured(),
                broadcasters.stream_list(),
                limit as int,
            ),
    {
        let mut out: Vec<&LiveStream> = Vec::new();
        let mut i: usize = 0;
        while i < self.featured_streams.len()
            invariant
                i <= self.featured_streams@.len(),
                out@.map_values(|x: &LiveStream| *x) == live_featured(
                    self.featured().take(i as int),
                    broadcasters.stream_list(),
                    limit as int,
                ),
            decreases self.featured_streams.len() - i,
        {
            let ghost t = self.featured().take(i + 1);
            assert(t.drop_last() =~= self.featured().take(i as int));
            assert(t.last() == self.featured_streams@[i as int].0@);
            if i < limit {
                match broadcasters.get_stream(&self.featured_streams[i]) {
                    Ok(s) => {
                        if s.status == StreamStatus::Live {
                            let ghost prev = out@.map_values(|x: &LiveStream| *x);
                            out.push(s);
                            assert(out@.map_values(|x: &LiveStream| *x) =~= prev.push(*s));
                        }
                    },
                    Err(_) => {},
                }
            }
            i = i + 1;
        }
        assert(self.featured().take(i as int) =~= self.featured());
        Ok(out)
    }

    /// Streams of a category: none are listed yet.
    pub fn get_streams_by_category(&self, category_id: &str, limit: usize, offset: usize) -> (r: Result<
        Vec<LiveStream>,
        LiveStreamingError,
    >)
        ensures
            r matches Ok(v) && v@.len() == 0,
    {
        Ok(Vec::new())
    }

    /// Streams with a tag: none are listed yet.
    pub fn get_streams_by_tag(&self, tag: &str, limit: usize, offset: usize) -> (r: Result<
        Vec<LiveStream>,
        LiveStreamingError,
    >)
        ensures
            r matches Ok(v) && v@.len() == 0,
    {
        Ok(Vec::new())
    }

    /// Streams matching a search: none are listed yet.
    pub fn search_streams(&self, query: &str, limit: usize) -> (r: Result<Vec<LiveStream>, LiveStreamingError>)
        ensures
            r matches Ok(v) && v@.len() == 0,
    {
        Ok(Vec::new())
    }

    /// Streams recommended to a viewer: none are listed yet.
    pub fn get_recommended_streams(&self, viewer_id: &ViewerId, limit: usize) -> (r: Result<
        Vec<LiveStream>,
        LiveStreamingError,
    >)
        ensures
            r matches Ok(v) && v@.len() == 0,
    {
        Ok(Vec::new())
    }

    /// The most watched streams: none are listed yet.
    pub fn get_top_streams(&self, limit: usize) -> (r: Result<Vec<LiveStream>, LiveStreamingError>)
        ensures
            r matches Ok(v) && v@.len() == 0,
    {
        Ok(Vec::new())
    }
}

/// The live streaming services, their settings and their counters.
pub struct LiveStreamingServices {
    /// Broadcasters and their streams
    pub broadcaster: DefaultBroadcasterService,
    /// Viewers and whom they follow
    pub viewer: DefaultViewerService,
    /// Stream discovery
    pub discovery: DefaultDiscoveryService,
    /// Chat
    pub chat: DefaultChatService,
    config: LiveStreamingConfig,
    stats: StreamingStats,
}

impl LiveStreamingServices {
    /// The settings the services run with.
    pub closed spec fn settings(&self) -> LiveStreamingConfig {
        self.config
    }

    /// The services' counters.
    pub closed spec fn counters(&self) -> StreamingStats {
        self.stats
    }

    /// Services with the given settings, no broadcaster, viewer or message,
    /// and every counter at zero.
    pub fn new(config: LiveStreamingConfig) -> (s: LiveStreamingServices)
        ensures
            s.settings() == config,
            s.counters() == StreamingStats::zero(),
    {
        LiveStreamingServices {
            broadcaster: DefaultBroadcasterService::new(),
            viewer: DefaultViewerService::new(),
            discovery: DefaultDiscoveryService::new(),
            chat: DefaultChatService::new(),
            config,
            stats: StreamingStats::default(),
        }
    }

    /// Services with the default settings.
    pub fn with_defaults() -> (s: LiveStreamingServices)
        ensures
            s.settings() == default_live_config(),
            s.counters() == StreamingStats::zero(),
    {
        LiveStreamingServices::new(LiveStreamingConfig::default())
    }

    /// The settings the services run with.
    pub fn config(&self) -> (c: LiveStreamingConfig)
        ensures
            c == self.settings(),
    {
        self.config
    }

    /// Replaces the settings.
    pub fn update_config(&mut self, config: LiveStreamingConfig)
        ensures
            final(self).settings() == config,
            final(self).counters() == old(self).counters(),
    {
        self.config = config;
    }

    /// The services' counters.
    pub fn stats(&self) -> (s: StreamingStats)
        ensures
            s == self.counters(),
    {
        self.stats
    }

    /// Replaces the counters.
    pub fn update_stats(&mut self, stats: StreamingStats)
        ensures
            final(self).counters() == stats,
            final(self).settings() == old(self).settings(),
    {
        self.stats = stats;
    }

    /// The health of the services: healthy, with the active streams and
    /// viewers counted and the optional features as configured.
    pub fn health_check(&self) -> (r: Result<HealthStatus, LiveStreamingError>)
        ensures
            r matches Ok(h) && h.healthy && h.active_streams == self.counters().active_streams && h.total_viewers
                == self.counters().total_viewers && h.features_enabled.hype_train == self.settings().enable_hype_train
                && h.features_enabled.predictions == self.settings().enable_predictions && h.features_enabled.polls
                == self.settings().enable_polls,
    {
        Ok(HealthStatus::report(&self.stats, &self.config))
    }
}

impl StreamingStats {
    /// Every counter at zero.
    pub open spec fn zero() -> StreamingStats {
        StreamingStats {
            active_streams: 0,
            total_viewers: 0,
            total_broadcasters: 0,
            chat_messages_today: 0,
            peak_viewers_today: 0,
        }
    }
}

} // verus!
