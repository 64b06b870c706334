//! The viewer service: viewer profiles, and the broadcasters each viewer
//! follows.

use vstd::prelude::*;

use crate::broadcasting::{first_live, BroadcasterId, DefaultBroadcasterService, LiveStream};
use crate::clock::utc_now_seconds;
use crate::live_streaming::LiveStreamingError;
use crate::market::{first_index, keys_of, lemma_first_index, position, record_of, Keyed};
use crate::plugin::{random_uuid_text, v4_hyphenated_shape};
use crate::stream_types::ChatBadge;
use crate::text::strings_equal;

verus! {

/// Identifier of a viewer.
#[derive(Debug, Clone, PartialEq, Eq, Hash)]
pub struct ViewerId(pub String);

impl ViewerId {
    /// A fresh random identifier.
    pub fn new() -> (id: ViewerId)
        ensures
            v4_hyphenated_shape(id.0@),
    {
        ViewerId(random_uuid_text())
    }
}

/// A viewer's profile.
#[derive(Debug, Clone)]
pub struct ViewerProfile {
    pub id: ViewerId,
    pub username: String,
    pub display_name: String,
    pub avatar_url: Option<String>,
    pub is_following: bool,
    pub is_subscribed: bool,
    pub is_moderator: bool,
    pub is_banned: bool,
    pub is_vip: bool,
    pub badges: Vec<ChatBadge>,
    pub watch_time_minutes: u64,
    /// Seconds since the Unix epoch
    pub first_seen: i64,
}

impl Keyed for ViewerProfile {
    open spec fn key_view(&self) -> Seq<char> {
        self.id.0@
    }

    fn key(&self) -> (k: &String) {
        &self.id.0
    }
}

/// The broadcasters a viewer follows, in the order followed.
#[derive(Debug, Clone)]
pub struct FollowList {
    pub viewer_id: ViewerId,
    pub broadcasters: Vec<BroadcasterId>,
}

impl Keyed for FollowList {
    open spec fn key_view(&self) -> Seq<char> {
        self.viewer_id.0@
    }

    fn key(&self) -> (k: &String) {
        &self.viewer_id.0
    }
}

/// Broadcaster identifiers by value.
pub open spec fn ids_view(v: Seq<BroadcasterId>) -> Seq<Seq<char>> {
    v.map_values(|b: BroadcasterId| b.0@)
}

/// `s` without the identifier `id`.
pub open spec fn without_id(s: Seq<Seq<char>>, id: Seq<char>) -> Seq<Seq<char>>
    decreases s.len(),
{
    if s.len() == 0 {
        s
    } else if s.last() == id {
        without_id(s.drop_last(), id)
    } else {
        without_id(s.drop_last(), id).push(s.last())
    }
}

/// The viewer service.
pub struct DefaultViewerService {
    viewers: Vec<ViewerProfile>,
    follows: Vec<FollowList>,
}

impl DefaultViewerService {
    /// The profiles, in creation order.
    pub closed spec fn profiles(&self) -> Seq<ViewerProfile> {
        self.viewers@
    }

    /// The broadcasters a viewer follows, in the order followed.
    pub closed spec fn followed(&self, viewer: Seq<char>) -> Seq<Seq<char>> {
        match record_of(self.follows@, viewer) {
            Some(f) => ids_view(f.broadcasters@),
            None => Seq::empty(),
        }
    }

    /// A service with no viewer.
    pub fn new() -> (s: DefaultViewerService)
        ensures
            s.profiles().len() == 0,
            forall|v: Seq<char>| #[trigger] s.followed(v).len() == 0,
    {
        DefaultViewerService { viewers: Vec::new(), follows: Vec::new() }
    }

    /// Creates a viewer at the time `now` with the given identifier.
    pub fn create_viewer_at(&mut self, username: String, display_name: String, id: ViewerId, now: i64) -> (r: ViewerId)
        ensures
            r == id,
            final(self).profiles().drop_last() == old(self).profiles(),
            final(self).profiles().len() == old(self).profiles().len() + 1,
            ({
                let p = final(self).profiles().last();
                &&& p.id == id
                &&& p.username@ == username@
                &&& p.display_name@ == display_name@
                &&& p.avatar_url is None
                &&& !p.is_following && !p.is_subscribed && !p.is_moderator && !p.is_banned && !p.is_vip
                &&& p.badges@.len() == 0
                &&& p.watch_time_minutes == 0
                &&& p.first_seen == now
            }),
            forall|v: Seq<char>| #[trigger] final(self).followed(v) == old(self).followed(v),
    {
        let returned = ViewerId(id.0.clone());
        let viewer = ViewerProfile {
            id,
            username,
            display_name,
            avatar_url: None,
            is_following: false,
            is_subscribed: false,
            is_moderator: false,
            is_banned: false,
            is_vip: false,
            badges: Vec::new(),
            watch_time_minutes: 0,
            first_seen: now,
        };
        let ghost before = self.viewers@;
        self.viewers.push(viewer);
        assert(self.viewers@.drop_last() =~= before);
        returned
    }

    /// Creates a viewer now, with a fresh identifier.
    pub fn create_viewer(&mut self, username: String, display_name: String) -> (r: ViewerId)
        ensures
            final(self).profiles().drop_last() == old(self).profiles(),
            final(self).profiles().last().id == r,
            final(self).profiles().last().username@ == username@,
            final(self).profiles().last().display_name@ == display_name@,
    {
        let id = ViewerId::new();
        let now = utc_now_seconds();
        self.create_viewer_at(username, display_name, id, now)
    }

    /// A viewer's profile.
    pub fn get_viewer(&self, viewer_id: &ViewerId) -> (r: Result<&ViewerProfile, LiveStreamingError>)
        ensures
            match r {
                Ok(p) => record_of(self.profiles(), viewer_id.0@) == Some(*p),
                Err(e) => record_of(self.profiles(), viewer_id.0@) is None && e
                    == LiveStreamingError::ViewerNotFound(e->ViewerNotFound_0) && e->ViewerNotFound_0@ == viewer_id.0@,
            },
    {
        match position(&self.viewers, viewer_id.0.as_str()) {
            Some(i) => Ok(&self.viewers[i]),
            None => Err(LiveStreamingError::ViewerNotFound(viewer_id.0.clone())),
        }
    }

    /// Whether a viewer follows a broadcaster.
    pub fn is_following(&self, viewer_id: &ViewerId, broadcaster_id: &BroadcasterId) -> (r: Result<bool, LiveStreamingError>)
        ensures
            r == Ok::<bool, LiveStreamingError>(self.followed(viewer_id.0@).contains(broadcaster_id.0@)),
    {
        match position(&self.follows, viewer_id.0.as_str()) {
            None => Ok(false),
            Some(i) => {
                let list = &self.follows[i].broadcasters;
                assert(self.followed(viewer_id.0@) == ids_view(list@));
                let mut k: usize = 0;
                while k < list.len()
                    invariant
                        k <= list@.len(),
                        self.followed(viewer_id.0@) == ids_view(list@),
                        forall|j: int| 0 <= j < k ==> ids_view(list@)[j] != broadcaster_id.0@,
                    decreases list.len() - k,
                {
                    if strings_equal(&list[k].0, &broadcaster_id.0) {
                        assert(ids_view(list@)[k as int] == broadcaster_id.0@);
                        assert(ids_view(list@).contains(broadcaster_id.0@));
                        return Ok(true);
                    }
                    k = k + 1;
                }
                Ok(false)
            },
        }
    }

    /// The broadcasters a viewer follows, in the order followed.
    pub fn get_followed_broadcasters(&self, viewer_id: &ViewerId) -> (r: Result<Vec<BroadcasterId>, LiveStreamingError>)
        ensures
            r matches Ok(v) && ids_view(v@) == self.followed(viewer_id.0@),
    {
        let mut out: Vec<BroadcasterId> = Vec::new();
        match position(&self.follows, viewer_id.0.as_str()) {
            None => {
                assert(ids_view(out@) =~= Seq::<Seq<char>>::empty());
            },
            Some(i) => {
                let list = &self.follows[i].broadcasters;
                let mut k: usize = 0;
                while k < list.len()
                    invariant
                        k <= list@.len(),
                        ids_view(out@) == ids_view(list@).take(k as int),
                    decreases list.len() - k,
                {
                    let ghost before = out@;
                    out.push(BroadcasterId(list[k].0.clone()));
                    assert(ids_view(out@) =~= ids_view(before).push(list@[k as int].0@));
                    assert(ids_view(list@).take(k + 1) =~= ids_view(list@).take(k as int).push(list@[k as int].0@));
                    k = k + 1;
                }
                assert(ids_view(list@).take(list@.len() as int) =~= ids_view(list@));
            },
        }
        Ok(out)
    }

    /// Makes a viewer follow a broadcaster, once; refused for an unknown
    /// viewer or broadcaster.
    pub fn follow_broadcaster(&mut self, viewer_id: &ViewerId, broadcaster_id: &BroadcasterId, broadcasters: &DefaultBroadcasterService) -> (r: Result<(), LiveStreamingError>)
        ensures
            record_of(old(self).profiles(), viewer_id.0@) is None ==> (r matches Err(e) && e
                == LiveStreamingError::ViewerNotFound(e->ViewerNotFound_0)),
            record_of(old(self).profiles(), viewer_id.0@) is Some && record_of(broadcasters.profiles(), broadcaster_id.0@)
                is None ==> (r matches Err(e) && e == LiveStreamingError::BroadcasterNotFound(e->BroadcasterNotFound_0)),
            r is Ok <==> record_of(old(self).profiles(), viewer_id.0@) is Some && record_of(
                broadcasters.profiles(),
                broadcaster_id.0@,
            ) is Some,
            r is Err ==> final(self).followed(viewer_id.0@) == old(self).followed(viewer_id.0@),
            r is Ok ==> final(self).followed(viewer_id.0@) == if old(self).followed(viewer_id.0@).contains(broadcaster_id.0@) {
                old(self).followed(viewer_id.0@)
            } else {
                old(self).followed(viewer_id.0@).push(broadcaster_id.0@)
            },
            final(self).profiles() == old(self).profiles(),
            forall|v: Seq<char>| v != viewer_id.0@ ==> #[trigger] final(self).followed(v) == old(self).followed(v),
    {
        if position(&self.viewers, viewer_id.0.as_str()).is_none() {
            return Err(LiveStreamingError::ViewerNotFound(viewer_id.0.clone()));
        }
        if broadcasters.get_broadcaster(broadcaster_id).is_err() {
            return Err(LiveStreamingError::BroadcasterNotFound(broadcaster_id.0.clone()));
        }
        let already = match self.is_following(viewer_id, broadcaster_id) {
            Ok(b) => b,
            Err(_) => false,
        };
        if already {
            return Ok(());
        }
        let ghost follows_before = self.follows@;
        match position(&self.follows, viewer_id.0.as_str()) {
            Some(i) => {
                let mut list = self.follows.remove(i);
                let ghost ids_before = ids_view(list.broadcasters@);
                list.broadcasters.push(BroadcasterId(broadcaster_id.0.clone()));
                assert(ids_view(list.broadcasters@) =~= ids_before.push(broadcaster_id.0@));
                self.follows.insert(i, list);
                assert(self.follows@ =~= follows_before.update(i as int, list));
                proof {
                    lemma_first_index(keys_of(follows_before), viewer_id.0@);
                    assert(keys_of(self.follows@) =~= keys_of(follows_before));
                    assert forall|v: Seq<char>| v != viewer_id.0@ implies #[trigger] self.followed(v) == old(self).followed(v) by {
                        lemma_first_index(keys_of(follows_before), v);
                    }
                }
            },
            None => {
                let mut ids: Vec<BroadcasterId> = Vec::new();
                ids.push(BroadcasterId(broadcaster_id.0.clone()));
                let list = FollowList { viewer_id: ViewerId(viewer_id.0.clone()), broadcasters: ids };
                self.follows.push(list);
                proof {
                    assert(ids_view(list.broadcasters@) =~= Seq::<Seq<char>>::empty().push(broadcaster_id.0@));
                    crate::market::law_stored_record_found(follows_before, list, viewer_id.0@);
                    assert forall|v: Seq<char>| v != viewer_id.0@ implies #[trigger] self.followed(v) == old(self).followed(v) by {
                        crate::market::law_stored_record_found(follows_before, list, v);
                    }
                }
            },
        }
        Ok(())
    }

    /// Makes a viewer stop following a broadcaster.
    pub fn unfollow_broadcaster(&mut self, viewer_id: &ViewerId, broadcaster_id: &BroadcasterId) -> (r: Result<(), LiveStreamingError>)
        ensures
            r is Ok,
            final(self).followed(viewer_id.0@) == without_id(old(self).followed(viewer_id.0@), broadcaster_id.0@),
            final(self).profiles() == old(self).profiles(),
            forall|v: Seq<char>| v != viewer_id.0@ ==> #[trigger] final(self).followed(v) == old(self).followed(v),
    {
        let ghost follows_before = self.follows@;
        match position(&self.follows, viewer_id.0.as_str()) {
            None => {
                assert(without_id(Seq::<Seq<char>>::empty(), broadcaster_id.0@) =~= Seq::<Seq<char>>::empty());
            },
            Some(i) => {
                let list = self.follows.remove(i);
                let mut kept: Vec<BroadcasterId> = Vec::new();
                let mut k: usize = 0;
                while k < list.broadcasters.len()
                    invariant
                        k <= list.broadcasters@.len(),
                        ids_view(kept@) == without_id(ids_view(list.broadcasters@).take(k as int), broadcaster_id.0@),
                    decreases list.broadcasters.len() - k,
                {
                    let ghost t = ids_view(list.broadcasters@).take(k + 1);
                    assert(t.drop_last() =~= ids_view(list.broadcasters@).take(k as int));
                    assert(t.last() == list.broadcasters@[k as int].0@);
                    if !strings_equal(&list.broadcasters[k].0, &broadcaster_id.0) {
                        let ghost before = kept@;
                        kept.push(BroadcasterId(list.broadcasters[k].0.clone()));
                        assert(ids_view(kept@) =~= ids_view(before).push(list.broadcasters@[k as int].0@));
                    }
                    k = k + 1;
                }
                assert(ids_view(list.broadcasters@).take(list.broadcasters@.len() as int) =~= ids_view(list.broadcasters@));
                let new_list = FollowList { viewer_id: list.viewer_id, broadcasters: kept };
                self.follows.insert(i, new_list);
                assert(self.follows@ =~= follows_before.update(i as int, new_list));
                proof {
                    lemma_first_index(keys_of(follows_before), viewer_id.0@);
                    assert(keys_of(self.follows@) =~= keys_of(follows_before));
                    assert forall|v: Seq<char>| v != viewer_id.0@ implies #[trigger] self.followed(v) == old(self).followed(v) by {
                        lemma_first_index(keys_of(follows_before), v);
                    }
                }
            },
        }
        Ok(())
    }

    /// The live streams of the broadcasters a viewer follows: for each, in
    /// the order followed, its first live stream, where it has one.
    pub fn get_followed_live_streams<'a>(&self, viewer_id: &ViewerId, broadcasters: &'a DefaultBroadcasterService) -> (r: Result<Vec<&'a LiveStream>, LiveStreamingError>)
        ensures
            r matches Ok(v) && v@.map_values(|x: &LiveStream| *x) == live_of(
                broadcasters.stream_list(),
                self.followed(viewer_id.0@),
            ),
    {
        let follows = match self.get_followed_broadcasters(viewer_id) {
            Ok(v) => v,
            Err(_) => Vec::new(),
        };
        let ghost ids = ids_view(follows@);
        let mut out: Vec<&LiveStream> = Vec::new();
        let mut k: usize = 0;
        assert(ids.take(0) =~= Seq::<Seq<char>>::empty());
        while k < follows.len()
            invariant
                k <= follows@.len(),
                ids == ids_view(follows@),
                ids == self.followed(viewer_id.0@),
                out@.map_values(|x: &LiveStream| *x) == live_of(broadcasters.stream_list(), ids.take(k as int)),
            decreases follows.len() - k,
        {
            let ghost before = out@.map_values(|x: &LiveStream| *x);
            assert(ids.take(k + 1).drop_last() =~= ids.take(k as int));
            assert(ids.take(k + 1).last() == follows@[k as int].0@);
            match broadcasters.get_active_stream(&follows[k]) {
                Ok(Some(s)) => {
                    out.push(s);
                    assert(out@.map_values(|x: &LiveStream| *x) =~= before.push(*s));
                },
                _ => {},
            }
            k = k + 1;
        }
        assert(ids.take(ids.len() as int) =~= ids);
        Ok(out)
    }
}

/// After a viewer follows a broadcaster, the viewer follows it, once.
pub proof fn law_follow_then_following(followed: Seq<Seq<char>>, b: Seq<char>)
    ensures
        ({
            let after = if followed.contains(b) {
                followed
            } else {
                followed.push(b)
            };
            after.contains(b) && (!followed.contains(b) ==> after.len() == followed.len() + 1)
        }),
{
    if !followed.contains(b) {
        assert(followed.push(b)[followed.len() as int] == b);
    }
}

/// After a viewer unfollows a broadcaster, the viewer no longer follows
/// it, and still follows every other broadcaster it followed.
pub proof fn law_unfollow_removes(followed: Seq<Seq<char>>, b: Seq<char>, other: Seq<char>)
    ensures
        !without_id(followed, b).contains(b),
        other != b ==> (without_id(followed, b).contains(other) <==> followed.contains(other)),
    decreases followed.len(),
{
    if followed.len() > 0 {
        law_unfollow_removes(followed.drop_last(), b, other);
        let w = without_id(followed.drop_last(), b);
        if followed.last() != b {
            assert(w.push(followed.last()).drop_last() =~= w);
            assert forall|x: Seq<char>| #[trigger] w.push(followed.last()).contains(x) <==> (w.contains(x) || x == followed.last()) by {
                if w.push(followed.last()).contains(x) {
                    let j = choose|j: int| 0 <= j < w.len() + 1 && w.push(followed.last())[j] == x;
                    if j < w.len() {
                        assert(w[j] == x);
                    }
                }
                if w.contains(x) {
                    let j = choose|j: int| 0 <= j < w.len() && w[j] == x;
                    assert(w.push(followed.last())[j] == x);
                }
                if x == followed.last() {
                    assert(w.push(followed.last())[w.len() as int] == x);
                }
            }
        }
        assert forall|x: Seq<char>| #[trigger] followed.contains(x) <==> (followed.drop_last().contains(x) || x == followed.last()) by {
            if followed.contains(x) {
                let j = choose|j: int| 0 <= j < followed.len() && followed[j] == x;
                if j < followed.len() - 1 {
                    assert(followed.drop_last()[j] == x);
                }
            }
            if followed.drop_last().contains(x) {
                let j = choose|j: int| 0 <= j < followed.len() - 1 && followed.drop_last()[j] == x;
                assert(followed[j] == x);
            }
            if x == followed.last() {
                assert(followed[followed.len() - 1] == x);
            }
        }
    }
}

/// The first live stream of each broadcaster in `ids` that has one, in
/// that order.
pub open spec fn live_of(streams: Seq<LiveStream>, ids: Seq<Seq<char>>) -> Seq<LiveStream>
    decreases ids.len(),
{
    if ids.len() == 0 {
        Seq::empty()
    } else {
        match first_live(streams, ids.last()) {
            Some(i) => live_of(streams, ids.drop_last()).push(streams[i]),
            None => live_of(streams, ids.drop_last()),
        }
    }
}

} // verus!
