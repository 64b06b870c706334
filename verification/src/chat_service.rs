//! The chat of live streams: the messages written to each stream, the
//! moderation of its chatters and the modes of its chat.
//!
//! Messages are kept in the order written and found by their identifiers.
//! Each stream whose chat was ever moderated has a record with its modes,
//! its bans and timeouts (found by the chatter's identifier) and its pinned
//! message. Times are milliseconds since the Unix epoch.

use vstd::prelude::*;

use crate::broadcasting::{DefaultBroadcasterService, LiveStream, StreamId};
use crate::chat::{
    chat_verdict, follower_verdict, law_two_step_admission, screen_chat_message, ChatFacts, ChatGate, ChatMode,
    ChatRestriction,
};
use crate::clock::utc_now_millis;
use crate::live_streaming::LiveStreamingError;
use crate::market::{
    first_index, keys_of, lemma_first_index, lemma_first_index_at, lemma_record_of_push, lemma_without_key,
    law_stored_record_found, position, record_of, remove_keyed, store, stored, without_key, Keyed,
};
use crate::plugin::{random_uuid_text, v4_hyphenated_shape};
use crate::stream_types::{ChatBadge, ChatMessageType, EmotePosition, ModerationActionType, StreamStatus};
use crate::text::{copy_opt_string, owned, strings_equal};
use crate::viewers::{DefaultViewerService, ViewerId, ViewerProfile};
use vstd::utf8::encode_utf8;

verus! {

/// Identifier of a chat message.
#[derive(Debug, Clone, PartialEq, Eq, Hash)]
pub struct ChatMessageId(pub String);

impl ChatMessageId {
    /// A fresh random identifier.
    pub fn new() -> (id: ChatMessageId)
        ensures
            v4_hyphenated_shape(id.0@),
    {
        ChatMessageId(random_uuid_text())
    }
}

/// A message written to a stream's chat.
#[derive(Debug, Clone)]
pub struct ChatMessage {
    pub id: ChatMessageId,
    pub stream_id: StreamId,
    pub sender_id: ViewerId,
    pub sender_name: String,
    pub content: String,
    /// Milliseconds since the Unix epoch
    pub created_at: i64,
    pub message_type: ChatMessageType,
    pub badges: Vec<ChatBadge>,
    pub emotes: Vec<EmotePosition>,
    pub is_deleted: bool,
    /// Display name of whoever deleted the message
    pub deleted_by: Option<String>,
    pub reply_to: Option<ChatMessageId>,
    pub is_highlighted: bool,
    pub color: Option<String>,
}

impl Keyed for ChatMessage {
    open spec fn key_view(&self) -> Seq<char> {
        self.id.0@
    }

    fn key(&self) -> (k: &String) {
        &self.id.0
    }
}

/// `m` is a plain text message just written, with nothing attached.
pub open spec fn is_new_message(
    m: ChatMessage,
    id: Seq<char>,
    stream_id: Seq<char>,
    sender_id: Seq<char>,
    sender_name: Seq<char>,
    content: Seq<char>,
    now: i64,
) -> bool {
    &&& m.id.0@ == id
    &&& m.stream_id.0@ == stream_id
    &&& m.sender_id.0@ == sender_id
    &&& m.sender_name@ == sender_name
    &&& m.content@ == content
    &&& m.created_at == now
    &&& m.message_type == ChatMessageType::Text
    &&& m.badges@.len() == 0
    &&& m.emotes@.len() == 0
    &&& !m.is_deleted
    &&& m.deleted_by is None
    &&& m.reply_to is None
    &&& !m.is_highlighted
    &&& m.color is None
}

impl ChatMessage {
    /// A plain text message written at `now` under the identifier `id`.
    pub fn new_at(
        stream_id: StreamId,
        sender_id: ViewerId,
        sender_name: String,
        content: String,
        id: ChatMessageId,
        now: i64,
    ) -> (m: ChatMessage)
        ensures
            is_new_message(m, id.0@, stream_id.0@, sender_id.0@, sender_name@, content@, now),
    {
        ChatMessage {
            id,
            stream_id,
            sender_id,
            sender_name,
            content,
            created_at: now,
            message_type: ChatMessageType::Text,
            badges: Vec::new(),
            emotes: Vec::new(),
            is_deleted: false,
            deleted_by: None,
            reply_to: None,
            is_highlighted: false,
            color: None,
        }
    }

    /// A plain text message written now, under a fresh random identifier.
    pub fn new(stream_id: StreamId, sender_id: ViewerId, sender_name: String, content: String) -> (m: ChatMessage)
        ensures
            m.id.0@.len() == 36,
            is_new_message(m, m.id.0@, stream_id.0@, sender_id.0@, sender_name@, content@, m.created_at),
    {
        let id = ChatMessageId::new();
        let now = utc_now_millis();
        ChatMessage::new_at(stream_id, sender_id, sender_name, content, id, now)
    }
}

/// A moderation action taken on a chatter.
#[derive(Debug, Clone)]
pub struct ModerationAction {
    pub action_type: ModerationActionType,
    pub target_user_id: ViewerId,
    pub target_username: String,
    pub moderator_id: ViewerId,
    pub moderator_name: String,
    pub reason: Option<String>,
    /// Length of a timeout, in seconds
    pub duration_seconds: Option<u32>,
    /// Milliseconds since the Unix epoch
    pub created_at: i64,
}

impl Keyed for ModerationAction {
    open spec fn key_view(&self) -> Seq<char> {
        self.target_user_id.0@
    }

    fn key(&self) -> (k: &String) {
        &self.target_user_id.0
    }
}

/// A copy of a moderation action.
fn copy_action(a: &ModerationAction) -> (c: ModerationAction)
    ensures
        c == *a,
{
    ModerationAction {
        action_type: a.action_type,
        target_user_id: ViewerId(a.target_user_id.0.clone()),
        target_username: a.target_username.clone(),
        moderator_id: ViewerId(a.moderator_id.0.clone()),
        moderator_name: a.moderator_name.clone(),
        reason: copy_opt_string(&a.reason),
        duration_seconds: a.duration_seconds,
        created_at: a.created_at,
    }
}

/// What a chatter asks to write.
#[derive(Debug, Clone)]
pub struct SendMessageRequest {
    pub stream_id: StreamId,
    pub sender_id: ViewerId,
    pub sender_name: String,
    pub content: String,
    pub color: Option<String>,
    pub badges: Vec<ChatBadge>,
}

/// The moderation record of one stream's chat.
pub struct StreamChat {
    stream_id: String,
    mode: Option<ChatMode>,
    bans: Vec<ModerationAction>,
    pinned: Option<String>,
}

impl Keyed for StreamChat {
    closed spec fn key_view(&self) -> Seq<char> {
        self.stream_id@
    }

    fn key(&self) -> (k: &String) {
        &self.stream_id
    }
}

/// The last time a chatter wrote.
struct LastSent {
    viewer_id: String,
    at: i64,
}

impl Keyed for LastSent {
    closed spec fn key_view(&self) -> Seq<char> {
        self.viewer_id@
    }

    fn key(&self) -> (k: &String) {
        &self.viewer_id
    }
}

/// Whole seconds from `then` to `now`, both in milliseconds, as the
/// chat's clocks count them: the difference in whole seconds, rounded
/// toward zero, cut to its low 32 bits.
pub open spec fn seconds_between(now: i64, then: i64) -> u32 {
    let d = now - then;
    if d >= 0 {
        (d / 1000) as u32
    } else {
        (-((-d) / 1000)) as u32
    }
}

/// Whole seconds from `then` to `now` (see `seconds_between`).
fn elapsed_seconds(now: i64, then: i64) -> (r: u32)
    ensures
        r == seconds_between(now, then),
{
    let d: i128 = now as i128 - then as i128;
    let q: i128 = if d >= 0 {
        d / 1000
    } else {
        0 - ((0 - d) / 1000)
    };
    q as u32
}

/// The chat modes with slow mode set to `delay`.
pub open spec fn with_slow_mode(m: ChatMode, delay: Option<u32>) -> ChatMode {
    ChatMode { slow_mode: delay, ..m }
}

/// The chat modes with followers-only set to `minutes`.
pub open spec fn with_followers_only(m: ChatMode, minutes: Option<u32>) -> ChatMode {
    ChatMode { followers_only: minutes, ..m }
}

/// The chat modes with subscribers-only set to `on`.
pub open spec fn with_subscribers_only(m: ChatMode, on: bool) -> ChatMode {
    ChatMode { subscribers_only: on, ..m }
}

/// The chat modes with emote-only set to `on`.
pub open spec fn with_emote_only(m: ChatMode, on: bool) -> ChatMode {
    ChatMode { emote_only: on, ..m }
}

/// The modes a stream's chat has before any is set.
pub open spec fn no_modes() -> ChatMode {
    ChatMode { slow_mode: None, followers_only: None, subscribers_only: false, emote_only: false }
}

/// The modes after setting one of them: the stream's modes, or none set
/// where it has none yet, changed by `f`.
pub open spec fn modes_set(current: Option<ChatMode>, f: spec_fn(ChatMode) -> ChatMode) -> Option<ChatMode> {
    match current {
        Some(m) => Some(f(m)),
        None => Some(f(no_modes())),
    }
}

/// The modes after clearing one of them: changed by `f` where the stream
/// has modes, still none where it has none.
pub open spec fn modes_cleared(current: Option<ChatMode>, f: spec_fn(ChatMode) -> ChatMode) -> Option<ChatMode> {
    match current {
        Some(m) => Some(f(m)),
        None => None,
    }
}

/// One chat mode to set or clear.
#[derive(Debug, Clone, Copy, PartialEq, Eq, Structural)]
enum ModeChange {
    Slow(Option<u32>),
    FollowersOnly(Option<u32>),
    SubscribersOnly(bool),
    EmoteOnly(bool),
}

/// The modes with one of them changed.
spec fn mode_changed(m: ChatMode, c: ModeChange) -> ChatMode {
    match c {
        ModeChange::Slow(d) => with_slow_mode(m, d),
        ModeChange::FollowersOnly(f) => with_followers_only(m, f),
        ModeChange::SubscribersOnly(on) => with_subscribers_only(m, on),
        ModeChange::EmoteOnly(on) => with_emote_only(m, on),
    }
}

/// Changes one of the modes.
fn change_mode(m: ChatMode, c: ModeChange) -> (r: ChatMode)
    ensures
        r == mode_changed(m, c),
{
    let mut r = m;
    match c {
        ModeChange::Slow(d) => {
            r.slow_mode = d;
        },
        ModeChange::FollowersOnly(f) => {
            r.followers_only = f;
        },
        ModeChange::SubscribersOnly(on) => {
            r.subscribers_only = on;
        },
        ModeChange::EmoteOnly(on) => {
            r.emote_only = on;
        },
    }
    r
}

/// A change to one stream's moderation record.
enum ChatChange {
    /// Sets a mode (creating the modes where there are none) or clears one
    /// (leaving a chat without modes as it is).
    Mode(ModeChange, bool),
    Ban(ModerationAction),
    Unban(String),
    Pin(Option<String>),
}

/// The modes after a change.
spec fn modes_after(current: Option<ChatMode>, change: ChatChange) -> Option<ChatMode> {
    match change {
        ChatChange::Mode(c, create) => if create {
            modes_set(current, |m: ChatMode| mode_changed(m, c))
        } else {
            modes_cleared(current, |m: ChatMode| mode_changed(m, c))
        },
        _ => current,
    }
}

/// A chatter's ban or timeout after a change.
spec fn ban_after(current: Option<ModerationAction>, viewer: Seq<char>, change: ChatChange) -> Option<ModerationAction> {
    match change {
        ChatChange::Ban(a) => if a.target_user_id.0@ == viewer {
            Some(a)
        } else {
            current
        },
        ChatChange::Unban(w) => if w@ == viewer {
            None
        } else {
            current
        },
        _ => current,
    }
}

/// The pinned message after a change.
spec fn pinned_after(current: Option<Seq<char>>, change: ChatChange) -> Option<Seq<char>> {
    match change {
        ChatChange::Pin(p) => match p {
            Some(id) => Some(id@),
            None => None,
        },
        _ => current,
    }
}

/// The error for a message that is not there.
pub open spec fn is_missing_message(e: LiveStreamingError) -> bool {
    e matches LiveStreamingError::InternalError(t) && t@ == "Message not found"@
}

/// The error for a message that is not there.
fn missing_message() -> (e: LiveStreamingError)
    ensures
        is_missing_message(e),
{
    LiveStreamingError::InternalError(owned("Message not found"))
}

/// `e` says that the viewer `id` is not there.
pub open spec fn is_viewer_missing(e: LiveStreamingError, id: Seq<char>) -> bool {
    e matches LiveStreamingError::ViewerNotFound(t) && t@ == id
}

/// How a moderation lookup of a target and a moderator ends: the first of
/// them that is not a viewer, or both profiles.
pub open spec fn moderation_lookup(
    viewers: &DefaultViewerService,
    target: Seq<char>,
    moderator: Seq<char>,
) -> Result<(ViewerProfile, ViewerProfile), Seq<char>> {
    match record_of(viewers.profiles(), target) {
        None => Err(target),
        Some(t) => match record_of(viewers.profiles(), moderator) {
            None => Err(moderator),
            Some(m) => Ok((t, m)),
        },
    }
}

/// `a` is the action of the kind `kind` that the moderator `moderator`,
/// whose profile is `m`, took at the time `now` on the chatter `target`,
/// whose profile is `t`.
pub open spec fn is_action_on(
    a: ModerationAction,
    kind: ModerationActionType,
    target: Seq<char>,
    t: ViewerProfile,
    moderator: Seq<char>,
    m: ViewerProfile,
    reason: Option<String>,
    duration: Option<u32>,
    now: i64,
) -> bool {
    &&& a.action_type == kind
    &&& a.target_user_id.0@ == target
    &&& a.target_username@ == t.display_name@
    &&& a.moderator_id.0@ == moderator
    &&& a.moderator_name@ == m.display_name@
    &&& a.reason == reason
    &&& a.duration_seconds == duration
    &&& a.created_at == now
}

/// `e` says that the stream `id` is not there.
pub open spec fn is_stream_missing(e: LiveStreamingError, id: Seq<char>) -> bool {
    e matches LiveStreamingError::StreamNotFound(t) && t@ == id
}

/// `m` is the message written by the request `q` under the identifier `id`
/// at the time `now`: a plain text message with the request's badges and
/// color.
pub open spec fn is_sent_message(m: ChatMessage, q: SendMessageRequest, id: Seq<char>, now: i64) -> bool {
    &&& m.id.0@ == id
    &&& m.stream_id.0@ == q.stream_id.0@
    &&& m.sender_id.0@ == q.sender_id.0@
    &&& m.sender_name@ == q.sender_name@
    &&& m.content@ == q.content@
    &&& m.created_at == now
    &&& m.message_type == ChatMessageType::Text
    &&& m.badges@ == q.badges@
    &&& m.emotes@.len() == 0
    &&& !m.is_deleted
    &&& m.deleted_by is None
    &&& m.reply_to is None
    &&& !m.is_highlighted
    &&& m.color == q.color
}

/// A copy of a badge.
fn copy_badge(b: &ChatBadge) -> (c: ChatBadge)
    ensures
        c == *b,
{
    ChatBadge { id: b.id.clone(), name: b.name.clone(), icon_url: b.icon_url.clone() }
}

/// A copy of a list of badges.
fn copy_badges(v: &Vec<ChatBadge>) -> (c: Vec<ChatBadge>)
    ensures
        c@ == v@,
{
    let mut c: Vec<ChatBadge> = Vec::new();
    let mut i: usize = 0;
    while i < v.len()
        invariant
            i <= v@.len(),
            c@ == v@.take(i as int),
        decreases v.len() - i,
    {
        c.push(copy_badge(&v[i]));
        assert(v@.take(i + 1) =~= v@.take(i as int).push(v@[i as int]));
        i = i + 1;
    }
    assert(v@.take(v@.len() as int) =~= v@);
    c
}

/// The messages of a stream that are not deleted, in the order written.
pub open spec fn visible_in(s: Seq<ChatMessage>, stream: Seq<char>) -> Seq<ChatMessage>
    decreases s.len(),
{
    if s.len() == 0 {
        s
    } else if s.last().stream_id.0@ == stream && !s.last().is_deleted {
        visible_in(s.drop_last(), stream).push(s.last())
    } else {
        visible_in(s.drop_last(), stream)
    }
}

/// Where a message written at `k` goes in a list ordered from the newest:
/// before the first message written earlier.
pub open spec fn first_older(sorted: Seq<ChatMessage>, k: i64) -> int
    decreases sorted.len(),
{
    if sorted.len() == 0 {
        0
    } else if sorted[0].created_at < k {
        0
    } else {
        first_older(sorted.drop_first(), k) + 1
    }
}

/// Messages ordered from the newest to the oldest, those written at the
/// same time in their original order (the stable sort by time, newest
/// first).
pub open spec fn newest_first(s: Seq<ChatMessage>) -> Seq<ChatMessage>
    decreases s.len(),
{
    if s.len() == 0 {
        Seq::empty()
    } else {
        let sorted = newest_first(s.drop_last());
        sorted.insert(first_older(sorted, s.last().created_at), s.last())
    }
}

/// The messages after the first one with the identifier `before`; all of
/// them where there is no such message or no `before`.
pub open spec fn after_message(s: Seq<ChatMessage>, before: Option<Seq<char>>) -> Seq<ChatMessage> {
    match before {
        Some(b) => match first_index(keys_of(s), b) {
            Some(p) => s.skip(p + 1),
            None => s,
        },
        None => s,
    }
}

/// The first `n` items of `s`, or all of them where it has fewer.
pub open spec fn first_n(s: Seq<ChatMessage>, n: int) -> Seq<ChatMessage> {
    if n < s.len() {
        s.take(n)
    } else {
        s
    }
}

/// The insertion position lies within the list, and the messages before it
/// were written at `k` or later, the one after it earlier.
pub proof fn lemma_first_older(sorted: Seq<ChatMessage>, k: i64)
    ensures
        0 <= first_older(sorted, k) <= sorted.len(),
        forall|j: int| 0 <= j < first_older(sorted, k) ==> (#[trigger] sorted[j]).created_at >= k,
        first_older(sorted, k) < sorted.len() ==> sorted[first_older(sorted, k)].created_at < k,
    decreases sorted.len(),
{
    if sorted.len() > 0 && sorted[0].created_at >= k {
        lemma_first_older(sorted.drop_first(), k);
        assert forall|j: int| 1 <= j < sorted.len() implies sorted[j] == sorted.drop_first()[j - 1] by {}
    }
}

/// The ordering runs from the newest to the oldest message and keeps every
/// message.
pub proof fn law_newest_first_sorted(s: Seq<ChatMessage>)
    ensures
        newest_first(s).len() == s.len(),
        forall|i: int, j: int|
            0 <= i < j < s.len() ==> (#[trigger] newest_first(s)[i]).created_at >= (#[trigger] newest_first(
                s,
            )[j]).created_at,
    decreases s.len(),
{
    if s.len() > 0 {
        let sorted = newest_first(s.drop_last());
        law_newest_first_sorted(s.drop_last());
        let k = s.last().created_at;
        let p = first_older(sorted, k);
        lemma_first_older(sorted, k);
        let r = sorted.insert(p, s.last());
        assert forall|i: int, j: int| 0 <= i < j < s.len() implies (#[trigger] r[i]).created_at >= (
        #[trigger] r[j]).created_at by {
            if j < p {
            } else if j == p {
            } else if i < p {
                assert(r[j] == sorted[j - 1]);
                if p < sorted.len() {
                    assert(sorted[p].created_at < k);
                }
            } else if i == p {
                assert(r[j] == sorted[j - 1]);
                if p < sorted.len() {
                    assert(sorted[p].created_at < k);
                    if j - 1 > p {
                        assert(sorted[p].created_at >= sorted[j - 1].created_at);
                    }
                }
            } else {
                assert(r[i] == sorted[i - 1]);
                assert(r[j] == sorted[j - 1]);
            }
        }
    }
}

/// A message marked deleted.
pub open spec fn marked_deleted(m: ChatMessage) -> ChatMessage {
    ChatMessage { is_deleted: true, ..m }
}

/// The messages with those of the stream `stream` marked deleted.
pub open spec fn cleared(s: Seq<ChatMessage>, stream: Seq<char>) -> Seq<ChatMessage> {
    s.map_values(
        |m: ChatMessage|
            if m.stream_id.0@ == stream {
                marked_deleted(m)
            } else {
                m
            },
    )
}

/// The identifier of an optional message, as text.
pub open spec fn id_view(id: Option<ChatMessageId>) -> Option<Seq<char>> {
    match id {
        Some(b) => Some(b.0@),
        None => None,
    }
}

/// The chat service.
pub struct DefaultChatService {
    messages: Vec<ChatMessage>,
    chats: Vec<StreamChat>,
    last_sent: Vec<LastSent>,
}

impl DefaultChatService {
    /// Every message written, in the order written.
    pub closed spec fn message_list(&self) -> Seq<ChatMessage> {
        self.messages@
    }

    /// The modes of a stream's chat, if any were ever set.
    pub closed spec fn mode_of(&self, stream: Seq<char>) -> Option<ChatMode> {
        match record_of(self.chats@, stream) {
            Some(c) => c.mode,
            None => None,
        }
    }

    /// The ban or timeout on record for a chatter in a stream.
    pub closed spec fn ban_of(&self, stream: Seq<char>, viewer: Seq<char>) -> Option<ModerationAction> {
        match record_of(self.chats@, stream) {
            Some(c) => record_of(c.bans@, viewer),
            None => None,
        }
    }

    /// The identifier of a stream's pinned message.
    pub closed spec fn pinned_of(&self, stream: Seq<char>) -> Option<Seq<char>> {
        match record_of(self.chats@, stream) {
            Some(c) => match c.pinned {
                Some(p) => Some(p@),
                None => None,
            },
            None => None,
        }
    }

    /// When a chatter last wrote.
    pub closed spec fn last_sent_of(&self, viewer: Seq<char>) -> Option<i64> {
        match record_of(self.last_sent@, viewer) {
            Some(l) => Some(l.at),
            None => None,
        }
    }

    /// Every stream's modes, bans and pinned message stay as they were.
    pub open spec fn same_moderation(&self, other: &DefaultChatService) -> bool {
        &&& forall|s: Seq<char>| #[trigger] self.mode_of(s) == other.mode_of(s)
        &&& forall|s: Seq<char>, v: Seq<char>| #[trigger] self.ban_of(s, v) == other.ban_of(s, v)
        &&& forall|s: Seq<char>| #[trigger] self.pinned_of(s) == other.pinned_of(s)
    }

    /// Messages and the times chatters last wrote stay as they were.
    pub open spec fn same_messages(&self, other: &DefaultChatService) -> bool {
        &&& self.message_list() == other.message_list()
        &&& forall|v: Seq<char>| #[trigger] self.last_sent_of(v) == other.last_sent_of(v)
    }

    /// Only the modes of the stream `stream` may differ.
    pub open spec fn only_modes_changed(&self, other: &DefaultChatService, stream: Seq<char>) -> bool {
        &&& self.same_messages(other)
        &&& forall|t: Seq<char>| t != stream ==> #[trigger] self.mode_of(t) == other.mode_of(t)
        &&& forall|t: Seq<char>, v: Seq<char>| #[trigger] self.ban_of(t, v) == other.ban_of(t, v)
        &&& forall|t: Seq<char>| #[trigger] self.pinned_of(t) == other.pinned_of(t)
    }

    /// Only the bans of the stream `stream` may differ.
    pub open spec fn only_bans_changed(&self, other: &DefaultChatService, stream: Seq<char>) -> bool {
        &&& self.same_messages(other)
        &&& forall|t: Seq<char>| #[trigger] self.mode_of(t) == other.mode_of(t)
        &&& forall|t: Seq<char>, v: Seq<char>| t != stream ==> #[trigger] self.ban_of(t, v) == other.ban_of(t, v)
        &&& forall|t: Seq<char>| #[trigger] self.pinned_of(t) == other.pinned_of(t)
    }

    /// Only the pinned message of the stream `stream` may differ.
    pub open spec fn only_pin_changed(&self, other: &DefaultChatService, stream: Seq<char>) -> bool {
        &&& self.same_messages(other)
        &&& forall|t: Seq<char>| #[trigger] self.mode_of(t) == other.mode_of(t)
        &&& forall|t: Seq<char>, v: Seq<char>| #[trigger] self.ban_of(t, v) == other.ban_of(t, v)
        &&& forall|t: Seq<char>| t != stream ==> #[trigger] self.pinned_of(t) == other.pinned_of(t)
    }

    /// What the admission of a message from `sender` to the stream
    /// `stream_id`, found as `stream`, depends on at the time `now`.
    pub open spec fn facts_for(
        &self,
        stream_id: Seq<char>,
        stream_live: bool,
        chat_enabled: bool,
        sender: Seq<char>,
        now: i64,
    ) -> ChatFacts {
        ChatFacts {
            stream_live,
            chat_enabled,
            restriction: match self.ban_of(stream_id, sender) {
                Some(a) => Some(
                    ChatRestriction {
                        action_type: a.action_type,
                        duration_seconds: a.duration_seconds,
                        elapsed_seconds: seconds_between(now, a.created_at),
                    },
                ),
                None => None,
            },
            seconds_since_last: match self.last_sent_of(sender) {
                Some(t) => Some(seconds_between(now, t)),
                None => None,
            },
            mode: self.mode_of(stream_id),
        }
    }

    /// How writing the message `message` at the time `now` under the
    /// identifier `id` ends, from this state to `after` with the result `r`,
    /// for a stream that is live when `live`, whose chat is on when
    /// `chat_enabled`, and whose broadcaster the sender follows when
    /// `follows`: the chat's verdict (see `chat_verdict`) refuses the
    /// message, or the message is stored and the sender's last message time
    /// becomes `now`.
    pub open spec fn send_outcome(
        &self,
        after: DefaultChatService,
        message: SendMessageRequest,
        stream: LiveStream,
        follows: bool,
        id: Seq<char>,
        now: i64,
        r: Result<ChatMessage, LiveStreamingError>,
    ) -> bool {
        match chat_verdict(
            self.facts_for(
                message.stream_id.0@,
                stream.status == StreamStatus::Live,
                stream.config.chat_enabled,
                message.sender_id.0@,
                now,
            ),
            encode_utf8(message.content@).len() as usize,
            follows,
        ) {
            Err(e) => r == Err::<ChatMessage, LiveStreamingError>(e) && after == *self,
            Ok(()) => {
                &&& r matches Ok(m) && is_sent_message(m, message, id, now)
                &&& exists|k: ChatMessage| #[trigger] is_sent_message(k, message, id, now)
                    && after.message_list() == stored(self.message_list(), k)
                &&& after.last_sent_of(message.sender_id.0@) == Some(now)
                &&& forall|v: Seq<char>| v != message.sender_id.0@ ==> #[trigger] after.last_sent_of(v)
                    == self.last_sent_of(v)
                &&& after.same_moderation(self)
            },
        }
    }

    /// A chat service with no message and no moderation.
    pub fn new() -> (s: DefaultChatService)
        ensures
            s.message_list().len() == 0,
            forall|t: Seq<char>| #[trigger] s.mode_of(t) is None,
            forall|t: Seq<char>, v: Seq<char>| #[trigger] s.ban_of(t, v) is None,
            forall|t: Seq<char>| #[trigger] s.pinned_of(t) is None,
            forall|v: Seq<char>| #[trigger] s.last_sent_of(v) is None,
    {
        let s = DefaultChatService { messages: Vec::new(), chats: Vec::new(), last_sent: Vec::new() };
        proof {
            assert forall|t: Seq<char>| #[trigger] s.mode_of(t) is None by {
                lemma_first_index(keys_of(s.chats@), t);
            }
            assert forall|t: Seq<char>, v: Seq<char>| #[trigger] s.ban_of(t, v) is None by {
                lemma_first_index(keys_of(s.chats@), t);
            }
            assert forall|t: Seq<char>| #[trigger] s.pinned_of(t) is None by {
                lemma_first_index(keys_of(s.chats@), t);
            }
            assert forall|v: Seq<char>| #[trigger] s.last_sent_of(v) is None by {
                lemma_first_index(keys_of(s.last_sent@), v);
            }
        }
        s
    }

    /// Takes a stream's moderation record out, or a fresh one where the
    /// stream has none.
    fn take_chat(&mut self, stream_id: &StreamId) -> (r: (Option<usize>, StreamChat))
        ensures
            final(self).messages@ == old(self).messages@,
            final(self).last_sent@ == old(self).last_sent@,
            r.1.stream_id@ == stream_id.0@,
            match r.0 {
                Some(i) => i < old(self).chats@.len() && first_index(keys_of(old(self).chats@), stream_id.0@) == Some(
                    i as int,
                ) && r.1
                    == old(self).chats@[i as int] && final(self).chats@ == old(self).chats@.remove(i as int),
                None => first_index(keys_of(old(self).chats@), stream_id.0@) is None && r.1.mode is None
                    && r.1.bans@.len() == 0 && r.1.pinned is None && final(self).chats@ == old(self).chats@,
            },
    {
        match position(&self.chats, stream_id.0.as_str()) {
            Some(i) => {
                proof {
                    lemma_first_index(keys_of(self.chats@), stream_id.0@);
                    assert(keys_of(self.chats@)[i as int] == self.chats@[i as int].key_view());
                }
                let c = self.chats.remove(i);
                (Some(i), c)
            },
            None => (None, StreamChat { stream_id: stream_id.0.clone(), mode: None, bans: Vec::new(), pinned: None }),
        }
    }

    /// Puts a stream's moderation record back where `take_chat` found it,
    /// or adds it where the stream had none.
    fn put_chat(&mut self, slot: Option<usize>, chat: StreamChat)
        requires
            slot matches Some(i) ==> i <= old(self).chats@.len(),
        ensures
            final(self).messages@ == old(self).messages@,
            final(self).last_sent@ == old(self).last_sent@,
            final(self).chats@ == match slot {
                Some(i) => old(self).chats@.insert(i as int, chat),
                None => old(self).chats@.push(chat),
            },
    {
        match slot {
            Some(i) => {
                self.chats.insert(i, chat);
            },
            None => {
                self.chats.push(chat);
            },
        }
    }

    /// Changes one stream's moderation record; every other stream's record,
    /// the messages and the times chatters last wrote stay as they were.
    fn update_chat(&mut self, stream_id: &StreamId, change: ChatChange)
        ensures
            final(self).same_messages(old(self)),
            final(self).mode_of(stream_id.0@) == modes_after(old(self).mode_of(stream_id.0@), change),
            final(self).pinned_of(stream_id.0@) == pinned_after(old(self).pinned_of(stream_id.0@), change),
            forall|v: Seq<char>| #[trigger] final(self).ban_of(stream_id.0@, v) == ban_after(
                old(self).ban_of(stream_id.0@, v),
                v,
                change,
            ),
            forall|t: Seq<char>| t != stream_id.0@ ==> #[trigger] final(self).mode_of(t) == old(self).mode_of(t),
            forall|t: Seq<char>| t != stream_id.0@ ==> #[trigger] final(self).pinned_of(t) == old(self).pinned_of(t),
            forall|t: Seq<char>, v: Seq<char>| t != stream_id.0@ ==> #[trigger] final(self).ban_of(t, v) == old(
                self,
            ).ban_of(t, v),
    {
        let ghost before = self.chats@;
        let (slot, mut c) = self.take_chat(stream_id);
        let ghost c0 = c;
        proof {
            if slot is None {
                assert(keys_of(c0.bans@) =~= Seq::<Seq<char>>::empty());
                assert forall|v: Seq<char>| #[trigger] record_of(c0.bans@, v) is None by {
                    lemma_first_index(keys_of(c0.bans@), v);
                }
            }
        }
        match change {
            ChatChange::Mode(mc, create) => {
                match c.mode {
                    Some(m) => {
                        c.mode = Some(change_mode(m, mc));
                    },
                    None => {
                        if create {
                            c.mode = Some(change_mode(ChatMode::default(), mc));
                        }
                    },
                }
            },
            ChatChange::Ban(a) => {
                proof {
                    assert forall|v: Seq<char>| #[trigger] record_of(stored(c0.bans@, a), v) == (if a.key_view() == v {
                        Some(a)
                    } else {
                        record_of(c0.bans@, v)
                    }) by {
                        law_stored_record_found(c0.bans@, a, v);
                    }
                }
                store(&mut c.bans, a);
            },
            ChatChange::Unban(w) => {
                proof {
                    assert forall|v: Seq<char>| #[trigger] record_of(without_key(c0.bans@, w@), v) == (if v == w@ {
                        None
                    } else {
                        record_of(c0.bans@, v)
                    }) by {
                        lemma_without_key(c0.bans@, w@, v);
                    }
                }
                remove_keyed(&mut c.bans, w.as_str());
            },
            ChatChange::Pin(p) => {
                c.pinned = p;
            },
        }
        let ghost c1 = c;
        self.put_chat(slot, c);
        proof {
            match slot {
                Some(i) => {
                    assert(self.chats@ =~= before.update(i as int, c1));
                },
                None => {},
            }
            assert(self.chats@ == stored(before, c1));
            assert forall|t: Seq<char>| #[trigger] record_of(self.chats@, t) == (if t == stream_id.0@ {
                Some(c1)
            } else {
                record_of(before, t)
            }) by {
                law_stored_record_found(before, c1, t);
            }
            match slot {
                Some(i) => {
                    lemma_first_index(keys_of(before), stream_id.0@);
                    assert(record_of(before, stream_id.0@) == Some(c0));
                },
                None => {
                    assert(record_of(before, stream_id.0@) is None);
                },
            }
        }
    }

    /// Makes chatters wait `delay_seconds` between two messages.
    pub fn enable_slow_mode(&mut self, stream_id: &StreamId, delay_seconds: u32) -> (r: Result<(), LiveStreamingError>)
        ensures
            r is Ok,
            final(self).mode_of(stream_id.0@) == modes_set(old(self).mode_of(stream_id.0@), |m: ChatMode| with_slow_mode(m, Some(delay_seconds))),
            final(self).only_modes_changed(old(self), stream_id.0@),
    {
        self.update_chat(stream_id, ChatChange::Mode(ModeChange::Slow(Some(delay_seconds)), true));
        Ok(())
    }

    /// Ends slow mode.
    pub fn disable_slow_mode(&mut self, stream_id: &StreamId) -> (r: Result<(), LiveStreamingError>)
        ensures
            r is Ok,
            final(self).mode_of(stream_id.0@) == modes_cleared(old(self).mode_of(stream_id.0@), |m: ChatMode| with_slow_mode(m, None)),
            final(self).only_modes_changed(old(self), stream_id.0@),
    {
        self.update_chat(stream_id, ChatChange::Mode(ModeChange::Slow(None), false));
        Ok(())
    }

    /// Lets only followers write.
    pub fn enable_followers_only(&mut self, stream_id: &StreamId, min_follow_time_minutes: u32) -> (r: Result<(), LiveStreamingError>)
        ensures
            r is Ok,
            final(self).mode_of(stream_id.0@) == modes_set(old(self).mode_of(stream_id.0@), |m: ChatMode| with_followers_only(m, Some(min_follow_time_minutes))),
            final(self).only_modes_changed(old(self), stream_id.0@),
    {
        self.update_chat(stream_id, ChatChange::Mode(ModeChange::FollowersOnly(Some(min_follow_time_minutes)), true));
        Ok(())
    }

    /// Lets everyone write again.
    pub fn disable_followers_only(&mut self, stream_id: &StreamId) -> (r: Result<(), LiveStreamingError>)
        ensures
            r is Ok,
            final(self).mode_of(stream_id.0@) == modes_cleared(old(self).mode_of(stream_id.0@), |m: ChatMode| with_followers_only(m, None)),
            final(self).only_modes_changed(old(self), stream_id.0@),
    {
        self.update_chat(stream_id, ChatChange::Mode(ModeChange::FollowersOnly(None), false));
        Ok(())
    }

    /// Lets only subscribers write.
    pub fn enable_subscribers_only(&mut self, stream_id: &StreamId) -> (r: Result<(), LiveStreamingError>)
        ensures
            r is Ok,
            final(self).mode_of(stream_id.0@) == modes_set(old(self).mode_of(stream_id.0@), |m: ChatMode| with_subscribers_only(m, true)),
            final(self).only_modes_changed(old(self), stream_id.0@),
    {
        self.update_chat(stream_id, ChatChange::Mode(ModeChange::SubscribersOnly(true), true));
        Ok(())
    }

    /// Ends subscribers-only mode.
    pub fn disable_subscribers_only(&mut self, stream_id: &StreamId) -> (r: Result<(), LiveStreamingError>)
        ensures
            r is Ok,
            final(self).mode_of(stream_id.0@) == modes_cleared(old(self).mode_of(stream_id.0@), |m: ChatMode| with_subscribers_only(m, false)),
            final(self).only_modes_changed(old(self), stream_id.0@),
    {
        self.update_chat(stream_id, ChatChange::Mode(ModeChange::SubscribersOnly(false), false));
        Ok(())
    }

    /// Lets chatters write emotes only.
    pub fn enable_emote_only(&mut self, stream_id: &StreamId) -> (r: Result<(), LiveStreamingError>)
        ensures
            r is Ok,
            final(self).mode_of(stream_id.0@) == modes_set(old(self).mode_of(stream_id.0@), |m: ChatMode| with_emote_only(m, true)),
            final(self).only_modes_changed(old(self), stream_id.0@),
    {
        self.update_chat(stream_id, ChatChange::Mode(ModeChange::EmoteOnly(true), true));
        Ok(())
    }

    /// Ends emote-only mode.
    pub fn disable_emote_only(&mut self, stream_id: &StreamId) -> (r: Result<(), LiveStreamingError>)
        ensures
            r is Ok,
            final(self).mode_of(stream_id.0@) == modes_cleared(old(self).mode_of(stream_id.0@), |m: ChatMode| with_emote_only(m, false)),
            final(self).only_modes_changed(old(self), stream_id.0@),
    {
        self.update_chat(stream_id, ChatChange::Mode(ModeChange::EmoteOnly(false), false));
        Ok(())
    }

    /// Pins a message to a stream's chat.
    pub fn pin_message(&mut self, stream_id: &StreamId, message_id: &ChatMessageId) -> (r: Result<
        (),
        LiveStreamingError,
    >)
        ensures
            record_of(old(self).message_list(), message_id.0@) is None ==> (r matches Err(e) && is_missing_message(e))
                && *final(self) == *old(self),
            record_of(old(self).message_list(), message_id.0@) is Some ==> r is Ok && final(self).pinned_of(
                stream_id.0@,
            ) == Some(message_id.0@) && final(self).only_pin_changed(old(self), stream_id.0@),
    {
        match position(&self.messages, message_id.0.as_str()) {
            None => Err(missing_message()),
            Some(_) => {
                self.update_chat(stream_id, ChatChange::Pin(Some(message_id.0.clone())));
                Ok(())
            },
        }
    }

    /// Unpins a stream's pinned message.
    pub fn unpin_message(&mut self, stream_id: &StreamId) -> (r: Result<(), LiveStreamingError>)
        ensures
            r is Ok,
            final(self).pinned_of(stream_id.0@) is None,
            final(self).only_pin_changed(old(self), stream_id.0@),
    {
        self.update_chat(stream_id, ChatChange::Pin(None));
        Ok(())
    }

    /// The message pinned to a stream's chat, if any.
    pub fn get_pinned_message(&self, stream_id: &StreamId) -> (r: Result<Option<&ChatMessage>, LiveStreamingError>)
        ensures
            r matches Ok(p) && p == match self.pinned_of(stream_id.0@) {
                Some(id) => match record_of(self.message_list(), id) {
                    Some(m) => Some(&m),
                    None => None,
                },
                None => None,
            },
    {
        match position(&self.chats, stream_id.0.as_str()) {
            None => Ok(None),
            Some(i) => {
                proof {
                    lemma_first_index(keys_of(self.chats@), stream_id.0@);
                }
                match &self.chats[i].pinned {
                    None => Ok(None),
                    Some(id) => match position(&self.messages, id.as_str()) {
                        None => Ok(None),
                        Some(k) => Ok(Some(&self.messages[k])),
                    },
                }
            },
        }
    }

    /// The profiles of a moderation's target and moderator.
    fn lookup_pair<'a>(&self, target: &ViewerId, moderator: &ViewerId, viewers: &'a DefaultViewerService) -> (r: Result<
        (&'a ViewerProfile, &'a ViewerProfile),
        LiveStreamingError,
    >)
        ensures
            match moderation_lookup(viewers, target.0@, moderator.0@) {
                Err(id) => r matches Err(e) && is_viewer_missing(e, id),
                Ok((t, m)) => r matches Ok(p) && *p.0 == t && *p.1 == m,
            },
    {
        let t = match viewers.get_viewer(target) {
            Ok(t) => t,
            Err(e) => {
                return Err(e);
            },
        };
        let m = match viewers.get_viewer(moderator) {
            Ok(m) => m,
            Err(e) => {
                return Err(e);
            },
        };
        Ok((t, m))
    }

    /// Bans a chatter from a stream's chat at the time `now`.
    pub fn ban_user_at(
        &mut self,
        stream_id: &StreamId,
        target: &ViewerId,
        moderator: &ViewerId, reason: Option<String>,
        viewers: &DefaultViewerService,
        now: i64,
    ) -> (r: Result<ModerationAction, LiveStreamingError>)
        ensures
            match moderation_lookup(viewers, target.0@, moderator.0@) {
                Err(id) => (r matches Err(e) && is_viewer_missing(e, id)) && *final(self) == *old(self),
                Ok((t, m)) => r matches Ok(a) && is_action_on(a, ModerationActionType::Ban, target.0@, t, moderator.0@, m, reason, None, now)
                    && final(self).ban_of(stream_id.0@, target.0@) == Some(a) && final(self).only_bans_changed(old(self), stream_id.0@)
                    && forall|v: Seq<char>| v != target.0@ ==> #[trigger] final(self).ban_of(stream_id.0@, v) == old(self).ban_of(
                    stream_id.0@,
                    v,
                ),
            },
    {
        let (t, m) = match self.lookup_pair(target, moderator, viewers) {
            Ok(p) => p,
            Err(e) => {
                return Err(e);
            },
        };
        let action = ModerationAction {
            action_type: ModerationActionType::Ban,
            target_user_id: ViewerId(target.0.clone()),
            target_username: t.display_name.clone(),
            moderator_id: ViewerId(moderator.0.clone()),
            moderator_name: m.display_name.clone(),
            reason: reason,
            duration_seconds: None,
            created_at: now,
        };
        self.update_chat(stream_id, ChatChange::Ban(copy_action(&action)));
        Ok(action)
    }

    /// Lifts a chatter's ban or timeout in a stream's chat at the time `now`.
    pub fn unban_user_at(
        &mut self,
        stream_id: &StreamId,
        target: &ViewerId,
        moderator: &ViewerId,
        viewers: &DefaultViewerService,
        now: i64,
    ) -> (r: Result<ModerationAction, LiveStreamingError>)
        ensures
            match moderation_lookup(viewers, target.0@, moderator.0@) {
                Err(id) => (r matches Err(e) && is_viewer_missing(e, id)) && *final(self) == *old(self),
                Ok((t, m)) => r matches Ok(a) && is_action_on(a, ModerationActionType::Unban, target.0@, t, moderator.0@, m, None, None, now)
                    && final(self).ban_of(stream_id.0@, target.0@) is None && final(self).only_bans_changed(old(self), stream_id.0@)
                    && forall|v: Seq<char>| v != target.0@ ==> #[trigger] final(self).ban_of(stream_id.0@, v) == old(self).ban_of(
                    stream_id.0@,
                    v,
                ),
            },
    {
        let (t, m) = match self.lookup_pair(target, moderator, viewers) {
            Ok(p) => p,
            Err(e) => {
                return Err(e);
            },
        };
        let action = ModerationAction {
            action_type: ModerationActionType::Unban,
            target_user_id: ViewerId(target.0.clone()),
            target_username: t.display_name.clone(),
            moderator_id: ViewerId(moderator.0.clone()),
            moderator_name: m.display_name.clone(),
            reason: None,
            duration_seconds: None,
            created_at: now,
        };
        self.update_chat(stream_id, ChatChange::Unban(target.0.clone()));
        Ok(action)
    }

    /// Silences a chatter in a stream's chat for `duration_seconds` from the time `now`.
    pub fn timeout_user_at(
        &mut self,
        stream_id: &StreamId,
        target: &ViewerId,
        moderator: &ViewerId, duration_seconds: u32, reason: Option<String>,
        viewers: &DefaultViewerService,
        now: i64,
    ) -> (r: Result<ModerationAction, LiveStreamingError>)
        ensures
            match moderation_lookup(viewers, target.0@, moderator.0@) {
                Err(id) => (r matches Err(e) && is_viewer_missing(e, id)) && *final(self) == *old(self),
                Ok((t, m)) => r matches Ok(a) && is_action_on(a, ModerationActionType::Timeout, target.0@, t, moderator.0@, m, reason, Some(duration_seconds), now)
                    && final(self).ban_of(stream_id.0@, target.0@) == Some(a) && final(self).only_bans_changed(old(self), stream_id.0@)
                    && forall|v: Seq<char>| v != target.0@ ==> #[trigger] final(self).ban_of(stream_id.0@, v) == old(self).ban_of(
                    stream_id.0@,
                    v,
                ),
            },
    {
        let (t, m) = match self.lookup_pair(target, moderator, viewers) {
            Ok(p) => p,
            Err(e) => {
                return Err(e);
            },
        };
        let action = ModerationAction {
            action_type: ModerationActionType::Timeout,
            target_user_id: ViewerId(target.0.clone()),
            target_username: t.display_name.clone(),
            moderator_id: ViewerId(moderator.0.clone()),
            moderator_name: m.display_name.clone(),
            reason: reason,
            duration_seconds: Some(duration_seconds),
            created_at: now,
        };
        self.update_chat(stream_id, ChatChange::Ban(copy_action(&action)));
        Ok(action)
    }

    /// What the admission of a message from `sender` to a stream depends on
    /// (see `facts_for`).
    fn facts_at(&self, stream_id: &StreamId, stream_live: bool, chat_enabled: bool, sender: &ViewerId, now: i64) -> (r:
        ChatFacts)
        ensures
            r == self.facts_for(stream_id.0@, stream_live, chat_enabled, sender.0@, now),
    {
        let mut restriction: Option<ChatRestriction> = None;
        let mut mode: Option<ChatMode> = None;
        match position(&self.chats, stream_id.0.as_str()) {
            None => {},
            Some(i) => {
                proof {
                    lemma_first_index(keys_of(self.chats@), stream_id.0@);
                }
                let chat = &self.chats[i];
                mode = chat.mode;
                match position(&chat.bans, sender.0.as_str()) {
                    None => {},
                    Some(k) => {
                        proof {
                            lemma_first_index(keys_of(chat.bans@), sender.0@);
                        }
                        let a = &chat.bans[k];
                        restriction = Some(
                            ChatRestriction {
                                action_type: a.action_type,
                                duration_seconds: a.duration_seconds,
                                elapsed_seconds: elapsed_seconds(now, a.created_at),
                            },
                        );
                    },
                }
            },
        }
        let seconds_since_last = match position(&self.last_sent, sender.0.as_str()) {
            None => None,
            Some(j) => {
                proof {
                    lemma_first_index(keys_of(self.last_sent@), sender.0@);
                }
                Some(elapsed_seconds(now, self.last_sent[j].at))
            },
        };
        ChatFacts { stream_live, chat_enabled, restriction, seconds_since_last, mode }
    }

    /// Writes a message to a stream's chat at the time `now` under the
    /// identifier `id`, where the stream is there and its chat admits the
    /// message (see `chat_verdict`); the chatter's last message time becomes
    /// `now`.
    pub fn send_message_at(
        &mut self,
        message: SendMessageRequest,
        broadcasters: &DefaultBroadcasterService,
        viewers: &DefaultViewerService,
        id: ChatMessageId,
        now: i64,
    ) -> (r: Result<ChatMessage, LiveStreamingError>)
        ensures
            match record_of(broadcasters.stream_list(), message.stream_id.0@) {
                None => (r matches Err(e) && is_stream_missing(e, message.stream_id.0@)) && *final(self) == *old(self),
                Some(s) => old(self).send_outcome(
                    *final(self),
                    message,
                    s,
                    viewers.followed(message.sender_id.0@).contains(s.broadcaster_id.0@),
                    id.0@,
                    now,
                    r,
                ),
            },
    {
        let stream = match broadcasters.get_stream(&message.stream_id) {
            Ok(s) => s,
            Err(e) => {
                return Err(e);
            },
        };
        let live = stream.status == StreamStatus::Live;
        let facts = self.facts_at(&message.stream_id, live, stream.config.chat_enabled, &message.sender_id, now);
        let ghost len = encode_utf8(message.content@).len() as usize;
        let ghost follows = viewers.followed(message.sender_id.0@).contains(stream.broadcaster_id.0@);
        proof {
            law_two_step_admission(facts, len, follows);
        }
        match screen_chat_message(&facts, message.content.as_str()) {
            Err(e) => {
                return Err(e);
            },
            Ok(ChatGate::Admit) => {},
            Ok(ChatGate::NeedFollowerCheck) => {
                let is_follower = match viewers.is_following(&message.sender_id, &stream.broadcaster_id) {
                    Ok(b) => b,
                    Err(e) => {
                        return Err(e);
                    },
                };
                match facts.mode {
                    Some(m) => match follower_verdict(&m, is_follower) {
                        Err(e) => {
                            return Err(e);
                        },
                        Ok(()) => {},
                    },
                    None => {},
                }
            },
        }
        let kept = ChatMessage {
            id: ChatMessageId(id.0.clone()),
            stream_id: StreamId(message.stream_id.0.clone()),
            sender_id: ViewerId(message.sender_id.0.clone()),
            sender_name: message.sender_name.clone(),
            content: message.content.clone(),
            created_at: now,
            message_type: ChatMessageType::Text,
            badges: copy_badges(&message.badges),
            emotes: Vec::new(),
            is_deleted: false,
            deleted_by: None,
            reply_to: None,
            is_highlighted: false,
            color: copy_opt_string(&message.color),
        };
        let ghost request = message;
        assert(is_sent_message(kept, request, id.0@, now));
        let ghost before_messages = self.messages@;
        store(&mut self.messages, kept);
        let ghost before_last = self.last_sent@;
        let entry = LastSent { viewer_id: message.sender_id.0.clone(), at: now };
        store(&mut self.last_sent, entry);
        proof {
            assert forall|v: Seq<char>| #[trigger] record_of(self.last_sent@, v) == (if v == message.sender_id.0@ {
                Some(entry)
            } else {
                record_of(before_last, v)
            }) by {
                law_stored_record_found(before_last, entry, v);
            }
        }
        let sent = ChatMessage {
            id,
            stream_id: message.stream_id,
            sender_id: message.sender_id,
            sender_name: message.sender_name,
            content: message.content,
            created_at: now,
            message_type: ChatMessageType::Text,
            badges: message.badges,
            emotes: Vec::new(),
            is_deleted: false,
            deleted_by: None,
            reply_to: None,
            is_highlighted: false,
            color: message.color,
        };
        Ok(sent)
    }

    /// Writes a message to a stream's chat now, under a fresh random
    /// identifier (see `send_message_at`).
    pub fn send_message(
        &mut self,
        message: SendMessageRequest,
        broadcasters: &DefaultBroadcasterService,
        viewers: &DefaultViewerService,
    ) -> (r: Result<ChatMessage, LiveStreamingError>)
        ensures
            match record_of(broadcasters.stream_list(), message.stream_id.0@) {
                None => (r matches Err(e) && is_stream_missing(e, message.stream_id.0@)) && *final(self) == *old(self),
                Some(s) => exists|id: Seq<char>, now: i64|
                    id.len() == 36 && #[trigger] old(self).send_outcome(
                        *final(self),
                        message,
                        s,
                        viewers.followed(message.sender_id.0@).contains(s.broadcaster_id.0@),
                        id,
                        now,
                        r,
                    ),
            },
    {
        let id = ChatMessageId::new();
        let now = utc_now_millis();
        self.send_message_at(message, broadcasters, viewers, id, now)
    }

    /// A stream's messages that are not deleted, from the newest to the
    /// oldest; after the message `before` where it is among them; at most
    /// `limit` of them.
    pub fn get_messages(&self, stream_id: &StreamId, limit: usize, before: Option<ChatMessageId>) -> (r: Result<
        Vec<&ChatMessage>,
        LiveStreamingError,
    >)
        ensures
            r matches Ok(v) && v@.map_values(|x: &ChatMessage| *x) == first_n(
                after_message(newest_first(visible_in(self.message_list(), stream_id.0@)), id_view(before)),
                limit as int,
            ),
    {
        let mut sorted: Vec<&ChatMessage> = Vec::new();
        let mut i: usize = 0;
        while i < self.messages.len()
            invariant
                i <= self.messages@.len(),
                sorted@.map_values(|x: &ChatMessage| *x) == newest_first(visible_in(self.messages@.take(i as int), stream_id.0@)),
            decreases self.messages.len() - i,
        {
            let ghost prev = sorted@.map_values(|x: &ChatMessage| *x);
            assert(self.messages@.take(i + 1).drop_last() =~= self.messages@.take(i as int));
            assert(self.messages@.take(i + 1).last() == self.messages@[i as int]);
            let m = &self.messages[i];
            if strings_equal(&m.stream_id.0, &stream_id.0) && !m.is_deleted {
                let k = m.created_at;
                let mut j: usize = 0;
                assert(prev.skip(0) =~= prev);
                while j < sorted.len() && sorted[j].created_at >= k
                    invariant
                        j <= sorted@.len(),
                        prev == sorted@.map_values(|x: &ChatMessage| *x),
                        first_older(prev, k) == first_older(prev.skip(j as int), k) + j,
                    decreases sorted.len() - j,
                {
                    assert(prev.skip(j as int).drop_first() =~= prev.skip(j + 1));
                    assert(prev.skip(j as int)[0] == prev[j as int]);
                    j = j + 1;
                }
                proof {
                    if j < sorted@.len() {
                        assert(prev.skip(j as int)[0] == prev[j as int]);
                    } else {
                        assert(prev.skip(j as int) =~= Seq::<ChatMessage>::empty());
                    }
                }
                sorted.insert(j, m);
                assert(sorted@.map_values(|x: &ChatMessage| *x) =~= prev.insert(j as int, *m));
                proof {
                    let p = visible_in(self.messages@.take(i as int), stream_id.0@);
                    assert(p.push(*m).drop_last() =~= p);
                }
            }
            i = i + 1;
        }
        assert(self.messages@.take(self.messages@.len() as int) =~= self.messages@);
        let ghost all = sorted@.map_values(|x: &ChatMessage| *x);
        let mut start: usize = 0;
        match &before {
            None => {},
            Some(b) => {
                let mut j: usize = 0;
                let mut found = false;
                while j < sorted.len() && !found
                    invariant
                        j <= sorted@.len(),
                        all == sorted@.map_values(|x: &ChatMessage| *x),
                        !found ==> forall|k: int| 0 <= k < j ==> keys_of(all)[k] != b.0@,
                        found ==> 0 < j <= sorted@.len() && keys_of(all)[j - 1] == b.0@ && forall|k: int|
                            0 <= k < j - 1 ==> keys_of(all)[k] != b.0@,
                        found ==> start == j,
                        !found ==> start == 0,
                    decreases sorted.len() - j + (if found { 0int } else { 1int }),
                {
                    if strings_equal(&sorted[j].id.0, &b.0) {
                        found = true;
                        start = j + 1;
                    }
                    j = j + 1;
                }
                proof {
                    if found {
                        lemma_first_index_at(keys_of(all), b.0@, start - 1);
                    } else {
                        lemma_first_index(keys_of(all), b.0@);
                    }
                    assert(after_message(all, id_view(before)) =~= all.skip(start as int));
                }
            },
        }
        let ghost rest = after_message(all, id_view(before));
        assert(rest =~= all.skip(start as int));
        let end: usize = if limit < sorted.len() - start {
            start + limit
        } else {
            sorted.len()
        };
        let mut out: Vec<&ChatMessage> = Vec::new();
        let mut k: usize = start;
        while k < end
            invariant
                start <= k <= end <= sorted@.len(),
                all == sorted@.map_values(|x: &ChatMessage| *x),
                out@.map_values(|x: &ChatMessage| *x) == all.subrange(start as int, k as int),
            decreases end - k,
        {
            let ghost prev = out@.map_values(|x: &ChatMessage| *x);
            out.push(sorted[k]);
            assert(out@.map_values(|x: &ChatMessage| *x) =~= prev.push(all[k as int]));
            assert(all.subrange(start as int, k + 1) =~= all.subrange(start as int, k as int).push(all[k as int]));
            k = k + 1;
        }
        assert(first_n(rest, limit as int) =~= all.subrange(start as int, end as int));
        Ok(out)
    }

    /// Marks a message deleted, naming who deleted it.
    pub fn delete_message(
        &mut self,
        stream_id: &StreamId,
        message_id: &ChatMessageId,
        deleted_by: &ViewerId,
        viewers: &DefaultViewerService,
    ) -> (r: Result<(), LiveStreamingError>)
        ensures
            match first_index(keys_of(old(self).message_list()), message_id.0@) {
                None => (r matches Err(e) && is_missing_message(e)) && *final(self) == *old(self),
                Some(i) => match record_of(viewers.profiles(), deleted_by.0@) {
                    None => (r matches Err(e) && is_viewer_missing(e, deleted_by.0@)) && *final(self) == *old(self),
                    Some(p) => r is Ok && final(self).message_list() == old(self).message_list().update(
                        i,
                        ChatMessage {
                            is_deleted: true,
                            deleted_by: Some(p.display_name),
                            ..old(self).message_list()[i]
                        },
                    ) && final(self).same_moderation(old(self)) && forall|v: Seq<char>| #[trigger] final(self).last_sent_of(v) == old(self).last_sent_of(v),
                },
            },
    {
        let i = match position(&self.messages, message_id.0.as_str()) {
            Some(i) => i,
            None => {
                return Err(missing_message());
            },
        };
        let deleter = match viewers.get_viewer(deleted_by) {
            Ok(p) => p,
            Err(e) => {
                return Err(e);
            },
        };
        let ghost before = self.messages@;
        let mut m = self.messages.remove(i);
        m.is_deleted = true;
        m.deleted_by = Some(deleter.display_name.clone());
        self.messages.insert(i, m);
        assert(self.messages@ =~= before.update(i as int, m));
        Ok(())
    }

    /// Marks every message of a stream deleted.
    pub fn clear_chat(&mut self, stream_id: &StreamId, cleared_by: &ViewerId) -> (r: Result<(), LiveStreamingError>)
        ensures
            r is Ok,
            final(self).message_list() == cleared(old(self).message_list(), stream_id.0@),
            final(self).same_moderation(old(self)),
            forall|v: Seq<char>| #[trigger] final(self).last_sent_of(v) == old(self).last_sent_of(v),
    {
        let ghost all = self.messages@;
        let mut i: usize = 0;
        while i < self.messages.len()
            invariant
                i <= self.messages@.len(),
                self.messages@.len() == all.len(),
                forall|j: int| 0 <= j < i ==> #[trigger] self.messages@[j] == cleared(all, stream_id.0@)[j],
                forall|j: int| i <= j < all.len() ==> #[trigger] self.messages@[j] == all[j],
                self.chats@ == old(self).chats@,
                self.last_sent@ == old(self).last_sent@,
            decreases self.messages.len() - i,
        {
            if strings_equal(&self.messages[i].stream_id.0, &stream_id.0) {
                let ghost before = self.messages@;
                let mut m = self.messages.remove(i);
                m.is_deleted = true;
                self.messages.insert(i, m);
                assert(self.messages@ =~= before.update(i as int, m));
            }
            i = i + 1;
        }
        assert(self.messages@ =~= cleared(all, stream_id.0@));
        Ok(())
    }
}

/// A chatter banned from a live stream's open chat is refused every
/// message.
pub proof fn law_banned_sender_refused(
    chat: DefaultChatService,
    stream: Seq<char>,
    sender: Seq<char>,
    now: i64,
    content_len: usize,
    follows: bool,
)
    requires
        chat.ban_of(stream, sender) matches Some(a) && a.action_type == ModerationActionType::Ban,
    ensures
        chat_verdict(chat.facts_for(stream, true, true, sender, now), content_len, follows) == Err::<
            (),
            LiveStreamingError,
        >(LiveStreamingError::UserBanned),
{
}

/// After a message is written in slow mode, a second message from the same
/// chatter at the same time is refused for the whole delay.
pub proof fn law_slow_mode_holds_back_resend(
    before: DefaultChatService,
    after: DefaultChatService,
    message: SendMessageRequest,
    stream: LiveStream,
    follows: bool,
    id: Seq<char>,
    now: i64,
    r: Result<ChatMessage, LiveStreamingError>,
    content_len: usize,
)
    requires
        before.send_outcome(after, message, stream, follows, id, now, r),
        r is Ok,
        after.mode_of(message.stream_id.0@) matches Some(m) && m.slow_mode matches Some(d) && d > 0,
        after.ban_of(message.stream_id.0@, message.sender_id.0@) is None,
    ensures
        after.mode_of(message.stream_id.0@) matches Some(m) && m.slow_mode matches Some(d) && chat_verdict(
            after.facts_for(message.stream_id.0@, true, true, message.sender_id.0@, now),
            content_len,
            follows,
        ) == Err::<(), LiveStreamingError>(LiveStreamingError::SlowModeActive(d)),
{
    assert(seconds_between(now, now) == 0) by (bit_vector);
}

/// After a stream's chat is cleared, none of its messages is shown.
pub proof fn law_cleared_chat_shows_nothing(s: Seq<ChatMessage>, stream: Seq<char>)
    ensures
        visible_in(cleared(s, stream), stream).len() == 0,
    decreases s.len(),
{
    if s.len() > 0 {
        assert(cleared(s, stream).drop_last() =~= cleared(s.drop_last(), stream));
        law_cleared_chat_shows_nothing(s.drop_last(), stream);
    }
}

} // verus!
