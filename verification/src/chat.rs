//! Admission of a chat message to a live stream: the checks a message passes
//! before it is stored, in the order in which they are made.
//!
//! The follower check asks another service, so admission is split in two
//! steps: `screen_chat_message` makes every check that needs no answer from
//! outside and says whether the follower question has to be asked, and
//! `follower_verdict` finishes with the answer.

use vstd::prelude::*;
use vstd::string::StringSliceAdditionalSpecFns;

use crate::live_streaming::LiveStreamingError;
use crate::stream_types::ModerationActionType;

verus! {

/// Longest chat message, in bytes.
pub const MAX_CHAT_MESSAGE_BYTES: usize = 500;

/// Moderation modes of a stream's chat.
#[derive(Debug, Clone, Copy, PartialEq, Eq, Structural)]
pub struct ChatMode {
    /// Seconds a viewer waits between two messages
    pub slow_mode: Option<u32>,
    /// Minimum follow time in minutes, when only followers may write
    pub followers_only: Option<u32>,
    pub subscribers_only: bool,
    pub emote_only: bool,
}

impl Default for ChatMode {
    fn default() -> (m: ChatMode)
        ensures
            m.slow_mode is None,
            m.followers_only is None,
            !m.subscribers_only,
            !m.emote_only,
    {
        ChatMode { slow_mode: None, followers_only: None, subscribers_only: false, emote_only: false }
    }
}

/// The moderation action on record for a viewer in a stream's chat.
#[derive(Debug, Clone, Copy, PartialEq, Eq, Structural)]
pub struct ChatRestriction {
    pub action_type: ModerationActionType,
    /// Length of a timeout, in seconds
    pub duration_seconds: Option<u32>,
    /// Seconds since the action was taken
    pub elapsed_seconds: u32,
}

/// What a message's admission depends on, besides its text and the follower
/// question.
#[derive(Debug, Clone, Copy, PartialEq, Eq, Structural)]
pub struct ChatFacts {
    pub stream_live: bool,
    pub chat_enabled: bool,
    /// The action on record for the sender in this stream, if any
    pub restriction: Option<ChatRestriction>,
    /// Seconds since the sender's last message, if the sender wrote before
    pub seconds_since_last: Option<u32>,
    /// The stream's chat modes, if any were ever set
    pub mode: Option<ChatMode>,
}

/// Whether admission still waits for the follower question.
#[derive(Debug, Clone, Copy, PartialEq, Eq, Structural)]
pub enum ChatGate {
    Admit,
    NeedFollowerCheck,
}

/// A ban refuses every message; a timeout refuses them until its duration
/// has passed, naming the seconds left.
pub open spec fn restriction_verdict(r: Option<ChatRestriction>) -> Result<(), LiveStreamingError> {
    match r {
        None => Ok(()),
        Some(r) => if r.action_type == ModerationActionType::Ban {
            Err(LiveStreamingError::UserBanned)
        } else {
            match r.duration_seconds {
                Some(d) => if r.elapsed_seconds < d {
                    Err(LiveStreamingError::UserTimeout((d - r.elapsed_seconds) as u32))
                } else {
                    Ok(())
                },
                None => Ok(()),
            }
        },
    }
}

/// In slow mode a viewer who wrote less than the delay ago is refused,
/// with the seconds left to wait.
pub open spec fn slow_mode_verdict(mode: Option<ChatMode>, since_last: Option<u32>) -> Result<(), LiveStreamingError> {
    match mode {
        Some(m) => match m.slow_mode {
            Some(delay) => match since_last {
                Some(elapsed) => if elapsed < delay {
                    Err(LiveStreamingError::SlowModeActive((delay - elapsed) as u32))
                } else {
                    Ok(())
                },
                None => Ok(()),
            },
            None => Ok(()),
        },
        None => Ok(()),
    }
}

/// The mode checks that follow the follower check.
pub open spec fn closing_mode_verdict(m: ChatMode) -> Result<(), LiveStreamingError> {
    if m.subscribers_only {
        Err(LiveStreamingError::SubscribersOnlyMode)
    } else if m.emote_only {
        Err(LiveStreamingError::EmoteOnlyMode)
    } else {
        Ok(())
    }
}

/// The whole admission rule, for a message of `content_len` bytes whose
/// sender follows the broadcaster when `is_follower` holds.
pub open spec fn chat_verdict(facts: ChatFacts, content_len: usize, is_follower: bool) -> Result<(), LiveStreamingError> {
    if !facts.stream_live {
        Err(LiveStreamingError::StreamNotLive)
    } else if !facts.chat_enabled {
        Err(LiveStreamingError::ChatDisabled)
    } else if restriction_verdict(facts.restriction) is Err {
        restriction_verdict(facts.restriction)
    } else if slow_mode_verdict(facts.mode, facts.seconds_since_last) is Err {
        slow_mode_verdict(facts.mode, facts.seconds_since_last)
    } else if content_len > MAX_CHAT_MESSAGE_BYTES {
        Err(LiveStreamingError::MessageTooLong { max: MAX_CHAT_MESSAGE_BYTES })
    } else {
        match facts.mode {
            None => Ok(()),
            Some(m) => if m.followers_only is Some && !is_follower {
                Err(LiveStreamingError::FollowersOnlyMode)
            } else {
                closing_mode_verdict(m)
            },
        }
    }
}

/// Refuses a banned sender, or one whose timeout is still running.
pub fn check_banned(restriction: Option<ChatRestriction>) -> (r: Result<(), LiveStreamingError>)
    ensures
        r == restriction_verdict(restriction),
{
    match restriction {
        None => Ok(()),
        Some(ban) => {
            if ban.action_type == ModerationActionType::Ban {
                return Err(LiveStreamingError::UserBanned);
            }
            match ban.duration_seconds {
                Some(duration) => {
                    if ban.elapsed_seconds < duration {
                        Err(LiveStreamingError::UserTimeout(duration - ban.elapsed_seconds))
                    } else {
                        Ok(())
                    }
                },
                None => Ok(()),
            }
        },
    }
}

/// Refuses a sender who wrote too recently while slow mode is on.
pub fn check_slow_mode(mode: Option<ChatMode>, seconds_since_last: Option<u32>) -> (r: Result<(), LiveStreamingError>)
    ensures
        r == slow_mode_verdict(mode, seconds_since_last),
{
    if let Some(m) = mode {
        if let Some(delay) = m.slow_mode {
            if let Some(elapsed) = seconds_since_last {
                if elapsed < delay {
                    return Err(LiveStreamingError::SlowModeActive(delay - elapsed));
                }
            }
        }
    }
    Ok(())
}

/// The checks that need no outside answer, in order; where they all pass,
/// a followers-only chat still waits for the follower question, and any
/// other chat is decided by its remaining modes.
pub open spec fn screen_verdict(facts: ChatFacts, content_len: usize) -> Result<ChatGate, LiveStreamingError> {
    if !facts.stream_live {
        Err(LiveStreamingError::StreamNotLive)
    } else if !facts.chat_enabled {
        Err(LiveStreamingError::ChatDisabled)
    } else if restriction_verdict(facts.restriction) is Err {
        Err(restriction_verdict(facts.restriction)->Err_0)
    } else if slow_mode_verdict(facts.mode, facts.seconds_since_last) is Err {
        Err(slow_mode_verdict(facts.mode, facts.seconds_since_last)->Err_0)
    } else if content_len > MAX_CHAT_MESSAGE_BYTES {
        Err(LiveStreamingError::MessageTooLong { max: MAX_CHAT_MESSAGE_BYTES })
    } else {
        match facts.mode {
            None => Ok(ChatGate::Admit),
            Some(m) => if m.followers_only is Some {
                Ok(ChatGate::NeedFollowerCheck)
            } else {
                match closing_mode_verdict(m) {
                    Ok(()) => Ok(ChatGate::Admit),
                    Err(e) => Err(e),
                }
            },
        }
    }
}

/// Makes every check that needs no outside answer (see `screen_verdict`).
pub fn screen_chat_message(facts: &ChatFacts, content: &str) -> (r: Result<ChatGate, LiveStreamingError>)
    ensures
        r == screen_verdict(*facts, content.spec_bytes().len() as usize),
{
    if !facts.stream_live {
        return Err(LiveStreamingError::StreamNotLive);
    }
    if !facts.chat_enabled {
        return Err(LiveStreamingError::ChatDisabled);
    }
    match check_banned(facts.restriction) {
        Err(e) => {
            return Err(e);
        },
        Ok(()) => {},
    }
    match check_slow_mode(facts.mode, facts.seconds_since_last) {
        Err(e) => {
            return Err(e);
        },
        Ok(()) => {},
    }
    if content.len() > MAX_CHAT_MESSAGE_BYTES {
        return Err(LiveStreamingError::MessageTooLong { max: MAX_CHAT_MESSAGE_BYTES });
    }
    match facts.mode {
        None => Ok(ChatGate::Admit),
        Some(m) => {
            if m.followers_only.is_some() {
                Ok(ChatGate::NeedFollowerCheck)
            } else if m.subscribers_only {
                Err(LiveStreamingError::SubscribersOnlyMode)
            } else if m.emote_only {
                Err(LiveStreamingError::EmoteOnlyMode)
            } else {
                Ok(ChatGate::Admit)
            }
        },
    }
}

/// The follower step of a followers-only chat.
pub open spec fn follower_step(m: ChatMode, is_follower: bool) -> Result<(), LiveStreamingError> {
    if !is_follower {
        Err(LiveStreamingError::FollowersOnlyMode)
    } else {
        closing_mode_verdict(m)
    }
}

/// Finishes the admission of a message to a followers-only chat with the
/// answer to the follower question.
pub fn follower_verdict(mode: &ChatMode, is_follower: bool) -> (r: Result<(), LiveStreamingError>)
    ensures
        r == follower_step(*mode, is_follower),
{
    if !is_follower {
        Err(LiveStreamingError::FollowersOnlyMode)
    } else if mode.subscribers_only {
        Err(LiveStreamingError::SubscribersOnlyMode)
    } else if mode.emote_only {
        Err(LiveStreamingError::EmoteOnlyMode)
    } else {
        Ok(())
    }
}

/// Admission in two steps decides every message as the whole rule does: an
/// error of the first step is the rule's error, `Admit` is the rule's
/// acceptance, and after `NeedFollowerCheck` the follower step gives the
/// rule's verdict for the answer.
pub proof fn law_two_step_admission(facts: ChatFacts, content_len: usize, is_follower: bool)
    ensures
        match screen_verdict(facts, content_len) {
            Err(e) => chat_verdict(facts, content_len, is_follower) == Err::<(), LiveStreamingError>(e),
            Ok(ChatGate::Admit) => chat_verdict(facts, content_len, is_follower) is Ok,
            Ok(ChatGate::NeedFollowerCheck) => facts.mode matches Some(m)
                && chat_verdict(facts, content_len, is_follower) == follower_step(m, is_follower),
        },
{
}

} // verus!
