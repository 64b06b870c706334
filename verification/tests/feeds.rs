use vantis::chat::{
    check_banned, check_slow_mode, follower_verdict, screen_chat_message, ChatFacts, ChatGate, ChatMode,
    ChatRestriction,
};
use vantis::live_streaming::LiveStreamingError;
use vantis::rss::{
    extract_attribute_value, extract_element, parse_items, parse_rss_feed, try_parse_rss_feed, RssError,
};
use vantis::stream_types::ModerationActionType;

const FEED: &str = "  <rss><channel>
  <title> Tech &amp; Talk </title>
  <link>https://example.com</link>
  <description>All about &lt;code&gt;</description>
  <language>en</language>
  <itunes:image href=\"https://example.com/cover.jpg\"/>
  <item>
    <title>Episode 1</title>
    <guid>ep-1</guid>
    <pubDate>Mon, 01 Jan 2024 10:00:00 GMT</pubDate>
    <itunes:duration>1:02:03</itunes:duration>
    <itunes:episode>1</itunes:episode>
    <itunes:season>+2</itunes:season>
    <enclosure url=\"https://example.com/1.mp3\" length=\"123\" type=\"audio/mpeg\"/>
  </item>
  <item>
    <title>Episode 2</title>
    <itunes:episode>two</itunes:episode>
  </item>
</channel></rss>";

#[test]
fn rss_feed_reads_channel_and_items() {
    let channel = parse_rss_feed(FEED).unwrap();
    assert_eq!(channel.title, "Tech & Talk");
    assert_eq!(channel.link.as_deref(), Some("https://example.com"));
    assert_eq!(channel.description.as_deref(), Some("All about <code>"));
    assert_eq!(channel.language.as_deref(), Some("en"));
    assert_eq!(channel.image_url.as_deref(), Some("https://example.com/cover.jpg"));
    assert!(channel.categories.is_empty());
    assert_eq!(channel.explicit, None);
    assert_eq!(channel.author, None);
    assert_eq!(channel.episodes.len(), 2);
    let first = &channel.episodes[0];
    assert_eq!(first.title.as_deref(), Some("Episode 1"));
    assert_eq!(first.guid.as_deref(), Some("ep-1"));
    assert_eq!(first.pub_date.as_deref(), Some("Mon, 01 Jan 2024 10:00:00 GMT"));
    assert_eq!(first.duration.as_deref(), Some("1:02:03"));
    assert_eq!(first.episode, Some(1));
    assert_eq!(first.season, Some(2));
    // The enclosure is looked up by a tag pattern that real enclosures do not match.
    assert_eq!(first.enclosure_url, None);
    assert_eq!(first.enclosure_length, None);
    assert_eq!(first.enclosure_type, None);
    let second = &channel.episodes[1];
    assert_eq!(second.title.as_deref(), Some("Episode 2"));
    assert_eq!(second.episode, None);
    assert_eq!(second.link, None);
}

#[test]
fn rss_feed_errors() {
    assert_eq!(parse_rss_feed("<rss></rss>").unwrap_err(), RssError::NoChannel);
    assert_eq!(parse_rss_feed("<channel><title>x</title>").unwrap_err(), RssError::ChannelNotClosed);
    assert_eq!(RssError::NoChannel.message(), "No channel element found");
    assert_eq!(RssError::ChannelNotClosed.message(), "Channel element not closed");
}

#[test]
fn rss_feed_untitled_channel() {
    let channel = parse_rss_feed("<channel><url>u.png</url></channel>").unwrap();
    assert_eq!(channel.title, "Untitled");
    assert_eq!(channel.image_url.as_deref(), Some("u.png"));
    assert!(channel.episodes.is_empty());
}

#[test]
fn rss_feed_out_of_order_is_reported() {
    assert!(try_parse_rss_feed("</channel><channel>").is_none());
    assert!(try_parse_rss_feed("<channel></title><title></channel>").is_none());
    assert!(try_parse_rss_feed("<channel></item><item></channel>").is_none());
    assert!(matches!(try_parse_rss_feed("<channel></channel>"), Some(Ok(_))));
}

#[test]
fn rss_element_and_attribute() {
    assert_eq!(extract_element("<a><b> x &#39;y&#39; </b></a>", "b").as_deref(), Some("x 'y'"));
    assert_eq!(extract_element("<b>&amp;lt;</b>", "b").as_deref(), Some("&lt;"));
    assert_eq!(extract_element("<b>&quot;</b>", "b").as_deref(), Some("\""));
    assert_eq!(extract_element("<title> A &amp; B </title>", "title").as_deref(), Some("A & B"));
    assert_eq!(extract_element("<a>1</a>", "b"), None);
    assert_eq!(
        extract_element("<x>&amp;lt; &quot;q&quot;</x>", "x").as_deref(),
        Some("&lt; \"q\"")
    );
    assert_eq!(extract_element("<x>&amp &#39</x>", "x").as_deref(), Some("&amp &#39"));
    assert_eq!(extract_element("<b>x", "b"), None);
    assert_eq!(
        extract_attribute_value("<img src=\"a.png\" alt=\"b\">", "img", "alt").as_deref(),
        Some("b")
    );
    assert_eq!(
        extract_attribute_value("<itunes:image href=\"https://x/a.jpg\"/>", "itunes:image", "href").as_deref(),
        Some("https://x/a.jpg")
    );
    assert_eq!(extract_attribute_value("<img src=&quot;a.png&quot;>", "img", "src"), None);
    assert_eq!(extract_attribute_value("<img src=\"a.png>", "img", "src"), None);
    assert_eq!(extract_attribute_value("<img>", "img", "src"), None);
}

#[test]
fn rss_items_in_sequence() {
    let items = parse_items("<item><title>A</title></item><item><title>B</title></item><item>");
    assert_eq!(items.len(), 2);
    assert_eq!(items[0].title.as_deref(), Some("A"));
    assert_eq!(items[1].title.as_deref(), Some("B"));
}

fn live_facts() -> ChatFacts {
    ChatFacts { stream_live: true, chat_enabled: true, restriction: None, seconds_since_last: None, mode: None }
}

#[test]
fn chat_admits_plain_message() {
    assert_eq!(screen_chat_message(&live_facts(), "hello"), Ok(ChatGate::Admit));
}

#[test]
fn chat_refusals_in_order() {
    let mut f = live_facts();
    f.stream_live = false;
    f.chat_enabled = false;
    assert_eq!(screen_chat_message(&f, "hi"), Err(LiveStreamingError::StreamNotLive));
    f.stream_live = true;
    assert_eq!(screen_chat_message(&f, "hi"), Err(LiveStreamingError::ChatDisabled));
    f.chat_enabled = true;
    let long = "x".repeat(501);
    assert_eq!(screen_chat_message(&f, &long), Err(LiveStreamingError::MessageTooLong { max: 500 }));
    assert_eq!(screen_chat_message(&f, &"x".repeat(500)), Ok(ChatGate::Admit));
    // 200 two-byte characters are 400 bytes; 300 are 600.
    assert_eq!(screen_chat_message(&f, &"é".repeat(200)), Ok(ChatGate::Admit));
    assert!(screen_chat_message(&f, &"é".repeat(300)).is_err());
}

#[test]
fn chat_bans_and_timeouts() {
    let ban = ChatRestriction { action_type: ModerationActionType::Ban, duration_seconds: None, elapsed_seconds: 0 };
    assert_eq!(check_banned(Some(ban)), Err(LiveStreamingError::UserBanned));
    let timeout = ChatRestriction {
        action_type: ModerationActionType::Timeout,
        duration_seconds: Some(600),
        elapsed_seconds: 100,
    };
    assert_eq!(check_banned(Some(timeout)), Err(LiveStreamingError::UserTimeout(500)));
    let over = ChatRestriction { elapsed_seconds: 600, ..timeout };
    assert_eq!(check_banned(Some(over)), Ok(()));
    assert_eq!(check_banned(None), Ok(()));
    let mut f = live_facts();
    f.restriction = Some(timeout);
    assert_eq!(screen_chat_message(&f, "hi"), Err(LiveStreamingError::UserTimeout(500)));
}

#[test]
fn chat_slow_mode() {
    let slow = ChatMode { slow_mode: Some(30), ..ChatMode::default() };
    assert_eq!(check_slow_mode(Some(slow), Some(10)), Err(LiveStreamingError::SlowModeActive(20)));
    assert_eq!(check_slow_mode(Some(slow), Some(30)), Ok(()));
    assert_eq!(check_slow_mode(Some(slow), None), Ok(()));
    assert_eq!(check_slow_mode(None, Some(1)), Ok(()));
}

#[test]
fn chat_modes() {
    let mut f = live_facts();
    f.mode = Some(ChatMode { followers_only: Some(10), subscribers_only: true, ..ChatMode::default() });
    assert_eq!(screen_chat_message(&f, "hi"), Ok(ChatGate::NeedFollowerCheck));
    let m = f.mode.unwrap();
    assert_eq!(follower_verdict(&m, false), Err(LiveStreamingError::FollowersOnlyMode));
    assert_eq!(follower_verdict(&m, true), Err(LiveStreamingError::SubscribersOnlyMode));
    f.mode = Some(ChatMode { emote_only: true, ..ChatMode::default() });
    assert_eq!(screen_chat_message(&f, "hi"), Err(LiveStreamingError::EmoteOnlyMode));
    let followers = ChatMode { followers_only: Some(0), ..ChatMode::default() };
    assert_eq!(follower_verdict(&followers, true), Ok(()));
}
