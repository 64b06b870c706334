//! Plugin identity, descriptive information and capability flags.

use vstd::prelude::*;

use crate::text::owned;

verus! {

/// The variant digit of an RFC 4122 identifier: `8`, `9`, `a` or `b`.
pub open spec fn is_variant_digit(c: char) -> bool {
    c == '8' || c == '9' || c == 'a' || c == 'b'
}

/// A lowercase hexadecimal digit.
pub open spec fn is_lower_hex(c: char) -> bool {
    ('0' <= c && c <= '9') || ('a' <= c && c <= 'f')
}

/// The hyphenated form of an identifier: 8-4-4-4-12 lowercase
/// hexadecimal digits.
pub open spec fn hyphenated_shape(s: Seq<char>) -> bool {
    &&& s.len() == 36
    &&& forall|i: int|
        0 <= i < 36 ==> if i == 8 || i == 13 || i == 18 || i == 23 {
            #[trigger] s[i] == '-'
        } else {
            is_lower_hex(s[i])
        }
}

/// The simple form of an identifier: 32 lowercase hexadecimal digits.
pub open spec fn simple_shape(s: Seq<char>) -> bool {
    &&& s.len() == 32
    &&& forall|i: int| 0 <= i < 32 ==> is_lower_hex(#[trigger] s[i])
}

/// The lowercase hexadecimal digit of a value below 16.
pub open spec fn hex_char(d: u128) -> char {
    if d < 10 {
        (48 + d) as char
    } else {
        (87 + d) as char
    }
}

/// The `i`-th hexadecimal digit of `value`, most significant first.
pub open spec fn hex_digit_at(value: u128, i: int) -> char {
    hex_char((value >> ((124 - 4 * i) as u32)) & 15u128)
}

/// The simple text of the identifier with this 128-bit value: its 32
/// hexadecimal digits, most significant first.
pub open spec fn uuid_simple(value: u128) -> Seq<char> {
    Seq::new(32, |i: int| hex_digit_at(value, i))
}

/// The hyphenated text of the identifier with this 128-bit value: its
/// digits in groups of 8, 4, 4, 4 and 12, joined by hyphens.
pub open spec fn uuid_hyphenated(value: u128) -> Seq<char> {
    let s = uuid_simple(value);
    s.subrange(0, 8) + seq!['-'] + s.subrange(8, 12) + seq!['-'] + s.subrange(12, 16) + seq!['-'] + s.subrange(
        16,
        20,
    ) + seq!['-'] + s.subrange(20, 32)
}

/// The version and variant bits of a version 4 identifier: version 4 in
/// bits 76 to 79, and the variant `10` in bits 62 and 63.
pub open spec fn v4_bits(value: u128) -> bool {
    (value >> 76u32) & 15u128 == 4 && (value >> 62u32) & 3u128 == 2
}

/// The hyphenated text of an identifier, by `uuid::Uuid::from_u128` and
/// its `Display` impl, which writes the value's 16 bytes, most significant
/// first, as lowercase hexadecimal digits in the groups 8-4-4-4-12; the
/// contract states that text.
#[verifier::external_body]
pub(crate) fn uuid_text(value: u128) -> (s: String)
    ensures
        s@ == uuid_hyphenated(value),
        hyphenated_shape(s@),
{
    uuid::Uuid::from_u128(value).to_string()
}

/// The simple text of an identifier, by `uuid::Uuid::from_u128` and
/// `simple()`, which writes the value's 16 bytes, most significant first,
/// as 32 lowercase hexadecimal digits; the contract states that text.
#[verifier::external_body]
fn uuid_simple_text(value: u128) -> (s: String)
    ensures
        s@ == uuid_simple(value),
        simple_shape(s@),
{
    uuid::Uuid::from_u128(value).simple().to_string()
}

/// The hyphenated text of a version 4 identifier has the version digit `4`
/// first in its third group and a variant digit (`8`, `9`, `a` or `b`)
/// first in its fourth.
pub proof fn lemma_v4_text(value: u128)
    requires
        v4_bits(value),
    ensures
        uuid_hyphenated(value)[14] == '4',
        is_variant_digit(uuid_hyphenated(value)[19]),
        uuid_simple(value)[12] == '4',
        is_variant_digit(uuid_simple(value)[16]),
{
    let s = uuid_simple(value);
    assert(uuid_hyphenated(value)[14] == s[12]);
    assert(uuid_hyphenated(value)[19] == s[16]);
    let d12 = (value >> 76u32) & 15u128;
    let d16 = (value >> 60u32) & 15u128;
    assert(s[12] == hex_char(d12));
    assert(s[16] == hex_char(d16));
    assert(8 <= d16 <= 11) by (bit_vector)
        requires
            (value >> 62u32) & 3u128 == 2,
            d16 == (value >> 60u32) & 15u128;
    assert(hex_char(4) == '4');
    assert(hex_char(8) == '8' && hex_char(9) == '9' && hex_char(10) == 'a' && hex_char(11) == 'b');
}

/// The 128-bit value of a fresh random identifier, by `uuid::Uuid::new_v4`
/// and `as_u128`: 128 random bits from the operating system's random
/// source with the version bits set to 4 and the variant bits to `10`, so
/// the contract states those bits only; which value comes out is left
/// open. `new_v4` panics where the random source fails.
#[verifier::external_body]
pub(crate) fn new_v4_value() -> (v: u128)
    ensures
        v4_bits(v),
{
    uuid::Uuid::new_v4().as_u128()
}

/// The hyphenated form of a version 4 identifier.
pub open spec fn v4_hyphenated_shape(s: Seq<char>) -> bool {
    &&& hyphenated_shape(s)
    &&& s[14] == '4'
    &&& is_variant_digit(s[19])
}

/// The simple form of a version 4 identifier.
pub open spec fn v4_simple_shape(s: Seq<char>) -> bool {
    &&& simple_shape(s)
    &&& s[12] == '4'
    &&& is_variant_digit(s[16])
}

/// A fresh random identifier in the hyphenated form (see `new_v4_value`).
pub(crate) fn random_uuid_text() -> (s: String)
    ensures
        v4_hyphenated_shape(s@),
{
    let v = new_v4_value();
    proof {
        lemma_v4_text(v);
    }
    uuid_text(v)
}

/// A fresh random identifier in the simple form (see `new_v4_value`).
pub(crate) fn random_uuid_simple() -> (s: String)
    ensures
        v4_simple_shape(s@),
{
    let v = new_v4_value();
    proof {
        lemma_v4_text(v);
    }
    uuid_simple_text(v)
}

/// Unique plugin identifier.
#[derive(Debug, Clone, PartialEq, Eq, Hash)]
pub struct PluginId(pub String);

impl View for PluginId {
    type V = Seq<char>;

    open spec fn view(&self) -> Seq<char> {
        self.0@
    }
}

impl PluginId {
    /// An identifier with the given text.
    pub fn new(id: &str) -> (p: PluginId)
        ensures
            p@ == id@,
    {
        PluginId(owned(id))
    }

    /// A random identifier: a hyphenated version 4 UUID.
    pub fn random() -> (p: PluginId)
        ensures
            v4_hyphenated_shape(p@),
    {
        PluginId(random_uuid_text())
    }

    /// The identifier's text.
    pub fn as_str(&self) -> (s: &str)
        ensures
            s@ == self@,
    {
        self.0.as_str()
    }

    /// An identifier with the given text, or `None` when the text is empty.
    pub fn parse(s: &str) -> (p: Option<PluginId>)
        ensures
            s@.len() == 0 ==> p is None,
            s@.len() > 0 ==> (p matches Some(id) && id@ == s@),
    {
        if s.unicode_len() == 0 {
            None
        } else {
            Some(PluginId(owned(s)))
        }
    }
}

impl Default for PluginId {
    fn default() -> (p: PluginId)
        ensures
            v4_hyphenated_shape(p@),
    {
        PluginId::random()
    }
}

/// Descriptive information about a plugin.
#[derive(Debug, Clone)]
pub struct PluginInfo {
    /// Unique plugin identifier (e.g., "com.example.my-plugin").
    pub id: PluginId,
    /// Human-readable plugin name.
    pub name: String,
    /// Plugin version (semver).
    pub version: String,
    /// Plugin description.
    pub description: String,
    /// Plugin author.
    pub author: String,
    /// Plugin homepage URL.
    pub homepage: Option<String>,
    /// Plugin license.
    pub license: String,
    /// Minimum host version required.
    pub min_host_version: String,
    /// Plugin tags for categorization.
    pub tags: Vec<String>,
    /// Plugin icon (base64 encoded or URL).
    pub icon: Option<String>,
}

/// The fields every plugin information starts with, but its identifier and name.
pub open spec fn has_default_details(info: PluginInfo) -> bool {
    &&& info.version@ == "0.1.0"@
    &&& info.description@.len() == 0
    &&& info.author@.len() == 0
    &&& info.homepage is None
    &&& info.license@ == "MIT"@
    &&& info.min_host_version@ == "1.0.0"@
    &&& info.tags@.len() == 0
    &&& info.icon is None
}

/// Information with the given identifier and name and default details.
fn info_with(id: PluginId, name: String) -> (info: PluginInfo)
    ensures
        info.id == id,
        info.name == name,
        has_default_details(info),
{
    PluginInfo {
        id,
        name,
        version: owned("0.1.0"),
        description: String::new(),
        author: String::new(),
        homepage: None,
        license: owned("MIT"),
        min_host_version: owned("1.0.0"),
        tags: Vec::new(),
        icon: None,
    }
}

impl Default for PluginInfo {
    fn default() -> (info: PluginInfo)
        ensures
            v4_hyphenated_shape(info.id@),
            info.name@ == "Unnamed Plugin"@,
            has_default_details(info),
    {
        info_with(PluginId::random(), owned("Unnamed Plugin"))
    }
}

impl PluginInfo {
    /// Information with the given identifier and name and default details.
    pub fn new(id: &str, name: &str) -> (info: PluginInfo)
        ensures
            info.id@ == id@,
            info.name@ == name@,
            has_default_details(info),
    {
        info_with(PluginId::new(id), owned(name))
    }

    /// The same information with another version.
    pub fn with_version(self, version: &str) -> (info: PluginInfo)
        ensures
            info == (PluginInfo { version: info.version, ..self }),
            info.version@ == version@,
    {
        let mut s = self;
        s.version = owned(version);
        s
    }

    /// The same information with another author.
    pub fn with_author(self, author: &str) -> (info: PluginInfo)
        ensures
            info == (PluginInfo { author: info.author, ..self }),
            info.author@ == author@,
    {
        let mut s = self;
        s.author = owned(author);
        s
    }

    /// The same information with another description.
    pub fn with_description(self, description: &str) -> (info: PluginInfo)
        ensures
            info == (PluginInfo { description: info.description, ..self }),
            info.description@ == description@,
    {
        let mut s = self;
        s.description = owned(description);
        s
    }

    /// The same information with one more tag at the end.
    pub fn with_tag(self, tag: &str) -> (info: PluginInfo)
        ensures
            info == (PluginInfo { tags: info.tags, ..self }),
            info.tags@.len() == self.tags@.len() + 1,
            info.tags@.drop_last() == self.tags@,
            info.tags@.last()@ == tag@,
    {
        let mut s = self;
        s.tags.push(owned(tag));
        s
    }
}

/// What a plugin can do.
#[derive(Debug, Clone, Copy, PartialEq, Eq, Structural)]
pub struct PluginCapabilities {
    pub media_playback: bool,
    pub media_decoding: bool,
    pub ui_extension: bool,
    pub metadata_provider: bool,
    pub network_handler: bool,
    pub subtitle_handler: bool,
    pub audio_processor: bool,
    pub video_processor: bool,
    pub keyboard_shortcuts: bool,
    pub notifications: bool,
}

/// No capability at all.
pub open spec fn no_capabilities() -> PluginCapabilities {
    PluginCapabilities {
        media_playback: false,
        media_decoding: false,
        ui_extension: false,
        metadata_provider: false,
        network_handler: false,
        subtitle_handler: false,
        audio_processor: false,
        video_processor: false,
        keyboard_shortcuts: false,
        notifications: false,
    }
}

/// A one-element list holding `name` when `set` holds, else the empty list.
pub open spec fn name_if(set: bool, name: Seq<char>) -> Seq<Seq<char>> {
    if set {
        seq![name]
    } else {
        Seq::empty()
    }
}

/// The names of the capabilities that are set, in declaration order.
pub open spec fn capability_names(c: PluginCapabilities) -> Seq<Seq<char>> {
    name_if(c.media_playback, "media_playback"@)
        + name_if(c.media_decoding, "media_decoding"@)
        + name_if(c.ui_extension, "ui_extension"@)
        + name_if(c.metadata_provider, "metadata_provider"@)
        + name_if(c.network_handler, "network_handler"@)
        + name_if(c.subtitle_handler, "subtitle_handler"@)
        + name_if(c.audio_processor, "audio_processor"@)
        + name_if(c.video_processor, "video_processor"@)
        + name_if(c.keyboard_shortcuts, "keyboard_shortcuts"@)
        + name_if(c.notifications, "notifications"@)
}

/// Whether any capability is set.
pub open spec fn any_capability(c: PluginCapabilities) -> bool {
    c.media_playback || c.media_decoding || c.ui_extension || c.metadata_provider
        || c.network_handler || c.subtitle_handler || c.audio_processor || c.video_processor
        || c.keyboard_shortcuts || c.notifications
}

/// The texts of a list of names.
pub open spec fn texts(v: Seq<&str>) -> Seq<Seq<char>> {
    v.map_values(|s: &str| s@)
}

/// Appends `name` to `caps` when `set` holds.
fn push_if(caps: &mut Vec<&'static str>, set: bool, name: &'static str)
    ensures
        texts(final(caps)@) == texts(old(caps)@) + name_if(set, name@),
{
    proof {
        assert(texts(old(caps)@) + Seq::<Seq<char>>::empty() == texts(old(caps)@));
    }
    if set {
        caps.push(name);
        proof {
            assert(texts(caps@) == texts(old(caps)@) + seq![name@]);
        }
    }
}

impl Default for PluginCapabilities {
    fn default() -> (c: PluginCapabilities)
        ensures
            c == no_capabilities(),
    {
        PluginCapabilities {
            media_playback: false,
            media_decoding: false,
            ui_extension: false,
            metadata_provider: false,
            network_handler: false,
            subtitle_handler: false,
            audio_processor: false,
            video_processor: false,
            keyboard_shortcuts: false,
            notifications: false,
        }
    }
}

impl PluginCapabilities {
    /// Capabilities of a media player: playback and decoding.
    pub fn media_player() -> (c: PluginCapabilities)
        ensures
            c == (PluginCapabilities { media_playback: true, media_decoding: true, ..no_capabilities() }),
    {
        PluginCapabilities { media_playback: true, media_decoding: true, ..PluginCapabilities::default() }
    }

    /// Capabilities of a UI extension.
    pub fn ui_extension() -> (c: PluginCapabilities)
        ensures
            c == (PluginCapabilities { ui_extension: true, ..no_capabilities() }),
    {
        PluginCapabilities { ui_extension: true, ..PluginCapabilities::default() }
    }

    /// Capabilities of a metadata provider.
    pub fn metadata_provider() -> (c: PluginCapabilities)
        ensures
            c == (PluginCapabilities { metadata_provider: true, ..no_capabilities() }),
    {
        PluginCapabilities { metadata_provider: true, ..PluginCapabilities::default() }
    }

    /// Capabilities of an audio processor.
    pub fn audio_processor() -> (c: PluginCapabilities)
        ensures
            c == (PluginCapabilities { audio_processor: true, ..no_capabilities() }),
    {
        PluginCapabilities { audio_processor: true, ..PluginCapabilities::default() }
    }

    /// Capabilities of a video processor.
    pub fn video_processor() -> (c: PluginCapabilities)
        ensures
            c == (PluginCapabilities { video_processor: true, ..no_capabilities() }),
    {
        PluginCapabilities { video_processor: true, ..PluginCapabilities::default() }
    }

    /// The names of the capabilities that are set, in declaration order.
    pub fn to_list(&self) -> (caps: Vec<&'static str>)
        ensures
            texts(caps@) == capability_names(*self),
    {
        let mut caps: Vec<&'static str> = Vec::new();
        proof {
            assert(texts(caps@) == Seq::<Seq<char>>::empty());
        }
        push_if(&mut caps, self.media_playback, "media_playback");
        push_if(&mut caps, self.media_decoding, "media_decoding");
        push_if(&mut caps, self.ui_extension, "ui_extension");
        push_if(&mut caps, self.metadata_provider, "metadata_provider");
        push_if(&mut caps, self.network_handler, "network_handler");
        push_if(&mut caps, self.subtitle_handler, "subtitle_handler");
        push_if(&mut caps, self.audio_processor, "audio_processor");
        push_if(&mut caps, self.video_processor, "video_processor");
        push_if(&mut caps, self.keyboard_shortcuts, "keyboard_shortcuts");
        push_if(&mut caps, self.notifications, "notifications");
        proof {
            assert(Seq::<Seq<char>>::empty() + name_if(self.media_playback, "media_playback"@)
                == name_if(self.media_playback, "media_playback"@));
        }
        caps
    }

    /// Whether any capability is set.
    pub fn has_any(&self) -> (r: bool)
        ensures
            r == any_capability(*self),
    {
        self.media_playback || self.media_decoding || self.ui_extension || self.metadata_provider
            || self.network_handler || self.subtitle_handler || self.audio_processor
            || self.video_processor || self.keyboard_shortcuts || self.notifications
    }
}

} // verus!
