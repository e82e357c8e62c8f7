//! Notification messages, the builder that assembles them, and the server's
//! reply to a push.

use crate::error::BarkError;
use crate::json::{
    data_error, entries_of, object_get, parse_object, texts_of, value_as_i64, value_as_str,
    value_is_null,
};
use crate::wire::{decoded_response, wire_response, ResponseView};
use vstd::prelude::*;

verus! {

/// Urgency of a notification, which decides how the device presents it.
#[derive(Debug, Clone, Copy, PartialEq, Eq, Structural)]
pub enum Level {
    /// Rings even when the device is muted.
    Critical,
    /// Lights the screen at once; what the service assumes when no level is sent.
    Active,
    /// May be shown while a focus mode is on.
    TimeSensitive,
    /// Only added to the notification list.
    Passive,
}

impl Level {
    /// The name by which the service knows this level.
    pub open spec fn wire_name(self) -> Seq<char> {
        match self {
            Level::Critical => "critical"@,
            Level::Active => "active"@,
            Level::TimeSensitive => "timeSensitive"@,
            Level::Passive => "passive"@,
        }
    }

    /// Returns the name by which the service knows this level.
    pub fn as_str(&self) -> (name: &'static str)
        ensures
            name@ == self.wire_name(),
    {
        match self {
            Level::Critical => "critical",
            Level::Active => "active",
            Level::TimeSensitive => "timeSensitive",
            Level::Passive => "passive",
        }
    }
}

/// What the server answers to a push.
#[derive(Debug)]
pub struct BarkResponse {
    /// Status of the push; 200 where it was accepted.
    pub code: i32,
    /// What the server says of the push.
    pub message: String,
    /// When the server handled the push, where it says so.
    pub timestamp: Option<i64>,
}

impl View for BarkResponse {
    type V = ResponseView;

    open spec fn view(&self) -> ResponseView {
        ResponseView { code: self.code, message: self.message@, timestamp: self.timestamp }
    }
}

impl BarkResponse {
    /// Reads a reply from the members of a JSON object.
    ///
    /// `code` and `message` must be there, an integer and a string; `timestamp`
    /// may be missing or null.
    pub fn from_object(object: &serde_json::Map<String, serde_json::Value>) -> (decoded: Result<
        BarkResponse,
        BarkError,
    >)
        ensures
            match wire_response(entries_of(*object)) {
                Some(reply) => decoded is Ok && decoded->Ok_0@ == reply,
                None => decoded is Err && decoded->Err_0 is SerializationError,
            },
    {
        let code: i32 = match object_get(object, "code") {
            Some(value) => match value_as_i64(value) {
                Some(n) => {
                    if n < i32::MIN as i64 || n > i32::MAX as i64 {
                        return Err(
                            BarkError::from(data_error("`code` does not fit a 32-bit integer")),
                        );
                    }
                    n as i32
                },
                None => {
                    return Err(BarkError::from(data_error("`code` is not an integer")));
                },
            },
            None => {
                return Err(BarkError::from(data_error("missing field `code`")));
            },
        };
        let message: String = match object_get(object, "message") {
            Some(value) => match value_as_str(value) {
                Some(text) => text.to_owned(),
                None => {
                    return Err(BarkError::from(data_error("`message` is not a string")));
                },
            },
            None => {
                return Err(BarkError::from(data_error("missing field `message`")));
            },
        };
        let timestamp: Option<i64> = match object_get(object, "timestamp") {
            Some(value) => {
                if value_is_null(value) {
                    None
                } else {
                    match value_as_i64(value) {
                        Some(t) => Some(t),
                        None => {
                            return Err(
                                BarkError::from(data_error("`timestamp` is not an integer")),
                            );
                        },
                    }
                }
            },
            None => None,
        };
        Ok(BarkResponse { code, message, timestamp })
    }

    /// Reads a reply from the body of a response: the text of a JSON object.
    pub fn from_json(body: &[u8]) -> (decoded: Result<BarkResponse, BarkError>)
        ensures
            match decoded_response(body@) {
                Some(reply) => decoded is Ok && decoded->Ok_0@ == reply,
                None => decoded is Err && decoded->Err_0 is SerializationError,
            },
    {
        match parse_object(body) {
            Ok(object) => BarkResponse::from_object(&object),
            Err(error) => Err(BarkError::from(error)),
        }
    }

    /// Reads a reply from what the transport came back with: the body of the
    /// response, or the reason why there is none.
    pub fn from_reply(reply: Result<Vec<u8>, reqwest::Error>) -> (decoded: Result<
        BarkResponse,
        BarkError,
    >)
        ensures
            match reply {
                Ok(body) => match decoded_response(body@) {
                    Some(reply) => decoded is Ok && decoded->Ok_0@ == reply,
                    None => decoded is Err && decoded->Err_0 is SerializationError,
                },
                Err(error) => decoded is Err && decoded->Err_0 == BarkError::RequestError(error),
            },
    {
        match reply {
            Ok(body) => BarkResponse::from_json(body.as_slice()),
            Err(error) => Err(BarkError::from(error)),
        }
    }
}

/// The characters of an optional string.
pub open spec fn text_of(text: Option<String>) -> Option<Seq<char>> {
    match text {
        Some(s) => Some(s@),
        None => None,
    }
}

/// A push notification: a body, and the optional fields the service accepts.
///
/// A field that is `None` was never set and is left out of what is sent.
#[derive(Debug)]
pub struct BarkMessage {
    /// Headline of the notification.
    pub title: Option<String>,
    /// Second line below the headline.
    pub subtitle: Option<String>,
    /// Text of the notification; empty until set.
    pub body: String,
    /// Key of the one device to notify.
    pub device_key: Option<String>,
    /// Keys of several devices to notify with one request.
    pub device_keys: Option<Vec<String>>,
    /// Urgency of the notification.
    pub level: Option<Level>,
    /// Loudness of a critical alert, from 0 to 10.
    pub volume: Option<u8>,
    /// Number shown on the application's icon.
    pub badge: Option<u32>,
    /// Whether the ringtone repeats.
    pub call: Option<bool>,
    /// Whether the device copies the notification when it arrives.
    pub auto_copy: Option<bool>,
    /// Text to copy in place of the notification's own.
    pub copy: Option<String>,
    /// Name of the ringtone.
    pub sound: Option<String>,
    /// Address of an icon to show.
    pub icon: Option<String>,
    /// Group under which the device files the notification.
    pub group: Option<String>,
    /// Encrypted form of the notification.
    pub ciphertext: Option<String>,
    /// Whether the device keeps the notification in its history.
    pub is_archive: Option<bool>,
    /// Address opened when the notification is tapped.
    pub url: Option<String>,
    /// What a tap does.
    pub action: Option<String>,
    /// Identifier under which a later notification replaces or deletes this one.
    pub id: Option<String>,
    /// Whether the notification with this identifier is to be deleted.
    pub delete: Option<bool>,
}

impl BarkMessage {
    /// Starts a message; the same as [`BarkMessage::builder`].
    pub fn new() -> (builder: BarkMessageBuilder)
        ensures
            builder@ == MessageView::empty(),
    {
        BarkMessageBuilder::new()
    }

    /// Starts a message on which nothing is set yet.
    pub fn builder() -> (builder: BarkMessageBuilder)
        ensures
            builder@ == MessageView::empty(),
    {
        BarkMessageBuilder::new()
    }
}

/// A message as contracts see it: text as sequences of characters, field by
/// field as in [`BarkMessage`].
pub struct MessageView {
    pub title: Option<Seq<char>>,
    pub subtitle: Option<Seq<char>>,
    pub body: Seq<char>,
    pub device_key: Option<Seq<char>>,
    pub device_keys: Option<Seq<Seq<char>>>,
    pub level: Option<Level>,
    pub volume: Option<u8>,
    pub badge: Option<u32>,
    pub call: Option<bool>,
    pub auto_copy: Option<bool>,
    pub copy: Option<Seq<char>>,
    pub sound: Option<Seq<char>>,
    pub icon: Option<Seq<char>>,
    pub group: Option<Seq<char>>,
    pub ciphertext: Option<Seq<char>>,
    pub is_archive: Option<bool>,
    pub url: Option<Seq<char>>,
    pub action: Option<Seq<char>>,
    pub id: Option<Seq<char>>,
    pub delete: Option<bool>,
}

impl View for BarkMessage {
    type V = MessageView;

    open spec fn view(&self) -> MessageView {
        MessageView {
            title: text_of(self.title),
            subtitle: text_of(self.subtitle),
            body: self.body@,
            device_key: text_of(self.device_key),
            device_keys: match self.device_keys {
                Some(keys) => Some(texts_of(keys)),
                None => None,
            },
            level: self.level,
            volume: self.volume,
            badge: self.badge,
            call: self.call,
            auto_copy: self.auto_copy,
            copy: text_of(self.copy),
            sound: text_of(self.sound),
            icon: text_of(self.icon),
            group: text_of(self.group),
            ciphertext: text_of(self.ciphertext),
            is_archive: self.is_archive,
            url: text_of(self.url),
            action: text_of(self.action),
            id: text_of(self.id),
            delete: self.delete,
        }
    }
}

impl MessageView {
    /// The message on which nothing was set: an empty body and no other field.
    pub open spec fn empty() -> MessageView {
        MessageView {
            title: None,
            subtitle: None,
            body: Seq::empty(),
            device_key: None,
            device_keys: None,
            level: None,
            volume: None,
            badge: None,
            call: None,
            auto_copy: None,
            copy: None,
            sound: None,
            icon: None,
            group: None,
            ciphertext: None,
            is_archive: None,
            url: None,
            action: None,
            id: None,
            delete: None,
        }
    }

    /// This message with `body` as its text.
    pub open spec fn with_body(self, body: Seq<char>) -> MessageView {
        MessageView { body, ..self }
    }

    /// This message with `title` set.
    pub open spec fn with_title(self, title: Seq<char>) -> MessageView {
        MessageView { title: Some(title), ..self }
    }

    /// This message with `subtitle` set.
    pub open spec fn with_subtitle(self, subtitle: Seq<char>) -> MessageView {
        MessageView { subtitle: Some(subtitle), ..self }
    }

    /// This message with `device_key` set.
    pub open spec fn with_device_key(self, device_key: Seq<char>) -> MessageView {
        MessageView { device_key: Some(device_key), ..self }
    }

    /// This message with `device_keys` set.
    pub open spec fn with_device_keys(self, device_keys: Seq<Seq<char>>) -> MessageView {
        MessageView { device_keys: Some(device_keys), ..self }
    }

    /// This message with `level` set.
    pub open spec fn with_level(self, level: Level) -> MessageView {
        MessageView { level: Some(level), ..self }
    }

    /// This message with `volume` set, where `volume` is at most 10; this
    /// message as it is, where `volume` is more.
    pub open spec fn with_volume(self, volume: u8) -> MessageView {
        if volume <= 10 {
            MessageView { volume: Some(volume), ..self }
        } else {
            self
        }
    }

    /// This message with `badge` set.
    pub open spec fn with_badge(self, badge: u32) -> MessageView {
        MessageView { badge: Some(badge), ..self }
    }

    /// This message with `call` set.
    pub open spec fn with_call(self, call: bool) -> MessageView {
        MessageView { call: Some(call), ..self }
    }

    /// This message with `auto_copy` set.
    pub open spec fn with_auto_copy(self, auto_copy: bool) -> MessageView {
        MessageView { auto_copy: Some(auto_copy), ..self }
    }

    /// This message with `copy` set.
    pub open spec fn with_copy(self, copy: Seq<char>) -> MessageView {
        MessageView { copy: Some(copy), ..self }
    }

    /// This message with `sound` set.
    pub open spec fn with_sound(self, sound: Seq<char>) -> MessageView {
        MessageView { sound: Some(sound), ..self }
    }

    /// This message with `icon` set.
    pub open spec fn with_icon(self, icon: Seq<char>) -> MessageView {
        MessageView { icon: Some(icon), ..self }
    }

    /// This message with `group` set.
    pub open spec fn with_group(self, group: Seq<char>) -> MessageView {
        MessageView { group: Some(group), ..self }
    }

    /// This message with `ciphertext` set.
    pub open spec fn with_ciphertext(self, ciphertext: Seq<char>) -> MessageView {
        MessageView { ciphertext: Some(ciphertext), ..self }
    }

    /// This message with `is_archive` set.
    pub open spec fn with_is_archive(self, is_archive: bool) -> MessageView {
        MessageView { is_archive: Some(is_archive), ..self }
    }

    /// This message with `url` set.
    pub open spec fn with_url(self, url: Seq<char>) -> MessageView {
        MessageView { url: Some(url), ..self }
    }

    /// This message with `action` set.
    pub open spec fn with_action(self, action: Seq<char>) -> MessageView {
        MessageView { action: Some(action), ..self }
    }

    /// This message with `id` set.
    pub open spec fn with_id(self, id: Seq<char>) -> MessageView {
        MessageView { id: Some(id), ..self }
    }

    /// This message with `delete` set.
    pub open spec fn with_delete(self, delete: bool) -> MessageView {
        MessageView { delete: Some(delete), ..self }
    }
}

impl Clone for BarkMessage {
    /// A message with the same fields, set to the same values.
    fn clone(&self) -> (copy: Self)
        ensures
            copy@ == self@,
    {
        BarkMessage {
            title: self.title.clone(),
            subtitle: self.subtitle.clone(),
            body: self.body.clone(),
            device_key: self.device_key.clone(),
            device_keys: self.device_keys.clone(),
            level: self.level,
            volume: self.volume,
            badge: self.badge,
            call: self.call,
            auto_copy: self.auto_copy,
            copy: self.copy.clone(),
            sound: self.sound.clone(),
            icon: self.icon.clone(),
            group: self.group.clone(),
            ciphertext: self.ciphertext.clone(),
            is_archive: self.is_archive,
            url: self.url.clone(),
            action: self.action.clone(),
            id: self.id.clone(),
            delete: self.delete,
        }
    }
}

impl Default for BarkMessage {
    fn default() -> (message: Self)
        ensures
            message@ == MessageView::empty(),
    {
        BarkMessage {
            title: None,
            subtitle: None,
            body: String::new(),
            device_key: None,
            device_keys: None,
            level: None,
            volume: None,
            badge: None,
            call: None,
            auto_copy: None,
            copy: None,
            sound: None,
            icon: None,
            group: None,
            ciphertext: None,
            is_archive: None,
            url: None,
            action: None,
            id: None,
            delete: None,
        }
    }
}

/// Assembles a [`BarkMessage`] one field at a time.
pub struct BarkMessageBuilder {
    message: BarkMessage,
}

impl View for BarkMessageBuilder {
    type V = MessageView;

    /// The message that `build` would return.
    closed spec fn view(&self) -> MessageView {
        self.message@
    }
}

impl BarkMessageBuilder {
    /// A builder on which nothing is set yet.
    pub fn new() -> (builder: Self)
        ensures
            builder@ == MessageView::empty(),
    {
        BarkMessageBuilder { message: BarkMessage::default() }
    }

    /// The text of the notification.
    pub fn body(self, body: &str) -> (builder: Self)
        ensures
            builder@ == self@.with_body(body@),
    {
        let mut builder = self;
        builder.message.body = body.to_owned();
        builder
    }

    /// The headline.
    pub fn title(self, title: &str) -> (builder: Self)
        ensures
            builder@ == self@.with_title(title@),
    {
        let mut builder = self;
        builder.message.title = Some(title.to_owned());
        builder
    }

    /// The second line, below the headline.
    pub fn subtitle(self, subtitle: &str) -> (builder: Self)
        ensures
            builder@ == self@.with_subtitle(subtitle@),
    {
        let mut builder = self;
        builder.message.subtitle = Some(subtitle.to_owned());
        builder
    }

    /// The one device to notify. It takes the place of the client's own.
    pub fn device_key(self, device_key: &str) -> (builder: Self)
        ensures
            builder@ == self@.with_device_key(device_key@),
    {
        let mut builder = self;
        builder.message.device_key = Some(device_key.to_owned());
        builder
    }

    /// The devices to notify with one request.
    pub fn device_keys(self, device_keys: Vec<String>) -> (builder: Self)
        ensures
            builder@ == self@.with_device_keys(texts_of(device_keys)),
    {
        let mut builder = self;
        builder.message.device_keys = Some(device_keys);
        builder
    }

    /// The urgency.
    pub fn level(self, level: Level) -> (builder: Self)
        ensures
            builder@ == self@.with_level(level),
    {
        let mut builder = self;
        builder.message.level = Some(level);
        builder
    }

    /// The loudness of a critical alert. A value above 10 is passed over: the
    /// volume stays as it was.
    pub fn volume(self, volume: u8) -> (builder: Self)
        ensures
            builder@ == self@.with_volume(volume),
    {
        let mut builder = self;
        if volume <= 10 {
            builder.message.volume = Some(volume);
        }
        builder
    }

    /// The number shown on the application's icon.
    pub fn badge(self, badge: u32) -> (builder: Self)
        ensures
            builder@ == self@.with_badge(badge),
    {
        let mut builder = self;
        builder.message.badge = Some(badge);
        builder
    }

    /// Whether the ringtone repeats.
    pub fn call(self, call: bool) -> (builder: Self)
        ensures
            builder@ == self@.with_call(call),
    {
        let mut builder = self;
        builder.message.call = Some(call);
        builder
    }

    /// Whether the device copies the notification when it arrives.
    pub fn auto_copy(self, auto_copy: bool) -> (builder: Self)
        ensures
            builder@ == self@.with_auto_copy(auto_copy),
    {
        let mut builder = self;
        builder.message.auto_copy = Some(auto_copy);
        builder
    }

    /// The text to copy in place of the notification's own.
    pub fn copy(self, copy: &str) -> (builder: Self)
        ensures
            builder@ == self@.with_copy(copy@),
    {
        let mut builder = self;
        builder.message.copy = Some(copy.to_owned());
        builder
    }

    /// The ringtone, by name.
    pub fn sound(self, sound: &str) -> (builder: Self)
        ensures
            builder@ == self@.with_sound(sound@),
    {
        let mut builder = self;
        builder.message.sound = Some(sound.to_owned());
        builder
    }

    /// The address of an icon to show.
    pub fn icon(self, icon: &str) -> (builder: Self)
        ensures
            builder@ == self@.with_icon(icon@),
    {
        let mut builder = self;
        builder.message.icon = Some(icon.to_owned());
        builder
    }

    /// The group under which the device files the notification.
    pub fn group(self, group: &str) -> (builder: Self)
        ensures
            builder@ == self@.with_group(group@),
    {
        let mut builder = self;
        builder.message.group = Some(group.to_owned());
        builder
    }

    /// The notification in encrypted form.
    pub fn ciphertext(self, ciphertext: &str) -> (builder: Self)
        ensures
            builder@ == self@.with_ciphertext(ciphertext@),
    {
        let mut builder = self;
        builder.message.ciphertext = Some(ciphertext.to_owned());
        builder
    }

    /// Whether the device keeps the notification in its history.
    pub fn is_archive(self, is_archive: bool) -> (builder: Self)
        ensures
            builder@ == self@.with_is_archive(is_archive),
    {
        let mut builder = self;
        builder.message.is_archive = Some(is_archive);
        builder
    }

    /// The address to open when the notification is tapped.
    pub fn url(self, url: &str) -> (builder: Self)
        ensures
            builder@ == self@.with_url(url@),
    {
        let mut builder = self;
        builder.message.url = Some(url.to_owned());
        builder
    }

    /// What a tap does.
    pub fn action(self, action: &str) -> (builder: Self)
        ensures
            builder@ == self@.with_action(action@),
    {
        let mut builder = self;
        builder.message.action = Some(action.to_owned());
        builder
    }

    /// The identifier under which a later notification replaces or deletes this one.
    pub fn id(self, id: &str) -> (builder: Self)
        ensures
            builder@ == self@.with_id(id@),
    {
        let mut builder = self;
        builder.message.id = Some(id.to_owned());
        builder
    }

    /// Whether the notification with this identifier is to be deleted.
    pub fn delete(self, delete: bool) -> (builder: Self)
        ensures
            builder@ == self@.with_delete(delete),
    {
        let mut builder = self;
        builder.message.delete = Some(delete);
        builder
    }

    /// The message as assembled.
    pub fn build(self) -> (message: BarkMessage)
        ensures
            message@ == self@,
    {
        self.message
    }
}

/// On a message on which no volume is set, a volume of at most 10 is taken as
/// it is, and after one above 10 the message still has none.
pub proof fn lemma_volume_of_fresh_message(volume: u8)
    ensures
        volume <= 10 ==> MessageView::empty().with_volume(volume).volume == Some(volume),
        volume > 10 ==> MessageView::empty().with_volume(volume).volume is None,
{
}

/// A volume above 10 changes nothing, whatever was set before.
pub proof fn lemma_volume_above_range_is_passed_over(message: MessageView, volume: u8)
    requires
        volume > 10,
    ensures
        message.with_volume(volume) == message,
{
}

/// Of two volumes set one after the other the second stays, where it is at
/// most 10.
pub proof fn lemma_later_volume_wins(message: MessageView, first: u8, second: u8)
    requires
        second <= 10,
    ensures
        message.with_volume(first).with_volume(second) == message.with_volume(second),
{
}

/// Of two texts set for one field, one after the other, the second stays: the
/// message is as if the first had never been set.
pub proof fn lemma_later_text_wins(message: MessageView, first: Seq<char>, second: Seq<char>)
    ensures
        message.with_body(first).with_body(second) == message.with_body(second),
        message.with_title(first).with_title(second) == message.with_title(second),
        message.with_subtitle(first).with_subtitle(second) == message.with_subtitle(second),
        message.with_device_key(first).with_device_key(second) == message.with_device_key(second),
        message.with_copy(first).with_copy(second) == message.with_copy(second),
        message.with_sound(first).with_sound(second) == message.with_sound(second),
        message.with_icon(first).with_icon(second) == message.with_icon(second),
        message.with_group(first).with_group(second) == message.with_group(second),
        message.with_ciphertext(first).with_ciphertext(second) == message.with_ciphertext(second),
        message.with_url(first).with_url(second) == message.with_url(second),
        message.with_action(first).with_action(second) == message.with_action(second),
        message.with_id(first).with_id(second) == message.with_id(second),
{
}

/// Of two values set for one flag, one after the other, the second stays.
pub proof fn lemma_later_flag_wins(message: MessageView, first: bool, second: bool)
    ensures
        message.with_call(first).with_call(second) == message.with_call(second),
        message.with_auto_copy(first).with_auto_copy(second) == message.with_auto_copy(second),
        message.with_is_archive(first).with_is_archive(second) == message.with_is_archive(second),
        message.with_delete(first).with_delete(second) == message.with_delete(second),
{
}

/// Of two levels set one after the other the second stays.
pub proof fn lemma_later_level_wins(message: MessageView, first: Level, second: Level)
    ensures
        message.with_level(first).with_level(second) == message.with_level(second),
{
}

/// Of two badges set one after the other the second stays.
pub proof fn lemma_later_badge_wins(message: MessageView, first: u32, second: u32)
    ensures
        message.with_badge(first).with_badge(second) == message.with_badge(second),
{
}

/// Of two lists of devices set one after the other the second stays.
pub proof fn lemma_later_device_keys_win(
    message: MessageView,
    first: Seq<Seq<char>>,
    second: Seq<Seq<char>>,
)
    ensures
        message.with_device_keys(first).with_device_keys(second) == message.with_device_keys(
            second,
        ),
{
}

} // verus!
