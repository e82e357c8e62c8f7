//! The client: where pushes go, on whose behalf, and the request that each
//! one makes.

use crate::error::BarkError;
use crate::json::{
    empty_object, entries_of, integer_value, json_of, object_insert, text_array, text_list_value,
    text_value, texts_of, Json,
};
use crate::message::{text_of, BarkMessage, BarkMessageBuilder, Level, MessageView};
use crate::wire::{
    flag_member, lemma_device_key_member, lemma_member_ranks, lemma_member_step,
    lemma_members_all, lemma_members_none, lemma_payload_passes_over_own_key, lemma_wire_members,
    member_rank, text_member,
    wire_member, wire_payload, wire_payload_upto,
};
use vstd::prelude::*;

verus! {

/// `url` without the slashes at its end.
pub open spec fn without_trailing_slashes(url: Seq<char>) -> Seq<char>
    decreases url.len(),
{
    if url.len() > 0 && url.last() == '/' {
        without_trailing_slashes(url.drop_last())
    } else {
        url
    }
}

/// What [`without_trailing_slashes`] leaves is the start of `url` up to its
/// last character that is no slash: it ends in no slash, and all that was cut
/// off is slashes.
pub proof fn lemma_without_trailing_slashes(url: Seq<char>)
    ensures
        without_trailing_slashes(url).is_prefix_of(url),
        without_trailing_slashes(url).len() > 0 ==> without_trailing_slashes(url).last() != '/',
        forall|i: int| without_trailing_slashes(url).len() <= i < url.len() ==> url[i] == '/',
    decreases url.len(),
{
    if url.len() > 0 && url.last() == '/' {
        lemma_without_trailing_slashes(url.drop_last());
        let rest = without_trailing_slashes(url.drop_last());
        assert(rest.is_prefix_of(url));
        assert forall|i: int| rest.len() <= i < url.len() implies url[i] == '/' by {
            if i < url.len() - 1 {
                assert(url.drop_last()[i] == '/');
            }
        }
    }
}

/// The device that a push to one device goes to: the message's own, and the
/// client's where the message names none.
pub open spec fn effective_key(own: Option<Seq<char>>, default: Option<Seq<char>>) -> Option<
    Seq<char>,
> {
    if own is Some {
        own
    } else {
        default
    }
}

/// What a JSON value written for a member holds, if one is written.
spec fn member_of(value: Option<serde_json::Value>) -> Option<Json> {
    match value {
        Some(v) => Some(json_of(v)),
        None => None,
    }
}

/// Removes the slashes at the end of `url`.
fn trim_trailing_slashes(url: &str) -> (trimmed: String)
    ensures
        trimmed@ == without_trailing_slashes(url@),
{
    let mut end: usize = url.unicode_len();
    assert(url@.subrange(0, end as int) =~= url@);
    while end > 0 && url.get_char(end - 1) == '/'
        invariant
            end <= url@.len(),
            without_trailing_slashes(url@.subrange(0, end as int)) == without_trailing_slashes(
                url@,
            ),
        decreases end,
    {
        assert(url@.subrange(0, end as int).drop_last() =~= url@.subrange(0, end - 1));
        end -= 1;
    }
    url.substring_char(0, end).to_owned()
}

/// The JSON string for a text field, where the field is set.
fn text_field(field: &Option<String>) -> (value: Option<serde_json::Value>)
    ensures
        member_of(value) == text_member(text_of(*field)),
{
    match field {
        Some(text) => Some(text_value(text.as_str())),
        None => None,
    }
}

/// The JSON string `"1"` or `"0"` for a flag, where the flag is set.
fn flag_field(field: Option<bool>) -> (value: Option<serde_json::Value>)
    ensures
        member_of(value) == flag_member(field),
{
    match field {
        Some(flag) => Some(text_value(if flag { "1" } else { "0" })),
        None => None,
    }
}

/// Writes the member of the next rank into `payload`, where the message has
/// one under that name.
fn put_member(
    payload: &mut serde_json::Map<String, serde_json::Value>,
    key: &str,
    value: Option<serde_json::Value>,
    Ghost(message): Ghost<MessageView>,
)
    requires
        member_rank(key@) > 0,
        entries_of(*old(payload)) == wire_payload_upto(
            message,
            None,
            (member_rank(key@) - 1) as nat,
        ),
        wire_member(message, None, key@) == member_of(value),
    ensures
        entries_of(*final(payload)) == wire_payload_upto(message, None, member_rank(key@)),
{
    proof {
        lemma_member_step(message, None, key@);
    }
    if let Some(v) = value {
        object_insert(payload, key, v);
    }
}

/// A client as contracts see it.
pub struct ClientView {
    /// The server's address, without a slash at its end.
    pub base_url: Seq<char>,
    /// The device pushed to where a message names none.
    pub default_device_key: Option<Seq<char>>,
}

/// A request as contracts see it.
pub struct RequestView {
    /// Address to post to.
    pub url: Seq<char>,
    /// Members of the JSON object to post.
    pub payload: Map<Seq<char>, Json>,
}

/// The one request that a push makes: a JSON object to post, and where to.
#[derive(Debug)]
pub struct PushRequest {
    /// Address to post to.
    pub url: String,
    /// Members of the JSON object to post.
    pub payload: serde_json::Map<String, serde_json::Value>,
}

impl View for PushRequest {
    type V = RequestView;

    open spec fn view(&self) -> RequestView {
        RequestView { url: self.url@, payload: entries_of(self.payload) }
    }
}

/// The request that a client makes for a message, or `None` where the push
/// goes to one device and neither names it.
///
/// A message with `device_keys` is sent to those devices: the payload then
/// holds no `device_key`, whatever the message and the client say of one.
pub open spec fn push_request(client: ClientView, message: MessageView) -> Option<RequestView> {
    let url = client.base_url + "/push"@;
    if message.device_keys is Some {
        Some(RequestView { url, payload: wire_payload(message, None) })
    } else {
        match effective_key(message.device_key, client.default_device_key) {
            Some(key) => Some(RequestView { url, payload: wire_payload(message, Some(key)) }),
            None => None,
        }
    }
}

/// A message that lists devices is sent to them, whatever it or the client
/// says of a single device: the request is made, its payload names the listed
/// devices and no single one, and neither the message's `device_key` nor the
/// client's changes it.
pub proof fn lemma_device_keys_decide_route(
    client: ClientView,
    message: MessageView,
    other_key: Option<Seq<char>>,
    other_default: Option<Seq<char>>,
)
    requires
        message.device_keys is Some,
    ensures
        push_request(client, message) is Some,
        push_request(client, message).unwrap().payload == wire_payload(message, None),
        !push_request(client, message).unwrap().payload.contains_key("device_key"@),
        push_request(client, message).unwrap().payload.contains_key("device_keys"@),
        push_request(client, message).unwrap().payload["device_keys"@] == text_array(
            message.device_keys.unwrap(),
        ),
        push_request(
            ClientView { default_device_key: other_default, ..client },
            MessageView { device_key: other_key, ..message },
        ) == push_request(client, message),
{
    lemma_wire_members(message, None);
    lemma_payload_passes_over_own_key(message, other_key, None);
}

/// No request is made for a push to one device that neither the message nor
/// the client names, and one is made for every other push.
pub proof fn lemma_missing_device_key(client: ClientView, message: MessageView)
    ensures
        push_request(client, message) is None <==> message.device_keys is None
            && message.device_key is None && client.default_device_key is None,
{
}

/// A push to one device carries that device's key: the message's own where it
/// has one, and else the client's.
pub proof fn lemma_single_push_names_its_device(client: ClientView, message: MessageView)
    requires
        message.device_keys is None,
        push_request(client, message) is Some,
    ensures
        push_request(client, message).unwrap().payload.contains_key("device_key"@),
        message.device_key is Some ==> push_request(client, message).unwrap().payload[
            "device_key"@
        ] == Json::Text(message.device_key.unwrap()),
        message.device_key is None ==> push_request(client, message).unwrap().payload[
            "device_key"@
        ] == Json::Text(client.default_device_key.unwrap()),
        !push_request(client, message).unwrap().payload.contains_key("device_keys"@),
{
    lemma_wire_members(message, effective_key(message.device_key, client.default_device_key));
}

/// A client of one server: it makes the request for each push, to one device
/// of its own unless the message says otherwise.
pub struct SyncBarkClient {
    base_url: String,
    default_device_key: Option<String>,
}

impl View for SyncBarkClient {
    type V = ClientView;

    closed spec fn view(&self) -> ClientView {
        ClientView {
            base_url: self.base_url@,
            default_device_key: text_of(self.default_device_key),
        }
    }
}

impl SyncBarkClient {
    /// A client for the server at `base_url`, without a device of its own.
    pub fn new(base_url: &str) -> (client: Self)
        ensures
            client@.base_url == without_trailing_slashes(base_url@),
            client@.default_device_key is None,
    {
        SyncBarkClient { base_url: trim_trailing_slashes(base_url), default_device_key: None }
    }

    /// A client for the server at `base_url` that pushes to the device
    /// `device_key` where a message names none.
    pub fn with_device_key(base_url: &str, device_key: &str) -> (client: Self)
        ensures
            client@.base_url == without_trailing_slashes(base_url@),
            client@.default_device_key == Some(device_key@),
    {
        SyncBarkClient {
            base_url: trim_trailing_slashes(base_url),
            default_device_key: Some(device_key.to_owned()),
        }
    }

    /// The server's address, without a slash at its end.
    pub fn base_url(&self) -> (url: &str)
        ensures
            url@ == self@.base_url,
    {
        self.base_url.as_str()
    }

    /// The device pushed to where a message names none.
    pub fn default_device_key(&self) -> (key: Option<&str>)
        ensures
            match key {
                Some(k) => self@.default_device_key == Some(k@),
                None => self@.default_device_key is None,
            },
    {
        match &self.default_device_key {
            Some(key) => Some(key.as_str()),
            None => None,
        }
    }

    /// The device that a push of `message` to one device goes to.
    pub fn get_device_key(&self, message: &BarkMessage) -> (key: Result<String, BarkError>)
        ensures
            match effective_key(message@.device_key, self@.default_device_key) {
                Some(k) => key is Ok && key->Ok_0@ == k,
                None => key is Err && key->Err_0 is MissingDeviceKey,
            },
    {
        if let Some(key) = &message.device_key {
            Ok(key.clone())
        } else if let Some(key) = &self.default_device_key {
            Ok(key.clone())
        } else {
            Err(BarkError::MissingDeviceKey)
        }
    }

    /// Builds the JSON object that stands for `message`, without the key of a
    /// single device.
    pub fn build_json_payload(&self, message: &BarkMessage) -> (built: Result<
        serde_json::Map<String, serde_json::Value>,
        BarkError,
    >)
        ensures
            built is Ok,
            entries_of(built->Ok_0) == wire_payload(message@, None),
    {
        let ghost wanted = message@;
        let mut payload = empty_object();
        proof {
            lemma_member_ranks();
            lemma_members_none(wanted, None);
            assert(entries_of(payload) =~= wire_payload_upto(wanted, None, 0));
        }
        let body = Some(text_value(message.body.as_str()));
        put_member(&mut payload, "body", body, Ghost(wanted));
        put_member(&mut payload, "title", text_field(&message.title), Ghost(wanted));
        put_member(&mut payload, "subtitle", text_field(&message.subtitle), Ghost(wanted));
        let device_keys = match &message.device_keys {
            Some(keys) => match text_list_value(keys) {
                Ok(list) => Some(list),
                Err(error) => {
                    return Err(BarkError::from(error));
                },
            },
            None => None,
        };
        put_member(&mut payload, "device_keys", device_keys, Ghost(wanted));
        let level = match &message.level {
            Some(level) => Some(text_value(level.as_str())),
            None => None,
        };
        put_member(&mut payload, "level", level, Ghost(wanted));
        let volume = match message.volume {
            Some(volume) => if volume <= 10 {
                Some(integer_value(volume as u64))
            } else {
                None
            },
            None => None,
        };
        put_member(&mut payload, "volume", volume, Ghost(wanted));
        let badge = match message.badge {
            Some(badge) => Some(integer_value(badge as u64)),
            None => None,
        };
        put_member(&mut payload, "badge", badge, Ghost(wanted));
        put_member(&mut payload, "call", flag_field(message.call), Ghost(wanted));
        put_member(&mut payload, "autoCopy", flag_field(message.auto_copy), Ghost(wanted));
        put_member(&mut payload, "copy", text_field(&message.copy), Ghost(wanted));
        put_member(&mut payload, "sound", text_field(&message.sound), Ghost(wanted));
        put_member(&mut payload, "icon", text_field(&message.icon), Ghost(wanted));
        put_member(&mut payload, "group", text_field(&message.group), Ghost(wanted));
        put_member(&mut payload, "ciphertext", text_field(&message.ciphertext), Ghost(wanted));
        put_member(&mut payload, "isArchive", flag_field(message.is_archive), Ghost(wanted));
        put_member(&mut payload, "url", text_field(&message.url), Ghost(wanted));
        put_member(&mut payload, "action", text_field(&message.action), Ghost(wanted));
        put_member(&mut payload, "id", text_field(&message.id), Ghost(wanted));
        put_member(&mut payload, "delete", flag_field(message.delete), Ghost(wanted));
        proof {
            lemma_member_step(wanted, None, "device_key"@);
            lemma_members_all(wanted, None);
        }
        Ok(payload)
    }

    /// The address that pushes are posted to.
    fn push_url(&self) -> (url: String)
        ensures
            url@ == self@.base_url + "/push"@,
    {
        self.base_url.clone().concat("/push")
    }

    /// The request that pushes `message` to one device: the message's own, or
    /// the client's where the message names none.
    fn single_request(&self, message: &BarkMessage) -> (request: Result<PushRequest, BarkError>)
        ensures
            match effective_key(message@.device_key, self@.default_device_key) {
                Some(key) => request is Ok && request->Ok_0@ == (RequestView {
                    url: self@.base_url + "/push"@,
                    payload: wire_payload(message@, Some(key)),
                }),
                None => request is Err && request->Err_0 is MissingDeviceKey,
            },
    {
        let device_key = match self.get_device_key(message) {
            Ok(key) => key,
            Err(error) => {
                return Err(error);
            },
        };
        let url = self.push_url();
        let mut payload = match self.build_json_payload(message) {
            Ok(payload) => payload,
            Err(error) => {
                return Err(error);
            },
        };
        object_insert(&mut payload, "device_key", text_value(device_key.as_str()));
        proof {
            lemma_device_key_member(message@, device_key@);
        }
        Ok(PushRequest { url, payload })
    }

    /// The request that pushes `message` to the devices it lists.
    fn batch_request(&self, message: &BarkMessage) -> (request: Result<PushRequest, BarkError>)
        ensures
            request is Ok,
            request->Ok_0@ == (RequestView {
                url: self@.base_url + "/push"@,
                payload: wire_payload(message@, None),
            }),
    {
        let url = self.push_url();
        let payload = match self.build_json_payload(message) {
            Ok(payload) => payload,
            Err(error) => {
                return Err(error);
            },
        };
        Ok(PushRequest { url, payload })
    }

    /// The request that pushes `message`: to the devices it lists, where it
    /// lists any, and else to one device.
    ///
    /// Fails with [`BarkError::MissingDeviceKey`], before anything is sent,
    /// where the push goes to one device and neither the message nor the
    /// client names it.
    pub fn request(&self, message: &BarkMessage) -> (request: Result<PushRequest, BarkError>)
        ensures
            match push_request(self@, message@) {
                Some(wanted) => request is Ok && request->Ok_0@ == wanted,
                None => request is Err && request->Err_0 is MissingDeviceKey,
            },
    {
        if message.device_keys.is_some() {
            self.batch_request(message)
        } else {
            self.single_request(message)
        }
    }

    /// Starts a message for this client to push.
    pub fn message(&self) -> (builder: SyncBarkMessageBuilder<'_>)
        ensures
            builder@ == MessageView::empty(),
            builder.sender() == self@,
    {
        SyncBarkMessageBuilder::new(self)
    }
}

/// Assembles a message for one client, and makes the request for it at once.
pub struct SyncBarkMessageBuilder<'a> {
    client: &'a SyncBarkClient,
    builder: BarkMessageBuilder,
}

impl<'a> View for SyncBarkMessageBuilder<'a> {
    type V = MessageView;

    /// The message that `build` would return.
    closed spec fn view(&self) -> MessageView {
        self.builder@
    }
}

impl<'a> SyncBarkMessageBuilder<'a> {
    /// The client that will push the message.
    pub closed spec fn sender(&self) -> ClientView {
        self.client@
    }

    /// A builder for `client` on which nothing is set yet.
    fn new(client: &'a SyncBarkClient) -> (builder: Self)
        ensures
            builder@ == MessageView::empty(),
            builder.sender() == client@,
    {
        SyncBarkMessageBuilder { client, builder: BarkMessageBuilder::new() }
    }

    /// The text of the notification.
    pub fn body(self, body: &str) -> (builder: Self)
        ensures
            builder@ == self@.with_body(body@),
            builder.sender() == self.sender(),
    {
        SyncBarkMessageBuilder { client: self.client, builder: self.builder.body(body) }
    }

    /// The headline.
    pub fn title(self, title: &str) -> (builder: Self)
        ensures
            builder@ == self@.with_title(title@),
            builder.sender() == self.sender(),
    {
        SyncBarkMessageBuilder { client: self.client, builder: self.builder.title(title) }
    }

    /// The second line, below the headline.
    pub fn subtitle(self, subtitle: &str) -> (builder: Self)
        ensures
            builder@ == self@.with_subtitle(subtitle@),
            builder.sender() == self.sender(),
    {
        SyncBarkMessageBuilder { client: self.client, builder: self.builder.subtitle(subtitle) }
    }

    /// The one device to notify. It takes the place of the client's own.
    pub fn device_key(self, device_key: &str) -> (builder: Self)
        ensures
            builder@ == self@.with_device_key(device_key@),
            builder.sender() == self.sender(),
    {
        SyncBarkMessageBuilder { client: self.client, builder: self.builder.device_key(device_key) }
    }

    /// The devices to notify with one request.
    pub fn device_keys(self, device_keys: Vec<String>) -> (builder: Self)
        ensures
            builder@ == self@.with_device_keys(texts_of(device_keys)),
            builder.sender() == self.sender(),
    {
        SyncBarkMessageBuilder {
            client: self.client,
            builder: self.builder.device_keys(device_keys),
        }
    }

    /// The urgency.
    pub fn level(self, level: Level) -> (builder: Self)
        ensures
            builder@ == self@.with_level(level),
            builder.sender() == self.sender(),
    {
        SyncBarkMessageBuilder { client: self.client, builder: self.builder.level(level) }
    }

    /// The loudness of a critical alert. A value above 10 is passed over: the
    /// volume stays as it was.
    pub fn volume(self, volume: u8) -> (builder: Self)
        ensures
            builder@ == self@.with_volume(volume),
            builder.sender() == self.sender(),
    {
        SyncBarkMessageBuilder { client: self.client, builder: self.builder.volume(volume) }
    }

    /// The number shown on the application's icon.
    pub fn badge(self, badge: u32) -> (builder: Self)
        ensures
            builder@ == self@.with_badge(badge),
            builder.sender() == self.sender(),
    {
        SyncBarkMessageBuilder { client: self.client, builder: self.builder.badge(badge) }
    }

    /// Whether the ringtone repeats.
    pub fn call(self, call: bool) -> (builder: Self)
        ensures
            builder@ == self@.with_call(call),
            builder.sender() == self.sender(),
    {
        SyncBarkMessageBuilder { client: self.client, builder: self.builder.call(call) }
    }

    /// Whether the device copies the notification when it arrives.
    pub fn auto_copy(self, auto_copy: bool) -> (builder: Self)
        ensures
            builder@ == self@.with_auto_copy(auto_copy),
            builder.sender() == self.sender(),
    {
        SyncBarkMessageBuilder { client: self.client, builder: self.builder.auto_copy(auto_copy) }
    }

    /// The text to copy in place of the notification's own.
    pub fn copy(self, copy: &str) -> (builder: Self)
        ensures
            builder@ == self@.with_copy(copy@),
            builder.sender() == self.sender(),
    {
        SyncBarkMessageBuilder { client: self.client, builder: self.builder.copy(copy) }
    }

    /// The ringtone, by name.
    pub fn sound(self, sound: &str) -> (builder: Self)
        ensures
            builder@ == self@.with_sound(sound@),
            builder.sender() == self.sender(),
    {
        SyncBarkMessageBuilder { client: self.client, builder: self.builder.sound(sound) }
    }

    /// The address of an icon to show.
    pub fn icon(self, icon: &str) -> (builder: Self)
        ensures
            builder@ == self@.with_icon(icon@),
            builder.sender() == self.sender(),
    {
        SyncBarkMessageBuilder { client: self.client, builder: self.builder.icon(icon) }
    }

    /// The group under which the device files the notification.
    pub fn group(self, group: &str) -> (builder: Self)
        ensures
            builder@ == self@.with_group(group@),
            builder.sender() == self.sender(),
    {
        SyncBarkMessageBuilder { client: self.client, builder: self.builder.group(group) }
    }

    /// The notification in encrypted form.
    pub fn ciphertext(self, ciphertext: &str) -> (builder: Self)
        ensures
            builder@ == self@.with_ciphertext(ciphertext@),
            builder.sender() == self.sender(),
    {
        SyncBarkMessageBuilder { client: self.client, builder: self.builder.ciphertext(ciphertext) }
    }

    /// Whether the device keeps the notification in its history.
    pub fn is_archive(self, is_archive: bool) -> (builder: Self)
        ensures
            builder@ == self@.with_is_archive(is_archive),
            builder.sender() == self.sender(),
    {
        SyncBarkMessageBuilder { client: self.client, builder: self.builder.is_archive(is_archive) }
    }

    /// The address to open when the notification is tapped.
    pub fn url(self, url: &str) -> (builder: Self)
        ensures
            builder@ == self@.with_url(url@),
            builder.sender() == self.sender(),
    {
        SyncBarkMessageBuilder { client: self.client, builder: self.builder.url(url) }
    }

    /// What a tap does.
    pub fn action(self, action: &str) -> (builder: Self)
        ensures
            builder@ == self@.with_action(action@),
            builder.sender() == self.sender(),
    {
        SyncBarkMessageBuilder { client: self.client, builder: self.builder.action(action) }
    }

    /// The identifier under which a later notification replaces or deletes this one.
    pub fn id(self, id: &str) -> (builder: Self)
        ensures
            builder@ == self@.with_id(id@),
            builder.sender() == self.sender(),
    {
        SyncBarkMessageBuilder { client: self.client, builder: self.builder.id(id) }
    }

    /// Whether the notification with this identifier is to be deleted.
    pub fn delete(self, delete: bool) -> (builder: Self)
        ensures
            builder@ == self@.with_delete(delete),
            builder.sender() == self.sender(),
    {
        SyncBarkMessageBuilder { client: self.client, builder: self.builder.delete(delete) }
    }

    /// The request that pushes the message as assembled, as
    /// [`SyncBarkClient::request`] makes it.
    pub fn request(self) -> (request: Result<PushRequest, BarkError>)
        ensures
            match push_request(self.sender(), self@) {
                Some(wanted) => request is Ok && request->Ok_0@ == wanted,
                None => request is Err && request->Err_0 is MissingDeviceKey,
            },
    {
        let message = self.builder.build();
        self.client.request(&message)
    }

    /// The message as assembled, for this client or another to push.
    pub fn build(self) -> (message: BarkMessage)
        ensures
            message@ == self@,
    {
        self.builder.build()
    }
}

} // verus!
