//! The service's wire format: which JSON members stand for a message, and
//! which reply the members of a JSON object spell.

use crate::json::{parsed_object, text_array, Json};
use crate::message::{Level, MessageView};
use vstd::prelude::*;

verus! {

/// How a flag is written: the string `"1"` for true and `"0"` for false, never
/// a JSON boolean.
pub open spec fn flag_text(flag: bool) -> Seq<char> {
    if flag {
        "1"@
    } else {
        "0"@
    }
}

/// A text field as a member: a JSON string where the field is set.
pub open spec fn text_member(field: Option<Seq<char>>) -> Option<Json> {
    match field {
        Some(text) => Some(Json::Text(text)),
        None => None,
    }
}

/// A flag as a member: the JSON string of [`flag_text`] where the flag is set.
pub open spec fn flag_member(field: Option<bool>) -> Option<Json> {
    match field {
        Some(flag) => Some(Json::Text(flag_text(flag))),
        None => None,
    }
}

/// The list of devices as a member: the array of their keys where the list is
/// set, be it empty.
pub open spec fn keys_member(field: Option<Seq<Seq<char>>>) -> Option<Json> {
    match field {
        Some(keys) => Some(text_array(keys)),
        None => None,
    }
}

/// The level as a member: its name as a JSON string where the level is set.
pub open spec fn level_member(field: Option<Level>) -> Option<Json> {
    match field {
        Some(level) => Some(Json::Text(level.wire_name())),
        None => None,
    }
}

/// The volume as a member: a JSON number where the volume is set and at most
/// 10. A volume above 10 is never sent.
pub open spec fn volume_member(field: Option<u8>) -> Option<Json> {
    match field {
        Some(volume) => if volume <= 10 {
            Some(Json::Integer(volume as int))
        } else {
            None
        },
        None => None,
    }
}

/// The badge as a member: a JSON number where the badge is set.
pub open spec fn badge_member(field: Option<u32>) -> Option<Json> {
    match field {
        Some(badge) => Some(Json::Integer(badge as int)),
        None => None,
    }
}

/// The value that the payload holds under `key`, or `None` where it has no
/// such member.
///
/// `device_key` is the key of the one device addressed, and `None` in a
/// request that names its devices under `device_keys`.
pub open spec fn wire_member(
    message: MessageView,
    device_key: Option<Seq<char>>,
    key: Seq<char>,
) -> Option<Json> {
    if key == "body"@ {
        Some(Json::Text(message.body))
    } else if key == "title"@ {
        text_member(message.title)
    } else if key == "subtitle"@ {
        text_member(message.subtitle)
    } else if key == "device_key"@ {
        text_member(device_key)
    } else if key == "device_keys"@ {
        keys_member(message.device_keys)
    } else if key == "level"@ {
        level_member(message.level)
    } else if key == "volume"@ {
        volume_member(message.volume)
    } else if key == "badge"@ {
        badge_member(message.badge)
    } else if key == "call"@ {
        flag_member(message.call)
    } else if key == "autoCopy"@ {
        flag_member(message.auto_copy)
    } else if key == "copy"@ {
        text_member(message.copy)
    } else if key == "sound"@ {
        text_member(message.sound)
    } else if key == "icon"@ {
        text_member(message.icon)
    } else if key == "group"@ {
        text_member(message.group)
    } else if key == "ciphertext"@ {
        text_member(message.ciphertext)
    } else if key == "isArchive"@ {
        flag_member(message.is_archive)
    } else if key == "url"@ {
        text_member(message.url)
    } else if key == "action"@ {
        text_member(message.action)
    } else if key == "id"@ {
        text_member(message.id)
    } else if key == "delete"@ {
        flag_member(message.delete)
    } else {
        None
    }
}

/// The members of the JSON object sent for `message`: exactly those for which
/// [`wire_member`] gives a value.
pub open spec fn wire_payload(message: MessageView, device_key: Option<Seq<char>>) -> Map<
    Seq<char>,
    Json,
> {
    Map::new(
        |key: Seq<char>| wire_member(message, device_key, key) is Some,
        |key: Seq<char>| wire_member(message, device_key, key).unwrap(),
    )
}

/// The place of a member name in the order in which a payload is written,
/// from 1; 0 for any other key.
pub(crate) closed spec fn member_rank(key: Seq<char>) -> nat {
    if key == "body"@ {
        1
    } else if key == "title"@ {
        2
    } else if key == "subtitle"@ {
        3
    } else if key == "device_keys"@ {
        4
    } else if key == "level"@ {
        5
    } else if key == "volume"@ {
        6
    } else if key == "badge"@ {
        7
    } else if key == "call"@ {
        8
    } else if key == "autoCopy"@ {
        9
    } else if key == "copy"@ {
        10
    } else if key == "sound"@ {
        11
    } else if key == "icon"@ {
        12
    } else if key == "group"@ {
        13
    } else if key == "ciphertext"@ {
        14
    } else if key == "isArchive"@ {
        15
    } else if key == "url"@ {
        16
    } else if key == "action"@ {
        17
    } else if key == "id"@ {
        18
    } else if key == "delete"@ {
        19
    } else if key == "device_key"@ {
        20
    } else {
        0
    }
}

/// Each member name has a rank of its own, so no two names are the same.
pub(crate) proof fn lemma_member_ranks()
    ensures
        member_rank("body"@) == 1,
        member_rank("title"@) == 2,
        member_rank("subtitle"@) == 3,
        member_rank("device_keys"@) == 4,
        member_rank("level"@) == 5,
        member_rank("volume"@) == 6,
        member_rank("badge"@) == 7,
        member_rank("call"@) == 8,
        member_rank("autoCopy"@) == 9,
        member_rank("copy"@) == 10,
        member_rank("sound"@) == 11,
        member_rank("icon"@) == 12,
        member_rank("group"@) == 13,
        member_rank("ciphertext"@) == 14,
        member_rank("isArchive"@) == 15,
        member_rank("url"@) == 16,
        member_rank("action"@) == 17,
        member_rank("id"@) == 18,
        member_rank("delete"@) == 19,
        member_rank("device_key"@) == 20,
{
    reveal_strlit("body");
    reveal_strlit("title");
    reveal_strlit("subtitle");
    reveal_strlit("device_keys");
    reveal_strlit("level");
    reveal_strlit("volume");
    reveal_strlit("badge");
    reveal_strlit("call");
    reveal_strlit("autoCopy");
    reveal_strlit("copy");
    reveal_strlit("sound");
    reveal_strlit("icon");
    reveal_strlit("group");
    reveal_strlit("ciphertext");
    reveal_strlit("isArchive");
    reveal_strlit("url");
    reveal_strlit("action");
    reveal_strlit("id");
    reveal_strlit("delete");
    reveal_strlit("device_key");
    assert("body"@.len() == 4);
    assert("title"@.len() == 5);
    assert("subtitle"@.len() == 8);
    assert("device_keys"@.len() == 11);
    assert("level"@.len() == 5);
    assert("volume"@.len() == 6);
    assert("badge"@.len() == 5);
    assert("call"@.len() == 4);
    assert("autoCopy"@.len() == 8);
    assert("copy"@.len() == 4);
    assert("sound"@.len() == 5);
    assert("icon"@.len() == 4);
    assert("group"@.len() == 5);
    assert("ciphertext"@.len() == 10);
    assert("isArchive"@.len() == 9);
    assert("url"@.len() == 3);
    assert("action"@.len() == 6);
    assert("id"@.len() == 2);
    assert("delete"@.len() == 6);
    assert("device_key"@.len() == 10);
    assert("body"@[0] == 'b');
    assert("call"@[0] == 'c');
    assert("copy"@[0] == 'c');
    assert("icon"@[0] == 'i');
    assert("title"@[0] == 't');
    assert("level"@[0] == 'l');
    assert("badge"@[0] == 'b');
    assert("sound"@[0] == 's');
    assert("group"@[0] == 'g');
    assert("volume"@[0] == 'v');
    assert("action"@[0] == 'a');
    assert("delete"@[0] == 'd');
    assert("subtitle"@[0] == 's');
    assert("autoCopy"@[0] == 'a');
    assert("ciphertext"@[0] == 'c');
    assert("device_key"@[0] == 'd');
    assert("call"@[1] == 'a');
    assert("copy"@[1] == 'o');
}

/// The members of the payload whose names have a rank of at most `bound`:
/// what has been written once the name of that rank is dealt with.
pub(crate) open spec fn wire_payload_upto(
    message: MessageView,
    device_key: Option<Seq<char>>,
    bound: nat,
) -> Map<Seq<char>, Json> {
    Map::new(
        |key: Seq<char>|
            member_rank(key) <= bound && wire_member(message, device_key, key) is Some,
        |key: Seq<char>| wire_member(message, device_key, key).unwrap(),
    )
}

/// Before anything is written the payload has no member.
pub(crate) proof fn lemma_members_none(message: MessageView, device_key: Option<Seq<char>>)
    ensures
        wire_payload_upto(message, device_key, 0) == Map::<Seq<char>, Json>::empty(),
{
    lemma_member_ranks();
}

/// Dealing with the name of the next rank adds its member, where it has one,
/// and changes nothing else.
pub(crate) proof fn lemma_member_step(
    message: MessageView,
    device_key: Option<Seq<char>>,
    key: Seq<char>,
)
    requires
        member_rank(key) > 0,
    ensures
        wire_payload_upto(message, device_key, member_rank(key)) == (match wire_member(
            message,
            device_key,
            key,
        ) {
            Some(value) => wire_payload_upto(
                message,
                device_key,
                (member_rank(key) - 1) as nat,
            ).insert(key, value),
            None => wire_payload_upto(message, device_key, (member_rank(key) - 1) as nat),
        }),
{
    assert forall|other: Seq<char>| member_rank(other) == member_rank(key) implies other
        == key by {}
}

/// Once the name of the last rank is dealt with the payload is complete.
pub(crate) proof fn lemma_members_all(message: MessageView, device_key: Option<Seq<char>>)
    ensures
        wire_payload_upto(message, device_key, 20) == wire_payload(message, device_key),
{
    lemma_member_ranks();
}

/// The key of the one device addressed is a member of its own: with it the
/// payload is that of a request to one device, and without it that of a request
/// that names no single device.
pub proof fn lemma_device_key_member(message: MessageView, device_key: Seq<char>)
    ensures
        wire_payload(message, None).insert("device_key"@, Json::Text(device_key)) == wire_payload(
            message,
            Some(device_key),
        ),
{
    lemma_member_ranks();
}

/// Each member name stands for its own field of the message.
pub proof fn lemma_wire_members(message: MessageView, device_key: Option<Seq<char>>)
    ensures
        wire_member(message, device_key, "body"@) == Some(Json::Text(message.body)),
        wire_member(message, device_key, "title"@) == text_member(message.title),
        wire_member(message, device_key, "subtitle"@) == text_member(message.subtitle),
        wire_member(message, device_key, "device_key"@) == text_member(device_key),
        wire_member(message, device_key, "device_keys"@) == keys_member(message.device_keys),
        wire_member(message, device_key, "level"@) == level_member(message.level),
        wire_member(message, device_key, "volume"@) == volume_member(message.volume),
        wire_member(message, device_key, "badge"@) == badge_member(message.badge),
        wire_member(message, device_key, "call"@) == flag_member(message.call),
        wire_member(message, device_key, "autoCopy"@) == flag_member(message.auto_copy),
        wire_member(message, device_key, "copy"@) == text_member(message.copy),
        wire_member(message, device_key, "sound"@) == text_member(message.sound),
        wire_member(message, device_key, "icon"@) == text_member(message.icon),
        wire_member(message, device_key, "group"@) == text_member(message.group),
        wire_member(message, device_key, "ciphertext"@) == text_member(message.ciphertext),
        wire_member(message, device_key, "isArchive"@) == flag_member(message.is_archive),
        wire_member(message, device_key, "url"@) == text_member(message.url),
        wire_member(message, device_key, "action"@) == text_member(message.action),
        wire_member(message, device_key, "id"@) == text_member(message.id),
        wire_member(message, device_key, "delete"@) == flag_member(message.delete),
{
    lemma_member_ranks();
}

/// The payload carries the device that the request was made for, not the one
/// that the message names: the message's `device_key` changes no member.
pub proof fn lemma_payload_passes_over_own_key(
    message: MessageView,
    own_key: Option<Seq<char>>,
    device_key: Option<Seq<char>>,
)
    ensures
        wire_payload(MessageView { device_key: own_key, ..message }, device_key) == wire_payload(
            message,
            device_key,
        ),
{
}

/// A flag travels as the string of the one character `1` or `0`, and no
/// member of a payload is a JSON boolean.
pub proof fn lemma_flags_are_text(message: MessageView, device_key: Option<Seq<char>>)
    ensures
        flag_text(true) == seq!['1'],
        flag_text(false) == seq!['0'],
        wire_payload(message, device_key).contains_key("call"@) ==> message.call is Some
            && wire_payload(message, device_key)["call"@] == Json::Text(
            flag_text(message.call.unwrap()),
        ),
        wire_payload(message, device_key).contains_key("autoCopy"@) ==> message.auto_copy is Some
            && wire_payload(message, device_key)["autoCopy"@] == Json::Text(
            flag_text(message.auto_copy.unwrap()),
        ),
        wire_payload(message, device_key).contains_key("isArchive"@) ==> message.is_archive
            is Some && wire_payload(message, device_key)["isArchive"@] == Json::Text(
            flag_text(message.is_archive.unwrap()),
        ),
        wire_payload(message, device_key).contains_key("delete"@) ==> message.delete is Some
            && wire_payload(message, device_key)["delete"@] == Json::Text(
            flag_text(message.delete.unwrap()),
        ),
        forall|key: Seq<char>| #[trigger]
            wire_payload(message, device_key).contains_key(key) ==> !(wire_payload(
                message,
                device_key,
            )[key] is Bool),
{
    lemma_wire_members(message, device_key);
    reveal_strlit("1");
    reveal_strlit("0");
}

/// A reply as contracts see it.
pub struct ResponseView {
    /// Status of the push.
    pub code: i32,
    /// What the server says of the push.
    pub message: Seq<char>,
    /// When the server handled the push, where it says so.
    pub timestamp: Option<i64>,
}

/// The status that a reply carries under `code`: an integer that fits 32 bits.
/// `None` where the member is missing or holds anything else.
pub open spec fn reply_code(members: Map<Seq<char>, Json>) -> Option<i32> {
    if members.contains_key("code"@) {
        match members["code"@] {
            Json::Integer(n) => if i32::MIN <= n <= i32::MAX {
                Some(n as i32)
            } else {
                None
            },
            _ => None,
        }
    } else {
        None
    }
}

/// The text that a reply carries under `message`. `None` where the member is
/// missing or is no string.
pub open spec fn reply_message(members: Map<Seq<char>, Json>) -> Option<Seq<char>> {
    if members.contains_key("message"@) {
        match members["message"@] {
            Json::Text(text) => Some(text),
            _ => None,
        }
    } else {
        None
    }
}

/// The time that a reply carries under `timestamp`: `Some(None)` where the
/// member is missing or null, `Some(Some(t))` where it is an integer that fits
/// 64 bits, and `None` where it holds anything else.
pub open spec fn reply_timestamp(members: Map<Seq<char>, Json>) -> Option<Option<i64>> {
    if members.contains_key("timestamp"@) {
        match members["timestamp"@] {
            Json::Null => Some(None),
            Json::Integer(n) => if i64::MIN <= n <= i64::MAX {
                Some(Some(n as i64))
            } else {
                None
            },
            _ => None,
        }
    } else {
        Some(None)
    }
}

/// The reply that the members of a JSON object spell, or `None` where they
/// spell none. Members under other names are passed over.
pub open spec fn wire_response(members: Map<Seq<char>, Json>) -> Option<ResponseView> {
    if reply_code(members) is Some && reply_message(members) is Some && reply_timestamp(
        members,
    ) is Some {
        Some(
            ResponseView {
                code: reply_code(members).unwrap(),
                message: reply_message(members).unwrap(),
                timestamp: reply_timestamp(members).unwrap(),
            },
        )
    } else {
        None
    }
}

/// The reply that the bytes of a response body spell, or `None` where they are
/// not the text of a JSON object or the object spells no reply.
pub open spec fn decoded_response(body: Seq<u8>) -> Option<ResponseView> {
    match parsed_object(body) {
        Some(members) => wire_response(members),
        None => None,
    }
}

/// A reply needs its status and its text and nothing more: where `timestamp`
/// is missing or null the reply is read without one.
pub proof fn lemma_reply_without_timestamp(
    members: Map<Seq<char>, Json>,
    code: i32,
    message: Seq<char>,
)
    requires
        members.contains_key("code"@),
        members["code"@] == Json::Integer(code as int),
        members.contains_key("message"@),
        members["message"@] == Json::Text(message),
        !members.contains_key("timestamp"@) || members["timestamp"@] is Null,
    ensures
        wire_response(members) == Some(ResponseView { code, message, timestamp: None }),
{
}

} // verus!
