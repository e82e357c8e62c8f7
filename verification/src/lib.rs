//! A client library for the Bark push-notification service.
//!
//! A push takes three steps, and this library does the first and the last:
//!
//! 1. A [`BarkMessage`] is assembled with a builder, and a [`SyncBarkClient`]
//!    turns it into a [`PushRequest`]: the address to post to and the JSON
//!    object to post. Which members that object has is stated by
//!    [`wire_payload`].
//! 2. The caller posts the request over HTTP, in whatever way suits it.
//! 3. [`BarkResponse::from_reply`] reads the server's reply from what the
//!    transport came back with. Which replies a body spells is stated by
//!    [`wire_response`].
//!
//! Everything here is verified against its contract, except the calls into
//! `serde_json`, whose behaviour is stated without proof where the calls are
//! made.

mod error;
mod json;
mod message;
mod sync_client;
mod wire;

pub use error::BarkError;
pub use json::{entries_of, json_of, parsed_object, text_array, texts_of, Json};
pub use message::{
    lemma_later_badge_wins, lemma_later_device_keys_win, lemma_later_flag_wins,
    lemma_later_level_wins, lemma_later_text_wins, lemma_later_volume_wins,
    lemma_volume_above_range_is_passed_over, lemma_volume_of_fresh_message, text_of, BarkMessage,
    BarkMessageBuilder, BarkResponse, Level, MessageView,
};
pub use sync_client::{
    effective_key, lemma_device_keys_decide_route, lemma_missing_device_key,
    lemma_single_push_names_its_device, lemma_without_trailing_slashes, push_request,
    without_trailing_slashes, ClientView, PushRequest, RequestView, SyncBarkClient,
    SyncBarkMessageBuilder,
};
/// The client under its shorter name.
pub use sync_client::SyncBarkClient as BarkClient;
pub use wire::{
    badge_member, decoded_response, flag_member, flag_text, keys_member, lemma_device_key_member,
    lemma_flags_are_text, lemma_payload_passes_over_own_key, lemma_reply_without_timestamp,
    lemma_wire_members, level_member, reply_code, reply_message, reply_timestamp, text_member,
    volume_member, wire_member, wire_payload, wire_response, ResponseView,
};
