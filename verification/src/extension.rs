//! The browser extension's session state: the addresses of the BlockMesh
//! services, the signed-in user's e-mail and API token, the device id and the
//! settings that the extension's storage sends. Values arrive from storage as
//! JSON and are read as text; the session counts as signed in once an e-mail
//! and an API token are known.

use vstd::prelude::*;
use crate::text::{
    json_string, json_string_text, trim_end_quotes, trim_start_quotes, strip_trailing,
    strip_leading, ascii_lowercase, is_plain_text, lemma_plain_text_unquotes_to_itself, ascii_lowercase_text, parse_i64, i64_from_text,
};
use crate::ids::{uuid_from_text, uuid_parse, lemma_uuid_text_reads_back, uuid_text, lemma_uuid_text_is_plain, random_uuid, uuid_version, uuid_variant_bits, lemma_version_four_is_not_nil};
use crate::clock::utc_now;

verus! {

pub const DEFAULT_BLOCKMESH_URL: &'static str = "https://app.blockmesh.xyz";
pub const DEFAULT_BLOCKMESH_WS_URL: &'static str = "https://ws.blockmesh.xyz";
pub const DEFAULT_BLOCKMESH_IDS_URL: &'static str = "https://ids.blockmesh.xyz";
pub const DEFAULT_BLOCKMESH_IDS2_URL: &'static str = "https://ids2.blockmesh.xyz";
pub const DEFAULT_BLOCKMESH_DATA_SINK_URL: &'static str = "https://data-sink.blockmesh.xyz";
pub const DEFAULT_MINIMAL_VERSION: &'static str = "0.0.515";
pub const DEFAULT_TWITTER_CREDS_URL: &'static str = "https://x.com/i/api/graphql/QGMTWxm841rbDndB-yQhIw/SearchTimeline";

/// Whether the extension's user is signed in.
#[derive(Clone, Copy, Debug, PartialEq, Eq, Structural)]
pub enum AuthStatus {
    LoggedIn,
    LoggedOut,
}

/// The storage keys of the extension.
#[derive(Clone, Copy, Debug, PartialEq, Eq, Structural)]
pub enum MessageKey {
    All,
    ApiToken,
    BlockMeshDataSinkUrl,
    BlockMeshIds2Url,
    BlockMeshIdsUrl,
    BlockMeshUrl,
    BlockMeshWsUrl,
    DeviceId,
    DownloadSpeed,
    Email,
    FeedOrigin,
    FeedSelector,
    Interactive,
    InviteCode,
    LastUpdate,
    MinimalVersion,
    TwitterCredsBearerToken,
    TwitterCredsCsrf,
    TwitterCredsUrl,
    UploadSpeed,
    Uptime,
    WalletAddress,
    Wootz,
}

/// The first value of a JSON object that storage sent.
pub enum StorageField {
    /// A JSON string.
    Str(String),
    /// Any other JSON value, as its compact JSON text.
    Json(String),
}

/// A value that storage sent for a key, as much of its JSON as is read.
pub enum StorageValue {
    /// A JSON string.
    Str(String),
    /// A JSON object, with its first value (`None` when it is empty).
    Object(Option<StorageField>),
    /// Any other JSON value.
    Other,
}

/// The JSON text with its leading and trailing double quotes removed.
pub open spec fn unquoted(json: Seq<char>) -> Seq<char> {
    strip_leading(strip_trailing(json, '"'), '"')
}

/// The text that a storage value gives: the JSON text of a string, or of an
/// object's first value (an empty string when the object is empty), without
/// its surrounding quotes; nothing for any other value.
pub open spec fn storage_text_of(value: StorageValue) -> Seq<char> {
    match value {
        StorageValue::Str(s) => unquoted(json_string_text(s@)),
        StorageValue::Object(Some(StorageField::Str(s))) => unquoted(json_string_text(s@)),
        StorageValue::Object(Some(StorageField::Json(t))) => unquoted(t@),
        StorageValue::Object(None) => unquoted(json_string_text(Seq::empty())),
        StorageValue::Other => Seq::empty(),
    }
}

/// The text of a storage value (see `storage_text_of`).
pub fn storage_text(value: &StorageValue) -> (text: String)
    ensures
        text@ == storage_text_of(*value),
{
    let json = match value {
        StorageValue::Str(s) => json_string(s.as_str()),
        StorageValue::Object(Some(StorageField::Str(s))) => json_string(s.as_str()),
        StorageValue::Object(Some(StorageField::Json(t))) => t.clone(),
        StorageValue::Object(None) => {
            proof {
                reveal_strlit("");
            }
            json_string("")
        },
        StorageValue::Other => {
            return String::new();
        },
    };
    let trimmed = trim_end_quotes(json.as_str());
    trim_start_quotes(trimmed.as_str())
}

/// An integer setting read from text: its decimal value, or 0.
pub open spec fn int_setting(text: Seq<char>) -> i64 {
    match i64_from_text(text) {
        Some(v) => v,
        None => 0,
    }
}

/// A UUID read from text: the UUID, or the nil UUID.
pub open spec fn uuid_setting(text: Seq<char>) -> u128 {
    match uuid_parse(text) {
        Some(v) => v,
        None => 0,
    }
}

/// The session state of the extension.
pub struct ExtensionContext {
    pub email: String,
    pub api_token: u128,
    pub device_id: u128,
    pub blockmesh_url: String,
    pub blockmesh_ws_url: String,
    pub blockmesh_ids_url: String,
    pub blockmesh_ids2_url: String,
    pub blockmesh_data_sink_url: String,
    pub status: AuthStatus,
    pub invite_code: String,
    pub success: Option<String>,
    pub error: Option<String>,
    pub last_update: i64,
    pub wallet_address: Option<String>,
    pub twitter_creds_url: String,
    pub twitter_creds_csrf: String,
    pub twitter_creds_bearer_token: String,
    pub feed_origin: String,
    pub feed_selector: String,
    pub wootz: String,
    pub interactive: i64,
    pub fp: String,
    pub minimal_version: String,
}

impl ExtensionContext {
    /// The state of a fresh extension: the public service addresses, no
    /// user, no token, no device id, signed out.
    pub open spec fn is_initial(self) -> bool {
        &&& self.fp@ == Seq::<char>::empty()
        &&& self.minimal_version@ == DEFAULT_MINIMAL_VERSION@
        &&& self.email@ == Seq::<char>::empty()
        &&& self.api_token == 0
        &&& self.device_id == 0
        &&& self.blockmesh_url@ == DEFAULT_BLOCKMESH_URL@
        &&& self.blockmesh_ws_url@ == DEFAULT_BLOCKMESH_WS_URL@
        &&& self.blockmesh_ids_url@ == DEFAULT_BLOCKMESH_IDS_URL@
        &&& self.blockmesh_ids2_url@ == DEFAULT_BLOCKMESH_IDS2_URL@
        &&& self.blockmesh_data_sink_url@ == DEFAULT_BLOCKMESH_DATA_SINK_URL@
        &&& self.status == AuthStatus::LoggedOut
        &&& self.invite_code@ == Seq::<char>::empty()
        &&& self.success is None
        &&& self.error is None
        &&& self.last_update == 0
        &&& self.wallet_address is None
        &&& self.twitter_creds_url@ == DEFAULT_TWITTER_CREDS_URL@
        &&& self.twitter_creds_csrf@ == Seq::<char>::empty()
        &&& self.twitter_creds_bearer_token@ == Seq::<char>::empty()
        &&& self.feed_origin@ == Seq::<char>::empty()
        &&& self.feed_selector@ == Seq::<char>::empty()
        &&& self.wootz@ == Seq::<char>::empty()
        &&& self.interactive == 0
    }

    /// The session holds an API token: it is not the nil UUID.
    pub open spec fn holds_api_token(self) -> bool {
        self.api_token != 0
    }

    /// After a storage message the session is to be marked signed in: an
    /// e-mail and an API token are known and it is not signed in yet.
    pub open spec fn login_due(self) -> bool {
        &&& self.email@.len() > 0
        &&& self.api_token != 0
        &&& self.status != AuthStatus::LoggedIn
    }
}

impl Default for ExtensionContext {
    fn default() -> (s: Self)
        ensures
            s.is_initial(),
    {
        ExtensionContext {
            fp: String::new(),
            minimal_version: String::from_str(DEFAULT_MINIMAL_VERSION),
            email: String::new(),
            api_token: 0,
            device_id: 0,
            blockmesh_url: String::from_str(DEFAULT_BLOCKMESH_URL),
            blockmesh_ws_url: String::from_str(DEFAULT_BLOCKMESH_WS_URL),
            blockmesh_ids_url: String::from_str(DEFAULT_BLOCKMESH_IDS_URL),
            blockmesh_ids2_url: String::from_str(DEFAULT_BLOCKMESH_IDS2_URL),
            blockmesh_data_sink_url: String::from_str(DEFAULT_BLOCKMESH_DATA_SINK_URL),
            status: AuthStatus::LoggedOut,
            invite_code: String::new(),
            success: None,
            error: None,
            last_update: 0,
            wallet_address: None,
            twitter_creds_url: String::from_str(DEFAULT_TWITTER_CREDS_URL),
            twitter_creds_csrf: String::new(),
            twitter_creds_bearer_token: String::new(),
            feed_origin: String::new(),
            feed_selector: String::new(),
            wootz: String::new(),
            interactive: 0,
        }
    }
}

impl ExtensionContext {
    /// The text field that a storage key sets directly, if it is one.
    pub open spec fn text_field(self, key: MessageKey) -> Option<Seq<char>> {
        match key {
            MessageKey::MinimalVersion => Some(self.minimal_version@),
            MessageKey::Wootz => Some(self.wootz@),
            MessageKey::TwitterCredsUrl => Some(self.twitter_creds_url@),
            MessageKey::TwitterCredsCsrf => Some(self.twitter_creds_csrf@),
            MessageKey::TwitterCredsBearerToken => Some(self.twitter_creds_bearer_token@),
            MessageKey::BlockMeshIdsUrl => Some(self.blockmesh_ids_url@),
            MessageKey::BlockMeshIds2Url => Some(self.blockmesh_ids2_url@),
            MessageKey::BlockMeshDataSinkUrl => Some(self.blockmesh_data_sink_url@),
            MessageKey::BlockMeshUrl => Some(self.blockmesh_url@),
            MessageKey::BlockMeshWsUrl => Some(self.blockmesh_ws_url@),
            MessageKey::InviteCode => Some(self.invite_code@),
            MessageKey::FeedOrigin => Some(self.feed_origin@),
            MessageKey::FeedSelector => Some(self.feed_selector@),
            _ => None,
        }
    }
}

/// `post` is `pre` after storage sent `text` for `key`: a text key stores the
/// text; `Interactive` and `LastUpdate` store its decimal value (0 when it is
/// not one); `ApiToken` and `DeviceId` store the UUID it holds (nil when it
/// holds none); `Email` stores it in ASCII lower case; `WalletAddress` stores
/// it, or nothing when it is empty. `All` and the speed and uptime keys
/// (whose values are numbers with a fraction, kept by the caller) change
/// nothing here, and no key changes anything else.
pub open spec fn storage_applied(pre: ExtensionContext, key: MessageKey, text: Seq<char>, post: ExtensionContext) -> bool {
    &&& post.minimal_version@ == (if key == MessageKey::MinimalVersion { text } else { pre.minimal_version@ })
    &&& post.wootz@ == (if key == MessageKey::Wootz { text } else { pre.wootz@ })
    &&& post.twitter_creds_url@ == (if key == MessageKey::TwitterCredsUrl { text } else { pre.twitter_creds_url@ })
    &&& post.twitter_creds_csrf@ == (if key == MessageKey::TwitterCredsCsrf { text } else { pre.twitter_creds_csrf@ })
    &&& post.twitter_creds_bearer_token@ == (if key == MessageKey::TwitterCredsBearerToken { text } else { pre.twitter_creds_bearer_token@ })
    &&& post.blockmesh_ids_url@ == (if key == MessageKey::BlockMeshIdsUrl { text } else { pre.blockmesh_ids_url@ })
    &&& post.blockmesh_ids2_url@ == (if key == MessageKey::BlockMeshIds2Url { text } else { pre.blockmesh_ids2_url@ })
    &&& post.blockmesh_data_sink_url@ == (if key == MessageKey::BlockMeshDataSinkUrl { text } else { pre.blockmesh_data_sink_url@ })
    &&& post.blockmesh_url@ == (if key == MessageKey::BlockMeshUrl { text } else { pre.blockmesh_url@ })
    &&& post.blockmesh_ws_url@ == (if key == MessageKey::BlockMeshWsUrl { text } else { pre.blockmesh_ws_url@ })
    &&& post.invite_code@ == (if key == MessageKey::InviteCode { text } else { pre.invite_code@ })
    &&& post.feed_origin@ == (if key == MessageKey::FeedOrigin { text } else { pre.feed_origin@ })
    &&& post.feed_selector@ == (if key == MessageKey::FeedSelector { text } else { pre.feed_selector@ })
    &&& post.interactive == (if key == MessageKey::Interactive { int_setting(text) } else { pre.interactive })
    &&& post.last_update == (if key == MessageKey::LastUpdate { int_setting(text) } else { pre.last_update })
    &&& post.api_token == (if key == MessageKey::ApiToken { uuid_setting(text) } else { pre.api_token })
    &&& post.device_id == (if key == MessageKey::DeviceId { uuid_setting(text) } else { pre.device_id })
    &&& post.email@ == (if key == MessageKey::Email { ascii_lowercase_text(text) } else { pre.email@ })
    &&& if key == MessageKey::WalletAddress {
        if text.len() == 0 {
            post.wallet_address is None
        } else {
            post.wallet_address matches Some(w) && w@ == text
        }
    } else {
        post.wallet_address == pre.wallet_address
    }
    &&& post.status == pre.status
    &&& post.success == pre.success
    &&& post.error == pre.error
    &&& post.fp == pre.fp
}

/// `post` is `pre` made ready to receive storage messages: empty service
/// addresses are set to the public ones, a nil device id is replaced by
/// `fresh_device_id`, the invite code, messages and wallet are cleared, the
/// session is signed out and `last_update` is `now_secs`.
pub open spec fn storage_prepared(pre: ExtensionContext, now_secs: i64, fresh_device_id: u128, post: ExtensionContext) -> bool {
    &&& post.blockmesh_url@ == (if pre.blockmesh_url@.len() == 0 { DEFAULT_BLOCKMESH_URL@ } else { pre.blockmesh_url@ })
    &&& post.blockmesh_ws_url@ == (if pre.blockmesh_ws_url@.len() == 0 { DEFAULT_BLOCKMESH_WS_URL@ } else { pre.blockmesh_ws_url@ })
    &&& post.blockmesh_data_sink_url@ == (if pre.blockmesh_data_sink_url@.len() == 0 { DEFAULT_BLOCKMESH_DATA_SINK_URL@ } else { pre.blockmesh_data_sink_url@ })
    &&& post.device_id == (if pre.device_id == 0 { fresh_device_id } else { pre.device_id })
    &&& post.email@ == pre.email@
    &&& post.api_token == pre.api_token
    &&& post.invite_code@ == Seq::<char>::empty()
    &&& post.status == AuthStatus::LoggedOut
    &&& post.success is None
    &&& post.error is None
    &&& post.last_update == now_secs
    &&& post.wallet_address is None
    &&& post.blockmesh_ids_url == pre.blockmesh_ids_url
    &&& post.blockmesh_ids2_url == pre.blockmesh_ids2_url
    &&& post.twitter_creds_url == pre.twitter_creds_url
    &&& post.twitter_creds_csrf == pre.twitter_creds_csrf
    &&& post.twitter_creds_bearer_token == pre.twitter_creds_bearer_token
    &&& post.feed_origin == pre.feed_origin
    &&& post.feed_selector == pre.feed_selector
    &&& post.wootz == pre.wootz
    &&& post.interactive == pre.interactive
    &&& post.fp == pre.fp
    &&& post.minimal_version == pre.minimal_version
}

/// `post` is `pre` after sign-out: the public service addresses, no e-mail,
/// no API token, signed out; everything else is kept.
pub open spec fn signed_out(pre: ExtensionContext, post: ExtensionContext) -> bool {
    &&& post.blockmesh_url@ == DEFAULT_BLOCKMESH_URL@
    &&& post.blockmesh_ws_url@ == DEFAULT_BLOCKMESH_WS_URL@
    &&& post.email@ == Seq::<char>::empty()
    &&& post.api_token == 0
    &&& post.status == AuthStatus::LoggedOut
    &&& post.device_id == pre.device_id
    &&& post.blockmesh_ids_url == pre.blockmesh_ids_url
    &&& post.blockmesh_ids2_url == pre.blockmesh_ids2_url
    &&& post.blockmesh_data_sink_url == pre.blockmesh_data_sink_url
    &&& post.invite_code == pre.invite_code
    &&& post.success == pre.success
    &&& post.error == pre.error
    &&& post.last_update == pre.last_update
    &&& post.wallet_address == pre.wallet_address
    &&& post.twitter_creds_url == pre.twitter_creds_url
    &&& post.twitter_creds_csrf == pre.twitter_creds_csrf
    &&& post.twitter_creds_bearer_token == pre.twitter_creds_bearer_token
    &&& post.feed_origin == pre.feed_origin
    &&& post.feed_selector == pre.feed_selector
    &&& post.wootz == pre.wootz
    &&& post.interactive == pre.interactive
    &&& post.fp == pre.fp
    &&& post.minimal_version == pre.minimal_version
}

impl ExtensionContext {
    /// Whether the session holds an API token (one that is not nil).
    pub fn has_api_token(&self) -> (b: bool)
        ensures
            b == self.holds_api_token(),
    {
        self.api_token != 0
    }

    /// Makes the session ready for storage messages (see `storage_prepared`),
    /// with the time `now_secs` and the id `fresh_device_id` for a device
    /// that has none.
    pub fn prepare_storage(&mut self, now_secs: i64, fresh_device_id: u128)
        ensures
            storage_prepared(*old(self), now_secs, fresh_device_id, *final(self)),
            // A configured service address is kept; an empty one gets the public default.
            old(self).blockmesh_url@.len() > 0 ==> final(self).blockmesh_url@ == old(self).blockmesh_url@,
            old(self).blockmesh_url@.len() == 0 ==> final(self).blockmesh_url@ == DEFAULT_BLOCKMESH_URL@,
            old(self).blockmesh_ws_url@.len() > 0 ==> final(self).blockmesh_ws_url@ == old(self).blockmesh_ws_url@,
            old(self).blockmesh_ws_url@.len() == 0 ==> final(self).blockmesh_ws_url@ == DEFAULT_BLOCKMESH_WS_URL@,
            old(self).blockmesh_data_sink_url@.len() > 0 ==> final(self).blockmesh_data_sink_url@
                == old(self).blockmesh_data_sink_url@,
            old(self).blockmesh_data_sink_url@.len() == 0 ==> final(self).blockmesh_data_sink_url@
                == DEFAULT_BLOCKMESH_DATA_SINK_URL@,
            // A device that has an id keeps it.
            old(self).device_id != 0 ==> final(self).device_id == old(self).device_id,
            // The user and token stay; the session starts signed out.
            final(self).email@ == old(self).email@,
            final(self).api_token == old(self).api_token,
            final(self).status == AuthStatus::LoggedOut,
            old(self).device_id == 0 ==> final(self).device_id == fresh_device_id,
            final(self).last_update == now_secs,
    {
        if self.blockmesh_url.as_str().is_empty() {
            self.blockmesh_url = String::from_str(DEFAULT_BLOCKMESH_URL);
        }
        if self.blockmesh_ws_url.as_str().is_empty() {
            self.blockmesh_ws_url = String::from_str(DEFAULT_BLOCKMESH_WS_URL);
        }
        if self.blockmesh_data_sink_url.as_str().is_empty() {
            self.blockmesh_data_sink_url = String::from_str(DEFAULT_BLOCKMESH_DATA_SINK_URL);
        }
        if self.device_id == 0 {
            self.device_id = fresh_device_id;
        }
        self.invite_code = String::new();
        self.status = AuthStatus::LoggedOut;
        self.success = None;
        self.error = None;
        self.last_update = now_secs;
        self.wallet_address = None;
    }

    /// Makes the session ready for storage messages, stamped with the
    /// current time; a device without an id gets a random (version 4) one.
    pub fn init_with_storage(&mut self)
        ensures
            exists|now_secs: i64, fresh: u128|
                uuid_version(fresh) == 4 && uuid_variant_bits(fresh) == 2 && storage_prepared(
                    *old(self),
                    now_secs,
                    fresh,
                    *final(self),
                ),
            final(self).device_id != 0,
            // A configured service address is kept; an empty one gets the public default.
            old(self).blockmesh_url@.len() > 0 ==> final(self).blockmesh_url@ == old(self).blockmesh_url@,
            old(self).blockmesh_url@.len() == 0 ==> final(self).blockmesh_url@ == DEFAULT_BLOCKMESH_URL@,
            old(self).blockmesh_ws_url@.len() > 0 ==> final(self).blockmesh_ws_url@ == old(self).blockmesh_ws_url@,
            old(self).blockmesh_ws_url@.len() == 0 ==> final(self).blockmesh_ws_url@ == DEFAULT_BLOCKMESH_WS_URL@,
            old(self).blockmesh_data_sink_url@.len() > 0 ==> final(self).blockmesh_data_sink_url@
                == old(self).blockmesh_data_sink_url@,
            old(self).blockmesh_data_sink_url@.len() == 0 ==> final(self).blockmesh_data_sink_url@
                == DEFAULT_BLOCKMESH_DATA_SINK_URL@,
            // A device that has an id keeps it.
            old(self).device_id != 0 ==> final(self).device_id == old(self).device_id,
            // The user and token stay; the session starts signed out.
            final(self).email@ == old(self).email@,
            final(self).api_token == old(self).api_token,
            final(self).status == AuthStatus::LoggedOut,
    {
        let now = utc_now();
        let fresh = if self.device_id == 0 {
            random_uuid()
        } else {
            self.device_id
        };
        let ghost chosen = if self.device_id == 0 { fresh } else { 0x4000_8000_0000_0000_0000u128 };
        proof {
            assert(uuid_version(0x4000_8000_0000_0000_0000u128) == 4);
            assert(uuid_variant_bits(0x4000_8000_0000_0000_0000u128) == 2);
            lemma_version_four_is_not_nil(chosen);
        }
        self.prepare_storage(now.secs, fresh);
        assert(storage_prepared(*old(self), now.secs, chosen, *self));
    }

    /// Applies a value that storage sent for `key` (see `storage_applied`)
    /// and tells whether the session is now to be marked signed in.
    pub fn apply_storage_value(&mut self, key: MessageKey, value: &StorageValue) -> (login_due: bool)
        ensures
            storage_applied(*old(self), key, storage_text_of(*value), *final(self)),
            login_due == final(self).login_due(),
            // Sign-in is due exactly when an e-mail and a non-nil token are
            // known and the session is not signed in yet.
            login_due == (final(self).email@.len() > 0 && final(self).api_token != 0 && final(self).status
                != AuthStatus::LoggedIn),
            // A storage value never changes whether the session is signed in.
            final(self).status == old(self).status,
            forall|v: u128| storage_text_of(*value) == #[trigger] uuid_text(v) ==> {
                &&& (key == MessageKey::ApiToken ==> final(self).api_token == v)
                &&& (key == MessageKey::DeviceId ==> final(self).device_id == v)
            },
    {
        let text = storage_text(value);
        proof {
            assert forall|v: u128| text@ == #[trigger] uuid_text(v) implies uuid_parse(text@) == Some(v) by {
                lemma_uuid_text_reads_back(v);
            }
        }
        match key {
            MessageKey::MinimalVersion => {
                self.minimal_version = text;
            },
            MessageKey::Interactive => {
                self.interactive = match parse_i64(text.as_str()) {
                    Some(v) => v,
                    None => 0,
                };
            },
            MessageKey::Wootz => {
                self.wootz = text;
            },
            MessageKey::TwitterCredsUrl => {
                self.twitter_creds_url = text;
            },
            MessageKey::TwitterCredsCsrf => {
                self.twitter_creds_csrf = text;
            },
            MessageKey::TwitterCredsBearerToken => {
                self.twitter_creds_bearer_token = text;
            },
            MessageKey::BlockMeshIdsUrl => {
                self.blockmesh_ids_url = text;
            },
            MessageKey::BlockMeshIds2Url => {
                self.blockmesh_ids2_url = text;
            },
            MessageKey::BlockMeshDataSinkUrl => {
                self.blockmesh_data_sink_url = text;
            },
            MessageKey::BlockMeshUrl => {
                self.blockmesh_url = text;
            },
            MessageKey::BlockMeshWsUrl => {
                self.blockmesh_ws_url = text;
            },
            MessageKey::ApiToken => {
                self.api_token = match uuid_from_text(text.as_str()) {
                    Some(v) => v,
                    None => 0,
                };
            },
            MessageKey::Email => {
                self.email = ascii_lowercase(text.as_str());
            },
            MessageKey::DeviceId => {
                self.device_id = match uuid_from_text(text.as_str()) {
                    Some(v) => v,
                    None => 0,
                };
            },
            MessageKey::InviteCode => {
                self.invite_code = text;
            },
            MessageKey::LastUpdate => {
                self.last_update = match parse_i64(text.as_str()) {
                    Some(v) => v,
                    None => 0,
                };
            },
            MessageKey::WalletAddress => {
                self.wallet_address = if text.as_str().is_empty() {
                    None
                } else {
                    Some(text)
                };
            },
            MessageKey::FeedOrigin => {
                self.feed_origin = text;
            },
            MessageKey::FeedSelector => {
                self.feed_selector = text;
            },
            MessageKey::All | MessageKey::Uptime | MessageKey::DownloadSpeed | MessageKey::UploadSpeed => {},
        }
        !self.email.as_str().is_empty() && self.api_token != 0 && self.status != AuthStatus::LoggedIn
    }

    /// Marks the session signed in; nothing else changes.
    pub fn mark_logged_in(&mut self)
        ensures
            final(self).status == AuthStatus::LoggedIn,
            *final(self) == (ExtensionContext { status: AuthStatus::LoggedIn, ..*old(self) }),
    {
        self.status = AuthStatus::LoggedIn;
    }

    /// Signs the session out (see `signed_out`) and returns the storage keys
    /// to delete, in order: the API token, the e-mail and the two service
    /// addresses.
    pub fn clear(&mut self) -> (deleted: Vec<MessageKey>)
        ensures
            signed_out(*old(self), *final(self)),
            // Every address whose storage key is deleted holds its public
            // default, and the user and token are gone.
            final(self).blockmesh_url@ == DEFAULT_BLOCKMESH_URL@,
            final(self).blockmesh_ws_url@ == DEFAULT_BLOCKMESH_WS_URL@,
            final(self).email@.len() == 0,
            final(self).api_token == 0,
            final(self).status == AuthStatus::LoggedOut,
            final(self).device_id == old(self).device_id,
            deleted@ == seq![
                MessageKey::ApiToken,
                MessageKey::Email,
                MessageKey::BlockMeshUrl,
                MessageKey::BlockMeshWsUrl,
            ],
    {
        let mut deleted: Vec<MessageKey> = Vec::new();
        deleted.push(MessageKey::ApiToken);
        deleted.push(MessageKey::Email);
        deleted.push(MessageKey::BlockMeshUrl);
        deleted.push(MessageKey::BlockMeshWsUrl);
        self.blockmesh_url = String::from_str(DEFAULT_BLOCKMESH_URL);
        self.blockmesh_ws_url = String::from_str(DEFAULT_BLOCKMESH_WS_URL);
        self.email = String::new();
        self.api_token = 0;
        self.status = AuthStatus::LoggedOut;
        deleted
    }
}

/// A plain text that storage sends under a text key is what the session
/// holds for that key afterwards.
pub proof fn lemma_stored_text_is_held(
    pre: ExtensionContext,
    key: MessageKey,
    sent: String,
    post: ExtensionContext,
)
    requires
        pre.text_field(key) is Some,
        is_plain_text(sent@),
        storage_applied(pre, key, storage_text_of(StorageValue::Str(sent)), post),
    ensures
        post.text_field(key) == Some(sent@),
{
    lemma_plain_text_unquotes_to_itself(sent@);
}

/// A storage message never changes whether the session is signed in; when
/// one leaves the session due to sign in, marking it signed in (the task
/// that the caller starts) makes it signed in and ends that; when none is
/// due, the status stays as it was.
pub proof fn lemma_storage_message_and_sign_in(
    pre: ExtensionContext,
    key: MessageKey,
    text: Seq<char>,
    post: ExtensionContext,
)
    requires
        storage_applied(pre, key, text, post),
    ensures
        post.status == pre.status,
        pre.status == AuthStatus::LoggedIn ==> !post.login_due(),
        post.login_due() ==> {
            let marked = ExtensionContext { status: AuthStatus::LoggedIn, ..post };
            &&& marked.status == AuthStatus::LoggedIn
            &&& !marked.login_due()
        },
{
}

/// A session that has no e-mail is never due to sign in after a storage
/// value for any key other than the e-mail; in particular an API token alone
/// does not sign it in.
pub proof fn lemma_no_sign_in_without_email(
    pre: ExtensionContext,
    key: MessageKey,
    text: Seq<char>,
    post: ExtensionContext,
)
    requires
        storage_applied(pre, key, text, post),
        pre.email@.len() == 0,
        key != MessageKey::Email,
    ensures
        !post.login_due(),
        post.email@.len() == 0,
{
}

/// Making a session ready for storage keeps every configured service
/// address and the id of a device that has one, and gives every empty
/// address its public default.
pub proof fn lemma_prepared_session_keeps_configuration(
    pre: ExtensionContext,
    now_secs: i64,
    fresh: u128,
    post: ExtensionContext,
)
    requires
        storage_prepared(pre, now_secs, fresh, post),
    ensures
        pre.blockmesh_url@.len() > 0 ==> post.blockmesh_url@ == pre.blockmesh_url@,
        pre.blockmesh_ws_url@.len() > 0 ==> post.blockmesh_ws_url@ == pre.blockmesh_ws_url@,
        pre.blockmesh_data_sink_url@.len() > 0 ==> post.blockmesh_data_sink_url@ == pre.blockmesh_data_sink_url@,
        pre.blockmesh_url@.len() == 0 ==> post.blockmesh_url@ == DEFAULT_BLOCKMESH_URL@,
        pre.blockmesh_ws_url@.len() == 0 ==> post.blockmesh_ws_url@ == DEFAULT_BLOCKMESH_WS_URL@,
        pre.blockmesh_data_sink_url@.len() == 0 ==> post.blockmesh_data_sink_url@ == DEFAULT_BLOCKMESH_DATA_SINK_URL@,
        pre.device_id != 0 ==> post.device_id == pre.device_id,
{
}

/// After sign-out, the addresses whose storage keys are deleted hold their
/// public defaults, and no e-mail or token is left.
pub proof fn lemma_sign_out_resets_deleted_values(pre: ExtensionContext, post: ExtensionContext)
    requires
        signed_out(pre, post),
    ensures
        post.blockmesh_url@ == DEFAULT_BLOCKMESH_URL@,
        post.blockmesh_ws_url@ == DEFAULT_BLOCKMESH_WS_URL@,
        post.email@.len() == 0,
        post.api_token == 0,
{
}

/// A UUID that storage sends as a JSON string in its hyphenated form is read
/// as that hyphenated text.
pub proof fn lemma_sent_uuid_text(id: u128, sent: String)
    requires
        sent@ == uuid_text(id),
    ensures
        storage_text_of(StorageValue::Str(sent)) == uuid_text(id),
{
    lemma_uuid_text_is_plain(id);
    lemma_plain_text_unquotes_to_itself(uuid_text(id));
}

/// A signed-out session holds no API token and is not due to sign in.
pub proof fn lemma_signed_out_session_holds_no_token(pre: ExtensionContext, post: ExtensionContext)
    requires
        signed_out(pre, post),
    ensures
        !post.holds_api_token(),
        !post.login_due(),
        post.status == AuthStatus::LoggedOut,
{
}

/// A fresh session holds no API token, is signed out and is not due to sign in.
pub proof fn lemma_initial_session_is_signed_out(s: ExtensionContext)
    requires
        s.is_initial(),
    ensures
        !s.holds_api_token(),
        !s.login_due(),
        s.status == AuthStatus::LoggedOut,
{
}

/// A session made ready for storage, with a random id for a device that had
/// none, has a device id and non-empty service addresses.
pub proof fn lemma_prepared_session_is_addressed(
    pre: ExtensionContext,
    now_secs: i64,
    fresh: u128,
    post: ExtensionContext,
)
    requires
        uuid_version(fresh) == 4,
        storage_prepared(pre, now_secs, fresh, post),
    ensures
        post.device_id != 0,
        post.blockmesh_url@.len() > 0,
        post.blockmesh_ws_url@.len() > 0,
        post.blockmesh_data_sink_url@.len() > 0,
        post.status == AuthStatus::LoggedOut,
{
    lemma_version_four_is_not_nil(fresh);
    reveal_strlit("https://app.blockmesh.xyz");
    reveal_strlit("https://ws.blockmesh.xyz");
    reveal_strlit("https://data-sink.blockmesh.xyz");
}

} // verus!
