use block_mesh_manager::extension::{
    storage_text, AuthStatus, ExtensionContext, MessageKey, StorageField, StorageValue,
};

fn text(s: &str) -> StorageValue {
    StorageValue::Str(s.to_string())
}

#[test]
fn default_context_is_signed_out_with_public_addresses() {
    let ctx = ExtensionContext::default();
    assert_eq!(ctx.blockmesh_url, "https://app.blockmesh.xyz");
    assert_eq!(ctx.blockmesh_ws_url, "https://ws.blockmesh.xyz");
    assert_eq!(ctx.blockmesh_ids_url, "https://ids.blockmesh.xyz");
    assert_eq!(ctx.blockmesh_ids2_url, "https://ids2.blockmesh.xyz");
    assert_eq!(ctx.blockmesh_data_sink_url, "https://data-sink.blockmesh.xyz");
    assert_eq!(ctx.minimal_version, "0.0.515");
    assert_eq!(
        ctx.twitter_creds_url,
        "https://x.com/i/api/graphql/QGMTWxm841rbDndB-yQhIw/SearchTimeline"
    );
    assert_eq!(ctx.status, AuthStatus::LoggedOut);
    assert_eq!(ctx.email, "");
    assert_eq!(ctx.api_token, 0);
    assert_eq!(ctx.device_id, 0);
    assert_eq!(ctx.last_update, 0);
    assert_eq!(ctx.interactive, 0);
    assert!(ctx.wallet_address.is_none());
    assert!(!ctx.has_api_token());
}

#[test]
fn storage_text_of_strings_drops_quotes() {
    assert_eq!(storage_text(&text("abc")), "abc");
    assert_eq!(storage_text(&text("")), "");
    assert_eq!(storage_text(&text("\"quoted\"")), "\\\"quoted\\");
    assert_eq!(storage_text(&text("a\nb")), "a\\nb");
    assert_eq!(storage_text(&text("tab\there")), "tab\\there");
    assert_eq!(storage_text(&text("\u{1}")), "\\u0001");
}

#[test]
fn storage_text_of_objects_takes_the_first_value() {
    let v = StorageValue::Object(Some(StorageField::Str("https://example.org".to_string())));
    assert_eq!(storage_text(&v), "https://example.org");
    let n = StorageValue::Object(Some(StorageField::Json("42".to_string())));
    assert_eq!(storage_text(&n), "42");
    let q = StorageValue::Object(Some(StorageField::Json("\"x\"".to_string())));
    assert_eq!(storage_text(&q), "x");
    assert_eq!(storage_text(&StorageValue::Object(None)), "");
    assert_eq!(storage_text(&StorageValue::Other), "");
}

#[test]
fn text_keys_store_the_text() {
    let mut ctx = ExtensionContext::default();
    let keys = [
        MessageKey::MinimalVersion,
        MessageKey::Wootz,
        MessageKey::TwitterCredsUrl,
        MessageKey::TwitterCredsCsrf,
        MessageKey::TwitterCredsBearerToken,
        MessageKey::BlockMeshIdsUrl,
        MessageKey::BlockMeshIds2Url,
        MessageKey::BlockMeshDataSinkUrl,
        MessageKey::BlockMeshUrl,
        MessageKey::BlockMeshWsUrl,
        MessageKey::InviteCode,
        MessageKey::FeedOrigin,
        MessageKey::FeedSelector,
    ];
    for key in keys {
        assert!(!ctx.apply_storage_value(key, &text("value-1")));
    }
    assert_eq!(ctx.minimal_version, "value-1");
    assert_eq!(ctx.wootz, "value-1");
    assert_eq!(ctx.twitter_creds_url, "value-1");
    assert_eq!(ctx.twitter_creds_csrf, "value-1");
    assert_eq!(ctx.twitter_creds_bearer_token, "value-1");
    assert_eq!(ctx.blockmesh_ids_url, "value-1");
    assert_eq!(ctx.blockmesh_ids2_url, "value-1");
    assert_eq!(ctx.blockmesh_data_sink_url, "value-1");
    assert_eq!(ctx.blockmesh_url, "value-1");
    assert_eq!(ctx.blockmesh_ws_url, "value-1");
    assert_eq!(ctx.invite_code, "value-1");
    assert_eq!(ctx.feed_origin, "value-1");
    assert_eq!(ctx.feed_selector, "value-1");
    assert_eq!(ctx.email, "");
}

#[test]
fn integer_keys_parse_or_fall_back_to_zero() {
    let mut ctx = ExtensionContext::default();
    ctx.apply_storage_value(MessageKey::Interactive, &text("+17"));
    assert_eq!(ctx.interactive, 17);
    ctx.apply_storage_value(MessageKey::LastUpdate, &text("-1700000000"));
    assert_eq!(ctx.last_update, -1700000000);
    ctx.apply_storage_value(MessageKey::Interactive, &text("12x"));
    assert_eq!(ctx.interactive, 0);
    ctx.apply_storage_value(MessageKey::LastUpdate, &text("9223372036854775808"));
    assert_eq!(ctx.last_update, 0);
    let n = StorageValue::Object(Some(StorageField::Json("5".to_string())));
    ctx.apply_storage_value(MessageKey::Interactive, &n);
    assert_eq!(ctx.interactive, 5);
}

#[test]
fn email_is_lower_cased() {
    let mut ctx = ExtensionContext::default();
    ctx.apply_storage_value(MessageKey::Email, &text("Alice@Example.COM"));
    assert_eq!(ctx.email, "alice@example.com");
    ctx.apply_storage_value(MessageKey::Email, &text("ÄB"));
    assert_eq!(ctx.email, "Äb");
}

#[test]
fn wallet_address_is_none_when_empty() {
    let mut ctx = ExtensionContext::default();
    ctx.apply_storage_value(MessageKey::WalletAddress, &text("wallet-7"));
    assert_eq!(ctx.wallet_address, Some("wallet-7".to_string()));
    ctx.apply_storage_value(MessageKey::WalletAddress, &text(""));
    assert_eq!(ctx.wallet_address, None);
}

#[test]
fn api_token_is_read_and_login_becomes_due() {
    let mut ctx = ExtensionContext::default();
    assert!(!ctx.apply_storage_value(MessageKey::Email, &text("a@b.c")));
    let due = ctx.apply_storage_value(
        MessageKey::ApiToken,
        &text("936da01f-9abd-4d9d-80c7-02af85c822a8"),
    );
    assert_eq!(ctx.api_token, 0x936da01f_9abd_4d9d_80c7_02af85c822a8);
    assert!(ctx.has_api_token());
    assert!(due);
    ctx.mark_logged_in();
    assert_eq!(ctx.status, AuthStatus::LoggedIn);
    assert!(!ctx.apply_storage_value(MessageKey::Wootz, &text("w")));
}

#[test]
fn uuid_forms_and_bad_tokens() {
    let mut ctx = ExtensionContext::default();
    ctx.apply_storage_value(MessageKey::DeviceId, &text("936DA01F9ABD4D9D80C702AF85C822A8"));
    assert_eq!(ctx.device_id, 0x936da01f_9abd_4d9d_80c7_02af85c822a8);
    ctx.apply_storage_value(MessageKey::DeviceId, &text("not a uuid"));
    assert_eq!(ctx.device_id, 0);
    ctx.apply_storage_value(MessageKey::ApiToken, &text("00000000-0000-0000-0000-000000000000"));
    assert!(!ctx.has_api_token());
}

#[test]
fn no_login_without_token() {
    let mut ctx = ExtensionContext::default();
    assert!(!ctx.apply_storage_value(MessageKey::Email, &text("a@b.c")));
    assert!(!ctx.apply_storage_value(MessageKey::All, &text("ignored")));
}

#[test]
fn number_keys_leave_the_context_alone() {
    let mut ctx = ExtensionContext::default();
    for key in [MessageKey::Uptime, MessageKey::DownloadSpeed, MessageKey::UploadSpeed, MessageKey::All] {
        ctx.apply_storage_value(key, &text("1.5"));
    }
    let fresh = ExtensionContext::default();
    assert_eq!(ctx.minimal_version, fresh.minimal_version);
    assert_eq!(ctx.interactive, fresh.interactive);
    assert_eq!(ctx.last_update, fresh.last_update);
}

#[test]
fn prepare_storage_fills_missing_values() {
    let mut ctx = ExtensionContext::default();
    ctx.blockmesh_url = String::new();
    ctx.blockmesh_ws_url = String::new();
    ctx.blockmesh_data_sink_url = String::new();
    ctx.invite_code = "code".to_string();
    ctx.status = AuthStatus::LoggedIn;
    ctx.wallet_address = Some("w".to_string());
    ctx.success = Some("ok".to_string());
    ctx.prepare_storage(1_700_000_000, 42);
    assert_eq!(ctx.blockmesh_url, "https://app.blockmesh.xyz");
    assert_eq!(ctx.blockmesh_ws_url, "https://ws.blockmesh.xyz");
    assert_eq!(ctx.blockmesh_data_sink_url, "https://data-sink.blockmesh.xyz");
    assert_eq!(ctx.device_id, 42);
    assert_eq!(ctx.invite_code, "");
    assert_eq!(ctx.status, AuthStatus::LoggedOut);
    assert_eq!(ctx.wallet_address, None);
    assert_eq!(ctx.success, None);
    assert_eq!(ctx.last_update, 1_700_000_000);
    ctx.blockmesh_url = "https://other".to_string();
    ctx.prepare_storage(5, 43);
    assert_eq!(ctx.device_id, 42);
    assert_eq!(ctx.blockmesh_url, "https://other");
}

#[test]
fn init_with_storage_gives_a_random_device_id() {
    let mut ctx = ExtensionContext::default();
    ctx.init_with_storage();
    assert_ne!(ctx.device_id, 0);
    assert_eq!((ctx.device_id >> 76) & 0xf, 4);
    assert_eq!((ctx.device_id >> 62) & 0x3, 2);
    assert!(ctx.last_update > 1_600_000_000);
    let id = ctx.device_id;
    ctx.init_with_storage();
    assert_eq!(ctx.device_id, id);
}

#[test]
fn clear_signs_out() {
    let mut ctx = ExtensionContext::default();
    ctx.apply_storage_value(MessageKey::Email, &text("a@b.c"));
    ctx.apply_storage_value(MessageKey::ApiToken, &text("936da01f-9abd-4d9d-80c7-02af85c822a8"));
    ctx.apply_storage_value(MessageKey::BlockMeshUrl, &text("https://custom"));
    ctx.mark_logged_in();
    ctx.device_id = 9;
    let deleted = ctx.clear();
    assert_eq!(
        deleted,
        vec![MessageKey::ApiToken, MessageKey::Email, MessageKey::BlockMeshUrl, MessageKey::BlockMeshWsUrl]
    );
    assert!(!ctx.has_api_token());
    assert_eq!(ctx.email, "");
    assert_eq!(ctx.blockmesh_url, "https://app.blockmesh.xyz");
    assert_eq!(ctx.status, AuthStatus::LoggedOut);
    assert_eq!(ctx.device_id, 9);
}

#[test]
fn uuid_braced_and_urn_forms_are_read() {
    let mut ctx = ExtensionContext::default();
    ctx.apply_storage_value(MessageKey::ApiToken, &text("{550e8400-e29b-41d4-a716-446655440000}"));
    assert_eq!(ctx.api_token, 0x550e8400_e29b_41d4_a716_446655440000);
    ctx.apply_storage_value(MessageKey::DeviceId, &text("URN:uuid:550E8400-E29B-41D4-A716-446655440000"));
    assert_eq!(ctx.device_id, 0x550e8400_e29b_41d4_a716_446655440000);
    ctx.apply_storage_value(MessageKey::DeviceId, &text("550e8400e29b-41d4-a716-446655440000-"));
    assert_eq!(ctx.device_id, 0);
    ctx.apply_storage_value(MessageKey::ApiToken, &text("550e8400-e29b-41d4-a716-44665544000g"));
    assert_eq!(ctx.api_token, 0);
}
