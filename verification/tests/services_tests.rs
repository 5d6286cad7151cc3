use svo_backend::delivery::{inline_image_src, replace_all, DiscordApiError};
use svo_backend::discord_api::{DiscordTokenResponse, DiscordUserResponse};
use svo_backend::ids::{uuid_simple_string, uuid_string};
use svo_backend::json::JsonValue;
use svo_backend::metrics_event::{
    check_non_empty, check_timestamp, check_uuid, is_blank_line, read_event_head, strip_utf8_bom, valid_team,
    DamageSource, EventKind, ParseError,
};
use svo_backend::metrics_summary::delivery_error_text;
use svo_backend::migrations::{run_order, CreateUserTable, Migration};
use svo_backend::ownership::{normalize_metadata, validate_system_asset_invariants, AssetKind, OwnershipModel};
use svo_backend::receipts::{parse_zone_offset, receipt_claimable};
use svo_backend::referrals::{day_number, normalize_referral_code, validate_time_window, ReferralError};
use svo_backend::restrictions::RestrictionKind;
use svo_backend::squads::{count_leading_zero_bits, squad_image_key, validate_squad_name, SquadError};
use svo_backend::templates::{escape_html, map_status};
use svo_backend::text::{trim, truncate_chars};
use svo_backend::shop_locale::normalize_required_locale;

#[test]
fn text_helpers_follow_std() {
    assert_eq!(trim("  a b \t"), "a b");
    assert_eq!(normalize_required_locale(" RU-ru ".to_string()).unwrap(), "ru-ru");
    assert_eq!(normalize_referral_code(" abc1 ").unwrap(), "ABC1");
    assert_eq!(truncate_chars("абвгд", 3), "абв…");
    assert_eq!(truncate_chars("аб", 3), "аб");
    assert_eq!(replace_all("a-b-c", "-", "+"), "a+b+c");
}

#[test]
fn uuids_render_hyphenated_and_simple() {
    let id: u128 = 0x6d5e4f2d_b82f_4d57_a69c_7ca6a234f3bd;
    assert_eq!(uuid_string(id), "6d5e4f2d-b82f-4d57-a69c-7ca6a234f3bd");
    assert_eq!(uuid_simple_string(id), "6d5e4f2db82f4d57a69c7ca6a234f3bd");
    assert_eq!(uuid_string(id), uuid::Uuid::from_u128(id).to_string());
}

#[test]
fn base64_and_inline_images() {
    assert_eq!(inline_image_src("image/png", b"hi"), "data:image/png;base64,aGk=");
}

#[test]
fn html_is_escaped() {
    assert_eq!(escape_html("<a href=\"x\">&</a>"), "&lt;a href=&quot;x&quot;&gt;&amp;&lt;/a&gt;");
}

#[test]
fn discord_event_statuses_and_avatars() {
    assert_eq!(map_status(1), "scheduled");
    assert_eq!(map_status(4), "canceled");
    assert_eq!(map_status(9), "unknown");
    let token = DiscordTokenResponse {
        access_token: "t".to_string(),
        token_type: "Bearer".to_string(),
        expires_in: 60,
        refresh_token: "r".to_string(),
        scope: "identify".to_string(),
    };
    let mut user = DiscordUserResponse {
        id: "42".to_string(),
        username: "u".to_string(),
        global_name: None,
        avatar: Some("abc".to_string()),
        email: None,
        verified: None,
    };
    assert_eq!(token.build_avatar_url(&user).as_deref(), Some("https://cdn.discordapp.com/avatars/42/abc.png"));
    user.avatar = None;
    assert_eq!(token.build_avatar_url(&user), None);
}

#[test]
fn delivery_errors_are_cut_to_a_thousand_characters() {
    let long = "x".repeat(1500);
    assert_eq!(delivery_error_text(DiscordApiError::Http(long)).chars().count(), 1000);
    assert_eq!(delivery_error_text(DiscordApiError::Timeout("slow".to_string())), "slow");
}

#[test]
fn timeline_lines_are_read_up_to_their_type() {
    assert_eq!(strip_utf8_bom(&[0xef, 0xbb, 0xbf, b'{']), vec![b'{']);
    assert!(is_blank_line(b" \t\r"));
    assert!(read_event_head(b"  ", 1).unwrap().is_none());
    let line = r#"{"type":"player_left","timestampMs":5}"#;
    let head = read_event_head(line.as_bytes(), 2).unwrap().unwrap();
    assert_eq!(head.text, line);
    assert_eq!(head.kind, EventKind::PlayerLeft);
    assert_eq!(head.timestamp_ms, Some(5));
    let missing = read_event_head(b"{}", 3).unwrap_err();
    assert!(matches!(missing, ParseError::MissingType { line: 3 }));
    assert_eq!(missing.text(), "line 3: missing or invalid event type");
    let bad = read_event_head(b"not-json", 4).unwrap_err();
    assert!(matches!(bad, ParseError::InvalidJson { line: 4, .. }));
    let bom_line = [0xef, 0xbb, 0xbf, b'{', b'}'];
    let after_bom = read_event_head(&bom_line, 5).unwrap_err();
    assert!(matches!(after_bom, ParseError::MissingType { line: 5 }));
    let not_utf8 = read_event_head(&[b'{', 0xff, b'}'], 6).unwrap_err();
    assert!(matches!(not_utf8, ParseError::InvalidJson { line: 6, .. }));
    assert_eq!(EventKind::classify("future_event"), EventKind::Unknown);
}

#[test]
fn event_fields_are_checked() {
    assert_eq!(check_timestamp(5, 1, "game_started").unwrap(), 5);
    let err = check_timestamp(-1, 1, "game_started").unwrap_err();
    assert_eq!(err.text(), "line 1: invalid game_started event: timestampMs must be non-negative");
    let err = check_non_empty("  ".to_string(), 2, "player_joined", "nickname").unwrap_err();
    assert_eq!(err.text(), "line 2: invalid player_joined event: nickname must not be empty");
    assert_eq!(check_uuid("00000000-0000-0000-0000-000000000002", 1, "x", "playerId").unwrap(), 2);
    let err = check_uuid("nope", 1, "x", "playerId").unwrap_err();
    assert_eq!(err.text(), "line 1: invalid x event: playerId must be a UUID");
    assert_eq!(valid_team(Some("Spectators")), None);
    assert_eq!(valid_team(Some("")), None);
    assert_eq!(valid_team(Some("Attack")), Some("Attack"));
    let source = DamageSource { kind: "weapon".to_string(), weapon_id: Some(String::new()) };
    assert_eq!(source.breakdown_key(), "weapon");
}

#[test]
fn migrations_run_in_order_under_their_names() {
    let order = run_order();
    assert_eq!(order[0], Migration::CreateAppKvTable);
    assert_eq!(order[1], Migration::CreateAuthRayTable);
    assert_eq!(CreateUserTable.name(), "m20251206_000002_create_user_table");
    assert_eq!(CreateUserTable.migration(), Migration::CreateUserTable);
}

#[test]
fn system_assets_keep_their_invariants() {
    assert!(validate_system_asset_invariants(
        "coins",
        AssetKind::Currency,
        OwnershipModel::Stackable,
        true,
        AssetKind::Currency,
        OwnershipModel::Stackable,
        true
    )
    .is_ok());
    let err = validate_system_asset_invariants(
        "coins",
        AssetKind::Currency,
        OwnershipModel::Stackable,
        true,
        AssetKind::Currency,
        OwnershipModel::Stackable,
        false,
    )
    .unwrap_err();
    assert_eq!(err, "System asset 'coins' must keep is_currency='true', found 'false'");
    let metadata = normalize_metadata(Some(JsonValue::Null));
    assert!(matches!(metadata, JsonValue::Object(ref m) if m.is_empty()));
}

#[test]
fn squads_names_keys_and_proof_of_work() {
    assert_eq!(validate_squad_name("  Wolves  ").unwrap(), "Wolves");
    assert_eq!(validate_squad_name("abc").unwrap_err(), SquadError::NameLength);
    assert_eq!(validate_squad_name("-Wolves").unwrap_err(), SquadError::NameEdges);
    assert_eq!(validate_squad_name("Wolves1").unwrap_err(), SquadError::NameCharacters);
    assert_eq!(count_leading_zero_bits(&[0, 0x10]), 11);
    assert_eq!(count_leading_zero_bits(&[]), 0);
    assert_eq!(squad_image_key(1), "squad_images/00000000-0000-0000-0000-000000000001.png");
}

#[test]
fn referral_codes_and_windows() {
    assert_eq!(normalize_referral_code("").unwrap_err(), ReferralError::CodeEmpty);
    assert!(validate_time_window(Some(10), Some(5)).is_err());
    assert!(validate_time_window(Some(5), Some(10)).is_ok());
    assert_eq!(day_number(86_400_000 * 3 + 5), 3);
}

#[test]
fn receipts_zone_offsets_and_claims() {
    assert_eq!(parse_zone_offset("Z"), Ok(0));
    assert_eq!(parse_zone_offset("+03:00"), Ok(10_800));
    assert_eq!(parse_zone_offset("-01:30"), Ok(-5_400));
    assert!(parse_zone_offset("+24:00").is_err());
    assert!(parse_zone_offset("x").is_err());
    assert!(receipt_claimable("pending", None, 5));
}

#[test]
fn restriction_keys_round_trip() {
    for key in ["create_squad", "join_squad", "upload_skin"] {
        assert_eq!(RestrictionKind::from_key(key).unwrap().as_str(), key);
    }
    assert!(RestrictionKind::from_key("ban").is_err());
}
