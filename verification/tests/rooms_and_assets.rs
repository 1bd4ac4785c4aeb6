use photoapp::assets::{
    asset_storage_path, download_lookup_outcome, download_url_response, recorded_content_type,
    validate_upload_request, UploadUrlRequest,
};
use photoapp::error::DbError;
use photoapp::health::health_report;
use photoapp::rooms::{
    check_transform_len, event_serialize_failed, invite_code_from, invite_lookup_outcome, membership_outcome,
    new_invite_code, presented_invite_code, room_insert_outcome, room_name, CreateRoomRequest, JoinRoomRequest,
};
use photoapp::storage::{
    download_sign_failed, presign_config, signed_upload, upload_content_type, upload_sign_failed,
    PRESIGN_EXPIRES_SECS,
};
use photoapp::error::ApiError;
use photoapp::rooms::{event_image_url, INVITE_TTL_HOURS};
use photoapp::worldmap::{latest_worldmap_outcome, worldmap_asset_outcome, worldmap_updated_text};

const USER: u128 = 0xa1a2a3a4b1b2c1c2d1d2d3d4d5d6d7d8;
const ASSET: u128 = 0x550e8400e29b41d4a716446655440000;
const DB_DOWN: DbError = DbError { unique_violation: false };

fn upload(kind: &str, content_type: &str, byte_size: i64) -> UploadUrlRequest {
    UploadUrlRequest { kind: kind.to_string(), content_type: content_type.to_string(), byte_size }
}

#[test]
fn room_names_are_trimmed_and_required() {
    assert_eq!(room_name(&CreateRoomRequest { name: "  e2e-room \t".to_string() }).unwrap(), "e2e-room");
    let e = room_name(&CreateRoomRequest { name: " \n ".to_string() }).err().unwrap();
    assert_eq!((e.status, e.message.as_str()), (400, "room name is required"));
}

#[test]
fn room_insert_must_write_a_row() {
    assert!(room_insert_outcome(Ok(1)).is_ok());
    let none = room_insert_outcome(Ok(0)).err().unwrap();
    assert_eq!((none.status, none.message.as_str()), (500, "failed to create room"));
    let failed = room_insert_outcome(Err(DB_DOWN)).err().unwrap();
    assert_eq!((failed.status, failed.message.as_str()), (500, "internal server error"));
}

#[test]
fn only_members_pass() {
    assert!(membership_outcome(Ok(true)).is_ok());
    let e = membership_outcome(Ok(false)).err().unwrap();
    assert_eq!((e.status, e.message.as_str()), (403, "not a room member"));
    let f = membership_outcome(Err(DB_DOWN)).err().unwrap();
    assert_eq!((f.status, f.message.as_str()), (500, "internal server error"));
}

#[test]
fn invitation_codes() {
    assert_eq!(invite_code_from(USER), "a1a2a3a4b1b2");
    assert_eq!(invite_code_from(0), "000000000000");
    let code = new_invite_code();
    assert_eq!(code.len(), 12);
    assert!(code.chars().all(|c| c.is_ascii_digit() || ('a'..='f').contains(&c)));
    assert_eq!(presented_invite_code(&JoinRoomRequest { invite_code: " abc123 ".to_string() }), "abc123");
    assert_eq!(invite_lookup_outcome(Ok(Some(USER))).unwrap(), USER);
    let e = invite_lookup_outcome(Ok(None)).err().unwrap();
    assert_eq!((e.status, e.message.as_str()), (404, "invalid invite code"));
    let f = invite_lookup_outcome(Err(DB_DOWN)).err().unwrap();
    assert_eq!(f.status, 500);
}

#[test]
fn placements_need_a_four_by_four_transform() {
    assert!(check_transform_len(16).is_ok());
    for n in [0usize, 15, 17] {
        let e = check_transform_len(n).err().unwrap();
        assert_eq!((e.status, e.message.as_str()), (400, "transform must have 16 elements"));
    }
    let s = event_serialize_failed("boom");
    assert_eq!((s.status, s.message.as_str()), (500, "failed to serialize event: boom"));
}

#[test]
fn upload_requests_are_checked_in_order() {
    assert!(validate_upload_request(&upload("image", "image/jpeg", 123456)).is_ok());
    assert!(validate_upload_request(&upload("worldmap", "application/octet-stream", 1)).is_ok());
    let size = validate_upload_request(&upload("video", " ", 0)).err().unwrap();
    assert_eq!((size.status, size.message.as_str()), (400, "byte_size must be positive"));
    let ct = validate_upload_request(&upload("video", " \t", 5)).err().unwrap();
    assert_eq!((ct.status, ct.message.as_str()), (400, "content_type is required"));
    let kind = validate_upload_request(&upload("Image", "image/png", 5)).err().unwrap();
    assert_eq!((kind.status, kind.message.as_str()), (400, "kind must be image or worldmap"));
    assert_eq!(recorded_content_type(&upload("image", " image/png ", 5)), "image/png");
}

#[test]
fn storage_path_layout() {
    assert_eq!(
        asset_storage_path(USER, "image", ASSET),
        "a1a2a3a4-b1b2-c1c2-d1d2-d3d4d5d6d7d8/image/550e8400-e29b-41d4-a716-446655440000"
    );
}

#[test]
fn asset_lookups() {
    assert_eq!(download_lookup_outcome(Ok(Some("p".to_string()))).unwrap(), "p");
    let e = download_lookup_outcome(Ok(None)).err().unwrap();
    assert_eq!((e.status, e.message.as_str()), (404, "asset not found"));
    assert_eq!(download_lookup_outcome(Err(DB_DOWN)).err().unwrap().status, 500);
    assert_eq!(download_url_response("u".to_string()).download_url, "u");
    assert_eq!(worldmap_asset_outcome(Ok(Some("w".to_string()))).unwrap(), "w");
    let w = worldmap_asset_outcome(Ok(None)).err().unwrap();
    assert_eq!((w.status, w.message.as_str()), (404, "worldmap asset not found"));
    assert_eq!(worldmap_asset_outcome(Err(DB_DOWN)).err().unwrap().status, 500);
    assert_eq!(latest_worldmap_outcome(Ok(Some(3i32))).unwrap(), 3);
    let l = latest_worldmap_outcome::<i32>(Ok(None)).err().unwrap();
    assert_eq!((l.status, l.message.as_str()), (404, "worldmap not found"));
    assert_eq!(latest_worldmap_outcome::<i32>(Err(DB_DOWN)).err().unwrap().status, 500);
}

#[test]
fn presign_validity_is_at_most_a_week() {
    assert_eq!(presign_config(PRESIGN_EXPIRES_SECS).unwrap().expires_secs(), 600);
    assert_eq!(presign_config(0).unwrap().expires_secs(), 0);
    assert_eq!(presign_config(604_800).unwrap().expires_secs(), 604_800);
    for secs in [604_801, -1, i32::MIN] {
        let e = presign_config(secs).err().unwrap();
        assert_eq!(e.status, 502);
        assert_eq!(e.message, "presign config failed: `expires_in` must be no longer than one week");
    }
}

#[test]
fn upload_content_type_binding() {
    assert_eq!(upload_content_type(" image/png "), Some("image/png".to_string()));
    assert_eq!(upload_content_type("   "), None);
    let s = signed_upload("https://x/y".to_string());
    assert_eq!(s.upload_url, "https://x/y");
    assert!(s.token.is_none());
    let u = upload_sign_failed("denied");
    assert_eq!((u.status, u.message.as_str()), (502, "storage upload sign failed: denied"));
    let d = download_sign_failed("denied");
    assert_eq!((d.status, d.message.as_str()), (502, "storage download sign failed: denied"));
}

#[test]
fn health_answers() {
    let (code, body) = health_report(true);
    assert_eq!((code, body.status.as_str(), body.db.as_str()), (200, "ok", "ok"));
    let (code, body) = health_report(false);
    assert_eq!((code, body.status.as_str(), body.db.as_str()), (503, "degraded", "error"));
}

#[test]
fn worldmap_updated_event_text() {
    assert_eq!(
        worldmap_updated_text(USER, 2),
        "{\"type\":\"worldmap_updated\",\"room_id\":\"a1a2a3a4-b1b2-c1c2-d1d2-d3d4d5d6d7d8\",\"version\":2}"
    );
    assert!(worldmap_updated_text(0, -15).ends_with("\"version\":-15}"));
    assert!(worldmap_updated_text(0, 1234567).ends_with("\"version\":1234567}"));
    for v in [0, 9, 10, 100, -1, i32::MAX, i32::MIN] {
        assert!(worldmap_updated_text(0, v).ends_with(&format!("\"version\":{}}}", v)));
    }
}

#[test]
fn placement_event_image_url() {
    assert_eq!(event_image_url(Some(Ok("https://s/x".to_string()))), Some("https://s/x".to_string()));
    let failed = ApiError { status: 502, message: "storage download sign failed: x".to_string() };
    assert_eq!(event_image_url(Some(Err(failed))), None);
    assert_eq!(event_image_url(None), None);
    assert_eq!(INVITE_TTL_HOURS, 24);
}
