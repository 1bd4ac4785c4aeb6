use photoapp::assets::UploadUrlRequest;
use photoapp::error::{ApiError, DbError};
use photoapp::upload::{UploadAction, UploadEvent, UploadFlow, UploadStage};

const USER: u128 = 0x0123_4567_89ab_cdef_0123_4567_89ab_cdef;

fn request(kind: &str, content_type: &str, byte_size: i64) -> UploadUrlRequest {
    UploadUrlRequest { kind: kind.to_string(), content_type: content_type.to_string(), byte_size }
}

fn refusal(action: UploadAction) -> (u16, String) {
    match action {
        UploadAction::Respond(Err(e)) => (e.status, e.message),
        _ => panic!("expected a refusal"),
    }
}

#[test]
fn upload_happy_path_registers_then_signs() {
    let (flow, action) = UploadFlow::start(USER, request("image", "  image/png ", 1024));
    assert_eq!(flow.stage, UploadStage::Registering);
    let asset_id = uuid::Uuid::from_u128(flow.asset_id).to_string();
    let expected_path = format!("01234567-89ab-cdef-0123-456789abcdef/image/{}", asset_id);
    assert_eq!(flow.path, expected_path);
    match action {
        UploadAction::InsertAsset(a) => {
            assert_eq!(a.id, flow.asset_id);
            assert_eq!(a.kind, "image");
            assert_eq!(a.storage_path, expected_path);
            assert_eq!(a.content_type, "image/png");
            assert_eq!(a.byte_size, 1024);
            assert_eq!(a.created_by, USER);
        }
        _ => panic!("expected the asset row to be stored first"),
    }
    let (flow, action) = flow.step(UploadEvent::Inserted(Ok(())));
    assert_eq!(flow.stage, UploadStage::Signing);
    match action {
        UploadAction::SignUpload(path, content_type, secs) => {
            assert_eq!(path, expected_path);
            assert_eq!(content_type, "  image/png ");
            assert_eq!(secs, 600);
        }
        _ => panic!("expected a signing request"),
    }
    let (flow, action) = flow.step(UploadEvent::Signed(Ok("https://store/put".to_string())));
    assert_eq!(flow.stage, UploadStage::Done);
    match action {
        UploadAction::Respond(Ok(r)) => {
            assert_eq!(r.asset_id, flow.asset_id);
            assert_eq!(r.path, expected_path);
            assert_eq!(r.upload_url, "https://store/put");
        }
        _ => panic!("expected the upload URL"),
    }
}

#[test]
fn upload_refusals_come_before_any_write() {
    let (flow, action) = UploadFlow::start(USER, request("image", "image/png", 0));
    assert_eq!(flow.stage, UploadStage::Done);
    assert_eq!(refusal(action), (400, "byte_size must be positive".to_string()));
    let (_, action) = UploadFlow::start(USER, request("image", "   ", 10));
    assert_eq!(refusal(action), (400, "content_type is required".to_string()));
    let (_, action) = UploadFlow::start(USER, request("video", "video/mp4", 10));
    assert_eq!(refusal(action), (400, "kind must be image or worldmap".to_string()));
}

#[test]
fn upload_failures_after_registering() {
    let (flow, _) = UploadFlow::start(USER, request("worldmap", "image/jpeg", 5));
    let (flow, action) = flow.step(UploadEvent::Inserted(Err(DbError { unique_violation: false })));
    assert_eq!(flow.stage, UploadStage::Done);
    assert_eq!(refusal(action), (500, "internal server error".to_string()));

    let (flow, _) = UploadFlow::start(USER, request("worldmap", "image/jpeg", 5));
    let (flow, _) = flow.step(UploadEvent::Inserted(Ok(())));
    let failed = ApiError { status: 502, message: "storage upload sign failed: boom".to_string() };
    let (_, action) = flow.step(UploadEvent::Signed(Err(failed)));
    assert_eq!(refusal(action), (502, "storage upload sign failed: boom".to_string()));

    let (flow, _) = UploadFlow::start(USER, request("worldmap", "image/jpeg", 5));
    let (_, action) = flow.step(UploadEvent::Signed(Ok("early".to_string())));
    assert_eq!(refusal(action), (500, "internal server error".to_string()));
}
