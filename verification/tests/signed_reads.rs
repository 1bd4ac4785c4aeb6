use photoapp::error::{ApiError, DbError};
use photoapp::signed_reads::{ReadAction, ReadEvent, ReadFlow, ReadStage};

const ASSET: u128 = 3;
const ROOM: u128 = 4;
const USER: u128 = 5;

fn refusal(action: ReadAction) -> (u16, String) {
    match action {
        ReadAction::Respond(Err(e)) => (e.status, e.message),
        _ => panic!("expected a refusal"),
    }
}

#[test]
fn download_looks_up_then_signs_for_ten_minutes() {
    let (flow, action) = ReadFlow::download(ASSET, USER);
    assert!(matches!(action, ReadAction::Find { subject: ASSET, user_id: USER }));
    let (flow, action) = flow.step(false, ReadEvent::Found(Ok(Some("u/image/a".to_string()))));
    assert!(matches!(action, ReadAction::Sign(ref p, 600) if p == "u/image/a"));
    let (flow, action) = flow.step(false, ReadEvent::Signed(Ok("https://store/get".to_string())));
    assert!(matches!(action, ReadAction::Respond(Ok(ref u)) if u == "https://store/get"));
    assert_eq!(flow.stage, ReadStage::Done);
}

#[test]
fn download_of_unknown_or_forbidden_asset_is_not_found() {
    let (flow, _) = ReadFlow::download(ASSET, USER);
    let (_, action) = flow.step(false, ReadEvent::Found(Ok(None)));
    assert_eq!(refusal(action), (404, "asset not found".to_string()));
    let (flow, _) = ReadFlow::download(ASSET, USER);
    let (flow, _) = flow.step(false, ReadEvent::Found(Ok(Some("p".to_string()))));
    let failed = ApiError { status: 502, message: "storage download sign failed: x".to_string() };
    let (_, action) = flow.step(false, ReadEvent::Signed(Err(failed)));
    assert_eq!(refusal(action), (502, "storage download sign failed: x".to_string()));
}

#[test]
fn worldmap_read_checks_membership_first() {
    let (flow, action) = ReadFlow::worldmap(ROOM, USER);
    assert!(matches!(action, ReadAction::CheckMembership { room_id: ROOM, user_id: USER }));
    let (_, action) = flow.step(true, ReadEvent::Checked(Ok(false)));
    assert_eq!(refusal(action), (403, "not a room member".to_string()));

    let (flow, _) = ReadFlow::worldmap(ROOM, USER);
    let (flow, action) = flow.step(true, ReadEvent::Checked(Ok(true)));
    assert!(matches!(action, ReadAction::Find { subject: ROOM, user_id: USER }));
    let (_, action) = flow.step(true, ReadEvent::Found(Ok(None)));
    assert_eq!(refusal(action), (404, "worldmap not found".to_string()));

    let (flow, _) = ReadFlow::worldmap(ROOM, USER);
    let (_, action) = flow.step(true, ReadEvent::Checked(Err(DbError { unique_violation: false })));
    assert_eq!(refusal(action), (500, "internal server error".to_string()));
}
