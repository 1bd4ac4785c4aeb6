use photoapp::error::{ApiError, DbError};
use photoapp::worldmap::{WorldmapAction, WorldmapEvent, WorldmapFlow};

const ROOM: u128 = 0xa1a2a3a4b1b2c1c2d1d2d3d4d5d6d7d8;
const ASSET: u128 = 5;
const USER: u128 = 6;
const DB_DOWN: DbError = DbError { unique_violation: false };

fn refusal(action: WorldmapAction) -> (u16, String) {
    match action {
        WorldmapAction::Respond(Err(e)) => (e.status, e.message),
        _ => panic!("expected a refusal"),
    }
}

#[test]
fn worldmap_update_happy_path() {
    let (flow, action) = WorldmapFlow::start(ROOM, ASSET, USER);
    assert!(matches!(action, WorldmapAction::CheckMembership { room_id: ROOM, user_id: USER }));
    let (flow, action) = flow.step(WorldmapEvent::Checked(Ok(true)));
    assert!(matches!(action, WorldmapAction::FindAsset(ASSET)));
    let (flow, action) = flow.step(WorldmapEvent::AssetFound(Ok(Some("u/worldmap/a".to_string()))));
    assert!(matches!(action, WorldmapAction::NextVersion(ROOM)));
    let (flow, action) = flow.step(WorldmapEvent::Numbered(Ok(3)));
    assert!(matches!(action, WorldmapAction::InsertVersion { room_id: ROOM, version: 3, asset_id: ASSET, created_by: USER }));
    let (flow, action) = flow.step(WorldmapEvent::Inserted(Ok(())));
    assert!(matches!(action, WorldmapAction::SignDownload(ref p, 600) if p == "u/worldmap/a"));
    let (flow, action) = flow.step(WorldmapEvent::Signed(Ok("https://s/w".to_string())));
    match action {
        WorldmapAction::Broadcast { room_id, event: text } => assert_eq!(
            (room_id, text.as_str()),
            (ROOM, "{\"type\":\"worldmap_updated\",\"room_id\":\"a1a2a3a4-b1b2-c1c2-d1d2-d3d4d5d6d7d8\",\"version\":3}")
        ),
        _ => panic!("expected a broadcast"),
    }
    let (_, action) = flow.step(WorldmapEvent::Broadcast);
    match action {
        WorldmapAction::Respond(Ok((version, url))) => assert_eq!((version, url.as_str()), (3, "https://s/w")),
        _ => panic!("expected success"),
    }
}

#[test]
fn worldmap_update_refusals() {
    let (flow, _) = WorldmapFlow::start(ROOM, ASSET, USER);
    assert_eq!(refusal(flow.step(WorldmapEvent::Checked(Ok(false))).1), (403, "not a room member".to_string()));
    let (flow, _) = WorldmapFlow::start(ROOM, ASSET, USER);
    let (flow, _) = flow.step(WorldmapEvent::Checked(Ok(true)));
    assert_eq!(refusal(flow.step(WorldmapEvent::AssetFound(Ok(None))).1), (404, "worldmap asset not found".to_string()));
    let (flow, _) = WorldmapFlow::start(ROOM, ASSET, USER);
    let (flow, _) = flow.step(WorldmapEvent::Checked(Ok(true)));
    let (flow, _) = flow.step(WorldmapEvent::AssetFound(Ok(Some("p".to_string()))));
    assert_eq!(refusal(flow.step(WorldmapEvent::Numbered(Err(DB_DOWN))).1).0, 500);
    let (flow, _) = WorldmapFlow::start(ROOM, ASSET, USER);
    let (flow, _) = flow.step(WorldmapEvent::Checked(Ok(true)));
    let (flow, _) = flow.step(WorldmapEvent::AssetFound(Ok(Some("p".to_string()))));
    let (flow, _) = flow.step(WorldmapEvent::Numbered(Ok(1)));
    let (flow, _) = flow.step(WorldmapEvent::Inserted(Ok(())));
    let failed = ApiError { status: 502, message: "storage download sign failed: x".to_string() };
    assert_eq!(refusal(flow.step(WorldmapEvent::Signed(Err(failed))).1), (502, "storage download sign failed: x".to_string()));
    let (flow, _) = WorldmapFlow::start(ROOM, ASSET, USER);
    assert_eq!(refusal(flow.step(WorldmapEvent::Broadcast).1).0, 500);
}
