use photoapp::error::{ApiError, DbError};
use photoapp::placement::{PlacementAction, PlacementEvent, PlacementFlow, PlacementStage};

const ROOM: u128 = 7;
const IMAGE: u128 = 8;
const USER: u128 = 9;
const DB_DOWN: DbError = DbError { unique_violation: false };

fn refusal(action: PlacementAction) -> (u16, String) {
    match action {
        PlacementAction::Respond(Err(e)) => (e.status, e.message),
        other => panic!("expected a refusal, got {:?}", other),
    }
}

#[test]
fn placement_happy_path_with_image() {
    let (flow, action) = PlacementFlow::start(ROOM, IMAGE, USER, 16);
    assert!(matches!(action, PlacementAction::CheckMembership { room_id: ROOM, user_id: USER }));
    let (flow, action) = flow.step(PlacementEvent::Checked(Ok(true)));
    assert!(matches!(
        action,
        PlacementAction::InsertPlacement { room_id: ROOM, image_asset_id: IMAGE, created_by: USER, .. }
    ));
    let (flow, action) = flow.step(PlacementEvent::Inserted(Ok(())));
    assert!(matches!(action, PlacementAction::FindImage(IMAGE)));
    let (flow, action) = flow.step(PlacementEvent::ImageFound(Ok(Some("u/image/a".to_string()))));
    assert!(matches!(action, PlacementAction::SignImage(ref p, 600) if p == "u/image/a"));
    let (flow, action) = flow.step(PlacementEvent::ImageSigned(Ok("https://s/a".to_string())));
    assert!(matches!(action, PlacementAction::Broadcast(Some(ref u)) if u == "https://s/a"));
    let (flow, action) = flow.step(PlacementEvent::Broadcast(Ok(())));
    assert!(matches!(action, PlacementAction::Respond(Ok(()))));
    assert_eq!(flow.stage, PlacementStage::Done);
}

#[test]
fn placement_without_known_image_or_signature_still_broadcasts() {
    let (flow, _) = PlacementFlow::start(ROOM, IMAGE, USER, 16);
    let (flow, _) = flow.step(PlacementEvent::Checked(Ok(true)));
    let (flow, _) = flow.step(PlacementEvent::Inserted(Ok(())));
    let (_, action) = flow.step(PlacementEvent::ImageFound(Ok(None)));
    assert!(matches!(action, PlacementAction::Broadcast(None)));

    let (flow, _) = PlacementFlow::start(ROOM, IMAGE, USER, 16);
    let (flow, _) = flow.step(PlacementEvent::Checked(Ok(true)));
    let (flow, _) = flow.step(PlacementEvent::Inserted(Ok(())));
    let (flow, _) = flow.step(PlacementEvent::ImageFound(Ok(Some("p".to_string()))));
    let failed = ApiError { status: 502, message: "storage download sign failed: x".to_string() };
    let (_, action) = flow.step(PlacementEvent::ImageSigned(Err(failed)));
    assert!(matches!(action, PlacementAction::Broadcast(None)));
}

#[test]
fn placement_refusals_come_before_any_write() {
    let (flow, _) = PlacementFlow::start(ROOM, IMAGE, USER, 16);
    assert_eq!(refusal(flow.step(PlacementEvent::Checked(Ok(false))).1), (403, "not a room member".to_string()));
    let (flow, _) = PlacementFlow::start(ROOM, IMAGE, USER, 15);
    assert_eq!(
        refusal(flow.step(PlacementEvent::Checked(Ok(true))).1),
        (400, "transform must have 16 elements".to_string())
    );
    let (flow, _) = PlacementFlow::start(ROOM, IMAGE, USER, 15);
    assert_eq!(refusal(flow.step(PlacementEvent::Checked(Ok(false))).1), (403, "not a room member".to_string()));
    let (flow, _) = PlacementFlow::start(ROOM, IMAGE, USER, 16);
    assert_eq!(refusal(flow.step(PlacementEvent::Checked(Err(DB_DOWN))).1), (500, "internal server error".to_string()));
}

#[test]
fn placement_failures_after_the_checks() {
    let (flow, _) = PlacementFlow::start(ROOM, IMAGE, USER, 16);
    let (flow, _) = flow.step(PlacementEvent::Checked(Ok(true)));
    assert_eq!(refusal(flow.step(PlacementEvent::Inserted(Err(DB_DOWN))).1).0, 500);

    let (flow, _) = PlacementFlow::start(ROOM, IMAGE, USER, 16);
    let (flow, _) = flow.step(PlacementEvent::Checked(Ok(true)));
    let (flow, _) = flow.step(PlacementEvent::Inserted(Ok(())));
    assert_eq!(refusal(flow.step(PlacementEvent::ImageFound(Err(DB_DOWN))).1).0, 500);

    let (flow, _) = PlacementFlow::start(ROOM, IMAGE, USER, 16);
    let (flow, _) = flow.step(PlacementEvent::Checked(Ok(true)));
    let (flow, _) = flow.step(PlacementEvent::Inserted(Ok(())));
    let (flow, _) = flow.step(PlacementEvent::ImageFound(Ok(None)));
    assert_eq!(
        refusal(flow.step(PlacementEvent::Broadcast(Err("bad".to_string()))).1),
        (500, "failed to serialize event: bad".to_string())
    );

    let (flow, _) = PlacementFlow::start(ROOM, IMAGE, USER, 16);
    assert_eq!(refusal(flow.step(PlacementEvent::Inserted(Ok(()))).1).0, 500);
}
