use photoapp::error::DbError;
use photoapp::rooms::{CreateRoomRequest, JoinRoomRequest};
use photoapp::room_flows::{
    CreateRoomAction, CreateRoomEvent, CreateRoomFlow, CreateRoomStage, InviteAction, InviteEvent, InviteFlow,
    InviteStage, JoinAction, JoinEvent, JoinFlow, JoinStage,
};

const USER: u128 = 11;
const ROOM: u128 = 12;
const DB_DOWN: DbError = DbError { unique_violation: false };

#[test]
fn create_room_inserts_then_adds_creator_then_reads_back() {
    let (flow, action) = CreateRoomFlow::start(&CreateRoomRequest { name: "  Living room ".to_string() }, USER);
    assert_eq!(flow.stage, CreateRoomStage::Inserting);
    let room = flow.room_id;
    match action {
        CreateRoomAction::InsertRoom { room_id, name, created_by } => {
            assert_eq!(room_id, room);
            assert_eq!(name, "Living room");
            assert_eq!(created_by, USER);
        }
        _ => panic!("expected the room insertion"),
    }
    let (flow, action) = flow.step(CreateRoomEvent::Inserted(Ok(1)));
    assert!(matches!(action, CreateRoomAction::AddCreator { room_id, user_id: USER } if room_id == room));
    let (flow, action) = flow.step(CreateRoomEvent::CreatorAdded(Ok(())));
    assert!(matches!(action, CreateRoomAction::FetchRoom(id) if id == room));
    let (flow, action) = flow.step(CreateRoomEvent::Fetched(Ok(())));
    assert!(matches!(action, CreateRoomAction::Respond(Ok(()))));
    assert_eq!(flow.stage, CreateRoomStage::Done);
}

#[test]
fn create_room_trims_unicode_whitespace() {
    let (_, action) = CreateRoomFlow::start(&CreateRoomRequest { name: "\u{3000}Hall of maps\u{a0}\t\n".to_string() }, USER);
    assert!(matches!(action, CreateRoomAction::InsertRoom { ref name, .. } if name == "Hall of maps"));
    let (_, action) = CreateRoomFlow::start(&CreateRoomRequest { name: "\u{2028}\u{85} ".to_string() }, USER);
    assert!(matches!(action, CreateRoomAction::Respond(Err(_))));
}

#[test]
fn create_room_refusals() {
    let (flow, action) = CreateRoomFlow::start(&CreateRoomRequest { name: "   ".to_string() }, USER);
    assert_eq!(flow.stage, CreateRoomStage::Done);
    match action {
        CreateRoomAction::Respond(Err(e)) => assert_eq!((e.status, e.message.as_str()), (400, "room name is required")),
        _ => panic!("expected a refusal"),
    }
    let (flow, _) = CreateRoomFlow::start(&CreateRoomRequest { name: "x".to_string() }, USER);
    let (_, action) = flow.step(CreateRoomEvent::Inserted(Ok(0)));
    match action {
        CreateRoomAction::Respond(Err(e)) => assert_eq!((e.status, e.message.as_str()), (500, "failed to create room")),
        _ => panic!("expected a refusal"),
    }
    let (flow, _) = CreateRoomFlow::start(&CreateRoomRequest { name: "x".to_string() }, USER);
    let (flow, _) = flow.step(CreateRoomEvent::Inserted(Ok(1)));
    let (_, action) = flow.step(CreateRoomEvent::CreatorAdded(Err(DB_DOWN)));
    match action {
        CreateRoomAction::Respond(Err(e)) => assert_eq!((e.status, e.message.as_str()), (500, "internal server error")),
        _ => panic!("expected a refusal"),
    }
}

#[test]
fn join_adds_member_only_through_a_live_invite() {
    let (flow, action) = JoinFlow::start(&JoinRoomRequest { invite_code: " abcdef012345 ".to_string() }, USER);
    assert_eq!(flow.stage, JoinStage::FindingInvite);
    assert!(matches!(action, JoinAction::FindInvite(ref c) if c == "abcdef012345"));
    let (flow, action) = flow.step(JoinEvent::InviteFound(Ok(Some(42))));
    assert!(matches!(action, JoinAction::AddMember { room_id: 42, user_id: USER }));
    let (_, action) = flow.step(JoinEvent::MemberAdded(Ok(())));
    assert!(matches!(action, JoinAction::Respond(Ok(42))));

    let (flow, _) = JoinFlow::start(&JoinRoomRequest { invite_code: "nope".to_string() }, USER);
    let (flow, action) = flow.step(JoinEvent::InviteFound(Ok(None)));
    assert_eq!(flow.stage, JoinStage::Done);
    match action {
        JoinAction::Respond(Err(e)) => assert_eq!((e.status, e.message.as_str()), (404, "invalid invite code")),
        _ => panic!("expected a refusal"),
    }
}

#[test]
fn invite_only_for_members_and_for_a_day() {
    let (flow, action) = InviteFlow::start(ROOM, USER);
    assert!(matches!(action, InviteAction::CheckMembership { room_id: ROOM, user_id: USER }));
    let (flow, action) = flow.step(InviteEvent::Checked(Ok(true)));
    assert_eq!(flow.stage, InviteStage::Storing);
    match action {
        InviteAction::StoreInvite { code, room_id, created_by, ttl_hours } => {
            assert_eq!(code.len(), 12);
            assert!(code.chars().all(|c| c.is_ascii_hexdigit() && !c.is_ascii_uppercase()));
            assert_eq!((room_id, created_by, ttl_hours), (ROOM, USER, 24));
        }
        _ => panic!("expected the invitation to be stored"),
    }
    let (_, action) = flow.step(InviteEvent::Stored(Ok(())));
    assert!(matches!(action, InviteAction::Respond(Ok(()))));

    let (_, action) = InviteFlow::start(ROOM, USER).0.step(InviteEvent::Checked(Ok(false)));
    match action {
        InviteAction::Respond(Err(e)) => assert_eq!((e.status, e.message.as_str()), (403, "not a room member")),
        _ => panic!("expected a refusal"),
    }
}
