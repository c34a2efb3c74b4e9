use matrix_account::account::{Account, SavedAccount};
use matrix_account::rooms::{JoinedRoom, MemberInfo, Membership, ParentSpace};

fn listing_account() -> Account<()> {
    let saved = SavedAccount {
        homeserver: "x".to_string(),
        user_id: "@me:x".to_string(),
        access_token: "secret".to_string(),
        device_id: "DEVICE".to_string(),
    };
    Account::restore(&saved).unwrap().0
}

fn joined_room(id: &str) -> JoinedRoom {
    JoinedRoom {
        id: id.to_string(),
        display_name: Some(format!("name of {id}")),
        topic: Some("topic".to_string()),
        member_count: 3,
        is_direct: Some(false),
        encrypted: false,
        is_space: false,
        parents: Some(Vec::new()),
        unread: 0,
    }
}

fn joined_space(id: &str) -> JoinedRoom {
    JoinedRoom { is_space: true, ..joined_room(id) }
}

fn room_in(id: &str, parents: Vec<Option<ParentSpace>>) -> JoinedRoom {
    JoinedRoom { parents: Some(parents), ..joined_room(id) }
}

#[test]
fn rooms_are_listed_in_order() {
    let mut first = joined_room("!a:x");
    first.is_direct = Some(true);
    first.encrypted = true;
    first.unread = 5;
    let mut second = joined_room("!b:x");
    second.display_name = None;
    second.is_direct = None;
    second.parents = None;
    let list = listing_account().rooms(&vec![first, second]);
    assert_eq!(list.len(), 2);
    assert_eq!(list[0].id, "!a:x");
    assert_eq!(list[0].name, "name of !a:x");
    assert!(list[0].is_dm);
    assert!(list[0].encrypted);
    assert_eq!(list[0].unread, 5);
    assert_eq!(list[0].account_id, "@me:x");
    assert_eq!(list[0].parent_space_id, None);
    assert_eq!(list[1].name, "!b:x");
    assert!(!list[1].is_dm);
    assert!(!list[1].encrypted);
}

#[test]
fn room_is_listed_under_its_first_joined_space() {
    let room = room_in(
        "!r:x",
        vec![
            Some(ParentSpace::Reciprocal("!unknown:x".to_string())),
            None,
            Some(ParentSpace::Unverifiable("!r2:x".to_string())),
            Some(ParentSpace::Illegitimate("!s2:x".to_string())),
            Some(ParentSpace::WithPowerlevel("!s1:x".to_string())),
        ],
    );
    let joined = vec![joined_space("!s1:x"), room, joined_space("!s2:x"), joined_room("!r2:x")];
    let list = listing_account().rooms(&joined);
    assert_eq!(list[1].parent_space_id.as_deref(), Some("!s2:x"));
    assert!(list[0].is_space);
    assert_eq!(list[0].parent_space_id, None);
}

#[test]
fn space_is_listed_under_none() {
    let mut inner = room_in("!s2:x", vec![Some(ParentSpace::Reciprocal("!s1:x".to_string()))]);
    inner.is_space = true;
    let joined = vec![joined_space("!s1:x"), inner];
    assert_eq!(listing_account().rooms(&joined)[1].parent_space_id, None);
}

#[test]
fn every_kind_of_parent_counts() {
    for parent in [
        ParentSpace::Reciprocal("!s1:x".to_string()),
        ParentSpace::WithPowerlevel("!s1:x".to_string()),
        ParentSpace::Illegitimate("!s1:x".to_string()),
        ParentSpace::Unverifiable("!s1:x".to_string()),
    ] {
        let joined = vec![joined_space("!s1:x"), room_in("!r:x", vec![Some(parent)])];
        let list = listing_account().rooms(&joined);
        assert_eq!(list[1].parent_space_id.as_deref(), Some("!s1:x"));
    }
}

#[test]
fn joined_members_are_fetched() {
    assert_eq!(Account::<()>::members_to_fetch(true), Some(Membership::Joined));
    assert_eq!(Account::<()>::members_to_fetch(false), None);
}

#[test]
fn room_is_described() {
    let members = vec![MemberInfo {
        user_id: "@a:x".to_string(),
        display_name: "A".to_string(),
    }];
    let mut room = joined_room("!r:x");
    room.encrypted = true;
    let details = Account::<()>::get_room_details(Some(room), Some(members)).unwrap();
    assert_eq!(details.name, "name of !r:x");
    assert_eq!(details.topic.as_deref(), Some("topic"));
    assert_eq!(details.member_count, 3);
    assert_eq!(details.encryption, "Encrypted");
    assert_eq!(details.room_id, "!r:x");
    assert_eq!(details.members.len(), 1);
    assert_eq!(details.members[0].user_id, "@a:x");
    assert_eq!(details.members[0].display_name, "A");
}

#[test]
fn room_without_name_and_members_is_described() {
    let mut room = joined_room("!r:x");
    room.display_name = None;
    room.topic = None;
    let details = Account::<()>::get_room_details(Some(room), None).unwrap();
    assert_eq!(details.name, "!r:x");
    assert_eq!(details.topic, None);
    assert_eq!(details.encryption, "Not encrypted");
    assert!(details.members.is_empty());
    assert!(Account::<()>::get_room_details(None, None).is_none());
}

#[test]
fn space_shows_its_rooms() {
    let parent = || vec![None, Some(ParentSpace::Illegitimate("!s:x".to_string()))];
    let mut inner = room_in("!inner:x", parent());
    inner.is_space = true;
    let mut own = room_in("!s:x", parent());
    own.is_space = true;
    let mut lost = joined_room("!lost:x");
    lost.parents = None;
    let joined =
        vec![room_in("!a:x", parent()), joined_room("!b:x"), own.clone(), lost, inner];
    let details = Account::<()>::get_space_details(Some(own), &joined).unwrap();
    assert_eq!(details.name, "name of !s:x");
    assert_eq!(details.room_id, "!s:x");
    assert_eq!(details.member_count, 3);
    assert_eq!(details.topic.as_deref(), Some("topic"));
    let names: Vec<&str> = details.rooms.iter().map(|r| r.name.as_str()).collect();
    assert_eq!(names, ["name of !a:x", "name of !inner:x"]);
    assert!(!details.rooms[0].is_space);
    assert!(details.rooms[1].is_space);
    assert!(!details.rooms[1].encrypted);
    assert_eq!(details.rooms[1].member_count, 3);
    assert!(Account::<()>::get_space_details(None, &joined).is_none());
}

#[test]
fn listed_room_is_in_its_space() {
    let joined = vec![
        joined_space("!s:x"),
        room_in("!a:x", vec![Some(ParentSpace::Reciprocal("!s:x".to_string()))]),
        joined_room("!b:x"),
    ];
    let list = listing_account().rooms(&joined);
    let listed: Vec<&str> = list
        .iter()
        .filter(|r| r.parent_space_id.as_deref() == Some("!s:x"))
        .map(|r| r.name.as_str())
        .collect();
    let space = Account::<()>::get_space_details(Some(joined[0].clone()), &joined).unwrap();
    let shown: Vec<&str> = space.rooms.iter().map(|r| r.name.as_str()).collect();
    assert_eq!(listed, shown);
    assert_eq!(listed, ["name of !a:x"]);
}
