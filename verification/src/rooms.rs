//! Creating rooms, listing the rooms of an account, and describing rooms and spaces.

use matrix_sdk::ruma::IdParseError;
use vstd::prelude::*;

use crate::account::Account;
use crate::error::{AccountError, AccountErrorView};
use crate::event::opt_text;
use crate::identifiers::{parse_user_id, user_id_error};
use crate::text::{same_text, texts, trim, trimmed};

verus! {

/// Whether a room is listed in the room directory.
#[derive(Clone, Copy, Debug, PartialEq, Eq, Structural)]
pub enum Visibility {
    Public,
    Private,
}

/// The rules that a room starts with.
#[derive(Clone, Copy, Debug, PartialEq, Eq, Structural)]
pub enum RoomPreset {
    PublicChat,
    PrivateChat,
    TrustedPrivateChat,
}

/// A room to create.
#[derive(Clone, Debug)]
pub struct RoomCreation {
    pub name: Option<String>,
    pub topic: Option<String>,
    pub visibility: Visibility,
    pub preset: RoomPreset,
    /// The users to invite.
    pub invite: Vec<String>,
}

/// The visibility of a new room.
pub open spec fn visibility_of(is_public: bool) -> Visibility {
    if is_public {
        Visibility::Public
    } else {
        Visibility::Private
    }
}

/// The preset of a new room. Encryption makes a difference to private rooms only.
pub open spec fn preset_of(is_public: bool, e2ee: bool) -> RoomPreset {
    if is_public {
        RoomPreset::PublicChat
    } else if e2ee {
        RoomPreset::TrustedPrivateChat
    } else {
        RoomPreset::PrivateChat
    }
}

/// The users to invite, for the texts given: each without the white space around it, in order, and
/// blank ones left out; or the error of the first text that is no user identifier.
pub open spec fn invites_of(ids: Seq<Seq<char>>) -> Result<Seq<Seq<char>>, IdParseError>
    decreases ids.len(),
{
    if ids.len() == 0 {
        Ok(seq![])
    } else {
        let id = trimmed(ids[0]);
        let rest = invites_of(ids.skip(1));
        if id.len() == 0 {
            rest
        } else {
            match (user_id_error(id), rest) {
                (Some(error), _) => Err(error),
                (None, Ok(others)) => Ok(seq![id] + others),
                (None, Err(error)) => Err(error),
            }
        }
    }
}

/// Reads the users to invite, as [`invites_of`] says.
fn parse_invites(ids: &Vec<String>) -> (r: Result<Vec<String>, AccountError>)
    ensures
        match (r, invites_of(texts(ids@))) {
            (Ok(list), Ok(expected)) => texts(list@) == expected,
            (Err(e), Err(error)) => e@ == (AccountErrorView::InvalidId { error }),
            _ => false,
        },
{
    let mut out: Vec<String> = Vec::new();
    let mut i: usize = 0;
    let ghost all = texts(ids@);
    assert(all.skip(0) == all);
    assert(texts(out@) == Seq::<Seq<char>>::empty());
    assert(invites_of(all) matches Ok(v) ==> texts(out@) + v == v);
    while i < ids.len()
        invariant
            i <= ids@.len(),
            all == texts(ids@),
            match (invites_of(all.skip(i as int)), invites_of(all)) {
                (Ok(rest), Ok(list)) => list == texts(out@) + rest,
                (Err(a), Err(b)) => a == b,
                _ => false,
            },
        decreases ids@.len() - i,
    {
        let ghost tail = all.skip(i as int);
        assert(tail.skip(1) == all.skip(i + 1));
        assert(tail[0] == ids@[i as int]@);
        let id = trim(ids[i].as_str());
        if !id.as_str().is_empty() {
            match parse_user_id(id.as_str()) {
                Ok(user_id) => {
                    let ghost before = texts(out@);
                    out.push(user_id);
                    assert(texts(out@) == before.push(id@));
                    assert(invites_of(tail.skip(1)) matches Ok(rest) ==> before + (seq![id@] + rest)
                        == texts(out@) + rest);
                },
                Err(e) => {
                    return Err(e);
                },
            }
        }
        i = i + 1;
    }
    assert(invites_of(all.skip(i as int)) == Ok::<Seq<Seq<char>>, IdParseError>(seq![]));
    Ok(out)
}

/// Each user invited to a new room is one of the texts given, without the white space around it,
/// and a valid user identifier.
pub proof fn law_invites_are_valid(ids: Seq<Seq<char>>, i: int)
    requires
        invites_of(ids) is Ok,
        0 <= i < invites_of(ids)->Ok_0.len(),
    ensures
        user_id_error(invites_of(ids)->Ok_0[i]) is None,
        invites_of(ids)->Ok_0[i].len() > 0,
        exists|j: int| 0 <= j < ids.len() && trimmed(#[trigger] ids[j]) == invites_of(ids)->Ok_0[i],
    decreases ids.len(),
{
    let id = trimmed(ids[0]);
    let tail = ids.skip(1);
    let others = invites_of(tail)->Ok_0;
    if id.len() == 0 {
        law_invites_are_valid(tail, i);
        let j = choose|j: int| 0 <= j < tail.len() && trimmed(#[trigger] tail[j]) == others[i];
        assert(tail[j] == ids[j + 1]);
    } else if i > 0 {
        assert(invites_of(ids)->Ok_0[i] == others[i - 1]);
        law_invites_are_valid(tail, i - 1);
        let j = choose|j: int| 0 <= j < tail.len() && trimmed(#[trigger] tail[j]) == others[i - 1];
        assert(tail[j] == ids[j + 1]);
    } else {
        assert(trimmed(ids[0]) == invites_of(ids)->Ok_0[0]);
    }
}

/// Users can be invited if and only if each text is blank or a user identifier.
pub proof fn law_blank_invites_do_no_harm(ids: Seq<Seq<char>>)
    ensures
        invites_of(ids) is Ok <==> forall|j: int|
            0 <= j < ids.len() ==> trimmed(#[trigger] ids[j]).len() == 0 || user_id_error(
                trimmed(ids[j]),
            ) is None,
    decreases ids.len(),
{
    if ids.len() > 0 {
        let tail = ids.skip(1);
        law_blank_invites_do_no_harm(tail);
        assert(forall|j: int| 0 <= j < tail.len() ==> #[trigger] tail[j] == ids[j + 1]);
        assert(forall|j: int| 0 < j < ids.len() ==> #[trigger] ids[j] == tail[j - 1]);
    }
}

impl<H> Account<H> {
    /// The room to create.
    pub fn create_room(
        name: Option<&str>,
        topic: Option<&str>,
        is_public: bool,
        e2ee: bool,
        invite_ids: Vec<String>,
    ) -> (r: Result<RoomCreation, AccountError>)
        ensures
            match (r, invites_of(texts(invite_ids@))) {
                (Ok(room), Ok(invite)) => {
                    &&& opt_text(room.name) == opt_str(name)
                    &&& opt_text(room.topic) == opt_str(topic)
                    &&& room.visibility == visibility_of(is_public)
                    &&& room.preset == preset_of(is_public, e2ee)
                    &&& texts(room.invite@) == invite
                },
                (Err(e), Err(error)) => e@ == (AccountErrorView::InvalidId { error }),
                _ => false,
            },
    {
        let visibility = if is_public {
            Visibility::Public
        } else {
            Visibility::Private
        };
        let preset = if is_public {
            RoomPreset::PublicChat
        } else if e2ee {
            RoomPreset::TrustedPrivateChat
        } else {
            RoomPreset::PrivateChat
        };
        let name = match name {
            Some(n) => Some(n.to_owned()),
            None => None,
        };
        let topic = match topic {
            Some(t) => Some(t.to_owned()),
            None => None,
        };
        match parse_invites(&invite_ids) {
            Ok(invite) => Ok(RoomCreation { name, topic, visibility, preset, invite }),
            Err(e) => Err(e),
        }
    }
}

/// What an optional text holds.
pub open spec fn opt_str(s: Option<&str>) -> Option<Seq<char>> {
    match s {
        Some(t) => Some(t@),
        None => None,
    }
}

/// What a room says of a space that it belongs to, by the space's room identifier.
#[derive(Clone, Debug)]
pub enum ParentSpace {
    /// The space says so too.
    Reciprocal(String),
    /// The space does not say so, but who said so of the room may say it of the space.
    WithPowerlevel(String),
    /// The space does not say so, and who said so of the room may not say it of the space.
    Illegitimate(String),
    /// The space is not known to the client.
    Unverifiable(String),
}

impl ParentSpace {
    /// The space's room identifier.
    pub open spec fn id(self) -> Seq<char> {
        match self {
            ParentSpace::Reciprocal(id) => id@,
            ParentSpace::WithPowerlevel(id) => id@,
            ParentSpace::Illegitimate(id) => id@,
            ParentSpace::Unverifiable(id) => id@,
        }
    }

    /// The space's room identifier.
    pub fn room_id(&self) -> (r: &String)
        ensures
            r@ == self.id(),
    {
        match self {
            ParentSpace::Reciprocal(id) => id,
            ParentSpace::WithPowerlevel(id) => id,
            ParentSpace::Illegitimate(id) => id,
            ParentSpace::Unverifiable(id) => id,
        }
    }
}

/// What the client knows of a room that the account joined.
#[derive(Clone, Debug)]
pub struct JoinedRoom {
    pub id: String,
    /// The name computed for the room, once there is one.
    pub display_name: Option<String>,
    pub topic: Option<String>,
    pub member_count: u64,
    /// Whether it is a direct chat, unless that could not be found out.
    pub is_direct: Option<bool>,
    pub encrypted: bool,
    pub is_space: bool,
    /// The spaces that it belongs to, unless they could not be found out; each of them may have
    /// been unreadable.
    pub parents: Option<Vec<Option<ParentSpace>>>,
    /// The number of unread notifications.
    pub unread: u64,
}

impl JoinedRoom {
    /// The name to show: the one computed, or else the room identifier.
    pub open spec fn name(self) -> Seq<char> {
        match self.display_name {
            Some(name) => name@,
            None => self.id@,
        }
    }

    /// Whether one of the spaces that the room belongs to is `id`.
    pub open spec fn has_parent(self, id: Seq<char>) -> bool {
        self.parents matches Some(list) && exists|i: int|
            0 <= i < list@.len() && (#[trigger] list@[i] matches Some(p) && p.id() == id)
    }

    fn shown_name(&self) -> (r: String)
        ensures
            r@ == self.name(),
    {
        match &self.display_name {
            Some(name) => name.clone(),
            None => self.id.clone(),
        }
    }

    fn belongs_to(&self, id: &str) -> (r: bool)
        ensures
            r == self.has_parent(id@),
    {
        match &self.parents {
            None => false,
            Some(list) => {
                let mut i: usize = 0;
                while i < list.len()
                    invariant
                        self.parents == Some(*list),
                        i <= list@.len(),
                        forall|j: int|
                            0 <= j < i ==> !(#[trigger] list@[j] matches Some(p) && p.id() == id@),
                    decreases list@.len() - i,
                {
                    match &list[i] {
                        Some(p) => {
                            if same_text(p.room_id().as_str(), id) {
                                assert(list@[i as int] matches Some(q) && q.id() == id@);
                                return true;
                            }
                        },
                        None => {},
                    }
                    i = i + 1;
                }
                false
            },
        }
    }
}

/// A room as the room list shows it.
#[derive(Clone, Debug)]
pub struct RoomInfo {
    pub id: String,
    pub name: String,
    pub is_dm: bool,
    pub encrypted: bool,
    pub is_space: bool,
    pub parent_space_id: Option<String>,
    pub unread: u64,
    pub account_id: String,
}

/// What a [`RoomInfo`] holds.
pub struct RoomInfoView {
    pub id: Seq<char>,
    pub name: Seq<char>,
    pub is_dm: bool,
    pub encrypted: bool,
    pub is_space: bool,
    pub parent_space_id: Option<Seq<char>>,
    pub unread: u64,
    pub account_id: Seq<char>,
}

impl View for RoomInfo {
    type V = RoomInfoView;

    open spec fn view(&self) -> RoomInfoView {
        RoomInfoView {
            id: self.id@,
            name: self.name@,
            is_dm: self.is_dm,
            encrypted: self.encrypted,
            is_space: self.is_space,
            parent_space_id: opt_text(self.parent_space_id),
            unread: self.unread,
            account_id: self.account_id@,
        }
    }
}

/// What a list of rooms holds.
pub open spec fn room_infos(list: Seq<RoomInfo>) -> Seq<RoomInfoView> {
    list.map_values(|r: RoomInfo| r@)
}

/// Whether `id` is a space among the rooms joined.
pub open spec fn is_joined_space(joined: Seq<JoinedRoom>, id: Seq<char>) -> bool {
    exists|i: int| 0 <= i < joined.len() && (#[trigger] joined[i]).is_space && joined[i].id@ == id
}

/// The first of `parents` that is a joined space, by its room identifier.
pub open spec fn first_joined_parent(
    parents: Seq<Option<ParentSpace>>,
    joined: Seq<JoinedRoom>,
) -> Option<Seq<char>>
    decreases parents.len(),
{
    if parents.len() == 0 {
        None
    } else {
        match parents[0] {
            Some(p) => if is_joined_space(joined, p.id()) {
                Some(p.id())
            } else {
                first_joined_parent(parents.skip(1), joined)
            },
            None => first_joined_parent(parents.skip(1), joined),
        }
    }
}

/// The space under which a room is listed: the first one that it belongs to and that the account
/// joined. A space is listed under none.
pub open spec fn parent_space(room: JoinedRoom, joined: Seq<JoinedRoom>) -> Option<Seq<char>> {
    if room.is_space {
        None
    } else {
        match room.parents {
            Some(parents) => first_joined_parent(parents@, joined),
            None => None,
        }
    }
}

/// How the room list of account `account_id` shows a room.
pub open spec fn room_info_of(
    account_id: Seq<char>,
    room: JoinedRoom,
    joined: Seq<JoinedRoom>,
) -> RoomInfoView {
    RoomInfoView {
        id: room.id@,
        name: room.name(),
        is_dm: room.is_direct == Some(true),
        encrypted: room.encrypted,
        is_space: room.is_space,
        parent_space_id: parent_space(room, joined),
        unread: room.unread,
        account_id,
    }
}

/// Looks a space up among the rooms joined.
fn joined_space(joined: &Vec<JoinedRoom>, id: &str) -> (r: bool)
    ensures
        r == is_joined_space(joined@, id@),
{
    let mut i: usize = 0;
    while i < joined.len()
        invariant
            i <= joined@.len(),
            forall|j: int| 0 <= j < i ==> !((#[trigger] joined@[j]).is_space && joined@[j].id@ == id@),
        decreases joined@.len() - i,
    {
        if joined[i].is_space && same_text(joined[i].id.as_str(), id) {
            assert(joined@[i as int].is_space && joined@[i as int].id@ == id@);
            return true;
        }
        i = i + 1;
    }
    false
}

/// Finds the space under which a room is listed.
fn find_parent_space(room: &JoinedRoom, joined: &Vec<JoinedRoom>) -> (r: Option<String>)
    ensures
        opt_text(r) == parent_space(*room, joined@),
{
    if room.is_space {
        return None;
    }
    match &room.parents {
        None => None,
        Some(parents) => {
            let mut i: usize = 0;
            assert(parents@.skip(0) == parents@);
            while i < parents.len()
                invariant
                    i <= parents@.len(),
                    first_joined_parent(parents@, joined@) == first_joined_parent(
                        parents@.skip(i as int),
                        joined@,
                    ),
                    parent_space(*room, joined@) == first_joined_parent(parents@, joined@),
                decreases parents@.len() - i,
            {
                assert(parents@.skip(i as int).skip(1) == parents@.skip(i + 1));
                match &parents[i] {
                    Some(p) => {
                        if joined_space(joined, p.room_id().as_str()) {
                            return Some(p.room_id().clone());
                        }
                    },
                    None => {},
                }
                i = i + 1;
            }
            None
        },
    }
}

impl<H> Account<H> {
    /// The room list: one entry for each room joined, in the same order.
    pub fn rooms(&self, joined: &Vec<JoinedRoom>) -> (r: Vec<RoomInfo>)
        ensures
            room_infos(r@) == joined@.map_values(
                |room: JoinedRoom| room_info_of(self.user_id@, room, joined@),
            ),
    {
        let mut result: Vec<RoomInfo> = Vec::new();
        let mut i: usize = 0;
        while i < joined.len()
            invariant
                i <= joined@.len(),
                result@.len() == i,
                forall|j: int|
                    0 <= j < i ==> (#[trigger] result@[j])@ == room_info_of(
                        self.user_id@,
                        joined@[j],
                        joined@,
                    ),
            decreases joined@.len() - i,
        {
            let room = &joined[i];
            let info = RoomInfo {
                id: room.id.clone(),
                name: room.shown_name(),
                is_dm: room.is_direct.unwrap_or(false),
                encrypted: room.encrypted,
                is_space: room.is_space,
                parent_space_id: find_parent_space(room, joined),
                unread: room.unread,
                account_id: self.user_id.clone(),
            };
            result.push(info);
            i = i + 1;
        }
        result
    }
}

/// A member of a room.
#[derive(Clone, Debug)]
pub struct MemberInfo {
    pub user_id: String,
    pub display_name: String,
}

/// How a user belongs to a room.
#[derive(Clone, Copy, Debug, PartialEq, Eq, Structural)]
pub enum Membership {
    Joined,
    Invited,
    Left,
}

/// A room in detail.
#[derive(Clone, Debug)]
pub struct RoomDetails {
    pub name: String,
    pub topic: Option<String>,
    pub member_count: u64,
    pub encryption: String,
    pub room_id: String,
    pub members: Vec<MemberInfo>,
}

/// A space in detail.
#[derive(Clone, Debug)]
pub struct SpaceDetails {
    pub name: String,
    pub topic: Option<String>,
    pub member_count: u64,
    pub room_id: String,
    pub rooms: Vec<SpaceChildInfo>,
}

/// A room or a space within a space.
#[derive(Clone, Debug)]
pub struct SpaceChildInfo {
    pub name: String,
    pub is_space: bool,
    pub encrypted: bool,
    pub member_count: u64,
}

/// What a [`SpaceChildInfo`] holds.
pub struct SpaceChildInfoView {
    pub name: Seq<char>,
    pub is_space: bool,
    pub encrypted: bool,
    pub member_count: u64,
}

impl View for SpaceChildInfo {
    type V = SpaceChildInfoView;

    open spec fn view(&self) -> SpaceChildInfoView {
        SpaceChildInfoView {
            name: self.name@,
            is_space: self.is_space,
            encrypted: self.encrypted,
            member_count: self.member_count,
        }
    }
}

/// What a list of rooms within a space holds.
pub open spec fn child_infos(list: Seq<SpaceChildInfo>) -> Seq<SpaceChildInfoView> {
    list.map_values(|c: SpaceChildInfo| c@)
}

/// Whether a room is shown within the space `space_id`: it is another room and says that it
/// belongs to the space.
pub open spec fn is_child(room: JoinedRoom, space_id: Seq<char>) -> bool {
    room.id@ != space_id && room.has_parent(space_id)
}

/// How a space shows a room within it.
pub open spec fn child_info_of(room: JoinedRoom) -> SpaceChildInfoView {
    SpaceChildInfoView {
        name: room.name(),
        is_space: room.is_space,
        encrypted: room.encrypted,
        member_count: room.member_count,
    }
}

/// The rooms among `joined` that are shown within the space `space_id`, in their order.
pub open spec fn children_of(space_id: Seq<char>, joined: Seq<JoinedRoom>) -> Seq<
    SpaceChildInfoView,
>
    decreases joined.len(),
{
    if joined.len() == 0 {
        seq![]
    } else {
        let rest = children_of(space_id, joined.skip(1));
        if is_child(joined[0], space_id) {
            seq![child_info_of(joined[0])] + rest
        } else {
            rest
        }
    }
}

/// Finds the rooms within a space.
fn find_children(space_id: &str, joined: &Vec<JoinedRoom>) -> (r: Vec<SpaceChildInfo>)
    ensures
        child_infos(r@) == children_of(space_id@, joined@),
{
    let mut children: Vec<SpaceChildInfo> = Vec::new();
    let mut i: usize = 0;
    assert(joined@.skip(0) == joined@);
    assert(child_infos(children@) + children_of(space_id@, joined@) == children_of(
        space_id@,
        joined@,
    ));
    while i < joined.len()
        invariant
            i <= joined@.len(),
            child_infos(children@) + children_of(space_id@, joined@.skip(i as int)) == children_of(
                space_id@,
                joined@,
            ),
        decreases joined@.len() - i,
    {
        let room = &joined[i];
        let ghost tail = joined@.skip(i as int);
        assert(tail.skip(1) == joined@.skip(i + 1));
        assert(tail[0] == *room);
        if !same_text(room.id.as_str(), space_id) && room.belongs_to(space_id) {
            let ghost before = child_infos(children@);
            let child = SpaceChildInfo {
                name: room.shown_name(),
                is_space: room.is_space,
                encrypted: room.encrypted,
                member_count: room.member_count,
            };
            let ghost shown = child@;
            children.push(child);
            assert(child_infos(children@) == before.push(shown));
            assert(before + children_of(space_id@, tail) == child_infos(children@) + children_of(
                space_id@,
                tail.skip(1),
            ));
        }
        i = i + 1;
    }
    assert(children_of(space_id@, joined@.skip(i as int)) == Seq::<SpaceChildInfoView>::empty());
    children
}

impl<H> Account<H> {
    /// Which members to fetch for the details of a room, if the client knows it: those that joined.
    pub fn members_to_fetch(room_found: bool) -> (r: Option<Membership>)
        ensures
            r == if room_found {
                Some(Membership::Joined)
            } else {
                None
            },
    {
        if room_found {
            Some(Membership::Joined)
        } else {
            None
        }
    }

    /// A room in detail, if the client knows it. Its members are left out where they could not be
    /// fetched.
    pub fn get_room_details(room: Option<JoinedRoom>, members: Option<Vec<MemberInfo>>) -> (r:
        Option<RoomDetails>)
        ensures
            match (r, room) {
                (Some(details), Some(room)) => {
                    &&& details.name@ == room.name()
                    &&& details.topic == room.topic
                    &&& details.member_count == room.member_count
                    &&& details.encryption@ == if room.encrypted {
                        "Encrypted"@
                    } else {
                        "Not encrypted"@
                    }
                    &&& details.room_id == room.id
                    &&& match members {
                        Some(list) => details.members == list,
                        None => details.members@.len() == 0,
                    }
                },
                (None, None) => true,
                _ => false,
            },
    {
        match room {
            None => None,
            Some(room) => {
                let name = room.shown_name();
                let encryption = if room.encrypted {
                    "Encrypted".to_owned()
                } else {
                    "Not encrypted".to_owned()
                };
                let members = match members {
                    Some(list) => list,
                    None => Vec::new(),
                };
                Some(
                    RoomDetails {
                        name,
                        topic: room.topic,
                        member_count: room.member_count,
                        encryption,
                        room_id: room.id,
                        members,
                    },
                )
            },
        }
    }

    /// A space in detail, with the rooms among `joined` that belong to it, if the client knows it.
    pub fn get_space_details(room: Option<JoinedRoom>, joined: &Vec<JoinedRoom>) -> (r: Option<
        SpaceDetails,
    >)
        ensures
            match (r, room) {
                (Some(details), Some(room)) => {
                    &&& details.name@ == room.name()
                    &&& details.topic == room.topic
                    &&& details.member_count == room.member_count
                    &&& details.room_id == room.id
                    &&& child_infos(details.rooms@) == children_of(room.id@, joined@)
                },
                (None, None) => true,
                _ => false,
            },
    {
        match room {
            None => None,
            Some(room) => {
                let name = room.shown_name();
                let rooms = find_children(room.id.as_str(), joined);
                Some(
                    SpaceDetails {
                        name,
                        topic: room.topic,
                        member_count: room.member_count,
                        room_id: room.id,
                        rooms,
                    },
                )
            },
        }
    }
}

proof fn lemma_first_joined_parent(parents: Seq<Option<ParentSpace>>, joined: Seq<JoinedRoom>)
    ensures
        first_joined_parent(parents, joined) matches Some(id) ==> is_joined_space(joined, id)
            && exists|i: int|
            0 <= i < parents.len() && (#[trigger] parents[i] matches Some(p) && p.id() == id),
    decreases parents.len(),
{
    if parents.len() > 0 {
        let tail = parents.skip(1);
        lemma_first_joined_parent(tail, joined);
        if let Some(id) = first_joined_parent(parents, joined) {
            if parents[0] is Some && is_joined_space(joined, parents[0]->0.id()) {
                assert(parents[0] matches Some(p) && p.id() == id);
            } else {
                let i = choose|i: int|
                    0 <= i < tail.len() && (#[trigger] tail[i] matches Some(p) && p.id() == id);
                assert(tail[i] == parents[i + 1]);
            }
        }
    }
}

/// A room is listed only under a space that the account joined and that the room belongs to, and
/// it is shown within that space, unless it is the space itself. A space is listed under none.
pub proof fn law_room_list_agrees_with_spaces(room: JoinedRoom, joined: Seq<JoinedRoom>)
    ensures
        room.is_space ==> parent_space(room, joined) is None,
        parent_space(room, joined) matches Some(id) ==> {
            &&& is_joined_space(joined, id)
            &&& room.has_parent(id)
            &&& room.id@ != id ==> is_child(room, id)
        },
{
    if !room.is_space {
        if let Some(parents) = room.parents {
            lemma_first_joined_parent(parents@, joined);
        }
    }
}

proof fn lemma_children_contain(space_id: Seq<char>, joined: Seq<JoinedRoom>, i: int)
    requires
        0 <= i < joined.len(),
        is_child(joined[i], space_id),
    ensures
        children_of(space_id, joined).contains(child_info_of(joined[i])),
    decreases joined.len(),
{
    let tail = joined.skip(1);
    let list = children_of(space_id, joined);
    if i == 0 {
        assert(list[0] == child_info_of(joined[0]));
    } else {
        assert(tail[i - 1] == joined[i]);
        lemma_children_contain(space_id, tail, i - 1);
        let rest = children_of(space_id, tail);
        let j = choose|j: int| 0 <= j < rest.len() && rest[j] == child_info_of(joined[i]);
        if is_child(joined[0], space_id) {
            assert(list[j + 1] == rest[j]);
        } else {
            assert(list[j] == rest[j]);
        }
    }
}

/// Every room that the room list puts under a space is among the rooms of that space's details,
/// unless it is the space itself.
pub proof fn law_listed_room_is_in_its_space(joined: Seq<JoinedRoom>, i: int)
    requires
        0 <= i < joined.len(),
        parent_space(joined[i], joined) is Some,
        joined[i].id@ != parent_space(joined[i], joined)->0,
    ensures
        children_of(parent_space(joined[i], joined)->0, joined).contains(child_info_of(joined[i])),
{
    law_room_list_agrees_with_spaces(joined[i], joined);
    lemma_children_contain(parent_space(joined[i], joined)->0, joined, i);
}

/// Every room of a space's details is a room that the account joined, other than the space, and
/// that says that it belongs to the space.
pub proof fn law_space_shows_only_its_rooms(space_id: Seq<char>, joined: Seq<JoinedRoom>, j: int)
    requires
        0 <= j < children_of(space_id, joined).len(),
    ensures
        exists|i: int|
            0 <= i < joined.len() && is_child(#[trigger] joined[i], space_id) && children_of(
                space_id,
                joined,
            )[j] == child_info_of(joined[i]),
    decreases joined.len(),
{
    let tail = joined.skip(1);
    let rest = children_of(space_id, tail);
    let list = children_of(space_id, joined);
    let k = if is_child(joined[0], space_id) {
        j - 1
    } else {
        j
    };
    if k < 0 {
        assert(list[j] == child_info_of(joined[0]));
    } else {
        assert(list[j] == rest[k]);
        law_space_shows_only_its_rooms(space_id, tail, k);
        let i = choose|i: int|
            0 <= i < tail.len() && is_child(#[trigger] tail[i], space_id) && rest[k]
                == child_info_of(tail[i]);
        assert(tail[i] == joined[i + 1]);
    }
}

proof fn lemma_invites_concat(a: Seq<Seq<char>>, b: Seq<Seq<char>>)
    ensures
        invites_of(a) is Ok && invites_of(b) is Ok ==> invites_of(a + b) == Ok::<
            Seq<Seq<char>>,
            IdParseError,
        >(invites_of(a)->Ok_0 + invites_of(b)->Ok_0),
        invites_of(a) is Ok && invites_of(b) is Err ==> invites_of(a + b) == invites_of(b),
        invites_of(a) is Err ==> invites_of(a + b) == invites_of(a),
    decreases a.len(),
{
    if a.len() == 0 {
        assert(a + b == b);
        if invites_of(b) is Ok {
            assert(Seq::<Seq<char>>::empty() + invites_of(b)->Ok_0 == invites_of(b)->Ok_0);
        }
    } else {
        assert((a + b).skip(1) == a.skip(1) + b);
        assert((a + b)[0] == a[0]);
        lemma_invites_concat(a.skip(1), b);
        let id = trimmed(a[0]);
        if invites_of(a) is Ok && invites_of(b) is Ok && id.len() > 0 {
            let others = invites_of(a.skip(1))->Ok_0;
            let more = invites_of(b)->Ok_0;
            assert(seq![id] + (others + more) == (seq![id] + others) + more);
        }
    }
}

proof fn lemma_invites_are_the_rest(ids: Seq<Seq<char>>)
    requires
        invites_of(ids) is Ok,
    ensures
        invites_of(ids)->Ok_0 == ids.map_values(|t: Seq<char>| trimmed(t)).filter(
            |t: Seq<char>| t.len() > 0,
        ),
    decreases ids.len(),
{
    let trim = |t: Seq<char>| trimmed(t);
    let kept = |t: Seq<char>| t.len() > 0;
    reveal(Seq::filter);
    if ids.len() > 0 {
        let head = ids.drop_last();
        let last = seq![ids.last()];
        assert(head + last == ids);
        lemma_invites_concat(head, last);
        lemma_invites_are_the_rest(head);
        assert(last.skip(1) == Seq::<Seq<char>>::empty());
        let all = ids.map_values(trim);
        assert(all.drop_last() == head.map_values(trim));
        assert(all.last() == trimmed(ids.last()));
        let t = trimmed(ids.last());
        reveal_with_fuel(invites_of, 2);
        assert(last[0] == ids.last());
        if t.len() > 0 {
            assert(invites_of(last)->Ok_0 == seq![t]);
        } else {
            assert(invites_of(last)->Ok_0 == Seq::<Seq<char>>::empty());
        }
        assert(invites_of(ids)->Ok_0 == all.filter(kept));
    } else {
        assert(ids.map_values(trim) == Seq::<Seq<char>>::empty());
    }
}

proof fn lemma_first_bad_invite(ids: Seq<Seq<char>>) -> (j: int)
    requires
        invites_of(ids) is Err,
    ensures
        0 <= j < ids.len(),
        trimmed(ids[j]).len() > 0,
        user_id_error(trimmed(ids[j])) == Some(invites_of(ids)->Err_0),
        forall|k: int|
            0 <= k < j ==> trimmed(#[trigger] ids[k]).len() == 0 || user_id_error(trimmed(ids[k]))
                is None,
    decreases ids.len(),
{
    let id = trimmed(ids[0]);
    if id.len() > 0 && user_id_error(id) is Some {
        0
    } else {
        let tail = ids.skip(1);
        let j = lemma_first_bad_invite(tail);
        assert forall|k: int| 0 <= k < j + 1 implies trimmed(#[trigger] ids[k]).len() == 0
            || user_id_error(trimmed(ids[k])) is None by {
            if k > 0 {
                assert(tail[k - 1] == ids[k]);
            }
        }
        j + 1
    }
}

/// A room is created with the name and the topic given, listed if and only if it is public, and
/// under the rules for public, for private and, with encryption, for trusted private chats.
pub proof fn law_room_is_created_as_chosen<H>(
    name: Option<&str>,
    topic: Option<&str>,
    is_public: bool,
    e2ee: bool,
    invite_ids: Vec<String>,
    r: Result<RoomCreation, AccountError>,
)
    requires
        call_ensures(
            Account::<H>::create_room,
            (name, topic, is_public, e2ee, invite_ids),
            r,
        ),
    ensures
        r matches Ok(room) ==> {
            &&& room.name is Some <==> name is Some
            &&& name matches Some(n) ==> room.name->0@ == n@
            &&& room.topic is Some <==> topic is Some
            &&& topic matches Some(t) ==> room.topic->0@ == t@
            &&& room.visibility == Visibility::Public <==> is_public
            &&& is_public ==> room.preset == RoomPreset::PublicChat
            &&& !is_public && e2ee ==> room.preset == RoomPreset::TrustedPrivateChat
            &&& !is_public && !e2ee ==> room.preset == RoomPreset::PrivateChat
        },
{
}

/// The users invited to a new room are the texts given without the white space around them, in
/// their order, but for blank ones. The room is refused if and only if one of them is no user
/// identifier, and then for the first of these.
pub proof fn law_invited_are_the_users_given<H>(
    name: Option<&str>,
    topic: Option<&str>,
    is_public: bool,
    e2ee: bool,
    invite_ids: Vec<String>,
    r: Result<RoomCreation, AccountError>,
)
    requires
        call_ensures(
            Account::<H>::create_room,
            (name, topic, is_public, e2ee, invite_ids),
            r,
        ),
    ensures
        r matches Ok(room) ==> room.invite@.map_values(|s: String| s@) == invite_ids@.map_values(
            |s: String| trimmed(s@),
        ).filter(|t: Seq<char>| t.len() > 0),
        r is Ok <==> forall|j: int|
            0 <= j < invite_ids@.len() ==> trimmed((#[trigger] invite_ids@[j])@).len() == 0
                || user_id_error(trimmed(invite_ids@[j]@)) is None,
        r matches Err(e) ==> (e matches AccountError::InvalidId { error } && exists|j: int|
            {
                &&& 0 <= j < invite_ids@.len()
                &&& trimmed((#[trigger] invite_ids@[j])@).len() > 0
                &&& user_id_error(trimmed(invite_ids@[j]@)) == Some(error)
                &&& forall|k: int|
                    0 <= k < j ==> trimmed((#[trigger] invite_ids@[k])@).len() == 0
                        || user_id_error(trimmed(invite_ids@[k]@)) is None
            }),
{
    let ids = texts(invite_ids@);
    assert(forall|j: int| 0 <= j < ids.len() ==> #[trigger] ids[j] == invite_ids@[j]@);
    assert(forall|j: int| 0 <= j < ids.len() ==> (#[trigger] invite_ids@[j])@ == ids[j]);
    law_blank_invites_do_no_harm(ids);
    if let Ok(room) = r {
        lemma_invites_are_the_rest(ids);
        assert(ids.map_values(|t: Seq<char>| trimmed(t)) == invite_ids@.map_values(
            |s: String| trimmed(s@),
        ));
        assert(room.invite@.map_values(|s: String| s@) == texts(room.invite@));
    } else {
        let j = lemma_first_bad_invite(ids);
        assert(invite_ids@[j]@ == ids[j]);
    }
}

/// The room list has one entry for each room joined, in the same order, which says of the room what
/// the client knows of it: it is a direct chat only where that was found out, and its name is the
/// one computed, or else its identifier.
pub proof fn law_each_room_is_listed_as_it_is<H>(
    account: &Account<H>,
    joined: &Vec<JoinedRoom>,
    r: Vec<RoomInfo>,
    i: int,
)
    requires
        call_ensures(Account::<H>::rooms, (account, joined), r),
        0 <= i < joined@.len(),
    ensures
        r@.len() == joined@.len(),
        r@[i].id@ == joined@[i].id@,
        joined@[i].display_name matches Some(name) ==> r@[i].name@ == name@,
        joined@[i].display_name is None ==> r@[i].name@ == joined@[i].id@,
        r@[i].is_dm <==> (joined@[i].is_direct matches Some(direct) && direct),
        r@[i].encrypted == joined@[i].encrypted,
        r@[i].is_space == joined@[i].is_space,
        r@[i].unread == joined@[i].unread,
        r@[i].account_id@ == account.user_id@,
{
    let infos = room_infos(r@);
    assert(infos.len() == joined@.len());
    assert(infos[i] == r@[i]@);
    assert(infos[i] == room_info_of(account.user_id@, joined@[i], joined@));
}

/// A parent of any kind names the space by its room identifier.
pub proof fn law_parent_names_its_space(parent: &ParentSpace, r: &String)
    requires
        call_ensures(ParentSpace::room_id, (parent,), r),
    ensures
        r@ == parent.id(),
        parent matches ParentSpace::Reciprocal(id) ==> r@ == id@,
        parent matches ParentSpace::WithPowerlevel(id) ==> r@ == id@,
        parent matches ParentSpace::Illegitimate(id) ==> r@ == id@,
        parent matches ParentSpace::Unverifiable(id) ==> r@ == id@,
{
}

/// Whether the parent at `k` is a space that the account joined.
pub open spec fn is_joined_parent(
    parents: Seq<Option<ParentSpace>>,
    joined: Seq<JoinedRoom>,
    k: int,
) -> bool {
    parents[k] matches Some(p) && exists|i: int|
        0 <= i < joined.len() && (#[trigger] joined[i]).is_space && joined[i].id@ == p.id()
}

proof fn lemma_first_of_joined_parents(parents: Seq<Option<ParentSpace>>, joined: Seq<JoinedRoom>)
    ensures
        match first_joined_parent(parents, joined) {
            Some(id) => exists|k: int|
                {
                    &&& 0 <= k < parents.len()
                    &&& #[trigger] is_joined_parent(parents, joined, k)
                    &&& parents[k]->0.id() == id
                    &&& forall|m: int| 0 <= m < k ==> !#[trigger] is_joined_parent(parents, joined, m)
                },
            None => forall|k: int|
                0 <= k < parents.len() ==> !#[trigger] is_joined_parent(parents, joined, k),
        },
    decreases parents.len(),
{
    if parents.len() > 0 {
        let tail = parents.skip(1);
        lemma_first_of_joined_parents(tail, joined);
        assert forall|k: int| 0 < k < parents.len() implies #[trigger] is_joined_parent(
            parents,
            joined,
            k,
        ) == is_joined_parent(tail, joined, k - 1) by {
            assert(parents[k] == tail[k - 1]);
        }
        let found = is_joined_parent(parents, joined, 0);
        match first_joined_parent(parents, joined) {
            Some(id) => {
                if found {
                    assert(parents[0]->0.id() == id);
                } else {
                    let k = choose|k: int|
                        {
                            &&& 0 <= k < tail.len()
                            &&& #[trigger] is_joined_parent(tail, joined, k)
                            &&& tail[k]->0.id() == id
                            &&& forall|m: int|
                                0 <= m < k ==> !#[trigger] is_joined_parent(tail, joined, m)
                        };
                    assert(is_joined_parent(parents, joined, k + 1));
                    assert(parents[k + 1]->0.id() == id);
                    assert forall|m: int| 0 <= m < k + 1 implies !#[trigger] is_joined_parent(
                        parents,
                        joined,
                        m,
                    ) by {
                        if m > 0 {
                            assert(!is_joined_parent(tail, joined, m - 1));
                        }
                    }
                }
            },
            None => {
                assert forall|k: int| 0 <= k < parents.len() implies !#[trigger] is_joined_parent(
                    parents,
                    joined,
                    k,
                ) by {
                    if k > 0 {
                        assert(!is_joined_parent(tail, joined, k - 1));
                    }
                }
            },
        }
    }
}

/// A room is listed under the first of its parents that is a space which the account joined, if
/// there is one. It is listed under none where it has no such parent, where its parents could not
/// be found out, and where it is a space.
pub proof fn law_room_is_listed_under_its_first_joined_space<H>(
    account: &Account<H>,
    joined: &Vec<JoinedRoom>,
    r: Vec<RoomInfo>,
    i: int,
)
    requires
        call_ensures(Account::<H>::rooms, (account, joined), r),
        0 <= i < joined@.len(),
    ensures
        r@.len() == joined@.len(),
        joined@[i].is_space || joined@[i].parents is None ==> r@[i].parent_space_id is None,
        !joined@[i].is_space ==> (joined@[i].parents matches Some(parents)
            ==> match r@[i].parent_space_id {
            Some(id) => exists|k: int|
                {
                    &&& 0 <= k < parents@.len()
                    &&& #[trigger] is_joined_parent(parents@, joined@, k)
                    &&& parents@[k]->0.id() == id@
                    &&& forall|m: int|
                        0 <= m < k ==> !#[trigger] is_joined_parent(parents@, joined@, m)
                },
            None => forall|k: int|
                0 <= k < parents@.len() ==> !#[trigger] is_joined_parent(parents@, joined@, k),
        }),
{
    let infos = room_infos(r@);
    assert(infos.len() == joined@.len());
    assert(infos[i] == r@[i]@);
    assert(infos[i] == room_info_of(account.user_id@, joined@[i], joined@));
    if let Some(parents) = joined@[i].parents {
        lemma_first_of_joined_parents(parents@, joined@);
    }
}

/// The details of a room are what the client knows of it, under the name computed or else its
/// identifier, with the members that were fetched.
pub proof fn law_room_is_described_as_it_is<H>(
    room: Option<JoinedRoom>,
    members: Option<Vec<MemberInfo>>,
    r: Option<RoomDetails>,
)
    requires
        call_ensures(Account::<H>::get_room_details, (room, members), r),
    ensures
        r is Some <==> room is Some,
        r is Some ==> {
            let known = room->0;
            let details = r->0;
            &&& known.display_name matches Some(name) ==> details.name@ == name@
            &&& known.display_name is None ==> details.name@ == known.id@
            &&& details.topic == known.topic
            &&& details.member_count == known.member_count
            &&& details.room_id == known.id
            &&& known.encrypted ==> details.encryption@ == "Encrypted"@
            &&& !known.encrypted ==> details.encryption@ == "Not encrypted"@
            &&& members matches Some(list) ==> details.members == list
            &&& members is None ==> details.members@.len() == 0
        },
{
}

/// The members of a known room that joined are fetched for its details, and none of another room.
pub proof fn law_joined_members_are_fetched<H>(room_found: bool, r: Option<Membership>)
    requires
        call_ensures(Account::<H>::members_to_fetch, (room_found,), r),
    ensures
        room_found <==> r is Some,
        r is Some ==> r->0 == Membership::Joined,
{
}

/// Whether `room` is another room than the space `space_id` and names it as one of its parents.
pub open spec fn belongs_to_space(room: JoinedRoom, space_id: Seq<char>) -> bool {
    &&& room.id@ != space_id
    &&& room.parents is Some
    &&& exists|i: int|
        0 <= i < room.parents->0@.len() && (#[trigger] room.parents->0@[i]) is Some
            && room.parents->0@[i]->0.id() == space_id
}

proof fn lemma_children_concat(space_id: Seq<char>, a: Seq<JoinedRoom>, b: Seq<JoinedRoom>)
    ensures
        children_of(space_id, a + b) == children_of(space_id, a) + children_of(space_id, b),
    decreases a.len(),
{
    if a.len() == 0 {
        assert(a + b == b);
    } else {
        assert((a + b).skip(1) == a.skip(1) + b);
        lemma_children_concat(space_id, a.skip(1), b);
    }
}

proof fn lemma_children_are_those_that_belong(space_id: Seq<char>, joined: Seq<JoinedRoom>)
    ensures
        children_of(space_id, joined) == joined.filter(
            |room: JoinedRoom| belongs_to_space(room, space_id),
        ).map_values(|room: JoinedRoom| child_info_of(room)),
    decreases joined.len(),
{
    let belongs = |room: JoinedRoom| belongs_to_space(room, space_id);
    let shown = |room: JoinedRoom| child_info_of(room);
    reveal(Seq::filter);
    if joined.len() > 0 {
        let head = joined.drop_last();
        let last = seq![joined.last()];
        assert(head + last == joined);
        lemma_children_concat(space_id, head, last);
        lemma_children_are_those_that_belong(space_id, head);
        assert(last.skip(1) == Seq::<JoinedRoom>::empty());
        let room = joined.last();
        assert(is_child(room, space_id) == belongs_to_space(room, space_id)) by {
            if is_child(room, space_id) {
                let list = room.parents->0;
                let i = choose|i: int|
                    0 <= i < list@.len() && (#[trigger] list@[i] matches Some(p) && p.id()
                        == space_id);
                assert(room.parents->0@[i] is Some);
            }
            if belongs_to_space(room, space_id) {
                let list = room.parents->0;
                let i = choose|i: int|
                    0 <= i < list@.len() && (#[trigger] list@[i]) is Some && list@[i]->0.id()
                        == space_id;
                assert(list@[i] matches Some(p) && p.id() == space_id);
            }
        }
        let before = head.filter(belongs).map_values(shown);
        reveal_with_fuel(children_of, 2);
        assert(last[0] == room);
        if belongs(room) {
            assert(children_of(space_id, last) == seq![child_info_of(room)]);
            assert(joined.filter(belongs) == head.filter(belongs).push(room));
            assert(joined.filter(belongs).map_values(shown) == before.push(child_info_of(room)));
        } else {
            assert(children_of(space_id, last) == Seq::<SpaceChildInfoView>::empty());
        }
    } else {
        assert(joined.filter(belongs).map_values(shown) == Seq::<SpaceChildInfoView>::empty());
    }
}

/// The details of a space are what the client knows of it, with one entry for each joined room that
/// belongs to it, in their order, which says of that room what the client knows.
pub proof fn law_space_is_described_as_it_is<H>(
    room: Option<JoinedRoom>,
    joined: &Vec<JoinedRoom>,
    r: Option<SpaceDetails>,
)
    requires
        call_ensures(Account::<H>::get_space_details, (room, joined), r),
    ensures
        r is Some <==> room is Some,
        r is Some ==> {
            let known = room->0;
            let details = r->0;
            let children = joined@.filter(|c: JoinedRoom| belongs_to_space(c, known.id@));
            &&& known.display_name matches Some(name) ==> details.name@ == name@
            &&& known.display_name is None ==> details.name@ == known.id@
            &&& details.topic == known.topic
            &&& details.member_count == known.member_count
            &&& details.room_id == known.id
            &&& details.rooms@.len() == children.len()
            &&& forall|k: int|
                0 <= k < children.len() ==> {
                    &&& (#[trigger] children[k]).display_name matches Some(name)
                        ==> details.rooms@[k].name@ == name@
                    &&& children[k].display_name is None ==> details.rooms@[k].name@
                        == children[k].id@
                    &&& details.rooms@[k].is_space == children[k].is_space
                    &&& details.rooms@[k].encrypted == children[k].encrypted
                    &&& details.rooms@[k].member_count == children[k].member_count
                }
        },
{
    if r is Some {
        let known = room->0;
        let details = r->0;
        lemma_children_are_those_that_belong(known.id@, joined@);
        let children = joined@.filter(|c: JoinedRoom| belongs_to_space(c, known.id@));
        let infos = child_infos(details.rooms@);
        assert(infos == children.map_values(|c: JoinedRoom| child_info_of(c)));
        assert forall|k: int| 0 <= k < children.len() implies details.rooms@[k]@ == child_info_of(
            #[trigger] children[k],
        ) by {
            assert(infos[k] == details.rooms@[k]@);
            assert(infos[k] == child_info_of(children[k]));
        }
    }
}

} // verus!
