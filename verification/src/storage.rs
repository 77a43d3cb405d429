//! The store of rooms and lights. It owns every room, checks the address of
//! each light that comes in, and hands device replies to the lights.

use std::collections::HashMap;
use vstd::prelude::*;

use crate::address::Ipv4;
use crate::errors::{Error, ErrorModel};
use crate::ids::{first_free_from, first_free_id, keys_of, random_id};
use crate::models::light::{Light, LightModel};
use crate::models::response::{LightingResponse, ResponseModel};
use crate::models::room::{already_known, Room, RoomModel};

verus! {

broadcast use vstd::std_specs::hash::group_hash_axioms;

/// The rooms of the store by their identifiers.
#[derive(Debug)]
pub struct Storage {
    rooms: HashMap<u128, Room>,
}

/// The rooms of a map, as plain values.
pub open spec fn room_models(rooms: Map<u128, Room>) -> Map<u128, RoomModel> {
    rooms.map_values(|room: Room| room@)
}

/// Whether some light of some room is at the given address.
pub open spec fn knows_ip(rooms: Map<u128, RoomModel>, ip: Ipv4) -> bool {
    exists|id: u128| #[trigger] rooms.contains_key(id) && rooms[id].has_ip(ip)
}

/// The rooms after a response was handed to every light of every room.
pub open spec fn rooms_take(rooms: Map<u128, RoomModel>, resp: ResponseModel) -> Map<
    u128,
    RoomModel,
> {
    rooms.map_values(|room: RoomModel| room.take(resp))
}

/// The error, if any, that refuses a light at the given address: the address
/// is of a kind that no light can have, or a light of the store has it.
pub open spec fn address_error(rooms: Map<u128, RoomModel>, ip: Ipv4) -> Option<ErrorModel> {
    match ip.fault() {
        Some(fault) => Some(ErrorModel::InvalidIP { ip, reason: fault.text() }),
        None => if knows_ip(rooms, ip) {
            Some(already_known(ip))
        } else {
            None
        },
    }
}

/// Whether no two lights of the rooms share an address, across all rooms.
pub open spec fn ips_unique(rooms: Map<u128, RoomModel>) -> bool {
    forall|r1: u128, l1: u128, r2: u128, l2: u128|
        #![trigger rooms[r1].all_lights()[l1], rooms[r2].all_lights()[l2]]
        rooms.contains_key(r1) && rooms[r1].all_lights().contains_key(l1) && rooms.contains_key(r2)
            && rooms[r2].all_lights().contains_key(l2) && rooms[r1].all_lights()[l1].ip
            == rooms[r2].all_lights()[l2].ip ==> r1 == r2 && l1 == l2
}

/// Whether every light of the rooms has an address that a light can have.
pub open spec fn ips_valid(rooms: Map<u128, RoomModel>) -> bool {
    forall|r: u128, l: u128|
        #![trigger rooms[r].all_lights()[l]]
        rooms.contains_key(r) && rooms[r].all_lights().contains_key(l)
            ==> rooms[r].all_lights()[l].ip.fault() is None
}

/// The rooms after a light was put into one of them.
pub open spec fn with_light(rooms: Map<u128, RoomModel>, room: u128, id: u128, light: LightModel)
    -> Map<u128, RoomModel> {
    rooms.insert(
        room,
        RoomModel { lights: Some(rooms[room].all_lights().insert(id, light)), ..rooms[room] },
    )
}

/// A new light that passes the check of its address keeps the store in
/// order: if no two lights shared an address before, none do after, and if
/// every address was one that a light can have, every address still is.
pub proof fn lemma_new_light_keeps_order(
    rooms: Map<u128, RoomModel>,
    room: u128,
    id: u128,
    light: LightModel,
)
    requires
        rooms.contains_key(room),
        !rooms[room].all_lights().contains_key(id),
        address_error(rooms, light.ip) is None,
    ensures
        ips_unique(rooms) ==> ips_unique(with_light(rooms, room, id, light)),
        ips_valid(rooms) ==> ips_valid(with_light(rooms, room, id, light)),
{
}

/// Whether no two lights of the room share an address.
pub open spec fn room_ips_unique(room: RoomModel) -> bool {
    forall|l1: u128, l2: u128|
        #![trigger room.all_lights()[l1], room.all_lights()[l2]]
        room.all_lights().contains_key(l1) && room.all_lights().contains_key(l2)
            && room.all_lights()[l1].ip == room.all_lights()[l2].ip ==> l1 == l2
}

/// A new room whose lights all pass the check of their addresses keeps the
/// store in order: every address is still one that a light can have, and if
/// the lights of the new room do not share an address among themselves, no
/// two lights of the store do.
pub proof fn lemma_new_room_keeps_order(rooms: Map<u128, RoomModel>, id: u128, room: RoomModel)
    requires
        !rooms.contains_key(id),
        forall|light: u128| #[trigger]
            room.all_lights().contains_key(light) ==> address_error(
                rooms,
                room.all_lights()[light].ip,
            ) is None,
    ensures
        ips_unique(rooms) && room_ips_unique(room) ==> ips_unique(rooms.insert(id, room)),
        ips_valid(rooms) ==> ips_valid(rooms.insert(id, room)),
{
}

/// Taking a room away brings no address in, so it keeps the store in order.
pub proof fn lemma_delete_room_keeps_order(rooms: Map<u128, RoomModel>, room: u128)
    ensures
        ips_unique(rooms) ==> ips_unique(rooms.remove(room)),
        ips_valid(rooms) ==> ips_valid(rooms.remove(room)),
{
}

/// Taking a light away brings no address in, so it keeps the store in order.
pub proof fn lemma_delete_light_keeps_order(rooms: Map<u128, RoomModel>, room: u128, light: u128)
    requires
        rooms.contains_key(room),
    ensures
        ({
            let after = rooms.insert(
                room,
                RoomModel { lights: Some(rooms[room].all_lights().remove(light)), ..rooms[room] },
            );
            &&& ips_unique(rooms) ==> ips_unique(after)
            &&& ips_valid(rooms) ==> ips_valid(after)
        }),
{
}

/// Giving a room another name changes no address, so it keeps the store in
/// order.
pub proof fn lemma_rename_keeps_order(rooms: Map<u128, RoomModel>, room: u128, name: Seq<char>)
    requires
        rooms.contains_key(room),
    ensures
        ({
            let after = rooms.insert(room, RoomModel { name, ..rooms[room] });
            &&& ips_unique(rooms) ==> ips_unique(after)
            &&& ips_valid(rooms) ==> ips_valid(after)
        }),
{
    // every room has the lights it had
    let after = rooms.insert(room, RoomModel { name, ..rooms[room] });
    assert forall|r: u128| after.contains_key(r) implies rooms.contains_key(r)
        && #[trigger] after[r].all_lights() == rooms[r].all_lights() by {}
}

/// Whether a light other than the given one is at the given address, in any
/// room.
pub open spec fn other_light_at(rooms: Map<u128, RoomModel>, ip: Ipv4, room: u128, light: u128)
    -> bool {
    exists|r: u128| #[trigger]
        rooms.contains_key(r) && rooms[r].has_ip_besides(
            ip,
            if r == room {
                Some(light)
            } else {
                None
            },
        )
}

/// The error, if any, that refuses to move the given light to the given
/// address: the address is of a kind that no light can have, or another
/// light of the store has it. The light itself is left out of the
/// comparison, so a light may keep its address.
pub open spec fn move_error(rooms: Map<u128, RoomModel>, room: u128, light: u128, ip: Ipv4)
    -> Option<ErrorModel> {
    match ip.fault() {
        Some(fault) => Some(ErrorModel::InvalidIP { ip, reason: fault.text() }),
        None => if other_light_at(rooms, ip, room, light) {
            Some(already_known(ip))
        } else {
            None
        },
    }
}

/// The error that refuses to give a light the name and the address of
/// `light`, where the update does not go through: the room or the light is
/// not known; the address is refused; or, failing these, the light has this
/// name and address already.
pub open spec fn update_light_refusal(
    rooms: Map<u128, RoomModel>,
    room: u128,
    id: u128,
    light: LightModel,
) -> ErrorModel {
    if !rooms.contains_key(room) {
        ErrorModel::LightNotFound { room_id: room, light_id: id }
    } else if rooms[room].lights is None {
        ErrorModel::NoLights(room)
    } else if !rooms[room].all_lights().contains_key(id) {
        ErrorModel::LightNotFound { room_id: room, light_id: id }
    } else {
        match move_error(rooms, room, id, light.ip) {
            Some(refusal) => refusal,
            None => ErrorModel::NoChangeLight { room_id: room, light_id: id },
        }
    }
}

/// A light that is moved to an address that passes the check keeps the store
/// in order: no two lights share an address, and every address is one that a
/// light can have.
pub proof fn lemma_update_light_keeps_order(
    rooms: Map<u128, RoomModel>,
    room: u128,
    id: u128,
    light: LightModel,
)
    requires
        rooms.contains_key(room),
        rooms[room].all_lights().contains_key(id),
        move_error(rooms, room, id, light.ip) is None,
    ensures
        ({
            let after = with_light(rooms, room, id, rooms[room].all_lights()[id].renamed(light));
            &&& ips_unique(rooms) ==> ips_unique(after)
            &&& ips_valid(rooms) ==> ips_valid(after)
        }),
{
    let after = with_light(rooms, room, id, rooms[room].all_lights()[id].renamed(light));
    assert forall|r: u128, l: u128|
        after.contains_key(r) && after[r].all_lights().contains_key(l) implies rooms.contains_key(r)
        && rooms[r].all_lights().contains_key(l) && (#[trigger] after[r].all_lights()[l]).ip == (if r
        == room && l == id {
        light.ip
    } else {
        rooms[r].all_lights()[l].ip
    }) by {}
    // no light but the one that moves is at the new address
    assert forall|r: u128, l: u128|
        rooms.contains_key(r) && rooms[r].all_lights().contains_key(l) && !(r == room && l == id)
        implies (#[trigger] rooms[r].all_lights()[l]).ip != light.ip by {
        if rooms[r].all_lights()[l].ip == light.ip {
            assert(rooms[r].has_ip_besides(
                light.ip,
                if r == room {
                    Some(id)
                } else {
                    None
                },
            ));
        }
    }
}

/// Handing a response to the lights changes no address, so it keeps the
/// store in order.
pub proof fn lemma_reply_keeps_order(rooms: Map<u128, RoomModel>, resp: ResponseModel)
    ensures
        ips_unique(rooms) ==> ips_unique(rooms_take(rooms, resp)),
        ips_valid(rooms) ==> ips_valid(rooms_take(rooms, resp)),
{
    // a light that takes a response keeps its address
    let after = rooms_take(rooms, resp);
    assert forall|r: u128, l: u128|
        after.contains_key(r) && after[r].all_lights().contains_key(l) implies rooms.contains_key(r)
        && rooms[r].all_lights().contains_key(l) && (#[trigger] after[r].all_lights()[l]).ip
        == rooms[r].all_lights()[l].ip by {}
}

impl View for Storage {
    type V = Map<u128, RoomModel>;

    closed spec fn view(&self) -> Map<u128, RoomModel> {
        room_models(self.rooms@)
    }
}

impl Storage {
    #[verifier::type_invariant]
    spec fn well_formed(self) -> bool {
        forall|id: u128| #[trigger]
            self.rooms@.contains_key(id) ==> self.rooms@[id]@.linked && self.rooms@[id]@.id == id
    }

    /// Takes the rooms out of the store, which is left empty until they are
    /// put back.
    fn take_rooms(&mut self) -> (rooms: HashMap<u128, Room>)
        ensures
            rooms == old(self).rooms,
            final(self).rooms@ == Map::<u128, Room>::empty(),
            forall|id: u128| #[trigger]
                rooms@.contains_key(id) ==> rooms@[id]@.linked && rooms@[id]@.id == id,
    {
        proof {
            use_type_invariant(&*self);
        }
        let mut rooms: HashMap<u128, Room> = HashMap::new();
        core::mem::swap(&mut self.rooms, &mut rooms);
        rooms
    }

    /// Create a new store with no rooms.
    pub fn new() -> (store: Self)
        ensures
            store@ == Map::<u128, RoomModel>::empty(),
    {
        Storage { rooms: HashMap::new() }
    }

    /// Read a room by ID. The room that is returned is a copy.
    pub fn read(&self, room: u128) -> (r: Option<Room>)
        ensures
            r is Some <==> self@.contains_key(room),
            r matches Some(found) ==> found@ == self@[room] && found@.linked && found@.id == room,
    {
        proof {
            use_type_invariant(self);
        }
        match self.rooms.get(&room) {
            Some(found) => Some(found.clone()),
            None => None,
        }
    }

    /// List room IDs: the identifier of each room, once, in no particular
    /// order. This never fails.
    pub fn list(&self) -> (r: Result<Vec<u128>, Error>)
        ensures
            r matches Ok(ids) && ids@.no_duplicates() && ids@.to_set() == self@.dom(),
    {
        Ok(keys_of(&self.rooms))
    }
    /// Store a room that was saved earlier under the identifier it had. The
    /// room is linked to the identifier and takes the place of the room that
    /// was stored under it, if any. Nothing is checked.
    pub fn load_room(&mut self, id: u128, room: Room)
        requires
            !room@.linked,
        ensures
            final(self)@ == old(self)@.insert(id, RoomModel { id, linked: true, ..room@ }),
    {
        let mut rooms = self.take_rooms();
        let ghost before = rooms@;
        let mut room = room;
        room.link(id);
        let ghost model = room@;
        rooms.insert(id, room);
        assert(room_models(rooms@) =~= room_models(before).insert(id, model));
        self.rooms = rooms;
    }

    /// Create a new room, under the first free identifier from `start` on,
    /// which is returned. A room that is linked already is not accepted.
    ///
    /// Every light that the room brings along is checked as a new light is.
    /// If any of them has an address that no light can have, or that a light
    /// of the store has already, the room is refused with the error of one
    /// such light, and the store is left as it was.
    pub fn new_room_from(&mut self, start: u128, room: Room) -> (r: Result<u128, Error>)
        requires
            !room@.linked,
        ensures
            ips_unique(old(self)@) && room_ips_unique(room@) ==> ips_unique(final(self)@),
            ips_valid(old(self)@) ==> ips_valid(final(self)@),
            match r {
                Ok(id) => {
                    &&& first_free_from(old(self)@.dom(), start, id)
                    &&& forall|light: u128| #[trigger]
                        room@.all_lights().contains_key(light) ==> address_error(
                            old(self)@,
                            room@.all_lights()[light].ip,
                        ) is None
                    &&& final(self)@ == old(self)@.insert(
                        id,
                        RoomModel { id, linked: true, ..room@ },
                    )
                },
                Err(e) => {
                    &&& exists|light: u128| #[trigger]
                        room@.all_lights().contains_key(light) && address_error(
                            old(self)@,
                            room@.all_lights()[light].ip,
                        ) == Some(e@)
                    &&& final(self)@ == old(self)@
                },
            },
    {
        let id = first_free_id(&self.rooms, start);
        assert(self@.dom() =~= self.rooms@.dom());
        // every light that comes with the room has to be valid
        match self.validate_room(&room) {
            Err(e) => return Err(e),
            Ok(()) => {},
        }
        proof {
            let linked = RoomModel { id, linked: true, ..room@ };
            assert(linked.all_lights() == room@.all_lights());
            lemma_new_room_keeps_order(old(self)@, id, linked);
        }
        self.load_room(id, room);
        Ok(id)
    }

    /// Create a new room, under a new identifier, which is returned. The
    /// identifier is drawn at random and is one that no room of the store
    /// has. A room that is linked already is not accepted.
    ///
    /// Every light that the room brings along is checked as a new light is.
    /// If any of them has an address that no light can have, or that a light
    /// of the store has already, the room is refused with the error of one
    /// such light, and the store is left as it was.
    pub fn new_room(&mut self, room: Room) -> (r: Result<u128, Error>)
        requires
            !room@.linked,
        ensures
            ips_unique(old(self)@) && room_ips_unique(room@) ==> ips_unique(final(self)@),
            ips_valid(old(self)@) ==> ips_valid(final(self)@),
            match r {
                Ok(id) => {
                    &&& !old(self)@.contains_key(id)
                    &&& forall|light: u128| #[trigger]
                        room@.all_lights().contains_key(light) ==> address_error(
                            old(self)@,
                            room@.all_lights()[light].ip,
                        ) is None
                    &&& final(self)@ == old(self)@.insert(
                        id,
                        RoomModel { id, linked: true, ..room@ },
                    )
                },
                Err(e) => {
                    &&& exists|light: u128| #[trigger]
                        room@.all_lights().contains_key(light) && address_error(
                            old(self)@,
                            room@.all_lights()[light].ip,
                        ) == Some(e@)
                    &&& final(self)@ == old(self)@
                },
            },
    {
        self.new_room_from(random_id(), room)
    }

    /// Create a new light in the room, under the first free identifier from
    /// `start` on among the lights of the room, which is returned.
    ///
    /// The light is refused if its address is one that no light can have, or
    /// one that a light of the store has already, whichever room holds that
    /// light. A light that passes this is refused if the room is not known.
    /// A refusal leaves the store as it was.
    pub fn new_light_from(&mut self, room: u128, start: u128, light: Light) -> (r: Result<
        u128,
        Error,
    >)
        ensures
            knows_ip(old(self)@, light@.ip) ==> r is Err,
            ips_unique(old(self)@) ==> ips_unique(final(self)@),
            ips_valid(old(self)@) ==> ips_valid(final(self)@),
            match r {
                Ok(id) => {
                    &&& address_error(old(self)@, light@.ip) is None
                    &&& old(self)@.contains_key(room)
                    &&& first_free_from(old(self)@[room].all_lights().dom(), start, id)
                    &&& final(self)@ == old(self)@.insert(
                        room,
                        RoomModel {
                            lights: Some(old(self)@[room].all_lights().insert(id, light@)),
                            ..old(self)@[room]
                        },
                    )
                },
                Err(e) => {
                    &&& final(self)@ == old(self)@
                    &&& match address_error(old(self)@, light@.ip) {
                        Some(refusal) => e@ == refusal,
                        None => !old(self)@.contains_key(room) && e@ == ErrorModel::RoomNotFound(
                            room,
                        ),
                    }
                },
            },
    {
        match self.validate_light(&light) {
            Err(e) => return Err(e),
            Ok(()) => {},
        }
        let mut rooms = self.take_rooms();
        let ghost before = rooms@;
        match rooms.remove(&room) {
            Some(mut entry) => {
                let ghost was = entry@;
                assert(!was.has_ip(light@.ip)) by {
                    if was.has_ip(light@.ip) {
                        assert(old(self)@.contains_key(room) && old(self)@[room].has_ip(light@.ip));
                    }
                }
                let placed = entry.new_light_from(start, light);
                let ghost now = entry@;
                rooms.insert(room, entry);
                assert(room_models(rooms@) =~= room_models(before).insert(room, now));
                proof {
                    if let Ok(id) = placed {
                        lemma_new_light_keeps_order(old(self)@, room, id, light@);
                    }
                }
                self.rooms = rooms;
                placed
            },
            None => {
                assert(rooms@ =~= before);
                self.rooms = rooms;
                Err(Error::RoomNotFound(room))
            },
        }
    }

    /// Create a new light in the room, under a new identifier, which is
    /// returned. The identifier is drawn at random and is one that no light
    /// of the room has.
    ///
    /// The light is refused if its address is one that no light can have, or
    /// one that a light of the store has already, whichever room holds that
    /// light. A light that passes this is refused if the room is not known.
    /// A refusal leaves the store as it was.
    pub fn new_light(&mut self, room: u128, light: Light) -> (r: Result<u128, Error>)
        ensures
            knows_ip(old(self)@, light@.ip) ==> r is Err,
            ips_unique(old(self)@) ==> ips_unique(final(self)@),
            ips_valid(old(self)@) ==> ips_valid(final(self)@),
            match r {
                Ok(id) => {
                    &&& address_error(old(self)@, light@.ip) is None
                    &&& old(self)@.contains_key(room)
                    &&& !old(self)@[room].all_lights().contains_key(id)
                    &&& final(self)@ == old(self)@.insert(
                        room,
                        RoomModel {
                            lights: Some(old(self)@[room].all_lights().insert(id, light@)),
                            ..old(self)@[room]
                        },
                    )
                },
                Err(e) => {
                    &&& final(self)@ == old(self)@
                    &&& match address_error(old(self)@, light@.ip) {
                        Some(refusal) => e@ == refusal,
                        None => !old(self)@.contains_key(room) && e@ == ErrorModel::RoomNotFound(
                            room,
                        ),
                    }
                },
            },
    {
        self.new_light_from(room, random_id(), light)
    }

    /// Updates the name of a room to that of the given room.
    ///
    /// Fails if the room is not known, or if it has this name already.
    pub fn update_room(&mut self, id: u128, room: &Room) -> (r: Result<(), Error>)
        ensures
            ips_unique(old(self)@) ==> ips_unique(final(self)@),
            ips_valid(old(self)@) ==> ips_valid(final(self)@),
            match r {
                Ok(()) => {
                    &&& old(self)@.contains_key(id)
                    &&& old(self)@[id].name != room@.name
                    &&& final(self)@ == old(self)@.insert(
                        id,
                        RoomModel { name: room@.name, ..old(self)@[id] },
                    )
                },
                Err(e) => {
                    &&& final(self)@ == old(self)@
                    &&& e == if !old(self)@.contains_key(id) {
                        Error::RoomNotFound(id)
                    } else {
                        Error::NoChangeRoom(id)
                    }
                    &&& old(self)@.contains_key(id) ==> old(self)@[id].name == room@.name
                },
            },
    {
        proof {
            if self@.contains_key(id) {
                lemma_rename_keeps_order(self@, id, room@.name);
            }
        }
        let mut rooms = self.take_rooms();
        let ghost before = rooms@;
        match rooms.remove(&id) {
            Some(mut entry) => {
                let ghost was = entry@;
                let changed = entry.update(room);
                let ghost now = entry@;
                rooms.insert(id, entry);
                assert(room_models(rooms@) =~= room_models(before).insert(id, now));
                self.rooms = rooms;
                if changed {
                    Ok(())
                } else {
                    assert(now == was);
                    assert(room_models(before).insert(id, was) =~= room_models(before));
                    Err(Error::NoChangeRoom(id))
                }
            },
            None => {
                assert(rooms@ =~= before);
                self.rooms = rooms;
                Err(Error::RoomNotFound(id))
            },
        }
    }

    /// Update the name and the address of the light in the room to those of
    /// the given light.
    ///
    /// Fails if the room or the light is not known. The address is checked
    /// as that of a new light is, but for the light itself, which may keep
    /// its address: the update is refused if the address is one that no
    /// light can have, or one that another light of the store has. A light
    /// that has this name and address already answers that nothing changes.
    /// A refusal leaves the store as it was.
    pub fn update_light(&mut self, id: u128, light_id: u128, light: &Light) -> (r: Result<
        (),
        Error,
    >)
        ensures
            ips_unique(old(self)@) ==> ips_unique(final(self)@),
            ips_valid(old(self)@) ==> ips_valid(final(self)@),
            match r {
                Ok(()) => {
                    &&& old(self)@.contains_key(id)
                    &&& old(self)@[id].all_lights().contains_key(light_id)
                    &&& move_error(old(self)@, id, light_id, light@.ip) is None
                    &&& old(self)@[id].all_lights()[light_id].renamed(light@)
                        != old(self)@[id].all_lights()[light_id]
                    &&& final(self)@ == with_light(
                        old(self)@,
                        id,
                        light_id,
                        old(self)@[id].all_lights()[light_id].renamed(light@),
                    )
                },
                Err(e) => {
                    &&& final(self)@ == old(self)@
                    &&& e@ == update_light_refusal(old(self)@, id, light_id, light@)
                    &&& e@ is NoChangeLight ==> old(self)@[id].all_lights()[light_id].renamed(light@)
                        == old(self)@[id].all_lights()[light_id]
                },
            },
    {
        proof {
            use_type_invariant(&*self);
        }
        let known = match self.rooms.get(&id) {
            Some(room) => room.read(light_id).is_some(),
            None => false,
        };
        if known {
            match self.validate_move(id, light_id, &light.ip()) {
                Err(e) => return Err(e),
                Ok(()) => {},
            }
            proof {
                lemma_update_light_keeps_order(self@, id, light_id, light@);
                assert(!self@[id].has_ip_besides(light@.ip, Some(light_id))) by {
                    if self@[id].has_ip_besides(light@.ip, Some(light_id)) {
                        assert(self@.contains_key(id));
                        assert(other_light_at(self@, light@.ip, id, light_id));
                    }
                }
            }
        }
        let mut rooms = self.take_rooms();
        let ghost before = rooms@;
        match rooms.remove(&id) {
            Some(mut room) => {
                let ghost was = room@;
                let outcome = room.update_light(light_id, light);
                let ghost now = room@;
                rooms.insert(id, room);
                assert(room_models(rooms@) =~= room_models(before).insert(id, now));
                self.rooms = rooms;
                if outcome.is_err() {
                    assert(room_models(before).insert(id, was) =~= room_models(before));
                }
                outcome
            },
            None => {
                assert(rooms@ =~= before);
                self.rooms = rooms;
                Err(Error::light_not_found(id, light_id))
            },
        }
    }

    /// Remove a room, with its lights. Fails if the room is not known.
    pub fn delete_room(&mut self, room: u128) -> (r: Result<(), Error>)
        ensures
            ips_unique(old(self)@) ==> ips_unique(final(self)@),
            ips_valid(old(self)@) ==> ips_valid(final(self)@),
            match r {
                Ok(()) => old(self)@.contains_key(room) && final(self)@ == old(self)@.remove(room),
                Err(e) => !old(self)@.contains_key(room) && final(self)@ == old(self)@ && e
                    == Error::RoomNotFound(room),
            },
    {
        proof {
            lemma_delete_room_keeps_order(self@, room);
        }
        let mut rooms = self.take_rooms();
        let ghost before = rooms@;
        match rooms.remove(&room) {
            Some(_) => {
                assert(room_models(rooms@) =~= room_models(before).remove(room));
                self.rooms = rooms;
                Ok(())
            },
            None => {
                assert(rooms@ =~= before);
                self.rooms = rooms;
                Err(Error::RoomNotFound(room))
            },
        }
    }

    /// Remove a light in a room.
    ///
    /// Fails if the room is not known, which a room that never had a light
    /// answers too, or if the room does not have the light.
    pub fn delete_light(&mut self, room: u128, light: u128) -> (r: Result<(), Error>)
        ensures
            ips_unique(old(self)@) ==> ips_unique(final(self)@),
            ips_valid(old(self)@) ==> ips_valid(final(self)@),
            match r {
                Ok(()) => {
                    &&& old(self)@.contains_key(room)
                    &&& old(self)@[room].all_lights().contains_key(light)
                    &&& final(self)@ == old(self)@.insert(
                        room,
                        RoomModel {
                            lights: Some(old(self)@[room].all_lights().remove(light)),
                            ..old(self)@[room]
                        },
                    )
                },
                Err(e) => {
                    &&& final(self)@ == old(self)@
                    &&& !(old(self)@.contains_key(room) && old(self)@[room].all_lights().contains_key(
                        light,
                    ))
                    &&& e == if !old(self)@.contains_key(room) || old(self)@[room].lights is None {
                        Error::RoomNotFound(room)
                    } else {
                        Error::LightNotFound { room_id: room, light_id: light }
                    }
                },
            },
    {
        proof {
            if self@.contains_key(room) {
                lemma_delete_light_keeps_order(self@, room, light);
            }
        }
        let mut rooms = self.take_rooms();
        let ghost before = rooms@;
        match rooms.remove(&room) {
            Some(mut rm) => {
                let ghost was = rm@;
                let outcome = rm.delete_light(light);
                let ghost now = rm@;
                rooms.insert(room, rm);
                assert(room_models(rooms@) =~= room_models(before).insert(room, now));
                self.rooms = rooms;
                if outcome.is_err() {
                    assert(room_models(before).insert(room, was) =~= room_models(before));
                }
                outcome
            },
            None => {
                assert(rooms@ =~= before);
                self.rooms = rooms;
                Err(Error::RoomNotFound(room))
            },
        }
    }

    /// Process the response of a lighting request: the response is handed to
    /// every light of every room, and each light at its address takes it
    /// into its status. A response for an address that no light has changes
    /// nothing. Says whether any light took it, which is when the store has
    /// to be saved again.
    pub fn process_reply(&mut self, resp: &LightingResponse) -> (updated: bool)
        ensures
            final(self)@ == rooms_take(old(self)@, resp@),
            updated == knows_ip(old(self)@, resp@.ip),
            !updated ==> final(self)@ == old(self)@,
            ips_unique(old(self)@) ==> ips_unique(final(self)@),
            ips_valid(old(self)@) ==> ips_valid(final(self)@),
    {
        let mut any_update = false;
        let mut rooms = self.take_rooms();
        let ghost before = rooms@;
        let keys = keys_of(&rooms);
        let mut i: usize = 0;
        while i < keys.len()
            invariant
                i <= keys@.len(),
                keys@.no_duplicates(),
                keys@.to_set() == before.dom(),
                rooms@.dom() == before.dom(),
                forall|id: u128| #[trigger]
                    before.contains_key(id) ==> before[id]@.linked && before[id]@.id == id,
                forall|j: int|
                    0 <= j < i ==> (#[trigger] rooms@[keys@[j]])@ == before[keys@[j]]@.take(
                        resp@,
                    ),
                forall|j: int|
                    i <= j < keys@.len() ==> #[trigger] rooms@[keys@[j]] == before[keys@[j]],
                any_update == exists|j: int|
                    0 <= j < i && (#[trigger] before[keys@[j]])@.has_ip(resp@.ip),
            decreases keys@.len() - i,
        {
            let id = keys[i];
            assert(keys@.to_set().contains(keys@[i as int]));
            let ghost mid = rooms@;
            match rooms.remove(&id) {
                Some(mut room) => {
                    let room_update = room.process_reply(resp);
                    any_update = any_update || room_update;
                    rooms.insert(id, room);
                },
                None => {},
            }
            assert(rooms@.dom() =~= before.dom());
            assert forall|j: int| 0 <= j < keys@.len() && j != i implies #[trigger] rooms@[keys@[j]]
                == mid[keys@[j]] by {
                assert(keys@[j] != keys@[i as int]);
            }
            i = i + 1;
        }
        proof {
            assert forall|id: u128| before.contains_key(id) implies (#[trigger] rooms@[id])@
                == before[id]@.take(resp@) by {
                assert(keys@.to_set().contains(id));
                let j = choose|j: int| 0 <= j < keys@.len() && keys@[j] == id;
                assert(rooms@[keys@[j]]@ == before[keys@[j]]@.take(resp@));
            }
            assert(room_models(rooms@) =~= rooms_take(room_models(before), resp@));
            assert forall|id: u128| #[trigger] rooms@.contains_key(id) implies rooms@[id]@.linked
                && rooms@[id]@.id == id by {
                assert(before.contains_key(id));
            }
            if any_update {
                let j = choose|j: int|
                    0 <= j < keys@.len() && (#[trigger] before[keys@[j]])@.has_ip(resp@.ip);
                assert(keys@.to_set().contains(keys@[j]));
                assert(old(self)@.contains_key(keys@[j]));
            }
            if knows_ip(old(self)@, resp@.ip) {
                let id = choose|id: u128| #[trigger]
                    old(self)@.contains_key(id) && old(self)@[id].has_ip(resp@.ip);
                assert(keys@.to_set().contains(id));
                let j = choose|j: int| 0 <= j < keys@.len() && keys@[j] == id;
                assert(before[keys@[j]]@.has_ip(resp@.ip));
            }
            if !any_update {
                lemma_unaddressed_reply(old(self)@, resp@);
            }
            lemma_reply_keeps_order(old(self)@, resp@);
        }
        self.rooms = rooms;
        any_update
    }

    /// Check if all lights in the room are valid and unique.
    fn validate_room(&self, room: &Room) -> (r: Result<(), Error>)
        ensures
            match r {
                Ok(()) => forall|light: u128| #[trigger]
                    room@.all_lights().contains_key(light) ==> address_error(
                        self@,
                        room@.all_lights()[light].ip,
                    ) is None,
                Err(e) => exists|light: u128| #[trigger]
                    room@.all_lights().contains_key(light) && address_error(
                        self@,
                        room@.all_lights()[light].ip,
                    ) == Some(e@),
            },
    {
        if let Some(lights) = room.list() {
            let mut i: usize = 0;
            while i < lights.len()
                invariant
                    i <= lights@.len(),
                    lights@.to_set() == room@.all_lights().dom(),
                    forall|j: int|
                        0 <= j < i ==> address_error(
                            self@,
                            room@.all_lights()[#[trigger] lights@[j]].ip,
                        ) is None,
                decreases lights@.len() - i,
            {
                let light_id = lights[i];
                assert(lights@.to_set().contains(lights@[i as int]));
                if let Some(light) = room.read(light_id) {
                    match self.validate_light(light) {
                        Err(e) => {
                            assert(room@.all_lights().contains_key(light_id));
                            return Err(e);
                        },
                        Ok(()) => {},
                    }
                }
                i = i + 1;
            }
            assert forall|light: u128| #[trigger]
                room@.all_lights().contains_key(light) implies address_error(
                self@,
                room@.all_lights()[light].ip,
            ) is None by {
                assert(lights@.to_set().contains(light));
                let j = choose|j: int| 0 <= j < lights@.len() && lights@[j] == light;
                assert(address_error(self@, room@.all_lights()[lights@[j]].ip) is None);
            }
        }
        Ok(())
    }

    /// Check if the light's address is valid and unique.
    fn validate_light(&self, light: &Light) -> (r: Result<(), Error>)
        ensures
            r is Ok <==> address_error(self@, light@.ip) is None,
            r matches Err(e) ==> address_error(self@, light@.ip) == Some(e@),
    {
        self.validate_ip(&light.ip())
    }

    /// Check if the address is valid and unique: it is of a kind that a
    /// light can have, and no light of the store has it. The kind is looked
    /// at first.
    pub fn validate_ip(&self, ip: &Ipv4) -> (r: Result<(), Error>)
        ensures
            r is Ok <==> address_error(self@, *ip) is None,
            r matches Err(e) ==> address_error(self@, *ip) == Some(e@),
    {
        match ip.check() {
            Some(fault) => Err(Error::invalid_ip(ip, fault.reason())),
            None => self.unique_ip(ip),
        }
    }

    /// Check if the given light can be moved to the address: the address is
    /// of a kind that a light can have, and no other light of the store has
    /// it. The kind is looked at first.
    fn validate_move(&self, room: u128, light: u128, ip: &Ipv4) -> (r: Result<(), Error>)
        ensures
            r is Ok <==> move_error(self@, room, light, *ip) is None,
            r matches Err(e) ==> move_error(self@, room, light, *ip) == Some(e@),
    {
        match ip.check() {
            Some(fault) => Err(Error::invalid_ip(ip, fault.reason())),
            None => if self.known_besides(ip, room, light) {
                Err(Error::invalid_ip(ip, "already known"))
            } else {
                Ok(())
            },
        }
    }

    /// Whether a light other than the given one is at the address.
    fn known_besides(&self, ip: &Ipv4, room: u128, light: u128) -> (found: bool)
        ensures
            found == other_light_at(self@, *ip, room, light),
    {
        let keys = keys_of(&self.rooms);
        let mut i: usize = 0;
        while i < keys.len()
            invariant
                i <= keys@.len(),
                keys@.to_set() == self.rooms@.dom(),
                forall|j: int|
                    0 <= j < i ==> !self@[#[trigger] keys@[j]].has_ip_besides(
                        *ip,
                        if keys@[j] == room {
                            Some(light)
                        } else {
                            None
                        },
                    ),
            decreases keys@.len() - i,
        {
            let id = keys[i];
            assert(keys@.to_set().contains(keys@[i as int]));
            if let Some(entry) = self.rooms.get(&id) {
                let except = if id == room {
                    Some(light)
                } else {
                    None
                };
                if entry.has_ip_besides(ip, except) {
                    assert(self@.contains_key(id) && self@[id].has_ip_besides(*ip, except));
                    return true;
                }
            }
            i = i + 1;
        }
        assert forall|id: u128| #[trigger] self@.contains_key(id) implies !self@[id].has_ip_besides(
            *ip,
            if id == room {
                Some(light)
            } else {
                None
            },
        ) by {
            assert(keys@.to_set().contains(id));
            let j = choose|j: int| 0 <= j < keys@.len() && keys@[j] == id;
            assert(!self@[keys@[j]].has_ip_besides(
                *ip,
                if keys@[j] == room {
                    Some(light)
                } else {
                    None
                },
            ));
        }
        false
    }

    /// Check if the address is unique: no light of any room has it.
    fn unique_ip(&self, ip: &Ipv4) -> (r: Result<(), Error>)
        ensures
            r is Err <==> knows_ip(self@, *ip),
            r matches Err(e) ==> e@ == already_known(*ip),
    {
        let keys = keys_of(&self.rooms);
        let mut i: usize = 0;
        while i < keys.len()
            invariant
                i <= keys@.len(),
                keys@.to_set() == self.rooms@.dom(),
                forall|j: int| 0 <= j < i ==> !self@[#[trigger] keys@[j]].has_ip(*ip),
            decreases keys@.len() - i,
        {
            let id = keys[i];
            assert(keys@.to_set().contains(keys@[i as int]));
            if let Some(room) = self.rooms.get(&id) {
                if room.has_ip(ip) {
                    assert(self@.contains_key(id) && self@[id].has_ip(*ip));
                    return Err(Error::invalid_ip(ip, "already known"));
                }
            }
            i = i + 1;
        }
        assert forall|id: u128| #[trigger] self@.contains_key(id) implies !self@[id].has_ip(*ip) by {
            assert(keys@.to_set().contains(id));
            let j = choose|j: int| 0 <= j < keys@.len() && keys@[j] == id;
            assert(!self@[keys@[j]].has_ip(*ip));
        }
        Ok(())
    }
}

impl Default for Storage {
    fn default() -> (store: Self)
        ensures
            store@ == Map::<u128, RoomModel>::empty(),
    {
        Storage::new()
    }
}

/// A response for an address that no light has changes nothing: handing it to
/// every light leaves every room as it was.
pub proof fn lemma_unaddressed_reply(rooms: Map<u128, RoomModel>, resp: ResponseModel)
    requires
        !knows_ip(rooms, resp.ip),
    ensures
        rooms_take(rooms, resp) == rooms,
{
    assert forall|id: u128| rooms.contains_key(id) implies #[trigger] rooms[id].take(resp)
        == rooms[id] by {
        let room = rooms[id];
        assert(!room.has_ip(resp.ip));
        match room.lights {
            Some(lights) => {
                assert forall|k: u128| lights.contains_key(k) implies #[trigger] lights[k].take(resp)
                    == lights[k] by {
                    assert(room.all_lights().contains_key(k));
                }
                assert(lights.map_values(|light: LightModel| light.take(resp)) =~= lights);
            },
            None => {},
        }
    }
    assert(rooms_take(rooms, resp) =~= rooms);
}

} // verus!
