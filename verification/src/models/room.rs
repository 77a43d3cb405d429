//! A room: a named group of lights, each under an identifier of its own.

use std::collections::hash_map::Entry;
use std::collections::HashMap;
use vstd::prelude::*;

use crate::errors::{Error, ErrorModel};
use crate::address::Ipv4;
use crate::ids::{first_free_from, first_free_id, keys_of, random_id};
use crate::models::light::{Light, LightModel};
use crate::models::response::{LightingResponse, ResponseModel};
use crate::protocol::{Method, MethodModel};

verus! {

broadcast use vstd::std_specs::hash::group_hash_axioms;

/// Rooms group lights logically to allow for batched actions.
#[derive(Debug)]
pub struct Room {
    name: String,
    lights: Option<HashMap<u128, Light>>,
    id: u128,
    linked: bool,
}

/// A room, as plain values: its name, its lights by their identifiers, and
/// the identifier under which the room is stored, once it is linked.
pub struct RoomModel {
    pub name: Seq<char>,
    pub lights: Option<Map<u128, LightModel>>,
    pub id: u128,
    pub linked: bool,
}

/// The lights of a map, as plain values.
pub open spec fn light_models(lights: Map<u128, Light>) -> Map<u128, LightModel> {
    lights.map_values(|light: Light| light@)
}

impl RoomModel {
    /// The lights of the room; none for a room that never had one.
    pub open spec fn all_lights(self) -> Map<u128, LightModel> {
        match self.lights {
            Some(lights) => lights,
            None => Map::empty(),
        }
    }

    /// Whether a light of the room, other than the one under `except`, is at
    /// the given address.
    pub open spec fn has_ip_besides(self, ip: Ipv4, except: Option<u128>) -> bool {
        exists|id: u128| #[trigger]
            self.all_lights().contains_key(id) && Some(id) != except && self.all_lights()[id].ip
                == ip
    }

    /// Whether the room has a light at the given address.
    pub open spec fn has_ip(self, ip: Ipv4) -> bool {
        self.has_ip_besides(ip, None)
    }

    /// The error that refuses to give the light under `id` the name and the
    /// address of `light`, where the update does not go through: the room
    /// has no lights, or not this one; another light of the room is at the
    /// address; or, failing these, the light has this name and address
    /// already.
    pub open spec fn update_refusal(self, id: u128, light: LightModel) -> ErrorModel {
        if self.lights is None {
            ErrorModel::NoLights(self.id)
        } else if !self.all_lights().contains_key(id) {
            ErrorModel::LightNotFound { room_id: self.id, light_id: id }
        } else if self.has_ip_besides(light.ip, Some(id)) {
            already_known(light.ip)
        } else {
            ErrorModel::NoChangeLight { room_id: self.id, light_id: id }
        }
    }

    /// This room after a response was handed to each of its lights.
    pub open spec fn take(self, resp: ResponseModel) -> RoomModel {
        RoomModel {
            lights: match self.lights {
                Some(lights) => Some(lights.map_values(|light: LightModel| light.take(resp))),
                None => None,
            },
            ..self
        }
    }
}

impl View for Room {
    type V = RoomModel;

    closed spec fn view(&self) -> RoomModel {
        RoomModel {
            name: self.name@,
            lights: match self.lights {
                Some(lights) => Some(light_models(lights@)),
                None => None,
            },
            id: self.id,
            linked: self.linked,
        }
    }
}

impl Clone for Room {
    fn clone(&self) -> (r: Self)
        ensures
            r@ == self@,
    {
        Room {
            name: self.name.clone(),
            lights: match &self.lights {
                Some(lights) => Some(lights.clone()),
                None => None,
            },
            id: self.id,
            linked: self.linked,
        }
    }
}

impl Room {
    /// Create a new room with some name and no lights. The room is not
    /// linked yet.
    pub fn new(name: &str) -> (room: Self)
        ensures
            room@.name == name@,
            room@.lights is None,
            !room@.linked,
    {
        Room { name: String::from_str(name), lights: None, id: random_id(), linked: false }
    }

    /// Whether the room was linked to its identifier.
    pub fn is_linked(&self) -> (linked: bool)
        ensures
            linked == self@.linked,
    {
        self.linked
    }

    /// Link the id to this room for self-reference. This can be done once:
    /// a room that is linked already is not accepted.
    pub fn link(&mut self, id: u128)
        requires
            !old(self)@.linked,
        ensures
            final(self)@ == (RoomModel { id, linked: true, ..old(self)@ }),
    {
        self.id = id;
        self.linked = true;
    }

    /// Accessor for this room's name.
    pub fn name(&self) -> (name: &str)
        ensures
            name@ == self@.name,
    {
        self.name.as_str()
    }

    /// Update the name from the other room. Says whether it changed.
    pub fn update(&mut self, other: &Self) -> (changed: bool)
        ensures
            changed == (old(self)@.name != other@.name),
            final(self)@ == (RoomModel { name: other@.name, ..old(self)@ }),
    {
        if self.name == other.name {
            return false;
        }
        self.name = other.name.clone();
        true
    }

    /// Read a light in this room by ID.
    pub fn read(&self, light: u128) -> (r: Option<&Light>)
        ensures
            r is Some <==> self@.all_lights().contains_key(light),
            r matches Some(l) ==> l@ == self@.all_lights()[light],
    {
        match &self.lights {
            Some(lights) => lights.get(&light),
            None => None,
        }
    }

    /// Read a light in this room by ID as a mutable reference. What is
    /// written through the reference is written to the light of the room.
    pub fn read_mut(&mut self, light: u128) -> (r: Option<&mut Light>)
        ensures
            r is Some <==> old(self)@.all_lights().contains_key(light),
            r matches Some(found) ==> {
                &&& found@ == old(self)@.all_lights()[light]
                &&& final(self)@ == (RoomModel {
                    lights: Some(old(self)@.all_lights().insert(light, final(found)@)),
                    ..old(self)@
                })
            },
            r is None ==> final(self)@ == old(self)@,
    {
        if let Some(lights) = &mut self.lights {
            let ghost before = lights@;
            match lights.entry(light) {
                Entry::Occupied(entry) => {
                    let found = entry.into_mut();
                    proof {
                        assert(light_models(before.insert(light, *final(found))) =~= light_models(
                            before,
                        ).insert(light, final(found)@));
                    }
                    Some(found)
                },
                Entry::Vacant(_) => {
                    proof {
                        assert(before.remove(light) =~= before);
                    }
                    None
                },
            }
        } else {
            None
        }
    }

    /// List all lights in this room, if any: the identifier of each light,
    /// once, in no particular order.
    pub fn list(&self) -> (r: Option<Vec<u128>>)
        ensures
            r is Some <==> self@.lights is Some,
            r matches Some(ids) ==> ids@.no_duplicates() && ids@.to_set() == self@.all_lights().dom(),
    {
        match &self.lights {
            Some(lights) => Some(keys_of(lights)),
            None => None,
        }
    }
    /// Store a light in this room under the given identifier, in place of
    /// the light that was stored under it, if any. Nothing is checked.
    pub fn put_light(&mut self, id: u128, light: Light)
        ensures
            final(self)@ == (RoomModel {
                lights: Some(old(self)@.all_lights().insert(id, light@)),
                ..old(self)@
            }),
    {
        let ghost model = light@;
        let mut lights = match self.lights.take() {
            Some(lights) => lights,
            None => HashMap::new(),
        };
        let ghost before = lights@;
        lights.insert(id, light);
        assert(light_models(lights@) =~= light_models(before).insert(id, model));
        assert(light_models(Map::<u128, Light>::empty()) =~= Map::<u128, LightModel>::empty());
        self.lights = Some(lights);
    }

    /// Store a newly created light in this room, under the first free
    /// identifier from `start` on.
    ///
    /// A light whose address another light of this room has already is
    /// refused, and the room is left as it was.
    pub fn new_light_from(&mut self, start: u128, light: Light) -> (r: Result<u128, Error>)
        ensures
            match r {
                Ok(id) => {
                    &&& !old(self)@.has_ip(light@.ip)
                    &&& first_free_from(old(self)@.all_lights().dom(), start, id)
                    &&& final(self)@ == (RoomModel {
                        lights: Some(old(self)@.all_lights().insert(id, light@)),
                        ..old(self)@
                    })
                },
                Err(e) => {
                    &&& old(self)@.has_ip(light@.ip)
                    &&& e@ == already_known(light@.ip)
                    &&& final(self)@ == old(self)@
                },
            },
    {
        match self.validate_light(&light, None) {
            Err(e) => return Err(e),
            Ok(()) => {},
        }
        let id = match &self.lights {
            Some(lights) => first_free_id(lights, start),
            None => {
                proof {
                    assert(crate::ids::id_after(start, 0) == start);
                }
                start
            },
        };
        self.put_light(id, light);
        Ok(id)
    }

    /// Store a newly created light in this room, under a new identifier,
    /// which is returned. The identifier is drawn at random and is one that
    /// no light of the room has.
    ///
    /// A light whose address another light of this room has already is
    /// refused, and the room is left as it was.
    pub fn new_light(&mut self, light: Light) -> (r: Result<u128, Error>)
        ensures
            match r {
                Ok(id) => {
                    &&& !old(self)@.has_ip(light@.ip)
                    &&& !old(self)@.all_lights().contains_key(id)
                    &&& final(self)@ == (RoomModel {
                        lights: Some(old(self)@.all_lights().insert(id, light@)),
                        ..old(self)@
                    })
                },
                Err(e) => {
                    &&& old(self)@.has_ip(light@.ip)
                    &&& e@ == already_known(light@.ip)
                    &&& final(self)@ == old(self)@
                },
            },
    {
        self.new_light_from(random_id(), light)
    }

    /// Removes a light from the room's lights.
    ///
    /// A room that never had a light answers that the room is not found, and
    /// a room without this light that the light is not found. Both name the
    /// identifier that the room holds for itself.
    pub fn delete_light(&mut self, light: u128) -> (r: Result<(), Error>)
        ensures
            match r {
                Ok(()) => {
                    &&& old(self)@.all_lights().contains_key(light)
                    &&& final(self)@ == (RoomModel {
                        lights: Some(old(self)@.all_lights().remove(light)),
                        ..old(self)@
                    })
                },
                Err(e) => {
                    &&& !old(self)@.all_lights().contains_key(light)
                    &&& final(self)@ == old(self)@
                    &&& e == if old(self)@.lights is None {
                        Error::RoomNotFound(old(self)@.id)
                    } else {
                        Error::LightNotFound { room_id: old(self)@.id, light_id: light }
                    }
                },
            },
    {
        match self.lights.take() {
            Some(mut lights) => {
                let ghost before = lights@;
                let removed = lights.remove(&light);
                assert(light_models(lights@) =~= light_models(before).remove(light));
                match removed {
                    Some(_) => {
                        self.lights = Some(lights);
                        Ok(())
                    },
                    None => {
                        assert(lights@ =~= before);
                        self.lights = Some(lights);
                        Err(Error::light_not_found(self.id, light))
                    },
                }
            },
            None => Err(Error::RoomNotFound(self.id)),
        }
    }

    /// Update the name and the address of a light of this room to those of
    /// the given light. The status of the light is kept.
    ///
    /// A room that never had a light answers that it has no lights, and a
    /// room without this light that the light is not found. The update is
    /// refused if another light of the room is at the address already, and
    /// a light that has this name and address already answers that nothing
    /// changes. A refusal leaves the room as it was.
    pub fn update_light(&mut self, id: u128, light: &Light) -> (r: Result<(), Error>)
        ensures
            match r {
                Ok(()) => {
                    &&& old(self)@.all_lights().contains_key(id)
                    &&& !old(self)@.has_ip_besides(light@.ip, Some(id))
                    &&& old(self)@.all_lights()[id].renamed(light@) != old(self)@.all_lights()[id]
                    &&& final(self)@ == (RoomModel {
                        lights: Some(
                            old(self)@.all_lights().insert(
                                id,
                                old(self)@.all_lights()[id].renamed(light@),
                            ),
                        ),
                        ..old(self)@
                    })
                },
                Err(e) => {
                    &&& final(self)@ == old(self)@
                    &&& e@ == old(self)@.update_refusal(id, light@)
                    &&& e@ is NoChangeLight ==> old(self)@.all_lights()[id].renamed(light@)
                        == old(self)@.all_lights()[id]
                },
            },
    {
        if self.read(id).is_some() {
            match self.validate_light(light, Some(id)) {
                Err(e) => return Err(e),
                Ok(()) => {},
            }
        }
        match self.lights.take() {
            Some(mut lights) => {
                let ghost before = lights@;
                match lights.remove(&id) {
                    Some(mut known) => {
                        let ghost was = known@;
                        let changed = known.update(light);
                        lights.insert(id, known);
                        assert(light_models(lights@) =~= light_models(before).insert(
                            id,
                            was.renamed(light@),
                        ));
                        self.lights = Some(lights);
                        if changed {
                            Ok(())
                        } else {
                            assert(was.renamed(light@) == was);
                            assert(light_models(before).insert(id, was) =~= light_models(before));
                            Err(Error::no_change_light(self.id, id))
                        }
                    },
                    None => {
                        assert(lights@ =~= before);
                        self.lights = Some(lights);
                        Err(Error::light_not_found(self.id, id))
                    },
                }
            },
            None => Err(Error::NoLights(self.id)),
        }
    }

    /// Whether a light of this room, other than the one under `except`, is at
    /// the given address.
    pub fn has_ip_besides(&self, ip: &Ipv4, except: Option<u128>) -> (found: bool)
        ensures
            found == self@.has_ip_besides(*ip, except),
    {
        self.find_ip(*ip, except)
    }

    /// Process a reply from a lighting request for bulbs in this room: the
    /// reply is handed to every light, and each light at the reply's address
    /// takes it into its status. Says whether any light did.
    pub fn process_reply(&mut self, resp: &LightingResponse) -> (updated: bool)
        ensures
            final(self)@ == old(self)@.take(resp@),
            updated == old(self)@.has_ip(resp@.ip),
    {
        let mut any_update = false;
        match self.lights.take() {
            Some(mut lights) => {
                let ghost before = lights@;
                let keys = keys_of(&lights);
                let mut i: usize = 0;
                while i < keys.len()
                    invariant
                        i <= keys@.len(),
                        keys@.no_duplicates(),
                        keys@.to_set() == before.dom(),
                        lights@.dom() == before.dom(),
                        forall|j: int|
                            0 <= j < i ==> (#[trigger] lights@[keys@[j]])@ == before[keys@[j]]@.take(
                                resp@,
                            ),
                        forall|j: int|
                            i <= j < keys@.len() ==> #[trigger] lights@[keys@[j]] == before[keys@[j]],
                        any_update == exists|j: int|
                            0 <= j < i && (#[trigger] before[keys@[j]])@.ip == resp@.ip,
                    decreases keys@.len() - i,
                {
                    let id = keys[i];
                    assert(keys@.to_set().contains(keys@[i as int]));
                    let ghost mid = lights@;
                    match lights.remove(&id) {
                        Some(mut light) => {
                            let light_update = light.process_reply(resp);
                            any_update = any_update || light_update;
                            lights.insert(id, light);
                        },
                        None => {},
                    }
                    assert(lights@.dom() =~= before.dom());
                    assert forall|j: int| 0 <= j < keys@.len() && j != i implies #[trigger] lights@[keys@[j]]
                        == mid[keys@[j]] by {
                        assert(keys@[j] != keys@[i as int]);
                    }
                    i = i + 1;
                }
                proof {
                    let after = light_models(before).map_values(|light: LightModel| light.take(resp@));
                    assert forall|id: u128| before.contains_key(id) implies (#[trigger] lights@[id])@
                        == before[id]@.take(resp@) by {
                        assert(keys@.to_set().contains(id));
                        let j = choose|j: int| 0 <= j < keys@.len() && keys@[j] == id;
                        assert(lights@[keys@[j]]@ == before[keys@[j]]@.take(resp@));
                    }
                    assert(light_models(lights@) =~= after);
                    if any_update {
                        let j = choose|j: int|
                            0 <= j < keys@.len() && (#[trigger] before[keys@[j]])@.ip == resp@.ip;
                        assert(keys@.to_set().contains(keys@[j]));
                        assert(old(self)@.all_lights().contains_key(keys@[j]));
                    }
                    if old(self)@.has_ip(resp@.ip) {
                        let id = choose|id: u128| #[trigger]
                            old(self)@.all_lights().contains_key(id) && old(self)@.all_lights()[id].ip
                                == resp@.ip;
                        assert(keys@.to_set().contains(id));
                        let j = choose|j: int| 0 <= j < keys@.len() && keys@[j] == id;
                        assert(before[keys@[j]]@.ip == resp@.ip);
                    }
                }
                self.lights = Some(lights);
            },
            None => {},
        }
        any_update
    }

    /// The status queries to make of the bulbs in this room: for each light,
    /// once, its address and the message to send there, in no particular
    /// order.
    pub fn get_status(&self) -> (queries: Vec<(Ipv4, Method)>)
        ensures
            exists|ids: Seq<u128>|
                {
                    &&& ids.no_duplicates()
                    &&& ids.to_set() == self@.all_lights().dom()
                    &&& queries@.len() == ids.len()
                    &&& forall|i: int|
                        0 <= i < ids.len() ==> (#[trigger] queries@[i]).0 == self@.all_lights()[ids[i]].ip
                            && queries@[i].1@ == MethodModel::GetPilot
                },
    {
        let mut queries: Vec<(Ipv4, Method)> = Vec::new();
        match &self.lights {
            Some(lights) => {
                let keys = keys_of(lights);
                let mut i: usize = 0;
                while i < keys.len()
                    invariant
                        i <= keys@.len(),
                        keys@.to_set() == lights@.dom(),
                        Some(*lights) == self.lights,
                        queries@.len() == i,
                        forall|j: int|
                            0 <= j < i ==> (#[trigger] queries@[j]).0 == self@.all_lights()[keys@[j]].ip
                                && queries@[j].1@ == MethodModel::GetPilot,
                    decreases keys@.len() - i,
                {
                    let id = keys[i];
                    assert(keys@.to_set().contains(keys@[i as int]));
                    match lights.get(&id) {
                        Some(light) => queries.push((light.ip(), light.get_status())),
                        None => {},
                    }
                    i = i + 1;
                }
                assert(self@.all_lights().dom() =~= lights@.dom());
                assert(keys@.to_set() == self@.all_lights().dom());
            },
            None => {
                assert(Seq::<u128>::empty().to_set() =~= self@.all_lights().dom());
            },
        }
        queries
    }

    /// Whether this room has a light at the given address.
    pub fn has_ip(&self, ip: &Ipv4) -> (found: bool)
        ensures
            found == self@.has_ip(*ip),
    {
        self.find_ip(*ip, None)
    }

    /// Check that no other light of this room has the address of the given
    /// light. With an identifier given, the light under it is left out of
    /// the comparison.
    fn validate_light(&self, light: &Light, light_id: Option<u128>) -> (r: Result<(), Error>)
        ensures
            r is Err <==> self@.has_ip_besides(light@.ip, light_id),
            r matches Err(e) ==> e@ == already_known(light@.ip),
    {
        let ip = light.ip();
        if self.find_ip(ip, light_id) {
            return Err(Error::invalid_ip(&ip, "already known"));
        }
        Ok(())
    }

    /// Whether a light of this room, other than the one under `except`, is at
    /// the given address.
    fn find_ip(&self, ip: Ipv4, except: Option<u128>) -> (found: bool)
        ensures
            found == self@.has_ip_besides(ip, except),
    {
        if let Some(lights) = &self.lights {
            let keys = keys_of(lights);
            let mut i: usize = 0;
            while i < keys.len()
                invariant
                    i <= keys@.len(),
                    keys@.to_set() == lights@.dom(),
                    Some(*lights) == self.lights,
                    forall|j: int|
                        0 <= j < i ==> !(Some(#[trigger] keys@[j]) != except
                            && self@.all_lights()[keys@[j]].ip == ip),
                decreases keys@.len() - i,
            {
                let id = keys[i];
                assert(keys@.to_set().contains(keys@[i as int]));
                let skip = match except {
                    Some(own) => own == id,
                    None => false,
                };
                if !skip {
                    match lights.get(&id) {
                        Some(known) => {
                            if known.ip() == ip {
                                assert(self@.all_lights().contains_key(id)
                                    && self@.all_lights()[id].ip == ip);
                                return true;
                            }
                        },
                        None => {},
                    }
                }
                i = i + 1;
            }
            assert forall|id: u128| #[trigger]
                self@.all_lights().contains_key(id) && Some(id) != except implies self@.all_lights()[id].ip
                != ip by {
                assert(keys@.to_set().contains(id));
                let j = choose|j: int| 0 <= j < keys@.len() && keys@[j] == id;
                assert(Some(keys@[j]) != except);
            }
        }
        false
    }
}

/// The error that refuses a light whose address is taken.
pub open spec fn already_known(ip: Ipv4) -> ErrorModel {
    ErrorModel::InvalidIP { ip, reason: "already known"@ }
}

} // verus!
