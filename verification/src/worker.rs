//! The decisions of the command dispatcher and of the reply path.
//!
//! Commands are carried out away from the caller, and their results are
//! applied to the store one at a time. The threads and the channels between
//! them are the caller's. This module holds what they act on: which messages
//! go to a light for a request, what becomes of a result, and whether work is
//! still accepted.

use vstd::prelude::*;

use crate::address::Ipv4;
use crate::errors::Error;
use crate::models::light::Light;
use crate::models::payload::{LightRequest, Payload, RequestModel};
use crate::models::response::{LightingResponse, ResponseModel};
use crate::models::room::RoomModel;
use crate::models::scene::PowerMode;
use crate::protocol::{Method, MethodModel};
use crate::storage::{knows_ip, rooms_take, Storage};

verus! {

/// The number of threads that carry out commands.
pub const POOL_SIZE: usize = 4;

/// A message to the dispatcher.
#[derive(Clone, Copy, Debug, PartialEq, Eq)]
pub enum DispatchMessage {
    /// A request to carry out against the light at the address
    Job(Ipv4, LightRequest),
    /// The last message: the dispatcher stops when it gets there
    Shutdown,
}

/// A message on the reply path.
#[derive(Clone, Copy, Debug, PartialEq, Eq)]
pub enum ReplyMessage {
    /// The outcome of a device round trip, to apply to the store
    Reply(LightingResponse),
    /// The last message: the reply path stops when it gets there
    Shutdown,
}

/// The message that sets the given power mode.
pub open spec fn power_method(power: PowerMode) -> MethodModel {
    match power {
        PowerMode::On => MethodModel::SetState(true),
        PowerMode::Off => MethodModel::SetState(false),
        PowerMode::Reboot => MethodModel::Reboot,
    }
}

/// The messages that carry out a request, in their order: the settings, if
/// the request has any that a light can act on, and after them the power
/// change, if the request has one.
pub open spec fn plan_of(request: RequestModel) -> Seq<MethodModel> {
    (if request.settings.is_valid() {
        seq![MethodModel::SetPilot(request.settings)]
    } else {
        seq![]
    }) + (match request.power {
        Some(power) => seq![power_method(power)],
        None => seq![],
    })
}

/// The messages to send to a light in order to carry out a request: first
/// the settings change, if the request holds valid settings, then the power
/// change, if it holds one. Each goes out in a round trip of its own, and
/// the echo of each that is answered is forwarded, in this order.
pub fn handle_request(ip: Ipv4, request: &LightRequest) -> (plan: Vec<Method>)
    ensures
        plan@.map_values(|m: Method| m@) == plan_of(request@),
{
    let mut plan: Vec<Method> = Vec::new();
    let light = Light::new(ip, None);
    let payload = Payload::from(request);
    if payload.is_valid() {
        if let Ok(message) = light.set(&payload) {
            plan.push(message);
        }
    }
    if let Some(power) = request.power() {
        plan.push(light.set_power(power));
    }
    assert(plan@.map_values(|m: Method| m@) =~= plan_of(request@));
    plan
}

/// What is forwarded to the reply path for the result of a round trip: the
/// response of a round trip that went well. A failure is not forwarded and
/// not tried again.
pub fn send_reply<E>(resp: Result<LightingResponse, E>) -> (forwarded: Option<ReplyMessage>)
    ensures
        match resp {
            Ok(r) => forwarded matches Some(ReplyMessage::Reply(f)) && f@ == r@,
            Err(_) => forwarded is None,
        },
{
    match resp {
        Ok(resp) => Some(ReplyMessage::Reply(resp)),
        Err(_) => None,
    }
}

/// What the dispatcher does with a message.
#[derive(Debug, PartialEq, Eq)]
pub enum Dispatch {
    /// Hand these messages for the light at the address to a free thread
    Run(Ipv4, Vec<Method>),
    /// Stop: no message is taken after this one
    Stop,
}

/// What the dispatcher does with a message: a job is planned and handed on,
/// and the shutdown message stops the dispatcher.
pub fn dispatch(message: &DispatchMessage) -> (r: Dispatch)
    ensures
        match *message {
            DispatchMessage::Job(ip, request) => r matches Dispatch::Run(to, plan) && to == ip
                && plan@.map_values(|m: Method| m@) == plan_of(request@),
            DispatchMessage::Shutdown => r is Stop,
        },
{
    match message {
        DispatchMessage::Job(ip, request) => Dispatch::Run(*ip, handle_request(*ip, request)),
        DispatchMessage::Shutdown => Dispatch::Stop,
    }
}

/// What the reply path did with a message.
#[derive(Clone, Copy, Debug, PartialEq, Eq, Structural)]
pub enum Reconciled {
    /// No light is at the address of the reply: nothing changed
    Unchanged,
    /// At least one light took the reply: the store is to be saved
    Save,
    /// The reply path stops: no message is taken after this one
    Stop,
}

/// One step of the reply path, which alone writes to the store on behalf of
/// the lights: a reply is applied to every light at its address, and the
/// store is to be saved if there was one. The shutdown message stops the
/// path and leaves the store alone.
pub fn reconcile(store: &mut Storage, message: &ReplyMessage) -> (r: Reconciled)
    ensures
        match *message {
            ReplyMessage::Reply(resp) => {
                &&& final(store)@ == rooms_take(old(store)@, resp@)
                &&& r == if knows_ip(old(store)@, resp@.ip) {
                    Reconciled::Save
                } else {
                    Reconciled::Unchanged
                }
            },
            ReplyMessage::Shutdown => final(store)@ == old(store)@ && r == Reconciled::Stop,
        },
{
    match message {
        ReplyMessage::Reply(resp) => {
            if store.process_reply(resp) {
                Reconciled::Save
            } else {
                Reconciled::Unchanged
            }
        },
        ReplyMessage::Shutdown => Reconciled::Stop,
    }
}

/// The front of the dispatcher, through which work is handed in. It accepts
/// work until it is shut down, and never after.
#[derive(Debug)]
pub struct Worker {
    accepting: bool,
}

impl View for Worker {
    type V = bool;

    /// Whether work is still accepted.
    closed spec fn view(&self) -> bool {
        self.accepting
    }
}

impl Worker {
    /// Create a new dispatcher front, which accepts work.
    pub fn new() -> (w: Self)
        ensures
            w@,
    {
        Worker { accepting: true }
    }

    /// Queue a lighting setting change for the light by IP: the message to
    /// put on the dispatcher's queue. The caller does not wait for the light.
    /// This fails only if the dispatcher has shut down.
    pub fn create_task(&self, ip: Ipv4, req: LightRequest) -> (r: Result<DispatchMessage, Error>)
        ensures
            r is Ok <==> self@,
            r matches Ok(m) ==> m matches DispatchMessage::Job(to, job) && to == ip && job@ == req@,
            r matches Err(e) ==> e == Error::Dispatch,
    {
        if self.accepting {
            Ok(DispatchMessage::Job(ip, req))
        } else {
            Err(Error::Dispatch)
        }
    }

    /// Queue an update from a lighting setting change: the message to put
    /// on the reply path. This fails only if the dispatcher has shut down.
    pub fn queue_update(&self, resp: LightingResponse) -> (r: Result<ReplyMessage, Error>)
        ensures
            r is Ok <==> self@,
            r matches Ok(m) ==> m matches ReplyMessage::Reply(f) && f@ == resp@,
            r matches Err(e) ==> e == Error::Reply,
    {
        if self.accepting {
            Ok(ReplyMessage::Reply(resp))
        } else {
            Err(Error::Reply)
        }
    }

    /// Shut the dispatcher down. The first call hands out the two messages
    /// that end the dispatcher and the reply path; each goes to the end of
    /// its queue, so the work queued before it is still carried out. Work
    /// is refused from now on, and a later call hands out nothing.
    pub fn shutdown(&mut self) -> (last: Option<(DispatchMessage, ReplyMessage)>)
        ensures
            !final(self)@,
            last is Some <==> old(self)@,
            last matches Some((d, r)) ==> d is Shutdown && r is Shutdown,
    {
        if self.accepting {
            self.accepting = false;
            Some((DispatchMessage::Shutdown, ReplyMessage::Shutdown))
        } else {
            None
        }
    }
}

/// Replies for different addresses do not touch the same light, so the
/// order in which the store takes them makes no difference.
pub proof fn lemma_replies_commute(
    rooms: Map<u128, RoomModel>,
    first: ResponseModel,
    second: ResponseModel,
)
    requires
        first.ip != second.ip,
    ensures
        rooms_take(rooms_take(rooms, first), second) == rooms_take(
            rooms_take(rooms, second),
            first,
        ),
{
    let a = rooms_take(rooms_take(rooms, first), second);
    let b = rooms_take(rooms_take(rooms, second), first);
    assert forall|id: u128| rooms.contains_key(id) implies #[trigger] a[id] == b[id] by {
        let room = rooms[id];
        match room.lights {
            Some(lights) => {
                let la = room.take(first).take(second).lights->0;
                let lb = room.take(second).take(first).lights->0;
                assert(la =~= lb);
            },
            None => {},
        }
    }
    assert(a =~= b);
}

/// Every reply that the store takes reaches each light at its address, once,
/// and no other light: after the reply, a light at the address holds what
/// the reply told merged into what it held, and a light elsewhere is as it
/// was.
pub proof fn lemma_reply_reaches_its_lights(
    rooms: Map<u128, RoomModel>,
    resp: ResponseModel,
    room: u128,
    light: u128,
)
    requires
        rooms.contains_key(room),
        rooms[room].all_lights().contains_key(light),
    ensures
        rooms_take(rooms, resp).contains_key(room),
        rooms_take(rooms, resp)[room].all_lights().contains_key(light),
        rooms_take(rooms, resp)[room].all_lights()[light] == rooms[room].all_lights()[light].take(
            resp,
        ),
        rooms[room].all_lights()[light].ip != resp.ip ==> rooms_take(
            rooms,
            resp,
        )[room].all_lights()[light] == rooms[room].all_lights()[light],
{
}

} // verus!
