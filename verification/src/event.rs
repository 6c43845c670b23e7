//! The events of an entity's life and what a course of them leaves behind.

use crate::actor::{fetch_effects, fetch_state, RequestView};
use crate::effect::Effect;
use crate::model::Entity;
use vstd::prelude::*;

verus! {

/// Something that happens to an entity.
pub enum Event {
    /// A request is served.
    Fetch(RequestView),
    /// The wake-up fires.
    Alarm,
    /// An observer sends a message.
    Message(u64),
    /// An observer's connection goes away.
    Close(u64),
}

/// The entity after one event at `now`.
pub open spec fn step(e: Entity, event: Event, now: u64) -> Entity {
    match event {
        Event::Fetch(request) => fetch_state(e, request, now),
        Event::Alarm => Entity::empty(),
        Event::Message(_) => e,
        Event::Close(observer) => e.websocket_close(observer),
    }
}

/// The commands of one event at `now`.
pub open spec fn step_effects(e: Entity, event: Event, now: u64) -> Seq<Effect> {
    match event {
        Event::Fetch(request) => fetch_effects(e, request, now),
        Event::Alarm => e.alarm_effects(),
        Event::Message(observer) => e.message_effects(observer),
        Event::Close(_) => Seq::empty(),
    }
}

/// The entity after a course of events, each with its time, first to last.
pub open spec fn run(e: Entity, events: Seq<(Event, u64)>) -> Entity
    decreases events.len(),
{
    if events.len() == 0 {
        e
    } else {
        step(run(e, events.drop_last()), events.last().0, events.last().1)
    }
}

} // verus!
