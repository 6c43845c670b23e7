//! The host's side of the bargain: what its storage, timer and connections
//! hold once it carried out the commands of an event.

use crate::actor::RequestView;
use crate::effect::{broadcast, closing, Effect, Field};
use crate::event::{run, step, step_effects, Event};
use crate::model::{other_than, Entity};
use vstd::prelude::*;

verus! {

/// The host's copy of an entity after one command, carried out at `now`.
/// A `Put` writes the field as `target` holds it.
pub open spec fn carry_out(host: Entity, effect: Effect, target: Entity, now: u64) -> Entity {
    match effect {
        Effect::Put(Field::Content) => Entity { content: target.content, ..host },
        Effect::Put(Field::ExpireAt) => Entity { expire_at: target.expire_at, ..host },
        Effect::Put(Field::Key) => Entity { key: target.key, ..host },
        Effect::DeleteAll => Entity { content: None, expire_at: None, key: None, ..host },
        Effect::SetAlarm { delay } => Entity {
            alarm: Some(
                if now + delay > u64::MAX {
                    u64::MAX
                } else {
                    (now + delay) as u64
                },
            ),
            ..host
        },
        Effect::DeleteAlarm => Entity { alarm: None, ..host },
        Effect::Accept { observer } => Entity { observers: host.observers.push(observer), ..host },
        Effect::Send { .. } => host,
        Effect::Close { observer, .. } => Entity {
            observers: host.observers.filter(other_than(observer)),
            ..host
        },
    }
}

/// The host's copy of an entity after a run of commands, first to last.
pub open spec fn carried_out(host: Entity, effects: Seq<Effect>, target: Entity, now: u64) -> Entity
    decreases effects.len(),
{
    if effects.len() == 0 {
        host
    } else {
        carry_out(carried_out(host, effects.drop_last(), target, now), effects.last(), target, now)
    }
}

/// The host's copy of an entity when an event reaches the entity: a timer
/// that fires is no longer pending, and a connection that went away is no
/// longer attached.
pub open spec fn host_before(e: Entity, event: Event) -> Entity {
    match event {
        Event::Alarm => Entity { alarm: None, ..e },
        Event::Close(observer) => e.websocket_close(observer),
        _ => e,
    }
}

/// The host's copy of an entity after a course of events, where it carried
/// out the commands of each as they came.
pub open spec fn host_run(e: Entity, events: Seq<(Event, u64)>) -> Entity
    decreases events.len(),
{
    if events.len() == 0 {
        e
    } else {
        let entity = run(e, events.drop_last());
        let host = host_run(e, events.drop_last());
        let event = events.last().0;
        let now = events.last().1;
        carried_out(
            host_before(host, event),
            step_effects(entity, event, now),
            step(entity, event, now),
            now,
        )
    }
}

/// Two runs of commands, one after the other, are carried out as one.
proof fn lemma_carried_add(host: Entity, a: Seq<Effect>, b: Seq<Effect>, target: Entity, now: u64)
    ensures
        carried_out(host, a + b, target, now) == carried_out(
            carried_out(host, a, target, now),
            b,
            target,
            now,
        ),
    decreases b.len(),
{
    if b.len() > 0 {
        lemma_carried_add(host, a, b.drop_last(), target, now);
        assert((a + b).drop_last() =~= a + b.drop_last());
    }
}

/// A single command is carried out as `carry_out` says.
proof fn lemma_carried_one(host: Entity, effect: Effect, target: Entity, now: u64)
    ensures
        carried_out(host, seq![effect], target, now) == carry_out(host, effect, target, now),
{
    reveal_with_fuel(carried_out, 2);
}

/// Telling the observers changes nothing that the host holds.
proof fn lemma_carried_broadcast(
    host: Entity,
    observers: Seq<u64>,
    expire_at: u64,
    target: Entity,
    now: u64,
)
    ensures
        carried_out(host, broadcast(observers, expire_at), target, now) == host,
    decreases observers.len(),
{
    if observers.len() > 0 {
        lemma_carried_broadcast(host, observers.drop_last(), expire_at, target, now);
        assert(broadcast(observers, expire_at).drop_last() =~= broadcast(
            observers.drop_last(),
            expire_at,
        ));
    }
}

/// Closing a list of observers touches the connections only, and leaves
/// attached none of those that were closed.
proof fn lemma_carried_closing(host: Entity, closed: Seq<u64>, target: Entity, now: u64)
    ensures
        carried_out(host, closing(closed), target, now) == (Entity {
            observers: carried_out(host, closing(closed), target, now).observers,
            ..host
        }),
        forall|o: u64| #[trigger]
            carried_out(host, closing(closed), target, now).observers.contains(o)
                ==> host.observers.contains(o) && !closed.contains(o),
    decreases closed.len(),
{
    if closed.len() > 0 {
        let earlier = closed.drop_last();
        let last = closed.last();
        lemma_carried_closing(host, earlier, target, now);
        assert(closing(closed).drop_last() =~= closing(earlier));
        let before = carried_out(host, closing(earlier), target, now).observers;
        let after = carried_out(host, closing(closed), target, now).observers;
        assert forall|o: u64| #[trigger] after.contains(o) implies host.observers.contains(o)
            && !closed.contains(o) by {
            before.lemma_filter_contains_rev(other_than(last), o);
            let i = choose|i: int| 0 <= i < after.len() && after[i] == o;
            before.lemma_filter_pred(other_than(last), i);
            if closed.contains(o) {
                let j = choose|j: int| 0 <= j < closed.len() && closed[j] == o;
                assert(earlier[j] == o);
            }
        }
    }
}

/// Closing every observer that is attached leaves none attached.
proof fn lemma_carried_closing_all(host: Entity, target: Entity, now: u64)
    ensures
        carried_out(host, closing(host.observers), target, now) == (Entity {
            observers: Seq::empty(),
            ..host
        }),
{
    lemma_carried_closing(host, host.observers, target, now);
    let left = carried_out(host, closing(host.observers), target, now).observers;
    if left.len() > 0 {
        assert(left.contains(left[0]));
    }
    assert(left =~= Seq::<u64>::empty());
}

/// The commands of `force_set_alarm` move the host's timer as the entity's
/// wake-up moves, and touch nothing else.
proof fn lemma_carried_force(e: Entity, target: Entity, now: u64)
    ensures
        carried_out(e, e.force_set_alarm_effects(now), target, now) == e.force_set_alarm(now),
{
    match e.expire_at {
        Some(x) => {
            let told = broadcast(e.observers, x);
            if now < x {
                let arm = seq![Effect::SetAlarm { delay: (x - now) as u64 }];
                lemma_carried_add(e, arm, told, target, now);
                lemma_carried_one(e, arm[0], target, now);
                lemma_carried_broadcast(e.force_set_alarm(now), e.observers, x, target, now);
            } else {
                lemma_carried_broadcast(e, e.observers, x, target, now);
            }
        },
        None => {},
    }
}

/// The commands of `set_alarm` move the host's timer as the entity's
/// wake-up moves, and touch nothing else.
proof fn lemma_carried_set_alarm(e: Entity, target: Entity, now: u64)
    ensures
        carried_out(e, e.set_alarm_effects(now), target, now) == e.set_alarm(now),
{
    if e.alarm is None {
        lemma_carried_force(e, target, now);
    }
}

/// The commands suffice: a host that holds an entity and carries out the
/// commands of an event, in their order, holds the entity as the event left it.
pub proof fn lemma_commands_suffice(e: Entity, event: Event, now: u64)
    ensures
        carried_out(
            host_before(e, event),
            step_effects(e, event, now),
            step(e, event, now),
            now,
        ) == step(e, event, now),
{
    let target = step(e, event, now);
    let effects = step_effects(e, event, now);
    match event {
        Event::Fetch(RequestView::SetData { content, key }) => {
            let put_content = seq![Effect::Put(Field::Content)];
            let put_expiry = seq![Effect::Put(Field::ExpireAt)];
            let written = seq![Effect::Put(Field::Content), Effect::Put(Field::ExpireAt)];
            let e1 = Entity { content: target.content, ..e };
            let e2 = Entity { expire_at: target.expire_at, ..e1 };
            let armed = e2.set_alarm_effects(now);
            let tagged = if key is Some {
                seq![Effect::Put(Field::Key)]
            } else {
                Seq::empty()
            };
            assert(written =~= put_content + put_expiry);
            lemma_carried_one(e, put_content[0], target, now);
            lemma_carried_one(e1, put_expiry[0], target, now);
            lemma_carried_add(e, put_content, put_expiry, target, now);
            lemma_carried_set_alarm(e2, target, now);
            lemma_carried_add(e, written, armed, target, now);
            lemma_carried_add(e, written + armed, tagged, target, now);
            if key is Some {
                lemma_carried_one(e2.set_alarm(now), tagged[0], target, now);
            }
        },
        Event::Fetch(RequestView::Delete) => {
            let closes = closing(e.observers);
            let purge = seq![Effect::DeleteAll];
            let cancel = seq![Effect::DeleteAlarm];
            let e1 = Entity { observers: Seq::empty(), ..e };
            let e2 = Entity { content: None, expire_at: None, key: None, ..e1 };
            lemma_carried_closing_all(e, target, now);
            lemma_carried_one(e1, purge[0], target, now);
            lemma_carried_add(e, closes, purge, target, now);
            assert(closes.push(Effect::DeleteAll) =~= closes + purge);
            if e.alarm is Some {
                assert(effects =~= (closes + purge) + cancel);
                lemma_carried_add(e, closes + purge, cancel, target, now);
                lemma_carried_one(e2, cancel[0], target, now);
            }
        },
        Event::Fetch(RequestView::UpdateTtl) => {
            let put_expiry = seq![Effect::Put(Field::ExpireAt)];
            let e1 = Entity { expire_at: target.expire_at, ..e };
            lemma_carried_one(e, put_expiry[0], target, now);
            lemma_carried_force(e1, target, now);
            lemma_carried_add(e, put_expiry, e1.force_set_alarm_effects(now), target, now);
        },
        Event::Fetch(RequestView::Websocket { observer }) => {
            match e.live_expiry(now) {
                Some(x) => {
                    let armed = e.set_alarm_effects(now);
                    let accept = seq![Effect::Accept { observer }];
                    let send = seq![Effect::Send { observer, expire_at: x }];
                    assert(effects =~= armed + accept + send);
                    lemma_carried_set_alarm(e, target, now);
                    lemma_carried_one(e.set_alarm(now), accept[0], target, now);
                    lemma_carried_one(target, send[0], target, now);
                    lemma_carried_add(e, armed, accept, target, now);
                    lemma_carried_add(e, armed + accept, send, target, now);
                },
                None => {},
            }
        },
        Event::Fetch(_) => {},
        Event::Alarm => {
            let host = host_before(e, event);
            let closes = closing(e.observers);
            let purge = seq![Effect::DeleteAll];
            let e1 = Entity { observers: Seq::empty(), ..host };
            assert(closes.push(Effect::DeleteAll) =~= closes + purge);
            lemma_carried_closing_all(host, target, now);
            lemma_carried_one(e1, purge[0], target, now);
            lemma_carried_add(host, closes, purge, target, now);
        },
        Event::Message(observer) => {
            match e.expire_at {
                Some(x) => {
                    lemma_carried_one(e, Effect::Send { observer, expire_at: x }, target, now);
                },
                None => {},
            }
        },
        Event::Close(_) => {},
    }
}

/// The host follows: through any course of events, a host that carries out
/// the commands of each event holds the entity as the library has it. Its one
/// timer is the entity's one wake-up.
pub proof fn lemma_host_follows(e: Entity, events: Seq<(Event, u64)>)
    ensures
        host_run(e, events) == run(e, events),
        host_run(e, events).pending_timers() <= 1,
    decreases events.len(),
{
    if events.len() > 0 {
        lemma_host_follows(e, events.drop_last());
        lemma_commands_suffice(run(e, events.drop_last()), events.last().0, events.last().1);
    }
}

} // verus!
