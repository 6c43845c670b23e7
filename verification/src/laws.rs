//! What holds of an entity over any course of events.

use crate::actor::{fetch_effects, fetch_reply, fetch_state, ReplyView, RequestView};
use crate::claim::{lemma_active_never_reads_free, probe_result, NOT_ACTIVE};
use crate::effect::{broadcast, Effect, Field, STORAGE_DURATION};
use crate::event::{run, step, step_effects, Event};
use crate::model::{expiry_of, other_than, remaining, Entity};
use vstd::prelude::*;

verus! {

/// The event stores a payload.
pub open spec fn is_store(event: Event) -> bool {
    event matches Event::Fetch(RequestView::SetData { .. })
}

/// The event renews the expiry.
pub open spec fn is_renew(event: Event) -> bool {
    event matches Event::Fetch(RequestView::UpdateTtl)
}

/// The test that holds of the commands that arm the wake-up timer.
pub open spec fn arming() -> spec_fn(Effect) -> bool {
    |c: Effect| c is SetAlarm
}

/// How many commands in `effects` arm the wake-up timer.
pub open spec fn arms(effects: Seq<Effect>) -> nat {
    effects.filter(arming()).len()
}

/// Single timer: an entity has at most one wake-up outstanding after any
/// course of stores and renewals. Each of them arms the timer at most once,
/// and a store arms nothing and leaves the wake-up where it is while one is
/// pending.
pub proof fn lemma_single_timer(e: Entity, events: Seq<(Event, u64)>)
    requires
        forall|i: int|
            0 <= i < events.len() ==> is_store(#[trigger] events[i].0) || is_renew(events[i].0),
    ensures
        run(e, events).pending_timers() <= 1,
        forall|i: int|
            #![trigger events[i]]
            0 <= i < events.len() ==> {
                let before = run(e, events.take(i));
                let after = step(before, events[i].0, events[i].1);
                let effects = step_effects(before, events[i].0, events[i].1);
                &&& arms(effects) <= 1
                &&& is_store(events[i].0) && before.alarm is Some ==> arms(effects) == 0
                    && after.alarm == before.alarm
            },
{
    assert forall|i: int| #![trigger events[i]] 0 <= i < events.len() implies {
        let before = run(e, events.take(i));
        let after = step(before, events[i].0, events[i].1);
        let effects = step_effects(before, events[i].0, events[i].1);
        &&& arms(effects) <= 1
        &&& is_store(events[i].0) && before.alarm is Some ==> arms(effects) == 0 && after.alarm
            == before.alarm
    } by {
        lemma_arms_at_most_once(run(e, events.take(i)), events[i].0, events[i].1);
    }
}

/// A pending wake-up is set for the expiry on record: it fires no earlier.
pub open spec fn timer_at_expiry(e: Entity) -> bool {
    e.alarm matches Some(a) ==> e.expire_at == Some(a)
}

/// In this course of events no store meets a pending wake-up, as the claim
/// protocol has it, and the clock stays short of its last second.
pub open spec fn orderly(e: Entity, events: Seq<(Event, u64)>) -> bool {
    forall|i: int|
        #![trigger events[i]]
        0 <= i < events.len() ==> {
            &&& events[i].1 < u64::MAX
            &&& is_store(events[i].0) ==> run(e, events.take(i)).alarm is None
        }
}

/// The wake-up is faithful to the expiry: through any orderly course of
/// events a pending wake-up is set for exactly the expiry on record, so that
/// it never fires before the entity expires.
pub proof fn lemma_timer_at_expiry(e: Entity, events: Seq<(Event, u64)>)
    requires
        timer_at_expiry(e),
        orderly(e, events),
    ensures
        timer_at_expiry(run(e, events)),
    decreases events.len(),
{
    if events.len() > 0 {
        let earlier = events.drop_last();
        assert forall|i: int| #![trigger earlier[i]] 0 <= i < earlier.len() implies {
            &&& earlier[i].1 < u64::MAX
            &&& is_store(earlier[i].0) ==> run(e, earlier.take(i)).alarm is None
        } by {
            assert(earlier.take(i) =~= events.take(i));
        }
        lemma_timer_at_expiry(e, earlier);
    }
}

/// Purge completeness: once the wake-up fired or the entity was deleted, it
/// stays empty through any course of events that neither stores nor renews.
/// All the while a fetch finds nothing and a probe finds the slot not active.
pub proof fn lemma_purge_complete(
    e: Entity,
    purge: Event,
    at: u64,
    events: Seq<(Event, u64)>,
    now: u64,
)
    requires
        purge is Alarm || purge == Event::Fetch(RequestView::Delete),
        forall|i: int|
            0 <= i < events.len() ==> !is_store(#[trigger] events[i].0) && !is_renew(events[i].0),
    ensures
        run(step(e, purge, at), events) == Entity::empty(),
        fetch_reply(run(step(e, purge, at), events), RequestView::GetData, now) == ReplyView::NotFound,
        fetch_reply(run(step(e, purge, at), events), RequestView::IsActive, now)
            == ReplyView::Inactive,
    decreases events.len(),
{
    if events.len() > 0 {
        let earlier = events.drop_last();
        assert forall|i: int| 0 <= i < earlier.len() implies !is_store(#[trigger] earlier[i].0)
            && !is_renew(earlier[i].0) by {}
        lemma_purge_complete(e, purge, at, earlier, now);
        match events.last().0 {
            Event::Close(observer) => {
                assert(Entity::empty().observers.filter(other_than(observer))
                    =~= Seq::<u64>::empty()) by {
                    reveal(Seq::filter);
                }
            },
            _ => {},
        }
    }
}

/// A slot is claimable exactly when no wake-up is pending on it: the answer
/// to a probe reads as free if and only if the entity has none. Where the
/// seconds until the wake-up are more than the reader holds, the answer does
/// not read at all, and a wake-up is pending.
pub proof fn lemma_claimable_iff_no_timer(e: Entity, now: u64)
    ensures
        fetch_reply(e, RequestView::IsActive, now).text() is Some,
        match probe_result(fetch_reply(e, RequestView::IsActive, now).text().unwrap()) {
            Some(result) => (result == NOT_ACTIVE) <==> e.alarm is None,
            None => e.alarm is Some,
        },
{
    match e.alarm {
        Some(a) => {
            lemma_active_never_reads_free(remaining(a, now));
        },
        None => {},
    }
}

/// A stored entity is not claimable: after a store the wake-up is pending,
/// so that a probe at any later time finds the slot active, and its answer
/// never reads as free. Straight after a first store the probe tells the
/// whole time to live.
pub proof fn lemma_store_blocks_claim(
    e: Entity,
    content: Seq<u8>,
    key: Option<Seq<char>>,
    now: u64,
    later: u64,
)
    requires
        now < u64::MAX,
    ensures
        ({
            let stored = fetch_state(e, RequestView::SetData { content, key }, now);
            &&& stored.content == Some(content)
            &&& stored.alarm matches Some(a)
            &&& fetch_reply(stored, RequestView::IsActive, later) == ReplyView::Active(
                remaining(a, later),
            )
            &&& probe_result(ReplyView::Active(remaining(a, later)).text().unwrap()) != Some(
                NOT_ACTIVE,
            )
            &&& e.alarm is None ==> stored.is_live(now) && a == expiry_of(now, STORAGE_DURATION)
                && 0 < remaining(a, now) <= STORAGE_DURATION
        }),
{
    let stored = fetch_state(e, RequestView::SetData { content, key }, now);
    let a = stored.alarm.unwrap();
    lemma_active_never_reads_free(remaining(a, later));
}

/// The clock does not run backwards over this course of events.
pub open spec fn clock_runs_on(events: Seq<(Event, u64)>) -> bool {
    forall|i: int, j: int|
        0 <= i <= j < events.len() ==> (#[trigger] events[i]).1 <= (#[trigger] events[j]).1
}

/// The expiry on record lies no further ahead of `now` than the time to live.
pub open spec fn expires_within(e: Entity, now: u64) -> bool {
    e.expire_at matches Some(a) ==> a <= expiry_of(now, STORAGE_DURATION)
}

/// While the clock does not run backwards, the expiry on record never lies
/// further ahead than the time to live.
pub proof fn lemma_expires_within(e: Entity, events: Seq<(Event, u64)>, now: u64)
    requires
        clock_runs_on(events),
        expires_within(
            e,
            if events.len() > 0 {
                events[0].1
            } else {
                now
            },
        ),
        events.len() > 0 ==> events.last().1 <= now,
    ensures
        expires_within(run(e, events), now),
    decreases events.len(),
{
    if events.len() > 0 {
        let earlier = events.drop_last();
        assert forall|i: int, j: int| 0 <= i <= j < earlier.len() implies (#[trigger] earlier[i]).1
            <= (#[trigger] earlier[j]).1 by {}
        lemma_expires_within(e, earlier, events.last().1);
    }
}

/// Renewal monotonicity: while the clock does not run backwards, a renewal
/// never moves the expiry back, whatever happened to the entity before. Its
/// commands write the new expiry, move the wake-up to it and tell it to every
/// observer that is attached.
pub proof fn lemma_renew_monotonic(e: Entity, events: Seq<(Event, u64)>, now: u64)
    requires
        clock_runs_on(events),
        expires_within(
            e,
            if events.len() > 0 {
                events[0].1
            } else {
                now
            },
        ),
        events.len() > 0 ==> events.last().1 <= now,
    ensures
        ({
            let prior = run(e, events);
            let renewed = fetch_state(prior, RequestView::UpdateTtl, now);
            let effects = fetch_effects(prior, RequestView::UpdateTtl, now);
            &&& renewed.expire_at matches Some(b)
            &&& prior.expire_at matches Some(a) ==> a <= b
            &&& b == expiry_of(now, STORAGE_DURATION)
            &&& now < b ==> renewed.alarm == Some(b)
            &&& now < u64::MAX && prior.content is Some ==> renewed.is_live(now)
            &&& effects == seq![Effect::Put(Field::ExpireAt)] + (if now < b {
                seq![Effect::SetAlarm { delay: (b - now) as u64 }]
            } else {
                Seq::empty()
            }) + broadcast(prior.observers, b)
            &&& forall|i: int|
                0 <= i < prior.observers.len() ==> effects.contains(
                    Effect::Send { observer: #[trigger] prior.observers[i], expire_at: b },
                )
        }),
{
    lemma_expires_within(e, events, now);
    let prior = run(e, events);
    let effects = fetch_effects(prior, RequestView::UpdateTtl, now);
    let b = expiry_of(now, STORAGE_DURATION);
    let head = seq![Effect::Put(Field::ExpireAt)] + (if now < b {
        seq![Effect::SetAlarm { delay: (b - now) as u64 }]
    } else {
        Seq::empty()
    });
    assert forall|i: int| 0 <= i < prior.observers.len() implies effects.contains(
        Effect::Send { observer: #[trigger] prior.observers[i], expire_at: b },
    ) by {
        assert(effects[head.len() + i] == Effect::Send {
            observer: prior.observers[i],
            expire_at: b,
        });
    }
}

/// Idempotent expiry: a wake-up that fires on a purged entity leaves it
/// purged, and closes no observer a second time.
pub proof fn lemma_fire_idempotent(e: Entity, first: u64, second: u64)
    ensures
        step(step(e, Event::Alarm, first), Event::Alarm, second) == step(e, Event::Alarm, first),
        step_effects(step(e, Event::Alarm, first), Event::Alarm, second) == seq![
            Effect::DeleteAll,
        ],
{
}

/// A store or a renewal arms the timer at most once; a store arms nothing
/// and leaves the wake-up where it is while one is pending.
pub proof fn lemma_arms_at_most_once(e: Entity, event: Event, now: u64)
    requires
        is_store(event) || is_renew(event),
    ensures
        arms(step_effects(e, event, now)) <= 1,
        is_store(event) && e.alarm is Some ==> arms(step_effects(e, event, now)) == 0 && step(
            e,
            event,
            now,
        ).alarm == e.alarm,
{
    let x = expiry_of(now, STORAGE_DURATION);
    let told = broadcast(e.observers, x);
    let arm = seq![Effect::SetAlarm { delay: (x - now) as u64 }];
    let put = seq![Effect::Put(Field::ExpireAt)];
    let put2 = seq![Effect::Put(Field::Content), Effect::Put(Field::ExpireAt)];
    let tag = seq![Effect::Put(Field::Key)];
    let none = Seq::<Effect>::empty();
    lemma_no_arm_in_broadcast(e.observers, x);
    assert(arms(put) == 0 && arms(put2) == 0 && arms(tag) == 0 && arms(arm) == 1 && arms(none)
        == 0) by {
        reveal_with_fuel(Seq::filter, 3);
    }
    lemma_arms_add(arm, told);
    match event {
        Event::Fetch(RequestView::SetData { content, key }) => {
            let mid = if e.alarm is Some {
                none
            } else if now < x {
                arm + told
            } else {
                told
            };
            let last = if key is Some {
                tag
            } else {
                none
            };
            lemma_arms_add(put2, mid);
            lemma_arms_add(put2 + mid, last);
        },
        Event::Fetch(RequestView::UpdateTtl) => {
            let mid = if now < x {
                arm + told
            } else {
                told
            };
            lemma_arms_add(put, mid);
        },
        _ => {},
    }
}

/// Two runs of commands, one after the other, arm as often as both together.
proof fn lemma_arms_add(a: Seq<Effect>, b: Seq<Effect>)
    ensures
        arms(a + b) == arms(a) + arms(b),
{
    Seq::filter_distributes_over_add(a, b, arming());
}

/// Telling the observers arms nothing.
proof fn lemma_no_arm_in_broadcast(observers: Seq<u64>, expire_at: u64)
    ensures
        arms(broadcast(observers, expire_at)) == 0,
    decreases observers.len(),
{
    reveal(Seq::filter);
    if observers.len() > 0 {
        lemma_no_arm_in_broadcast(observers.drop_last(), expire_at);
        assert(broadcast(observers, expire_at).drop_last() =~= broadcast(
            observers.drop_last(),
            expire_at,
        ));
    }
}

} // verus!
