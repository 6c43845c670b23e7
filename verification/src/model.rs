//! The mathematical model of one entity: its durable fields, its pending
//! wake-up and its attached observers, with what each operation makes of them.

use crate::effect::{broadcast, closing, Effect, Field};
use vstd::prelude::*;

verus! {

/// One entity as the contracts see it. Times are whole seconds since the epoch.
pub struct Entity {
    /// The stored payload.
    pub content: Option<Seq<u8>>,
    /// The time after which the entity is purged.
    pub expire_at: Option<u64>,
    /// The owner tag that came with the payload.
    pub key: Option<Seq<char>>,
    /// The time at which the pending wake-up fires; `None` when none is pending.
    pub alarm: Option<u64>,
    /// The attached observers, in the order of attachment.
    pub observers: Seq<u64>,
}

/// The expiry of something stored at `now` for `ttl` seconds; the last
/// representable second where the sum lies beyond it.
pub open spec fn expiry_of(now: u64, ttl: u32) -> u64 {
    if now + ttl > u64::MAX {
        u64::MAX
    } else {
        (now + ttl) as u64
    }
}

/// The seconds from `now` until `alarm`; zero once `alarm` is due.
pub open spec fn remaining(alarm: u64, now: u64) -> u64 {
    if now < alarm {
        (alarm - now) as u64
    } else {
        0
    }
}

/// The view of an optional text.
pub open spec fn text_view(text: Option<String>) -> Option<Seq<char>> {
    match text {
        Some(t) => Some(t@),
        None => None,
    }
}

/// The view of an optional payload.
pub open spec fn bytes_view(bytes: Option<Vec<u8>>) -> Option<Seq<u8>> {
    match bytes {
        Some(b) => Some(b@),
        None => None,
    }
}

/// The test that holds of every observer but `observer`.
pub open spec fn other_than(observer: u64) -> spec_fn(u64) -> bool {
    |o: u64| o != observer
}

impl Entity {
    /// The entity that was never stored to, or was purged.
    pub open spec fn empty() -> Entity {
        Entity { content: None, expire_at: None, key: None, alarm: None, observers: Seq::empty() }
    }

    /// How many wake-ups are outstanding.
    pub open spec fn pending_timers(self) -> nat {
        if self.alarm is Some {
            1
        } else {
            0
        }
    }

    /// The entity is populated and waits for its wake-up, which lies ahead.
    pub open spec fn is_live(self, now: u64) -> bool {
        &&& self.content is Some
        &&& self.alarm is Some
        &&& self.expire_at matches Some(e) && now < e
    }

    /// The expiry that an observer may watch at `now`: the one on record, while
    /// a wake-up is pending or it still lies ahead.
    pub open spec fn live_expiry(self, now: u64) -> Option<u64> {
        match self.expire_at {
            Some(e) => if self.alarm is Some || now < e {
                Some(e)
            } else {
                None
            },
            None => None,
        }
    }

    /// The entity with `content` as its payload.
    pub open spec fn set_data(self, content: Seq<u8>) -> Entity {
        Entity { content: Some(content), ..self }
    }

    /// The entity with its expiry `ttl` seconds after `now`.
    pub open spec fn set_ttl(self, now: u64, ttl: u32) -> Entity {
        Entity { expire_at: Some(expiry_of(now, ttl)), ..self }
    }

    /// The entity with `key` as its owner tag, where one came.
    pub open spec fn set_key(self, key: Option<Seq<char>>) -> Entity {
        match key {
            Some(k) => Entity { key: Some(k), ..self },
            None => self,
        }
    }

    /// The wake-up is moved to the expiry on record, where that lies ahead.
    pub open spec fn force_set_alarm(self, now: u64) -> Entity {
        match self.expire_at {
            Some(e) => if now < e {
                Entity { alarm: Some(e), ..self }
            } else {
                self
            },
            None => self,
        }
    }

    /// The commands of `force_set_alarm`: the timer, where it is armed, then
    /// the expiry on record to every observer.
    pub open spec fn force_set_alarm_effects(self, now: u64) -> Seq<Effect> {
        match self.expire_at {
            Some(e) => {
                let arm = if now < e {
                    seq![Effect::SetAlarm { delay: (e - now) as u64 }]
                } else {
                    Seq::empty()
                };
                arm + broadcast(self.observers, e)
            },
            None => Seq::empty(),
        }
    }

    /// A pending wake-up is left alone; otherwise as `force_set_alarm`.
    pub open spec fn set_alarm(self, now: u64) -> Entity {
        if self.alarm is Some {
            self
        } else {
            self.force_set_alarm(now)
        }
    }

    /// The commands of `set_alarm`: none while a wake-up is pending.
    pub open spec fn set_alarm_effects(self, now: u64) -> Seq<Effect> {
        if self.alarm is Some {
            Seq::empty()
        } else {
            self.force_set_alarm_effects(now)
        }
    }

    /// The entity with every observer detached.
    pub open spec fn close_all(self) -> Entity {
        Entity { observers: Seq::empty(), ..self }
    }

    /// The entity with every durable field erased.
    pub open spec fn delete_all(self) -> Entity {
        Entity { content: None, expire_at: None, key: None, ..self }
    }

    /// The commands of a purge by the wake-up: every observer is closed, then
    /// the durable fields are erased.
    pub open spec fn alarm_effects(self) -> Seq<Effect> {
        closing(self.observers).push(Effect::DeleteAll)
    }

    /// The commands of an explicit delete: as a purge by the wake-up, and a
    /// pending wake-up is cancelled.
    pub open spec fn delete_effects(self) -> Seq<Effect> {
        if self.alarm is Some {
            self.alarm_effects().push(Effect::DeleteAlarm)
        } else {
            self.alarm_effects()
        }
    }

    /// The entity after `observer` asked to watch it at `now`.
    pub open spec fn subscribe(self, observer: u64, now: u64) -> Entity {
        if self.live_expiry(now) is Some {
            let armed = self.set_alarm(now);
            Entity { observers: armed.observers.push(observer), ..armed }
        } else {
            self
        }
    }

    /// The commands of `subscribe`: a missing wake-up is armed again, then the
    /// observer is attached and told the expiry.
    pub open spec fn subscribe_effects(self, observer: u64, now: u64) -> Seq<Effect> {
        match self.live_expiry(now) {
            Some(e) => self.set_alarm_effects(now).push(Effect::Accept { observer }).push(
                Effect::Send { observer, expire_at: e },
            ),
            None => Seq::empty(),
        }
    }

    /// The commands that answer a message from `observer`: the expiry on
    /// record is pushed back to it, where there is one.
    pub open spec fn message_effects(self, observer: u64) -> Seq<Effect> {
        match self.expire_at {
            Some(e) => seq![Effect::Send { observer, expire_at: e }],
            None => Seq::empty(),
        }
    }

    /// The entity after the connection of `observer` went away.
    pub open spec fn websocket_close(self, observer: u64) -> Entity {
        Entity { observers: self.observers.filter(other_than(observer)), ..self }
    }

    /// The commands of a store: payload and expiry are written, the wake-up
    /// is armed unless one is pending, and the owner tag is written where one came.
    pub open spec fn store_effects(self, key: Option<Seq<char>>, now: u64, ttl: u32) -> Seq<
        Effect,
    > {
        let written = seq![Effect::Put(Field::Content), Effect::Put(Field::ExpireAt)];
        let armed = self.set_ttl(now, ttl).set_alarm_effects(now);
        let tagged = if key is Some {
            seq![Effect::Put(Field::Key)]
        } else {
            Seq::empty()
        };
        written + armed + tagged
    }

    /// The entity after a store.
    pub open spec fn store(self, content: Seq<u8>, key: Option<Seq<char>>, now: u64, ttl: u32)
        -> Entity {
        self.set_data(content).set_ttl(now, ttl).set_alarm(now).set_key(key)
    }

    /// The entity after a renewal.
    pub open spec fn renew(self, now: u64, ttl: u32) -> Entity {
        self.set_ttl(now, ttl).force_set_alarm(now)
    }

    /// The commands of a renewal: the expiry is written, the wake-up is moved
    /// to it, and every observer is told.
    pub open spec fn renew_effects(self, now: u64, ttl: u32) -> Seq<Effect> {
        seq![Effect::Put(Field::ExpireAt)] + self.set_ttl(now, ttl).force_set_alarm_effects(now)
    }
}

} // verus!
