//! The entity actor's state and its elementary operations: the entity store,
//! the expiry scheduler and the notification channel.

use crate::effect::{close_websockets, closing, post_websockets, Effect, Field, ShareError};
use crate::model::{bytes_view, other_than, remaining, text_view, Entity};
use crate::text::{decimal, format_decimal};
use vstd::prelude::*;

verus! {

/// One stored object with its expiry, its pending wake-up and its observers.
///
/// The host serialises all operations on one entity. Each operation changes
/// this state and appends to `out` the commands that make the host's storage,
/// timer and connections follow.
pub struct FileShare {
    content: Option<Vec<u8>>,
    expire_at: Option<u64>,
    key: Option<String>,
    alarm: Option<u64>,
    observers: Vec<u64>,
}

impl View for FileShare {
    type V = Entity;

    closed spec fn view(&self) -> Entity {
        Entity {
            content: bytes_view(self.content),
            expire_at: self.expire_at,
            key: text_view(self.key),
            alarm: self.alarm,
            observers: self.observers@,
        }
    }
}

/// The whole seconds in a time that the host counts in milliseconds; zero
/// for a time before the epoch.
pub fn seconds_of(millis: i64) -> (seconds: u64)
    ensures
        seconds == (if millis < 0 {
            0
        } else {
            millis / 1000
        }),
{
    if millis < 0 {
        0
    } else {
        (millis / 1000) as u64
    }
}

/// A copy of `bytes`.
fn copy_bytes(bytes: &Vec<u8>) -> (copy: Vec<u8>)
    ensures
        copy@ == bytes@,
{
    let mut copy: Vec<u8> = Vec::new();
    let mut i: usize = 0;
    while i < bytes.len()
        invariant
            i <= bytes.len(),
            copy@ == bytes@.take(i as int),
        decreases bytes.len() - i,
    {
        copy.push(bytes[i]);
        i += 1;
    }
    copy
}

impl FileShare {
    /// The entity before its first store.
    pub fn new() -> (share: FileShare)
        ensures
            share@ == Entity::empty(),
    {
        FileShare { content: None, expire_at: None, key: None, alarm: None, observers: Vec::new() }
    }

    /// The entity as the host holds it: the durable fields, the time of the
    /// pending wake-up and the connections that are attached.
    pub fn restore(
        content: Option<Vec<u8>>,
        expire_at: Option<u64>,
        key: Option<String>,
        alarm: Option<u64>,
        observers: Vec<u64>,
    ) -> (share: FileShare)
        ensures
            share@.content == bytes_view(content),
            share@.expire_at == expire_at,
            share@.key == text_view(key),
            share@.alarm == alarm,
            share@.observers == observers@,
    {
        FileShare { content, expire_at, key, alarm, observers }
    }

    /// The stored payload; `NotFound` when there is none.
    pub fn content(&self) -> (r: Result<&Vec<u8>, ShareError>)
        ensures
            match r {
                Ok(c) => self@.content == Some(c@),
                Err(e) => self@.content is None && e == ShareError::NotFound,
            },
    {
        match &self.content {
            Some(c) => Ok(c),
            None => Err(ShareError::NotFound),
        }
    }

    /// The expiry on record; `NotFound` when there is none.
    pub fn get_expiry(&self) -> (r: Result<u64, ShareError>)
        ensures
            match r {
                Ok(e) => self@.expire_at == Some(e),
                Err(e) => self@.expire_at is None && e == ShareError::NotFound,
            },
    {
        match self.expire_at {
            Some(e) => Ok(e),
            None => Err(ShareError::NotFound),
        }
    }

    /// The owner tag on record; `NotFound` when there is none.
    pub fn get_owner(&self) -> (r: Result<&String, ShareError>)
        ensures
            match r {
                Ok(k) => self@.key == Some(k@),
                Err(e) => self@.key is None && e == ShareError::NotFound,
            },
    {
        match &self.key {
            Some(k) => Ok(k),
            None => Err(ShareError::NotFound),
        }
    }

    /// The time at which the pending wake-up fires; `None` when none is pending.
    pub fn pending_alarm(&self) -> (r: Option<u64>)
        ensures
            r == self@.alarm,
    {
        self.alarm
    }

    /// The attached observers, in the order of attachment.
    pub fn observers(&self) -> (r: &Vec<u64>)
        ensures
            r@ == self@.observers,
    {
        &self.observers
    }

    /// Stores the payload in place of any earlier one.
    pub fn set_data(&mut self, content: Vec<u8>, out: &mut Vec<Effect>)
        ensures
            final(self)@ == old(self)@.set_data(content@),
            final(out)@ == old(out)@.push(Effect::Put(Field::Content)),
    {
        self.content = Some(content);
        out.push(Effect::Put(Field::Content));
    }

    /// Sets the expiry to `ttl` seconds after `now`.
    pub fn set_ttl(&mut self, now: u64, ttl: u32, out: &mut Vec<Effect>)
        ensures
            final(self)@ == old(self)@.set_ttl(now, ttl),
            final(out)@ == old(out)@.push(Effect::Put(Field::ExpireAt)),
    {
        self.expire_at = Some(now.saturating_add(ttl as u64));
        out.push(Effect::Put(Field::ExpireAt));
    }

    /// Records the owner tag, where the caller supplied one.
    pub fn set_key(&mut self, key: Option<String>, out: &mut Vec<Effect>)
        ensures
            final(self)@ == old(self)@.set_key(text_view(key)),
            final(out)@ == (if key is Some {
                old(out)@.push(Effect::Put(Field::Key))
            } else {
                old(out)@
            }),
    {
        match key {
            Some(v) => {
                self.key = Some(v);
                out.push(Effect::Put(Field::Key));
            },
            None => {},
        }
    }

    /// Arms the wake-up for the expiry on record unless one is pending
    /// already. `NotFound` when none is pending and no expiry is on record.
    pub fn set_alarm(&mut self, now: u64, out: &mut Vec<Effect>) -> (r: Result<(), ShareError>)
        ensures
            final(self)@ == old(self)@.set_alarm(now),
            final(out)@ == old(out)@ + old(self)@.set_alarm_effects(now),
            r is Err <==> old(self)@.alarm is None && old(self)@.expire_at is None,
            r is Err ==> r == Err::<(), ShareError>(ShareError::NotFound),
    {
        match self.alarm {
            Some(_) => {
                Ok(())
            },
            None => self.force_set_alarm(now, out),
        }
    }

    /// Moves the wake-up to the expiry on record, where that lies after `now`,
    /// in place of any wake-up armed before, and pushes the expiry to every
    /// observer. `NotFound`, with nothing done, when no expiry is on record.
    pub fn force_set_alarm(&mut self, now: u64, out: &mut Vec<Effect>) -> (r: Result<
        (),
        ShareError,
    >)
        ensures
            final(self)@ == old(self)@.force_set_alarm(now),
            final(out)@ == old(out)@ + old(self)@.force_set_alarm_effects(now),
            r is Err <==> old(self)@.expire_at is None,
            r is Err ==> r == Err::<(), ShareError>(ShareError::NotFound),
    {
        let expire_at = match self.expire_at {
            Some(e) => e,
            None => {
                return Err(ShareError::NotFound);
            },
        };
        if now < expire_at {
            self.alarm = Some(expire_at);
            out.push(Effect::SetAlarm { delay: expire_at - now });
        }
        post_websockets(&self.observers, expire_at, out);
        Ok(())
    }

    /// Stores a payload for `ttl` seconds from `now`: payload and expiry are
    /// written, the wake-up is armed unless one is pending, and the owner tag
    /// is recorded where one came.
    pub fn store(
        &mut self,
        content: Vec<u8>,
        key: Option<String>,
        now: u64,
        ttl: u32,
        out: &mut Vec<Effect>,
    )
        ensures
            final(self)@ == old(self)@.store(content@, text_view(key), now, ttl),
            final(out)@ == old(out)@ + old(self)@.store_effects(text_view(key), now, ttl),
    {
        self.set_data(content, out);
        self.set_ttl(now, ttl, out);
        let _ = self.set_alarm(now, out);
        self.set_key(key, out);
        assert(out@ =~= old(out)@ + old(self)@.store_effects(text_view(key), now, ttl));
    }

    /// Renews the entity for `ttl` seconds from `now`: the expiry is written,
    /// the wake-up is moved to it, and every observer is told.
    pub fn renew(&mut self, now: u64, ttl: u32, out: &mut Vec<Effect>)
        ensures
            final(self)@ == old(self)@.renew(now, ttl),
            final(out)@ == old(out)@ + old(self)@.renew_effects(now, ttl),
    {
        self.set_ttl(now, ttl, out);
        let _ = self.force_set_alarm(now, out);
        assert(out@ =~= old(out)@ + old(self)@.renew_effects(now, ttl));
    }

    /// Disconnects every observer with the closure code of a purge.
    pub fn close_all(&mut self, out: &mut Vec<Effect>)
        ensures
            final(self)@ == old(self)@.close_all(),
            final(out)@ == old(out)@ + closing(old(self)@.observers),
    {
        close_websockets(&self.observers, out);
        self.observers = Vec::new();
    }

    /// Erases every durable field: payload, expiry and owner tag.
    pub fn delete_all(&mut self, out: &mut Vec<Effect>)
        ensures
            final(self)@ == old(self)@.delete_all(),
            final(out)@ == old(out)@.push(Effect::DeleteAll),
    {
        self.content = None;
        self.expire_at = None;
        self.key = None;
        out.push(Effect::DeleteAll);
    }

    /// The wake-up fired: every observer is closed and the entity is purged.
    /// No wake-up is pending afterwards.
    pub fn alarm(&mut self, out: &mut Vec<Effect>)
        ensures
            final(self)@ == Entity::empty(),
            final(out)@ == old(out)@ + old(self)@.alarm_effects(),
    {
        self.close_all(out);
        self.delete_all(out);
        self.alarm = None;
    }

    /// Explicit delete: every observer is closed, the entity is purged and a
    /// pending wake-up is cancelled.
    pub fn delete(&mut self, out: &mut Vec<Effect>)
        ensures
            final(self)@ == Entity::empty(),
            final(out)@ == old(out)@ + old(self)@.delete_effects(),
    {
        self.close_all(out);
        self.delete_all(out);
        if self.alarm.is_some() {
            self.alarm = None;
            out.push(Effect::DeleteAlarm);
        }
    }

    /// The seconds until the pending wake-up, or `None` when none is pending.
    pub fn is_active(&self, now: u64) -> (r: Option<u64>)
        ensures
            r == (match self@.alarm {
                Some(a) => Some(remaining(a, now)),
                None => None,
            }),
    {
        match self.alarm {
            Some(a) => Some(if now < a {
                a - now
            } else {
                0
            }),
            None => None,
        }
    }

    /// A copy of the stored payload; `NotFound` when there is none.
    pub fn get_data(&self) -> (r: Result<Vec<u8>, ShareError>)
        ensures
            match r {
                Ok(c) => self@.content == Some(c@),
                Err(e) => self@.content is None && e == ShareError::NotFound,
            },
    {
        match &self.content {
            Some(c) => Ok(copy_bytes(c)),
            None => Err(ShareError::NotFound),
        }
    }

    /// Attaches `observer` and pushes the expiry to it, after arming the
    /// wake-up again where none is pending. `Rejected`, with nothing done, when
    /// the entity has no live expiry at `now`.
    pub fn subscribe(&mut self, observer: u64, now: u64, out: &mut Vec<Effect>) -> (r: Result<
        (),
        ShareError,
    >)
        ensures
            final(self)@ == old(self)@.subscribe(observer, now),
            final(out)@ == old(out)@ + old(self)@.subscribe_effects(observer, now),
            r is Err <==> old(self)@.live_expiry(now) is None,
            r is Err ==> r == Err::<(), ShareError>(ShareError::Rejected),
    {
        let expire_at = match self.expire_at {
            Some(e) => e,
            None => {
                return Err(ShareError::Rejected);
            },
        };
        if self.alarm.is_none() {
            if now >= expire_at {
                return Err(ShareError::Rejected);
            }
            let _ = self.force_set_alarm(now, out);
        }
        self.observers.push(observer);
        out.push(Effect::Accept { observer });
        out.push(Effect::Send { observer, expire_at });
        Ok(())
    }

    /// Answers a message from `observer` with the expiry on record.
    /// `NotFound`, with nothing sent, when there is none.
    pub fn websocket_message(&self, observer: u64, out: &mut Vec<Effect>) -> (r: Result<
        (),
        ShareError,
    >)
        ensures
            final(out)@ == old(out)@ + self@.message_effects(observer),
            r is Err <==> self@.expire_at is None,
            r is Err ==> r == Err::<(), ShareError>(ShareError::NotFound),
    {
        match self.expire_at {
            Some(e) => {
                out.push(Effect::Send { observer, expire_at: e });
                Ok(())
            },
            None => Err(ShareError::NotFound),
        }
    }

    /// The connection of `observer` went away: it is detached.
    pub fn websocket_close(&mut self, observer: u64)
        ensures
            final(self)@ == old(self)@.websocket_close(observer),
    {
        let ghost keep = other_than(observer);
        let mut kept: Vec<u64> = Vec::new();
        let mut i: usize = 0;
        while i < self.observers.len()
            invariant
                i <= self.observers.len(),
                keep == other_than(observer),
                kept@ == self.observers@.take(i as int).filter(keep),
            decreases self.observers.len() - i,
        {
            let o = self.observers[i];
            proof {
                reveal(Seq::filter);
                assert(self.observers@.take(i + 1).drop_last() =~= self.observers@.take(i as int));
            }
            if o != observer {
                kept.push(o);
            }
            i += 1;
        }
        assert(self.observers@.take(self.observers.len() as int) =~= self.observers@);
        self.observers = kept;
    }

    /// The text that tells an observer the expiry: its decimal numeral.
    /// `NotFound` when no expiry is on record.
    pub fn get_websocket_message(&self) -> (r: Result<String, ShareError>)
        ensures
            match r {
                Ok(text) => self@.expire_at matches Some(e) && text@ == decimal(e as nat),
                Err(e) => self@.expire_at is None && e == ShareError::NotFound,
            },
    {
        match self.expire_at {
            Some(e) => Ok(format_decimal(e)),
            None => Err(ShareError::NotFound),
        }
    }

    /// The name under which the entity is known: the name by which the host
    /// addressed it, else the owner tag on record, else `"null"`.
    pub fn get_fully_qualified_id(&self, name: Option<String>) -> (id: String)
        ensures
            id@ == (match name {
                Some(v) => v@,
                None => match self@.key {
                    Some(k) => k,
                    None => "null"@,
                },
            }),
    {
        match name {
            Some(v) => v,
            None => match &self.key {
                Some(k) => k.clone(),
                None => String::from_str("null"),
            },
        }
    }
}

} // verus!
