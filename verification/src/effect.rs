//! What an operation hands to the host: the commands to carry out, in their
//! order, and the constants that go with them.

use vstd::prelude::*;

verus! {

/// The time to live of a stored entity, in seconds.
pub const STORAGE_DURATION: u32 = 300;

/// The closure code with which observers are disconnected on purge.
pub const CLOSE_CODE: u16 = 1000;

/// The reason that goes with the closure code.
pub const CLOSE_REASON: &'static str = "EoL of Durable Object";

/// A durable field of an entity.
#[derive(Clone, Copy, Debug, PartialEq, Eq, Structural)]
pub enum Field {
    /// The stored payload.
    Content,
    /// The time after which the entity is purged.
    ExpireAt,
    /// The owner tag.
    Key,
}

/// A command for the host. An operation appends its commands in the order in
/// which the host is to carry them out.
#[derive(Clone, Copy, Debug, PartialEq, Eq, Structural)]
pub enum Effect {
    /// Write the entity's value of this field to durable storage.
    Put(Field),
    /// Erase every durable field.
    DeleteAll,
    /// Arm the wake-up timer to fire after `delay` seconds, in place of any
    /// timer armed before.
    SetAlarm { delay: u64 },
    /// Cancel the wake-up timer.
    DeleteAlarm,
    /// Attach a new observer connection.
    Accept { observer: u64 },
    /// Push an expiry time to one observer; delivery is best effort.
    Send { observer: u64, expire_at: u64 },
    /// Disconnect one observer with a closure code; best effort.
    Close { observer: u64, code: u16 },
}

/// Why an operation did not yield a value.
#[derive(Clone, Copy, Debug, PartialEq, Eq, Structural)]
pub enum ShareError {
    /// The entity holds nothing of what was asked for.
    NotFound,
    /// The entity has no live expiry to observe.
    Rejected,
}

/// One push of `expire_at` for each observer, in the order of attachment.
pub open spec fn broadcast(observers: Seq<u64>, expire_at: u64) -> Seq<Effect> {
    Seq::new(
        observers.len(),
        |i: int| (Effect::Send { observer: observers[i], expire_at: expire_at }),
    )
}

/// One closure for each observer, in the order of attachment.
pub open spec fn closing(observers: Seq<u64>) -> Seq<Effect> {
    Seq::new(observers.len(), |i: int| (Effect::Close { observer: observers[i], code: CLOSE_CODE }))
}

/// Pushes `message`, an expiry time, to every observer in `wss`.
pub fn post_websockets(wss: &Vec<u64>, message: u64, out: &mut Vec<Effect>)
    ensures
        final(out)@ == old(out)@ + broadcast(wss@, message),
{
    let ghost before = out@;
    let mut i: usize = 0;
    while i < wss.len()
        invariant
            i <= wss.len(),
            out@.len() == before.len() + i,
            forall|j: int| 0 <= j < before.len() ==> out@[j] == before[j],
            forall|j: int|
                0 <= j < i ==> out@[before.len() + j] == (Effect::Send {
                    observer: wss@[j],
                    expire_at: message,
                }),
        decreases wss.len() - i,
    {
        out.push(Effect::Send { observer: wss[i], expire_at: message });
        i += 1;
    }
}

/// Disconnects every observer in `wss` with the closure code of a purge.
pub fn close_websockets(wss: &Vec<u64>, out: &mut Vec<Effect>)
    ensures
        final(out)@ == old(out)@ + closing(wss@),
{
    let ghost before = out@;
    let mut i: usize = 0;
    while i < wss.len()
        invariant
            i <= wss.len(),
            out@.len() == before.len() + i,
            forall|j: int| 0 <= j < before.len() ==> out@[j] == before[j],
            forall|j: int|
                0 <= j < i ==> out@[before.len() + j] == (Effect::Close {
                    observer: wss@[j],
                    code: CLOSE_CODE,
                }),
        decreases wss.len() - i,
    {
        out.push(Effect::Close { observer: wss[i], code: CLOSE_CODE });
        i += 1;
    }
}

} // verus!
