//! The entity actor: one request at a time, from the state before it to the
//! state after it, the host's commands and the reply.

use crate::claim::{liveness_text, liveness_text_of};
use crate::effect::{Effect, STORAGE_DURATION};
use crate::model::{remaining, text_view, Entity};
use crate::share::FileShare;
use crate::text::str_eq;
use vstd::prelude::*;

verus! {

/// The operations that an entity serves, by the path that names each.
#[derive(Clone, Copy, Debug, PartialEq, Eq, Structural)]
pub enum Operation {
    /// `/set_data`: store a payload.
    SetData,
    /// `/delete`: purge the entity.
    Delete,
    /// `/update_ttl`: renew the expiry.
    UpdateTtl,
    /// `/is_active`: probe for liveness.
    IsActive,
    /// `/get_data`: fetch the payload.
    GetData,
    /// `/websocket`: subscribe an observer.
    Websocket,
    /// Any other path.
    Other,
}

/// A request to an entity, with what its operation reads.
#[derive(Debug, PartialEq, Eq)]
pub enum Request {
    /// Store `content`, with the owner tag `key` where the caller sent one.
    SetData { content: Vec<u8>, key: Option<String> },
    /// Purge the entity.
    Delete,
    /// Renew the expiry.
    UpdateTtl,
    /// Probe for liveness.
    IsActive,
    /// Fetch the payload.
    GetData,
    /// Subscribe the connection `observer`.
    Websocket { observer: u64 },
    /// Anything else: answered, with nothing done.
    Other,
}

/// A request as the contracts see it.
pub enum RequestView {
    SetData { content: Seq<u8>, key: Option<Seq<char>> },
    Delete,
    UpdateTtl,
    IsActive,
    GetData,
    Websocket { observer: u64 },
    Other,
}

impl View for Request {
    type V = RequestView;

    open spec fn view(&self) -> RequestView {
        match *self {
            Request::SetData { content, key } => RequestView::SetData {
                content: content@,
                key: text_view(key),
            },
            Request::Delete => RequestView::Delete,
            Request::UpdateTtl => RequestView::UpdateTtl,
            Request::IsActive => RequestView::IsActive,
            Request::GetData => RequestView::GetData,
            Request::Websocket { observer } => RequestView::Websocket { observer },
            Request::Other => RequestView::Other,
        }
    }
}

/// The reply to a request.
#[derive(Debug, PartialEq, Eq)]
pub enum Reply {
    /// The operation was carried out.
    Done,
    /// The stored payload.
    Content(Vec<u8>),
    /// There is no payload.
    NotFound,
    /// A wake-up is pending, due in so many seconds.
    Active(u64),
    /// No wake-up is pending: the slot is claimable.
    Inactive,
    /// The observer was attached.
    Websocket,
    /// The entity has no live expiry to observe.
    Rejected,
}

/// A reply as the contracts see it.
pub enum ReplyView {
    Done,
    Content(Seq<u8>),
    NotFound,
    Active(u64),
    Inactive,
    Websocket,
    Rejected,
}

impl View for Reply {
    type V = ReplyView;

    open spec fn view(&self) -> ReplyView {
        match *self {
            Reply::Done => ReplyView::Done,
            Reply::Content(c) => ReplyView::Content(c@),
            Reply::NotFound => ReplyView::NotFound,
            Reply::Active(r) => ReplyView::Active(r),
            Reply::Inactive => ReplyView::Inactive,
            Reply::Websocket => ReplyView::Websocket,
            Reply::Rejected => ReplyView::Rejected,
        }
    }
}

impl ReplyView {
    /// The status code that goes with the reply.
    pub open spec fn status(self) -> u16 {
        match self {
            ReplyView::NotFound | ReplyView::Rejected => 404,
            ReplyView::Websocket => 101,
            _ => 200,
        }
    }

    /// The text of the reply's body; `None` where the body is the payload or
    /// the reply hands over a connection.
    pub open spec fn text(self) -> Option<Seq<char>> {
        match self {
            ReplyView::Done => Some("ok"@),
            ReplyView::NotFound => Some(""@),
            ReplyView::Active(r) => Some(liveness_text_of(Some(r))),
            ReplyView::Inactive => Some(liveness_text_of(None)),
            ReplyView::Rejected => Some("Not found"@),
            ReplyView::Content(_) | ReplyView::Websocket => None,
        }
    }
}

impl Reply {
    /// The status code that goes with the reply.
    pub fn status(&self) -> (code: u16)
        ensures
            code == self@.status(),
    {
        match self {
            Reply::NotFound | Reply::Rejected => 404,
            Reply::Websocket => 101,
            _ => 200,
        }
    }

    /// The text of the reply's body, where it has one.
    pub fn text(&self) -> (body: Option<String>)
        ensures
            text_view(body) == self@.text(),
    {
        match self {
            Reply::Done => Some(String::from_str("ok")),
            Reply::NotFound => Some(String::from_str("")),
            Reply::Active(r) => Some(liveness_text(Some(*r))),
            Reply::Inactive => Some(liveness_text(None)),
            Reply::Rejected => Some(String::from_str("Not found")),
            Reply::Content(_) | Reply::Websocket => None,
        }
    }
}

/// The operation that a path names.
pub open spec fn operation_of(path: Seq<char>) -> Operation {
    if path == "/set_data"@ {
        Operation::SetData
    } else if path == "/delete"@ {
        Operation::Delete
    } else if path == "/update_ttl"@ {
        Operation::UpdateTtl
    } else if path == "/is_active"@ {
        Operation::IsActive
    } else if path == "/get_data"@ {
        Operation::GetData
    } else if path == "/websocket"@ {
        Operation::Websocket
    } else {
        Operation::Other
    }
}

/// The entity after a request was served at `now`.
pub open spec fn fetch_state(e: Entity, request: RequestView, now: u64) -> Entity {
    match request {
        RequestView::SetData { content, key } => e.store(content, key, now, STORAGE_DURATION),
        RequestView::Delete => Entity::empty(),
        RequestView::UpdateTtl => e.renew(now, STORAGE_DURATION),
        RequestView::Websocket { observer } => e.subscribe(observer, now),
        _ => e,
    }
}

/// The commands that serving a request at `now` hands to the host.
pub open spec fn fetch_effects(e: Entity, request: RequestView, now: u64) -> Seq<Effect> {
    match request {
        RequestView::SetData { content, key } => e.store_effects(key, now, STORAGE_DURATION),
        RequestView::Delete => e.delete_effects(),
        RequestView::UpdateTtl => e.renew_effects(now, STORAGE_DURATION),
        RequestView::Websocket { observer } => e.subscribe_effects(observer, now),
        _ => Seq::empty(),
    }
}

/// The reply to a request served at `now`.
pub open spec fn fetch_reply(e: Entity, request: RequestView, now: u64) -> ReplyView {
    match request {
        RequestView::IsActive => match e.alarm {
            Some(a) => ReplyView::Active(remaining(a, now)),
            None => ReplyView::Inactive,
        },
        RequestView::GetData => match e.content {
            Some(c) => ReplyView::Content(c),
            None => ReplyView::NotFound,
        },
        RequestView::Websocket { observer } => if e.live_expiry(now) is Some {
            ReplyView::Websocket
        } else {
            ReplyView::Rejected
        },
        _ => ReplyView::Done,
    }
}

/// The path that names an operation; the empty path for `Other`.
pub open spec fn path_of(op: Operation) -> Seq<char> {
    match op {
        Operation::SetData => "/set_data"@,
        Operation::Delete => "/delete"@,
        Operation::UpdateTtl => "/update_ttl"@,
        Operation::IsActive => "/is_active"@,
        Operation::GetData => "/get_data"@,
        Operation::Websocket => "/websocket"@,
        Operation::Other => Seq::empty(),
    }
}

/// Each operation is named by its own path, and by no other's.
pub proof fn lemma_path_names_operation(op: Operation)
    ensures
        operation_of(path_of(op)) == op,
{
    reveal_strlit("/set_data");
    reveal_strlit("/delete");
    reveal_strlit("/update_ttl");
    reveal_strlit("/is_active");
    reveal_strlit("/get_data");
    reveal_strlit("/websocket");
    assert("/delete"@.len() == 7 && "/update_ttl"@.len() == 11);
    assert("/set_data"@.len() == 9 && "/get_data"@.len() == 9);
    assert("/set_data"@[1] == 's' && "/get_data"@[1] == 'g');
    assert("/is_active"@.len() == 10 && "/websocket"@.len() == 10);
    assert("/is_active"@[1] == 'i' && "/websocket"@[1] == 'w');
}

impl Operation {
    /// The path under which the caller-facing tier asks for this operation.
    pub fn path(&self) -> (path: &'static str)
        ensures
            path@ == path_of(*self),
            operation_of(path@) == *self,
    {
        proof {
            reveal_strlit("");
            assert(""@ =~= Seq::<char>::empty());
            lemma_path_names_operation(*self);
        }
        match self {
            Operation::SetData => "/set_data",
            Operation::Delete => "/delete",
            Operation::UpdateTtl => "/update_ttl",
            Operation::IsActive => "/is_active",
            Operation::GetData => "/get_data",
            Operation::Websocket => "/websocket",
            Operation::Other => "",
        }
    }
}

/// Tells which operation a path names.
pub fn operation(path: &str) -> (op: Operation)
    ensures
        op == operation_of(path@),
{
    if str_eq(path, "/set_data") {
        Operation::SetData
    } else if str_eq(path, "/delete") {
        Operation::Delete
    } else if str_eq(path, "/update_ttl") {
        Operation::UpdateTtl
    } else if str_eq(path, "/is_active") {
        Operation::IsActive
    } else if str_eq(path, "/get_data") {
        Operation::GetData
    } else if str_eq(path, "/websocket") {
        Operation::Websocket
    } else {
        Operation::Other
    }
}

impl FileShare {
    /// Serves one request at `now`: changes the entity, appends the host's
    /// commands to `out` and returns the reply.
    pub fn fetch(&mut self, request: Request, now: u64, out: &mut Vec<Effect>) -> (reply: Reply)
        ensures
            final(self)@ == fetch_state(old(self)@, request@, now),
            final(out)@ == old(out)@ + fetch_effects(old(self)@, request@, now),
            reply@ == fetch_reply(old(self)@, request@, now),
    {
        match request {
            Request::SetData { content, key } => {
                self.store(content, key, now, STORAGE_DURATION, out);
                Reply::Done
            },
            Request::Delete => {
                self.delete(out);
                Reply::Done
            },
            Request::UpdateTtl => {
                self.renew(now, STORAGE_DURATION, out);
                Reply::Done
            },
            Request::IsActive => {
                match self.is_active(now) {
                    Some(v) => Reply::Active(v),
                    None => Reply::Inactive,
                }
            },
            Request::GetData => {
                match self.get_data() {
                    Ok(r) => Reply::Content(r),
                    Err(_) => Reply::NotFound,
                }
            },
            Request::Websocket { observer } => {
                match self.subscribe(observer, now, out) {
                    Ok(_) => Reply::Websocket,
                    Err(_) => Reply::Rejected,
                }
            },
            Request::Other => Reply::Done,
        }
    }
}

} // verus!
