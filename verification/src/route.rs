//! The caller-facing tier's routes: which identifier a request path carries
//! and whether a request asks for a connection upgrade.

use crate::ident::{strip, stripped, without_prefix};
use crate::text::str_eq;
use vstd::prelude::*;

verus! {

/// A route of the caller-facing tier.
#[derive(Clone, Copy, Debug, PartialEq, Eq, Structural)]
pub enum Route {
    /// `/upload/{namespace}`: claim a slot in the namespace and store under it.
    Upload,
    /// `/download/{composite key}`: fetch the payload.
    Download,
    /// `/websocket/{composite key}`: subscribe to the expiry.
    Websocket,
}

/// The prefixes that a route's path carries before the identifier.
pub open spec fn prefixes(route: Route) -> Seq<&'static str> {
    match route {
        Route::Upload => seq!["/upload", "/"],
        Route::Download => seq!["/download", "/"],
        Route::Websocket => seq!["/websocket", "/"],
    }
}

impl Route {
    /// The identifier in a request path of this route: the namespace of an
    /// upload, the composite key of a download or a subscription.
    pub fn target(&self, path: &String) -> (id: String)
        ensures
            id@ == stripped(path@, prefixes(*self)),
    {
        let part: Vec<&str> = match self {
            Route::Upload => vec!["/upload", "/"],
            Route::Download => vec!["/download", "/"],
            Route::Websocket => vec!["/websocket", "/"],
        };
        strip(path, part)
    }
}

/// The request path of a route for an identifier.
pub open spec fn path_for(route: Route, id: Seq<char>) -> Seq<char> {
    prefixes(route)[0]@ + prefixes(route)[1]@ + id
}

/// A request path gives back the identifier that it was made for, whatever
/// the identifier holds.
pub proof fn lemma_target_of_path(route: Route, id: Seq<char>)
    ensures
        stripped(path_for(route, id), prefixes(route)) == id,
{
    let parts = prefixes(route);
    let path = path_for(route, id);
    let first = parts[0]@;
    let second = parts[1]@;
    reveal_with_fuel(stripped, 3);
    assert(parts.drop_last().drop_last() =~= Seq::<&'static str>::empty());
    assert(parts.drop_last().last() == parts[0] && parts.last() == parts[1]);
    assert(first =~= path.subrange(0, first.len() as int));
    let rest = without_prefix(path, first);
    assert(rest =~= second + id);
    assert(second =~= rest.subrange(0, second.len() as int));
    assert(without_prefix(rest, second) =~= id);
}

/// Whether the `Upgrade` header of a request asks for a websocket.
pub fn wants_websocket(upgrade: Option<String>) -> (wanted: bool)
    ensures
        wanted == (upgrade matches Some(v) && v@ == "websocket"@),
{
    match upgrade {
        Some(v) => str_eq(v.as_str(), "websocket"),
        None => false,
    }
}

} // verus!
