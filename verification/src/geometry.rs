//! Window handles and the two coordinate spaces of a pointer position.

use vstd::prelude::*;

verus! {

/// The native handle of a window.
#[derive(Clone, Copy, Debug, PartialEq, Eq, Structural)]
pub struct WindowHandle(pub isize);

/// A point in screen space, as the windowing system reports pointer
/// positions during a drag.
#[derive(Clone, Copy, Debug, PartialEq, Eq, Structural)]
pub struct ScreenPoint {
    pub x: i32,
    pub y: i32,
}

/// A point in the client space of one window, as the engine's drop target
/// expects it.
#[derive(Clone, Copy, Debug, PartialEq, Eq, Structural)]
pub struct ClientPoint {
    pub x: i32,
    pub y: i32,
}

/// The client-space point that stands for `point`, given what the windowing
/// system answered when asked to translate it: its answer where it gave one,
/// the coordinates unchanged where the translation failed.
pub open spec fn client_point(point: ScreenPoint, translated: Option<ClientPoint>) -> ClientPoint {
    match translated {
        Some(client) => client,
        None => ClientPoint { x: point.x, y: point.y },
    }
}

/// Translates a screen-space point into client space.
///
/// `translated` is the answer of the windowing system for `point` and the
/// target window, `None` if it reported a failure. The result is a function
/// of these two values alone: a failed translation leaves the coordinates as
/// they were, and nothing of an earlier call is kept.
pub fn to_client(point: ScreenPoint, translated: Option<ClientPoint>) -> (client: ClientPoint)
    ensures
        client == client_point(point, translated),
{
    match translated {
        Some(client) => client,
        None => ClientPoint { x: point.x, y: point.y },
    }
}

} // verus!
