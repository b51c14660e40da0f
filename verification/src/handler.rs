//! The drop interceptor: a tap on the drag notifications of one window.
//!
//! The windowing system delivers four notifications to a drop target: enter,
//! over, leave and drop. The interceptor shows the application what is being
//! dragged and then hands the notification on to the delegate, the drop
//! target of the embedded engine, so that the engine's own feedback keeps
//! working. It keeps nothing from one notification to the next.
//!
//! Each notification is a protocol of its own. A method of
//! [`FileDropHandler`] starts it and gives the first [`Action`]; the caller
//! performs each action and hands the [`Event`] that came of it to
//! [`DropCall::step`], until the action is [`Action::Return`].

use crate::event::{paths_view, FileDropEvent, FileDropEventView};
use crate::extract::{
    diagnose, initial, native_answer, pending, remaining, AnswerView, DataObject, Diagnostic,
    DropHandle, ExtractorView, PathExtractor, Query, QueryView,
};
use crate::extract::Answer;
use crate::geometry::{client_point, to_client, ClientPoint, ScreenPoint};
use crate::status::{StatusCode, DV_E_FORMATETC, S_OK};
use vstd::prelude::*;

verus! {

/// A drag notification, as the windowing system delivers it.
#[derive(Clone, Copy, Debug, PartialEq, Eq, Structural)]
pub enum Notification {
    /// The pointer entered the window.
    Enter {
        /// Whether a data-transfer object came with the notification.
        has_data: bool,
        /// The keys and buttons held.
        key_state: u32,
        /// Where the pointer is.
        point: ScreenPoint,
    },
    /// The pointer moved over the window.
    Over { key_state: u32, point: ScreenPoint },
    /// The pointer left the window, or the gesture was given up.
    Leave,
    /// The payload was dropped on the window.
    Drop { has_data: bool, key_state: u32, point: ScreenPoint },
}

/// A notification as the delegate receives it: the same call, with the point
/// in client space.
#[derive(Clone, Copy, Debug, PartialEq, Eq, Structural)]
pub enum Forward {
    Enter { key_state: u32, point: ClientPoint },
    Over { key_state: u32, point: ClientPoint },
    Leave,
    Drop { key_state: u32, point: ClientPoint },
}

/// Where the handling of one notification stands: the event it waits for.
#[derive(Clone, Copy, Debug, PartialEq, Eq, Structural)]
pub enum Stage {
    /// Waiting for an answer of the data-transfer object.
    Extracting,
    /// Waiting for the diagnostic to be reported.
    Reporting,
    /// Waiting for the application callback to return.
    Notifying,
    /// Waiting to learn whether the delegate could be reached.
    Acquiring,
    /// Waiting for the point in client space.
    Translating,
    /// Waiting for the delegate to return.
    Forwarding,
    /// The status for the windowing system has been given.
    Returned,
}

/// What the caller is to do next for a notification.
#[derive(Debug, PartialEq, Eq)]
pub enum Action {
    /// Put this query to the data-transfer object.
    Query(Query),
    /// Log why the object gave no list of files.
    Report(Diagnostic),
    /// Call the application callback with this event.
    Notify(FileDropEvent),
    /// Obtain the delegate from the engine's controller.
    AcquireDelegate,
    /// Have the windowing system translate this point into the client space
    /// of the interceptor's window.
    Translate(ScreenPoint),
    /// Make this call on the delegate, with the payload of the notification
    /// as it came.
    Forward(Forward),
    /// Return this status to the windowing system. The call is over.
    Return(StatusCode),
    /// The event just given was not the one awaited. It was dropped and the
    /// call stands where it stood.
    Unasked,
}

/// What came of an action.
#[derive(Debug, PartialEq, Eq)]
pub enum Event {
    /// The data-transfer object answered.
    Answer(Answer),
    /// The diagnostic was reported.
    Reported,
    /// The application callback returned this value.
    Notified(bool),
    /// Reaching the delegate ended with this status.
    Delegate(StatusCode),
    /// The windowing system translated the point, or failed to.
    Translated(Option<ClientPoint>),
    /// The delegate returned this status.
    Forwarded(StatusCode),
}

/// The mathematical value of an [`Action`].
pub enum ActionView {
    Query(QueryView),
    Report(Diagnostic),
    Notify(FileDropEventView),
    AcquireDelegate,
    Translate(ScreenPoint),
    Forward(Forward),
    Return(StatusCode),
    Unasked,
}

/// The mathematical value of an [`Event`].
pub enum EventView {
    Answer(AnswerView),
    Reported,
    Notified(bool),
    Delegate(StatusCode),
    Translated(Option<ClientPoint>),
    Forwarded(StatusCode),
}

impl View for Action {
    type V = ActionView;

    open spec fn view(&self) -> ActionView {
        match self {
            Action::Query(query) => ActionView::Query(query@),
            Action::Report(diagnostic) => ActionView::Report(*diagnostic),
            Action::Notify(event) => ActionView::Notify(event@),
            Action::AcquireDelegate => ActionView::AcquireDelegate,
            Action::Translate(point) => ActionView::Translate(*point),
            Action::Forward(call) => ActionView::Forward(*call),
            Action::Return(status) => ActionView::Return(*status),
            Action::Unasked => ActionView::Unasked,
        }
    }
}

impl View for Event {
    type V = EventView;

    open spec fn view(&self) -> EventView {
        match self {
            Event::Answer(answer) => EventView::Answer(answer@),
            Event::Reported => EventView::Reported,
            Event::Notified(verdict) => EventView::Notified(*verdict),
            Event::Delegate(status) => EventView::Delegate(*status),
            Event::Translated(point) => EventView::Translated(*point),
            Event::Forwarded(status) => EventView::Forwarded(*status),
        }
    }
}

/// The mathematical value of a [`DropCall`].
pub struct DropCallView {
    /// The notification being handled.
    pub notification: Notification,
    /// The event that the call waits for.
    pub stage: Stage,
    /// The extraction, while its result has not been announced.
    pub extractor: Option<ExtractorView>,
    /// The status given to the windowing system, once the call is over.
    pub status: StatusCode,
}

/// Whether a data-transfer object came with a notification.
pub open spec fn carries_data(n: Notification) -> bool {
    match n {
        Notification::Enter { has_data, .. } => has_data,
        Notification::Drop { has_data, .. } => has_data,
        _ => false,
    }
}

/// Whether a notification goes on to the delegate. All do but an enter or a
/// drop without a data-transfer object, which the delegate's call cannot do
/// without.
pub open spec fn forwards(n: Notification) -> bool {
    match n {
        Notification::Enter { has_data, .. } => has_data,
        Notification::Drop { has_data, .. } => has_data,
        Notification::Over { .. } => true,
        Notification::Leave => true,
    }
}

/// Whether the application hears of a notification. It does not hear of the
/// pointer moving.
pub open spec fn announces(n: Notification) -> bool {
    n !is Over
}

/// The pointer position that came with a notification.
pub open spec fn point_of(n: Notification) -> Option<ScreenPoint> {
    match n {
        Notification::Enter { point, .. } => Some(point),
        Notification::Over { point, .. } => Some(point),
        Notification::Drop { point, .. } => Some(point),
        Notification::Leave => None,
    }
}

/// The event that tells the application of a notification, given the paths
/// extracted for it.
pub open spec fn event_of(n: Notification, paths: Seq<Seq<u16>>) -> FileDropEventView {
    match n {
        Notification::Enter { .. } => FileDropEventView::Hovered(paths),
        Notification::Drop { .. } => FileDropEventView::Dropped(paths),
        _ => FileDropEventView::Cancelled,
    }
}

/// The call on the delegate that hands a notification on, given the point
/// in client space.
pub open spec fn forward_of(n: Notification, client: ClientPoint) -> Forward {
    match n {
        Notification::Enter { key_state, .. } => Forward::Enter { key_state, point: client },
        Notification::Over { key_state, .. } => Forward::Over { key_state, point: client },
        Notification::Drop { key_state, .. } => Forward::Drop { key_state, point: client },
        Notification::Leave => Forward::Leave,
    }
}

impl DropCallView {
    /// The states that the handling of a notification can be in.
    pub open spec fn wf(self) -> bool {
        match self.stage {
            Stage::Extracting => {
                &&& carries_data(self.notification)
                &&& self.extractor is Some
                &&& self.extractor.unwrap().wf()
                &&& self.extractor.unwrap().phase !is Done
            },
            Stage::Reporting => {
                &&& carries_data(self.notification)
                &&& self.extractor is Some
                &&& self.extractor.unwrap().wf()
                &&& self.extractor.unwrap().phase is Done
                &&& self.extractor.unwrap().diagnostic is Some
            },
            Stage::Notifying => self.extractor is None && announces(self.notification),
            Stage::Acquiring => self.extractor is None && forwards(self.notification),
            Stage::Translating => {
                &&& self.extractor is None
                &&& forwards(self.notification)
                &&& point_of(self.notification) is Some
            },
            Stage::Forwarding => self.extractor is None && forwards(self.notification),
            Stage::Returned => self.extractor is None,
        }
    }
}

/// The state and the first action for a notification.
///
/// With a data-transfer object, an enter or a drop starts by extracting its
/// paths. Without one there is nothing to extract and the application is
/// told at once, with no paths. A move goes straight to the delegate. A
/// leave is announced first.
pub open spec fn spec_begin(n: Notification) -> (DropCallView, ActionView) {
    let fresh = DropCallView {
        notification: n,
        stage: Stage::Returned,
        extractor: None,
        status: StatusCode(S_OK),
    };
    if carries_data(n) {
        (
            DropCallView { stage: Stage::Extracting, extractor: Some(initial()), ..fresh },
            ActionView::Query(pending(initial())),
        )
    } else if n is Over {
        (DropCallView { stage: Stage::Acquiring, ..fresh }, ActionView::AcquireDelegate)
    } else {
        (
            DropCallView { stage: Stage::Notifying, ..fresh },
            ActionView::Notify(event_of(n, Seq::empty())),
        )
    }
}

/// The state and the action once the call is over with `status`.
pub open spec fn conclude(s: DropCallView, status: StatusCode) -> (DropCallView, ActionView) {
    (
        DropCallView { stage: Stage::Returned, extractor: None, status, ..s },
        ActionView::Return(status),
    )
}

/// The state and the action once the paths are known: the application is
/// told.
pub open spec fn announce(s: DropCallView, paths: Seq<Seq<u16>>) -> (DropCallView, ActionView) {
    (
        DropCallView { stage: Stage::Notifying, extractor: None, ..s },
        ActionView::Notify(event_of(s.notification, paths)),
    )
}

/// One step of the handling of a notification: the next state and the next
/// action.
///
/// * While extracting, each answer goes to the extraction. When that is
///   done, a diagnostic, if there is one, is reported first.
/// * An object that failed for a reason that nobody expected ends the call
///   there: the status of that failure goes back to the windowing system as
///   it is, and neither the application nor the delegate is called.
/// * Otherwise the application is told of the paths: those of the file
///   list, or none where the payload is no list of files.
/// * When the callback has returned, whatever it returned, the notification
///   goes on to the delegate if it is one that does; if not, the call is
///   over with success.
/// * If the delegate cannot be reached, the call is over with the status of
///   that failure.
/// * A notification with a point has it translated before it goes on.
/// * The call is over with the status that the delegate returned.
///
/// An event that is not the awaited one is dropped.
pub open spec fn spec_step(s: DropCallView, event: EventView) -> (DropCallView, ActionView) {
    match (s.stage, event) {
        (Stage::Extracting, EventView::Answer(answer)) => {
            let (extractor, query) = crate::extract::spec_step(s.extractor.unwrap(), answer);
            if query is Unasked {
                (s, ActionView::Unasked)
            } else if extractor.phase !is Done {
                (DropCallView { extractor: Some(extractor), ..s }, ActionView::Query(query))
            } else if extractor.diagnostic is Some {
                (
                    DropCallView { stage: Stage::Reporting, extractor: Some(extractor), ..s },
                    ActionView::Report(extractor.diagnostic.unwrap()),
                )
            } else {
                announce(s, extractor.paths)
            }
        },
        (Stage::Reporting, EventView::Reported) => match s.extractor.unwrap().diagnostic {
            Some(Diagnostic::Unexpected(code)) => conclude(s, code),
            _ => announce(s, s.extractor.unwrap().paths),
        },
        (Stage::Notifying, EventView::Notified(_)) => {
            if forwards(s.notification) {
                (DropCallView { stage: Stage::Acquiring, ..s }, ActionView::AcquireDelegate)
            } else {
                conclude(s, StatusCode(S_OK))
            }
        },
        (Stage::Acquiring, EventView::Delegate(status)) => {
            if !status.succeeded() {
                conclude(s, status)
            } else {
                match point_of(s.notification) {
                    Some(point) => (
                        DropCallView { stage: Stage::Translating, ..s },
                        ActionView::Translate(point),
                    ),
                    None => (
                        DropCallView { stage: Stage::Forwarding, ..s },
                        ActionView::Forward(Forward::Leave),
                    ),
                }
            }
        },
        (Stage::Translating, EventView::Translated(translated)) => (
            DropCallView { stage: Stage::Forwarding, ..s },
            ActionView::Forward(
                forward_of(s.notification, client_point(point_of(s.notification).unwrap(), translated)),
            ),
        ),
        (Stage::Forwarding, EventView::Forwarded(status)) => conclude(s, status),
        _ => (s, ActionView::Unasked),
    }
}

/// The handling of one notification.
#[derive(Debug)]
pub struct DropCall {
    notification: Notification,
    stage: Stage,
    extractor: Option<PathExtractor>,
    status: StatusCode,
}

impl View for DropCall {
    type V = DropCallView;

    closed spec fn view(&self) -> DropCallView {
        DropCallView {
            notification: self.notification,
            stage: self.stage,
            extractor: match self.extractor {
                Some(extractor) => Some(extractor@),
                None => None,
            },
            status: self.status,
        }
    }
}

/// The event that tells the application of a notification.
pub fn event_for(notification: Notification, paths: Vec<Vec<u16>>) -> (event: FileDropEvent)
    ensures
        event@ == event_of(notification, paths_view(paths)),
{
    match notification {
        Notification::Enter { .. } => FileDropEvent::Hovered(paths),
        Notification::Drop { .. } => FileDropEvent::Dropped(paths),
        _ => FileDropEvent::Cancelled,
    }
}

/// The call on the delegate that hands a notification on.
pub fn forward_for(notification: Notification, client: ClientPoint) -> (call: Forward)
    ensures
        call == forward_of(notification, client),
{
    match notification {
        Notification::Enter { key_state, .. } => Forward::Enter { key_state, point: client },
        Notification::Over { key_state, .. } => Forward::Over { key_state, point: client },
        Notification::Drop { key_state, .. } => Forward::Drop { key_state, point: client },
        Notification::Leave => Forward::Leave,
    }
}

impl DropCall {
    #[verifier::type_invariant]
    spec fn inv(self) -> bool {
        self@.wf()
    }

    /// Starts the handling of a notification.
    pub fn begin(notification: Notification) -> (begun: (DropCall, Action))
        ensures
            begun.0@ == spec_begin(notification).0,
            begun.1@ == spec_begin(notification).1,
            begun.0@.wf(),
    {
        let has_data = match notification {
            Notification::Enter { has_data, .. } => has_data,
            Notification::Drop { has_data, .. } => has_data,
            _ => false,
        };
        let status = StatusCode::ok();
        if has_data {
            let (extractor, query) = PathExtractor::start();
            let call = DropCall {
                notification,
                stage: Stage::Extracting,
                extractor: Some(extractor),
                status,
            };
            (call, Action::Query(query))
        } else {
            match notification {
                Notification::Over { .. } => {
                    let call = DropCall {
                        notification,
                        stage: Stage::Acquiring,
                        extractor: None,
                        status,
                    };
                    (call, Action::AcquireDelegate)
                },
                _ => {
                    let call = DropCall {
                        notification,
                        stage: Stage::Notifying,
                        extractor: None,
                        status,
                    };
                    let paths: Vec<Vec<u16>> = Vec::new();
                    assert(paths_view(paths) =~= Seq::empty());
                    (call, Action::Notify(event_for(notification, paths)))
                },
            }
        }
    }

    /// The notification being handled.
    pub fn notification(&self) -> (notification: Notification)
        ensures
            notification == self@.notification,
    {
        self.notification
    }

    /// The event that the call waits for.
    pub fn stage(&self) -> (stage: Stage)
        ensures
            stage == self@.stage,
    {
        self.stage
    }

    /// The status for the windowing system, once the call is over.
    pub fn status(&self) -> (status: Option<StatusCode>)
        ensures
            status == (if self@.stage is Returned {
                Some(self@.status)
            } else {
                None
            }),
    {
        match self.stage {
            Stage::Returned => Some(self.status),
            _ => None,
        }
    }

    /// Takes what came of the last action and says what to do next.
    pub fn step(self, event: Event) -> (next: (DropCall, Action))
        ensures
            next.0@ == spec_step(self@, event@).0,
            next.1@ == spec_step(self@, event@).1,
            self@.wf(),
            next.0@.wf(),
    {
        proof {
            use_type_invariant(&self);
        }
        let DropCall { notification, stage, extractor, status } = self;
        match stage {
            Stage::Extracting => match (event, extractor) {
                (Event::Answer(answer), Some(extraction)) => {
                    let (extraction, query) = extraction.step(answer);
                    match query {
                        Query::Unasked => (
                            DropCall { notification, stage, extractor: Some(extraction), status },
                            Action::Unasked,
                        ),
                        Query::Done => match extraction.diagnostic() {
                            Some(diagnostic) => (
                                DropCall {
                                    notification,
                                    stage: Stage::Reporting,
                                    extractor: Some(extraction),
                                    status,
                                },
                                Action::Report(diagnostic),
                            ),
                            None => {
                                let found = extraction.finish();
                                (
                                    DropCall {
                                        notification,
                                        stage: Stage::Notifying,
                                        extractor: None,
                                        status,
                                    },
                                    Action::Notify(event_for(notification, found.paths)),
                                )
                            },
                        },
                        query => (
                            DropCall { notification, stage, extractor: Some(extraction), status },
                            Action::Query(query),
                        ),
                    }
                },
                (_, extractor) => (
                    DropCall { notification, stage, extractor, status },
                    Action::Unasked,
                ),
            },
            Stage::Reporting => match (event, extractor) {
                (Event::Reported, Some(extraction)) => match extraction.diagnostic() {
                    Some(Diagnostic::Unexpected(code)) => (
                        DropCall {
                            notification,
                            stage: Stage::Returned,
                            extractor: None,
                            status: code,
                        },
                        Action::Return(code),
                    ),
                    _ => {
                        let found = extraction.finish();
                        (
                            DropCall {
                                notification,
                                stage: Stage::Notifying,
                                extractor: None,
                                status,
                            },
                            Action::Notify(event_for(notification, found.paths)),
                        )
                    },
                },
                (_, extractor) => (
                    DropCall { notification, stage, extractor, status },
                    Action::Unasked,
                ),
            },
            Stage::Notifying => match event {
                Event::Notified(_) => {
                    let goes_on = match notification {
                        Notification::Enter { has_data, .. } => has_data,
                        Notification::Drop { has_data, .. } => has_data,
                        _ => true,
                    };
                    if goes_on {
                        (
                            DropCall { notification, stage: Stage::Acquiring, extractor: None, status },
                            Action::AcquireDelegate,
                        )
                    } else {
                        let done = StatusCode::ok();
                        (
                            DropCall {
                                notification,
                                stage: Stage::Returned,
                                extractor: None,
                                status: done,
                            },
                            Action::Return(done),
                        )
                    }
                },
                _ => (DropCall { notification, stage, extractor, status }, Action::Unasked),
            },
            Stage::Acquiring => match event {
                Event::Delegate(reached) => {
                    if reached.is_err() {
                        (
                            DropCall {
                                notification,
                                stage: Stage::Returned,
                                extractor: None,
                                status: reached,
                            },
                            Action::Return(reached),
                        )
                    } else {
                        let point = match notification {
                            Notification::Enter { point, .. } => Some(point),
                            Notification::Over { point, .. } => Some(point),
                            Notification::Drop { point, .. } => Some(point),
                            Notification::Leave => None,
                        };
                        match point {
                            Some(point) => (
                                DropCall {
                                    notification,
                                    stage: Stage::Translating,
                                    extractor: None,
                                    status,
                                },
                                Action::Translate(point),
                            ),
                            None => (
                                DropCall {
                                    notification,
                                    stage: Stage::Forwarding,
                                    extractor: None,
                                    status,
                                },
                                Action::Forward(Forward::Leave),
                            ),
                        }
                    }
                },
                _ => (DropCall { notification, stage, extractor, status }, Action::Unasked),
            },
            Stage::Translating => match event {
                Event::Translated(translated) => {
                    let point = match notification {
                        Notification::Enter { point, .. } => point,
                        Notification::Over { point, .. } => point,
                        Notification::Drop { point, .. } => point,
                        Notification::Leave => ScreenPoint { x: 0, y: 0 },
                    };
                    let client = to_client(point, translated);
                    (
                        DropCall { notification, stage: Stage::Forwarding, extractor: None, status },
                        Action::Forward(forward_for(notification, client)),
                    )
                },
                _ => (DropCall { notification, stage, extractor, status }, Action::Unasked),
            },
            Stage::Forwarding => match event {
                Event::Forwarded(returned) => (
                    DropCall {
                        notification,
                        stage: Stage::Returned,
                        extractor: None,
                        status: returned,
                    },
                    Action::Return(returned),
                ),
                _ => (DropCall { notification, stage, extractor, status }, Action::Unasked),
            },
            Stage::Returned => (
                DropCall { notification, stage, extractor, status },
                Action::Unasked,
            ),
        }
    }
}

/// An interceptor: the window it watches, the engine's controller that
/// leads to the delegate, and the application callback. It holds the three
/// for as long as it is registered, and nothing else.
pub struct FileDropHandler<W, C, L> {
    /// The window context that the callback is called with.
    pub window: W,
    /// The engine's controller, from which the delegate is obtained.
    pub controller: C,
    /// The application callback.
    pub listener: L,
}

impl<W, C, L> FileDropHandler<W, C, L> {
    /// Binds an interceptor to a window, a controller and a callback.
    pub fn new(window: W, controller: C, listener: L) -> (handler: Self)
        ensures
            handler.window == window,
            handler.controller == controller,
            handler.listener == listener,
    {
        FileDropHandler { window, controller, listener }
    }

    /// The pointer entered the window.
    pub fn drag_enter(&self, has_data: bool, key_state: u32, point: ScreenPoint) -> (begun: (
        DropCall,
        Action,
    ))
        ensures
            begun.0@ == spec_begin(Notification::Enter { has_data, key_state, point }).0,
            begun.1@ == spec_begin(Notification::Enter { has_data, key_state, point }).1,
            begun.0@.wf(),
    {
        DropCall::begin(Notification::Enter { has_data, key_state, point })
    }

    /// The pointer moved over the window.
    pub fn drag_over(&self, key_state: u32, point: ScreenPoint) -> (begun: (DropCall, Action))
        ensures
            begun.0@ == spec_begin(Notification::Over { key_state, point }).0,
            begun.1@ == spec_begin(Notification::Over { key_state, point }).1,
            begun.0@.wf(),
    {
        DropCall::begin(Notification::Over { key_state, point })
    }

    /// The pointer left the window.
    pub fn drag_leave(&self) -> (begun: (DropCall, Action))
        ensures
            begun.0@ == spec_begin(Notification::Leave).0,
            begun.1@ == spec_begin(Notification::Leave).1,
            begun.0@.wf(),
    {
        DropCall::begin(Notification::Leave)
    }

    /// The payload was dropped on the window.
    pub fn drop(&self, has_data: bool, key_state: u32, point: ScreenPoint) -> (begun: (
        DropCall,
        Action,
    ))
        ensures
            begun.0@ == spec_begin(Notification::Drop { has_data, key_state, point }).0,
            begun.1@ == spec_begin(Notification::Drop { has_data, key_state, point }).1,
            begun.0@.wf(),
    {
        DropCall::begin(Notification::Drop { has_data, key_state, point })
    }
}

/// One way in which everything outside the interceptor can behave during a
/// call.
pub struct Surroundings {
    /// The data-transfer object that came with the notification, if one did.
    pub data: DataObject,
    /// What the application callback returns.
    pub verdict: bool,
    /// The status with which the delegate is reached, or not.
    pub delegate: StatusCode,
    /// The translated point, unless the windowing system fails to give one.
    pub translated: Option<ClientPoint>,
    /// The status that the delegate returns.
    pub forwarded: StatusCode,
}

/// What comes of an action in given surroundings.
pub open spec fn outcome(around: Surroundings, action: ActionView) -> EventView {
    match action {
        ActionView::Query(query) => EventView::Answer(native_answer(around.data, query)),
        ActionView::Notify(_) => EventView::Notified(around.verdict),
        ActionView::AcquireDelegate => EventView::Delegate(around.delegate),
        ActionView::Translate(_) => EventView::Translated(around.translated),
        ActionView::Forward(_) => EventView::Forwarded(around.forwarded),
        _ => EventView::Reported,
    }
}

/// Whether `action` is what a call in state `s` has asked for.
pub open spec fn awaits(s: DropCallView, action: ActionView) -> bool {
    match s.stage {
        Stage::Extracting => action == ActionView::Query(pending(s.extractor.unwrap())),
        Stage::Reporting => action is Report,
        Stage::Notifying => action is Notify,
        Stage::Acquiring => action is AcquireDelegate,
        Stage::Translating => action is Translate,
        Stage::Forwarding => action is Forward,
        Stage::Returned => action is Return,
    }
}

/// How many events a call can still take, at most.
pub open spec fn events_left(s: DropCallView) -> nat {
    match s.stage {
        Stage::Extracting => remaining(s.extractor.unwrap()) + 6,
        Stage::Reporting => 5,
        Stage::Notifying => 4,
        Stage::Acquiring => 3,
        Stage::Translating => 2,
        Stage::Forwarding => 1,
        Stage::Returned => 0,
    }
}

/// What a call does to the world from state `s` on, where `action` is what
/// it has just asked for and every action has the outcome that the
/// surroundings give it: the actions in their order, after those in `done`.
/// The questions put to the data-transfer object are left out.
pub open spec fn effects(
    around: Surroundings,
    s: DropCallView,
    action: ActionView,
    done: Seq<ActionView>,
) -> Seq<ActionView>
    decreases events_left(s),
    when s.wf() && awaits(s, action)
{
    if action is Return {
        done.push(action)
    } else {
        let next = spec_step(s, outcome(around, action));
        effects(
            around,
            next.0,
            next.1,
            if action is Query {
                done
            } else {
                done.push(action)
            },
        )
    }
}

/// Everything that the handling of a notification does, in order, in given
/// surroundings.
pub open spec fn effects_of(around: Surroundings, n: Notification) -> Seq<ActionView> {
    effects(around, spec_begin(n).0, spec_begin(n).1, Seq::empty())
}

/// The paths that an extraction finds in a data-transfer object.
pub open spec fn paths_in(data: DataObject) -> Seq<Seq<u16>> {
    match data {
        DataObject::Files(_, files) => files,
        DataObject::Other(_) => Seq::empty(),
    }
}

/// A data-transfer object whose file list the native calls can convey: its
/// count and the length of each path with its terminator are 32-bit numbers.
pub open spec fn conveyable(data: DataObject) -> bool {
    match data {
        DataObject::Files(_, files) => {
            &&& files.len() <= u32::MAX
            &&& forall|i: int| 0 <= i < files.len() ==> (#[trigger] files[i]).len() < u32::MAX
        },
        DataObject::Other(_) => true,
    }
}

/// What handing a notification on comes to, from reaching the delegate to
/// the status returned.
pub open spec fn handing_on(around: Surroundings, n: Notification) -> Seq<ActionView> {
    if !around.delegate.succeeded() {
        seq![ActionView::AcquireDelegate, ActionView::Return(around.delegate)]
    } else {
        match point_of(n) {
            Some(point) => seq![
                ActionView::AcquireDelegate,
                ActionView::Translate(point),
                ActionView::Forward(forward_of(n, client_point(point, around.translated))),
                ActionView::Return(around.forwarded),
            ],
            None => seq![
                ActionView::AcquireDelegate,
                ActionView::Forward(Forward::Leave),
                ActionView::Return(around.forwarded),
            ],
        }
    }
}

/// Whether the data-transfer object that came with a notification fails
/// the call: if it declines the list of files for another reason than that
/// its payload is none.
pub open spec fn fails_the_call(around: Surroundings, n: Notification) -> bool {
    &&& carries_data(n)
    &&& around.data matches DataObject::Other(code)
    &&& code.0 != DV_E_FORMATETC
}

/// What the handling of a notification is to do, said outright.
///
/// * Where a data-transfer object came along that holds no list of files,
///   the reason is reported first.
/// * If the reason is a failure that nobody expected, the status of that
///   failure is returned as it is, and that is all.
/// * Otherwise, unless the pointer only moved, the application is told, with
///   the paths of the object where one came along, and with none otherwise.
/// * A notification that goes on to the delegate does so after that. If the
///   delegate is reached, it gets the call with the translated point and its
///   status is returned; if not, the status of that failure is returned.
/// * One that does not go on returns success.
pub open spec fn expected(around: Surroundings, n: Notification) -> Seq<ActionView> {
    let report: Seq<ActionView> = match around.data {
        DataObject::Other(code) if carries_data(n) => seq![ActionView::Report(diagnose(code))],
        _ => Seq::empty(),
    };
    let paths = if carries_data(n) {
        paths_in(around.data)
    } else {
        Seq::empty()
    };
    let notify: Seq<ActionView> = if announces(n) {
        seq![ActionView::Notify(event_of(n, paths))]
    } else {
        Seq::empty()
    };
    let rest: Seq<ActionView> = if forwards(n) {
        handing_on(around, n)
    } else {
        seq![ActionView::Return(StatusCode(S_OK))]
    };
    if fails_the_call(around, n) {
        report.push(ActionView::Return(around.data->Other_0))
    } else {
        report + notify + rest
    }
}

proof fn lemma_handing_on(around: Surroundings, s: DropCallView, done: Seq<ActionView>)
    requires
        s.wf(),
        s.stage is Acquiring,
    ensures
        effects(around, s, ActionView::AcquireDelegate, done) == done + handing_on(
            around,
            s.notification,
        ),
{
    let n = s.notification;
    let first = ActionView::AcquireDelegate;
    let s1 = spec_step(s, outcome(around, first));
    let d1 = done.push(first);
    assert(effects(around, s, first, done) == effects(around, s1.0, s1.1, d1));
    if !around.delegate.succeeded() {
        assert(effects(around, s1.0, s1.1, d1) == d1.push(s1.1));
        assert(d1.push(s1.1) =~= done + handing_on(around, n));
    } else {
        match point_of(n) {
            Some(point) => {
                let s2 = spec_step(s1.0, outcome(around, s1.1));
                let d2 = d1.push(s1.1);
                assert(effects(around, s1.0, s1.1, d1) == effects(around, s2.0, s2.1, d2));
                let s3 = spec_step(s2.0, outcome(around, s2.1));
                let d3 = d2.push(s2.1);
                assert(effects(around, s2.0, s2.1, d2) == effects(around, s3.0, s3.1, d3));
                assert(effects(around, s3.0, s3.1, d3) == d3.push(s3.1));
                assert(d3.push(s3.1) =~= done + handing_on(around, n));
            },
            None => {
                let s2 = spec_step(s1.0, outcome(around, s1.1));
                let d2 = d1.push(s1.1);
                assert(effects(around, s1.0, s1.1, d1) == effects(around, s2.0, s2.1, d2));
                assert(effects(around, s2.0, s2.1, d2) == d2.push(s2.1));
                assert(d2.push(s2.1) =~= done + handing_on(around, n));
            },
        }
    }
}

proof fn lemma_announcing(
    around: Surroundings,
    s: DropCallView,
    paths: Seq<Seq<u16>>,
    done: Seq<ActionView>,
)
    requires
        s.wf(),
        s.stage is Notifying,
    ensures
        effects(around, s, ActionView::Notify(event_of(s.notification, paths)), done) == done.push(
            ActionView::Notify(event_of(s.notification, paths)),
        ) + (if forwards(s.notification) {
            handing_on(around, s.notification)
        } else {
            seq![ActionView::Return(StatusCode(S_OK))]
        }),
{
    let n = s.notification;
    let first = ActionView::Notify(event_of(n, paths));
    let s1 = spec_step(s, outcome(around, first));
    let d1 = done.push(first);
    assert(effects(around, s, first, done) == effects(around, s1.0, s1.1, d1));
    if forwards(n) {
        lemma_handing_on(around, s1.0, d1);
    } else {
        assert(effects(around, s1.0, s1.1, d1) == d1.push(s1.1));
        assert(d1.push(s1.1) =~= d1 + seq![ActionView::Return(StatusCode(S_OK))]);
    }
}

proof fn lemma_extracting(
    around: Surroundings,
    handle: DropHandle,
    files: Seq<Seq<u16>>,
    s: DropCallView,
)
    requires
        around.data == DataObject::Files(handle, files),
        conveyable(around.data),
        s.wf(),
        s.stage is Extracting,
        crate::extract::in_step_with(s.extractor.unwrap(), handle, files),
    ensures
        effects(
            around,
            s,
            ActionView::Query(pending(s.extractor.unwrap())),
            Seq::empty(),
        ) == seq![ActionView::Notify(event_of(s.notification, files))] + handing_on(
            around,
            s.notification,
        ),
    decreases remaining(s.extractor.unwrap()),
{
    let before = s.extractor.unwrap();
    let asked = ActionView::Query(pending(before));
    let next = spec_step(s, outcome(around, asked));
    let none = Seq::<ActionView>::empty();
    assert(effects(around, s, asked, none) == effects(around, next.0, next.1, none));
    let answer = native_answer(around.data, pending(before));
    let after = crate::extract::spec_step(before, answer).0;
    crate::extract::answer_keeps_in_step(handle, files, before);
    if after.phase is Done {
        assert(files.take(files.len() as int) =~= files);
        assert(after.paths == files);
        lemma_announcing(around, next.0, files, none);
        assert(none.push(ActionView::Notify(event_of(s.notification, files)))
            =~= seq![ActionView::Notify(event_of(s.notification, files))]);
    } else {
        lemma_extracting(around, handle, files, next.0);
    }
}

/// The handling of a notification does what is expected of it and nothing
/// else, in that order, whatever the data-transfer object holds, whatever
/// the callback returns and however the delegate and the windowing system
/// answer.
pub proof fn handler_does_what_is_expected(around: Surroundings, n: Notification)
    requires
        carries_data(n) ==> conveyable(around.data),
    ensures
        effects_of(around, n) == expected(around, n),
{
    let begun = spec_begin(n);
    let none = Seq::<ActionView>::empty();
    if carries_data(n) {
        match around.data {
            DataObject::Files(handle, files) => {
                assert(files.take(0) =~= Seq::<Seq<u16>>::empty());
                lemma_extracting(around, handle, files, begun.0);
                assert(expected(around, n) =~= seq![ActionView::Notify(event_of(n, files))]
                    + handing_on(around, n));
            },
            DataObject::Other(code) => {
                let s1 = spec_step(begun.0, outcome(around, begun.1));
                assert(effects(around, begun.0, begun.1, none) == effects(
                    around,
                    s1.0,
                    s1.1,
                    none,
                ));
                let s2 = spec_step(s1.0, outcome(around, s1.1));
                let d2 = none.push(s1.1);
                assert(effects(around, s1.0, s1.1, none) == effects(around, s2.0, s2.1, d2));
                if code.0 != DV_E_FORMATETC {
                    assert(effects(around, s2.0, s2.1, d2) == d2.push(s2.1));
                    assert(expected(around, n) =~= d2.push(ActionView::Return(code)));
                } else {
                    lemma_announcing(around, s2.0, Seq::empty(), d2);
                    assert(expected(around, n) =~= d2.push(
                        ActionView::Notify(event_of(n, Seq::empty())),
                    ) + handing_on(around, n));
                }
            },
        }
    } else if n is Over {
        lemma_handing_on(around, begun.0, none);
        assert(expected(around, n) =~= none + handing_on(around, n));
    } else {
        lemma_announcing(around, begun.0, Seq::empty(), none);
        assert(expected(around, n) =~= none.push(ActionView::Notify(event_of(n, Seq::empty())))
            + (if forwards(n) {
            handing_on(around, n)
        } else {
            seq![ActionView::Return(StatusCode(S_OK))]
        }));
    }
}

/// A data-transfer object that declines the list of files for another
/// reason than that its payload is none fails the call: the failure is
/// reported and its status goes back to the windowing system as it is.
/// Neither the application nor the delegate is called, and no status of
/// theirs can take the place of the failure.
pub proof fn unexpected_failure_goes_back_as_it_is(around: Surroundings, n: Notification)
    requires
        fails_the_call(around, n),
    ensures
        effects_of(around, n) == seq![
            ActionView::Report(Diagnostic::Unexpected(around.data->Other_0)),
            ActionView::Return(around.data->Other_0),
        ],
{
    handler_does_what_is_expected(around, n);
    assert(expected(around, n) =~= seq![
        ActionView::Report(Diagnostic::Unexpected(around.data->Other_0)),
        ActionView::Return(around.data->Other_0),
    ]);
}

/// What the application callback returns changes nothing of what a call
/// does.
pub proof fn verdict_is_ignored(around: Surroundings, other: bool, n: Notification)
    requires
        carries_data(n) ==> conveyable(around.data),
    ensures
        effects_of(Surroundings { verdict: other, ..around }, n) == effects_of(around, n),
{
    handler_does_what_is_expected(around, n);
    handler_does_what_is_expected(Surroundings { verdict: other, ..around }, n);
}

/// The point that the delegate gets is a function of the point that came
/// with the notification and of what the windowing system answered for it.
/// Nothing that went before has a part in it.
pub proof fn translation_keeps_no_state(s: DropCallView, translated: Option<ClientPoint>)
    requires
        s.wf(),
        s.stage is Translating,
    ensures
        spec_step(s, EventView::Translated(translated)).1 == ActionView::Forward(
            forward_of(
                s.notification,
                client_point(point_of(s.notification).unwrap(), translated),
            ),
        ),
{
}

/// Whatever needs the data-transfer object is only asked for where one came
/// with the notification: a query to the object, and an enter or a drop on
/// the delegate.
pub proof fn the_object_is_there_when_needed(s: DropCallView, event: EventView)
    requires
        s.wf(),
    ensures
        spec_step(s, event).1 is Query ==> carries_data(s.notification),
        spec_step(s, event).1 matches ActionView::Forward(Forward::Enter { .. }) ==> carries_data(
            s.notification,
        ),
        spec_step(s, event).1 matches ActionView::Forward(Forward::Drop { .. }) ==> carries_data(
            s.notification,
        ),
        spec_begin(s.notification).1 is Query ==> carries_data(s.notification),
{
}

/// A step keeps a call among the states that it can be in.
pub proof fn step_keeps_wf(s: DropCallView, event: EventView)
    requires
        s.wf(),
    ensures
        spec_step(s, event).0.wf(),
{
}

} // verus!
