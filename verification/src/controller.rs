//! The drop controller: installing interceptors on the child windows of a
//! root window, and keeping them.
//!
//! The embedded engine creates the window it renders into by itself, so the
//! controller has the children of the root window enumerated and installs an
//! interceptor on each. Only the immediate children count: a window further
//! down that the enumeration reports is passed over. Installing is best
//! effort: a child that cannot take an interceptor is skipped and its
//! siblings are not affected.
//!
//! The controller is a protocol. [`FileDropController::listen`] starts an
//! installation; the caller performs each [`InstallAction`] and hands the
//! [`InstallEvent`] that came of it to [`FileDropController::step`], until
//! the action is [`InstallAction::Finished`].

use crate::geometry::WindowHandle;
use crate::status::{native_dragdrop_e_notregistered, StatusCode, DRAGDROP_E_NOTREGISTERED};
use vstd::prelude::*;

verus! {

/// Where a controller stands: the event it waits for.
#[derive(Clone, Copy, Debug, PartialEq, Eq, Structural)]
pub enum InstallStage {
    /// No installation is under way.
    Idle,
    /// Waiting for the next child window, or for the end of the enumeration.
    Enumerating,
    /// Waiting for the result of revoking what was registered on this child.
    Revoking(WindowHandle),
    /// Waiting for the result of registering an interceptor on this child.
    Registering(WindowHandle),
}

/// What the caller is to do next for an installation.
#[derive(Clone, Copy, Debug, PartialEq, Eq, Structural)]
pub enum InstallAction {
    /// Enumerate the windows below this window and report each with its
    /// parent.
    Enumerate(WindowHandle),
    /// Revoke whatever drop target is registered on this window.
    Revoke(WindowHandle),
    /// Make an interceptor and register it as the drop target of this
    /// window.
    Register(WindowHandle),
    /// This window is done, or is none of the immediate children; go on with
    /// the enumeration.
    Continue,
    /// This child cannot take an interceptor, for this status: log it and
    /// go on with the enumeration.
    Skip(StatusCode),
    /// The installation is complete.
    Finished,
    /// The event just given was not the one awaited. It was dropped, and so
    /// was an interceptor that came with it.
    Unasked,
}

impl InstallAction {
    /// What the visitor of the enumeration is to return when this action
    /// comes: nothing yet while a child is being dealt with, and after that
    /// always that the enumeration shall go on, whatever came of the child.
    pub open spec fn visit_result(self) -> Option<bool> {
        match self {
            InstallAction::Continue => Some(true),
            InstallAction::Skip(_) => Some(true),
            _ => None,
        }
    }

    /// What the visitor of the enumeration is to return when this action
    /// comes, if the visit of the child ends with it.
    pub fn ends_visit(self) -> (result: Option<bool>)
        ensures
            result == self.visit_result(),
    {
        match self {
            InstallAction::Continue => Some(true),
            InstallAction::Skip(_) => Some(true),
            _ => None,
        }
    }
}

/// What came of an action. `T` is the type of an interceptor.
#[derive(Debug, PartialEq, Eq)]
pub enum InstallEvent<T> {
    /// The application asks for interceptors on the children of this window.
    Listen(WindowHandle),
    /// The enumeration found this window, which has this parent.
    Child(WindowHandle, WindowHandle),
    /// Revoking ended with this status.
    Revoked(StatusCode),
    /// Registering this interceptor ended with this status.
    Registered(T, StatusCode),
    /// The enumeration has visited every child.
    Enumerated,
}

/// An interceptor that the controller keeps, and the window it was
/// registered on.
pub struct Registration<T> {
    /// The window.
    pub window: WindowHandle,
    /// The interceptor.
    pub target: T,
    /// Whether the interceptor is the drop target of the window, as far as
    /// the controller has been told.
    pub active: bool,
}

/// The mathematical value of a [`FileDropController`].
pub struct ControllerView<T> {
    /// Every interceptor that was ever registered, oldest first.
    pub registrations: Seq<Registration<T>>,
    /// The event that the controller waits for.
    pub stage: InstallStage,
    /// The root window of the installation under way, or of the last one.
    pub root: WindowHandle,
}

/// Whether any interceptor is active on a window.
pub open spec fn is_active_on<T>(registrations: Seq<Registration<T>>, window: WindowHandle) -> bool {
    exists|i: int|
        0 <= i < registrations.len() && (#[trigger] registrations[i]).active
            && registrations[i].window == window
}

/// That no window has two active interceptors.
pub open spec fn one_per_window<T>(registrations: Seq<Registration<T>>) -> bool {
    forall|i: int, j: int|
        0 <= i < j < registrations.len() && (#[trigger] registrations[i]).active
            && (#[trigger] registrations[j]).active ==> registrations[i].window
            != registrations[j].window
}

impl<T> ControllerView<T> {
    /// The states that a controller can be in: no window has two active
    /// interceptors, and a window that is about to get one has none.
    pub open spec fn wf(self) -> bool {
        &&& one_per_window(self.registrations)
        &&& match self.stage {
            InstallStage::Registering(window) => !is_active_on(self.registrations, window),
            _ => true,
        }
    }
}

/// The registrations after the drop target of a window was revoked: those on
/// that window are kept, and are no longer active.
pub open spec fn deactivated<T>(
    registrations: Seq<Registration<T>>,
    window: WindowHandle,
) -> Seq<Registration<T>> {
    registrations.map_values(
        |r: Registration<T>| Registration { active: r.active && r.window != window, ..r },
    )
}

/// The windows that have an active interceptor, in the order in which the
/// interceptors were registered.
pub open spec fn active_windows<T>(registrations: Seq<Registration<T>>) -> Seq<WindowHandle>
    decreases registrations.len(),
{
    if registrations.len() == 0 {
        Seq::empty()
    } else if registrations.last().active {
        active_windows(registrations.drop_last()).push(registrations.last().window)
    } else {
        active_windows(registrations.drop_last())
    }
}

/// The interceptors that are kept, oldest first.
pub open spec fn targets_of<T>(registrations: Seq<Registration<T>>) -> Seq<T> {
    registrations.map_values(|r: Registration<T>| r.target)
}

/// Whether an interceptor may be registered after revoking ended with this
/// status: if it succeeded, or if there was nothing to revoke.
pub open spec fn clears_the_way(status: StatusCode) -> bool {
    status.succeeded() || status.0 == DRAGDROP_E_NOTREGISTERED
}

/// The state in which every controller starts.
pub open spec fn idle<T>() -> ControllerView<T> {
    ControllerView {
        registrations: Seq::empty(),
        stage: InstallStage::Idle,
        root: WindowHandle(0),
    }
}

/// One step of an installation: the next state and the next action.
///
/// * An idle controller that is asked to listen has the windows below the
///   root window enumerated.
/// * A window that is reported counts if its parent is the root window.
///   Any other is passed over: the enumeration goes on and nothing else
///   happens.
/// * For each child found, what is registered on it is revoked first.
/// * If that succeeded or there was nothing to revoke, the interceptors kept
///   for the child are no longer active and a new one is registered. After
///   any other failure the child is skipped.
/// * An interceptor that was registered is kept, as the active one of its
///   window. One that was refused is let go and the child is skipped.
/// * Whatever came of a child, the enumeration goes on.
///
/// An event that is not the awaited one is dropped.
pub open spec fn spec_step<T>(s: ControllerView<T>, event: InstallEvent<T>) -> (
    ControllerView<T>,
    InstallAction,
) {
    match (s.stage, event) {
        (InstallStage::Idle, InstallEvent::Listen(root)) => (
            ControllerView { stage: InstallStage::Enumerating, root, ..s },
            InstallAction::Enumerate(root),
        ),
        (InstallStage::Enumerating, InstallEvent::Child(window, parent)) => {
            if parent == s.root {
                (
                    ControllerView { stage: InstallStage::Revoking(window), ..s },
                    InstallAction::Revoke(window),
                )
            } else {
                (s, InstallAction::Continue)
            }
        },
        (InstallStage::Revoking(window), InstallEvent::Revoked(status)) => {
            if clears_the_way(status) {
                (
                    ControllerView {
                        registrations: deactivated(s.registrations, window),
                        stage: InstallStage::Registering(window),
                        ..s
                    },
                    InstallAction::Register(window),
                )
            } else {
                (
                    ControllerView { stage: InstallStage::Enumerating, ..s },
                    InstallAction::Skip(status),
                )
            }
        },
        (InstallStage::Registering(window), InstallEvent::Registered(target, status)) => {
            if status.succeeded() {
                (
                    ControllerView {
                        registrations: s.registrations.push(
                            Registration { window, target, active: true },
                        ),
                        stage: InstallStage::Enumerating,
                        ..s
                    },
                    InstallAction::Continue,
                )
            } else {
                (
                    ControllerView { stage: InstallStage::Enumerating, ..s },
                    InstallAction::Skip(status),
                )
            }
        },
        (InstallStage::Enumerating, InstallEvent::Enumerated) => (
            ControllerView { stage: InstallStage::Idle, ..s },
            InstallAction::Finished,
        ),
        _ => (s, InstallAction::Unasked),
    }
}

/// The interceptors installed for one webview.
///
/// An interceptor that was registered stays here until the controller goes:
/// the windowing system holds a counted reference to it for as long as it is
/// registered.
#[derive(Debug)]
pub struct FileDropController<T> {
    drop_targets: Vec<T>,
    windows: Vec<WindowHandle>,
    active: Vec<bool>,
    stage: InstallStage,
    root: WindowHandle,
}

/// The registrations that three vectors of equal length stand for.
pub closed spec fn registrations_of<T>(
    targets: Vec<T>,
    windows: Vec<WindowHandle>,
    active: Vec<bool>,
) -> Seq<Registration<T>> {
    Seq::new(
        targets.len() as nat,
        |i: int| Registration { window: windows[i], target: targets[i], active: active[i] },
    )
}

impl<T> View for FileDropController<T> {
    type V = ControllerView<T>;

    closed spec fn view(&self) -> ControllerView<T> {
        ControllerView {
            registrations: registrations_of(self.drop_targets, self.windows, self.active),
            stage: self.stage,
            root: self.root,
        }
    }
}

/// Whether an interceptor may be registered after revoking ended with this
/// status.
pub fn may_register_after(status: StatusCode) -> (may: bool)
    ensures
        may == clears_the_way(status),
{
    status.is_ok() || status.0 == native_dragdrop_e_notregistered().0
}

impl<T> FileDropController<T> {
    #[verifier::type_invariant]
    spec fn inv(self) -> bool {
        &&& self.windows.len() == self.drop_targets.len()
        &&& self.active.len() == self.drop_targets.len()
        &&& self@.wf()
    }

    /// A controller that keeps no interceptor yet.
    pub fn new() -> (controller: Self)
        ensures
            controller@ == idle::<T>(),
    {
        let controller = FileDropController {
            drop_targets: Vec::new(),
            windows: Vec::new(),
            active: Vec::new(),
            stage: InstallStage::Idle,
            root: WindowHandle(0),
        };
        assert(controller@.registrations =~= Seq::<Registration<T>>::empty());
        controller
    }

    /// The event that the controller waits for.
    pub fn stage(&self) -> (stage: InstallStage)
        ensures
            stage == self@.stage,
    {
        self.stage
    }

    /// The root window of the installation under way, if one is.
    pub fn root(&self) -> (root: Option<WindowHandle>)
        ensures
            root == (if self@.stage is Idle {
                None
            } else {
                Some(self@.root)
            }),
    {
        match self.stage {
            InstallStage::Idle => None,
            _ => Some(self.root),
        }
    }

    /// The number of interceptors kept.
    pub fn len(&self) -> (len: usize)
        ensures
            len == self@.registrations.len(),
    {
        self.drop_targets.len()
    }

    /// The window of the interceptor that was the `index`th to be kept, and
    /// whether that interceptor is active.
    pub fn registration(&self, index: usize) -> (found: Option<(WindowHandle, bool)>)
        ensures
            found == (if index < self@.registrations.len() {
                Some(
                    (
                        self@.registrations[index as int].window,
                        self@.registrations[index as int].active,
                    ),
                )
            } else {
                None
            }),
    {
        proof {
            use_type_invariant(self);
        }
        if index < self.drop_targets.len() {
            Some((self.windows[index], self.active[index]))
        } else {
            None
        }
    }

    /// The interceptor that was the `index`th to be kept.
    pub fn target(&self, index: usize) -> (found: Option<&T>)
        ensures
            found == (if index < self@.registrations.len() {
                Some(&self@.registrations[index as int].target)
            } else {
                None
            }),
    {
        if index < self.drop_targets.len() {
            Some(&self.drop_targets[index])
        } else {
            None
        }
    }

    /// Whether an interceptor of this controller is active on a window.
    pub fn is_registered(&self, window: WindowHandle) -> (found: bool)
        ensures
            found == is_active_on(self@.registrations, window),
    {
        proof {
            use_type_invariant(self);
        }
        let mut index: usize = 0;
        while index < self.windows.len()
            invariant
                self.windows.len() == self.drop_targets.len(),
                self.active.len() == self.drop_targets.len(),
                index <= self.windows.len(),
                forall|i: int|
                    0 <= i < index ==> !((#[trigger] self@.registrations[i]).active
                        && self@.registrations[i].window == window),
            decreases self.windows.len() - index,
        {
            if self.active[index] && self.windows[index].0 == window.0 {
                assert(self@.registrations[index as int].active);
                return true;
            }
            index += 1;
        }
        false
    }

    /// Ends the controller. It gives the windows on which an interceptor
    /// is still active, to have it revoked there, and the interceptors that
    /// were kept, to be let go after that.
    pub fn teardown(self) -> (parts: (Vec<WindowHandle>, Vec<T>))
        ensures
            parts.0@ == active_windows(self@.registrations),
            parts.1@ == targets_of(self@.registrations),
    {
        proof {
            use_type_invariant(&self);
        }
        let ghost all = self@.registrations;
        let FileDropController { drop_targets, windows, active, stage: _, root: _ } = self;
        let mut still: Vec<WindowHandle> = Vec::new();
        let mut index: usize = 0;
        assert(all.take(0) =~= Seq::<Registration<T>>::empty());
        while index < windows.len()
            invariant
                windows.len() == drop_targets.len(),
                active.len() == drop_targets.len(),
                all == registrations_of(drop_targets, windows, active),
                index <= windows.len(),
                still@ == active_windows(all.take(index as int)),
            decreases windows.len() - index,
        {
            proof {
                let upto = all.take(index + 1);
                assert(upto.drop_last() =~= all.take(index as int));
                assert(upto.last() == all[index as int]);
            }
            if active[index] {
                still.push(windows[index]);
            }
            index += 1;
        }
        assert(all.take(index as int) =~= all);
        assert(drop_targets@ =~= targets_of(all));
        (still, drop_targets)
    }

    /// Starts an installation on the children of `hwnd`.
    pub fn listen(self, hwnd: WindowHandle) -> (next: (Self, InstallAction))
        ensures
            next.0@ == spec_step(self@, InstallEvent::Listen(hwnd)).0,
            next.1 == spec_step(self@, InstallEvent::Listen(hwnd)).1,
            self@.wf(),
            next.0@.wf(),
    {
        self.step(InstallEvent::Listen(hwnd))
    }

    /// Takes what came of the last action and says what to do next.
    pub fn step(self, event: InstallEvent<T>) -> (next: (Self, InstallAction))
        ensures
            next.0@ == spec_step(self@, event).0,
            next.1 == spec_step(self@, event).1,
            self@.wf(),
            next.0@.wf(),
    {
        proof {
            use_type_invariant(&self);
            step_keeps_wf(self@, event);
        }
        let FileDropController { drop_targets, windows, active, stage, root } = self;
        match (stage, event) {
            (InstallStage::Idle, InstallEvent::Listen(asked)) => {
                let next = FileDropController {
                    drop_targets,
                    windows,
                    active,
                    stage: InstallStage::Enumerating,
                    root: asked,
                };
                (next, InstallAction::Enumerate(asked))
            },
            (InstallStage::Enumerating, InstallEvent::Child(window, parent)) => {
                if parent.0 == root.0 {
                    let next = FileDropController {
                        drop_targets,
                        windows,
                        active,
                        stage: InstallStage::Revoking(window),
                        root,
                    };
                    (next, InstallAction::Revoke(window))
                } else {
                    let next = FileDropController { drop_targets, windows, active, stage, root };
                    (next, InstallAction::Continue)
                }
            },
            (InstallStage::Revoking(window), InstallEvent::Revoked(status)) => {
                if may_register_after(status) {
                    let active = without(&windows, active, window);
                    assert(registrations_of(drop_targets, windows, active) =~= deactivated(
                        self@.registrations,
                        window,
                    ));
                    let next = FileDropController {
                        drop_targets,
                        windows,
                        active,
                        stage: InstallStage::Registering(window),
                        root,
                    };
                    (next, InstallAction::Register(window))
                } else {
                    let next = FileDropController {
                        drop_targets,
                        windows,
                        active,
                        stage: InstallStage::Enumerating,
                        root,
                    };
                        (next, InstallAction::Skip(status))
                }
            },
            (InstallStage::Registering(window), InstallEvent::Registered(target, status)) => {
                if status.is_ok() {
                    let mut drop_targets = drop_targets;
                    let mut windows = windows;
                    let mut active = active;
                    drop_targets.push(target);
                    windows.push(window);
                    active.push(true);
                    assert(registrations_of(drop_targets, windows, active)
                        =~= self@.registrations.push(
                        Registration { window, target, active: true },
                    ));
                    let next = FileDropController {
                        drop_targets,
                        windows,
                        active,
                        stage: InstallStage::Enumerating,
                        root,
                    };
                    (next, InstallAction::Continue)
                } else {
                    let next = FileDropController {
                        drop_targets,
                        windows,
                        active,
                        stage: InstallStage::Enumerating,
                        root,
                    };
                        (next, InstallAction::Skip(status))
                }
            },
            (InstallStage::Enumerating, InstallEvent::Enumerated) => {
                let next = FileDropController {
                    drop_targets,
                    windows,
                    active,
                    stage: InstallStage::Idle,
                    root,
                };
                (next, InstallAction::Finished)
            },
            (stage, _) => {
                let next = FileDropController { drop_targets, windows, active, stage, root };
                (next, InstallAction::Unasked)
            },
        }
    }
}

/// Clears the mark of every interceptor on `window`.
fn without(windows: &Vec<WindowHandle>, active: Vec<bool>, window: WindowHandle) -> (cleared: Vec<
    bool,
>)
    requires
        windows.len() == active.len(),
    ensures
        cleared.len() == active.len(),
        forall|i: int|
            0 <= i < active.len() ==> cleared[i] == (active[i] && windows[i] != window),
{
    let mut cleared = active;
    let mut index: usize = 0;
    while index < cleared.len()
        invariant
            windows.len() == active.len(),
            cleared.len() == active.len(),
            index <= cleared.len(),
            forall|i: int| 0 <= i < index ==> cleared[i] == (active[i] && windows[i] != window),
            forall|i: int| index <= i < active.len() ==> cleared[i] == active[i],
        decreases cleared.len() - index,
    {
        if windows[index].0 == window.0 {
            cleared.set(index, false);
        }
        index += 1;
    }
    cleared
}

/// A step keeps a controller among the states that it can be in: no window
/// ever has two active interceptors.
pub proof fn step_keeps_wf<T>(s: ControllerView<T>, event: InstallEvent<T>)
    requires
        s.wf(),
    ensures
        spec_step(s, event).0.wf(),
{
    let next = spec_step(s, event).0;
    match (s.stage, event) {
        (InstallStage::Revoking(window), InstallEvent::Revoked(status)) => {
            if clears_the_way(status) {
                assert(!is_active_on(next.registrations, window));
            }
        },
        (InstallStage::Registering(window), InstallEvent::Registered(target, status)) => {
            if status.succeeded() {
                let last = s.registrations.len() as int;
                assert forall|i: int, j: int|
                    0 <= i < j < next.registrations.len() && (#[trigger] next.registrations[i]).active
                        && (#[trigger] next.registrations[j]).active implies next.registrations[i].window
                    != next.registrations[j].window by {
                    if j == last {
                        assert(s.registrations[i].active);
                    } else {
                        assert(s.registrations[i].active && s.registrations[j].active);
                    }
                }
            }
        },
        _ => {},
    }
}

/// What the caller reports of one child window during an installation.
pub struct ChildReport<T> {
    /// The window.
    pub window: WindowHandle,
    /// Its parent.
    pub parent: WindowHandle,
    /// The status with which revoking ended.
    pub revoked: StatusCode,
    /// The interceptor made for the child.
    pub target: T,
    /// The status with which registering it ended, had it been asked for.
    pub registered: StatusCode,
}

/// Whether a window that the enumeration below `root` reports gets an
/// interceptor: if it is an immediate child, the way was clear and the
/// registration succeeded.
pub open spec fn takes<T>(root: WindowHandle, child: ChildReport<T>) -> bool {
    child.parent == root && clears_the_way(child.revoked) && child.registered.succeeded()
}

/// The state after one window was reported and dealt with: the events of
/// the window put to the protocol one by one, each only if it was asked
/// for.
pub open spec fn install_child<T>(s: ControllerView<T>, child: ChildReport<T>) -> ControllerView<
    T,
> {
    let found = spec_step(s, InstallEvent::Child(child.window, child.parent));
    if found.1 is Revoke {
        let revoked = spec_step(found.0, InstallEvent::Revoked(child.revoked));
        if revoked.1 is Register {
            spec_step(revoked.0, InstallEvent::Registered(child.target, child.registered)).0
        } else {
            revoked.0
        }
    } else {
        found.0
    }
}

/// The state after the children were found and dealt with in this order.
pub open spec fn install_children<T>(
    s: ControllerView<T>,
    children: Seq<ChildReport<T>>,
) -> ControllerView<T>
    decreases children.len(),
{
    if children.len() == 0 {
        s
    } else {
        install_child(install_children(s, children.drop_last()), children.last())
    }
}

/// The state after a whole installation on the children of `root`.
pub open spec fn install<T>(
    s: ControllerView<T>,
    root: WindowHandle,
    children: Seq<ChildReport<T>>,
) -> ControllerView<T> {
    let listening = spec_step(s, InstallEvent::Listen(root)).0;
    spec_step(install_children(listening, children), InstallEvent::Enumerated).0
}

/// An interceptor that is kept stays kept, on its window and in its place,
/// whatever happens later: only whether it is active can change.
pub proof fn kept_interceptors_stay<T>(s: ControllerView<T>, event: InstallEvent<T>, i: int)
    requires
        0 <= i < s.registrations.len(),
    ensures
        i < spec_step(s, event).0.registrations.len(),
        spec_step(s, event).0.registrations[i].window == s.registrations[i].window,
        spec_step(s, event).0.registrations[i].target == s.registrations[i].target,
        spec_step(s, event).0.registrations[i].active ==> s.registrations[i].active,
{
}

/// An interceptor is only ever registered on a window right after revoking
/// on that window succeeded or found nothing to revoke.
pub proof fn register_follows_revoke<T>(
    s: ControllerView<T>,
    event: InstallEvent<T>,
    window: WindowHandle,
)
    requires
        spec_step(s, event).1 == InstallAction::Register(window),
    ensures
        s.stage == InstallStage::Revoking(window),
        event is Revoked,
        clears_the_way(event->Revoked_0),
        !is_active_on(spec_step(s, event).0.registrations, window),
{
}

/// What dealing with one reported window comes to, whatever came of it:
/// the enumeration goes on, and the registrations change for this window
/// alone.
///
/// * If the window is no immediate child of the root window, or the way
///   could not be cleared, nothing changes.
/// * If the way was cleared and the registration was refused, the child has
///   no active interceptor.
/// * If the registration succeeded, the new interceptor is the one active
///   interceptor of the child.
pub proof fn child_is_dealt_with_alone<T>(s: ControllerView<T>, child: ChildReport<T>)
    requires
        s.wf(),
        s.stage is Enumerating,
    ensures
        install_child(s, child).wf(),
        install_child(s, child).stage is Enumerating,
        install_child(s, child).root == s.root,
        install_child(s, child).registrations == (if child.parent != s.root || !clears_the_way(
            child.revoked,
        ) {
            s.registrations
        } else if child.registered.succeeded() {
            deactivated(s.registrations, child.window).push(
                Registration { window: child.window, target: child.target, active: true },
            )
        } else {
            deactivated(s.registrations, child.window)
        }),
        forall|other: WindowHandle|
            other != child.window ==> is_active_on(install_child(s, child).registrations, other)
                == is_active_on(s.registrations, other),
        child.parent == s.root && clears_the_way(child.revoked) ==> is_active_on(
            install_child(s, child).registrations,
            child.window,
        ) == takes(s.root, child),
{
    let found = spec_step(s, InstallEvent::Child(child.window, child.parent));
    step_keeps_wf(s, InstallEvent::Child(child.window, child.parent));
    let revoked = spec_step(found.0, InstallEvent::Revoked(child.revoked));
    step_keeps_wf(found.0, InstallEvent::Revoked(child.revoked));
    step_keeps_wf(revoked.0, InstallEvent::Registered(child.target, child.registered));
    let end = install_child(s, child).registrations;
    let cleared = deactivated(s.registrations, child.window);
    assert forall|other: WindowHandle| other != child.window implies is_active_on(end, other)
        == is_active_on(s.registrations, other) by {
        if is_active_on(s.registrations, other) {
            let i = choose|i: int|
                0 <= i < s.registrations.len() && (#[trigger] s.registrations[i]).active
                    && s.registrations[i].window == other;
            assert(end[i].active && end[i].window == other);
        }
        if is_active_on(end, other) {
            let i = choose|i: int|
                0 <= i < end.len() && (#[trigger] end[i]).active && end[i].window == other;
            assert(s.registrations[i].active && s.registrations[i].window == other);
        }
    }
    if child.parent == s.root && clears_the_way(child.revoked) {
        assert(!is_active_on(cleared, child.window));
        if child.registered.succeeded() {
            let last = s.registrations.len() as int;
            assert(end[last].active && end[last].window == child.window);
        }
    }
}

/// Installations never leave a window with two active interceptors, however
/// often they are run, on whatever windows and with whatever results.
pub proof fn never_two_interceptors_on_a_window<T>(
    s: ControllerView<T>,
    root: WindowHandle,
    children: Seq<ChildReport<T>>,
)
    requires
        s.wf(),
        s.stage is Idle,
    ensures
        install(s, root, children).wf(),
        install(s, root, children).stage is Idle,
        one_per_window(install(s, root, children).registrations),
{
    let listening = spec_step(s, InstallEvent::Listen(root)).0;
    lemma_children_keep_wf(listening, children);
}

proof fn lemma_children_keep_wf<T>(s: ControllerView<T>, children: Seq<ChildReport<T>>)
    requires
        s.wf(),
        s.stage is Enumerating,
    ensures
        install_children(s, children).wf(),
        install_children(s, children).stage is Enumerating,
        install_children(s, children).root == s.root,
    decreases children.len(),
{
    if children.len() > 0 {
        lemma_children_keep_wf(s, children.drop_last());
        child_is_dealt_with_alone(install_children(s, children.drop_last()), children.last());
    }
}

/// An installation on a root window without children installs nothing and
/// fails nowhere.
pub proof fn no_children_no_interceptors<T>(s: ControllerView<T>, root: WindowHandle)
    requires
        s.stage is Idle,
    ensures
        install(s, root, Seq::empty()).registrations == s.registrations,
        install(s, root, Seq::empty()).stage is Idle,
{
}

/// A second installation on a child supersedes the first: where both clear
/// the way and register, the first interceptor is kept but no longer active
/// and the second is the active one. Where the second cannot clear the way,
/// the first stays as it is. Either way the child has one active
/// interceptor, not two.
pub proof fn second_installation_supersedes_first<T>(
    root: WindowHandle,
    first: ChildReport<T>,
    second: ChildReport<T>,
)
    requires
        first.window == second.window,
        takes(root, first),
        second.parent == root,
        second.registered.succeeded(),
    ensures
        install(install(idle(), root, seq![first]), root, seq![second]).registrations == (if clears_the_way(
            second.revoked,
        ) {
            seq![
                Registration { window: first.window, target: first.target, active: false },
                Registration { window: second.window, target: second.target, active: true },
            ]
        } else {
            seq![Registration { window: first.window, target: first.target, active: true }]
        }),
{
    let start = idle::<T>();
    let listening = spec_step(start, InstallEvent::Listen(root)).0;
    assert(seq![first].drop_last() =~= Seq::<ChildReport<T>>::empty());
    assert(install_children(listening, seq![first].drop_last()) == listening);
    assert(install_children(listening, seq![first]) == install_child(listening, first));
    child_is_dealt_with_alone(listening, first);
    let once = install(start, root, seq![first]);
    assert(once.registrations =~= seq![
        Registration { window: first.window, target: first.target, active: true },
    ]);
    let again = spec_step(once, InstallEvent::Listen(root)).0;
    assert(seq![second].drop_last() =~= Seq::<ChildReport<T>>::empty());
    assert(install_children(again, seq![second].drop_last()) == again);
    assert(install_children(again, seq![second]) == install_child(again, second));
    child_is_dealt_with_alone(again, second);
    let twice = install(once, root, seq![second]);
    if clears_the_way(second.revoked) {
        assert(twice.registrations =~= seq![
            Registration { window: first.window, target: first.target, active: false },
            Registration { window: second.window, target: second.target, active: true },
        ]);
    }
}

/// Whether the windows of the children are all different.
pub open spec fn distinct_windows<T>(children: Seq<ChildReport<T>>) -> bool {
    forall|i: int, j: int|
        0 <= i < j < children.len() ==> (#[trigger] children[i]).window != (
        #[trigger] children[j]).window
}

/// After a first installation, a window has an interceptor if and only if
/// it is an immediate child of the root window, its own way was clear and
/// its own registration succeeded: what came of the other windows does not
/// matter, and a window further down never gets one.
pub proof fn each_child_stands_alone<T>(root: WindowHandle, children: Seq<ChildReport<T>>, k: int)
    requires
        distinct_windows(children),
        0 <= k < children.len(),
    ensures
        is_active_on(install(idle(), root, children).registrations, children[k].window) == takes(
            root,
            children[k],
        ),
{
    let listening = spec_step(idle::<T>(), InstallEvent::Listen(root)).0;
    assert(listening.registrations =~= Seq::<Registration<T>>::empty());
    lemma_children_stand_alone(listening, children, k);
}

proof fn lemma_children_stand_alone<T>(s: ControllerView<T>, children: Seq<ChildReport<T>>, k: int)
    requires
        s.wf(),
        s.stage is Enumerating,
        s.registrations.len() == 0,
        distinct_windows(children),
        0 <= k < children.len(),
    ensures
        is_active_on(install_children(s, children).registrations, children[k].window) == takes(
            s.root,
            children[k],
        ),
    decreases children.len(),
{
    let before = children.drop_last();
    let last = children.last();
    lemma_children_keep_wf(s, before);
    child_is_dealt_with_alone(install_children(s, before), last);
    if k == children.len() - 1 {
        if last.parent != s.root || !clears_the_way(last.revoked) {
            lemma_untouched_window(s, before, last.window);
        }
    } else {
        assert(before[k] == children[k]);
        assert(children[k].window != last.window);
        lemma_children_stand_alone(s, before, k);
    }
}

proof fn lemma_untouched_window<T>(
    s: ControllerView<T>,
    children: Seq<ChildReport<T>>,
    window: WindowHandle,
)
    requires
        s.wf(),
        s.stage is Enumerating,
        s.registrations.len() == 0,
        forall|i: int| 0 <= i < children.len() ==> (#[trigger] children[i]).window != window,
    ensures
        !is_active_on(install_children(s, children).registrations, window),
    decreases children.len(),
{
    if children.len() > 0 {
        let before = children.drop_last();
        lemma_children_keep_wf(s, before);
        lemma_untouched_window(s, before, window);
        child_is_dealt_with_alone(install_children(s, before), children.last());
    }
}

} // verus!
