use vstd::prelude::*;

use crate::hresult::HRESULT;
use crate::ids::{DesktopID, HWND};

verus! {

/// Where a listener stands in its registration lifecycle.
#[derive(Clone, Copy, Debug, PartialEq, Eq, Structural)]
pub enum Lifecycle {
    /// Never registered (or only failed attempts).
    Empty,
    /// Registered with the service; teardown is owed.
    Active,
    /// Torn down; terminal.
    Retired,
}

/// A typed event handed to the owner's callbacks.
#[derive(Clone, Copy, Debug, PartialEq, Eq)]
pub enum Event {
    DesktopCreated(DesktopID),
    DesktopDestroyed(DesktopID),
    WindowMoved(HWND),
    DesktopSwitched(DesktopID, DesktopID),
}

/// An incoming call of the notification contract, with the identifiers
/// already read from the objects it was given.
#[derive(Clone, Copy, Debug, PartialEq, Eq)]
pub enum Notification {
    DesktopCreated(DesktopID),
    DesktopDestroyBegin(DesktopID, DesktopID),
    DesktopDestroyFailed(DesktopID, DesktopID),
    DesktopDestroyed(DesktopID, DesktopID),
    ViewDesktopChanged(HWND),
    CurrentDesktopChanged(DesktopID, DesktopID),
}

/// The event that an incoming call is forwarded as, if any. Only the final
/// outcome of a destruction is surfaced; its begin and failure are not.
pub open spec fn forwarded(n: Notification) -> Option<Event> {
    match n {
        Notification::DesktopCreated(id) => Some(Event::DesktopCreated(id)),
        Notification::DesktopDestroyBegin(_, _) => None,
        Notification::DesktopDestroyFailed(_, _) => None,
        Notification::DesktopDestroyed(old, _) => Some(Event::DesktopDestroyed(old)),
        Notification::ViewDesktopChanged(w) => Some(Event::WindowMoved(w)),
        Notification::CurrentDesktopChanged(old, new) => Some(Event::DesktopSwitched(old, new)),
    }
}

/// The next step of the registration handshake once the sink has been asked
/// for its notification interface.
#[derive(Clone, Copy, Debug, PartialEq, Eq, Structural)]
pub enum Handshake {
    /// The interface was obtained: hand it to the service's register operation.
    RegisterSink,
    /// Stop without registering, with this error.
    Abort(HRESULT),
}

/// Decides the handshake step after the interface query. Registration is
/// attempted only when the query succeeded and produced an interface; any other
/// outcome aborts with the query's own status.
pub fn interface_query_outcome(query: HRESULT, interface_found: bool) -> (r: Handshake)
    ensures
        r == (if !query.is_failure() && interface_found {
            Handshake::RegisterSink
        } else {
            Handshake::Abort(query)
        }),
        query.is_failure() ==> r == Handshake::Abort(query),
{
    if !query.failed() && interface_found {
        Handshake::RegisterSink
    } else {
        Handshake::Abort(query)
    }
}

/// The registration state and the four handler slots of a notification sink.
///
/// `S` is the reference to the notification service, kept only to unregister.
/// `C`, `N`, `D` and `W` are the callbacks for a desktop switch, a created
/// desktop, a destroyed desktop and a window that moved to another desktop.
pub struct VirtualDesktopChangeListener<S, C, N, D, W> where
    C: Fn(DesktopID, DesktopID),
    N: Fn(DesktopID),
    D: Fn(DesktopID),
    W: Fn(HWND),
 {
    service: Option<S>,
    cookie: u32,
    retired: bool,
    on_desktop_change_slot: Option<C>,
    on_desktop_created_slot: Option<N>,
    on_desktop_destroyed_slot: Option<D>,
    on_window_change_slot: Option<W>,
}

/// A callback that may be called with any pair of desktop identifiers.
pub open spec fn takes_any_pair<C: Fn(DesktopID, DesktopID)>(f: C) -> bool {
    forall|a: DesktopID, b: DesktopID| #[trigger] f.requires((a, b))
}

/// A callback that may be called with any desktop identifier.
pub open spec fn takes_any_id<N: Fn(DesktopID)>(f: N) -> bool {
    forall|a: DesktopID| #[trigger] f.requires((a,))
}

/// A callback that may be called with any window handle.
pub open spec fn takes_any_window<W: Fn(HWND)>(f: W) -> bool {
    forall|w: HWND| #[trigger] f.requires((w,))
}

impl<S, C, N, D, W> VirtualDesktopChangeListener<S, C, N, D, W> where
    C: Fn(DesktopID, DesktopID),
    N: Fn(DesktopID),
    D: Fn(DesktopID),
    W: Fn(HWND),
 {
    /// The stored service reference.
    pub closed spec fn service(self) -> Option<S> {
        self.service
    }

    /// The stored registration token; zero means none.
    pub closed spec fn token(self) -> u32 {
        self.cookie
    }

    pub closed spec fn is_retired(self) -> bool {
        self.retired
    }

    pub closed spec fn desktop_change_handler(self) -> Option<C> {
        self.on_desktop_change_slot
    }

    pub closed spec fn desktop_created_handler(self) -> Option<N> {
        self.on_desktop_created_slot
    }

    pub closed spec fn desktop_destroyed_handler(self) -> Option<D> {
        self.on_desktop_destroyed_slot
    }

    pub closed spec fn window_change_handler(self) -> Option<W> {
        self.on_window_change_slot
    }

    pub open spec fn lifecycle(self) -> Lifecycle {
        if self.is_retired() {
            Lifecycle::Retired
        } else if self.service().is_some() {
            Lifecycle::Active
        } else {
            Lifecycle::Empty
        }
    }

    /// Well-formed: without a service there is no token, a retired listener
    /// holds nothing, and every installed callback accepts every input.
    pub open spec fn wf(self) -> bool {
        &&& self.service().is_none() ==> self.token() == 0
        &&& self.is_retired() ==> self.service().is_none()
        &&& self.desktop_change_handler() matches Some(f) ==> takes_any_pair(f)
        &&& self.desktop_created_handler() matches Some(f) ==> takes_any_id(f)
        &&& self.desktop_destroyed_handler() matches Some(f) ==> takes_any_id(f)
        &&& self.window_change_handler() matches Some(f) ==> takes_any_window(f)
    }

    /// The same service, token and retirement as `other`.
    pub open spec fn same_registration(self, other: Self) -> bool {
        &&& self.service() == other.service()
        &&& self.token() == other.token()
        &&& self.is_retired() == other.is_retired()
    }

    /// The same four handler slots as `other`.
    pub open spec fn same_handlers(self, other: Self) -> bool {
        &&& self.desktop_change_handler() == other.desktop_change_handler()
        &&& self.desktop_created_handler() == other.desktop_created_handler()
        &&& self.desktop_destroyed_handler() == other.desktop_destroyed_handler()
        &&& self.window_change_handler() == other.window_change_handler()
    }

    /// The unregister call that a teardown of this listener makes, if any.
    pub open spec fn unregister_due(self) -> Option<(S, u32)> {
        match self.service() {
            Some(s) => if self.token() != 0 {
                Some((s, self.token()))
            } else {
                None
            },
            None => None,
        }
    }

    /// This listener after a successful registration with `service`.
    pub closed spec fn activated(self, service: S, cookie: u32) -> Self {
        VirtualDesktopChangeListener { service: Some(service), cookie, ..self }
    }

    /// This listener after teardown.
    pub closed spec fn torn_down(self) -> Self {
        VirtualDesktopChangeListener { service: None, cookie: 0, retired: true, ..self }
    }

    pub closed spec fn with_desktop_change(self, f: C) -> Self {
        VirtualDesktopChangeListener { on_desktop_change_slot: Some(f), ..self }
    }

    pub closed spec fn with_desktop_created(self, f: N) -> Self {
        VirtualDesktopChangeListener { on_desktop_created_slot: Some(f), ..self }
    }

    pub closed spec fn with_desktop_destroyed(self, f: D) -> Self {
        VirtualDesktopChangeListener { on_desktop_destroyed_slot: Some(f), ..self }
    }

    pub closed spec fn with_window_change(self, f: W) -> Self {
        VirtualDesktopChangeListener { on_window_change_slot: Some(f), ..self }
    }

    /// Whether `e`, when some event is due, went to the callback installed for
    /// its kind (that callback was called with its values); with no callback
    /// installed, nothing is owed.
    pub open spec fn delivered(self, e: Option<Event>) -> bool {
        match e {
            None => true,
            Some(Event::DesktopCreated(id)) => match self.desktop_created_handler() {
                Some(f) => f.ensures((id,), ()),
                None => true,
            },
            Some(Event::DesktopDestroyed(id)) => match self.desktop_destroyed_handler() {
                Some(f) => f.ensures((id,), ()),
                None => true,
            },
            Some(Event::WindowMoved(w)) => match self.window_change_handler() {
                Some(f) => f.ensures((w,), ()),
                None => true,
            },
            Some(Event::DesktopSwitched(a, b)) => match self.desktop_change_handler() {
                Some(f) => f.ensures((a, b), ()),
                None => true,
            },
        }
    }

    /// A fresh, unregistered listener with no callbacks.
    pub fn new() -> (l: Self)
        ensures
            l.wf(),
            l.lifecycle() == Lifecycle::Empty,
            l.service().is_none(),
            l.token() == 0,
            l.desktop_change_handler().is_none(),
            l.desktop_created_handler().is_none(),
            l.desktop_destroyed_handler().is_none(),
            l.window_change_handler().is_none(),
    {
        VirtualDesktopChangeListener {
            service: None,
            cookie: 0,
            retired: false,
            on_desktop_change_slot: None,
            on_desktop_created_slot: None,
            on_desktop_destroyed_slot: None,
            on_window_change_slot: None,
        }
    }

    /// Where the listener stands in its lifecycle.
    pub fn state(&self) -> (r: Lifecycle)
        ensures
            r == self.lifecycle(),
    {
        if self.retired {
            Lifecycle::Retired
        } else if self.service.is_some() {
            Lifecycle::Active
        } else {
            Lifecycle::Empty
        }
    }

    /// Records the outcome of the service's register operation. On failure the
    /// listener is left as it was and the error is the status of the interface
    /// query, not that of the register call (a known oddity, kept on purpose).
    /// On success the service reference and the token are stored together.
    pub fn complete_registration(
        &mut self,
        service: S,
        query: HRESULT,
        registration: HRESULT,
        cookie: u32,
    ) -> (r: Result<(), HRESULT>)
        requires
            old(self).wf(),
            old(self).lifecycle() == Lifecycle::Empty,
        ensures
            final(self).wf(),
            registration.is_failure() ==> r == Err::<(), HRESULT>(query) && *final(self) == *old(self),
            !registration.is_failure() ==> r == Ok::<(), HRESULT>(()) && *final(self) == old(
                self,
            ).activated(service, cookie),
            !registration.is_failure() ==> final(self).lifecycle() == Lifecycle::Active
                && final(self).service() == Some(service) && final(self).token() == cookie
                && final(self).same_handlers(*old(self)),
    {
        if registration.failed() {
            Err(query)
        } else {
            self.service = Some(service);
            self.cookie = cookie;
            Ok(())
        }
    }

    /// Retires the listener: takes the service reference and the token
    /// together, and returns the unregister call that is owed, if any. Only a
    /// stored service with a nonzero token owes one; a second teardown owes none.
    pub fn teardown(&mut self) -> (r: Option<(S, u32)>)
        requires
            old(self).wf(),
        ensures
            r == old(self).unregister_due(),
            *final(self) == old(self).torn_down(),
            final(self).wf(),
            final(self).lifecycle() == Lifecycle::Retired,
            final(self).service().is_none(),
            final(self).token() == 0,
            final(self).same_handlers(*old(self)),
    {
        let service = self.service.take();
        let cookie = self.cookie;
        self.cookie = 0;
        self.retired = true;
        match service {
            Some(s) => {
                if cookie != 0 {
                    Some((s, cookie))
                } else {
                    None
                }
            },
            None => None,
        }
    }

    /// Installs the desktop-switch callback, replacing any earlier one.
    pub fn on_desktop_change(&mut self, callback: C)
        requires
            old(self).wf(),
            takes_any_pair(callback),
        ensures
            *final(self) == old(self).with_desktop_change(callback),
            final(self).wf(),
            final(self).desktop_change_handler() == Some(callback),
            final(self).same_registration(*old(self)),
            final(self).desktop_created_handler() == old(self).desktop_created_handler(),
            final(self).desktop_destroyed_handler() == old(self).desktop_destroyed_handler(),
            final(self).window_change_handler() == old(self).window_change_handler(),
    {
        self.on_desktop_change_slot = Some(callback);
    }

    /// Installs the desktop-created callback, replacing any earlier one.
    pub fn on_desktop_created(&mut self, callback: N)
        requires
            old(self).wf(),
            takes_any_id(callback),
        ensures
            *final(self) == old(self).with_desktop_created(callback),
            final(self).wf(),
            final(self).desktop_created_handler() == Some(callback),
            final(self).same_registration(*old(self)),
            final(self).desktop_change_handler() == old(self).desktop_change_handler(),
            final(self).desktop_destroyed_handler() == old(self).desktop_destroyed_handler(),
            final(self).window_change_handler() == old(self).window_change_handler(),
    {
        self.on_desktop_created_slot = Some(callback);
    }

    /// Installs the desktop-destroyed callback, replacing any earlier one.
    pub fn on_desktop_destroyed(&mut self, callback: D)
        requires
            old(self).wf(),
            takes_any_id(callback),
        ensures
            *final(self) == old(self).with_desktop_destroyed(callback),
            final(self).wf(),
            final(self).desktop_destroyed_handler() == Some(callback),
            final(self).same_registration(*old(self)),
            final(self).desktop_change_handler() == old(self).desktop_change_handler(),
            final(self).desktop_created_handler() == old(self).desktop_created_handler(),
            final(self).window_change_handler() == old(self).window_change_handler(),
    {
        self.on_desktop_destroyed_slot = Some(callback);
    }

    /// Installs the window-change callback, replacing any earlier one.
    pub fn on_window_change(&mut self, callback: W)
        requires
            old(self).wf(),
            takes_any_window(callback),
        ensures
            *final(self) == old(self).with_window_change(callback),
            final(self).wf(),
            final(self).window_change_handler() == Some(callback),
            final(self).same_registration(*old(self)),
            final(self).desktop_change_handler() == old(self).desktop_change_handler(),
            final(self).desktop_created_handler() == old(self).desktop_created_handler(),
            final(self).desktop_destroyed_handler() == old(self).desktop_destroyed_handler(),
    {
        self.on_window_change_slot = Some(callback);
    }

    /// A desktop was created: forwards its identifier. Always reports success.
    pub fn virtual_desktop_created(&self, desktop: DesktopID) -> (r: HRESULT)
        requires
            self.wf(),
        ensures
            r.code == 0,
            self.delivered(forwarded(Notification::DesktopCreated(desktop))),
    {
        if let Some(cb) = &self.on_desktop_created_slot {
            cb(desktop);
        }
        HRESULT::ok()
    }

    /// A desktop is about to be destroyed: not surfaced. Always reports success.
    pub fn virtual_desktop_destroy_begin(
        &self,
        destroyed_desktop: DesktopID,
        fallback_desktop: DesktopID,
    ) -> (r: HRESULT)
        ensures
            r.code == 0,
            forwarded(Notification::DesktopDestroyBegin(destroyed_desktop, fallback_desktop))
                is None,
    {
        HRESULT::ok()
    }

    /// The destruction of a desktop failed: not surfaced. Always reports success.
    pub fn virtual_desktop_destroy_failed(
        &self,
        destroyed_desktop: DesktopID,
        fallback_desktop: DesktopID,
    ) -> (r: HRESULT)
        ensures
            r.code == 0,
            forwarded(Notification::DesktopDestroyFailed(destroyed_desktop, fallback_desktop))
                is None,
    {
        HRESULT::ok()
    }

    /// A desktop was destroyed: forwards the destroyed desktop's identifier.
    /// Always reports success.
    pub fn virtual_desktop_destroyed(
        &self,
        destroyed_desktop: DesktopID,
        fallback_desktop: DesktopID,
    ) -> (r: HRESULT)
        requires
            self.wf(),
        ensures
            r.code == 0,
            self.delivered(
                forwarded(Notification::DesktopDestroyed(destroyed_desktop, fallback_desktop)),
            ),
    {
        if let Some(cb) = &self.on_desktop_destroyed_slot {
            cb(destroyed_desktop);
        }
        HRESULT::ok()
    }

    /// A window moved to another desktop: forwards its handle. Always reports
    /// success.
    pub fn view_virtual_desktop_changed(&self, window: HWND) -> (r: HRESULT)
        requires
            self.wf(),
        ensures
            r.code == 0,
            self.delivered(forwarded(Notification::ViewDesktopChanged(window))),
    {
        if let Some(cb) = &self.on_window_change_slot {
            cb(window);
        }
        HRESULT::ok()
    }

    /// The current desktop changed: forwards both identifiers. Always reports
    /// success.
    pub fn current_virtual_desktop_changed(
        &self,
        old_desktop: DesktopID,
        new_desktop: DesktopID,
    ) -> (r: HRESULT)
        requires
            self.wf(),
        ensures
            r.code == 0,
            self.delivered(forwarded(Notification::CurrentDesktopChanged(old_desktop, new_desktop))),
    {
        if let Some(cb) = &self.on_desktop_change_slot {
            cb(old_desktop, new_desktop);
        }
        HRESULT::ok()
    }

    /// Installing desktop-switch callbacks one after another leaves only the
    /// last: the earlier one is replaced, not chained, and a switch is handed to
    /// the last one alone.
    pub proof fn lemma_desktop_change_last_wins(self, first: C, last: C)
        ensures
            self.with_desktop_change(first).with_desktop_change(last) == self.with_desktop_change(
                last,
            ),
            forall|a: DesktopID, b: DesktopID|
                #[trigger] self.with_desktop_change(first).with_desktop_change(last).delivered(
                    Some(Event::DesktopSwitched(a, b)),
                ) == last.ensures((a, b), ()),
    {
    }

    /// Installing desktop-created callbacks one after another leaves only the
    /// last, and a created desktop is handed to the last one alone.
    pub proof fn lemma_desktop_created_last_wins(self, first: N, last: N)
        ensures
            self.with_desktop_created(first).with_desktop_created(last)
                == self.with_desktop_created(last),
            forall|id: DesktopID|
                #[trigger] self.with_desktop_created(first).with_desktop_created(last).delivered(
                    Some(Event::DesktopCreated(id)),
                ) == last.ensures((id,), ()),
    {
    }

    /// Installing desktop-destroyed callbacks one after another leaves only the
    /// last, and a destroyed desktop is handed to the last one alone.
    pub proof fn lemma_desktop_destroyed_last_wins(self, first: D, last: D)
        ensures
            self.with_desktop_destroyed(first).with_desktop_destroyed(last)
                == self.with_desktop_destroyed(last),
            forall|id: DesktopID|
                #[trigger] self.with_desktop_destroyed(first).with_desktop_destroyed(
                    last,
                ).delivered(Some(Event::DesktopDestroyed(id))) == last.ensures((id,), ()),
    {
    }

    /// Installing window-change callbacks one after another leaves only the
    /// last, and a moved window is handed to the last one alone.
    pub proof fn lemma_window_change_last_wins(self, first: W, last: W)
        ensures
            self.with_window_change(first).with_window_change(last) == self.with_window_change(
                last,
            ),
            forall|w: HWND|
                #[trigger] self.with_window_change(first).with_window_change(last).delivered(
                    Some(Event::WindowMoved(w)),
                ) == last.ensures((w,), ()),
    {
    }

    /// A registration that succeeds with a nonzero token, followed at once by a
    /// teardown, owes exactly one unregister call, with that token and that
    /// service.
    pub proof fn lemma_register_then_teardown(self, service: S, cookie: u32)
        requires
            self.wf(),
            self.lifecycle() == Lifecycle::Empty,
            cookie != 0,
        ensures
            self.activated(service, cookie).unregister_due() == Some((service, cookie)),
            self.activated(service, cookie).torn_down().unregister_due().is_none(),
    {
    }

    /// Teardown unregisters at most once: a second teardown owes nothing, a
    /// listener that never registered (or whose registration failed) owes
    /// nothing, and no unregister call ever carries the token zero.
    pub proof fn lemma_teardown_at_most_once(self)
        requires
            self.wf(),
        ensures
            self.torn_down().unregister_due().is_none(),
            self.torn_down().torn_down() == self.torn_down(),
            self.lifecycle() != Lifecycle::Active ==> self.unregister_due().is_none(),
            self.unregister_due() matches Some(call) ==> call.1 != 0,
    {
    }

    /// The begin and the failure of a desktop's destruction are never forwarded,
    /// whatever callbacks are installed.
    pub proof fn lemma_destroy_begin_and_failed_unobserved(
        self,
        destroyed_desktop: DesktopID,
        fallback_desktop: DesktopID,
    )
        ensures
            forwarded(Notification::DesktopDestroyBegin(destroyed_desktop, fallback_desktop))
                is None,
            forwarded(Notification::DesktopDestroyFailed(destroyed_desktop, fallback_desktop))
                is None,
            self.delivered(
                forwarded(Notification::DesktopDestroyBegin(destroyed_desktop, fallback_desktop)),
            ),
    {
    }
}

} // verus!
