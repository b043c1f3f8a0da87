//! The event loop's own state and decisions: the open sessions, the tor
//! connection attempts each session is waiting for, the callbacks owed to the
//! frontend, and what each tor event and each finished command does to them.
//! The loop itself, which talks to tor and reads the command queue, runs
//! outside and hands the events in.
use std::collections::BTreeMap;
use vstd::prelude::*;

use crate::callbacks::{CallbackData, FileTransferDirection, FileTransferResult};
use crate::service_id::ServiceId;
use crate::session::{
    connects_to_contacts, fresh_user_data, lists_users, same_but_users, same_session, ConnectContact,
    ConnectHandle, Session, SessionError, SessionHandle, UserHandle, UserType, tego_file_transfer_id,
};

verus! {

broadcast use vstd::std_specs::btree::group_btree_axioms;

/// Why an event-loop operation was refused.
#[derive(Debug, Clone, Copy, PartialEq, Eq, Structural)]
pub enum EventLoopError {
    /// no open session with this handle
    UnknownSession { session_handle: SessionHandle },
    /// no connection attempt with this handle is outstanding
    UnknownConnectHandle { connect_handle: ConnectHandle },
    /// the session refused the operation
    Session(SessionError),
}

/// A tor event, as far as the loop reads it.
#[derive(Debug)]
pub enum TorEvent {
    BootstrapStatus { progress: u32, tag: String },
    BootstrapComplete,
    LogReceived { line: String },
    OnionServicePublished,
    ConnectComplete { handle: ConnectHandle },
    ConnectFailed { handle: ConnectHandle },
}

pub struct EventLoopTask {
    // which session asked for each outstanding connection attempt
    connect_handles: BTreeMap<ConnectHandle, SessionHandle>,
    // the open sessions
    session_map: BTreeMap<SessionHandle, Session>,
    // the handle the next session gets
    next_session_handle: SessionHandle,
    // callbacks owed to the frontend, oldest first
    callback_queue: Vec<CallbackData>,
    // set once the loop is told to end
    task_complete: bool,
}

impl EventLoopTask {
    pub closed spec fn connects(&self) -> Map<ConnectHandle, SessionHandle> {
        self.connect_handles@
    }

    pub closed spec fn sessions(&self) -> Map<SessionHandle, Session> {
        self.session_map@
    }

    pub closed spec fn next_handle(&self) -> SessionHandle {
        self.next_session_handle
    }

    pub closed spec fn callbacks(&self) -> Seq<CallbackData> {
        self.callback_queue@
    }

    pub closed spec fn complete(&self) -> bool {
        self.task_complete
    }

    /// Every open session is well formed, is filed under its own handle, and
    /// has a handle below the next one to be given out.
    pub closed spec fn wf(&self) -> bool {
        &&& 0 <= self.next_session_handle
        &&& forall|h: SessionHandle| #[trigger] self.session_map@.contains_key(h) ==> {
            &&& self.session_map@[h].wf()
            &&& self.session_map@[h].handle() == h
            &&& 0 <= h < self.next_session_handle
        }
    }
}

/// Two states of the loop that differ at most in the callbacks owed.
pub open spec fn same_but_callbacks(a: EventLoopTask, b: EventLoopTask) -> bool {
    &&& a.connects() == b.connects()
    &&& a.sessions() == b.sessions()
    &&& a.next_handle() == b.next_handle()
    &&& a.complete() == b.complete()
}

/// Two states of the loop that differ at most in the sessions and the callbacks owed.
pub open spec fn same_but_sessions(a: EventLoopTask, b: EventLoopTask) -> bool {
    &&& a.connects() == b.connects()
    &&& a.next_handle() == b.next_handle()
    &&& a.complete() == b.complete()
}

/// `after` is `before` once it gave out the session handle `h`: the next
/// handle, which no open session has, and the one after it is next.
pub open spec fn allocated(before: EventLoopTask, after: EventLoopTask, h: SessionHandle) -> bool {
    &&& h == before.next_handle()
    &&& !before.sessions().contains_key(h)
    &&& after.next_handle() == h + 1
    &&& after.connects() == before.connects()
    &&& after.sessions() == before.sessions()
    &&& after.callbacks() == before.callbacks()
    &&& after.complete() == before.complete()
}

/// `after` is `before` with the session opened, and the frontend owed the news
/// that it began, with its users, after all that was owed before.
pub open spec fn installed(before: EventLoopTask, after: EventLoopTask, session: Session) -> bool {
    &&& after.sessions() == before.sessions().insert(session.handle(), session)
    &&& same_but_sessions(after, before)
    &&& after.callbacks().len() == before.callbacks().len() + 1
    &&& after.callbacks().take(before.callbacks().len() as int) == before.callbacks()
    &&& after.callbacks().last() matches CallbackData::SessionBegan { session_handle, users }
        && session_handle == session.handle() && lists_users(users@, session.users())
}

/// The connection attempts that remain once those of a session are dropped.
pub open spec fn without_session(connects: Map<ConnectHandle, SessionHandle>, h: SessionHandle) -> Map<ConnectHandle, SessionHandle> {
    connects.restrict(connects.dom().filter(|c: ConnectHandle| connects[c] != h))
}

/// The callback a tor event is reported to the frontend with, if any.
pub open spec fn tor_event_callback(e: TorEvent) -> Option<CallbackData> {
    match e {
        TorEvent::BootstrapStatus { progress, tag } => Some(CallbackData::TorBootstrapStatusChanged { progress, tag }),
        TorEvent::BootstrapComplete => Some(CallbackData::TorBootstrapComplete),
        TorEvent::LogReceived { line } => Some(CallbackData::TorLogReceived { line }),
        _ => None,
    }
}

impl EventLoopTask {
    /// A loop with no sessions, no outstanding attempts and nothing owed.
    pub fn new() -> (t: Self)
        ensures
            t.wf(),
            t.connects() == Map::<ConnectHandle, SessionHandle>::empty(),
            t.sessions() == Map::<SessionHandle, Session>::empty(),
            t.next_handle() == 0,
            t.callbacks() == Seq::<CallbackData>::empty(),
            !t.complete(),
    {
        EventLoopTask {
            connect_handles: BTreeMap::new(),
            session_map: BTreeMap::new(),
            next_session_handle: 0,
            callback_queue: Vec::new(),
            task_complete: false,
        }
    }

    /// The loop is told to end; it finishes its current round.
    pub fn end_event_loop(&mut self)
        requires
            old(self).wf(),
        ensures
            final(self).wf(),
            final(self).complete(),
            final(self).connects() == old(self).connects(),
            final(self).sessions() == old(self).sessions(),
            final(self).next_handle() == old(self).next_handle(),
            final(self).callbacks() == old(self).callbacks(),
    {
        self.task_complete = true;
    }

    pub fn is_complete(&self) -> (b: bool)
        ensures
            b == self.complete(),
    {
        self.task_complete
    }

    /// The handle the next session gets.
    pub fn next_session_handle(&self) -> (h: SessionHandle)
        ensures
            h == self.next_handle(),
    {
        self.next_session_handle
    }

    /// Whether a session is open and knows a user.
    pub fn has_user(&self, session_handle: SessionHandle, user_handle: UserHandle) -> (b: bool)
        ensures
            b == (self.sessions().contains_key(session_handle)
                && self.sessions()[session_handle].users().contains_key(user_handle)),
    {
        match self.session_map.get(&session_handle) {
            Some(s) => s.has_user(user_handle),
            None => false,
        }
    }

    pub fn has_session(&self, session_handle: SessionHandle) -> (b: bool)
        ensures
            b == self.sessions().contains_key(session_handle),
    {
        self.session_map.contains_key(&session_handle)
    }

    /// Gives out the handle for a new session; handles are never given twice.
    pub fn allocate_session_handle(&mut self) -> (h: SessionHandle)
        requires
            old(self).wf(),
            old(self).next_handle() < i64::MAX,
        ensures
            final(self).wf(),
            h == old(self).next_handle(),
            !old(self).sessions().contains_key(h),
            final(self).next_handle() == h + 1,
            final(self).connects() == old(self).connects(),
            final(self).sessions() == old(self).sessions(),
            final(self).callbacks() == old(self).callbacks(),
            final(self).complete() == old(self).complete(),
            allocated(*old(self), *final(self), h),
    {
        let h = self.next_session_handle;
        self.next_session_handle = h + 1;
        h
    }

    /// Opens a session whose onion service is up: a connection to each of its
    /// contacts is scheduled at once, and the frontend hears that the session
    /// began, with its users.
    pub fn install_session(&mut self, session: Session, commands: &mut Vec<(ConnectContact, u64)>)
        requires
            old(self).wf(),
            session.wf(),
            0 <= session.handle() < old(self).next_handle(),
            !old(self).sessions().contains_key(session.handle()),
        ensures
            final(self).wf(),
            final(self).sessions() == old(self).sessions().insert(session.handle(), session),
            same_but_sessions(*final(self), *old(self)),
            final(self).callbacks().len() == old(self).callbacks().len() + 1,
            final(self).callbacks().take(old(self).callbacks().len() as int) == old(self).callbacks(),
            final(self).callbacks().last() matches CallbackData::SessionBegan { session_handle, users }
                && session_handle == session.handle() && lists_users(users@, session.users()),
            final(commands)@.take(old(commands)@.len() as int) == old(commands)@,
            connects_to_contacts(final(commands)@.skip(old(commands)@.len() as int), session),
            installed(*old(self), *final(self), session),
    {
        let h = session.get_handle();
        session.connect_all_known_contacts(commands);
        let users = session.user_list();
        self.callback_queue.push(CallbackData::SessionBegan { session_handle: h, users });
        self.session_map.insert(h, session);
        proof {
            assert(final(commands)@.take(old(commands)@.len() as int)
                =~= final(commands)@.subrange(0, old(commands)@.len() as int));
            assert(final(commands)@.skip(old(commands)@.len() as int)
                =~= final(commands)@.subrange(old(commands)@.len() as int, final(commands)@.len() as int));
            assert(self.callback_queue@.take(old(self).callback_queue@.len() as int) =~= old(self).callback_queue@);
        }
    }

    /// Ends a session: it is closed and the connection attempts it waits for
    /// are dropped; fails for an unknown session.
    pub fn end_session(&mut self, session_handle: SessionHandle) -> (r: Result<(), EventLoopError>)
        requires
            old(self).wf(),
        ensures
            final(self).wf(),
            final(self).next_handle() == old(self).next_handle(),
            final(self).complete() == old(self).complete(),
            final(self).callbacks() == old(self).callbacks(),
            old(self).sessions().contains_key(session_handle) ==> {
                &&& r is Ok
                &&& final(self).sessions() == old(self).sessions().remove(session_handle)
                &&& final(self).connects() == without_session(old(self).connects(), session_handle)
            },
            !old(self).sessions().contains_key(session_handle) ==> {
                &&& r == Err::<(), EventLoopError>(EventLoopError::UnknownSession { session_handle })
                &&& final(self).sessions() == old(self).sessions()
                &&& final(self).connects() == old(self).connects()
            },
    {
        if self.session_map.remove(&session_handle).is_none() {
            proof {
                assert(self.session_map@ =~= old(self).session_map@);
            }
            return Err(EventLoopError::UnknownSession { session_handle });
        }
        let keys = crate::session::map_keys(&self.connect_handles);
        let ghost start = self.connect_handles@;
        let n = keys.len();
        let mut i: usize = 0;
        while i < n
            invariant
                self.wf(),
                self.session_map@ == old(self).session_map@.remove(session_handle),
                self.next_session_handle == old(self).next_session_handle,
                self.task_complete == old(self).task_complete,
                self.callback_queue@ == old(self).callback_queue@,
                n == keys@.len(),
                i <= n,
                keys@.to_set() == start.dom(),
                keys@.no_duplicates(),
                self.connect_handles@.dom().subset_of(start.dom()),
                forall|c: ConnectHandle| #[trigger] self.connect_handles@.contains_key(c) ==> self.connect_handles@[c] == start[c],
                forall|k: int| #![trigger keys@[k]] 0 <= k < i ==>
                    (self.connect_handles@.contains_key(keys@[k]) <==> start[keys@[k]] != session_handle),
                forall|k: int| #![trigger keys@[k]] i <= k < n ==> self.connect_handles@.contains_key(keys@[k]),
            decreases n - i,
        {
            let c = keys[i];
            let owner = *self.connect_handles.get(&c).unwrap();
            if owner == session_handle {
                self.connect_handles.remove(&c);
                proof {
                    assert forall|k: int| #![trigger keys@[k]] i < k < n implies self.connect_handles@.contains_key(keys@[k]) by {
                        assert(keys@[k] != keys@[i as int]);
                    }
                    assert forall|k: int| #![trigger keys@[k]] 0 <= k < i implies
                        (self.connect_handles@.contains_key(keys@[k]) <==> start[keys@[k]] != session_handle) by {
                        assert(keys@[k] != keys@[i as int]);
                    }
                }
            }
            i += 1;
        }
        proof {
            let target = without_session(start, session_handle);
            assert forall|c: ConnectHandle| #[trigger] self.connect_handles@.contains_key(c) <==> target.contains_key(c) by {
                if start.contains_key(c) {
                    assert(keys@.to_set().contains(c));
                    let k = choose|k: int| 0 <= k < keys@.len() && keys@[k] == c;
                    assert(keys@[k] == c);
                }
            }
            assert(self.connect_handles@ =~= target);
        }
        Ok(())
    }

    /// Takes a session out of the loop, to work on it; `None` for an unknown session.
    pub fn take_session(&mut self, session_handle: SessionHandle) -> (r: Option<Session>)
        requires
            old(self).wf(),
        ensures
            final(self).wf(),
            same_but_sessions(*final(self), *old(self)),
            final(self).callbacks() == old(self).callbacks(),
            final(self).sessions() == old(self).sessions().remove(session_handle),
            match r {
                Some(s) => {
                    &&& old(self).sessions().contains_key(session_handle)
                    &&& s == old(self).sessions()[session_handle]
                    &&& s.wf()
                    &&& s.handle() == session_handle
                },
                None => !old(self).sessions().contains_key(session_handle),
            },
    {
        let r = self.session_map.remove(&session_handle);
        proof {
            assert(self.session_map@ =~= old(self).session_map@.remove(session_handle));
        }
        r
    }

    /// Puts back a session that was taken out.
    pub fn restore_session(&mut self, session: Session)
        requires
            old(self).wf(),
            session.wf(),
            0 <= session.handle() < old(self).next_handle(),
        ensures
            final(self).wf(),
            same_but_sessions(*final(self), *old(self)),
            final(self).callbacks() == old(self).callbacks(),
            final(self).sessions() == old(self).sessions().insert(session.handle(), session),
    {
        let h = session.get_handle();
        self.session_map.insert(h, session);
    }

    /// Refuses a contact that a session's users already include; fails as
    /// well for an unknown session.
    pub fn can_add_contact(&self, session_handle: SessionHandle, service_id: &ServiceId) -> (r: Result<(), EventLoopError>)
        requires
            self.wf(),
        ensures
            !self.sessions().contains_key(session_handle) ==> r == Err::<(), EventLoopError>(
                EventLoopError::UnknownSession { session_handle },
            ),
            self.sessions().contains_key(session_handle) ==> {
                &&& r is Ok <==> self.sessions()[session_handle].user_of(service_id@) is None
                &&& r is Err ==> r == Err::<(), EventLoopError>(EventLoopError::Session(SessionError::DuplicateServiceId))
            },
    {
        match self.session_map.get(&session_handle) {
            Some(session) => match session.can_add_contact(service_id) {
                Ok(()) => Ok(()),
                Err(e) => Err(EventLoopError::Session(e)),
            },
            None => Err(EventLoopError::UnknownSession { session_handle }),
        }
    }

    /// Adds a contact the host asks to chat with, under the handle the profile
    /// gave it, and tells the frontend of the new pending user; fails for an
    /// unknown session or when a user with that service id exists already.
    pub fn add_pending_contact(
        &mut self,
        session_handle: SessionHandle,
        service_id: ServiceId,
        pet_name: String,
        user_handle: UserHandle,
    ) -> (r: Result<UserHandle, EventLoopError>)
        requires
            old(self).wf(),
            old(self).sessions().contains_key(session_handle)
                ==> !old(self).sessions()[session_handle].users().contains_key(user_handle),
        ensures
            final(self).wf(),
            same_but_sessions(*final(self), *old(self)),
            !old(self).sessions().contains_key(session_handle) ==> {
                &&& r == Err::<UserHandle, EventLoopError>(EventLoopError::UnknownSession { session_handle })
                &&& final(self).sessions() == old(self).sessions()
                &&& final(self).callbacks() == old(self).callbacks()
            },
            old(self).sessions().contains_key(session_handle) ==> {
                let s = old(self).sessions()[session_handle];
                let s2 = final(self).sessions()[session_handle];
                &&& final(self).sessions() == old(self).sessions().insert(session_handle, s2)
                &&& if s.user_of(service_id@) is Some {
                    &&& r == Err::<UserHandle, EventLoopError>(EventLoopError::Session(SessionError::DuplicateServiceId))
                    &&& same_session(s2, s)
                    &&& final(self).callbacks() == old(self).callbacks()
                } else {
                    &&& r == Ok::<UserHandle, EventLoopError>(user_handle)
                    &&& s2.users() == s.users().insert(user_handle, s2.users()[user_handle])
                    &&& fresh_user_data(s2.users()[user_handle], UserType::Pending, pet_name@, service_id@)
                    &&& same_but_users(s2, s)
                    &&& final(self).callbacks() == old(self).callbacks().push(
                        CallbackData::UserAdded { session_handle, user_handle, user_type: UserType::Pending },
                    )
                }
            },
    {
        let mut session = match self.session_map.remove(&session_handle) {
            Some(s) => s,
            None => {
                proof {
                    assert(self.session_map@ =~= old(self).session_map@);
                }
                return Err(EventLoopError::UnknownSession { session_handle });
            },
        };
        let r = session.add_pending_contact(service_id, pet_name, user_handle);
        self.session_map.insert(session_handle, session);
        proof {
            assert(self.session_map@.remove(session_handle) =~= old(self).session_map@.remove(session_handle));
        }
        match r {
            Ok(h) => {
                self.callback_queue.push(CallbackData::UserAdded { session_handle, user_handle: h, user_type: UserType::Pending });
                Ok(h)
            },
            Err(e) => Err(EventLoopError::Session(e)),
        }
    }

    /// Forgets a user (never a session's owner) once the profile has dropped
    /// them, and tells the frontend; the user's service id, if they were
    /// known, is given back so their connection can be closed. Fails for an
    /// unknown session.
    pub fn forget_user(&mut self, session_handle: SessionHandle, user_handle: UserHandle) -> (r: Result<Option<ServiceId>, EventLoopError>)
        requires
            old(self).wf(),
            old(self).sessions().contains_key(session_handle)
                ==> user_handle != old(self).sessions()[session_handle].owner(),
        ensures
            final(self).wf(),
            same_but_sessions(*final(self), *old(self)),
            !old(self).sessions().contains_key(session_handle) ==> {
                &&& r == Err::<Option<ServiceId>, EventLoopError>(EventLoopError::UnknownSession { session_handle })
                &&& final(self).sessions() == old(self).sessions()
                &&& final(self).callbacks() == old(self).callbacks()
            },
            old(self).sessions().contains_key(session_handle) ==> {
                let s = old(self).sessions()[session_handle];
                let s2 = final(self).sessions()[session_handle];
                &&& final(self).sessions() == old(self).sessions().insert(session_handle, s2)
                &&& s2.users() == s.users().remove(user_handle)
                &&& s2.handle() == s.handle()
                &&& s2.owner() == s.owner()
                &&& s2.pending_connections() == s.pending_connections()
                &&& s2.open_connections() == s.open_connections()
                &&& s2.to_remove() == s.to_remove()
                &&& s2.to_retry() == if s.users().contains_key(user_handle) {
                    s.to_retry().remove(user_handle)
                } else {
                    s.to_retry()
                }
                &&& r matches Ok(sid) && match sid {
                    Some(sid) => s.users().contains_key(user_handle) && sid@ == s.users()[user_handle].service_id@,
                    None => !s.users().contains_key(user_handle),
                }
                &&& final(self).callbacks() == old(self).callbacks().push(
                    CallbackData::UserRemoved { session_handle, user_handle },
                )
            },
    {
        let mut session = match self.session_map.remove(&session_handle) {
            Some(s) => s,
            None => {
                proof {
                    assert(self.session_map@ =~= old(self).session_map@);
                }
                return Err(EventLoopError::UnknownSession { session_handle });
            },
        };
        let sid = session.forget_user(user_handle);
        self.session_map.insert(session_handle, session);
        self.callback_queue.push(CallbackData::UserRemoved { session_handle, user_handle });
        proof {
            assert(self.session_map@.remove(session_handle) =~= old(self).session_map@.remove(session_handle));
        }
        Ok(sid)
    }

    /// Answers a contact request in a session: the requesting user becomes a
    /// contact, or is marked rejected; the user's service id is given back so
    /// the answer can be sent. Fails for an unknown session or user.
    pub fn acknowledge_contact_request(&mut self, session_handle: SessionHandle, user_handle: UserHandle, accept: bool) -> (r: Result<ServiceId, EventLoopError>)
        requires
            old(self).wf(),
        ensures
            final(self).wf(),
            same_but_sessions(*final(self), *old(self)),
            final(self).callbacks() == old(self).callbacks(),
            !old(self).sessions().contains_key(session_handle) ==> {
                &&& r == Err::<ServiceId, EventLoopError>(EventLoopError::UnknownSession { session_handle })
                &&& final(self).sessions() == old(self).sessions()
            },
            old(self).sessions().contains_key(session_handle) ==> {
                let s = old(self).sessions()[session_handle];
                let s2 = final(self).sessions()[session_handle];
                &&& final(self).sessions() == old(self).sessions().insert(session_handle, s2)
                &&& if s.users().contains_key(user_handle) {
                    let t = if accept { UserType::Allowed } else { UserType::Rejected };
                    &&& r matches Ok(sid) && sid@ == s.users()[user_handle].service_id@
                    &&& s2.users() == s.users().insert(user_handle, crate::session::with_user_type(s.users()[user_handle], t))
                    &&& same_but_users(s2, s)
                } else {
                    &&& r == Err::<ServiceId, EventLoopError>(EventLoopError::Session(SessionError::UnknownUser { user_handle }))
                    &&& same_session(s2, s)
                }
            },
    {
        let mut session = match self.session_map.remove(&session_handle) {
            Some(s) => s,
            None => {
                proof {
                    assert(self.session_map@ =~= old(self).session_map@);
                }
                return Err(EventLoopError::UnknownSession { session_handle });
            },
        };
        let r = if accept {
            session.accept_contact_request(user_handle)
        } else {
            session.reject_contact_request(user_handle)
        };
        self.session_map.insert(session_handle, session);
        proof {
            assert(self.session_map@.remove(session_handle) =~= old(self).session_map@.remove(session_handle));
        }
        match r {
            Ok(sid) => Ok(sid),
            Err(e) => Err(EventLoopError::Session(e)),
        }
    }

    /// Records that a session started a tor connection attempt.
    pub fn register_connect(&mut self, connect_handle: ConnectHandle, session_handle: SessionHandle)
        requires
            old(self).wf(),
        ensures
            final(self).wf(),
            final(self).connects() == old(self).connects().insert(connect_handle, session_handle),
            final(self).sessions() == old(self).sessions(),
            final(self).next_handle() == old(self).next_handle(),
            final(self).complete() == old(self).complete(),
            final(self).callbacks() == old(self).callbacks(),
    {
        self.connect_handles.insert(connect_handle, session_handle);
    }

    /// A file transfer the host refused: the frontend hears that the
    /// incoming transfer ended rejected.
    pub fn file_transfer_rejected(&mut self, session_handle: SessionHandle, user_handle: UserHandle, file_transfer_id: tego_file_transfer_id)
        requires
            old(self).wf(),
        ensures
            final(self).wf(),
            same_but_callbacks(*final(self), *old(self)),
            final(self).callbacks() == old(self).callbacks().push(CallbackData::FileTransferComplete {
                session_handle,
                user_handle,
                file_transfer_id,
                direction: FileTransferDirection::Receiving,
                result: FileTransferResult::Rejected,
            }),
    {
        self.callback_queue.push(CallbackData::FileTransferComplete {
            session_handle,
            user_handle,
            file_transfer_id,
            direction: FileTransferDirection::Receiving,
            result: FileTransferResult::Rejected,
        });
    }

    /// A file transfer the host cancelled: the frontend hears that the
    /// transfer, in the direction it went, ended cancelled.
    pub fn file_transfer_cancelled(
        &mut self,
        session_handle: SessionHandle,
        user_handle: UserHandle,
        file_transfer_id: tego_file_transfer_id,
        direction: FileTransferDirection,
    )
        requires
            old(self).wf(),
        ensures
            final(self).wf(),
            same_but_callbacks(*final(self), *old(self)),
            final(self).callbacks() == old(self).callbacks().push(CallbackData::FileTransferComplete {
                session_handle,
                user_handle,
                file_transfer_id,
                direction,
                result: FileTransferResult::Cancelled,
            }),
    {
        self.callback_queue.push(CallbackData::FileTransferComplete {
            session_handle,
            user_handle,
            file_transfer_id,
            direction,
            result: FileTransferResult::Cancelled,
        });
    }

    /// Queues callbacks that a session's work produced.
    pub fn queue_callbacks(&mut self, more: Vec<CallbackData>)
        requires
            old(self).wf(),
        ensures
            final(self).wf(),
            same_but_callbacks(*final(self), *old(self)),
            final(self).callbacks() == old(self).callbacks() + more@,
    {
        let mut more = more;
        self.callback_queue.append(&mut more);
    }

    /// Hands over the callbacks owed, oldest first, leaving none.
    pub fn take_callbacks(&mut self) -> (r: Vec<CallbackData>)
        requires
            old(self).wf(),
        ensures
            final(self).wf(),
            same_but_callbacks(*final(self), *old(self)),
            r@ == old(self).callbacks(),
            final(self).callbacks() == Seq::<CallbackData>::empty(),
    {
        let mut r: Vec<CallbackData> = Vec::new();
        std::mem::swap(&mut r, &mut self.callback_queue);
        r
    }

    /// What a tor event does: progress, completion and log lines are passed
    /// to the frontend; a finished connection attempt is matched with the
    /// session that asked for it, and a failed one is retried later by that
    /// session. Gives back the session a new stream belongs to, if it is still
    /// open; fails for an attempt nobody waits for, and with the session's
    /// error when the session does not know the attempt.
    pub fn handle_tor_event(&mut self, event: TorEvent, commands: &mut Vec<(ConnectContact, u64)>) -> (r: Result<Option<SessionHandle>, EventLoopError>)
        requires
            old(self).wf(),
            event matches TorEvent::ConnectFailed { handle } ==> old(self).connects().contains_key(handle) ==> {
                let sh = old(self).connects()[handle];
                old(self).sessions().contains_key(sh) ==> {
                    let s = old(self).sessions()[sh];
                    s.pending_connections().contains_key(handle) ==> {
                        let uh = s.pending_connections()[handle].user_handle;
                        s.users().contains_key(uh) ==> s.users()[uh].connection_failures < usize::MAX
                    }
                }
            },
        ensures
            final(self).wf(),
            final(self).next_handle() == old(self).next_handle(),
            final(self).complete() == old(self).complete(),
            match event {
                TorEvent::ConnectComplete { handle } => {
                    &&& final(self).sessions() == old(self).sessions()
                    &&& final(self).callbacks() == old(self).callbacks()
                    &&& final(commands)@ == old(commands)@
                    &&& final(self).connects() == old(self).connects().remove(handle)
                    &&& if old(self).connects().contains_key(handle) {
                        let sh = old(self).connects()[handle];
                        r == Ok::<Option<SessionHandle>, EventLoopError>(
                            if old(self).sessions().contains_key(sh) { Some(sh) } else { None },
                        )
                    } else {
                        r == Err::<Option<SessionHandle>, EventLoopError>(EventLoopError::UnknownConnectHandle { connect_handle: handle })
                    }
                },
                TorEvent::ConnectFailed { handle } => {
                    &&& final(self).callbacks() == old(self).callbacks()
                    &&& final(self).connects() == old(self).connects().remove(handle)
                    &&& if !old(self).connects().contains_key(handle) {
                        &&& r == Err::<Option<SessionHandle>, EventLoopError>(EventLoopError::UnknownConnectHandle { connect_handle: handle })
                        &&& final(self).sessions() == old(self).sessions()
                        &&& final(commands)@ == old(commands)@
                    } else if !old(self).sessions().contains_key(old(self).connects()[handle]) {
                        &&& r == Ok::<Option<SessionHandle>, EventLoopError>(None)
                        &&& final(self).sessions() == old(self).sessions()
                        &&& final(commands)@ == old(commands)@
                    } else {
                        let sh = old(self).connects()[handle];
                        let s = old(self).sessions()[sh];
                        let s2 = final(self).sessions()[sh];
                        &&& final(self).sessions() == old(self).sessions().insert(sh, s2)
                        &&& if s.pending_connections().contains_key(handle) {
                            &&& r == Ok::<Option<SessionHandle>, EventLoopError>(None)
                            &&& s2.pending_connections() == s.pending_connections().remove(handle)
                            &&& s2.handle() == s.handle()
                            &&& s2.owner() == s.owner()
                            &&& s2.open_connections() == s.open_connections()
                            &&& s2.to_remove() == s.to_remove()
                            &&& s2.to_retry() == s.to_retry()
                            &&& {
                                let p = s.pending_connections()[handle];
                                let uh = p.user_handle;
                                if s.users().contains_key(uh) {
                                    let f = (s.users()[uh].connection_failures + 1) as usize;
                                    &&& s2.users() == s.users().insert(uh, crate::session::with_failures(s.users()[uh], f))
                                    &&& final(commands)@ == old(commands)@.push(
                                        crate::session::retry_command(sh, uh, p.contact_request_message, f),
                                    )
                                } else {
                                    &&& s2.users() == s.users()
                                    &&& final(commands)@ == old(commands)@
                                }
                            }
                        } else {
                            &&& r == Err::<Option<SessionHandle>, EventLoopError>(EventLoopError::Session(
                                SessionError::UnknownConnectHandle { connect_handle: handle },
                            ))
                            &&& same_session(s2, s)
                            &&& final(commands)@ == old(commands)@
                        }
                    }
                },
                _ => {
                    &&& r == Ok::<Option<SessionHandle>, EventLoopError>(None)
                    &&& final(self).sessions() == old(self).sessions()
                    &&& final(self).connects() == old(self).connects()
                    &&& final(commands)@ == old(commands)@
                    &&& final(self).callbacks() == match tor_event_callback(event) {
                        Some(c) => old(self).callbacks().push(c),
                        None => old(self).callbacks(),
                    }
                },
            },
    {
        match event {
            TorEvent::BootstrapStatus { progress, tag } => {
                self.callback_queue.push(CallbackData::TorBootstrapStatusChanged { progress, tag });
                Ok(None)
            },
            TorEvent::BootstrapComplete => {
                self.callback_queue.push(CallbackData::TorBootstrapComplete);
                Ok(None)
            },
            TorEvent::LogReceived { line } => {
                self.callback_queue.push(CallbackData::TorLogReceived { line });
                Ok(None)
            },
            TorEvent::OnionServicePublished => Ok(None),
            TorEvent::ConnectComplete { handle } => {
                let sh = match self.connect_handles.remove(&handle) {
                    Some(sh) => sh,
                    None => {
                        proof {
                            assert(self.connect_handles@ =~= old(self).connect_handles@.remove(handle));
                        }
                        return Err(EventLoopError::UnknownConnectHandle { connect_handle: handle });
                    },
                };
                if self.session_map.contains_key(&sh) {
                    Ok(Some(sh))
                } else {
                    Ok(None)
                }
            },
            TorEvent::ConnectFailed { handle } => {
                let sh = match self.connect_handles.remove(&handle) {
                    Some(sh) => sh,
                    None => {
                        proof {
                            assert(self.connect_handles@ =~= old(self).connect_handles@.remove(handle));
                        }
                        return Err(EventLoopError::UnknownConnectHandle { connect_handle: handle });
                    },
                };
                let mut session = match self.session_map.remove(&sh) {
                    Some(s) => s,
                    None => {
                        proof {
                            assert(self.session_map@ =~= old(self).session_map@);
                        }
                        return Ok(None);
                    },
                };
                let r = session.on_connect_failed(handle, commands);
                self.session_map.insert(sh, session);
                proof {
                    assert(self.session_map@.remove(sh) =~= old(self).session_map@.remove(sh));
                }
                match r {
                    Ok(()) => Ok(None),
                    Err(e) => Err(EventLoopError::Session(e)),
                }
            },
        }
    }
}

/// Two sessions begun one after the other get increasing handles (never one
/// given out before), both are open, and the frontend hears that the first
/// began before it hears of the second.
pub proof fn law_sessions_begin_in_order(
    t0: EventLoopTask,
    t1: EventLoopTask,
    t2: EventLoopTask,
    t3: EventLoopTask,
    t4: EventLoopTask,
    h1: SessionHandle,
    h2: SessionHandle,
    s1: Session,
    s2: Session,
)
    requires
        t0.wf(),
        t2.wf(),
        allocated(t0, t1, h1),
        s1.handle() == h1,
        installed(t1, t2, s1),
        allocated(t2, t3, h2),
        s2.handle() == h2,
        installed(t3, t4, s2),
    ensures
        t0.next_handle() <= h1 < h2,
        t4.sessions().contains_key(h1) && t4.sessions()[h1] == s1,
        t4.sessions().contains_key(h2) && t4.sessions()[h2] == s2,
        t4.callbacks().len() == t0.callbacks().len() + 2,
        t4.callbacks()[t4.callbacks().len() - 2] matches CallbackData::SessionBegan { session_handle, .. } && session_handle == h1,
        t4.callbacks().last() matches CallbackData::SessionBegan { session_handle, .. } && session_handle == h2,
{
    assert(t4.callbacks()[t4.callbacks().len() - 2] == t4.callbacks().take(t3.callbacks().len() as int)[t3.callbacks().len() - 1]);
}

/// Handles rise across BeginSession requests: a session begun after another
/// (with anything in between that keeps the first session open, leaves the
/// next handle where it is or raises it, and only adds to what the frontend is
/// owed, such as a request that took a handle and then failed) gets a greater
/// handle, both are open, and the frontend hears of the first before the second.
pub proof fn law_session_handles_rise(
    t0: EventLoopTask,
    t1: EventLoopTask,
    t2: EventLoopTask,
    t3: EventLoopTask,
    t4: EventLoopTask,
    t5: EventLoopTask,
    h1: SessionHandle,
    h2: SessionHandle,
    s1: Session,
    s2: Session,
)
    requires
        t0.wf(),
        allocated(t0, t1, h1),
        s1.handle() == h1,
        installed(t1, t2, s1),
        t3.wf(),
        t2.next_handle() <= t3.next_handle(),
        t3.sessions().contains_key(h1) && t3.sessions()[h1] == s1,
        t3.callbacks().len() >= t2.callbacks().len(),
        t3.callbacks().take(t2.callbacks().len() as int) == t2.callbacks(),
        allocated(t3, t4, h2),
        s2.handle() == h2,
        installed(t4, t5, s2),
    ensures
        t0.next_handle() <= h1 < h2,
        t5.sessions().contains_key(h1) && t5.sessions()[h1] == s1,
        t5.sessions().contains_key(h2) && t5.sessions()[h2] == s2,
        t1.callbacks().len() < t5.callbacks().len() - 1,
        t5.callbacks()[t1.callbacks().len() as int] matches CallbackData::SessionBegan { session_handle, .. } && session_handle == h1,
        t5.callbacks().last() matches CallbackData::SessionBegan { session_handle, .. } && session_handle == h2,
{
    let i = t1.callbacks().len() as int;
    assert(t2.callbacks()[i] == t2.callbacks().last());
    assert(t3.callbacks()[i] == t3.callbacks().take(t2.callbacks().len() as int)[i]);
    assert(t5.callbacks()[i] == t5.callbacks().take(t4.callbacks().len() as int)[i]);
}

} // verus!
