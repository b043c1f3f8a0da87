//! The bookkeeping of one chat session: its users and their contact state, the
//! index from onion service ids to users, pending and open connections, queued
//! un-acknowledged messages and file transfers, and the retry schedule for
//! contacts whose connections failed.
use std::collections::{BTreeMap, BTreeSet};
use vstd::prelude::*;

use crate::callbacks::{CallbackData, FileTransferDirection, FileTransferResponse, FileTransferResult, UserStatus};
use crate::order::{btree_get_mut, lawful_order, sorted_keys};
use crate::service_id::ServiceId;
use vstd::std_specs::iter::IteratorSpec;

verus! {

broadcast use vstd::std_specs::btree::group_btree_axioms;

pub type SessionHandle = i64;
pub type UserHandle = i64;
/// A connection as the packet handler names it.
pub type ConnectionHandle = u64;
/// A file transfer as the packet handler names it.
pub type FileTransferHandle = u64;
/// A chat message as the packet handler names it.
pub type MessageHandle = u64;
/// An outgoing connection attempt as the tor provider names it.
pub type ConnectHandle = usize;
/// Unique (per user) message identifier.
pub type tego_message_id = u64;
/// Unique (per user) file transfer identifier.
pub type tego_file_transfer_id = u64;
/// Integer type for file sizes.
pub type tego_file_size = u64;

/// How the host relates to a user of its profile.
#[derive(Debug, Clone, Copy, PartialEq, Eq, Structural)]
pub enum UserType {
    /// the host user
    Owner,
    /// in the host's contact list
    Allowed,
    /// has asked the host to be a contact; the host has not answered
    Requesting,
    /// the host refuses all contact
    Blocked,
    /// the host has asked to be their contact; they have not answered
    Pending,
    /// the host asked and they refused, or they asked and the host refused
    Rejected,
}

/// A user as the profile stores them, with the handle the profile gives them.
#[derive(Debug)]
pub struct ProfileUser {
    pub user_handle: UserHandle,
    pub user_type: UserType,
    pub service_id: ServiceId,
    pub nickname: String,
    pub pet_name: Option<String>,
    /// whether the profile holds the user's identity private key
    pub has_private_key: bool,
}

/// A message or file transfer request sent but not yet acknowledged, kept so
/// it can be sent again when the contact comes back.
#[derive(Debug)]
pub enum UnAckedMessage {
    ChatMessage {
        message_id: tego_message_id,
        message_handle: MessageHandle,
        /// when the message was first sent, in milliseconds of a monotonic clock
        timestamp: u64,
        message_text: String,
    },
    FileTransferRequest {
        file_transfer_id: tego_file_transfer_id,
        file_transfer_handle: FileTransferHandle,
        file_upload: FileUpload,
    },
}

/// The record of a file being sent: its name, size and hash, and how much of it
/// has gone out.
#[derive(Debug)]
pub struct FileUpload {
    pub name: String,
    pub size: u64,
    pub hash: Vec<u8>,
    pub bytes_sent: u64,
}

/// The record of a file being received: how much was written of how much is expected.
#[derive(Debug, Clone, Copy, PartialEq, Eq, Structural)]
pub struct FileDownload {
    pub bytes_written: u64,
    pub expected_size: u64,
}

impl FileDownload {
    pub fn new(expected_size: u64) -> (d: Self)
        ensures
            d.bytes_written == 0,
            d.expected_size == expected_size,
    {
        FileDownload { bytes_written: 0u64, expected_size }
    }
}

/// Per-user book-keeping.
#[derive(Debug)]
pub struct UserData {
    pub user_type: UserType,
    pub pet_name: String,
    pub service_id: ServiceId,
    pub connection_failures: usize,
    pub queued_messages: Vec<UnAckedMessage>,
    pub next_message_id: u64,
    pub file_transfer_handle_to_id: BTreeMap<FileTransferHandle, tego_file_transfer_id>,
    pub file_transfer_id_to_handle: BTreeMap<tego_file_transfer_id, FileTransferHandle>,
}

impl UserData {
    pub fn new(user_type: UserType, pet_name: String, service_id: ServiceId) -> (u: Self)
        ensures
            u.user_type == user_type,
            u.pet_name@ == pet_name@,
            u.service_id@ == service_id@,
            u.connection_failures == 0,
            u.queued_messages@.len() == 0,
            u.next_message_id == 0,
            u.file_transfer_handle_to_id@ == Map::<FileTransferHandle, tego_file_transfer_id>::empty(),
            u.file_transfer_id_to_handle@ == Map::<tego_file_transfer_id, FileTransferHandle>::empty(),
    {
        UserData {
            user_type,
            pet_name,
            service_id,
            connection_failures: 0usize,
            queued_messages: Vec::new(),
            next_message_id: 0u64,
            file_transfer_handle_to_id: BTreeMap::new(),
            file_transfer_id_to_handle: BTreeMap::new(),
        }
    }

    /// Hands out the next message or file transfer id of this user.
    pub fn next_message_id(&mut self) -> (id: u64)
        requires
            old(self).next_message_id < u64::MAX,
        ensures
            id == old(self).next_message_id,
            final(self).next_message_id == old(self).next_message_id + 1,
            final(self).user_type == old(self).user_type,
            final(self).pet_name == old(self).pet_name,
            final(self).service_id == old(self).service_id,
            final(self).connection_failures == old(self).connection_failures,
            final(self).queued_messages == old(self).queued_messages,
            final(self).file_transfer_handle_to_id == old(self).file_transfer_handle_to_id,
            final(self).file_transfer_id_to_handle == old(self).file_transfer_id_to_handle,
    {
        let result = self.next_message_id;
        self.next_message_id += 1;
        result
    }
}

/// An outgoing connection attempt that tor has not yet completed.
#[derive(Debug)]
pub struct PendingConnection {
    pub user_handle: UserHandle,
    /// the introduction sent with a contact request, if this connection makes one
    pub contact_request_message: Option<String>,
}

/// What the session tracks of an open connection.
#[derive(Debug)]
pub struct Connection {
    pub service_id: Option<ServiceId>,
    pub user_handle: Option<UserHandle>,
    /// pending and in-progress file downloads
    pub file_downloads: BTreeMap<FileTransferHandle, FileDownload>,
    /// accepted file uploads
    pub file_uploads: BTreeMap<FileTransferHandle, FileUpload>,
}

/// A request to connect to a contact, to be run after a delay.
#[derive(Debug)]
pub struct ConnectContact {
    pub session_handle: SessionHandle,
    pub user_handle: UserHandle,
    pub contact_request_message: Option<String>,
}

/// Errors of session operations.
#[derive(Debug, Clone, Copy, PartialEq, Eq, Structural)]
pub enum SessionError {
    /// the profile has no owner
    NoOwner,
    /// no user with this handle
    UnknownUser { user_handle: UserHandle },
    /// a user with this service id exists already
    DuplicateServiceId,
    /// no connection with this handle
    UnknownConnection { connection_handle: ConnectionHandle },
    /// no pending connection with this handle
    UnknownConnectHandle { connect_handle: ConnectHandle },
    /// the user has no file transfer with this id
    UnknownFileTransfer { file_transfer_id: tego_file_transfer_id },
    /// the connection has no download for this file transfer
    MissingFileDownload,
    /// the user's message ids are used up
    MessageIdsExhausted,
}

struct ServiceIdEntry {
    service_id: ServiceId,
    user_handle: UserHandle,
}

pub struct Session {
    session_handle: SessionHandle,
    users: BTreeMap<UserHandle, UserData>,
    owner: UserHandle,
    // index from service id to user; the inverse of the users' service ids
    service_id_to_user_handle: Vec<ServiceIdEntry>,
    pending_connections: BTreeMap<ConnectHandle, PendingConnection>,
    open_connections: BTreeMap<ConnectionHandle, Connection>,
    // connections to be removed and cleaned up
    to_remove: BTreeSet<ConnectionHandle>,
    // users to retry connecting to
    to_retry: BTreeSet<UserHandle>,
}

/// The retry delay, in seconds, after a number of failed connection attempts.
pub open spec fn retry_delay_spec(failure_count: usize) -> u64 {
    if failure_count <= 10 {
        30
    } else if failure_count <= 15 {
        60
    } else if failure_count <= 20 {
        120
    } else {
        600
    }
}

/// Whether no two users share a service id.
pub open spec fn service_ids_unique(users: Map<UserHandle, UserData>) -> bool {
    forall|h1: UserHandle, h2: UserHandle|
        #![trigger users[h1], users[h2]]
        users.contains_key(h1) && users.contains_key(h2) && users[h1].service_id@ == users[h2].service_id@
            ==> h1 == h2
}

/// The user with the given service id, if any.
pub open spec fn user_with_service_id(users: Map<UserHandle, UserData>, service_id: Seq<char>) -> Option<UserHandle> {
    if exists|h: UserHandle| users.contains_key(h) && #[trigger] users[h].service_id@ == service_id {
        Some(choose|h: UserHandle| users.contains_key(h) && #[trigger] users[h].service_id@ == service_id)
    } else {
        None
    }
}

impl Session {
    pub closed spec fn handle(&self) -> SessionHandle {
        self.session_handle
    }

    pub closed spec fn users(&self) -> Map<UserHandle, UserData> {
        self.users@
    }

    pub closed spec fn owner(&self) -> UserHandle {
        self.owner
    }

    pub closed spec fn pending_connections(&self) -> Map<ConnectHandle, PendingConnection> {
        self.pending_connections@
    }

    pub closed spec fn open_connections(&self) -> Map<ConnectionHandle, Connection> {
        self.open_connections@
    }

    pub closed spec fn to_remove(&self) -> Set<ConnectionHandle> {
        self.to_remove@
    }

    pub closed spec fn to_retry(&self) -> Set<UserHandle> {
        self.to_retry@
    }

    closed spec fn index_matches_users(&self) -> bool {
        let idx = self.service_id_to_user_handle@;
        &&& forall|i: int|
            0 <= i < idx.len() ==> {
                &&& #[trigger] self.users@.contains_key(idx[i].user_handle)
                &&& self.users@[idx[i].user_handle].service_id@ == idx[i].service_id@
            }
        &&& forall|h: UserHandle|
            #[trigger] self.users@.contains_key(h) ==> exists|i: int|
                0 <= i < idx.len() && #[trigger] idx[i].user_handle == h
        &&& forall|i: int, j: int|
            0 <= i < j < idx.len() ==> #[trigger] idx[i].user_handle != #[trigger] idx[j].user_handle
    }

    /// The session is well formed: the owner is a user, and no two users share
    /// a service id, the index of service ids being exactly the users'.
    pub closed spec fn wf(&self) -> bool {
        &&& self.users@.contains_key(self.owner)
        &&& service_ids_unique(self.users@)
        &&& self.index_matches_users()
    }

    /// The user with the given service id, if any.
    pub open spec fn user_of(&self, service_id: Seq<char>) -> Option<UserHandle> {
        user_with_service_id(self.users(), service_id)
    }
}

/// A list of users with their contact types and names: every user once, in
/// increasing order of their handles.
pub open spec fn lists_users(list: Seq<(UserHandle, UserType, String)>, users: Map<UserHandle, UserData>) -> bool {
    &&& forall|k: int| #![trigger list[k]] 0 <= k < list.len() ==> {
        &&& users.contains_key(list[k].0)
        &&& list[k].1 == users[list[k].0].user_type
        &&& list[k].2@ == users[list[k].0].pet_name@
    }
    &&& forall|h: UserHandle| users.contains_key(h) ==> exists|k: int| 0 <= k < list.len() && #[trigger] list[k].0 == h
    &&& forall|a: int, b: int| 0 <= a < b < list.len() ==> #[trigger] list[a].0 < #[trigger] list[b].0
}

/// The name a profile user is shown under: their pet name, else their nickname.
pub open spec fn display_name(u: ProfileUser) -> Seq<char> {
    match u.pet_name {
        Some(p) => p@,
        None => u.nickname@,
    }
}

/// A user record as the session starts it for a profile user.
pub open spec fn fresh_user_data(d: UserData, user_type: UserType, pet_name: Seq<char>, service_id: Seq<char>) -> bool {
    &&& d.user_type == user_type
    &&& d.pet_name@ == pet_name
    &&& d.service_id@ == service_id
    &&& d.connection_failures == 0
    &&& d.queued_messages@.len() == 0
    &&& d.next_message_id == 0
    &&& d.file_transfer_handle_to_id@ == Map::<FileTransferHandle, tego_file_transfer_id>::empty()
    &&& d.file_transfer_id_to_handle@ == Map::<tego_file_transfer_id, FileTransferHandle>::empty()
}

/// What a profile must satisfy for a session to open on it: distinct user
/// handles, distinct service ids, at most one owner, and an owner that has its
/// private key.
pub open spec fn profile_well_formed(users: Seq<ProfileUser>) -> bool {
    &&& forall|i: int, j: int|
        0 <= i < j < users.len() ==> #[trigger] users[i].user_handle != #[trigger] users[j].user_handle
    &&& forall|i: int, j: int|
        0 <= i < j < users.len() ==> #[trigger] users[i].service_id@ != #[trigger] users[j].service_id@
    &&& forall|i: int, j: int|
        0 <= i < j < users.len() ==> !(#[trigger] users[i].user_type == UserType::Owner
            && #[trigger] users[j].user_type == UserType::Owner)
    &&& forall|i: int|
        0 <= i < users.len() && #[trigger] users[i].user_type == UserType::Owner ==> users[i].has_private_key
}

impl Session {
    /// Opens a session on the users of a profile; fails when the profile has no owner.
    pub fn new(session_handle: SessionHandle, profile_users: &Vec<ProfileUser>) -> (r: Result<Session, SessionError>)
        requires
            profile_well_formed(profile_users@),
        ensures
            r is Ok <==> exists|i: int| 0 <= i < profile_users@.len() && #[trigger] profile_users@[i].user_type == UserType::Owner,
            r matches Err(e) ==> e == SessionError::NoOwner,
            r matches Ok(s) ==> {
                &&& s.wf()
                &&& s.handle() == session_handle
                &&& forall|i: int| 0 <= i < profile_users@.len() ==> {
                    let u = #[trigger] profile_users@[i];
                    &&& s.users().contains_key(u.user_handle)
                    &&& fresh_user_data(s.users()[u.user_handle], u.user_type, display_name(u), u.service_id@)
                    &&& u.user_type == UserType::Owner ==> s.owner() == u.user_handle
                }
                &&& forall|h: UserHandle| #[trigger] s.users().contains_key(h) ==>
                    exists|i: int| 0 <= i < profile_users@.len() && #[trigger] profile_users@[i].user_handle == h
                &&& s.pending_connections().is_empty()
                &&& s.open_connections().is_empty()
                &&& s.to_remove().is_empty()
                &&& s.to_retry().is_empty()
            },
    {
        let mut users: BTreeMap<UserHandle, UserData> = BTreeMap::new();
        let mut index: Vec<ServiceIdEntry> = Vec::new();
        let mut owner: Option<UserHandle> = None;
        let n = profile_users.len();
        let ghost pu = profile_users@;
        let mut i: usize = 0;
        while i < n
            invariant
                i <= n,
                n == pu.len(),
                pu == profile_users@,
                profile_well_formed(pu),
                index@.len() == i,
                forall|k: int| #![trigger index@[k]] 0 <= k < i ==> {
                    &&& index@[k].user_handle == pu[k].user_handle
                    &&& index@[k].service_id@ == pu[k].service_id@
                },
                forall|k: int| 0 <= k < i ==> {
                    let u = #[trigger] pu[k];
                    &&& users@.contains_key(u.user_handle)
                    &&& fresh_user_data(users@[u.user_handle], u.user_type, display_name(u), u.service_id@)
                },
                forall|h: UserHandle| #[trigger] users@.contains_key(h) ==>
                    exists|k: int| 0 <= k < i && #[trigger] pu[k].user_handle == h,
                match owner {
                    Some(o) => exists|k: int| 0 <= k < i && #[trigger] pu[k].user_type == UserType::Owner && pu[k].user_handle == o,
                    None => forall|k: int| 0 <= k < i ==> #[trigger] pu[k].user_type != UserType::Owner,
                },
            decreases n - i,
        {
            let u = &profile_users[i];
            let pet_name = match &u.pet_name {
                Some(p) => p.clone(),
                None => u.nickname.clone(),
            };
            let user_data = UserData::new(u.user_type, pet_name, u.service_id.copy());
            proof {
                assert forall|k: int| 0 <= k < i implies #[trigger] pu[k].user_handle != u.user_handle by {
                    assert(pu[k].user_handle != pu[i as int].user_handle);
                }
            }
            users.insert(u.user_handle, user_data);
            let ghost old_index = index@;
            let entry = ServiceIdEntry { service_id: u.service_id.copy(), user_handle: u.user_handle };
            assert(entry.service_id@ == pu[i as int].service_id@);
            index.push(entry);
            proof {
                assert(index@[i as int].service_id@ == pu[i as int].service_id@);
                assert forall|k: int| #![trigger index@[k]] 0 <= k < i + 1 implies {
                    &&& index@[k].user_handle == pu[k].user_handle
                    &&& index@[k].service_id@ == pu[k].service_id@
                } by {
                    if k < i {
                        assert(index@[k] == old_index[k]);
                        assert(old_index[k].user_handle == pu[k].user_handle);
                        assert(old_index[k].service_id@ == pu[k].service_id@);
                    }
                }
            }
            if u.user_type == UserType::Owner {
                owner = Some(u.user_handle);
            }
            proof {
                assert forall|h: UserHandle| #[trigger] users@.contains_key(h) implies
                    exists|k: int| 0 <= k < i + 1 && #[trigger] pu[k].user_handle == h by {
                    if h == u.user_handle {
                        assert(pu[i as int].user_handle == h);
                    }
                }
            }
            i += 1;
        }
        let owner = match owner {
            Some(o) => o,
            None => {
                return Err(SessionError::NoOwner);
            },
        };
        let session = Session {
            session_handle,
            users,
            owner,
            service_id_to_user_handle: index,
            pending_connections: BTreeMap::new(),
            open_connections: BTreeMap::new(),
            to_remove: BTreeSet::new(),
            to_retry: BTreeSet::new(),
        };
        proof {
            let ko = choose|k: int| 0 <= k < n && #[trigger] pu[k].user_type == UserType::Owner && pu[k].user_handle == owner;
            assert forall|h1: UserHandle, h2: UserHandle|
                #![trigger session.users@[h1], session.users@[h2]]
                session.users@.contains_key(h1) && session.users@.contains_key(h2)
                && session.users@[h1].service_id@ == session.users@[h2].service_id@
                implies h1 == h2 by {
                let k1 = choose|k: int| 0 <= k < n && #[trigger] pu[k].user_handle == h1;
                let k2 = choose|k: int| 0 <= k < n && #[trigger] pu[k].user_handle == h2;
                if k1 < k2 {
                    assert(pu[k1].service_id@ != pu[k2].service_id@);
                } else if k2 < k1 {
                    assert(pu[k2].service_id@ != pu[k1].service_id@);
                }
            }
            assert forall|h: UserHandle| #[trigger] session.users@.contains_key(h) implies
                exists|k: int| 0 <= k < session.service_id_to_user_handle@.len()
                    && #[trigger] session.service_id_to_user_handle@[k].user_handle == h by {
                let k = choose|k: int| 0 <= k < n && #[trigger] pu[k].user_handle == h;
                assert(session.service_id_to_user_handle@[k].user_handle == h);
            }
            assert forall|i: int| 0 <= i < profile_users@.len() && #[trigger] profile_users@[i].user_type == UserType::Owner
                implies session.owner == profile_users@[i].user_handle by {
                if i < ko {
                    assert(!(pu[i].user_type == UserType::Owner && pu[ko].user_type == UserType::Owner));
                } else if ko < i {
                    assert(!(pu[ko].user_type == UserType::Owner && pu[i].user_type == UserType::Owner));
                }
            }
        }
        Ok(session)
    }
}

/// The user of a service id is the one whose service id it is, when ids are unique.
pub proof fn lemma_user_of_is(users: Map<UserHandle, UserData>, h: UserHandle)
    requires
        service_ids_unique(users),
        users.contains_key(h),
    ensures
        user_with_service_id(users, users[h].service_id@) == Some(h),
{
    let sid = users[h].service_id@;
    assert(users.contains_key(h) && users[h].service_id@ == sid);
    let c = choose|c: UserHandle| users.contains_key(c) && #[trigger] users[c].service_id@ == sid;
    assert(users[c].service_id@ == users[h].service_id@);
}

impl Session {
    /// The user with the given service id, if any.
    pub fn find_user(&self, service_id: &ServiceId) -> (r: Option<UserHandle>)
        requires
            self.wf(),
        ensures
            r == self.user_of(service_id@),
            r matches Some(h) ==> self.users().contains_key(h) && self.users()[h].service_id@ == service_id@,
    {
        let n = self.service_id_to_user_handle.len();
        let mut i: usize = 0;
        while i < n
            invariant
                self.wf(),
                i <= n,
                n == self.service_id_to_user_handle@.len(),
                forall|k: int| #![trigger self.service_id_to_user_handle@[k]] 0 <= k < i
                    ==> self.service_id_to_user_handle@[k].service_id@ != service_id@,
            decreases n - i,
        {
            let entry = &self.service_id_to_user_handle[i];
            if entry.service_id.same(service_id) {
                proof {
                    assert(self.users@.contains_key(self.service_id_to_user_handle@[i as int].user_handle));
                    lemma_user_of_is(self.users@, entry.user_handle);
                }
                return Some(entry.user_handle);
            }
            i += 1;
        }
        proof {
            if exists|h: UserHandle| self.users@.contains_key(h) && #[trigger] self.users@[h].service_id@ == service_id@ {
                let h = choose|h: UserHandle| self.users@.contains_key(h) && #[trigger] self.users@[h].service_id@ == service_id@;
                let k = choose|k: int| 0 <= k < n && #[trigger] self.service_id_to_user_handle@[k].user_handle == h;
                assert(self.service_id_to_user_handle@[k].service_id@ == service_id@);
            }
        }
        None
    }
}

/// Everything but the users is unchanged.
pub open spec fn same_but_users(a: Session, b: Session) -> bool {
    &&& a.handle() == b.handle()
    &&& a.owner() == b.owner()
    &&& a.pending_connections() == b.pending_connections()
    &&& a.open_connections() == b.open_connections()
    &&& a.to_remove() == b.to_remove()
    &&& a.to_retry() == b.to_retry()
}

/// Nothing the session tracks has changed.
pub open spec fn same_session(a: Session, b: Session) -> bool {
    &&& same_but_users(a, b)
    &&& a.users() == b.users()
}

/// Everything but the connection bookkeeping is unchanged.
pub open spec fn same_users(a: Session, b: Session) -> bool {
    &&& a.handle() == b.handle()
    &&& a.owner() == b.owner()
    &&& a.users() == b.users()
}

/// A user record with a new contact type.
pub open spec fn with_user_type(d: UserData, t: UserType) -> UserData {
    UserData { user_type: t, ..d }
}

/// A user record with a new count of failed connection attempts.
pub open spec fn with_failures(d: UserData, f: usize) -> UserData {
    UserData { connection_failures: f, ..d }
}

impl Session {
    proof fn lemma_wf_user_replaced(pre: Session, post: Session, h: UserHandle)
        requires
            pre.wf(),
            pre.users@.contains_key(h),
            post.users@ == pre.users@.insert(h, post.users@[h]),
            post.users@[h].service_id@ == pre.users@[h].service_id@,
            post.owner == pre.owner,
            post.service_id_to_user_handle@ == pre.service_id_to_user_handle@,
        ensures
            post.wf(),
    {
        let idx = post.service_id_to_user_handle@;
        assert forall|i: int| 0 <= i < idx.len() implies {
            &&& #[trigger] post.users@.contains_key(idx[i].user_handle)
            &&& post.users@[idx[i].user_handle].service_id@ == idx[i].service_id@
        } by {
            assert(pre.users@.contains_key(pre.service_id_to_user_handle@[i].user_handle));
        }
        assert forall|h2: UserHandle| #[trigger] post.users@.contains_key(h2) implies exists|i: int|
            0 <= i < idx.len() && #[trigger] idx[i].user_handle == h2 by {
            assert(pre.users@.contains_key(h2));
        }
        assert forall|h1: UserHandle, h2: UserHandle|
            #![trigger post.users@[h1], post.users@[h2]]
            post.users@.contains_key(h1) && post.users@.contains_key(h2)
            && post.users@[h1].service_id@ == post.users@[h2].service_id@
            implies h1 == h2 by {
            assert(pre.users@[h1].service_id@ == post.users@[h1].service_id@);
            assert(pre.users@[h2].service_id@ == post.users@[h2].service_id@);
        }
    }

    /// Replaces the record of user `h`, which must keep its service id.
    fn replace_user(&mut self, h: UserHandle, d: UserData)
        requires
            old(self).wf(),
            old(self).users().contains_key(h),
            d.service_id@ == old(self).users()[h].service_id@,
        ensures
            final(self).wf(),
            final(self).users() == old(self).users().insert(h, d),
            same_but_users(*final(self), *old(self)),
    {
        self.users.insert(h, d);
        proof {
            Self::lemma_wf_user_replaced(*old(self), *self, h);
        }
    }

    /// Whether the session has a user with this handle.
    pub fn has_user(&self, h: UserHandle) -> (r: bool)
        ensures
            r == self.users().contains_key(h),
    {
        self.users.contains_key(&h)
    }

    pub fn get_handle(&self) -> (h: SessionHandle)
        ensures
            h == self.handle(),
    {
        self.session_handle
    }

    pub fn get_owner(&self) -> (h: UserHandle)
        ensures
            h == self.owner(),
    {
        self.owner
    }

    /// The user a connection attempt is for, if the attempt is pending.
    pub fn pending_user(&self, connect_handle: ConnectHandle) -> (r: Option<UserHandle>)
        ensures
            match r {
                Some(h) => self.pending_connections().contains_key(connect_handle)
                    && h == self.pending_connections()[connect_handle].user_handle,
                None => !self.pending_connections().contains_key(connect_handle),
            },
    {
        match self.pending_connections.get(&connect_handle) {
            Some(p) => Some(p.user_handle),
            None => None,
        }
    }

    pub fn get_users(&self) -> (r: &BTreeMap<UserHandle, UserData>)
        ensures
            r@ == self.users(),
    {
        &self.users
    }

    /// Every user with their contact type and the name they are shown under,
    /// in increasing order of their handles.
    pub fn user_list(&self) -> (r: Vec<(UserHandle, UserType, String)>)
        ensures
            lists_users(r@, self.users()),
    {
        let keys = sorted_keys(&self.users);
        let n = keys.len();
        let mut r: Vec<(UserHandle, UserType, String)> = Vec::new();
        let mut i: usize = 0;
        while i < n
            invariant
                n == keys@.len(),
                i <= n,
                keys@.to_set() == self.users@.dom(),
                forall|a: int, b: int| 0 <= a < b < keys@.len() ==> #[trigger] keys@[a] < #[trigger] keys@[b],
                r@.len() == i,
                forall|k: int| #![trigger r@[k]] 0 <= k < i ==> {
                    &&& r@[k].0 == keys@[k]
                    &&& self.users@.contains_key(r@[k].0)
                    &&& r@[k].1 == self.users@[r@[k].0].user_type
                    &&& r@[k].2@ == self.users@[r@[k].0].pet_name@
                },
            decreases n - i,
        {
            let h = keys[i];
            proof {
                assert(keys@.to_set().contains(keys@[i as int]));
            }
            let d = self.users.get(&h).unwrap();
            r.push((h, d.user_type, d.pet_name.clone()));
            i += 1;
        }
        proof {
            assert forall|h: UserHandle| self.users().contains_key(h) implies exists|k: int| 0 <= k < r@.len() && #[trigger] r@[k].0 == h by {
                assert(keys@.to_set().contains(h));
                let k = choose|k: int| 0 <= k < keys@.len() && keys@[k] == h;
                assert(r@[k].0 == h);
            }
        }
        r
    }

    /// The service id of a user; fails for an unknown user.
    pub fn contact_service_id(&self, user_handle: UserHandle) -> (r: Result<ServiceId, SessionError>)
        ensures
            match r {
                Ok(sid) => self.users().contains_key(user_handle) && sid@ == self.users()[user_handle].service_id@,
                Err(e) => !self.users().contains_key(user_handle) && e == (SessionError::UnknownUser { user_handle }),
            },
    {
        match self.users.get(&user_handle) {
            Some(d) => Ok(d.service_id.copy()),
            None => Err(SessionError::UnknownUser { user_handle }),
        }
    }
}

impl Session {
    fn set_user_type(&mut self, h: UserHandle, t: UserType)
        requires
            old(self).wf(),
            old(self).users().contains_key(h),
        ensures
            final(self).wf(),
            final(self).users() == old(self).users().insert(h, with_user_type(old(self).users()[h], t)),
            same_but_users(*final(self), *old(self)),
    {
        match btree_get_mut(&mut self.users, &h) {
            Some(d) => {
                d.user_type = t;
            },
            None => {},
        }
        proof {
            assert(self.users@[h] =~~= with_user_type(old(self).users@[h], t));
            Self::lemma_wf_user_replaced(*old(self), *self, h);
        }
    }

    fn set_failures(&mut self, h: UserHandle, f: usize)
        requires
            old(self).wf(),
            old(self).users().contains_key(h),
        ensures
            final(self).wf(),
            final(self).users() == old(self).users().insert(h, with_failures(old(self).users()[h], f)),
            same_but_users(*final(self), *old(self)),
    {
        match btree_get_mut(&mut self.users, &h) {
            Some(d) => {
                d.connection_failures = f;
            },
            None => {},
        }
        proof {
            assert(self.users@[h] =~~= with_failures(old(self).users@[h], f));
            Self::lemma_wf_user_replaced(*old(self), *self, h);
        }
    }
}

/// A retry of a connection to a user, after a number of failures.
pub open spec fn retry_command(session_handle: SessionHandle, user_handle: UserHandle, message: Option<String>, failures: usize) -> (ConnectContact, u64) {
    (ConnectContact { session_handle, user_handle, contact_request_message: message }, retry_delay_spec(failures))
}

impl Session {
    proof fn lemma_wf_user_added(pre: Session, post: Session, h: UserHandle, d: UserData, sid: ServiceId)
        requires
            pre.wf(),
            !pre.users@.contains_key(h),
            user_with_service_id(pre.users@, d.service_id@) is None,
            sid@ == d.service_id@,
            post.users@ == pre.users@.insert(h, d),
            post.owner == pre.owner,
            post.service_id_to_user_handle@ == pre.service_id_to_user_handle@.push(ServiceIdEntry { service_id: sid, user_handle: h }),
        ensures
            post.wf(),
    {
        let idx = post.service_id_to_user_handle@;
        let pidx = pre.service_id_to_user_handle@;
        assert forall|i: int| 0 <= i < idx.len() implies {
            &&& #[trigger] post.users@.contains_key(idx[i].user_handle)
            &&& post.users@[idx[i].user_handle].service_id@ == idx[i].service_id@
        } by {
            if i < pidx.len() {
                assert(idx[i] == pidx[i]);
                assert(pre.users@.contains_key(pidx[i].user_handle));
            }
        }
        assert forall|h2: UserHandle| #[trigger] post.users@.contains_key(h2) implies exists|i: int|
            0 <= i < idx.len() && #[trigger] idx[i].user_handle == h2 by {
            if h2 == h {
                assert(idx[pidx.len() as int].user_handle == h);
            } else {
                assert(pre.users@.contains_key(h2));
                let i = choose|i: int| 0 <= i < pidx.len() && #[trigger] pidx[i].user_handle == h2;
                assert(idx[i] == pidx[i]);
            }
        }
        assert forall|h1: UserHandle, h2: UserHandle|
            #![trigger post.users@[h1], post.users@[h2]]
            post.users@.contains_key(h1) && post.users@.contains_key(h2)
            && post.users@[h1].service_id@ == post.users@[h2].service_id@
            implies h1 == h2 by {
            if h1 != h && h2 == h {
                assert(pre.users@.contains_key(h1) && pre.users@[h1].service_id@ == d.service_id@);
            } else if h1 == h && h2 != h {
                assert(pre.users@.contains_key(h2) && pre.users@[h2].service_id@ == d.service_id@);
            }
        }
    }

    /// Adds a user that is not yet in the session.
    fn insert_user(&mut self, h: UserHandle, d: UserData)
        requires
            old(self).wf(),
            !old(self).users().contains_key(h),
            old(self).user_of(d.service_id@) is None,
        ensures
            final(self).wf(),
            final(self).users() == old(self).users().insert(h, d),
            same_but_users(*final(self), *old(self)),
    {
        let sid = d.service_id.copy();
        let ghost dd = d;
        self.users.insert(h, d);
        self.service_id_to_user_handle.push(ServiceIdEntry { service_id: sid, user_handle: h });
        proof {
            Self::lemma_wf_user_added(*old(self), *self, h, dd, sid);
        }
    }

    /// Refuses a contact whose service id some user has already.
    pub fn can_add_contact(&self, service_id: &ServiceId) -> (r: Result<(), SessionError>)
        requires
            self.wf(),
        ensures
            r is Ok <==> self.user_of(service_id@) is None,
            r matches Err(e) ==> e == SessionError::DuplicateServiceId,
    {
        match self.find_user(service_id) {
            Some(_) => Err(SessionError::DuplicateServiceId),
            None => Ok(()),
        }
    }

    /// Adds a contact the host asks to chat with, under the handle the profile
    /// gave it; fails when a user with that service id exists already.
    pub fn add_pending_contact(&mut self, service_id: ServiceId, pet_name: String, user_handle: UserHandle) -> (r: Result<UserHandle, SessionError>)
        requires
            old(self).wf(),
            !old(self).users().contains_key(user_handle),
        ensures
            final(self).wf(),
            old(self).user_of(service_id@) is Some ==> {
                &&& r == Err::<UserHandle, SessionError>(SessionError::DuplicateServiceId)
                &&& same_session(*final(self), *old(self))
            },
            old(self).user_of(service_id@) is None ==> {
                &&& r == Ok::<UserHandle, SessionError>(user_handle)
                &&& final(self).users().contains_key(user_handle)
                &&& final(self).users() == old(self).users().insert(user_handle, final(self).users()[user_handle])
                &&& fresh_user_data(final(self).users()[user_handle], UserType::Pending, pet_name@, service_id@)
                &&& same_but_users(*final(self), *old(self))
            },
    {
        if self.find_user(&service_id).is_some() {
            return Err(SessionError::DuplicateServiceId);
        }
        let d = UserData::new(UserType::Pending, pet_name, service_id);
        self.insert_user(user_handle, d);
        Ok(user_handle)
    }

    /// Adds a user who asked to become a contact, under the handle the profile
    /// gave them; they are shown under their service id, and the frontend hears
    /// of the new user and of the request.
    pub fn add_requesting_user(&mut self, service_id: ServiceId, user_handle: UserHandle, message: String, callbacks: &mut Vec<CallbackData>)
        requires
            old(self).wf(),
            !old(self).users().contains_key(user_handle),
            old(self).user_of(service_id@) is None,
        ensures
            final(self).wf(),
            final(self).users().contains_key(user_handle),
            final(self).users() == old(self).users().insert(user_handle, final(self).users()[user_handle]),
            fresh_user_data(final(self).users()[user_handle], UserType::Requesting, service_id@, service_id@),
            same_but_users(*final(self), *old(self)),
            final(callbacks)@ == old(callbacks)@.push(
                CallbackData::UserAdded { session_handle: old(self).handle(), user_handle, user_type: UserType::Requesting },
            ).push(CallbackData::ChatRequestReceived { session_handle: old(self).handle(), user_handle, message }),
    {
        let pet_name = String::from_str(service_id.as_str());
        let d = UserData::new(UserType::Requesting, pet_name, service_id);
        self.insert_user(user_handle, d);
        let session_handle = self.session_handle;
        callbacks.push(CallbackData::UserAdded { session_handle, user_handle, user_type: UserType::Requesting });
        callbacks.push(CallbackData::ChatRequestReceived { session_handle, user_handle, message });
    }

    /// Makes a requesting user a contact; fails for an unknown user.
    pub fn accept_contact_request(&mut self, user_handle: UserHandle) -> (r: Result<ServiceId, SessionError>)
        requires
            old(self).wf(),
        ensures
            final(self).wf(),
            !old(self).users().contains_key(user_handle) ==> {
                &&& r == Err::<ServiceId, SessionError>(SessionError::UnknownUser { user_handle })
                &&& same_session(*final(self), *old(self))
            },
            old(self).users().contains_key(user_handle) ==> {
                &&& r matches Ok(sid) && sid@ == old(self).users()[user_handle].service_id@
                &&& final(self).users() == old(self).users().insert(user_handle, with_user_type(old(self).users()[user_handle], UserType::Allowed))
                &&& same_but_users(*final(self), *old(self))
            },
    {
        let sid = self.contact_service_id(user_handle)?;
        self.set_user_type(user_handle, UserType::Allowed);
        Ok(sid)
    }

    /// Marks a requesting user rejected; fails for an unknown user.
    pub fn reject_contact_request(&mut self, user_handle: UserHandle) -> (r: Result<ServiceId, SessionError>)
        requires
            old(self).wf(),
        ensures
            final(self).wf(),
            !old(self).users().contains_key(user_handle) ==> {
                &&& r == Err::<ServiceId, SessionError>(SessionError::UnknownUser { user_handle })
                &&& same_session(*final(self), *old(self))
            },
            old(self).users().contains_key(user_handle) ==> {
                &&& r matches Ok(sid) && sid@ == old(self).users()[user_handle].service_id@
                &&& final(self).users() == old(self).users().insert(user_handle, with_user_type(old(self).users()[user_handle], UserType::Rejected))
                &&& same_but_users(*final(self), *old(self))
            },
    {
        let sid = self.contact_service_id(user_handle)?;
        self.set_user_type(user_handle, UserType::Rejected);
        Ok(sid)
    }

    /// Schedules the removal of a connection.
    pub fn mark_for_removal(&mut self, connection_handle: ConnectionHandle)
        requires
            old(self).wf(),
        ensures
            final(self).wf(),
            final(self).to_remove() == old(self).to_remove().insert(connection_handle),
            same_users(*final(self), *old(self)),
            final(self).pending_connections() == old(self).pending_connections(),
            final(self).open_connections() == old(self).open_connections(),
            final(self).to_retry() == old(self).to_retry(),
    {
        self.to_remove.insert(connection_handle);
    }

    /// After the packet handler answered a rejected contact request on a
    /// connection: an open connection is scheduled for removal. Tells whether it is open.
    pub fn close_rejected_connection(&mut self, connection_handle: ConnectionHandle) -> (open: bool)
        requires
            old(self).wf(),
        ensures
            final(self).wf(),
            open == old(self).open_connections().contains_key(connection_handle),
            final(self).to_remove() == if open {
                old(self).to_remove().insert(connection_handle)
            } else {
                old(self).to_remove()
            },
            same_users(*final(self), *old(self)),
            final(self).pending_connections() == old(self).pending_connections(),
            final(self).open_connections() == old(self).open_connections(),
            final(self).to_retry() == old(self).to_retry(),
    {
        if self.open_connections.contains_key(&connection_handle) {
            self.to_remove.insert(connection_handle);
            true
        } else {
            false
        }
    }

    /// Starts tracking an open connection.
    pub fn add_connection(&mut self, connection_handle: ConnectionHandle, service_id: Option<ServiceId>, user_handle: Option<UserHandle>)
        requires
            old(self).wf(),
        ensures
            final(self).wf(),
            final(self).open_connections().contains_key(connection_handle),
            final(self).open_connections() == old(self).open_connections().insert(
                connection_handle,
                final(self).open_connections()[connection_handle],
            ),
            ({
                let c = final(self).open_connections()[connection_handle];
                &&& c.service_id == service_id
                &&& c.user_handle == user_handle
                &&& c.file_downloads@ == Map::<FileTransferHandle, FileDownload>::empty()
                &&& c.file_uploads@ == Map::<FileTransferHandle, FileUpload>::empty()
            }),
            same_users(*final(self), *old(self)),
            final(self).pending_connections() == old(self).pending_connections(),
            final(self).to_remove() == old(self).to_remove(),
            final(self).to_retry() == old(self).to_retry(),
    {
        let connection = Connection {
            service_id,
            user_handle,
            file_downloads: BTreeMap::new(),
            file_uploads: BTreeMap::new(),
        };
        self.open_connections.insert(connection_handle, connection);
    }

    /// Counts a failed connection attempt to a user and schedules a retry
    /// after the delay that count calls for.
    fn retry_later(&mut self, h: UserHandle, message: Option<String>, commands: &mut Vec<(ConnectContact, u64)>)
        requires
            old(self).wf(),
            old(self).users().contains_key(h),
            old(self).users()[h].connection_failures < usize::MAX,
        ensures
            final(self).wf(),
            final(self).users() == old(self).users().insert(
                h,
                with_failures(old(self).users()[h], (old(self).users()[h].connection_failures + 1) as usize),
            ),
            same_but_users(*final(self), *old(self)),
            final(commands)@ == old(commands)@.push(
                retry_command(old(self).handle(), h, message, (old(self).users()[h].connection_failures + 1) as usize),
            ),
    {
        let failures = match self.users.get(&h) {
            Some(d) => d.connection_failures + 1,
            None => 1,
        };
        self.set_failures(h, failures);
        let delay = retry_delay(failures);
        commands.push((ConnectContact { session_handle: self.session_handle, user_handle: h, contact_request_message: message }, delay));
    }

    /// After asking tor to connect to a contact: a started attempt is recorded as
    /// pending; a refused one counts as a failure and is retried later.
    pub fn on_connect_started(
        &mut self,
        user_handle: UserHandle,
        connect_handle: Option<ConnectHandle>,
        contact_request_message: Option<String>,
        commands: &mut Vec<(ConnectContact, u64)>,
    )
        requires
            old(self).wf(),
            old(self).users().contains_key(user_handle),
            old(self).users()[user_handle].connection_failures < usize::MAX,
        ensures
            final(self).wf(),
            match connect_handle {
                Some(ch) => {
                    &&& final(self).pending_connections() == old(self).pending_connections().insert(
                        ch,
                        PendingConnection { user_handle, contact_request_message },
                    )
                    &&& same_users(*final(self), *old(self))
                    &&& final(self).open_connections() == old(self).open_connections()
                    &&& final(self).to_remove() == old(self).to_remove()
                    &&& final(self).to_retry() == old(self).to_retry()
                    &&& final(commands)@ == old(commands)@
                },
                None => {
                    &&& final(self).users() == old(self).users().insert(
                        user_handle,
                        with_failures(old(self).users()[user_handle], (old(self).users()[user_handle].connection_failures + 1) as usize),
                    )
                    &&& same_but_users(*final(self), *old(self))
                    &&& final(commands)@ == old(commands)@.push(
                        retry_command(
                            old(self).handle(),
                            user_handle,
                            contact_request_message,
                            (old(self).users()[user_handle].connection_failures + 1) as usize,
                        ),
                    )
                },
            },
    {
        match connect_handle {
            Some(ch) => {
                self.pending_connections.insert(ch, PendingConnection { user_handle, contact_request_message });
            },
            None => {
                self.retry_later(user_handle, contact_request_message, commands);
            },
        }
    }

    /// Tor could not connect: the attempt stops pending, and a known user's
    /// failure count grows and a retry is scheduled; fails for an unknown attempt.
    pub fn on_connect_failed(&mut self, connect_handle: ConnectHandle, commands: &mut Vec<(ConnectContact, u64)>) -> (r: Result<(), SessionError>)
        requires
            old(self).wf(),
            old(self).pending_connections().contains_key(connect_handle) ==> {
                let h = old(self).pending_connections()[connect_handle].user_handle;
                old(self).users().contains_key(h) ==> old(self).users()[h].connection_failures < usize::MAX
            },
        ensures
            final(self).wf(),
            !old(self).pending_connections().contains_key(connect_handle) ==> {
                &&& r == Err::<(), SessionError>(SessionError::UnknownConnectHandle { connect_handle })
                &&& same_session(*final(self), *old(self))
                &&& final(commands)@ == old(commands)@
            },
            old(self).pending_connections().contains_key(connect_handle) ==> {
                let p = old(self).pending_connections()[connect_handle];
                let h = p.user_handle;
                &&& r is Ok
                &&& final(self).pending_connections() == old(self).pending_connections().remove(connect_handle)
                &&& final(self).handle() == old(self).handle()
                &&& final(self).owner() == old(self).owner()
                &&& final(self).open_connections() == old(self).open_connections()
                &&& final(self).to_remove() == old(self).to_remove()
                &&& final(self).to_retry() == old(self).to_retry()
                &&& if old(self).users().contains_key(h) {
                    let f = (old(self).users()[h].connection_failures + 1) as usize;
                    &&& final(self).users() == old(self).users().insert(h, with_failures(old(self).users()[h], f))
                    &&& final(commands)@ == old(commands)@.push(retry_command(old(self).handle(), h, p.contact_request_message, f))
                } else {
                    &&& final(self).users() == old(self).users()
                    &&& final(commands)@ == old(commands)@
                }
            },
    {
        let pending = match self.pending_connections.remove(&connect_handle) {
            Some(p) => p,
            None => {
                assert(self.pending_connections@ =~= old(self).pending_connections@);
                return Err(SessionError::UnknownConnectHandle { connect_handle });
            },
        };
        let PendingConnection { user_handle, contact_request_message } = pending;
        if self.users.contains_key(&user_handle) {
            self.retry_later(user_handle, contact_request_message, commands);
        }
        Ok(())
    }

    /// Tor connected: the attempt stops pending, and its user and service id
    /// are given back to open the connection with; fails for an unknown attempt
    /// or a user who is gone.
    pub fn take_pending_connection(&mut self, connect_handle: ConnectHandle) -> (r: Result<(UserHandle, Option<String>, ServiceId), SessionError>)
        requires
            old(self).wf(),
        ensures
            final(self).wf(),
            same_users(*final(self), *old(self)),
            final(self).open_connections() == old(self).open_connections(),
            final(self).to_remove() == old(self).to_remove(),
            final(self).to_retry() == old(self).to_retry(),
            final(self).pending_connections() == old(self).pending_connections().remove(connect_handle),
            !old(self).pending_connections().contains_key(connect_handle) ==>
                r == Err::<(UserHandle, Option<String>, ServiceId), SessionError>(SessionError::UnknownConnectHandle { connect_handle }),
            old(self).pending_connections().contains_key(connect_handle) ==> {
                let p = old(self).pending_connections()[connect_handle];
                if old(self).users().contains_key(p.user_handle) {
                    r matches Ok(t) && t.0 == p.user_handle && t.1 == p.contact_request_message
                        && t.2@ == old(self).users()[p.user_handle].service_id@
                } else {
                    r == Err::<(UserHandle, Option<String>, ServiceId), SessionError>(SessionError::UnknownUser { user_handle: p.user_handle })
                }
            },
    {
        let pending = match self.pending_connections.remove(&connect_handle) {
            Some(p) => p,
            None => {
                return Err(SessionError::UnknownConnectHandle { connect_handle });
            },
        };
        let PendingConnection { user_handle, contact_request_message } = pending;
        let sid = self.contact_service_id(user_handle)?;
        Ok((user_handle, contact_request_message, sid))
    }
}

/// Two user records agree on everything but their queued messages, their next
/// message id and their file transfer maps.
pub open spec fn same_identity(a: UserData, b: UserData) -> bool {
    &&& a.user_type == b.user_type
    &&& a.pet_name == b.pet_name
    &&& a.service_id == b.service_id
    &&& a.connection_failures == b.connection_failures
}

/// The file transfer maps of two user records agree.
pub open spec fn same_transfer_maps(a: UserData, b: UserData) -> bool {
    &&& a.file_transfer_handle_to_id@ == b.file_transfer_handle_to_id@
    &&& a.file_transfer_id_to_handle@ == b.file_transfer_id_to_handle@
}

impl Session {
    proof fn lemma_wf_user_removed(pre: Session, post: Session, h: UserHandle, k: int)
        requires
            pre.wf(),
            h != pre.owner,
            0 <= k < pre.service_id_to_user_handle@.len(),
            pre.service_id_to_user_handle@[k].user_handle == h,
            post.users@ == pre.users@.remove(h),
            post.owner == pre.owner,
            post.service_id_to_user_handle@ == pre.service_id_to_user_handle@.remove(k),
        ensures
            post.wf(),
    {
        let idx = post.service_id_to_user_handle@;
        let pidx = pre.service_id_to_user_handle@;
        assert forall|i: int| 0 <= i < idx.len() implies {
            &&& #[trigger] post.users@.contains_key(idx[i].user_handle)
            &&& post.users@[idx[i].user_handle].service_id@ == idx[i].service_id@
        } by {
            let j = if i < k { i } else { i + 1 };
            assert(idx[i] == pidx[j]);
            assert(pre.users@.contains_key(pidx[j].user_handle));
            assert(pidx[j].user_handle != h) by {
                if j < k {
                    assert(pidx[j].user_handle != pidx[k].user_handle);
                } else {
                    assert(pidx[k].user_handle != pidx[j].user_handle);
                }
            }
        }
        assert forall|h2: UserHandle| #[trigger] post.users@.contains_key(h2) implies exists|i: int|
            0 <= i < idx.len() && #[trigger] idx[i].user_handle == h2 by {
            assert(pre.users@.contains_key(h2));
            let j = choose|j: int| 0 <= j < pidx.len() && #[trigger] pidx[j].user_handle == h2;
            assert(j != k);
            let i = if j < k { j } else { j - 1 };
            assert(idx[i] == pidx[j]);
        }
    }

    /// Forgets a user (never the owner) once the profile has dropped them: the
    /// user and their retry are gone, and their service id is given back so the
    /// packet handler can forget them too.
    pub fn forget_user(&mut self, user_handle: UserHandle) -> (r: Option<ServiceId>)
        requires
            old(self).wf(),
            user_handle != old(self).owner(),
        ensures
            final(self).wf(),
            final(self).users() == old(self).users().remove(user_handle),
            match r {
                Some(sid) => old(self).users().contains_key(user_handle) && sid@ == old(self).users()[user_handle].service_id@,
                None => !old(self).users().contains_key(user_handle),
            },
            final(self).to_retry() == if old(self).users().contains_key(user_handle) {
                old(self).to_retry().remove(user_handle)
            } else {
                old(self).to_retry()
            },
            final(self).handle() == old(self).handle(),
            final(self).owner() == old(self).owner(),
            final(self).pending_connections() == old(self).pending_connections(),
            final(self).open_connections() == old(self).open_connections(),
            final(self).to_remove() == old(self).to_remove(),
    {
        let d = match self.users.remove(&user_handle) {
            Some(d) => d,
            None => {
                assert(self.users@ =~= old(self).users@.remove(user_handle));
                return None;
            },
        };
        let n = self.service_id_to_user_handle.len();
        let mut k: usize = 0;
        while k < n && self.service_id_to_user_handle[k].user_handle != user_handle
            invariant
                n == self.service_id_to_user_handle@.len(),
                self.service_id_to_user_handle@ == old(self).service_id_to_user_handle@,
                k <= n,
                forall|j: int| #![trigger self.service_id_to_user_handle@[j]] 0 <= j < k
                    ==> self.service_id_to_user_handle@[j].user_handle != user_handle,
            decreases n - k,
        {
            k += 1;
        }
        proof {
            if k == n {
                let j = choose|j: int| 0 <= j < n && #[trigger] old(self).service_id_to_user_handle@[j].user_handle == user_handle;
                assert(self.service_id_to_user_handle@[j].user_handle == user_handle);
            }
        }
        let _ = self.service_id_to_user_handle.remove(k);
        self.to_retry.remove(&user_handle);
        proof {
            Self::lemma_wf_user_removed(*old(self), *self, user_handle, k as int);
        }
        Some(d.service_id)
    }

    /// Records a chat message the packet handler sent on a connection, queued
    /// until acknowledged; fails when the connection is not open.
    pub fn record_sent_message(
        &mut self,
        user_handle: UserHandle,
        connection_handle: ConnectionHandle,
        message_handle: MessageHandle,
        message_text: String,
        timestamp: u64,
    ) -> (r: Result<tego_message_id, SessionError>)
        requires
            old(self).wf(),
            old(self).users().contains_key(user_handle),
            old(self).users()[user_handle].next_message_id < u64::MAX,
        ensures
            final(self).wf(),
            !old(self).open_connections().contains_key(connection_handle) ==> {
                &&& r == Err::<tego_message_id, SessionError>(SessionError::UnknownConnection { connection_handle })
                &&& same_session(*final(self), *old(self))
            },
            old(self).open_connections().contains_key(connection_handle) ==> {
                let d = old(self).users()[user_handle];
                let e = final(self).users()[user_handle];
                &&& r == Ok::<tego_message_id, SessionError>(d.next_message_id)
                &&& final(self).users() == old(self).users().insert(user_handle, e)
                &&& same_identity(d, e)
                &&& same_transfer_maps(d, e)
                &&& e.next_message_id == d.next_message_id + 1
                &&& e.queued_messages@.len() == d.queued_messages@.len() + 1
                &&& e.queued_messages@.drop_last() == d.queued_messages@
                &&& e.queued_messages@.last() matches UnAckedMessage::ChatMessage { message_id, message_handle: mh, timestamp: ts, message_text: text }
                    && message_id == d.next_message_id && mh == message_handle && ts == timestamp && text == message_text
                &&& same_but_users(*final(self), *old(self))
            },
    {
        if !self.open_connections.contains_key(&connection_handle) {
            return Err(SessionError::UnknownConnection { connection_handle });
        }
        let mut id: u64 = 0;
        match btree_get_mut(&mut self.users, &user_handle) {
            Some(d) => {
                id = d.next_message_id();
                d.queued_messages.push(UnAckedMessage::ChatMessage { message_id: id, message_handle, timestamp, message_text });
            },
            None => {},
        }
        proof {
            assert(self.users@[user_handle].queued_messages@.drop_last() =~= old(self).users@[user_handle].queued_messages@);
            Self::lemma_wf_user_replaced(*old(self), *self, user_handle);
        }
        Ok(id)
    }

    /// Records a file transfer request the packet handler sent on a connection,
    /// queued until acknowledged, under a new file transfer id mapped both ways
    /// to the packet handler's handle; gives back the id and the file's size.
    /// Fails when the connection is not open.
    pub fn record_file_transfer_request(
        &mut self,
        user_handle: UserHandle,
        connection_handle: ConnectionHandle,
        file_transfer_handle: FileTransferHandle,
        file_upload: FileUpload,
    ) -> (r: Result<(tego_file_transfer_id, tego_file_size), SessionError>)
        requires
            old(self).wf(),
            old(self).users().contains_key(user_handle),
            old(self).users()[user_handle].next_message_id < u64::MAX,
        ensures
            final(self).wf(),
            !old(self).open_connections().contains_key(connection_handle) ==> {
                &&& r == Err::<(tego_file_transfer_id, tego_file_size), SessionError>(SessionError::UnknownConnection { connection_handle })
                &&& same_session(*final(self), *old(self))
            },
            old(self).open_connections().contains_key(connection_handle) ==> {
                let d = old(self).users()[user_handle];
                let e = final(self).users()[user_handle];
                let id = d.next_message_id;
                &&& r == Ok::<(tego_file_transfer_id, tego_file_size), SessionError>((id, file_upload.size))
                &&& final(self).users() == old(self).users().insert(user_handle, e)
                &&& same_identity(d, e)
                &&& e.next_message_id == d.next_message_id + 1
                &&& e.file_transfer_id_to_handle@ == d.file_transfer_id_to_handle@.insert(id, file_transfer_handle)
                &&& e.file_transfer_handle_to_id@ == d.file_transfer_handle_to_id@.insert(file_transfer_handle, id)
                &&& e.queued_messages@.len() == d.queued_messages@.len() + 1
                &&& e.queued_messages@.drop_last() == d.queued_messages@
                &&& e.queued_messages@.last() matches UnAckedMessage::FileTransferRequest { file_transfer_id, file_transfer_handle: fth, file_upload: u }
                    && file_transfer_id == id && fth == file_transfer_handle && u == file_upload
                &&& same_but_users(*final(self), *old(self))
            },
    {
        if !self.open_connections.contains_key(&connection_handle) {
            return Err(SessionError::UnknownConnection { connection_handle });
        }
        let file_size = file_upload.size;
        let mut id: u64 = 0;
        match btree_get_mut(&mut self.users, &user_handle) {
            Some(d) => {
                id = d.next_message_id();
                d.file_transfer_id_to_handle.insert(id, file_transfer_handle);
                d.file_transfer_handle_to_id.insert(file_transfer_handle, id);
                d.queued_messages.push(UnAckedMessage::FileTransferRequest { file_transfer_id: id, file_transfer_handle, file_upload });
            },
            None => {},
        }
        proof {
            assert(self.users@[user_handle].queued_messages@.drop_last() =~= old(self).users@[user_handle].queued_messages@);
            Self::lemma_wf_user_replaced(*old(self), *self, user_handle);
        }
        Ok((id, file_size))
    }

    /// The service id of a user and the packet handler's handle for one of their
    /// file transfers; fails for an unknown user or transfer id.
    pub fn file_transfer_handle_of(&self, user_handle: UserHandle, file_transfer_id: tego_file_transfer_id) -> (r: Result<(ServiceId, FileTransferHandle), SessionError>)
        ensures
            !self.users().contains_key(user_handle) ==> r == Err::<(ServiceId, FileTransferHandle), SessionError>(SessionError::UnknownUser { user_handle }),
            self.users().contains_key(user_handle) ==> {
                let d = self.users()[user_handle];
                if d.file_transfer_id_to_handle@.contains_key(file_transfer_id) {
                    r matches Ok(t) && t.0@ == d.service_id@ && t.1 == d.file_transfer_id_to_handle@[file_transfer_id]
                } else {
                    r == Err::<(ServiceId, FileTransferHandle), SessionError>(SessionError::UnknownFileTransfer { file_transfer_id })
                }
            },
    {
        let d = match self.users.get(&user_handle) {
            Some(d) => d,
            None => {
                return Err(SessionError::UnknownUser { user_handle });
            },
        };
        match d.file_transfer_id_to_handle.get(&file_transfer_id) {
            Some(fth) => Ok((d.service_id.copy(), *fth)),
            None => Err(SessionError::UnknownFileTransfer { file_transfer_id }),
        }
    }

    /// Checks that a connection is open and has a download for a file transfer,
    /// before the download is started.
    pub fn check_file_download(&self, connection_handle: ConnectionHandle, file_transfer_handle: FileTransferHandle) -> (r: Result<(), SessionError>)
        ensures
            !self.open_connections().contains_key(connection_handle) ==> r == Err::<(), SessionError>(SessionError::UnknownConnection { connection_handle }),
            self.open_connections().contains_key(connection_handle) ==> if self.open_connections()[connection_handle].file_downloads@.contains_key(file_transfer_handle) {
                r is Ok
            } else {
                r == Err::<(), SessionError>(SessionError::MissingFileDownload)
            },
    {
        let connection = match self.open_connections.get(&connection_handle) {
            Some(c) => c,
            None => {
                return Err(SessionError::UnknownConnection { connection_handle });
            },
        };
        if connection.file_downloads.contains_key(&file_transfer_handle) {
            Ok(())
        } else {
            Err(SessionError::MissingFileDownload)
        }
    }
}

/// Whether a queued message is the file transfer request with this id.
pub open spec fn is_request_with_id(m: UnAckedMessage, id: tego_file_transfer_id) -> bool {
    m matches UnAckedMessage::FileTransferRequest { file_transfer_id, .. } && file_transfer_id == id
}

/// Whether a queued message is the file transfer request with this handle.
pub open spec fn is_request_with_handle(m: UnAckedMessage, fth: FileTransferHandle) -> bool {
    m matches UnAckedMessage::FileTransferRequest { file_transfer_handle, .. } && file_transfer_handle == fth
}

/// Whether a queued message is the chat message with this handle.
pub open spec fn is_message_with_handle(m: UnAckedMessage, mh: MessageHandle) -> bool {
    m matches UnAckedMessage::ChatMessage { message_handle, .. } && message_handle == mh
}

/// The position of the first queued message the predicate picks, if any.
pub open spec fn first_match(q: Seq<UnAckedMessage>, p: spec_fn(UnAckedMessage) -> bool) -> Option<int> {
    if exists|i: int| 0 <= i < q.len() && #[trigger] p(q[i]) {
        Some(choose|i: int| 0 <= i < q.len() && #[trigger] p(q[i]) && forall|j: int| 0 <= j < i ==> !#[trigger] p(q[j]))
    } else {
        None
    }
}

/// The queue without the first message the predicate picks.
pub open spec fn without_first_match(q: Seq<UnAckedMessage>, p: spec_fn(UnAckedMessage) -> bool) -> Seq<UnAckedMessage> {
    match first_match(q, p) {
        Some(i) => q.remove(i),
        None => q,
    }
}

/// The first match is the earliest position the predicate picks.
pub proof fn lemma_first_match(q: Seq<UnAckedMessage>, p: spec_fn(UnAckedMessage) -> bool, i: int)
    requires
        0 <= i < q.len(),
        p(q[i]),
        forall|j: int| 0 <= j < i ==> !#[trigger] p(q[j]),
    ensures
        first_match(q, p) == Some(i),
{
    let c = choose|c: int| 0 <= c < q.len() && #[trigger] p(q[c]) && forall|j: int| 0 <= j < c ==> !#[trigger] p(q[j]);
    if c < i {
        assert(!p(q[c]));
    } else if i < c {
        assert(!p(q[i]));
    }
}

/// When the predicate picks some position, it picks an earliest one.
pub proof fn lemma_earliest_match_exists(q: Seq<UnAckedMessage>, p: spec_fn(UnAckedMessage) -> bool, i: int)
    requires
        0 <= i < q.len(),
        p(q[i]),
    ensures
        exists|m: int| 0 <= m < q.len() && #[trigger] p(q[m]) && forall|j: int| 0 <= j < m ==> !#[trigger] p(q[j]),
    decreases i,
{
    if exists|j: int| 0 <= j < i && #[trigger] p(q[j]) {
        let j = choose|j: int| 0 <= j < i && #[trigger] p(q[j]);
        lemma_earliest_match_exists(q, p, j);
    } else {
        assert(forall|j: int| 0 <= j < i ==> !#[trigger] p(q[j]));
    }
}

/// The first match is a position the predicate picks.
pub proof fn lemma_first_match_picks(q: Seq<UnAckedMessage>, p: spec_fn(UnAckedMessage) -> bool)
    ensures
        first_match(q, p) matches Some(i) ==> 0 <= i < q.len() && p(q[i]),
{
    if exists|i: int| 0 <= i < q.len() && #[trigger] p(q[i]) {
        let i = choose|i: int| 0 <= i < q.len() && #[trigger] p(q[i]);
        lemma_earliest_match_exists(q, p, i);
    }
}

/// A queue the predicate picks nothing from has no first match.
pub proof fn lemma_no_match(q: Seq<UnAckedMessage>, p: spec_fn(UnAckedMessage) -> bool)
    requires
        forall|j: int| 0 <= j < q.len() ==> !#[trigger] p(q[j]),
    ensures
        first_match(q, p) is None,
{
}

/// Where in a queue the first file transfer request with this id stands.
fn find_request_with_id(q: &Vec<UnAckedMessage>, id: tego_file_transfer_id) -> (r: Option<usize>)
    ensures
        match r {
            Some(i) => i < q@.len() && first_match(q@, |m: UnAckedMessage| is_request_with_id(m, id)) == Some(i as int),
            None => first_match(q@, |m: UnAckedMessage| is_request_with_id(m, id)) is None,
        },
{
    let ghost p = |m: UnAckedMessage| is_request_with_id(m, id);
    let mut i: usize = 0;
    while i < q.len()
        invariant
            p == (|m: UnAckedMessage| is_request_with_id(m, id)),
            i <= q@.len(),
            forall|j: int| 0 <= j < i ==> !#[trigger] p(q@[j]),
        decreases q@.len() - i,
    {
        let found = match &q[i] {
            UnAckedMessage::FileTransferRequest { file_transfer_id, .. } => *file_transfer_id == id,
            _ => false,
        };
        assert(found == is_request_with_id(q@[i as int], id));
        if found {
            proof {
                lemma_first_match(q@, p, i as int);
            }
            return Some(i);
        }
        assert(!p(q@[i as int]));
        i += 1;
    }
    proof {
        lemma_no_match(q@, p);
    }
    None
}

/// Where in a queue the first file transfer request with this handle stands.
fn find_request_with_handle(q: &Vec<UnAckedMessage>, fth: FileTransferHandle) -> (r: Option<usize>)
    ensures
        match r {
            Some(i) => i < q@.len() && first_match(q@, |m: UnAckedMessage| is_request_with_handle(m, fth)) == Some(i as int),
            None => first_match(q@, |m: UnAckedMessage| is_request_with_handle(m, fth)) is None,
        },
{
    let ghost p = |m: UnAckedMessage| is_request_with_handle(m, fth);
    let mut i: usize = 0;
    while i < q.len()
        invariant
            p == (|m: UnAckedMessage| is_request_with_handle(m, fth)),
            i <= q@.len(),
            forall|j: int| 0 <= j < i ==> !#[trigger] p(q@[j]),
        decreases q@.len() - i,
    {
        let found = match &q[i] {
            UnAckedMessage::FileTransferRequest { file_transfer_handle, .. } => *file_transfer_handle == fth,
            _ => false,
        };
        assert(found == is_request_with_handle(q@[i as int], fth));
        if found {
            proof {
                lemma_first_match(q@, p, i as int);
            }
            return Some(i);
        }
        assert(!p(q@[i as int]));
        i += 1;
    }
    proof {
        lemma_no_match(q@, p);
    }
    None
}

/// Where in a queue the first chat message with this handle stands.
fn find_message_with_handle(q: &Vec<UnAckedMessage>, mh: MessageHandle) -> (r: Option<usize>)
    ensures
        match r {
            Some(i) => i < q@.len() && first_match(q@, |m: UnAckedMessage| is_message_with_handle(m, mh)) == Some(i as int),
            None => first_match(q@, |m: UnAckedMessage| is_message_with_handle(m, mh)) is None,
        },
{
    let ghost p = |m: UnAckedMessage| is_message_with_handle(m, mh);
    let mut i: usize = 0;
    while i < q.len()
        invariant
            p == (|m: UnAckedMessage| is_message_with_handle(m, mh)),
            i <= q@.len(),
            forall|j: int| 0 <= j < i ==> !#[trigger] p(q@[j]),
        decreases q@.len() - i,
    {
        let found = match &q[i] {
            UnAckedMessage::ChatMessage { message_handle, .. } => *message_handle == mh,
            _ => false,
        };
        assert(found == is_message_with_handle(q@[i as int], mh));
        if found {
            proof {
                lemma_first_match(q@, p, i as int);
            }
            return Some(i);
        }
        assert(!p(q@[i as int]));
        i += 1;
    }
    proof {
        lemma_no_match(q@, p);
    }
    None
}

/// Two connection records belong to the same peer.
pub open spec fn same_peer(a: Connection, b: Connection) -> bool {
    &&& a.service_id == b.service_id
    &&& a.user_handle == b.user_handle
}

impl Session {
    /// Cancels a file transfer the packet handler has cancelled on a connection:
    /// the transfer's ids are unmapped, its queued request (if still queued)
    /// dropped, and its download or else its upload record removed; tells which
    /// direction it ran. Fails when the connection is not open.
    pub fn cancel_file_transfer(
        &mut self,
        user_handle: UserHandle,
        file_transfer_id: tego_file_transfer_id,
        file_transfer_handle: FileTransferHandle,
        connection_handle: ConnectionHandle,
    ) -> (r: Result<FileTransferDirection, SessionError>)
        requires
            old(self).wf(),
            old(self).users().contains_key(user_handle),
        ensures
            final(self).wf(),
            !old(self).open_connections().contains_key(connection_handle) ==> {
                &&& r == Err::<FileTransferDirection, SessionError>(SessionError::UnknownConnection { connection_handle })
                &&& same_session(*final(self), *old(self))
            },
            old(self).open_connections().contains_key(connection_handle) ==> {
                let d = old(self).users()[user_handle];
                let e = final(self).users()[user_handle];
                let c = old(self).open_connections()[connection_handle];
                let c2 = final(self).open_connections()[connection_handle];
                &&& final(self).users() == old(self).users().insert(user_handle, e)
                &&& same_identity(d, e)
                &&& e.next_message_id == d.next_message_id
                &&& e.file_transfer_handle_to_id@ == d.file_transfer_handle_to_id@.remove(file_transfer_handle)
                &&& e.file_transfer_id_to_handle@ == d.file_transfer_id_to_handle@.remove(file_transfer_id)
                &&& e.queued_messages@ == without_first_match(d.queued_messages@, |m: UnAckedMessage| is_request_with_id(m, file_transfer_id))
                &&& final(self).open_connections() == old(self).open_connections().insert(connection_handle, c2)
                &&& same_peer(c, c2)
                &&& if c.file_downloads@.contains_key(file_transfer_handle) {
                    &&& r == Ok::<FileTransferDirection, SessionError>(FileTransferDirection::Receiving)
                    &&& c2.file_downloads@ == c.file_downloads@.remove(file_transfer_handle)
                    &&& c2.file_uploads@ == c.file_uploads@
                } else {
                    &&& r == Ok::<FileTransferDirection, SessionError>(FileTransferDirection::Sending)
                    &&& c2.file_downloads@ == c.file_downloads@
                    &&& c2.file_uploads@ == c.file_uploads@.remove(file_transfer_handle)
                }
                &&& final(self).handle() == old(self).handle()
                &&& final(self).owner() == old(self).owner()
                &&& final(self).pending_connections() == old(self).pending_connections()
                &&& final(self).to_remove() == old(self).to_remove()
                &&& final(self).to_retry() == old(self).to_retry()
            },
    {
        if !self.open_connections.contains_key(&connection_handle) {
            return Err(SessionError::UnknownConnection { connection_handle });
        }
        match btree_get_mut(&mut self.users, &user_handle) {
            Some(d) => {
                let _ = d.file_transfer_handle_to_id.remove(&file_transfer_handle);
                let _ = d.file_transfer_id_to_handle.remove(&file_transfer_id);
                match find_request_with_id(&d.queued_messages, file_transfer_id) {
                    Some(i) => {
                        let _ = d.queued_messages.remove(i);
                    },
                    None => {},
                }
            },
            None => {},
        }
        proof {
            Self::lemma_wf_user_replaced(*old(self), *self, user_handle);
        }
        let mut direction = FileTransferDirection::Sending;
        match btree_get_mut(&mut self.open_connections, &connection_handle) {
            Some(connection) => {
                if connection.file_downloads.remove(&file_transfer_handle).is_some() {
                    direction = FileTransferDirection::Receiving;
                } else {
                    let _ = connection.file_uploads.remove(&file_transfer_handle);
                }
            },
            None => {},
        }
        Ok(direction)
    }

    /// Removes the download record of a rejected file transfer; fails when the
    /// connection is not open or has no such download.
    pub fn remove_file_download(&mut self, connection_handle: ConnectionHandle, file_transfer_handle: FileTransferHandle) -> (r: Result<FileDownload, SessionError>)
        requires
            old(self).wf(),
        ensures
            final(self).wf(),
            same_users(*final(self), *old(self)),
            final(self).pending_connections() == old(self).pending_connections(),
            final(self).to_remove() == old(self).to_remove(),
            final(self).to_retry() == old(self).to_retry(),
            !old(self).open_connections().contains_key(connection_handle) ==> {
                &&& r == Err::<FileDownload, SessionError>(SessionError::UnknownConnection { connection_handle })
                &&& final(self).open_connections() == old(self).open_connections()
            },
            old(self).open_connections().contains_key(connection_handle) ==> {
                let c = old(self).open_connections()[connection_handle];
                let c2 = final(self).open_connections()[connection_handle];
                &&& final(self).open_connections() == old(self).open_connections().insert(connection_handle, c2)
                &&& same_peer(c, c2)
                &&& c2.file_uploads@ == c.file_uploads@
                &&& c2.file_downloads@ == c.file_downloads@.remove(file_transfer_handle)
                &&& if c.file_downloads@.contains_key(file_transfer_handle) {
                    r == Ok::<FileDownload, SessionError>(c.file_downloads@[file_transfer_handle])
                } else {
                    r == Err::<FileDownload, SessionError>(SessionError::MissingFileDownload)
                }
            },
    {
        match btree_get_mut(&mut self.open_connections, &connection_handle) {
            Some(connection) => match connection.file_downloads.remove(&file_transfer_handle) {
                Some(d) => Ok(d),
                None => Err(SessionError::MissingFileDownload),
            },
            None => Err(SessionError::UnknownConnection { connection_handle }),
        }
    }
}

/// What a contact request from a peer calls for from the profile.
#[derive(Debug, Clone, Copy, PartialEq, Eq, Structural)]
pub enum ContactRequestOutcome {
    /// the peer is new: the profile must add them as a requesting user, after
    /// which `add_requesting_user` records them
    AddRequestingUser,
    /// a rejected user asked again: the profile must record them as requesting
    SetRequesting { user_handle: UserHandle },
    /// nothing to do: the user is requesting, allowed or pending already
    Ignored,
}

impl Session {
    /// A stream of a connection failed or ended: the connection is removed and
    /// its user, if known, retried.
    pub fn on_stream_failed(&mut self, connection_handle: ConnectionHandle)
        requires
            old(self).wf(),
            old(self).open_connections().contains_key(connection_handle),
        ensures
            final(self).wf(),
            same_users(*final(self), *old(self)),
            final(self).pending_connections() == old(self).pending_connections(),
            final(self).open_connections() == old(self).open_connections(),
            final(self).to_remove() == old(self).to_remove().insert(connection_handle),
            final(self).to_retry() == match old(self).open_connections()[connection_handle].user_handle {
                Some(h) => old(self).to_retry().insert(h),
                None => old(self).to_retry(),
            },
    {
        self.to_remove.insert(connection_handle);
        let user = match self.open_connections.get(&connection_handle) {
            Some(c) => c.user_handle,
            None => None,
        };
        match user {
            Some(h) => {
                self.to_retry.insert(h);
            },
            None => {},
        }
    }

    /// A peer proved its identity on an incoming connection: the connection
    /// learns the peer's service id and, for a known user, its user, whose
    /// failure count is cleared; a duplicate connection is scheduled for removal.
    #[verifier::spinoff_prover]
    pub fn on_client_authenticated(&mut self, connection_handle: ConnectionHandle, service_id: ServiceId, duplicate_connection: Option<ConnectionHandle>)
        requires
            old(self).wf(),
            old(self).open_connections().contains_key(connection_handle),
        ensures
            final(self).wf(),
            final(self).handle() == old(self).handle(),
            final(self).owner() == old(self).owner(),
            final(self).pending_connections() == old(self).pending_connections(),
            final(self).to_retry() == old(self).to_retry(),
            final(self).to_remove() == match duplicate_connection {
                Some(dup) => old(self).to_remove().insert(dup),
                None => old(self).to_remove(),
            },
            ({
                let c = old(self).open_connections()[connection_handle];
                let c2 = final(self).open_connections()[connection_handle];
                &&& final(self).open_connections() == old(self).open_connections().insert(connection_handle, c2)
                &&& c2.service_id matches Some(sid) && sid@ == service_id@
                &&& c2.file_downloads == c.file_downloads
                &&& c2.file_uploads == c.file_uploads
                &&& match old(self).user_of(service_id@) {
                    Some(h) => {
                        &&& c2.user_handle == Some(h)
                        &&& final(self).users() == old(self).users().insert(h, with_failures(old(self).users()[h], 0))
                    },
                    None => {
                        &&& c2.user_handle == c.user_handle
                        &&& final(self).users() == old(self).users()
                    },
                }
            }),
    {
        let user = self.find_user(&service_id);
        match user {
            Some(h) => {
                self.set_failures(h, 0);
            },
            None => {},
        }
        let ghost known = *self;
        match btree_get_mut(&mut self.open_connections, &connection_handle) {
            Some(connection) => {
                match user {
                    Some(h) => {
                        connection.user_handle = Some(h);
                    },
                    None => {},
                }
                connection.service_id = Some(service_id);
            },
            None => {},
        }
        match duplicate_connection {
            Some(dup) => {
                self.to_remove.insert(dup);
            },
            None => {},
        }
        proof {
            Self::lemma_wf_same_users(known, *self);
        }
    }

    /// Well-formedness rests on the users, the owner and the index alone.
    proof fn lemma_wf_same_users(a: Session, b: Session)
        requires
            a.wf(),
            b.users@ == a.users@,
            b.owner == a.owner,
            b.service_id_to_user_handle@ == a.service_id_to_user_handle@,
        ensures
            b.wf(),
    {
    }

    /// The host proved its identity to a peer: when the peer knows the host as a
    /// contact, the user's failure count is cleared; a duplicate connection is
    /// scheduled for removal.
    pub fn on_host_authenticated(&mut self, service_id: &ServiceId, is_known_contact: bool, duplicate_connection: Option<ConnectionHandle>)
        requires
            old(self).wf(),
        ensures
            final(self).wf(),
            final(self).handle() == old(self).handle(),
            final(self).owner() == old(self).owner(),
            final(self).pending_connections() == old(self).pending_connections(),
            final(self).open_connections() == old(self).open_connections(),
            final(self).to_retry() == old(self).to_retry(),
            final(self).to_remove() == match duplicate_connection {
                Some(dup) => old(self).to_remove().insert(dup),
                None => old(self).to_remove(),
            },
            final(self).users() == match old(self).user_of(service_id@) {
                Some(h) => if is_known_contact {
                    old(self).users().insert(h, with_failures(old(self).users()[h], 0))
                } else {
                    old(self).users()
                },
                None => old(self).users(),
            },
    {
        if is_known_contact {
            match self.find_user(service_id) {
                Some(h) => {
                    self.set_failures(h, 0);
                },
                None => {},
            }
        }
        match duplicate_connection {
            Some(dup) => {
                self.to_remove.insert(dup);
            },
            None => {},
        }
    }

    /// A peer asks to become a contact. A rejected user becomes requesting and
    /// the frontend hears of the request; requesting, allowed and pending users
    /// are left as they are; a new peer must first be added to the profile.
    pub fn on_contact_request_received(&mut self, service_id: &ServiceId, message_text: String, callbacks: &mut Vec<CallbackData>) -> (outcome: ContactRequestOutcome)
        requires
            old(self).wf(),
            old(self).user_of(service_id@) matches Some(h) ==>
                old(self).users()[h].user_type != UserType::Owner && old(self).users()[h].user_type != UserType::Blocked,
        ensures
            final(self).wf(),
            same_but_users(*final(self), *old(self)),
            match old(self).user_of(service_id@) {
                None => {
                    &&& outcome == ContactRequestOutcome::AddRequestingUser
                    &&& final(self).users() == old(self).users()
                    &&& final(callbacks)@ == old(callbacks)@
                },
                Some(h) => if old(self).users()[h].user_type == UserType::Rejected {
                    &&& outcome == (ContactRequestOutcome::SetRequesting { user_handle: h })
                    &&& final(self).users() == old(self).users().insert(h, with_user_type(old(self).users()[h], UserType::Requesting))
                    &&& final(callbacks)@ == old(callbacks)@.push(
                        CallbackData::ChatRequestReceived { session_handle: old(self).handle(), user_handle: h, message: message_text },
                    )
                } else {
                    &&& outcome == ContactRequestOutcome::Ignored
                    &&& final(self).users() == old(self).users()
                    &&& final(callbacks)@ == old(callbacks)@
                },
            },
    {
        match self.find_user(service_id) {
            None => ContactRequestOutcome::AddRequestingUser,
            Some(h) => {
                let t = match self.users.get(&h) {
                    Some(d) => d.user_type,
                    None => UserType::Requesting,
                };
                if t == UserType::Rejected {
                    self.set_user_type(h, UserType::Requesting);
                    callbacks.push(CallbackData::ChatRequestReceived { session_handle: self.session_handle, user_handle: h, message: message_text });
                    ContactRequestOutcome::SetRequesting { user_handle: h }
                } else {
                    ContactRequestOutcome::Ignored
                }
            },
        }
    }

    /// A peer answered the host's contact request. An accepted request makes the
    /// user allowed and online; a refused one makes them rejected; the frontend
    /// hears of the answer. Gives the user and type the profile must record.
    pub fn on_contact_request_result(&mut self, service_id: &ServiceId, accepted: bool, callbacks: &mut Vec<CallbackData>) -> (r: Option<(UserHandle, UserType)>)
        requires
            old(self).wf(),
        ensures
            final(self).wf(),
            same_but_users(*final(self), *old(self)),
            match old(self).user_of(service_id@) {
                None => {
                    &&& r is None
                    &&& final(self).users() == old(self).users()
                    &&& final(callbacks)@ == old(callbacks)@
                },
                Some(h) => {
                    let t = if accepted { UserType::Allowed } else { UserType::Rejected };
                    let response = CallbackData::ChatRequestResponseReceived { session_handle: old(self).handle(), user_handle: h, accepted_request: accepted };
                    &&& r == Some((h, t))
                    &&& final(self).users() == old(self).users().insert(h, with_user_type(old(self).users()[h], t))
                    &&& final(callbacks)@ == if accepted {
                        old(callbacks)@.push(response).push(
                            CallbackData::UserStatusChanged { session_handle: old(self).handle(), user_handle: h, status: UserStatus::Online },
                        )
                    } else {
                        old(callbacks)@.push(response)
                    }
                },
            },
    {
        match self.find_user(service_id) {
            None => None,
            Some(h) => {
                let t = if accepted { UserType::Allowed } else { UserType::Rejected };
                self.set_user_type(h, t);
                let session_handle = self.session_handle;
                callbacks.push(CallbackData::ChatRequestResponseReceived { session_handle, user_handle: h, accepted_request: accepted });
                if accepted {
                    callbacks.push(CallbackData::UserStatusChanged { session_handle, user_handle: h, status: UserStatus::Online });
                }
                Some((h, t))
            },
        }
    }

    /// Our chat channel to a peer opened: a known user's failure count is
    /// cleared and they are online; gives the user whose queued messages must
    /// be sent again.
    pub fn on_outgoing_chat_channel_opened(&mut self, service_id: &ServiceId, callbacks: &mut Vec<CallbackData>) -> (r: Option<UserHandle>)
        requires
            old(self).wf(),
        ensures
            final(self).wf(),
            same_but_users(*final(self), *old(self)),
            r == old(self).user_of(service_id@),
            match r {
                None => final(self).users() == old(self).users() && final(callbacks)@ == old(callbacks)@,
                Some(h) => {
                    &&& final(self).users() == old(self).users().insert(h, with_failures(old(self).users()[h], 0))
                    &&& final(callbacks)@ == old(callbacks)@.push(
                        CallbackData::UserStatusChanged { session_handle: old(self).handle(), user_handle: h, status: UserStatus::Online },
                    )
                },
            },
    {
        match self.find_user(service_id) {
            None => None,
            Some(h) => {
                self.set_failures(h, 0);
                callbacks.push(CallbackData::UserStatusChanged { session_handle: self.session_handle, user_handle: h, status: UserStatus::Online });
                Some(h)
            },
        }
    }

    /// A peer sent a chat message: a known user's message gets the user's next
    /// message id and is handed to the frontend with its timestamp.
    pub fn on_chat_message_received(&mut self, service_id: &ServiceId, message_text: String, timestamp: u64, callbacks: &mut Vec<CallbackData>)
        requires
            old(self).wf(),
            old(self).user_of(service_id@) matches Some(h) ==> old(self).users()[h].next_message_id < u64::MAX,
        ensures
            final(self).wf(),
            same_but_users(*final(self), *old(self)),
            match old(self).user_of(service_id@) {
                None => final(self).users() == old(self).users() && final(callbacks)@ == old(callbacks)@,
                Some(h) => {
                    let d = old(self).users()[h];
                    let e = final(self).users()[h];
                    &&& final(self).users() == old(self).users().insert(h, e)
                    &&& same_identity(d, e)
                    &&& same_transfer_maps(d, e)
                    &&& e.queued_messages == d.queued_messages
                    &&& e.next_message_id == d.next_message_id + 1
                    &&& final(callbacks)@ == old(callbacks)@.push(
                        CallbackData::MessageReceived {
                            session_handle: old(self).handle(),
                            user_handle: h,
                            timestamp,
                            message_id: d.next_message_id,
                            message: message_text,
                        },
                    )
                },
            },
    {
        match self.find_user(service_id) {
            None => {},
            Some(h) => {
                let mut id: u64 = 0;
                match btree_get_mut(&mut self.users, &h) {
                    Some(d) => {
                        id = d.next_message_id();
                    },
                    None => {},
                }
                proof {
                    Self::lemma_wf_user_replaced(*old(self), *self, h);
                }
                callbacks.push(CallbackData::MessageReceived {
                    session_handle: self.session_handle,
                    user_handle: h,
                    timestamp,
                    message_id: id,
                    message: message_text,
                });
            },
        }
    }

    /// A peer acknowledged a chat message: the first queued message with that
    /// handle leaves the queue and the frontend hears it was acknowledged.
    pub fn on_chat_acknowledge_received(&mut self, service_id: &ServiceId, message_handle: MessageHandle, accepted: bool, callbacks: &mut Vec<CallbackData>)
        requires
            old(self).wf(),
        ensures
            final(self).wf(),
            same_but_users(*final(self), *old(self)),
            match old(self).user_of(service_id@) {
                None => final(self).users() == old(self).users() && final(callbacks)@ == old(callbacks)@,
                Some(h) => {
                    let d = old(self).users()[h];
                    let p = |m: UnAckedMessage| is_message_with_handle(m, message_handle);
                    match first_match(d.queued_messages@, p) {
                        None => final(self).users() == old(self).users() && final(callbacks)@ == old(callbacks)@,
                        Some(i) => {
                            let e = final(self).users()[h];
                            &&& final(self).users() == old(self).users().insert(h, e)
                            &&& same_identity(d, e)
                            &&& same_transfer_maps(d, e)
                            &&& e.next_message_id == d.next_message_id
                            &&& e.queued_messages@ == d.queued_messages@.remove(i)
                            &&& d.queued_messages@[i] matches UnAckedMessage::ChatMessage { message_id, .. }
                                && final(callbacks)@ == old(callbacks)@.push(
                                    CallbackData::MessageAcknowledged { session_handle: old(self).handle(), user_handle: h, message_id, accepted },
                                )
                        },
                    }
                },
            },
    {
        match self.find_user(service_id) {
            None => {},
            Some(h) => {
                let mut acked: Option<u64> = None;
                match btree_get_mut(&mut self.users, &h) {
                    Some(d) => match find_message_with_handle(&d.queued_messages, message_handle) {
                        Some(i) => {
                            proof {
                                lemma_first_match_picks(d.queued_messages@, |m: UnAckedMessage| is_message_with_handle(m, message_handle));
                            }
                            let m = d.queued_messages.remove(i);
                            match m {
                                UnAckedMessage::ChatMessage { message_id, .. } => {
                                    acked = Some(message_id);
                                },
                                _ => {},
                            }
                        },
                        None => {},
                    },
                    None => {},
                }
                proof {
                    Self::lemma_wf_user_replaced(*old(self), *self, h);
                }
                match acked {
                    Some(message_id) => {
                        callbacks.push(CallbackData::MessageAcknowledged { session_handle: self.session_handle, user_handle: h, message_id, accepted });
                    },
                    None => {
                        assert(self.users@[h] == old(self).users@[h]);
                        assert(self.users@ =~= old(self).users@);
                    },
                }
            },
        }
    }
}

/// The file transfer id a user's file transfer handle maps to.
pub open spec fn transfer_id_of(d: UserData, fth: FileTransferHandle) -> Option<tego_file_transfer_id> {
    if d.file_transfer_handle_to_id@.contains_key(fth) {
        Some(d.file_transfer_handle_to_id@[fth])
    } else {
        None
    }
}

impl Session {
    /// A peer offers a file: it gets the user's next id, mapped both ways to the
    /// packet handler's handle, and a fresh download record on the connection; a
    /// download already under that handle is reported cancelled (under the new
    /// id); the frontend hears of the offer.
    pub fn on_file_transfer_request_received(
        &mut self,
        connection_handle: ConnectionHandle,
        service_id: &ServiceId,
        file_transfer_handle: FileTransferHandle,
        file_name: String,
        file_size: u64,
        callbacks: &mut Vec<CallbackData>,
    )
        requires
            old(self).wf(),
            old(self).open_connections().contains_key(connection_handle),
            old(self).user_of(service_id@) matches Some(h) ==> old(self).users()[h].next_message_id < u64::MAX,
        ensures
            final(self).wf(),
            final(self).handle() == old(self).handle(),
            final(self).owner() == old(self).owner(),
            final(self).pending_connections() == old(self).pending_connections(),
            final(self).to_remove() == old(self).to_remove(),
            final(self).to_retry() == old(self).to_retry(),
            match old(self).user_of(service_id@) {
                None => {
                    &&& same_session(*final(self), *old(self))
                    &&& final(callbacks)@ == old(callbacks)@
                },
                Some(h) => {
                    let d = old(self).users()[h];
                    let e = final(self).users()[h];
                    let id = d.next_message_id;
                    let c = old(self).open_connections()[connection_handle];
                    let c2 = final(self).open_connections()[connection_handle];
                    let offer = CallbackData::FileTransferRequestReceived {
                        session_handle: old(self).handle(),
                        user_handle: h,
                        file_transfer_id: id,
                        file_name,
                        file_size,
                    };
                    &&& final(self).users() == old(self).users().insert(h, e)
                    &&& same_identity(d, e)
                    &&& e.queued_messages == d.queued_messages
                    &&& e.next_message_id == d.next_message_id + 1
                    &&& e.file_transfer_id_to_handle@ == d.file_transfer_id_to_handle@.insert(id, file_transfer_handle)
                    &&& e.file_transfer_handle_to_id@ == d.file_transfer_handle_to_id@.insert(file_transfer_handle, id)
                    &&& final(self).open_connections() == old(self).open_connections().insert(connection_handle, c2)
                    &&& same_peer(c, c2)
                    &&& c2.file_uploads == c.file_uploads
                    &&& c2.file_downloads@ == c.file_downloads@.insert(file_transfer_handle, FileDownload { bytes_written: 0, expected_size: file_size })
                    &&& final(callbacks)@ == if c.file_downloads@.contains_key(file_transfer_handle) {
                        old(callbacks)@.push(
                            CallbackData::FileTransferComplete {
                                session_handle: old(self).handle(),
                                user_handle: h,
                                file_transfer_id: id,
                                direction: FileTransferDirection::Receiving,
                                result: FileTransferResult::Cancelled,
                            },
                        ).push(offer)
                    } else {
                        old(callbacks)@.push(offer)
                    }
                },
            },
    {
        let h = match self.find_user(service_id) {
            Some(h) => h,
            None => {
                return;
            },
        };
        let mut id: u64 = 0;
        match btree_get_mut(&mut self.users, &h) {
            Some(d) => {
                id = d.next_message_id();
                d.file_transfer_id_to_handle.insert(id, file_transfer_handle);
                d.file_transfer_handle_to_id.insert(file_transfer_handle, id);
            },
            None => {},
        }
        proof {
            Self::lemma_wf_user_replaced(*old(self), *self, h);
        }
        let session_handle = self.session_handle;
        match btree_get_mut(&mut self.open_connections, &connection_handle) {
            Some(connection) => {
                if connection.file_downloads.contains_key(&file_transfer_handle) {
                    callbacks.push(CallbackData::FileTransferComplete {
                        session_handle,
                        user_handle: h,
                        file_transfer_id: id,
                        direction: FileTransferDirection::Receiving,
                        result: FileTransferResult::Cancelled,
                    });
                }
                connection.file_downloads.insert(file_transfer_handle, FileDownload::new(file_size));
            },
            None => {},
        }
        callbacks.push(CallbackData::FileTransferRequestReceived {
            session_handle,
            user_handle: h,
            file_transfer_id: id,
            file_name,
            file_size,
        });
    }

    /// A peer acknowledged a file transfer request: the first queued request
    /// with that handle leaves the queue, its upload record moves to the
    /// connection, and the frontend hears of the acknowledgement.
    pub fn on_file_transfer_request_acknowledged(
        &mut self,
        connection_handle: ConnectionHandle,
        service_id: &ServiceId,
        file_transfer_handle: FileTransferHandle,
        accepted: bool,
        callbacks: &mut Vec<CallbackData>,
    )
        requires
            old(self).wf(),
            old(self).open_connections().contains_key(connection_handle),
        ensures
            final(self).wf(),
            final(self).handle() == old(self).handle(),
            final(self).owner() == old(self).owner(),
            final(self).pending_connections() == old(self).pending_connections(),
            final(self).to_remove() == old(self).to_remove(),
            final(self).to_retry() == old(self).to_retry(),
            match old(self).user_of(service_id@) {
                None => same_session(*final(self), *old(self)) && final(callbacks)@ == old(callbacks)@,
                Some(h) => {
                    let d = old(self).users()[h];
                    let p = |m: UnAckedMessage| is_request_with_handle(m, file_transfer_handle);
                    match first_match(d.queued_messages@, p) {
                        None => same_session(*final(self), *old(self)) && final(callbacks)@ == old(callbacks)@,
                        Some(i) => {
                            let e = final(self).users()[h];
                            let c = old(self).open_connections()[connection_handle];
                            let c2 = final(self).open_connections()[connection_handle];
                            &&& final(self).users() == old(self).users().insert(h, e)
                            &&& same_identity(d, e)
                            &&& same_transfer_maps(d, e)
                            &&& e.next_message_id == d.next_message_id
                            &&& e.queued_messages@ == d.queued_messages@.remove(i)
                            &&& final(self).open_connections() == old(self).open_connections().insert(connection_handle, c2)
                            &&& same_peer(c, c2)
                            &&& c2.file_downloads == c.file_downloads
                            &&& d.queued_messages@[i] matches UnAckedMessage::FileTransferRequest { file_transfer_id, file_upload, .. }
                                && c2.file_uploads@ == c.file_uploads@.insert(file_transfer_handle, file_upload)
                                && final(callbacks)@ == old(callbacks)@.push(
                                    CallbackData::FileTransferRequestAcknowledged {
                                        session_handle: old(self).handle(),
                                        user_handle: h,
                                        file_transfer_id,
                                        accepted,
                                    },
                                )
                        },
                    }
                },
            },
    {
        let h = match self.find_user(service_id) {
            Some(h) => h,
            None => {
                return;
            },
        };
        let mut taken: Option<UnAckedMessage> = None;
        match btree_get_mut(&mut self.users, &h) {
            Some(d) => match find_request_with_handle(&d.queued_messages, file_transfer_handle) {
                Some(i) => {
                    proof {
                        lemma_first_match_picks(d.queued_messages@, |m: UnAckedMessage| is_request_with_handle(m, file_transfer_handle));
                    }
                    taken = Some(d.queued_messages.remove(i));
                },
                None => {},
            },
            None => {},
        }
        proof {
            Self::lemma_wf_user_replaced(*old(self), *self, h);
        }
        match taken {
            Some(UnAckedMessage::FileTransferRequest { file_transfer_id, file_upload, .. }) => {
                match btree_get_mut(&mut self.open_connections, &connection_handle) {
                    Some(connection) => {
                        connection.file_uploads.insert(file_transfer_handle, file_upload);
                    },
                    None => {},
                }
                callbacks.push(CallbackData::FileTransferRequestAcknowledged {
                    session_handle: self.session_handle,
                    user_handle: h,
                    file_transfer_id,
                    accepted,
                });
            },
            _ => {
                assert(self.users@[h] == old(self).users@[h]);
                assert(self.users@ =~= old(self).users@);
            },
        }
    }

    /// The user and file transfer id of an upload the peer accepted, when the
    /// peer is a user, the handle is mapped, and the connection holds the upload.
    pub fn upload_to_start(&self, connection_handle: ConnectionHandle, service_id: &ServiceId, file_transfer_handle: FileTransferHandle) -> (r: Option<(UserHandle, tego_file_transfer_id)>)
        requires
            self.wf(),
        ensures
            r == match self.user_of(service_id@) {
                Some(h) => match transfer_id_of(self.users()[h], file_transfer_handle) {
                    Some(id) => if self.open_connections().contains_key(connection_handle)
                        && self.open_connections()[connection_handle].file_uploads@.contains_key(file_transfer_handle) {
                        Some((h, id))
                    } else {
                        None
                    },
                    None => None,
                },
                None => None,
            },
    {
        let h = self.find_user(service_id)?;
        let d = self.users.get(&h)?;
        let id = *d.file_transfer_handle_to_id.get(&file_transfer_handle)?;
        let connection = self.open_connections.get(&connection_handle)?;
        if connection.file_uploads.contains_key(&file_transfer_handle) {
            Some((h, id))
        } else {
            None
        }
    }

    /// The user and file transfer id of a download a chunk arrived for, when the
    /// peer is a user, the handle is mapped, and the connection holds the download.
    pub fn download_for_chunk(&self, connection_handle: ConnectionHandle, service_id: &ServiceId, file_transfer_handle: FileTransferHandle) -> (r: Option<(UserHandle, tego_file_transfer_id)>)
        requires
            self.wf(),
        ensures
            r == match self.user_of(service_id@) {
                Some(h) => match transfer_id_of(self.users()[h], file_transfer_handle) {
                    Some(id) => if self.open_connections().contains_key(connection_handle)
                        && self.open_connections()[connection_handle].file_downloads@.contains_key(file_transfer_handle) {
                        Some((h, id))
                    } else {
                        None
                    },
                    None => None,
                },
                None => None,
            },
    {
        let h = self.find_user(service_id)?;
        let d = self.users.get(&h)?;
        let id = *d.file_transfer_handle_to_id.get(&file_transfer_handle)?;
        let connection = self.open_connections.get(&connection_handle)?;
        if connection.file_downloads.contains_key(&file_transfer_handle) {
            Some((h, id))
        } else {
            None
        }
    }

    /// The user and file transfer id a peer's answer or result about a file
    /// transfer concerns, when the peer is a user and the handle is mapped.
    pub fn transfer_of(&self, service_id: &ServiceId, file_transfer_handle: FileTransferHandle) -> (r: Option<(UserHandle, tego_file_transfer_id)>)
        requires
            self.wf(),
        ensures
            r == match self.user_of(service_id@) {
                Some(h) => match transfer_id_of(self.users()[h], file_transfer_handle) {
                    Some(id) => Some((h, id)),
                    None => None,
                },
                None => None,
            },
    {
        let h = self.find_user(service_id)?;
        let d = self.users.get(&h)?;
        let id = *d.file_transfer_handle_to_id.get(&file_transfer_handle)?;
        Some((h, id))
    }
}

/// The callback reporting a file transfer's end.
pub open spec fn complete_callback(
    session_handle: SessionHandle,
    h: UserHandle,
    id: tego_file_transfer_id,
    direction: FileTransferDirection,
    result: FileTransferResult,
) -> CallbackData {
    CallbackData::FileTransferComplete { session_handle, user_handle: h, file_transfer_id: id, direction, result }
}

/// Only the given connection's record changed, keeping its peer.
pub open spec fn only_connection_changed(a: Session, b: Session, connection_handle: ConnectionHandle) -> bool {
    &&& same_users(b, a)
    &&& b.pending_connections() == a.pending_connections()
    &&& b.to_remove() == a.to_remove()
    &&& b.to_retry() == a.to_retry()
    &&& b.open_connections().contains_key(connection_handle)
    &&& b.open_connections() == a.open_connections().insert(connection_handle, b.open_connections()[connection_handle])
    &&& same_peer(a.open_connections()[connection_handle], b.open_connections()[connection_handle])
}

impl Session {
    /// A peer's answer or result about one of our file transfers: the frontend
    /// hears of it when the peer is a user and the transfer is known.
    fn report_transfer(&self, service_id: &ServiceId, file_transfer_handle: FileTransferHandle, callbacks: &mut Vec<CallbackData>, reject: bool, result: FileTransferResult)
        requires
            self.wf(),
        ensures
            final(callbacks)@ == match self.transfer_of_spec(service_id@, file_transfer_handle) {
                Some((h, id)) => old(callbacks)@.push(
                    if reject {
                        CallbackData::FileTransferRequestResponseReceived {
                            session_handle: self.handle(),
                            user_handle: h,
                            file_transfer_id: id,
                            response: FileTransferResponse::Reject,
                        }
                    } else {
                        complete_callback(self.handle(), h, id, FileTransferDirection::Sending, result)
                    },
                ),
                None => old(callbacks)@,
            },
    {
        match self.transfer_of(service_id, file_transfer_handle) {
            Some((h, id)) => {
                if reject {
                    callbacks.push(CallbackData::FileTransferRequestResponseReceived {
                        session_handle: self.session_handle,
                        user_handle: h,
                        file_transfer_id: id,
                        response: FileTransferResponse::Reject,
                    });
                } else {
                    callbacks.push(CallbackData::FileTransferComplete {
                        session_handle: self.session_handle,
                        user_handle: h,
                        file_transfer_id: id,
                        direction: FileTransferDirection::Sending,
                        result,
                    });
                }
            },
            None => {},
        }
    }

    /// The user and id a peer's file transfer handle stands for.
    pub open spec fn transfer_of_spec(&self, service_id: Seq<char>, file_transfer_handle: FileTransferHandle) -> Option<(UserHandle, tego_file_transfer_id)> {
        match self.user_of(service_id) {
            Some(h) => match transfer_id_of(self.users()[h], file_transfer_handle) {
                Some(id) => Some((h, id)),
                None => None,
            },
            None => None,
        }
    }

    /// The peer rejected our file transfer request: the frontend hears of it.
    pub fn on_file_transfer_request_rejected(&self, service_id: &ServiceId, file_transfer_handle: FileTransferHandle, callbacks: &mut Vec<CallbackData>)
        requires
            self.wf(),
        ensures
            final(callbacks)@ == match self.transfer_of_spec(service_id@, file_transfer_handle) {
                Some((h, id)) => old(callbacks)@.push(
                    CallbackData::FileTransferRequestResponseReceived {
                        session_handle: self.handle(),
                        user_handle: h,
                        file_transfer_id: id,
                        response: FileTransferResponse::Reject,
                    },
                ),
                None => old(callbacks)@,
            },
    {
        self.report_transfer(service_id, file_transfer_handle, callbacks, true, FileTransferResult::Failure);
    }

    /// The peer reports one of our uploads ended, with the given result: the
    /// frontend hears of it.
    pub fn on_file_transfer_finished(&self, service_id: &ServiceId, file_transfer_handle: FileTransferHandle, result: FileTransferResult, callbacks: &mut Vec<CallbackData>)
        requires
            self.wf(),
        ensures
            final(callbacks)@ == match self.transfer_of_spec(service_id@, file_transfer_handle) {
                Some((h, id)) => old(callbacks)@.push(complete_callback(self.handle(), h, id, FileTransferDirection::Sending, result)),
                None => old(callbacks)@,
            },
    {
        self.report_transfer(service_id, file_transfer_handle, callbacks, false, result);
    }

    /// The first chunk of an accepted upload went out: the frontend hears the
    /// transfer was accepted and how far it got. The sent count grows by the
    /// chunk's size, the bytes uploaded so far.
    pub fn on_first_chunk_sent(
        &mut self,
        connection_handle: ConnectionHandle,
        user_handle: UserHandle,
        file_transfer_id: tego_file_transfer_id,
        file_transfer_handle: FileTransferHandle,
        bytes_read: u64,
        callbacks: &mut Vec<CallbackData>,
    )
        requires
            old(self).wf(),
            old(self).open_connections().contains_key(connection_handle),
            old(self).open_connections()[connection_handle].file_uploads@.contains_key(file_transfer_handle),
            old(self).open_connections()[connection_handle].file_uploads@[file_transfer_handle].bytes_sent + bytes_read <= u64::MAX,
        ensures
            final(self).wf(),
            only_connection_changed(*old(self), *final(self), connection_handle),
            ({
                let c = old(self).open_connections()[connection_handle];
                let c2 = final(self).open_connections()[connection_handle];
                let u = c.file_uploads@[file_transfer_handle];
                let u2 = c2.file_uploads@[file_transfer_handle];
                &&& c2.file_downloads == c.file_downloads
                &&& c2.file_uploads@ == c.file_uploads@.insert(file_transfer_handle, u2)
                &&& u2.bytes_sent == u.bytes_sent + bytes_read
                &&& u2.size == u.size && u2.name == u.name && u2.hash == u.hash
                &&& final(callbacks)@ == old(callbacks)@.push(
                    CallbackData::FileTransferRequestResponseReceived {
                        session_handle: old(self).handle(),
                        user_handle,
                        file_transfer_id,
                        response: FileTransferResponse::Accept,
                    },
                ).push(
                    CallbackData::FileTransferProgress {
                        session_handle: old(self).handle(),
                        user_handle,
                        file_transfer_id,
                        direction: FileTransferDirection::Sending,
                        bytes_complete: (u.bytes_sent + bytes_read) as u64,
                        bytes_total: u.size,
                    },
                )
            }),
    {
        let session_handle = self.session_handle;
        match btree_get_mut(&mut self.open_connections, &connection_handle) {
            Some(connection) => match btree_get_mut(&mut connection.file_uploads, &file_transfer_handle) {
                Some(file_upload) => {
                    file_upload.bytes_sent += bytes_read;
                    callbacks.push(CallbackData::FileTransferRequestResponseReceived {
                        session_handle,
                        user_handle,
                        file_transfer_id,
                        response: FileTransferResponse::Accept,
                    });
                    callbacks.push(CallbackData::FileTransferProgress {
                        session_handle,
                        user_handle,
                        file_transfer_id,
                        direction: FileTransferDirection::Sending,
                        bytes_complete: file_upload.bytes_sent,
                        bytes_total: file_upload.size,
                    });
                },
                None => {},
            },
            None => {},
        }
    }

    /// A chunk of an upload went out: the sent count grows by its size.
    pub fn on_chunk_sent(&mut self, connection_handle: ConnectionHandle, file_transfer_handle: FileTransferHandle, bytes_read: u64)
        requires
            old(self).wf(),
            old(self).open_connections().contains_key(connection_handle),
            old(self).open_connections()[connection_handle].file_uploads@.contains_key(file_transfer_handle),
            old(self).open_connections()[connection_handle].file_uploads@[file_transfer_handle].bytes_sent + bytes_read <= u64::MAX,
        ensures
            final(self).wf(),
            only_connection_changed(*old(self), *final(self), connection_handle),
            ({
                let c = old(self).open_connections()[connection_handle];
                let c2 = final(self).open_connections()[connection_handle];
                let u = c.file_uploads@[file_transfer_handle];
                let u2 = c2.file_uploads@[file_transfer_handle];
                &&& c2.file_downloads == c.file_downloads
                &&& c2.file_uploads@ == c.file_uploads@.insert(file_transfer_handle, u2)
                &&& u2.bytes_sent == u.bytes_sent + bytes_read
                &&& u2.size == u.size && u2.name == u.name && u2.hash == u.hash
            }),
    {
        match btree_get_mut(&mut self.open_connections, &connection_handle) {
            Some(connection) => match btree_get_mut(&mut connection.file_uploads, &file_transfer_handle) {
                Some(file_upload) => {
                    file_upload.bytes_sent += bytes_read;
                },
                None => {},
            },
            None => {},
        }
    }

    /// A peer acknowledged a chunk of an upload: the frontend hears how far the
    /// upload got; tells whether more of the file is left to send.
    pub fn on_file_chunk_ack_received(
        &self,
        connection_handle: ConnectionHandle,
        service_id: &ServiceId,
        file_transfer_handle: FileTransferHandle,
        offset: u64,
        callbacks: &mut Vec<CallbackData>,
    ) -> (r: Option<bool>)
        requires
            self.wf(),
            self.upload_to_start_spec(connection_handle, service_id@, file_transfer_handle) is Some ==>
                self.open_connections()[connection_handle].file_uploads@[file_transfer_handle].bytes_sent == offset,
        ensures
            match self.upload_to_start_spec(connection_handle, service_id@, file_transfer_handle) {
                None => r is None && final(callbacks)@ == old(callbacks)@,
                Some((h, id)) => {
                    let u = self.open_connections()[connection_handle].file_uploads@[file_transfer_handle];
                    &&& r == Some(u.bytes_sent < u.size)
                    &&& final(callbacks)@ == old(callbacks)@.push(
                        CallbackData::FileTransferProgress {
                            session_handle: self.handle(),
                            user_handle: h,
                            file_transfer_id: id,
                            direction: FileTransferDirection::Sending,
                            bytes_complete: u.bytes_sent,
                            bytes_total: u.size,
                        },
                    )
                },
            },
    {
        let (h, id) = match self.upload_to_start(connection_handle, service_id, file_transfer_handle) {
            Some(t) => t,
            None => {
                return None;
            },
        };
        let connection = self.open_connections.get(&connection_handle)?;
        let file_upload = connection.file_uploads.get(&file_transfer_handle)?;
        callbacks.push(CallbackData::FileTransferProgress {
            session_handle: self.session_handle,
            user_handle: h,
            file_transfer_id: id,
            direction: FileTransferDirection::Sending,
            bytes_complete: file_upload.bytes_sent,
            bytes_total: file_upload.size,
        });
        Some(file_upload.bytes_sent < file_upload.size)
    }

    /// What `upload_to_start` finds.
    pub open spec fn upload_to_start_spec(&self, connection_handle: ConnectionHandle, service_id: Seq<char>, file_transfer_handle: FileTransferHandle) -> Option<(UserHandle, tego_file_transfer_id)> {
        match self.transfer_of_spec(service_id, file_transfer_handle) {
            Some((h, id)) => if self.open_connections().contains_key(connection_handle)
                && self.open_connections()[connection_handle].file_uploads@.contains_key(file_transfer_handle) {
                Some((h, id))
            } else {
                None
            },
            None => None,
        }
    }

    /// A chunk of a download was written (`written` holds its size) or failed
    /// to be written (`None`). A failed write is reported as a filesystem error.
    /// A written chunk advances the download and its progress is reported; on
    /// the last chunk a matching hash asks for the file to be finalized (answered
    /// by `on_download_finalized`), a wrong hash is reported and the download
    /// dropped. Tells whether the file must be finalized.
    pub fn on_chunk_written(
        &mut self,
        connection_handle: ConnectionHandle,
        user_handle: UserHandle,
        file_transfer_id: tego_file_transfer_id,
        file_transfer_handle: FileTransferHandle,
        written: Option<u64>,
        last_chunk: bool,
        hash_matches: Option<bool>,
        callbacks: &mut Vec<CallbackData>,
    ) -> (finalize: bool)
        requires
            old(self).wf(),
            old(self).open_connections().contains_key(connection_handle),
            old(self).open_connections()[connection_handle].file_downloads@.contains_key(file_transfer_handle),
            written matches Some(n) ==> old(self).open_connections()[connection_handle].file_downloads@[file_transfer_handle].bytes_written + n <= u64::MAX,
            written is Some && last_chunk ==> hash_matches is Some,
        ensures
            final(self).wf(),
            only_connection_changed(*old(self), *final(self), connection_handle),
            ({
                let c = old(self).open_connections()[connection_handle];
                let c2 = final(self).open_connections()[connection_handle];
                let d = c.file_downloads@[file_transfer_handle];
                let sh = old(self).handle();
                &&& c2.file_uploads == c.file_uploads
                &&& match written {
                    None => {
                        &&& !finalize
                        &&& c2.file_downloads@ == c.file_downloads@
                        &&& final(callbacks)@ == old(callbacks)@.push(
                            complete_callback(sh, user_handle, file_transfer_id, FileTransferDirection::Receiving, FileTransferResult::FilesystemError),
                        )
                    },
                    Some(n) => {
                        let d2 = FileDownload { bytes_written: (d.bytes_written + n) as u64, expected_size: d.expected_size };
                        let progress = CallbackData::FileTransferProgress {
                            session_handle: sh,
                            user_handle,
                            file_transfer_id,
                            direction: FileTransferDirection::Receiving,
                            bytes_complete: d2.bytes_written,
                            bytes_total: d2.expected_size,
                        };
                        if last_chunk && hash_matches == Some(false) {
                            &&& !finalize
                            &&& c2.file_downloads@ == c.file_downloads@.remove(file_transfer_handle)
                            &&& final(callbacks)@ == old(callbacks)@.push(progress).push(
                                complete_callback(sh, user_handle, file_transfer_id, FileTransferDirection::Receiving, FileTransferResult::BadHash),
                            )
                        } else {
                            &&& finalize == last_chunk
                            &&& c2.file_downloads@ == c.file_downloads@.insert(file_transfer_handle, d2)
                            &&& final(callbacks)@ == old(callbacks)@.push(progress)
                        }
                    },
                }
            }),
    {
        let session_handle = self.session_handle;
        let mut finalize = false;
        match btree_get_mut(&mut self.open_connections, &connection_handle) {
            Some(connection) => match written {
                None => {
                    callbacks.push(CallbackData::FileTransferComplete {
                        session_handle,
                        user_handle,
                        file_transfer_id,
                        direction: FileTransferDirection::Receiving,
                        result: FileTransferResult::FilesystemError,
                    });
                },
                Some(n) => {
                    let mut bad_hash = false;
                    match btree_get_mut(&mut connection.file_downloads, &file_transfer_handle) {
                        Some(file_download) => {
                            file_download.bytes_written += n;
                            callbacks.push(CallbackData::FileTransferProgress {
                                session_handle,
                                user_handle,
                                file_transfer_id,
                                direction: FileTransferDirection::Receiving,
                                bytes_complete: file_download.bytes_written,
                                bytes_total: file_download.expected_size,
                            });
                            if last_chunk {
                                match hash_matches {
                                    Some(true) => {
                                        finalize = true;
                                    },
                                    _ => {
                                        bad_hash = true;
                                    },
                                }
                            }
                        },
                        None => {},
                    }
                    if bad_hash {
                        callbacks.push(CallbackData::FileTransferComplete {
                            session_handle,
                            user_handle,
                            file_transfer_id,
                            direction: FileTransferDirection::Receiving,
                            result: FileTransferResult::BadHash,
                        });
                        let _ = connection.file_downloads.remove(&file_transfer_handle);
                    }
                },
            },
            None => {},
        }
        finalize
    }

    /// A finished download was moved (or failed to be moved) to its final
    /// place: the frontend hears of success or of a filesystem error, and the
    /// download record is dropped.
    pub fn on_download_finalized(
        &mut self,
        connection_handle: ConnectionHandle,
        user_handle: UserHandle,
        file_transfer_id: tego_file_transfer_id,
        file_transfer_handle: FileTransferHandle,
        finalized: bool,
        callbacks: &mut Vec<CallbackData>,
    )
        requires
            old(self).wf(),
            old(self).open_connections().contains_key(connection_handle),
        ensures
            final(self).wf(),
            only_connection_changed(*old(self), *final(self), connection_handle),
            ({
                let c = old(self).open_connections()[connection_handle];
                let c2 = final(self).open_connections()[connection_handle];
                &&& c2.file_uploads == c.file_uploads
                &&& c2.file_downloads@ == c.file_downloads@.remove(file_transfer_handle)
                &&& final(callbacks)@ == old(callbacks)@.push(
                    complete_callback(
                        old(self).handle(),
                        user_handle,
                        file_transfer_id,
                        FileTransferDirection::Receiving,
                        if finalized { FileTransferResult::Success } else { FileTransferResult::FilesystemError },
                    ),
                )
            }),
    {
        let result = if finalized { FileTransferResult::Success } else { FileTransferResult::FilesystemError };
        callbacks.push(CallbackData::FileTransferComplete {
            session_handle: self.session_handle,
            user_handle,
            file_transfer_id,
            direction: FileTransferDirection::Receiving,
            result,
        });
        match btree_get_mut(&mut self.open_connections, &connection_handle) {
            Some(connection) => {
                let _ = connection.file_downloads.remove(&file_transfer_handle);
            },
            None => {},
        }
    }
}

/// What a sequence with one more element contains.
proof fn lemma_push_contains<A>(s: Seq<A>, a: A, x: A)
    ensures
        s.push(a).contains(x) <==> (s.contains(x) || x == a),
{
    if s.contains(x) {
        let k = choose|k: int| 0 <= k < s.len() && s[k] == x;
        assert(s.push(a)[k] == x);
    }
    if x == a {
        assert(s.push(a)[s.len() as int] == x);
    }
    if s.push(a).contains(x) {
        let k = choose|k: int| 0 <= k < s.push(a).len() && s.push(a)[k] == x;
        if k < s.len() {
            assert(s[k] == x);
        }
    }
}

/// The elements of a set, in increasing order.
fn set_elements<T: Copy + Ord>(s: &BTreeSet<T>) -> (r: Vec<T>)
    requires
        lawful_order::<T>(),
    ensures
        r@.to_set() == s@,
        r@.no_duplicates(),
{
    let ghost keys = vstd::std_specs::btree::spec_btree_keys_iter(s).remaining();
    proof {
        vstd::std_specs::btree::axiom_spec_btree_keys_iter(s);
    }
    let mut r: Vec<T> = Vec::new();
    for x in it: s.iter()
        invariant
            it.seq() == keys,
            r@ == keys.take(it.index() as int).map_values(|k: &T| *k),
    {
        r.push(*x);
    }
    proof {
        assert(r@ =~= keys.map_values(|k: &T| *k));
        assert(keys.unref() =~= keys.map_values(|k: &T| *k));
    }
    r
}

/// Whether a user is one the host connects to: an allowed contact, or one
/// whose answer to a contact request is pending.
pub open spec fn is_contact(d: UserData) -> bool {
    d.user_type == UserType::Allowed || d.user_type == UserType::Pending
}

/// The users scheduled for a retry that are contacts.
pub open spec fn retry_targets(s: Session) -> Set<UserHandle> {
    s.to_retry().filter(|h: UserHandle| s.users().contains_key(h) && is_contact(s.users()[h]))
}

/// What scheduling the retries of session `pre` makes of it (`post`) and of
/// the command list (`before`, then `after`): each contact in the retry
/// schedule has its failure count grow by one and gets, appended once, a
/// connection attempt without a contact request after the delay that count
/// calls for; nothing else is added or changed, and the schedule is emptied.
pub open spec fn retries_scheduled(
    pre: Session,
    post: Session,
    before: Seq<(ConnectContact, u64)>,
    after: Seq<(ConnectContact, u64)>,
) -> bool {
    &&& post.to_retry().is_empty()
    &&& post.handle() == pre.handle()
    &&& post.owner() == pre.owner()
    &&& post.pending_connections() == pre.pending_connections()
    &&& post.open_connections() == pre.open_connections()
    &&& post.to_remove() == pre.to_remove()
    &&& post.users().dom() == pre.users().dom()
    &&& forall|h: UserHandle| #[trigger] post.users().contains_key(h) ==> post.users()[h] == if retry_targets(pre).contains(h) {
        with_failures(pre.users()[h], (pre.users()[h].connection_failures + 1) as usize)
    } else {
        pre.users()[h]
    }
    &&& before.len() <= after.len()
    &&& after.subrange(0, before.len() as int) == before
    &&& {
        let added = after.subrange(before.len() as int, after.len() as int);
        &&& added.map_values(|c: (ConnectContact, u64)| c.0.user_handle).to_set() == retry_targets(pre)
        &&& added.map_values(|c: (ConnectContact, u64)| c.0.user_handle).no_duplicates()
        &&& forall|k: int| 0 <= k < added.len() ==> {
            let (c, delay) = #[trigger] added[k];
            &&& c.session_handle == pre.handle()
            &&& c.contact_request_message is None
            &&& delay == retry_delay_spec((pre.users()[c.user_handle].connection_failures + 1) as usize)
        }
    }
}

impl Session {
    /// Retries the contacts whose connections failed: each one's failure count
    /// grows and a connection attempt is scheduled after the delay that count
    /// calls for; the retry schedule is emptied.
    pub fn schedule_retries(&mut self, commands: &mut Vec<(ConnectContact, u64)>)
        requires
            old(self).wf(),
            forall|h: UserHandle| #[trigger] old(self).to_retry().contains(h) && old(self).users().contains_key(h)
                ==> old(self).users()[h].connection_failures < usize::MAX,
        ensures
            final(self).wf(),
            retries_scheduled(*old(self), *final(self), old(commands)@, final(commands)@),
    {
        let targets = set_elements(&self.to_retry);
        let ghost start = commands@.len();
        let ghost pre = *old(self);
        let n = targets.len();
        let mut i: usize = 0;
        while i < n
            invariant
                pre == *old(self),
                n == targets@.len(),
                i <= n,
                targets@.to_set() == pre.to_retry(),
                targets@.no_duplicates(),
                self.wf(),
                self.handle() == pre.handle(),
                self.owner() == pre.owner(),
                self.pending_connections() == pre.pending_connections(),
                self.open_connections() == pre.open_connections(),
                self.to_remove() == pre.to_remove(),
                self.to_retry() == pre.to_retry(),
                self.users().dom() == pre.users().dom(),
                forall|h: UserHandle| #[trigger] pre.to_retry().contains(h) && pre.users().contains_key(h)
                    ==> pre.users()[h].connection_failures < usize::MAX,
                forall|h: UserHandle| #[trigger] self.users().contains_key(h) ==> self.users()[h] == if retry_targets(pre).contains(h)
                    && targets@.take(i as int).contains(h) {
                    with_failures(pre.users()[h], (pre.users()[h].connection_failures + 1) as usize)
                } else {
                    pre.users()[h]
                },
                commands@.subrange(0, start as int) == old(commands)@,
                start <= commands@.len(),
                ({
                    let added = commands@.subrange(start as int, commands@.len() as int);
                    &&& added.map_values(|c: (ConnectContact, u64)| c.0.user_handle).to_set()
                        == retry_targets(pre).filter(|h: UserHandle| targets@.take(i as int).contains(h))
                    &&& added.map_values(|c: (ConnectContact, u64)| c.0.user_handle).no_duplicates()
                    &&& forall|k: int| 0 <= k < added.len() ==> {
                        let (c, delay) = #[trigger] added[k];
                        &&& c.session_handle == pre.handle()
                        &&& c.contact_request_message is None
                        &&& delay == retry_delay_spec((pre.users()[c.user_handle].connection_failures + 1) as usize)
                        &&& targets@.take(i as int).contains(c.user_handle)
                    }
                }),
            decreases n - i,
        {
            let h = targets[i];
            let eligible = match self.users.get(&h) {
                Some(d) => d.user_type == UserType::Allowed || d.user_type == UserType::Pending,
                None => false,
            };
            let ghost before = commands@;
            let ghost self_before = *self;
            proof {
                assert(targets@.to_set().contains(h));
                assert(!targets@.take(i as int).contains(h)) by {
                    if targets@.take(i as int).contains(h) {
                        let k = choose|k: int| 0 <= k < i && targets@.take(i as int)[k] == h;
                        assert(targets@[k] == targets@[i as int]);
                    }
                }
                assert(targets@.take(i + 1) =~= targets@.take(i as int).push(h));
            }
            proof {
                if self.users().contains_key(h) {
                    assert(self.users()[h] == pre.users()[h]);
                }
                assert(eligible == retry_targets(pre).contains(h));
            }
            if eligible {
                self.retry_later(h, None, commands);
            }
            proof {
                let added = commands@.subrange(start as int, commands@.len() as int);
                let prev_added = before.subrange(start as int, before.len() as int);
                let m = |c: (ConnectContact, u64)| c.0.user_handle;
                if eligible {
                    assert(added =~= prev_added.push(commands@[commands@.len() - 1]));
                    assert(added.map_values(m) =~= prev_added.map_values(m).push(h));
                    assert(!prev_added.map_values(m).contains(h)) by {
                        if prev_added.map_values(m).contains(h) {
                            let k = choose|k: int| 0 <= k < prev_added.len() && prev_added.map_values(m)[k] == h;
                            assert(targets@.take(i as int).contains(prev_added[k].0.user_handle));
                        }
                    }
                    assert(retry_targets(pre).contains(h));
                } else {
                    assert(added =~= prev_added);
                    assert(!retry_targets(pre).contains(h));
                }
                assert forall|x: UserHandle| added.map_values(m).to_set().contains(x)
                    <==> retry_targets(pre).filter(|y: UserHandle| targets@.take(i + 1).contains(y)).contains(x) by {
                    lemma_push_contains(targets@.take(i as int), h, x);
                    assert(targets@.take(i + 1).contains(x) <==> (targets@.take(i as int).contains(x) || x == h));
                    assert(prev_added.map_values(m).to_set().contains(x) <==> prev_added.map_values(m).contains(x));
                    assert(added.map_values(m).to_set().contains(x) <==> added.map_values(m).contains(x));
                    if eligible {
                        lemma_push_contains(prev_added.map_values(m), h, x);
                        assert(added.map_values(m).contains(x) <==> (prev_added.map_values(m).contains(x) || x == h));
                    }
                }
                assert(added.map_values(m).to_set() =~= retry_targets(pre).filter(|x: UserHandle| targets@.take(i + 1).contains(x)));
                assert(commands@.subrange(0, start as int) =~= before.subrange(0, start as int));
                assert forall|x: UserHandle| #[trigger] self.users().contains_key(x) implies self.users()[x] == if retry_targets(pre).contains(x)
                    && targets@.take(i + 1).contains(x) {
                    with_failures(pre.users()[x], (pre.users()[x].connection_failures + 1) as usize)
                } else {
                    pre.users()[x]
                } by {
                    lemma_push_contains(targets@.take(i as int), h, x);
                    assert(targets@.take(i + 1).contains(x) <==> (targets@.take(i as int).contains(x) || x == h));
                    if x != h {
                        assert(self_before.users().contains_key(x));
                    }
                }
                assert forall|k: int| 0 <= k < added.len() implies {
                    let (c, delay) = #[trigger] added[k];
                    &&& c.session_handle == pre.handle()
                    &&& c.contact_request_message is None
                    &&& delay == retry_delay_spec((pre.users()[c.user_handle].connection_failures + 1) as usize)
                    &&& targets@.take(i + 1).contains(c.user_handle)
                } by {
                    if k < prev_added.len() {
                        assert(added[k] == prev_added[k]);
                        assert(targets@.take(i + 1)[targets@.take(i as int).index_of(prev_added[k].0.user_handle)] == prev_added[k].0.user_handle);
                    } else {
                        assert(targets@.take(i + 1)[i as int] == h);
                    }
                }
            }
            i += 1;
        }
        self.to_retry.clear();
        proof {
            assert(targets@.take(n as int) =~= targets@);
            assert(retry_targets(pre).filter(|h: UserHandle| targets@.take(n as int).contains(h)) =~= retry_targets(pre));
        }
    }
}

/// Law: scheduling retries reconnects every allowed or pending user whose
/// connection failed: a user in the retry schedule who is in the contact list,
/// or whose answer to a contact request is awaited, has its failure count
/// grow by one and gets one new command to connect, without a contact
/// request, after the delay that the grown count calls for.
pub proof fn law_allowed_and_pending_users_are_retried(
    pre: Session,
    post: Session,
    before: Seq<(ConnectContact, u64)>,
    after: Seq<(ConnectContact, u64)>,
    h: UserHandle,
)
    requires
        retries_scheduled(pre, post, before, after),
        pre.to_retry().contains(h),
        pre.users().contains_key(h),
        pre.users()[h].user_type == UserType::Allowed || pre.users()[h].user_type == UserType::Pending,
        pre.users()[h].connection_failures < usize::MAX,
    ensures
        post.users()[h] == with_failures(pre.users()[h], (pre.users()[h].connection_failures + 1) as usize),
        post.users()[h].connection_failures == pre.users()[h].connection_failures + 1,
        exists|k: int|
            before.len() <= k < after.len() && #[trigger] after[k] == (
                ConnectContact { session_handle: pre.handle(), user_handle: h, contact_request_message: None },
                retry_delay_spec((pre.users()[h].connection_failures + 1) as usize),
            ),
{
    let added = after.subrange(before.len() as int, after.len() as int);
    let m = |c: (ConnectContact, u64)| c.0.user_handle;
    assert(retry_targets(pre).contains(h));
    assert(post.users().contains_key(h));
    assert(added.map_values(m).to_set().contains(h));
    assert(added.map_values(m).contains(h));
    let j = choose|j: int| 0 <= j < added.map_values(m).len() && added.map_values(m)[j] == h;
    let k = before.len() + j;
    assert(after[k] == added[j]);
    let (c, delay) = added[j];
    assert(c.user_handle == h);
    assert(c == ConnectContact { session_handle: pre.handle(), user_handle: h, contact_request_message: None });
}

/// Law: scheduling retries leaves alone every user who is not both in the
/// retry schedule and an allowed or pending user (the host, users asking to
/// be a contact, blocked and rejected users): nothing of theirs changes and
/// no command connects to them.
pub proof fn law_only_allowed_and_pending_users_are_retried(
    pre: Session,
    post: Session,
    before: Seq<(ConnectContact, u64)>,
    after: Seq<(ConnectContact, u64)>,
    h: UserHandle,
)
    requires
        retries_scheduled(pre, post, before, after),
        pre.users().contains_key(h),
        !pre.to_retry().contains(h) || (pre.users()[h].user_type != UserType::Allowed
            && pre.users()[h].user_type != UserType::Pending),
    ensures
        post.users()[h] == pre.users()[h],
        forall|k: int| before.len() <= k < after.len() ==> (#[trigger] after[k]).0.user_handle != h,
{
    let added = after.subrange(before.len() as int, after.len() as int);
    let m = |c: (ConnectContact, u64)| c.0.user_handle;
    assert(!retry_targets(pre).contains(h));
    assert(post.users().contains_key(h));
    assert forall|k: int| before.len() <= k < after.len() implies (#[trigger] after[k]).0.user_handle != h by {
        let j = k - before.len();
        assert(added[j] == after[k]);
        assert(added.map_values(m)[j] == after[k].0.user_handle);
        assert(added.map_values(m).to_set().contains(after[k].0.user_handle));
    }
}

/// The keys of a map, in increasing order.
pub(crate) fn map_keys<K: Copy + Ord, V>(m: &BTreeMap<K, V>) -> (r: Vec<K>)
    requires
        lawful_order::<K>(),
    ensures
        r@.to_set() == m@.dom(),
        r@.no_duplicates(),
{
    let ghost keys = vstd::std_specs::btree::spec_keys_iter(m).remaining();
    proof {
        vstd::std_specs::btree::axiom_spec_keys_iter(m);
    }
    let mut r: Vec<K> = Vec::new();
    for x in it: m.keys()
        invariant
            it.seq() == keys,
            r@ == keys.take(it.index() as int).map_values(|k: &K| *k),
    {
        r.push(*x);
    }
    proof {
        assert(r@ =~= keys.map_values(|k: &K| *k));
        assert(keys.unref() =~= keys.map_values(|k: &K| *k));
    }
    r
}

/// A chat message with a new handle from the packet handler.
pub open spec fn with_message_handle(m: UnAckedMessage, mh: MessageHandle) -> UnAckedMessage {
    match m {
        UnAckedMessage::ChatMessage { message_id, timestamp, message_text, .. } =>
            UnAckedMessage::ChatMessage { message_id, message_handle: mh, timestamp, message_text },
        other => other,
    }
}

/// A file transfer request with a new handle from the packet handler.
pub open spec fn with_request_handle(m: UnAckedMessage, fth: FileTransferHandle) -> UnAckedMessage {
    match m {
        UnAckedMessage::FileTransferRequest { file_transfer_id, file_upload, .. } =>
            UnAckedMessage::FileTransferRequest { file_transfer_id, file_transfer_handle: fth, file_upload },
        other => other,
    }
}

/// Commands that connect, at once and with no contact request, to each
/// contact (allowed or pending user) of a session, once, in increasing order
/// of their handles.
pub open spec fn connects_to_contacts(added: Seq<(ConnectContact, u64)>, s: Session) -> bool {
    &&& added.map_values(|c: (ConnectContact, u64)| c.0.user_handle).to_set()
        == s.users().dom().filter(|h: UserHandle| is_contact(s.users()[h]))
    &&& added.map_values(|c: (ConnectContact, u64)| c.0.user_handle).no_duplicates()
    &&& forall|a: int, b: int| 0 <= a < b < added.len() ==> #[trigger] added[a].0.user_handle < #[trigger] added[b].0.user_handle
    &&& forall|k: int| 0 <= k < added.len() ==> {
        let (c, delay) = #[trigger] added[k];
        &&& c.session_handle == s.handle()
        &&& c.contact_request_message is None
        &&& delay == 0
    }
}

impl Session {
    /// Schedules a connection to every contact (allowed or pending user), at once.
    pub fn connect_all_known_contacts(&self, commands: &mut Vec<(ConnectContact, u64)>)
        requires
            self.wf(),
        ensures
            final(commands)@.subrange(0, old(commands)@.len() as int) == old(commands)@,
            connects_to_contacts(final(commands)@.subrange(old(commands)@.len() as int, final(commands)@.len() as int), *self),
    {
        let handles = sorted_keys(&self.users);
        let ghost start = commands@.len();
        let ghost contacts = self.users().dom().filter(|h: UserHandle| is_contact(self.users()[h]));
        let n = handles.len();
        proof {
            assert forall|a: int, b: int| 0 <= a < b < handles@.len() implies handles@[a] != handles@[b] by {
                assert(handles@[a] < handles@[b]);
            }
        }
        let mut i: usize = 0;
        while i < n
            invariant
                n == handles@.len(),
                i <= n,
                handles@.to_set() == self.users().dom(),
                handles@.no_duplicates(),
                forall|a: int, b: int| 0 <= a < b < handles@.len() ==> #[trigger] handles@[a] < #[trigger] handles@[b],
                forall|k: int, j: int| #![trigger commands@[k], handles@[j]]
                    start <= k < commands@.len() && i <= j < n ==> commands@[k].0.user_handle < handles@[j],
                forall|a: int, b: int| start <= a < b < commands@.len() ==> #[trigger] commands@[a].0.user_handle < #[trigger] commands@[b].0.user_handle,
                contacts == self.users().dom().filter(|h: UserHandle| is_contact(self.users()[h])),
                start <= commands@.len(),
                commands@.subrange(0, start as int) == old(commands)@,
                ({
                    let added = commands@.subrange(start as int, commands@.len() as int);
                    &&& added.map_values(|c: (ConnectContact, u64)| c.0.user_handle).to_set()
                        == contacts.filter(|h: UserHandle| handles@.take(i as int).contains(h))
                    &&& added.map_values(|c: (ConnectContact, u64)| c.0.user_handle).no_duplicates()
                    &&& forall|k: int| 0 <= k < added.len() ==> {
                        let (c, delay) = #[trigger] added[k];
                        &&& c.session_handle == self.handle()
                        &&& c.contact_request_message is None
                        &&& delay == 0
                        &&& handles@.take(i as int).contains(c.user_handle)
                    }
                }),
            decreases n - i,
        {
            let h = handles[i];
            let eligible = match self.users.get(&h) {
                Some(d) => d.user_type == UserType::Allowed || d.user_type == UserType::Pending,
                None => false,
            };
            let ghost before = commands@;
            proof {
                assert(handles@.to_set().contains(h));
                assert(!handles@.take(i as int).contains(h)) by {
                    if handles@.take(i as int).contains(h) {
                        let k = choose|k: int| 0 <= k < i && handles@.take(i as int)[k] == h;
                        assert(handles@[k] == handles@[i as int]);
                    }
                }
                assert(handles@.take(i + 1) =~= handles@.take(i as int).push(h));
                assert(eligible == contacts.contains(h));
            }
            if eligible {
                commands.push((ConnectContact { session_handle: self.session_handle, user_handle: h, contact_request_message: None }, 0u64));
            }
            proof {
                let added = commands@.subrange(start as int, commands@.len() as int);
                let prev_added = before.subrange(start as int, before.len() as int);
                let m = |c: (ConnectContact, u64)| c.0.user_handle;
                if eligible {
                    assert(added =~= prev_added.push(commands@[commands@.len() - 1]));
                    assert(added.map_values(m) =~= prev_added.map_values(m).push(h));
                    assert(!prev_added.map_values(m).contains(h)) by {
                        if prev_added.map_values(m).contains(h) {
                            let k = choose|k: int| 0 <= k < prev_added.len() && prev_added.map_values(m)[k] == h;
                            assert(handles@.take(i as int).contains(prev_added[k].0.user_handle));
                        }
                    }
                } else {
                    assert(added =~= prev_added);
                }
                assert forall|x: UserHandle| added.map_values(m).to_set().contains(x)
                    <==> contacts.filter(|y: UserHandle| handles@.take(i + 1).contains(y)).contains(x) by {
                    lemma_push_contains(handles@.take(i as int), h, x);
                    assert(prev_added.map_values(m).to_set().contains(x) <==> prev_added.map_values(m).contains(x));
                    assert(added.map_values(m).to_set().contains(x) <==> added.map_values(m).contains(x));
                    if eligible {
                        lemma_push_contains(prev_added.map_values(m), h, x);
                    }
                }
                assert(added.map_values(m).to_set() =~= contacts.filter(|x: UserHandle| handles@.take(i + 1).contains(x)));
                assert(commands@.subrange(0, start as int) =~= before.subrange(0, start as int));
                assert forall|k: int| 0 <= k < added.len() implies {
                    let (c, delay) = #[trigger] added[k];
                    &&& c.session_handle == self.handle()
                    &&& c.contact_request_message is None
                    &&& delay == 0
                    &&& handles@.take(i + 1).contains(c.user_handle)
                } by {
                    lemma_push_contains(handles@.take(i as int), h, added[k].0.user_handle);
                    if k < prev_added.len() {
                        assert(added[k] == prev_added[k]);
                    }
                }
            }
            i += 1;
        }
        proof {
            assert(handles@.take(n as int) =~= handles@);
            assert forall|x: UserHandle| contacts.filter(|h: UserHandle| handles@.take(n as int).contains(h)).contains(x)
                <==> contacts.contains(x) by {
                assert(handles@.to_set().contains(x) <==> handles@.contains(x));
            }
            assert(contacts.filter(|h: UserHandle| handles@.take(n as int).contains(h)) =~= contacts);
        }
    }

    /// Empties the removal schedule, giving the connections it held.
    pub fn take_removals(&mut self) -> (r: Vec<ConnectionHandle>)
        requires
            old(self).wf(),
        ensures
            final(self).wf(),
            r@.to_set() == old(self).to_remove(),
            r@.no_duplicates(),
            final(self).to_remove().is_empty(),
            same_users(*final(self), *old(self)),
            final(self).pending_connections() == old(self).pending_connections(),
            final(self).open_connections() == old(self).open_connections(),
            final(self).to_retry() == old(self).to_retry(),
    {
        let r = set_elements(&self.to_remove);
        self.to_remove.clear();
        r
    }

    /// Stops tracking a dead connection; gives the service id of its peer, if
    /// the peer got as far as proving it.
    pub fn drop_connection(&mut self, connection_handle: ConnectionHandle) -> (r: Option<ServiceId>)
        requires
            old(self).wf(),
            old(self).open_connections().contains_key(connection_handle),
        ensures
            final(self).wf(),
            final(self).open_connections() == old(self).open_connections().remove(connection_handle),
            r == old(self).open_connections()[connection_handle].service_id,
            same_users(*final(self), *old(self)),
            final(self).pending_connections() == old(self).pending_connections(),
            final(self).to_remove() == old(self).to_remove(),
            final(self).to_retry() == old(self).to_retry(),
    {
        match self.open_connections.remove(&connection_handle) {
            Some(connection) => connection.service_id,
            None => None,
        }
    }

    /// A dropped connection's peer: when no other proven connection to them is
    /// left and they are an allowed contact, the frontend hears they are offline.
    pub fn report_offline(&self, service_id: &ServiceId, still_verified: bool, callbacks: &mut Vec<CallbackData>)
        requires
            self.wf(),
        ensures
            final(callbacks)@ == if !still_verified && self.user_of(service_id@) is Some
                && self.users()[self.user_of(service_id@).unwrap()].user_type == UserType::Allowed {
                old(callbacks)@.push(
                    CallbackData::UserStatusChanged {
                        session_handle: self.handle(),
                        user_handle: self.user_of(service_id@).unwrap(),
                        status: UserStatus::Offline,
                    },
                )
            } else {
                old(callbacks)@
            },
    {
        if !still_verified {
            match self.find_user(service_id) {
                Some(h) => {
                    let allowed = match self.users.get(&h) {
                        Some(d) => d.user_type == UserType::Allowed,
                        None => false,
                    };
                    if allowed {
                        callbacks.push(CallbackData::UserStatusChanged { session_handle: self.session_handle, user_handle: h, status: UserStatus::Offline });
                    }
                },
                None => {},
            }
        }
    }

    /// The queued chat messages of a user, to be sent again: their positions in
    /// the queue, texts and first-send times, in queue order.
    pub fn queued_chat_messages(&self, user_handle: UserHandle) -> (r: Vec<(usize, String, u64)>)
        requires
            self.wf(),
        ensures
            !self.users().contains_key(user_handle) ==> r@.len() == 0,
            self.users().contains_key(user_handle) ==> {
                let q = self.users()[user_handle].queued_messages@;
                &&& forall|k: int| 0 <= k < r@.len() ==> {
                    let (pos, text, ts) = #[trigger] r@[k];
                    &&& pos < q.len()
                    &&& q[pos as int] matches UnAckedMessage::ChatMessage { message_text, timestamp, .. }
                        && message_text@ == text@ && timestamp == ts
                }
                &&& forall|k1: int, k2: int| 0 <= k1 < k2 < r@.len() ==> #[trigger] r@[k1].0 < #[trigger] r@[k2].0
                &&& forall|p: int| 0 <= p < q.len() && (#[trigger] q[p] is ChatMessage) ==> exists|k: int| 0 <= k < r@.len() && #[trigger] r@[k].0 == p
            },
    {
        let mut r: Vec<(usize, String, u64)> = Vec::new();
        let d = match self.users.get(&user_handle) {
            Some(d) => d,
            None => {
                return r;
            },
        };
        let q = &d.queued_messages;
        let mut i: usize = 0;
        while i < q.len()
            invariant
                i <= q@.len(),
                forall|k: int| 0 <= k < r@.len() ==> {
                    let (pos, text, ts) = #[trigger] r@[k];
                    &&& pos < i
                    &&& q@[pos as int] matches UnAckedMessage::ChatMessage { message_text, timestamp, .. }
                        && message_text@ == text@ && timestamp == ts
                },
                forall|k1: int, k2: int| 0 <= k1 < k2 < r@.len() ==> #[trigger] r@[k1].0 < #[trigger] r@[k2].0,
                forall|p: int| 0 <= p < i && (#[trigger] q@[p] is ChatMessage) ==> exists|k: int| 0 <= k < r@.len() && #[trigger] r@[k].0 == p,
            decreases q@.len() - i,
        {
            match &q[i] {
                UnAckedMessage::ChatMessage { message_text, timestamp, .. } => {
                    let ghost before = r@;
                    r.push((i, message_text.clone(), *timestamp));
                    proof {
                        assert forall|p: int| 0 <= p < i + 1 && (#[trigger] q@[p] is ChatMessage) implies exists|k: int| 0 <= k < r@.len() && #[trigger] r@[k].0 == p by {
                            if p < i {
                                let k = choose|k: int| 0 <= k < before.len() && #[trigger] before[k].0 == p;
                                assert(r@[k] == before[k]);
                            } else {
                                assert(r@[before.len() as int].0 == p);
                            }
                        }
                    }
                },
                _ => {},
            }
            i += 1;
        }
        r
    }

    /// Gives the queued chat message at a position the new handle the packet
    /// handler sent it again under.
    pub fn set_message_handle(&mut self, user_handle: UserHandle, position: usize, message_handle: MessageHandle)
        requires
            old(self).wf(),
            old(self).users().contains_key(user_handle),
            position < old(self).users()[user_handle].queued_messages@.len(),
        ensures
            final(self).wf(),
            same_but_users(*final(self), *old(self)),
            ({
                let d = old(self).users()[user_handle];
                let e = final(self).users()[user_handle];
                &&& final(self).users() == old(self).users().insert(user_handle, e)
                &&& same_identity(d, e)
                &&& same_transfer_maps(d, e)
                &&& e.next_message_id == d.next_message_id
                &&& e.queued_messages@ == d.queued_messages@.update(
                    position as int,
                    with_message_handle(d.queued_messages@[position as int], message_handle),
                )
            }),
    {
        match btree_get_mut(&mut self.users, &user_handle) {
            Some(d) => {
                let ghost q = d.queued_messages@;
                let m = d.queued_messages.remove(position);
                let m2 = match m {
                    UnAckedMessage::ChatMessage { message_id, timestamp, message_text, .. } =>
                        UnAckedMessage::ChatMessage { message_id, message_handle, timestamp, message_text },
                    other => other,
                };
                d.queued_messages.insert(position, m2);
                proof {
                    assert(d.queued_messages@ =~= q.update(position as int, with_message_handle(q[position as int], message_handle)));
                }
            },
            None => {},
        }
        proof {
            Self::lemma_wf_user_replaced(*old(self), *self, user_handle);
        }
    }

    /// The queued file transfer requests of a user, to be sent again: their
    /// positions in the queue, ids, file names, sizes and hashes, in queue order.
    pub fn queued_file_transfer_requests(&self, user_handle: UserHandle) -> (r: Vec<(usize, tego_file_transfer_id, String, u64, Vec<u8>)>)
        requires
            self.wf(),
        ensures
            !self.users().contains_key(user_handle) ==> r@.len() == 0,
            self.users().contains_key(user_handle) ==> {
                let q = self.users()[user_handle].queued_messages@;
                &&& forall|k: int| 0 <= k < r@.len() ==> {
                    let (pos, id, name, size, hash) = #[trigger] r@[k];
                    &&& pos < q.len()
                    &&& q[pos as int] matches UnAckedMessage::FileTransferRequest { file_transfer_id, file_upload, .. }
                        && file_transfer_id == id && file_upload.name@ == name@ && file_upload.size == size
                        && file_upload.hash@ == hash@
                }
                &&& forall|k1: int, k2: int| 0 <= k1 < k2 < r@.len() ==> #[trigger] r@[k1].0 < #[trigger] r@[k2].0
                &&& forall|p: int| 0 <= p < q.len() && (#[trigger] q[p] is FileTransferRequest) ==> exists|k: int| 0 <= k < r@.len() && #[trigger] r@[k].0 == p
            },
    {
        let mut r: Vec<(usize, tego_file_transfer_id, String, u64, Vec<u8>)> = Vec::new();
        let d = match self.users.get(&user_handle) {
            Some(d) => d,
            None => {
                return r;
            },
        };
        let q = &d.queued_messages;
        let mut i: usize = 0;
        while i < q.len()
            invariant
                i <= q@.len(),
                forall|k: int| 0 <= k < r@.len() ==> {
                    let (pos, id, name, size, hash) = #[trigger] r@[k];
                    &&& pos < i
                    &&& q@[pos as int] matches UnAckedMessage::FileTransferRequest { file_transfer_id, file_upload, .. }
                        && file_transfer_id == id && file_upload.name@ == name@ && file_upload.size == size
                        && file_upload.hash@ == hash@
                },
                forall|k1: int, k2: int| 0 <= k1 < k2 < r@.len() ==> #[trigger] r@[k1].0 < #[trigger] r@[k2].0,
                forall|p: int| 0 <= p < i && (#[trigger] q@[p] is FileTransferRequest) ==> exists|k: int| 0 <= k < r@.len() && #[trigger] r@[k].0 == p,
            decreases q@.len() - i,
        {
            match &q[i] {
                UnAckedMessage::FileTransferRequest { file_transfer_id, file_upload, .. } => {
                    let ghost before = r@;
                    let hash = file_upload.hash.clone();
                    assert(hash@ == file_upload.hash@);
                    r.push((i, *file_transfer_id, file_upload.name.clone(), file_upload.size, hash));
                    proof {
                        assert forall|p: int| 0 <= p < i + 1 && (#[trigger] q@[p] is FileTransferRequest) implies exists|k: int| 0 <= k < r@.len() && #[trigger] r@[k].0 == p by {
                            if p < i {
                                let k = choose|k: int| 0 <= k < before.len() && #[trigger] before[k].0 == p;
                                assert(r@[k] == before[k]);
                            } else {
                                assert(r@[before.len() as int].0 == p);
                            }
                        }
                    }
                },
                _ => {},
            }
            i += 1;
        }
        r
    }

    /// Gives the queued file transfer request at a position the new handle the
    /// packet handler sent it again under, and maps its id to the new handle and
    /// back, unmapping the handle its id had.
    pub fn remap_file_transfer(&mut self, user_handle: UserHandle, position: usize, file_transfer_handle: FileTransferHandle)
        requires
            old(self).wf(),
            old(self).users().contains_key(user_handle),
            position < old(self).users()[user_handle].queued_messages@.len(),
            old(self).users()[user_handle].queued_messages@[position as int] is FileTransferRequest,
        ensures
            final(self).wf(),
            same_but_users(*final(self), *old(self)),
            ({
                let d = old(self).users()[user_handle];
                let e = final(self).users()[user_handle];
                let id = d.queued_messages@[position as int]->FileTransferRequest_file_transfer_id;
                &&& final(self).users() == old(self).users().insert(user_handle, e)
                &&& same_identity(d, e)
                &&& e.next_message_id == d.next_message_id
                &&& e.queued_messages@ == d.queued_messages@.update(
                    position as int,
                    with_request_handle(d.queued_messages@[position as int], file_transfer_handle),
                )
                &&& e.file_transfer_id_to_handle@ == d.file_transfer_id_to_handle@.insert(id, file_transfer_handle)
                &&& e.file_transfer_handle_to_id@ == if d.file_transfer_id_to_handle@.contains_key(id) {
                    d.file_transfer_handle_to_id@.remove(d.file_transfer_id_to_handle@[id]).insert(file_transfer_handle, id)
                } else {
                    d.file_transfer_handle_to_id@.insert(file_transfer_handle, id)
                }
            }),
    {
        match btree_get_mut(&mut self.users, &user_handle) {
            Some(d) => {
                let ghost q = d.queued_messages@;
                let m = d.queued_messages.remove(position);
                let mut id: u64 = 0;
                let m2 = match m {
                    UnAckedMessage::FileTransferRequest { file_transfer_id, file_upload, .. } => {
                        id = file_transfer_id;
                        UnAckedMessage::FileTransferRequest { file_transfer_id, file_transfer_handle, file_upload }
                    },
                    other => other,
                };
                d.queued_messages.insert(position, m2);
                proof {
                    assert(d.queued_messages@ =~= q.update(position as int, with_request_handle(q[position as int], file_transfer_handle)));
                }
                match d.file_transfer_id_to_handle.insert(id, file_transfer_handle) {
                    Some(old_handle) => {
                        let _ = d.file_transfer_handle_to_id.remove(&old_handle);
                    },
                    None => {},
                }
                d.file_transfer_handle_to_id.insert(file_transfer_handle, id);
            },
            None => {},
        }
        proof {
            Self::lemma_wf_user_replaced(*old(self), *self, user_handle);
        }
    }
}

/// The retry delay, in seconds, after `failure_count` failed connection attempts.
pub fn retry_delay(failure_count: usize) -> (delay: u64)
    ensures
        delay == retry_delay_spec(failure_count),
{
    if failure_count <= 10 {
        30u64
    } else if failure_count <= 15 {
        60u64
    } else if failure_count <= 20 {
        120u64
    } else {
        600u64
    }
}

/// The delay before retrying never shrinks as failures mount.
pub proof fn lemma_retry_delay_monotonic(a: usize, b: usize)
    requires
        a <= b,
    ensures
        retry_delay_spec(a) <= retry_delay_spec(b),
{
}

} // verus!
