//! The table of tracked sessions.

use crate::browser::{BrowserBackendId, BrowserHandle};
use crate::ids::{ProfileId, SessionId, VmId};
use crate::preflight::ProtectionStatus;
use crate::profile::ProfileLease;
use crate::secure::SecretKey;
use crate::session::{SessionState, SessionSummary};
use crate::text;
use crate::vm::VmRole;
use vstd::prelude::*;

verus! {

/// How a session's browser runs; selects how it is torn down.
#[derive(Debug)]
pub enum SessionMode {
    /// In a VM behind a gateway VM.
    FullVm,
    /// On the host, through a proxy.
    HostProcess {
        /// The user-data directory on the host.
        user_data_dir: String,
        /// Whether the directory is removed on teardown.
        ephemeral: bool,
        /// The engine that was launched.
        engine: BrowserBackendId,
    },
}

/// What is known of a tracked session.
pub struct SessionEntry {
    /// The profile.
    pub profile: ProfileId,
    /// The lifecycle state.
    pub state: SessionState,
    /// The single-writer lease held for the session.
    pub lease: ProfileLease,
    /// How the browser runs.
    pub mode: SessionMode,
    /// The gateway VM, once provisioned.
    pub gateway_vm: Option<VmId>,
    /// The browser VM, once provisioned.
    pub browser_vm: Option<VmId>,
    /// The running browser, once launched.
    pub browser_handle: Option<BrowserHandle>,
    /// The aggregate protection status.
    pub protection: ProtectionStatus,
    /// The observed public IP, if any.
    pub public_ip: Option<String>,
    /// The key that protects the disposable overlays; held in memory only, and
    /// dropped on teardown.
    pub ram_key: Option<SecretKey>,
}

impl SessionEntry {
    /// The summary of the session.
    pub open spec fn summarized(self, id: SessionId) -> SessionSummary {
        SessionSummary {
            id,
            profile: self.profile,
            state: self.state,
            protection: self.protection,
            public_ip: self.public_ip,
        }
    }

    /// The summary of the session.
    #[must_use]
    pub fn summary(&self, id: SessionId) -> (r: SessionSummary)
        ensures
            r == self.summarized(id),
    {
        SessionSummary {
            id,
            profile: self.profile,
            state: self.state,
            protection: self.protection,
            public_ip: text::copy_opt(&self.public_ip),
        }
    }
}

/// A change to an entry.
pub enum Change {
    /// The state changes.
    State(SessionState),
    /// A VM was provisioned.
    Vm(VmRole, VmId),
    /// The browser was launched.
    Launched(BrowserHandle),
    /// Preflight came to a status and an observed IP.
    Checked(ProtectionStatus, Option<String>),
    /// The session runs on the host, with reduced protection.
    Hosted(SessionMode),
    /// The browser handle was taken for teardown.
    HandleTaken,
    /// Teardown ended in the given state: nothing live is left, and the key is
    /// gone.
    Ended(SessionState),
}

impl SessionEntry {
    /// Whether nothing of the session is live: no browser, no VM and no key.
    pub open spec fn nothing_live(self) -> bool {
        &&& self.browser_handle is None
        &&& self.gateway_vm is None
        &&& self.browser_vm is None
        &&& self.ram_key is None
    }

    /// The entry after a change.
    pub open spec fn changed(self, change: Change) -> SessionEntry {
        match change {
            Change::State(s) => SessionEntry { state: s, ..self },
            Change::Vm(VmRole::Gateway, vm) => SessionEntry { gateway_vm: Some(vm), ..self },
            Change::Vm(VmRole::Browser, vm) => SessionEntry { browser_vm: Some(vm), ..self },
            Change::Launched(h) => SessionEntry { browser_handle: Some(h), ..self },
            Change::Checked(p, ip) => SessionEntry { protection: p, public_ip: ip, ..self },
            Change::Hosted(m) => SessionEntry {
                mode: m,
                protection: ProtectionStatus::Partial,
                ..self
            },
            Change::HandleTaken => SessionEntry { browser_handle: None, ..self },
            Change::Ended(s) => SessionEntry {
                state: s,
                browser_handle: None,
                gateway_vm: None,
                browser_vm: None,
                ram_key: None,
                ..self
            },
        }
    }

    fn apply(self, change: Change) -> (r: SessionEntry)
        ensures
            r == self.changed(change),
    {
        match change {
            Change::State(s) => SessionEntry { state: s, ..self },
            Change::Vm(VmRole::Gateway, vm) => SessionEntry { gateway_vm: Some(vm), ..self },
            Change::Vm(VmRole::Browser, vm) => SessionEntry { browser_vm: Some(vm), ..self },
            Change::Launched(h) => SessionEntry { browser_handle: Some(h), ..self },
            Change::Checked(p, ip) => SessionEntry { protection: p, public_ip: ip, ..self },
            Change::Hosted(m) => SessionEntry {
                mode: m,
                protection: ProtectionStatus::Partial,
                ..self
            },
            Change::HandleTaken => SessionEntry { browser_handle: None, ..self },
            Change::Ended(s) => SessionEntry {
                state: s,
                browser_handle: None,
                gateway_vm: None,
                browser_vm: None,
                ram_key: None,
                ..self
            },
        }
    }
}

/// The entry of a session among rows.
pub open spec fn find(rows: Seq<(SessionId, SessionEntry)>, id: SessionId) -> Option<SessionEntry>
    decreases rows.len(),
{
    if rows.len() == 0 {
        None
    } else if rows.last().0 == id {
        Some(rows.last().1)
    } else {
        find(rows.drop_last(), id)
    }
}

/// Whether no session occurs twice.
pub open spec fn distinct(rows: Seq<(SessionId, SessionEntry)>) -> bool {
    forall|i: int, j: int|
        0 <= i < j < rows.len() ==> (#[trigger] rows[i]).0 != (#[trigger] rows[j]).0
}

proof fn lemma_find_at(rows: Seq<(SessionId, SessionEntry)>, i: int)
    requires
        distinct(rows),
        0 <= i < rows.len(),
    ensures
        find(rows, rows[i].0) == Some(rows[i].1),
    decreases rows.len(),
{
    if i < rows.len() - 1 {
        let init = rows.drop_last();
        assert(rows[i].0 != rows[rows.len() - 1].0);
        assert(init[i] == rows[i]);
        assert forall|a: int, b: int| 0 <= a < b < init.len() implies (#[trigger] init[a]).0 != (
        #[trigger] init[b]).0 by {
            assert(init[a] == rows[a] && init[b] == rows[b]);
        }
        lemma_find_at(init, i);
    }
}

proof fn lemma_find_none(rows: Seq<(SessionId, SessionEntry)>, id: SessionId)
    requires
        forall|i: int| 0 <= i < rows.len() ==> (#[trigger] rows[i]).0 != id,
    ensures
        find(rows, id) is None,
    decreases rows.len(),
{
    if rows.len() > 0 {
        let init = rows.drop_last();
        assert(rows[rows.len() - 1].0 != id);
        assert forall|i: int| 0 <= i < init.len() implies (#[trigger] init[i]).0 != id by {
            assert(init[i] == rows[i]);
        }
        lemma_find_none(init, id);
    }
}

proof fn lemma_find_some(rows: Seq<(SessionId, SessionEntry)>, id: SessionId)
    requires
        find(rows, id) is Some,
    ensures
        exists|i: int| 0 <= i < rows.len() && (#[trigger] rows[i]).0 == id,
    decreases rows.len(),
{
    if rows.last().0 == id {
        assert(rows[rows.len() - 1].0 == id);
    } else {
        let init = rows.drop_last();
        lemma_find_some(init, id);
        let i = choose|i: int| 0 <= i < init.len() && (#[trigger] init[i]).0 == id;
        assert(rows[i].0 == id);
    }
}

proof fn lemma_find_update(
    rows: Seq<(SessionId, SessionEntry)>,
    i: int,
    e: SessionEntry,
    id: SessionId,
)
    requires
        distinct(rows),
        0 <= i < rows.len(),
    ensures
        find(rows.update(i, (rows[i].0, e)), id) == if id == rows[i].0 {
            Some(e)
        } else {
            find(rows, id)
        },
    decreases rows.len(),
{
    let new = rows.update(i, (rows[i].0, e));
    if i < rows.len() - 1 {
        let init = rows.drop_last();
        assert forall|a: int, b: int| 0 <= a < b < init.len() implies (#[trigger] init[a]).0 != (
        #[trigger] init[b]).0 by {
            assert(init[a] == rows[a] && init[b] == rows[b]);
        }
        assert(rows[i].0 != rows[rows.len() - 1].0);
        lemma_find_update(init, i, e, id);
        assert(new.drop_last() =~= init.update(i, (init[i].0, e)));
    } else {
        assert(new.drop_last() =~= rows.drop_last());
    }
}

/// The tracked sessions, each once.
pub struct SessionTable {
    rows: Vec<(SessionId, SessionEntry)>,
}

impl View for SessionTable {
    type V = Map<SessionId, SessionEntry>;

    closed spec fn view(&self) -> Map<SessionId, SessionEntry> {
        Map::new(
            |id: SessionId| find(self.rows@, id) is Some,
            |id: SessionId| find(self.rows@, id)->0,
        )
    }
}

/// Whether `list` holds the summary of every session of `table`, each once.
pub open spec fn summarizes(list: Seq<SessionSummary>, table: Map<SessionId, SessionEntry>) -> bool {
    &&& forall|i: int|
        0 <= i < list.len() ==> table.contains_key((#[trigger] list[i]).id) && list[i]
            == table[list[i].id].summarized(list[i].id)
    &&& forall|i: int, j: int|
        0 <= i < j < list.len() ==> (#[trigger] list[i]).id != (#[trigger] list[j]).id
    &&& forall|id: SessionId| #[trigger]
        table.contains_key(id) ==> exists|i: int| 0 <= i < list.len() && (#[trigger] list[i]).id == id
}

impl SessionTable {
    #[verifier::type_invariant]
    spec fn well_formed(self) -> bool {
        distinct(self.rows@)
    }

    /// No sessions.
    #[must_use]
    pub fn new() -> (r: SessionTable)
        ensures
            r@ == Map::<SessionId, SessionEntry>::empty(),
    {
        let r = SessionTable { rows: Vec::new() };
        assert(r@ =~= Map::<SessionId, SessionEntry>::empty());
        r
    }

    fn position(&self, id: SessionId) -> (r: Option<usize>)
        ensures
            match r {
                Some(i) => i < self.rows@.len() && self.rows@[i as int].0 == id
                    && self@.contains_key(id) && self@[id] == self.rows@[i as int].1,
                None => !self@.contains_key(id) && forall|j: int|
                    0 <= j < self.rows@.len() ==> (#[trigger] self.rows@[j]).0 != id,
            },
    {
        proof {
            use_type_invariant(self);
        }
        let mut i: usize = 0;
        while i < self.rows.len()
            invariant
                i <= self.rows@.len(),
                distinct(self.rows@),
                forall|j: int| 0 <= j < i ==> (#[trigger] self.rows@[j]).0 != id,
            decreases self.rows@.len() - i,
        {
            if self.rows[i].0 == id {
                proof {
                    lemma_find_at(self.rows@, i as int);
                }
                return Some(i);
            }
            i += 1;
        }
        proof {
            lemma_find_none(self.rows@, id);
        }
        None
    }

    /// The entry of a session.
    #[must_use]
    pub fn get(&self, id: SessionId) -> (r: Option<&SessionEntry>)
        ensures
            match r {
                Some(e) => self@.contains_key(id) && *e == self@[id],
                None => !self@.contains_key(id),
            },
    {
        match self.position(id) {
            Some(i) => Some(&self.rows[i].1),
            None => None,
        }
    }

    /// Tracks a session.
    pub fn insert(&mut self, id: SessionId, entry: SessionEntry)
        ensures
            final(self)@ == old(self)@.insert(id, entry),
    {
        proof {
            use_type_invariant(&*self);
        }
        let at = self.position(id);
        let mut rows: Vec<(SessionId, SessionEntry)> = Vec::new();
        std::mem::swap(&mut rows, &mut self.rows);
        let ghost before = rows@;
        match at {
            Some(i) => {
                rows.remove(i);
                rows.insert(i, (id, entry));
                proof {
                    assert(rows@ =~= before.update(i as int, (id, entry)));
                    assert forall|k: SessionId| true implies find(rows@, k) == (if k == id {
                        Some(entry)
                    } else {
                        find(before, k)
                    }) by {
                        lemma_find_update(before, i as int, entry, k);
                    }
                }
            },
            None => {
                rows.push((id, entry));
                proof {
                    assert(rows@.drop_last() =~= before);
                    assert forall|k: SessionId| true implies find(rows@, k) == (if k == id {
                        Some(entry)
                    } else {
                        find(before, k)
                    }) by {}
                }
            },
        }
        self.rows = rows;
        assert(self@ =~= old(self)@.insert(id, entry));
    }

    /// Applies a change to the entry of a session; an untracked session is left
    /// alone. Tells whether the session is tracked.
    pub fn change(&mut self, id: SessionId, change: Change) -> (r: bool)
        ensures
            r == old(self)@.contains_key(id),
            final(self)@ == if old(self)@.contains_key(id) {
                old(self)@.insert(id, old(self)@[id].changed(change))
            } else {
                old(self)@
            },
    {
        proof {
            use_type_invariant(&*self);
        }
        match self.position(id) {
            None => false,
            Some(i) => {
                let mut rows: Vec<(SessionId, SessionEntry)> = Vec::new();
                std::mem::swap(&mut rows, &mut self.rows);
                let ghost before = rows@;
                let row = rows.remove(i);
                let entry = row.1.apply(change);
                let ghost new = entry;
                rows.insert(i, (id, entry));
                proof {
                    assert(rows@ =~= before.update(i as int, (id, new)));
                    assert forall|k: SessionId| true implies find(rows@, k) == (if k == id {
                        Some(new)
                    } else {
                        find(before, k)
                    }) by {
                        lemma_find_update(before, i as int, new, k);
                    }
                }
                self.rows = rows;
                assert(self@ =~= old(self)@.insert(id, old(self)@[id].changed(change)));
                true
            },
        }
    }

    /// The summary of every session.
    #[must_use]
    pub fn list(&self) -> (r: Vec<SessionSummary>)
        ensures
            summarizes(r@, self@),
    {
        proof {
            use_type_invariant(self);
        }
        let mut out: Vec<SessionSummary> = Vec::new();
        let mut i: usize = 0;
        while i < self.rows.len()
            invariant
                i <= self.rows@.len(),
                out@.len() == i,
                forall|j: int|
                    0 <= j < i ==> #[trigger] out@[j] == self.rows@[j].1.summarized(
                        self.rows@[j].0,
                    ),
            decreases self.rows@.len() - i,
        {
            let row = &self.rows[i];
            out.push(row.1.summary(row.0));
            i += 1;
        }
        proof {
            assert forall|j: int| 0 <= j < out@.len() implies self@.contains_key(
                (#[trigger] out@[j]).id,
            ) && out@[j] == self@[out@[j].id].summarized(out@[j].id) by {
                lemma_find_at(self.rows@, j);
            }
            assert forall|a: int, b: int| 0 <= a < b < out@.len() implies (#[trigger] out@[a]).id
                != (#[trigger] out@[b]).id by {
                assert(self.rows@[a].0 != self.rows@[b].0);
            }
            assert forall|id: SessionId| #[trigger] self@.contains_key(id) implies exists|k: int|
                0 <= k < out@.len() && (#[trigger] out@[k]).id == id by {
                lemma_find_some(self.rows@, id);
                let k = choose|k: int| 0 <= k < self.rows@.len() && (#[trigger] self.rows@[k]).0
                    == id;
                assert(out@[k].id == id);
            }
        }
        out
    }
}

/// No change gives a session another profile or lease. The two VMs are recorded
/// apart, a session on the host is never fully protected, what preflight found is
/// what is shown, and a session that has ended holds neither a browser nor a VM nor
/// its key.
pub proof fn law_changes_keep_to_their_part(e: SessionEntry, change: Change, id: SessionId)
    ensures
        ({
            let r = e.changed(change);
            &&& r.profile == e.profile && r.lease == e.lease
            &&& !(change is State || change is Ended) ==> r.state == e.state
            &&& !(change is Checked || change is Hosted) ==> r.protection == e.protection
            &&& !(change is Checked) ==> r.public_ip == e.public_ip
            &&& !(change is Hosted) ==> r.mode == e.mode
            &&& !(change is Ended) ==> r.ram_key == e.ram_key
            &&& !(change is Vm || change is Ended) ==> r.gateway_vm == e.gateway_vm && r.browser_vm
                == e.browser_vm
            &&& !(change is Launched || change is HandleTaken || change is Ended)
                ==> r.browser_handle == e.browser_handle
            &&& change matches Change::State(s) ==> r.summarized(id).state == s
            &&& change matches Change::Vm(role, vm) ==> (if role is Gateway {
                r.gateway_vm == Some(vm) && r.browser_vm == e.browser_vm
            } else {
                r.browser_vm == Some(vm) && r.gateway_vm == e.gateway_vm
            })
            &&& change matches Change::Launched(h) ==> r.browser_handle == Some(h)
            &&& change is HandleTaken ==> r.browser_handle is None
            &&& change matches Change::Checked(p, ip) ==> r.summarized(id).protection == p
                && r.summarized(id).public_ip == ip
            &&& change matches Change::Hosted(m) ==> r.mode == m && r.summarized(id).protection
                == ProtectionStatus::Partial
            &&& change matches Change::Ended(s) ==> r.summarized(id).state == s && r.browser_handle
                is None && r.gateway_vm is None && r.browser_vm is None && r.ram_key is None
            &&& r.summarized(id).id == id && r.summarized(id).profile == e.profile
        }),
{
}

} // verus!
