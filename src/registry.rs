//! The servers of a session by name: which are still loading, which are
//! usable, and the history of each one's loading, kept across reloads.
use vstd::prelude::*;

use crate::mcp::LoadingRecord;
use crate::text::{copy_string, views};

verus! {

#[derive(Debug, Clone, Copy, PartialEq, Eq, Structural)]
pub enum ServerStatus {
    Loading,
    Ready,
    /// Its transport closed: left out until it is reloaded.
    Stale,
}

#[derive(Debug)]
pub struct ServerEntry {
    pub name: String,
    pub status: ServerStatus,
    pub records: Vec<LoadingRecord>,
}

#[derive(Debug)]
pub struct ServerRegistry {
    pub servers: Vec<ServerEntry>,
}

pub open spec fn loading_names(s: Seq<ServerEntry>) -> Seq<Seq<char>>
    decreases s.len(),
{
    if s.len() == 0 {
        Seq::empty()
    } else if s.last().status == ServerStatus::Loading {
        loading_names(s.drop_last()).push(s.last().name@)
    } else {
        loading_names(s.drop_last())
    }
}

fn copy_record(r: &LoadingRecord) -> (c: LoadingRecord)
    ensures
        crate::mcp::record_text(c) == crate::mcp::record_text(*r),
{
    match r {
        LoadingRecord::Success(t) => LoadingRecord::Success(copy_string(t)),
        LoadingRecord::Warn(t) => LoadingRecord::Warn(copy_string(t)),
        LoadingRecord::Error(t) => LoadingRecord::Error(copy_string(t)),
    }
}

impl ServerRegistry {
    /// Server names are unique.
    pub open spec fn wf(&self) -> bool {
        forall|i: int, j: int|
            0 <= i < j < self.servers@.len() ==> self.servers@[i].name@ != self.servers@[j].name@
    }

    pub fn new() -> (r: Self)
        ensures
            r.wf(),
            r.servers@.len() == 0,
    {
        ServerRegistry { servers: Vec::new() }
    }

    /// Where the server `name` stands in the registry.
    pub fn position(&self, name: &str) -> (r: Option<usize>)
        ensures
            r matches Some(i) ==> i < self.servers@.len() && self.servers@[i as int].name@ == name@,
            r is None ==> forall|i: int|
                0 <= i < self.servers@.len() ==> (#[trigger] self.servers@[i]).name@ != name@,
    {
        let mut i: usize = 0;
        while i < self.servers.len()
            invariant
                i <= self.servers@.len(),
                forall|j: int| 0 <= j < i ==> (#[trigger] self.servers@[j]).name@ != name@,
            decreases self.servers.len() - i,
        {
            if self.servers[i].name.as_str().to_owned() == name.to_owned() {
                return Some(i);
            }
            i = i + 1;
        }
        None
    }

    /// A server starts loading: a new one is added at the end; a known one
    /// loads again, keeping its history.
    pub fn start_loading(&mut self, name: &str) -> (r: usize)
        requires
            old(self).wf(),
        ensures
            final(self).wf(),
            r < final(self).servers@.len(),
            final(self).servers@[r as int].name@ == name@,
            final(self).servers@[r as int].status == ServerStatus::Loading,
            r < old(self).servers@.len() ==> final(self).servers@[r as int].records
                == old(self).servers@[r as int].records && final(self).servers@.len()
                == old(self).servers@.len(),
            r == old(self).servers@.len() ==> final(self).servers@[r as int].records@.len() == 0,
            forall|j: int|
                0 <= j < old(self).servers@.len() && j != r ==> final(self).servers@[j]
                    == old(self).servers@[j],
    {
        match self.position(name) {
            Some(i) => {
                let ghost before = self.servers@;
                let mut e = self.servers.remove(i);
                e.status = ServerStatus::Loading;
                self.servers.insert(i, e);
                assert(self.servers@ =~= before.update(i as int, e));
                i
            },
            None => {
                let ghost before = self.servers@;
                self.servers.push(
                    ServerEntry {
                        name: name.to_owned(),
                        status: ServerStatus::Loading,
                        records: Vec::new(),
                    },
                );
                assert(self.servers@.drop_last() =~= before);
                self.servers.len() - 1
            },
        }
    }

    /// A server finished loading, well or not: its record is appended to
    /// its history.
    pub fn finish_loading(&mut self, index: usize, record: LoadingRecord, ready: bool)
        requires
            old(self).wf(),
            index < old(self).servers@.len(),
        ensures
            final(self).wf(),
            final(self).servers@.len() == old(self).servers@.len(),
            final(self).servers@[index as int].records@ == old(self).servers@[index as int].records@.push(
                record,
            ),
            final(self).servers@[index as int].name == old(self).servers@[index as int].name,
            final(self).servers@[index as int].status == if ready {
                ServerStatus::Ready
            } else {
                ServerStatus::Stale
            },
            forall|j: int|
                0 <= j < old(self).servers@.len() && j != index ==> final(self).servers@[j]
                    == old(self).servers@[j],
    {
        let ghost before = self.servers@;
        let mut e = self.servers.remove(index);
        e.records.push(record);
        e.status = if ready {
            ServerStatus::Ready
        } else {
            ServerStatus::Stale
        };
        self.servers.insert(index, e);
        assert(self.servers@ =~= before.update(index as int, e));
    }

    /// A server whose transport closed is left out until it is reloaded.
    pub fn mark_stale(&mut self, index: usize)
        requires
            old(self).wf(),
            index < old(self).servers@.len(),
        ensures
            final(self).wf(),
            final(self).servers@ == old(self).servers@.update(
                index as int,
                ServerEntry { status: ServerStatus::Stale, ..old(self).servers@[index as int] },
            ),
    {
        let ghost before = self.servers@;
        let mut e = self.servers.remove(index);
        e.status = ServerStatus::Stale;
        self.servers.insert(index, e);
        assert(self.servers@ =~= before.update(index as int, e));
    }

    /// Whether the server `name` takes part in operations.
    pub fn is_usable(&self, name: &str) -> (r: bool)
        requires
            self.wf(),
        ensures
            r == exists|i: int|
                0 <= i < self.servers@.len() && (#[trigger] self.servers@[i]).name@ == name@
                    && self.servers@[i].status == ServerStatus::Ready,
    {
        match self.position(name) {
            Some(i) => {
                let r = self.servers[i].status == ServerStatus::Ready;
                proof {
                    assert forall|k: int|
                        0 <= k < self.servers@.len() && (#[trigger] self.servers@[k]).name@
                            == name@ implies k == i as int by {
                        if k < i as int {
                            assert(self.servers@[k].name@ != self.servers@[i as int].name@);
                        } else if k > i as int {
                            assert(self.servers@[i as int].name@ != self.servers@[k].name@);
                        }
                    }
                }
                r
            },
            None => false,
        }
    }

    /// The servers still loading, in the order they were added.
    pub fn pending_clients(&self) -> (r: Vec<String>)
        ensures
            views(r@) == loading_names(self.servers@),
    {
        let mut out: Vec<String> = Vec::new();
        let mut i: usize = 0;
        while i < self.servers.len()
            invariant
                i <= self.servers@.len(),
                views(out@) == loading_names(self.servers@.take(i as int)),
            decreases self.servers.len() - i,
        {
            let ghost before = out@;
            if self.servers[i].status == ServerStatus::Loading {
                out.push(copy_string(&self.servers[i].name));
                assert(views(out@) =~= views(before).push(self.servers@[i as int].name@));
            }
            proof {
                let t = self.servers@.take(i + 1);
                assert(t.drop_last() =~= self.servers@.take(i as int));
                assert(t.last() == self.servers@[i as int]);
            }
            i = i + 1;
        }
        assert(self.servers@.take(self.servers.len() as int) =~= self.servers@);
        out
    }

    /// Each server's name and loading history, for the status report.
    pub fn load_records(&self) -> (r: Vec<(String, Vec<LoadingRecord>)>)
        ensures
            r@.len() == self.servers@.len(),
            forall|i: int| 0 <= i < r@.len() ==> (#[trigger] r@[i]).0@ == self.servers@[i].name@
                && r@[i].1@.len() == self.servers@[i].records@.len(),
            forall|i: int, k: int|
                0 <= i < r@.len() && 0 <= k < r@[i].1@.len() ==> crate::mcp::record_text(
                    #[trigger] r@[i].1@[k],
                ) == crate::mcp::record_text(self.servers@[i].records@[k]),
    {
        let mut out: Vec<(String, Vec<LoadingRecord>)> = Vec::new();
        let mut i: usize = 0;
        while i < self.servers.len()
            invariant
                i <= self.servers@.len(),
                out@.len() == i,
                forall|j: int| 0 <= j < i ==> (#[trigger] out@[j]).0@ == self.servers@[j].name@
                    && out@[j].1@.len() == self.servers@[j].records@.len(),
                forall|j: int, k: int|
                    0 <= j < i && 0 <= k < out@[j].1@.len() ==> crate::mcp::record_text(
                        #[trigger] out@[j].1@[k],
                    ) == crate::mcp::record_text(self.servers@[j].records@[k]),
            decreases self.servers.len() - i,
        {
            let e = &self.servers[i];
            let mut recs: Vec<LoadingRecord> = Vec::new();
            let mut k: usize = 0;
            while k < e.records.len()
                invariant
                    k <= e.records@.len(),
                    recs@.len() == k,
                    forall|m: int| 0 <= m < k ==> crate::mcp::record_text(#[trigger] recs@[m])
                        == crate::mcp::record_text(e.records@[m]),
                decreases e.records.len() - k,
            {
                recs.push(copy_record(&e.records[k]));
                k = k + 1;
            }
            let ghost before = out@;
            out.push((copy_string(&e.name), recs));
            proof {
                assert forall|j: int, k: int|
                    0 <= j < i + 1 && 0 <= k < out@[j].1@.len() implies crate::mcp::record_text(
                        #[trigger] out@[j].1@[k],
                    ) == crate::mcp::record_text(self.servers@[j].records@[k]) by {
                    if j < i {
                        assert(out@[j] == before[j]);
                    }
                }
            }
            i = i + 1;
        }
        out
    }
}

} // verus!
