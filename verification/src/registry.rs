//! The connection registry: port identifier to exclusive handle.
//!
//! The registry owns every open handle.  Its model is a map from port name
//! to handle; the invariant keeps names unique, so at most one handle exists
//! per physical port, and removing the entry is the only way to close it.
//! Opening the reserved simulated identifier installs a sentinel handle that
//! performs no I/O; a write through it can be scripted to fail, which is how
//! tests drive the failure paths without hardware.

use vstd::prelude::*;

use crate::errors::SgError;
use crate::ports::{open_serial, serial_flush, serial_write_all};

verus! {

/// Milliseconds a registry open waits for the device before giving up.
pub const OPEN_TIMEOUT_MS: u64 = 500;

/// The reserved simulated port identifier.
pub open spec fn sim_id() -> Seq<char> {
    "TEST"@
}

/// The reserved simulated port identifier, as an owned string.
pub fn simulated_port_name() -> (r: String)
    ensures
        r@ == sim_id(),
{
    String::from_str("TEST")
}

/// Sentinel state of the simulated port's handle.
#[derive(Clone, Copy, Debug)]
pub struct SimPort {
    /// When `Some(k)`, the `k`-th write from now through this handle is
    /// scripted to fail (`Some(0)` fails the very next one); afterwards the
    /// script is spent.  `None` lets every write succeed.
    pub fail_in: Option<u64>,
}

/// An exclusive connection handle: a live serial stream, or the simulated
/// sentinel that performs no I/O.
pub enum ConnectionHandle {
    /// The simulated port; writes touch no hardware.
    Simulated(SimPort),
    /// Ownership of an open serial stream.
    Real(serialport::TTYPort),
}

/// Whether a write through the simulated handle in state `sp` succeeds.
pub open spec fn sim_write_ok(sp: SimPort) -> bool {
    sp.fail_in != Some(0u64)
}

/// The simulated handle's state after one write.
pub open spec fn sim_write_next(sp: SimPort) -> SimPort {
    match sp.fail_in {
        None => sp,
        Some(k) => if k == 0 {
            SimPort { fail_in: None }
        } else {
            SimPort { fail_in: Some((k - 1) as u64) }
        },
    }
}

struct PortEntry {
    name: String,
    handle: ConnectionHandle,
}

/// The entries as a map from port name to handle; later entries shadow
/// earlier ones, which never happens under the uniqueness invariant.
spec fn entries_map(s: Seq<PortEntry>) -> Map<Seq<char>, ConnectionHandle>
    decreases s.len(),
{
    if s.len() == 0 {
        Map::empty()
    } else {
        entries_map(s.drop_last()).insert(s.last().name@, s.last().handle)
    }
}

spec fn names_unique(s: Seq<PortEntry>) -> bool {
    forall|i: int, j: int| 0 <= i < j < s.len() ==> s[i].name@ != s[j].name@
}

spec fn has_name(s: Seq<PortEntry>, n: Seq<char>) -> bool {
    exists|i: int| 0 <= i < s.len() && (#[trigger] s[i]).name@ == n
}

proof fn lemma_entries_map_dom(s: Seq<PortEntry>)
    ensures
        forall|n: Seq<char>|
            #![trigger entries_map(s).contains_key(n)]
            #![trigger has_name(s, n)]
            entries_map(s).contains_key(n) <==> has_name(s, n),
    decreases s.len(),
{
    if s.len() > 0 {
        let dl = s.drop_last();
        lemma_entries_map_dom(dl);
        assert(forall|x: int| 0 <= x < dl.len() ==> dl[x] == s[x]);
        assert(entries_map(s) == entries_map(dl).insert(s.last().name@, s.last().handle));
        let last_i: int = s.len() as int - 1;
        assert forall|n: Seq<char>| entries_map(s).contains_key(n) implies has_name(s, n) by {
            if n == s.last().name@ {
                assert(s[last_i].name@ == n);
                assert(has_name(s, n));
            } else {
                assert(entries_map(dl).contains_key(n));
                assert(has_name(dl, n));
                let i = choose|i: int| 0 <= i < dl.len() && (#[trigger] dl[i]).name@ == n;
                assert(dl[i] == s[i]);
                assert(s[i].name@ == n);
                assert(has_name(s, n));
            }
        }
        assert forall|n: Seq<char>| has_name(s, n) implies entries_map(s).contains_key(n) by {
            let i = choose|i: int| 0 <= i < s.len() && (#[trigger] s[i]).name@ == n;
            if i < last_i {
                assert(dl[i] == s[i]);
                assert(dl[i].name@ == n);
                assert(has_name(dl, n));
                assert(entries_map(dl).contains_key(n));
            } else {
                assert(n == s.last().name@);
            }
        }
    }
}

proof fn lemma_entries_map_index(s: Seq<PortEntry>, i: int)
    requires
        names_unique(s),
        0 <= i < s.len(),
    ensures
        entries_map(s).contains_key(s[i].name@),
        entries_map(s)[s[i].name@] == s[i].handle,
    decreases s.len(),
{
    let dl = s.drop_last();
    if i == s.len() - 1 {
    } else {
        assert(forall|x: int| 0 <= x < dl.len() ==> dl[x] == s[x]);
        lemma_entries_map_index(dl, i);
        assert(s[i].name@ != s.last().name@);
    }
}

proof fn lemma_names_unique_drop_last(s: Seq<PortEntry>)
    requires
        names_unique(s),
        s.len() > 0,
    ensures
        names_unique(s.drop_last()),
{
    assert(forall|x: int| 0 <= x < s.drop_last().len() ==> s.drop_last()[x] == s[x]);
}

proof fn lemma_names_unique_remove(s: Seq<PortEntry>, i: int)
    requires
        names_unique(s),
        0 <= i < s.len(),
    ensures
        names_unique(s.remove(i)),
        forall|x: int|
            0 <= x < s.remove(i).len() ==> (#[trigger] s.remove(i)[x]).name@ != s[i].name@,
{
    assert forall|x: int| 0 <= x < s.remove(i).len() implies (#[trigger] s.remove(i)[x]).name@
        != s[i].name@ by {
        if x < i {
            assert(s.remove(i)[x] == s[x]);
        } else {
            assert(s.remove(i)[x] == s[x + 1]);
        }
    }
    assert forall|x: int, y: int| 0 <= x < y < s.remove(i).len() implies (#[trigger] s.remove(
        i,
    )[x]).name@ != (#[trigger] s.remove(i)[y]).name@ by {
        let xs = if x < i {
            x
        } else {
            x + 1
        };
        let ys = if y < i {
            y
        } else {
            y + 1
        };
        assert(s.remove(i)[x] == s[xs]);
        assert(s.remove(i)[y] == s[ys]);
    }
}

proof fn lemma_entries_map_remove(s: Seq<PortEntry>, i: int)
    requires
        names_unique(s),
        0 <= i < s.len(),
    ensures
        entries_map(s.remove(i)) == entries_map(s).remove(s[i].name@),
    decreases s.len(),
{
    let dl = s.drop_last();
    lemma_names_unique_drop_last(s);
    lemma_entries_map_dom(dl);
    if i == s.len() - 1 {
        assert(s.remove(i) =~= dl);
        assert(!has_name(dl, s[i].name@));
        assert(entries_map(dl).remove(s[i].name@) =~= entries_map(dl));
        assert(entries_map(s).remove(s[i].name@) =~= entries_map(dl).insert(
            s.last().name@,
            s.last().handle,
        ).remove(s[i].name@));
    } else {
        assert(s.remove(i).drop_last() =~= dl.remove(i));
        assert(s.remove(i).last() == s.last());
        assert(s.remove(i).len() > 0);
        lemma_entries_map_remove(dl, i);
        assert(s[i].name@ != s.last().name@);
        assert(entries_map(s.remove(i)) == entries_map(dl.remove(i)).insert(
            s.last().name@,
            s.last().handle,
        ));
        assert(entries_map(dl).remove(s[i].name@).insert(s.last().name@, s.last().handle)
            =~= entries_map(dl).insert(s.last().name@, s.last().handle).remove(s[i].name@));
        assert(dl[i] == s[i]);
    }
}

/// The mapping from port identifier to exclusive handle.  Keys are unique;
/// a present identifier is either genuinely open or explicitly simulated,
/// and removing its entry is the only way to close it.
pub struct ConnectionRegistry {
    entries: Vec<PortEntry>,
}

impl ConnectionRegistry {
    /// The registry as a map from port name to handle.
    pub closed spec fn as_map(self) -> Map<Seq<char>, ConnectionHandle> {
        entries_map(self.entries@)
    }

    /// How many ports currently have a handle.
    pub closed spec fn port_count(self) -> nat {
        self.entries@.len()
    }

    /// Uniqueness of names: the at-most-one-handle-per-port invariant.
    pub closed spec fn wf(self) -> bool {
        names_unique(self.entries@)
    }

    /// An empty registry.
    pub fn new() -> (r: ConnectionRegistry)
        ensures
            r.wf(),
            r.port_count() == 0,
            r.as_map() == Map::<Seq<char>, ConnectionHandle>::empty(),
    {
        ConnectionRegistry { entries: Vec::new() }
    }

    fn find_index(&self, name: &String) -> (r: Option<usize>)
        ensures
            match r {
                Some(i) => i < self.entries@.len() && self.entries@[i as int].name@ == name@,
                None => !has_name(self.entries@, name@),
            },
    {
        let mut i: usize = 0;
        while i < self.entries.len()
            invariant
                i <= self.entries@.len(),
                forall|j: int| 0 <= j < i ==> (#[trigger] self.entries@[j]).name@ != name@,
            decreases self.entries@.len() - i,
        {
            if self.entries[i].name == *name {
                return Some(i);
            }
            i += 1;
        }
        None
    }

    /// Whether `name` currently has a handle.
    pub fn contains(&self, name: &String) -> (r: bool)
        ensures
            r == self.as_map().contains_key(name@),
    {
        proof {
            lemma_entries_map_dom(self.entries@);
        }
        match self.find_index(name) {
            Some(_) => true,
            None => false,
        }
    }

    /// How many ports currently have a handle.
    pub fn open_count(&self) -> (r: usize)
        ensures
            r == self.port_count(),
    {
        self.entries.len()
    }

    /// Opens `name`: installs the simulated sentinel for the reserved
    /// identifier, otherwise asks the operating system for the device with
    /// the profile's line settings and a bounded timeout.  An identifier
    /// that already has a handle is refused and the existing handle is
    /// never replaced.
    pub fn open(&mut self, name: String, baud_rate: u32) -> (r: Result<bool, SgError>)
        requires
            old(self).wf(),
        ensures
            final(self).wf(),
            old(self).as_map().contains_key(name@) ==> r == Err::<bool, SgError>(
                SgError::PortAlreadyOpen,
            ) && final(self).as_map() == old(self).as_map(),
            !old(self).as_map().contains_key(name@) && name@ == sim_id() ==> r == Ok::<
                bool,
                SgError,
            >(true) && final(self).as_map() == old(self).as_map().insert(
                name@,
                ConnectionHandle::Simulated((SimPort { fail_in: None })),
            ),
            !old(self).as_map().contains_key(name@) && name@ != sim_id() ==> match r {
                Ok(b) => b && final(self).as_map().contains_key(name@) && (final(self).as_map()[name@] matches
                ConnectionHandle::Real(_)) && final(self).as_map() == old(self).as_map().insert(
                    name@,
                    final(self).as_map()[name@],
                ),
                Err(e) => (e matches SgError::IoFailure(_)) && final(self).as_map() == old(self).as_map(),
            },
            r is Ok ==> final(self).port_count() == old(self).port_count() + 1,
            r is Err ==> final(self).port_count() == old(self).port_count() && final(self).as_map() == old(
                self,
            ).as_map(),
    {
        proof {
            lemma_entries_map_dom(self.entries@);
        }
        match self.find_index(&name) {
            Some(_) => Err(SgError::PortAlreadyOpen),
            None => {
                let ghost pre = self.entries@;
                let sim = simulated_port_name();
                if name == sim {
                    self.entries.push(
                        PortEntry {
                            name,
                            handle: ConnectionHandle::Simulated(SimPort { fail_in: None }),
                        },
                    );
                    proof {
                        assert(self.entries@.drop_last() =~= pre);
                        assert(names_unique(self.entries@));
                    }
                    Ok(true)
                } else {
                    match open_serial(name.as_str(), baud_rate, OPEN_TIMEOUT_MS) {
                        Ok(port) => {
                            self.entries.push(
                                PortEntry { name, handle: ConnectionHandle::Real(port) },
                            );
                            proof {
                                assert(self.entries@.drop_last() =~= pre);
                                assert(names_unique(self.entries@));
                                lemma_entries_map_index(
                                    self.entries@,
                                    self.entries@.len() - 1,
                                );
                            }
                            Ok(true)
                        },
                        Err(m) => Err(SgError::IoFailure(m)),
                    }
                }
            },
        }
    }

    /// Closes `name` by removing its entry, the handle's sole destructor.
    /// Every other entry is untouched, so a later `open` of the same
    /// identifier starts from a clean slate.
    pub fn close(&mut self, name: &String) -> (r: Result<bool, SgError>)
        requires
            old(self).wf(),
        ensures
            final(self).wf(),
            old(self).as_map().contains_key(name@) ==> r == Ok::<bool, SgError>(true)
                && final(self).as_map() == old(self).as_map().remove(name@) && final(self).port_count() == old(
                self,
            ).port_count() - 1,
            !old(self).as_map().contains_key(name@) ==> r == Err::<bool, SgError>(
                SgError::PortNotFound,
            ) && final(self).as_map() == old(self).as_map() && final(self).port_count() == old(
                self,
            ).port_count(),
    {
        proof {
            lemma_entries_map_dom(self.entries@);
        }
        match self.find_index(name) {
            Some(i) => {
                proof {
                    lemma_entries_map_remove(self.entries@, i as int);
                    lemma_names_unique_remove(self.entries@, i as int);
                }
                self.entries.remove(i);
                Ok(true)
            },
            None => Err(SgError::PortNotFound),
        }
    }

    /// Writes the whole command through `name`'s handle: a blocking write
    /// and flush for a real port, a recorded no-op (or a scripted failure)
    /// for the simulated one.  A missing handle is reported, never ignored.
    pub fn write_data(&mut self, name: &String, data: &[u8]) -> (r: Result<bool, SgError>)
        requires
            old(self).wf(),
        ensures
            final(self).wf(),
            final(self).port_count() == old(self).port_count(),
            !old(self).as_map().contains_key(name@) ==> r == Err::<bool, SgError>(
                SgError::PortNotOpen,
            ) && final(self).as_map() == old(self).as_map(),
            old(self).as_map().contains_key(name@) ==> match old(self).as_map()[name@] {
                ConnectionHandle::Simulated(sp) => {
                    &&& (r is Ok <==> sim_write_ok(sp))
                    &&& (r is Ok ==> r == Ok::<bool, SgError>(true))
                    &&& (!sim_write_ok(sp) ==> r matches Err(SgError::IoFailure(_)))
                    &&& final(self).as_map() == old(self).as_map().insert(
                        name@,
                        ConnectionHandle::Simulated(sim_write_next(sp)),
                    )
                },
                ConnectionHandle::Real(_) => {
                    &&& (r is Ok ==> r == Ok::<bool, SgError>(true))
                    &&& (r is Err ==> r matches Err(SgError::IoFailure(_)))
                    &&& final(self).as_map().dom() == old(self).as_map().dom()
                    &&& (final(self).as_map()[name@] matches ConnectionHandle::Real(_))
                    &&& forall|n: Seq<char>|
                        n != name@ && old(self).as_map().contains_key(n)
                            ==> final(self).as_map()[n] == old(self).as_map()[n]
                },
            },
    {
        proof {
            lemma_entries_map_dom(self.entries@);
        }
        match self.find_index(name) {
            None => Err(SgError::PortNotOpen),
            Some(i) => {
                let ghost pre = self.entries@;
                proof {
                    lemma_entries_map_index(pre, i as int);
                    lemma_entries_map_remove(pre, i as int);
                    lemma_names_unique_remove(pre, i as int);
                }
                let entry = self.entries.remove(i);
                let entry_name = entry.name;
                match entry.handle {
                    ConnectionHandle::Simulated(sp) => {
                        let (res, next) = match sp.fail_in {
                            None => (Ok(true), sp),
                            Some(k) => if k == 0 {
                                (
                                    Err(
                                        SgError::IoFailure(
                                            String::from_str("scripted simulated write failure"),
                                        ),
                                    ),
                                    SimPort { fail_in: None },
                                )
                            } else {
                                (Ok(true), SimPort { fail_in: Some(k - 1) })
                            },
                        };
                        self.entries.push(
                            PortEntry {
                                name: entry_name,
                                handle: ConnectionHandle::Simulated(next),
                            },
                        );
                        proof {
                            assert(self.entries@.drop_last() =~= pre.remove(i as int));
                            assert(names_unique(self.entries@));
                            assert(entries_map(pre).remove(name@).insert(
                                name@,
                                ConnectionHandle::Simulated(next),
                            ) =~= entries_map(pre).insert(
                                name@,
                                ConnectionHandle::Simulated(next),
                            ));
                        }
                        res
                    },
                    ConnectionHandle::Real(mut port) => {
                        let wrote = serial_write_all(&mut port, data);
                        let outcome = match wrote {
                            Ok(_) => serial_flush(&mut port),
                            Err(m) => Err(m),
                        };
                        self.entries.push(
                            PortEntry { name: entry_name, handle: ConnectionHandle::Real(port) },
                        );
                        proof {
                            assert(self.entries@.drop_last() =~= pre.remove(i as int));
                            assert(names_unique(self.entries@));
                            lemma_entries_map_index(self.entries@, self.entries@.len() - 1);
                            assert(entries_map(pre).remove(name@).insert(
                                name@,
                                self.entries@.last().handle,
                            ) =~= entries_map(pre).insert(name@, self.entries@.last().handle));
                            assert(entries_map(self.entries@).dom() =~= entries_map(pre).dom());
                        }
                        match outcome {
                            Ok(_) => Ok(true),
                            Err(m) => Err(SgError::IoFailure(m)),
                        }
                    },
                }
            },
        }
    }

    /// Scripts the simulated handle under `name` so that the `after`-th
    /// write from now fails (`0` fails the very next write).  Reports
    /// whether such a handle was found; a real handle is left untouched.
    pub fn script_simulated_failure(&mut self, name: &String, after: u64) -> (r: bool)
        requires
            old(self).wf(),
        ensures
            final(self).wf(),
            final(self).port_count() == old(self).port_count(),
            r <==> old(self).as_map().contains_key(name@) && (old(self).as_map()[name@] matches
            ConnectionHandle::Simulated(_)),
            r ==> final(self).as_map() == old(self).as_map().insert(
                name@,
                ConnectionHandle::Simulated((SimPort { fail_in: Some(after) })),
            ),
            !r ==> final(self).as_map() == old(self).as_map(),
    {
        proof {
            lemma_entries_map_dom(self.entries@);
        }
        match self.find_index(name) {
            None => false,
            Some(i) => {
                let ghost pre = self.entries@;
                proof {
                    lemma_entries_map_index(pre, i as int);
                    lemma_entries_map_remove(pre, i as int);
                    lemma_names_unique_remove(pre, i as int);
                }
                let entry = self.entries.remove(i);
                let entry_name = entry.name;
                match entry.handle {
                    ConnectionHandle::Simulated(_) => {
                        self.entries.push(
                            PortEntry {
                                name: entry_name,
                                handle: ConnectionHandle::Simulated(
                                    SimPort { fail_in: Some(after) },
                                ),
                            },
                        );
                        proof {
                            assert(self.entries@.drop_last() =~= pre.remove(i as int));
                            assert(names_unique(self.entries@));
                            assert(entries_map(pre).remove(name@).insert(
                                name@,
                                self.entries@.last().handle,
                            ) =~= entries_map(pre).insert(name@, self.entries@.last().handle));
                        }
                        true
                    },
                    ConnectionHandle::Real(port) => {
                        self.entries.push(
                            PortEntry { name: entry_name, handle: ConnectionHandle::Real(port) },
                        );
                        proof {
                            assert(self.entries@.drop_last() =~= pre.remove(i as int));
                            assert(names_unique(self.entries@));
                            assert(entries_map(pre).remove(name@).insert(name@, pre[i as int].handle)
                                =~= entries_map(pre).insert(name@, pre[i as int].handle));
                            assert(entries_map(pre).insert(name@, pre[i as int].handle)
                                =~= entries_map(pre));
                        }
                        false
                    },
                }
            },
        }
    }

    /// Removes every entry, dropping every handle; reconnect uses this to
    /// guarantee a single active connection.  Always succeeds, also on an
    /// empty registry, and hands back the evicted identifiers: exactly the
    /// old keys, each once.
    pub fn evict_all(&mut self) -> (r: Vec<String>)
        requires
            old(self).wf(),
        ensures
            final(self).wf(),
            final(self).port_count() == 0,
            final(self).as_map() == Map::<Seq<char>, ConnectionHandle>::empty(),
            r@.len() == old(self).port_count(),
            forall|i: int| 0 <= i < r@.len() ==> old(self).as_map().contains_key(r@[i]@),
            forall|i: int, j: int|
                0 <= i < j < r@.len() ==> (#[trigger] r@[i])@ != (#[trigger] r@[j])@,
            forall|n: Seq<char>|
                old(self).as_map().contains_key(n) ==> exists|i: int|
                    0 <= i < r@.len() && (#[trigger] r@[i])@ == n,
    {
        let ghost pre = self.entries@;
        let mut removed: Vec<String> = Vec::new();
        while self.entries.len() > 0
            invariant
                names_unique(pre),
                self.entries@ =~= pre.subrange(0, self.entries@.len() as int),
                removed@.len() + self.entries@.len() == pre.len(),
                forall|i: int|
                    0 <= i < removed@.len() ==> (#[trigger] removed@[i])@ == pre[pre.len() - 1
                        - i].name@,
            decreases self.entries@.len(),
        {
            let ghost k = self.entries@.len() - 1;
            proof {
                assert(self.entries@[k] == pre[k]);
            }
            match self.entries.pop() {
                Some(e) => {
                    removed.push(e.name);
                },
                None => (),
            }
            proof {
                assert(self.entries@ =~= pre.subrange(0, self.entries@.len() as int));
            }
        }
        proof {
            lemma_entries_map_dom(pre);
            assert forall|i: int| 0 <= i < removed@.len() implies entries_map(pre).contains_key(
                (#[trigger] removed@[i])@,
            ) by {
                lemma_entries_map_index(pre, pre.len() - 1 - i);
            }
            assert forall|n: Seq<char>| entries_map(pre).contains_key(n) implies exists|i: int|
                0 <= i < removed@.len() && (#[trigger] removed@[i])@ == n by {
                let j = choose|j: int| 0 <= j < pre.len() && (#[trigger] pre[j]).name@ == n;
                assert(removed@[pre.len() - 1 - j]@ == n);
            }
            assert forall|i: int, j: int| 0 <= i < j < removed@.len() implies (
            #[trigger] removed@[i])@ != (#[trigger] removed@[j])@ by {
                assert(removed@[i]@ == pre[pre.len() - 1 - i].name@);
                assert(removed@[j]@ == pre[pre.len() - 1 - j].name@);
            }
        }
        removed
    }
}

} // verus!
