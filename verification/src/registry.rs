//! The session registry: the live collection of sessions, reconciled
//! against the names that port discovery reports.
//!
//! Reconciliation keeps exactly the sessions whose name was discovered —
//! untouched, not recreated — and appends a fresh closed session for every
//! discovered name that had none.

use vstd::prelude::*;
use crate::port::PortState;
use crate::serial::Serial;

verus! {

/// True when some session in the sequence carries the given port name.
pub open spec fn has_name(sessions: Seq<Serial>, name: Seq<char>) -> bool {
    exists|k: int| 0 <= k < sessions.len() && sessions[k].set.port_name@ == name
}

/// The subsequence of sessions whose name occurs in the given list, in their
/// original order.
pub open spec fn retain_sessions(sessions: Seq<Serial>, names: Seq<Seq<char>>) -> Seq<Serial>
    decreases sessions.len(),
{
    if sessions.len() == 0 {
        Seq::empty()
    } else if names.contains(sessions.last().set.port_name@) {
        retain_sessions(sessions.drop_last(), names).push(sessions.last())
    } else {
        retain_sessions(sessions.drop_last(), names)
    }
}

/// True for a session as reconciliation creates it: closed, with no task, no
/// queued work, no history, and default settings apart from the port name.
pub open spec fn fresh_session(s: Serial) -> bool {
    &&& s.data_spec().state_spec() == PortState::Close
    &&& s.handle_spec() is None
    &&& s.data_spec().outbound() == Seq::<Seq<char>>::empty()
    &&& s.data_spec().cache().history() == Seq::<Seq<char>>::empty()
    &&& s.data_spec().cache().current() == Seq::<char>::empty()
    &&& s.data_spec().source_files() == Seq::<Seq<char>>::empty()
    &&& s.set.default_except_name()
}

/// Every retained session's name occurs in the discovered list.
proof fn lemma_retain_names(sessions: Seq<Serial>, names: Seq<Seq<char>>)
    ensures
        forall|k: int|
            0 <= k < retain_sessions(sessions, names).len() ==> names.contains(
                #[trigger] retain_sessions(sessions, names)[k].set.port_name@,
            ),
    decreases sessions.len(),
{
    if sessions.len() == 0 {
    } else {
        lemma_retain_names(sessions.drop_last(), names);
        let t = retain_sessions(sessions.drop_last(), names);
        assert forall|k: int| 0 <= k < retain_sessions(sessions, names).len() implies names
            .contains(retain_sessions(sessions, names)[k].set.port_name@) by {
            if names.contains(sessions.last().set.port_name@) {
                assert(retain_sessions(sessions, names) == t.push(sessions.last()));
                if k < t.len() {
                    assert(retain_sessions(sessions, names)[k] == t[k]);
                }
            } else {
                assert(retain_sessions(sessions, names) == t);
            }
        }
    }
}

/// Retention keeps a registry whole when every session's name was
/// discovered.
pub proof fn lemma_retain_all(sessions: Seq<Serial>, names: Seq<Seq<char>>)
    requires
        forall|k: int|
            0 <= k < sessions.len() ==> names.contains(#[trigger] sessions[k].set.port_name@),
    ensures
        retain_sessions(sessions, names) == sessions,
    decreases sessions.len(),
{
    if sessions.len() == 0 {
        assert(retain_sessions(sessions, names) =~= sessions);
    } else {
        assert(forall|k: int|
            0 <= k < sessions.drop_last().len() ==> names.contains(
                #[trigger] sessions.drop_last()[k].set.port_name@,
            ));
        lemma_retain_all(sessions.drop_last(), names);
        assert(names.contains(sessions[sessions.len() - 1].set.port_name@));
        assert(retain_sessions(sessions, names) =~= sessions);
    }
}

/// Reconciliation is idempotent: a registry that already holds exactly the
/// discovered names — every session's name discovered, every discovered name
/// present — is left unchanged by a further pass that satisfies the
/// reconciliation contract of this module.
pub proof fn lemma_reconcile_idempotent(
    before: Seq<Serial>,
    after: Seq<Serial>,
    names: Seq<Seq<char>>,
)
    requires
        after.len() >= retain_sessions(before, names).len(),
        after.subrange(0, retain_sessions(before, names).len() as int) == retain_sessions(
            before,
            names,
        ),
        forall|j: int|
            retain_sessions(before, names).len() <= j < after.len() ==> names.contains(
                #[trigger] after[j].set.port_name@,
            ),
        forall|j: int|
            retain_sessions(before, names).len() <= j < after.len() ==> !has_name(
                retain_sessions(before, names),
                #[trigger] after[j].set.port_name@,
            ),
        forall|k: int|
            0 <= k < before.len() ==> names.contains(#[trigger] before[k].set.port_name@),
        forall|n: Seq<char>| #[trigger] names.contains(n) ==> has_name(before, n),
    ensures
        after == before,
{
    lemma_retain_all(before, names);
    if after.len() > before.len() {
        let j = before.len() as int;
        assert(names.contains(after[j].set.port_name@));
        assert(has_name(before, after[j].set.port_name@));
        assert(false);
    }
    assert(after =~= before);
}

/// Reconciliation never discards a session whose name was discovered: the
/// very session object, unchanged, stays in the retained subsequence.
pub proof fn lemma_reconcile_retains(sessions: Seq<Serial>, names: Seq<Seq<char>>, i: int)
    requires
        0 <= i < sessions.len(),
        names.contains(sessions[i].set.port_name@),
    ensures
        exists|k: int|
            0 <= k < retain_sessions(sessions, names).len() && #[trigger] retain_sessions(
                sessions,
                names,
            )[k] == sessions[i],
    decreases sessions.len(),
{
    let t = retain_sessions(sessions.drop_last(), names);
    if i == sessions.len() - 1 {
        assert(names.contains(sessions.last().set.port_name@));
        assert(retain_sessions(sessions, names)[t.len() as int] == sessions[i]);
    } else {
        assert(sessions.drop_last()[i] == sessions[i]);
        lemma_reconcile_retains(sessions.drop_last(), names, i);
        let k0 = choose|k: int|
            0 <= k < t.len() && #[trigger] t[k] == sessions.drop_last()[i];
        if names.contains(sessions.last().set.port_name@) {
            assert(retain_sessions(sessions, names)[k0] == t[k0]);
        } else {
            assert(retain_sessions(sessions, names)[k0] == t[k0]);
        }
    }
}

/// One discovered device as the driver reports it: its name, and whether it
/// sits on a USB transport.
pub struct DiscoveredPort {
    /// The OS-visible port name.
    pub name: String,
    /// Whether the port's transport is USB.
    pub is_usb: bool,
}

/// The names of the devices on a USB transport, in discovery order.
pub open spec fn usb_names(ports: Seq<DiscoveredPort>) -> Seq<Seq<char>>
    decreases ports.len(),
{
    if ports.len() == 0 {
        Seq::empty()
    } else if ports.last().is_usb {
        usb_names(ports.drop_last()).push(ports.last().name@)
    } else {
        usb_names(ports.drop_last())
    }
}

/// Keeps the name of every discovered device on a USB transport, in order;
/// the result is what the registry is reconciled against.
pub fn usb_port_names(ports: &Vec<DiscoveredPort>) -> (r: Vec<String>)
    ensures
        r.deep_view() == usb_names(ports@),
{
    let n: usize = ports.len();
    let mut out: Vec<String> = Vec::new();
    let mut i: usize = 0;
    proof {
        assert(ports@.subrange(0, 0) =~= Seq::<DiscoveredPort>::empty());
        assert(out.deep_view() =~= usb_names(ports@.subrange(0, 0)));
    }
    while i < n
        invariant
            i <= n,
            n == ports@.len(),
            out.deep_view() == usb_names(ports@.subrange(0, i as int)),
        decreases n - i,
    {
        proof {
            assert(ports@.subrange(0, i + 1).drop_last() =~= ports@.subrange(0, i as int));
            assert(ports@.subrange(0, i + 1).last() == ports@[i as int]);
        }
        if ports[i].is_usb {
            out.push(ports[i].name.clone());
        }
        proof {
            assert(out.deep_view() =~= usb_names(ports@.subrange(0, i + 1)));
        }
        i = i + 1;
    }
    proof {
        assert(ports@.subrange(0, n as int) =~= ports@);
    }
    out
}

/// The live collection of sessions, one per discovered port name.
pub struct Serials {
    /// The sessions, in registry order.
    pub serial: Vec<Serial>,
}

impl Serials {
    /// The sessions in registry order.
    pub open spec fn sessions(&self) -> Seq<Serial> {
        self.serial@
    }

    /// Creates a new empty registry.
    pub fn new() -> (r: Self)
        ensures
            r.sessions() == Seq::<Serial>::empty(),
    {
        Serials { serial: Vec::new() }
    }

    /// Adds a session to the registry.
    pub fn add(&mut self, serial: Serial)
        ensures
            final(self).sessions() == old(self).sessions().push(serial),
    {
        self.serial.push(serial);
    }

    /// Removes the session at the given position.
    pub fn remove(&mut self, index: usize)
        requires
            index < old(self).sessions().len(),
        ensures
            final(self).sessions() == old(self).sessions().remove(index as int),
    {
        self.serial.remove(index);
    }

    /// Gets the session at the given position.
    pub fn get(&self, index: usize) -> (r: &Serial)
        requires
            index < self.sessions().len(),
        ensures
            *r == self.sessions()[index as int],
    {
        &self.serial[index]
    }

    /// The number of sessions.
    pub fn len(&self) -> (r: usize)
        ensures
            r == self.sessions().len(),
    {
        self.serial.len()
    }

    /// Returns true if the registry holds no session.
    pub fn is_empty(&self) -> (r: bool)
        ensures
            r == (self.sessions().len() == 0),
    {
        self.serial.is_empty()
    }

    /// Whether the registry holds a session with the given name.
    fn contains_session(&self, name: &String) -> (r: bool)
        ensures
            r == has_name(self.sessions(), name@),
    {
        let n: usize = self.serial.len();
        let mut i: usize = 0;
        while i < n
            invariant
                i <= n,
                n == self.sessions().len(),
                forall|k: int| 0 <= k < i ==> self.sessions()[k].set.port_name@ != name@,
            decreases n - i,
        {
            if self.serial[i].set.port_name.eq(name) {
                return true;
            }
            i = i + 1;
        }
        false
    }

    /// Reconciles the registry against one discovery report: sessions whose
    /// name vanished are retired, the rest are kept untouched and in order,
    /// and every newly discovered name gets a fresh closed session appended.
    /// Afterwards the registry holds exactly the discovered names.
    pub fn update_serial_port_names(&mut self, port_names: &Vec<String>)
        ensures
            ({
                let names = port_names.deep_view();
                let kept = retain_sessions(old(self).sessions(), names);
                &&& final(self).sessions().len() >= kept.len()
                &&& final(self).sessions().subrange(0, kept.len() as int) == kept
                &&& forall|j: int|
                    kept.len() <= j < final(self).sessions().len() ==> fresh_session(
                        #[trigger] final(self).sessions()[j],
                    ) && names.contains(final(self).sessions()[j].set.port_name@)
                &&& forall|j: int|
                    kept.len() <= j < final(self).sessions().len() ==> !has_name(
                        kept,
                        #[trigger] final(self).sessions()[j].set.port_name@,
                    )
                &&& forall|j1: int, j2: int|
                    #![trigger final(self).sessions()[j1], final(self).sessions()[j2]]
                    kept.len() <= j1 < j2 < final(self).sessions().len()
                        ==> final(self).sessions()[j1].set.port_name@
                        != final(self).sessions()[j2].set.port_name@
                &&& forall|n: Seq<char>|
                    #[trigger] has_name(final(self).sessions(), n) <==> names.contains(n)
            }),
    {
        let ghost names = port_names.deep_view();
        let ghost orig = self.sessions();
        // Retire sessions whose name was not discovered, keeping the rest in
        // order: the survivors are moved over one by one from the back.
        let mut pending: Vec<Serial> = Vec::new();
        core::mem::swap(&mut pending, &mut self.serial);
        proof {
            assert(retain_sessions(orig, names) =~= retain_sessions(pending@, names) + self
                .sessions());
        }
        while pending.len() > 0
            invariant
                retain_sessions(orig, names) == retain_sessions(pending@, names)
                    + self.sessions(),
                names == port_names.deep_view(),
            decreases pending.len(),
        {
            let ghost before = pending@;
            let s: Serial = match pending.pop() {
                Some(s) => s,
                None => {
                    proof {
                        assert(false);
                    }
                    Serial::new()
                },
            };
            proof {
                assert(before.drop_last() =~= pending@);
                assert(before.last() == s);
            }
            if contains_name(port_names, &s.set.port_name) {
                self.serial.insert(0, s);
                proof {
                    assert(retain_sessions(before, names) =~= retain_sessions(pending@, names)
                        + self.sessions().subrange(0, 1));
                    assert(retain_sessions(orig, names) =~= retain_sessions(pending@, names)
                        + self.sessions());
                }
            } else {
                proof {
                    assert(retain_sessions(orig, names) =~= retain_sessions(pending@, names)
                        + self.sessions());
                }
            }
        }
        proof {
            assert(pending@ =~= Seq::<Serial>::empty());
            assert(retain_sessions(pending@, names) =~= Seq::<Serial>::empty());
            assert(self.sessions() =~= retain_sessions(orig, names));
            lemma_retain_names(orig, names);
        }
        let ghost kept = self.sessions();
        // Append a fresh closed session for every newly discovered name.
        let n: usize = port_names.len();
        let mut i: usize = 0;
        while i < n
            invariant
                i <= n,
                n == port_names@.len(),
                names == port_names.deep_view(),
                kept == retain_sessions(orig, names),
                self.sessions().len() >= kept.len(),
                self.sessions().subrange(0, kept.len() as int) == kept,
                forall|j: int|
                    kept.len() <= j < self.sessions().len() ==> fresh_session(
                        #[trigger] self.sessions()[j],
                    ) && names.contains(self.sessions()[j].set.port_name@),
                forall|j: int|
                    kept.len() <= j < self.sessions().len() ==> !has_name(
                        kept,
                        #[trigger] self.sessions()[j].set.port_name@,
                    ),
                forall|j1: int, j2: int|
                    #![trigger self.sessions()[j1], self.sessions()[j2]]
                    kept.len() <= j1 < j2 < self.sessions().len() ==> self.sessions()[j1]
                        .set.port_name@ != self.sessions()[j2].set.port_name@,
                forall|n2: Seq<char>|
                    #[trigger] has_name(self.sessions(), n2) ==> names.contains(n2),
                forall|k: int| 0 <= k < i ==> has_name(self.sessions(), #[trigger] names[k]),
            decreases n - i,
        {
            let present: bool = self.contains_session(&port_names[i]);
            if !present {
                let mut fresh: Serial = Serial::new();
                fresh.set.port_name = port_names[i].clone();
                let ghost prev = self.sessions();
                self.serial.push(fresh);
                proof {
                    assert(self.sessions().subrange(0, kept.len() as int) =~= prev.subrange(
                        0,
                        kept.len() as int,
                    ));
                    assert(names[i as int] == port_names@[i as int]@);
                    assert(self.sessions()[prev.len() as int].set.port_name@ == names[i as int]);
                    // The appended name had no session: not among the kept
                    // prefix, nor among the sessions appended so far.
                    if has_name(kept, names[i as int]) {
                        let w = choose|w: int|
                            0 <= w < kept.len() && kept[w].set.port_name@ == names[i as int];
                        assert(prev.subrange(0, kept.len() as int)[w] == prev[w]);
                        assert(has_name(prev, names[i as int]));
                        assert(false);
                    }
                    assert forall|j1: int| kept.len() <= j1 < prev.len() implies prev[j1]
                        .set.port_name@ != names[i as int] by {
                        if prev[j1].set.port_name@ == names[i as int] {
                            assert(has_name(prev, names[i as int]));
                        }
                    }
                    assert forall|n2: Seq<char>| #[trigger]
                        has_name(self.sessions(), n2) implies names.contains(n2) by {
                        let k = choose|k: int|
                            0 <= k < self.sessions().len() && self.sessions()[k].set.port_name@
                                == n2;
                        if k < prev.len() {
                            assert(has_name(prev, n2));
                        } else {
                            assert(names.contains(names[i as int]));
                        }
                    }
                    assert forall|k: int|
                        0 <= k < i + 1 implies has_name(self.sessions(), #[trigger] names[k]) by {
                        if k < i {
                            let w = choose|w: int|
                                0 <= w < prev.len() && prev[w].set.port_name@ == names[k];
                            assert(self.sessions()[w].set.port_name@ == names[k]);
                        } else {
                            assert(self.sessions()[prev.len() as int].set.port_name@
                                == names[k]);
                        }
                    }
                }
            } else {
                proof {
                    assert(names[i as int] == port_names@[i as int]@);
                }
            }
            i = i + 1;
        }
    }
}

/// Whether the list of discovered names holds the given name.
fn contains_name(names: &Vec<String>, name: &String) -> (r: bool)
    ensures
        r == names.deep_view().contains(name@),
{
    let n: usize = names.len();
    let mut i: usize = 0;
    while i < n
        invariant
            i <= n,
            n == names@.len(),
            forall|k: int| 0 <= k < i ==> names.deep_view()[k] != name@,
        decreases n - i,
    {
        if names[i].eq(name) {
            proof {
                assert(names.deep_view()[i as int] == name@);
            }
            return true;
        }
        i = i + 1;
    }
    proof {
        assert forall|k: int| 0 <= k < names.deep_view().len() implies names.deep_view()[k]
            != name@ by {}
    }
    false
}

impl Default for Serials {
    /// An empty registry.
    fn default() -> (r: Self)
        ensures
            r.sessions() == Seq::<Serial>::empty(),
    {
        Serials::new()
    }
}

} // verus!
