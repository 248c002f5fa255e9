use vstd::prelude::*;

verus! {

/// A system call that the caller performs for the locator, or its answer.
#[derive(Debug, PartialEq, Eq)]
pub enum SnapshotAction {
    /// Take a snapshot of the running processes.
    TakeSnapshot,
    /// Read the snapshot's first entry.
    FirstEntry,
    /// Read the snapshot's next entry.
    NextEntry,
    /// Release the snapshot.
    CloseSnapshot,
    /// The search is over: the identifier found, if any.
    Finish(Option<u32>),
}

/// How the caller's last call on the snapshot went.
#[derive(Debug, PartialEq, Eq)]
pub enum SnapshotReply {
    /// The call failed; for an entry, the snapshot is exhausted.
    Failed,
    /// The snapshot was taken, or released.
    Done,
    /// An entry: the executable's name, as stored (possibly NUL-padded), and
    /// the process identifier.
    Entry { name: Vec<u8>, pid: u32 },
}

#[derive(Debug, Clone, Copy, PartialEq, Eq, Structural)]
pub enum LocatorPhase {
    Snapshotting,
    Reading,
    Closing,
    Done,
}

/// `s` up to its first NUL byte, or whole if it has none.
pub open spec fn spec_until_nul(s: Seq<u8>, r: Seq<u8>) -> bool {
    &&& r.len() <= s.len()
    &&& r == s.subrange(0, r.len() as int)
    &&& forall|i: int| 0 <= i < r.len() ==> r[i] != 0
    &&& (r.len() == s.len() || s[r.len() as int] == 0)
}

/// The name stored in `s`: the bytes before its first NUL.
pub fn until_nul(s: &Vec<u8>) -> (r: Vec<u8>)
    ensures
        spec_until_nul(s@, r@),
{
    let mut r: Vec<u8> = Vec::new();
    let mut i: usize = 0;
    while i < s.len() && s[i] != 0
        invariant
            i <= s@.len(),
            r@ == s@.subrange(0, i as int),
            forall|k: int| 0 <= k < i ==> s@[k] != 0,
        decreases s@.len() - i,
    {
        r.push(s[i]);
        i = i + 1;
        assert(r@ =~= s@.subrange(0, i as int));
    }
    r
}

/// An entry whose stored name `entry` is exactly `wanted`.
pub open spec fn spec_name_matches(entry: Seq<u8>, wanted: Seq<u8>) -> bool {
    spec_until_nul(entry, wanted)
}

/// Tells whether the stored name `entry` is exactly `wanted`.
pub fn name_matches(entry: &Vec<u8>, wanted: &Vec<u8>) -> (r: bool)
    ensures
        r == spec_name_matches(entry@, wanted@),
{
    let name = until_nul(entry);
    if name.len() != wanted.len() {
        proof {
            if spec_until_nul(entry@, wanted@) {
                lemma_until_nul_unique(entry@, name@, wanted@);
            }
        }
        return false;
    }
    let mut i: usize = 0;
    while i < name.len()
        invariant
            i <= name@.len(),
            name@.len() == wanted@.len(),
            spec_until_nul(entry@, name@),
            forall|k: int| 0 <= k < i ==> name@[k] == wanted@[k],
        decreases name@.len() - i,
    {
        if name[i] != wanted[i] {
            proof {
                if spec_until_nul(entry@, wanted@) {
                    lemma_until_nul_unique(entry@, name@, wanted@);
                }
            }
            return false;
        }
        i = i + 1;
    }
    assert(name@ =~= wanted@);
    true
}

/// The name before the first NUL is determined by the stored bytes.
pub proof fn lemma_until_nul_unique(s: Seq<u8>, a: Seq<u8>, b: Seq<u8>)
    requires
        spec_until_nul(s, a),
        spec_until_nul(s, b),
    ensures
        a == b,
{
    if a.len() < b.len() {
        assert(b[a.len() as int] == s[a.len() as int]);
    } else if b.len() < a.len() {
        assert(a[b.len() as int] == s[b.len() as int]);
    }
    assert(a =~= b);
}

/// A search of the process snapshot for a process by its executable's name.
pub struct Locator {
    pub wanted: Vec<u8>,
    pub phase: LocatorPhase,
    /// The snapshot was taken, and must be released.
    pub opened: bool,
    pub found: Option<u32>,
    pub history: Ghost<Seq<SnapshotAction>>,
}

impl Locator {
    pub open spec fn wf(&self) -> bool {
        &&& (self.phase == LocatorPhase::Snapshotting ==> !self.opened && self.found is None)
        &&& (self.phase == LocatorPhase::Reading ==> self.opened && self.found is None)
        &&& (self.phase == LocatorPhase::Closing ==> self.opened && self.history@.contains(
            SnapshotAction::CloseSnapshot,
        ))
        &&& (self.phase == LocatorPhase::Done && self.opened ==> self.history@.contains(
            SnapshotAction::CloseSnapshot,
        ))
    }

    /// Starts a search for the process whose executable is named `wanted`;
    /// the first action takes the snapshot.
    pub fn new(wanted: Vec<u8>) -> (r: (Locator, SnapshotAction))
        ensures
            r.0.wf(),
            r.0.wanted == wanted,
            r.0.phase == LocatorPhase::Snapshotting,
            r.1 == SnapshotAction::TakeSnapshot,
            r.0.history@ == seq![r.1],
    {
        let a = SnapshotAction::TakeSnapshot;
        (
            Locator {
                wanted,
                phase: LocatorPhase::Snapshotting,
                opened: false,
                found: None,
                history: Ghost(Seq::empty().push(a)),
            },
            a,
        )
    }

    /// Takes the reply to the last action and returns the next one. Entries
    /// are read in the snapshot's order until one matches or none is left;
    /// a snapshot that was taken is released before the search finishes.
    pub fn step(&mut self, reply: SnapshotReply) -> (r: SnapshotAction)
        requires
            old(self).wf(),
        ensures
            final(self).wf(),
            final(self).wanted == old(self).wanted,
            final(self).history@ == old(self).history@.push(r),
            (final(self).phase == LocatorPhase::Done) <==> (r is Finish),
            r is Finish ==> r->Finish_0 == final(self).found,
            match old(self).phase {
                LocatorPhase::Snapshotting => if reply is Failed {
                    &&& final(self).phase == LocatorPhase::Done
                    &&& !final(self).opened
                    &&& r == SnapshotAction::Finish(None)
                } else {
                    &&& final(self).phase == LocatorPhase::Reading
                    &&& r == SnapshotAction::FirstEntry
                },
                LocatorPhase::Reading => match reply {
                    SnapshotReply::Entry { name, pid } => if spec_name_matches(
                        name@,
                        old(self).wanted@,
                    ) {
                        &&& final(self).phase == LocatorPhase::Closing
                        &&& final(self).found == Some(pid)
                        &&& r == SnapshotAction::CloseSnapshot
                    } else {
                        &&& final(self).phase == LocatorPhase::Reading
                        &&& final(self).found is None
                        &&& r == SnapshotAction::NextEntry
                    },
                    _ => {
                        &&& final(self).phase == LocatorPhase::Closing
                        &&& final(self).found is None
                        &&& r == SnapshotAction::CloseSnapshot
                    },
                },
                LocatorPhase::Closing => {
                    &&& final(self).phase == LocatorPhase::Done
                    &&& final(self).found == old(self).found
                    &&& r == SnapshotAction::Finish(old(self).found)
                },
                LocatorPhase::Done => {
                    &&& final(self).phase == LocatorPhase::Done
                    &&& final(self).found == old(self).found
                    &&& r == SnapshotAction::Finish(old(self).found)
                },
            },
    {
        let ghost oh = self.history@;
        let r = match self.phase {
            LocatorPhase::Snapshotting => {
                match reply {
                    SnapshotReply::Failed => {
                        self.phase = LocatorPhase::Done;
                        SnapshotAction::Finish(None)
                    },
                    _ => {
                        self.opened = true;
                        self.phase = LocatorPhase::Reading;
                        SnapshotAction::FirstEntry
                    },
                }
            },
            LocatorPhase::Reading => {
                match reply {
                    SnapshotReply::Entry { name, pid } => {
                        if name_matches(&name, &self.wanted) {
                            self.found = Some(pid);
                            self.phase = LocatorPhase::Closing;
                            SnapshotAction::CloseSnapshot
                        } else {
                            SnapshotAction::NextEntry
                        }
                    },
                    _ => {
                        self.phase = LocatorPhase::Closing;
                        SnapshotAction::CloseSnapshot
                    },
                }
            },
            LocatorPhase::Closing => {
                self.phase = LocatorPhase::Done;
                SnapshotAction::Finish(self.found)
            },
            LocatorPhase::Done => SnapshotAction::Finish(self.found),
        };
        self.history = Ghost(self.history@.push(r));
        proof {
            let h = self.history@;
            assert(h[oh.len() as int] == r);
            if oh.contains(SnapshotAction::CloseSnapshot) {
                let i = choose|i: int| 0 <= i < oh.len() && oh[i] == SnapshotAction::CloseSnapshot;
                assert(h[i] == oh[i]);
            }
        }
        r
    }
}

} // verus!
