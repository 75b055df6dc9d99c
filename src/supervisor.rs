//! The registry of managed server processes, keyed by a caller-chosen name.
//!
//! The caller owns the processes and their pipes; the registry decides what
//! each request means (launch, input, output, exit) and keeps every process's
//! output transcript, so that a reader always sees the full history to date.
use vstd::prelude::*;

use crate::error::LibError;

verus! {

/// What the registry knows of one managed process.
pub struct ProcessView {
    /// Every output line so far, each followed by a newline.
    pub transcript: Seq<char>,
    /// `true` from launch until its output closes.
    pub running: bool,
}

/// One registered process.
pub struct ProcessEntry {
    pub name: String,
    pub transcript: String,
    pub running: bool,
}

impl ProcessEntry {
    pub open spec fn view_of(self) -> ProcessView {
        ProcessView { transcript: self.transcript@, running: self.running }
    }
}

/// The registry: a name that was never launched has no entry.
pub struct Supervisor {
    entries: Vec<ProcessEntry>,
    model: Ghost<Map<Seq<char>, ProcessView>>,
}

/// The registry after `launch(name)`: a fresh, running entry with an empty
/// transcript, unless a process of that name is still running.
pub open spec fn after_launch(m: Map<Seq<char>, ProcessView>, name: Seq<char>) -> Map<
    Seq<char>,
    ProcessView,
> {
    if m.contains_key(name) && m[name].running {
        m
    } else {
        m.insert(name, ProcessView { transcript: Seq::empty(), running: true })
    }
}

/// The registry after process `name` printed `line`.
pub open spec fn after_output(m: Map<Seq<char>, ProcessView>, name: Seq<char>, line: Seq<char>) -> Map<
    Seq<char>,
    ProcessView,
> {
    if m.contains_key(name) {
        m.insert(
            name,
            ProcessView { transcript: m[name].transcript + line + "\n"@, running: m[name].running },
        )
    } else {
        m
    }
}

/// The registry after the output of process `name` closed.
pub open spec fn after_exit(m: Map<Seq<char>, ProcessView>, name: Seq<char>) -> Map<
    Seq<char>,
    ProcessView,
> {
    if m.contains_key(name) {
        m.insert(name, ProcessView { transcript: m[name].transcript, running: false })
    } else {
        m
    }
}

/// The registry after process `name` printed each of `lines` in turn.
pub open spec fn after_outputs(
    m: Map<Seq<char>, ProcessView>,
    name: Seq<char>,
    lines: Seq<Seq<char>>,
) -> Map<Seq<char>, ProcessView>
    decreases lines.len(),
{
    if lines.len() == 0 {
        m
    } else {
        after_output(after_outputs(m, name, lines.drop_last()), name, lines.last())
    }
}

/// The transcript of `lines`: each line followed by a newline.
pub open spec fn transcript_of(lines: Seq<Seq<char>>) -> Seq<char>
    decreases lines.len(),
{
    if lines.len() == 0 {
        Seq::empty()
    } else {
        transcript_of(lines.drop_last()) + lines.last() + "\n"@
    }
}

/// What `read(name)` returns in registry `m`.
pub open spec fn read_spec(m: Map<Seq<char>, ProcessView>, name: Seq<char>) -> Option<Seq<char>> {
    if m.contains_key(name) {
        Some(m[name].transcript)
    } else {
        None
    }
}

impl Supervisor {
    pub closed spec fn view(&self) -> Map<Seq<char>, ProcessView> {
        self.model@
    }

    pub closed spec fn wf(&self) -> bool {
        &&& forall|i: int, j: int|
            0 <= i < j < self.entries@.len() ==> self.entries@[i].name@ != self.entries@[j].name@
        &&& forall|i: int|
            0 <= i < self.entries@.len() ==> #[trigger] self.model@.contains_key(
                self.entries@[i].name@,
            ) && self.model@[self.entries@[i].name@] == self.entries@[i].view_of()
        &&& forall|k: Seq<char>|
            #[trigger] self.model@.contains_key(k) ==> exists|i: int|
                0 <= i < self.entries@.len() && self.entries@[i].name@ == k
    }

    /// An empty registry.
    pub fn new() -> (r: Supervisor)
        ensures
            r.wf(),
            r.view() == Map::<Seq<char>, ProcessView>::empty(),
    {
        Supervisor { entries: Vec::new(), model: Ghost(Map::empty()) }
    }

    /// The position of `name` among the entries.
    fn find(&self, name: &str) -> (r: Option<usize>)
        requires
            self.wf(),
        ensures
            r is Some <==> self.view().contains_key(name@),
            r is Some ==> r->0 < self.entries@.len() && self.entries@[r->0 as int].name@ == name@,
    {
        let wanted = name.to_owned();
        let mut i: usize = 0;
        while i < self.entries.len()
            invariant
                self.wf(),
                wanted@ == name@,
                i <= self.entries@.len(),
                forall|j: int| 0 <= j < i ==> self.entries@[j].name@ != name@,
            decreases self.entries@.len() - i,
        {
            if self.entries[i].name == wanted {
                assert(self.model@.contains_key(self.entries@[i as int].name@));
                return Some(i);
            }
            i = i + 1;
        }
        proof {
            if self.model@.contains_key(name@) {
                let k = choose|k: int|
                    0 <= k < self.entries@.len() && self.entries@[k].name@ == name@;
                assert(self.entries@[k].name@ == name@);
            }
        }
        None
    }

    proof fn lemma_replace(&self, other: &Supervisor, i: int, e: ProcessEntry)
        requires
            self.wf(),
            0 <= i < self.entries@.len(),
            e.name@ == self.entries@[i].name@,
            other.entries@ == self.entries@.update(i, e),
            other.model@ == self.model@.insert(e.name@, e.view_of()),
        ensures
            other.wf(),
    {
        assert forall|k: Seq<char>| #[trigger] other.model@.contains_key(k) implies exists|j: int|
            0 <= j < other.entries@.len() && other.entries@[j].name@ == k by {
            if k == e.name@ {
                assert(other.entries@[i].name@ == k);
            } else {
                assert(self.model@.contains_key(k));
                let j = choose|j: int| 0 <= j < self.entries@.len() && self.entries@[j].name@ == k;
                assert(other.entries@[j].name@ == k);
            }
        }
        assert forall|j: int| 0 <= j < other.entries@.len() implies #[trigger] other.model@.contains_key(
            other.entries@[j].name@,
        ) && other.model@[other.entries@[j].name@] == other.entries@[j].view_of() by {
            if j != i {
                assert(self.model@.contains_key(self.entries@[j].name@));
                assert(self.entries@[j].name@ != self.entries@[i].name@);
            }
        }
    }

    /// Registers a launch of process `name`: a fresh running entry with an
    /// empty transcript. A process of that name that is still running is
    /// `LibError::ProcessRunning`, and nothing changes.
    pub fn launch(&mut self, name: &str) -> (r: Result<(), LibError>)
        requires
            old(self).wf(),
        ensures
            final(self).wf(),
            final(self).view() == after_launch(old(self).view(), name@),
            r is Err <==> (old(self).view().contains_key(name@) && old(self).view()[name@].running),
            r is Err ==> r->Err_0 is ProcessRunning && r->Err_0->ProcessRunning_0@ == name@,
    {
        let entry = ProcessEntry { name: name.to_owned(), transcript: String::new(), running: true };
        match self.find(name) {
            Some(i) => {
                if self.entries[i].running {
                    return Err(LibError::ProcessRunning(name.to_owned()));
                }
                let ghost before = *self;
                self.entries[i] = entry;
                self.model = Ghost(self.model@.insert(name@, entry.view_of()));
                proof {
                    before.lemma_replace(self, i as int, entry);
                }
            },
            None => {
                let ghost before = *self;
                self.entries.push(entry);
                self.model = Ghost(self.model@.insert(name@, entry.view_of()));
                assert(self.entries@[before.entries@.len() as int] == entry);
                assert forall|k: Seq<char>| #[trigger] self.model@.contains_key(k) implies exists|j: int|
                    0 <= j < self.entries@.len() && self.entries@[j].name@ == k by {
                    if k == name@ {
                        assert(self.entries@[before.entries@.len() as int].name@ == k);
                    } else {
                        assert(before.model@.contains_key(k));
                        let j = choose|j: int|
                            0 <= j < before.entries@.len() && before.entries@[j].name@ == k;
                        assert(self.entries@[j].name@ == k);
                    }
                }
                assert forall|j: int| 0 <= j < self.entries@.len() implies #[trigger] self.model@.contains_key(
                    self.entries@[j].name@,
                ) && self.model@[self.entries@[j].name@] == self.entries@[j].view_of() by {
                    if j < before.entries@.len() {
                        assert(before.model@.contains_key(before.entries@[j].name@));
                    }
                }
            },
        }
        assert(self.model@ =~= after_launch(old(self).view(), name@));
        Ok(())
    }

    /// Appends an output line of process `name` to its transcript, followed by
    /// a newline. A name that was never launched is `LibError::UnknownProcess`.
    pub fn record_output(&mut self, name: &str, line: &str) -> (r: Result<(), LibError>)
        requires
            old(self).wf(),
        ensures
            final(self).wf(),
            final(self).view() == after_output(old(self).view(), name@, line@),
            r is Err <==> !old(self).view().contains_key(name@),
            r is Err ==> r->Err_0 is UnknownProcess && r->Err_0->UnknownProcess_0@ == name@,
    {
        match self.find(name) {
            Some(i) => {
                let ghost before = *self;
                let mut transcript = self.entries[i].transcript.clone();
                transcript.append(line);
                transcript.append("\n");
                let entry = ProcessEntry {
                    name: self.entries[i].name.clone(),
                    transcript,
                    running: self.entries[i].running,
                };
                self.entries[i] = entry;
                self.model = Ghost(self.model@.insert(name@, entry.view_of()));
                proof {
                    before.lemma_replace(self, i as int, entry);
                }
                assert(self.model@ =~= after_output(old(self).view(), name@, line@));
                Ok(())
            },
            None => Err(LibError::UnknownProcess(name.to_owned())),
        }
    }

    /// Records that the output of process `name` closed: it has exited. A name
    /// that was never launched is `LibError::UnknownProcess`.
    pub fn mark_exited(&mut self, name: &str) -> (r: Result<(), LibError>)
        requires
            old(self).wf(),
        ensures
            final(self).wf(),
            final(self).view() == after_exit(old(self).view(), name@),
            r is Err <==> !old(self).view().contains_key(name@),
            r is Err ==> r->Err_0 is UnknownProcess && r->Err_0->UnknownProcess_0@ == name@,
    {
        match self.find(name) {
            Some(i) => {
                let ghost before = *self;
                let entry = ProcessEntry {
                    name: self.entries[i].name.clone(),
                    transcript: self.entries[i].transcript.clone(),
                    running: false,
                };
                self.entries[i] = entry;
                self.model = Ghost(self.model@.insert(name@, entry.view_of()));
                proof {
                    before.lemma_replace(self, i as int, entry);
                }
                assert(self.model@ =~= after_exit(old(self).view(), name@));
                Ok(())
            },
            None => Err(LibError::UnknownProcess(name.to_owned())),
        }
    }

    /// The full transcript of process `name`, or `None` if it was never
    /// launched.
    pub fn read(&self, name: &str) -> (r: Option<String>)
        requires
            self.wf(),
        ensures
            match read_spec(self.view(), name@) {
                Some(t) => r is Some && r->0@ == t,
                None => r is None,
            },
    {
        match self.find(name) {
            Some(i) => {
                proof {
                    assert(self.model@.contains_key(self.entries@[i as int].name@));
                }
                Some(self.entries[i].transcript.clone())
            },
            None => None,
        }
    }

    /// Whether a process of this name is running.
    pub fn is_running(&self, name: &str) -> (r: bool)
        requires
            self.wf(),
        ensures
            r == (self.view().contains_key(name@) && self.view()[name@].running),
    {
        match self.find(name) {
            Some(i) => {
                proof {
                    assert(self.model@.contains_key(self.entries@[i as int].name@));
                }
                self.entries[i].running
            },
            None => false,
        }
    }

    /// What to write to the input of process `name` for `line`: the line and
    /// a newline. A name that was never launched has nothing to write to, so
    /// the write is a silent no-op (`None`); one that has exited is
    /// `LibError::ProcessExited`. The registry is not changed.
    pub fn input_line(&self, name: &str, line: &str) -> (r: Result<Option<String>, LibError>)
        requires
            self.wf(),
        ensures
            !self.view().contains_key(name@) ==> r is Ok && r->Ok_0 is None,
            self.view().contains_key(name@) && !self.view()[name@].running ==> r is Err
                && r->Err_0 is ProcessExited && r->Err_0->ProcessExited_0@ == name@,
            self.view().contains_key(name@) && self.view()[name@].running ==> r is Ok
                && r->Ok_0 is Some && r->Ok_0->0@ == line@ + "\n"@,
    {
        match self.find(name) {
            Some(i) => {
                proof {
                    assert(self.model@.contains_key(self.entries@[i as int].name@));
                }
                if self.entries[i].running {
                    let mut s = line.to_owned();
                    s.append("\n");
                    Ok(Some(s))
                } else {
                    Err(LibError::ProcessExited(name.to_owned()))
                }
            },
            None => Ok(None),
        }
    }
}

/// The round trip through the registry: once `name` is launched (no process
/// of that name running before) and has printed `lines`, reading `name` gives
/// exactly those lines, each followed by a newline, so it ends with the last
/// one; work on `name` leaves every other name as it was, and a name that was
/// never launched still reads as absent.
pub proof fn lemma_supervisor_round_trip(
    m: Map<Seq<char>, ProcessView>,
    name: Seq<char>,
    lines: Seq<Seq<char>>,
    other: Seq<char>,
)
    requires
        !(m.contains_key(name) && m[name].running),
        other != name,
    ensures
        ({
            let m2 = after_outputs(after_launch(m, name), name, lines);
            &&& read_spec(m2, name) == Some(transcript_of(lines))
            &&& m2[name].running
            &&& read_spec(m2, other) == read_spec(m, other)
            &&& lines.len() > 0 ==> {
                let t = transcript_of(lines);
                let tail = lines.last() + "\n"@;
                t.len() >= tail.len() && t.subrange(t.len() - tail.len(), t.len() as int) == tail
            }
        }),
    decreases lines.len(),
{
    if lines.len() > 0 {
        lemma_supervisor_round_trip(m, name, lines.drop_last(), other);
        let t = transcript_of(lines);
        let tail = lines.last() + "\n"@;
        assert(t == transcript_of(lines.drop_last()) + tail);
        assert(t.subrange(t.len() - tail.len(), t.len() as int) =~= tail);
    }
}

} // verus!
