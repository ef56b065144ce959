//! The batch scheduler: one task per identifier, at most
//! [`MAX_IN_FLIGHT`] of them running at once, each completed on its own,
//! and one report in input order once all are done.

use vstd::prelude::*;
use crate::api::{
    collection_url,
    public_collection_url,
    collection_download_url,
    collection_url_of,
    public_collection_url_of,
    collection_download_url_of,
    bearer,
    bearer_of,
};
use crate::task::{DownloadTask, TaskView, TaskStatus, is_terminal, failure_line};

verus! {

/// How many pipelines may be in flight at once.
pub const MAX_IN_FLIGHT: usize = 10;

/// Where one identifier of the batch stands.
#[derive(Debug)]
pub enum Slot {
    /// Not admitted yet.
    Queued,
    /// Admitted; its pipeline is running.
    Running,
    /// Its pipeline ended with the given task.
    Done(DownloadTask),
}

/// The batch engine's state.
#[derive(Debug)]
pub struct Batch {
    endpoint: String,
    folder: String,
    token: String,
    public: bool,
    ids: Vec<String>,
    slots: Vec<Slot>,
    next: usize,
    running: usize,
}

/// The mathematical value of a [`Batch`].
pub struct BatchView {
    pub endpoint: Seq<char>,
    pub folder: Seq<char>,
    pub token: Seq<char>,
    pub public: bool,
    pub ids: Seq<Seq<char>>,
    pub slots: Seq<Slot>,
    pub next: nat,
    pub running: nat,
}

/// How many slots are running.
pub open spec fn running_count(s: Seq<Slot>) -> nat
    decreases s.len(),
{
    if s.len() == 0 {
        0
    } else {
        running_count(s.drop_last()) + if s.last() is Running {
            1nat
        } else {
            0nat
        }
    }
}

/// The metadata URL of `id`.
pub open spec fn meta_url_for(endpoint: Seq<char>, id: Seq<char>, public: bool) -> Seq<char> {
    if public {
        public_collection_url_of(endpoint, id)
    } else {
        collection_url_of(endpoint, id)
    }
}

/// The task a batch starts for `id`.
pub open spec fn fresh_task(b: BatchView, id: Seq<char>) -> TaskView {
    TaskView {
        id,
        name: Seq::empty(),
        folder: b.folder,
        dest: Seq::empty(),
        meta_url: meta_url_for(b.endpoint, id, b.public),
        dl_url: collection_download_url_of(b.endpoint, id),
        token: b.token,
        expected_size: None,
        written: 0,
        file_created: false,
        status: TaskStatus::Pending,
    }
}

/// Have all tasks been admitted and ended?
pub open spec fn finished(b: BatchView) -> bool {
    b.next == b.slots.len() && b.running == 0
}

/// A done slot holds a terminal task of the slot's identifier.
pub open spec fn slot_fits(x: Slot, id: Seq<char>) -> bool {
    x matches Slot::Done(t) ==> is_terminal(t@.status) && t@.id == id
}

/// Every slot has ended with a terminal task of its own identifier.
pub open spec fn settled(b: BatchView) -> bool {
    forall|i: int|
        0 <= i < b.slots.len() ==> (#[trigger] b.slots[i] matches Slot::Done(t) && is_terminal(
            t@.status,
        ) && t@.id == b.ids[i])
}

/// The report lines of one slot: one for a task that failed, none else.
pub open spec fn slot_lines(x: Slot) -> Seq<Seq<char>> {
    match x {
        Slot::Done(t) => match t.status {
            TaskStatus::Failed(f) => seq![failure_line(t.id@, f)],
            _ => Seq::empty(),
        },
        _ => Seq::empty(),
    }
}

/// The report lines of the batch, in input order.
pub open spec fn failure_lines(s: Seq<Slot>) -> Seq<Seq<char>>
    decreases s.len(),
{
    if s.len() == 0 {
        Seq::empty()
    } else {
        failure_lines(s.drop_last()) + slot_lines(s.last())
    }
}

/// Lines joined with newlines between them.
pub open spec fn join_lines(ls: Seq<Seq<char>>) -> Seq<char>
    decreases ls.len(),
{
    if ls.len() == 0 {
        Seq::empty()
    } else if ls.len() == 1 {
        ls[0]
    } else {
        join_lines(ls.drop_last()) + "\n"@ + ls.last()
    }
}

/// The outcome of a finished batch: success when no task failed, else one
/// line per failed task, in input order.
pub open spec fn report_of(s: Seq<Slot>) -> Result<(), Seq<char>> {
    if failure_lines(s).len() == 0 {
        Ok(())
    } else {
        Err(join_lines(failure_lines(s)))
    }
}

/// Does `needle` occur in `hay`?
pub open spec fn contains(hay: Seq<char>, needle: Seq<char>) -> bool {
    exists|k: int|
        0 <= k && k + needle.len() <= hay.len() && #[trigger] hay.subrange(k, k + needle.len())
            == needle
}

proof fn lemma_running_count_update(s: Seq<Slot>, i: int, x: Slot)
    requires
        0 <= i < s.len(),
    ensures
        running_count(s.update(i, x)) + (if s[i] is Running {
            1int
        } else {
            0int
        }) == running_count(s) + (if x is Running {
            1int
        } else {
            0int
        }),
    decreases s.len(),
{
    let u = s.update(i, x);
    if i == s.len() - 1 {
        assert(u.drop_last() =~= s.drop_last());
    } else {
        assert(u.drop_last() =~= s.drop_last().update(i, x));
        lemma_running_count_update(s.drop_last(), i, x);
    }
}

proof fn lemma_running_count_queued(n: nat)
    ensures
        running_count(Seq::new(n, |i: int| Slot::Queued)) == 0,
    decreases n,
{
    if n > 0 {
        assert(Seq::new(n, |i: int| Slot::Queued).drop_last() =~= Seq::new(
            (n - 1) as nat,
            |i: int| Slot::Queued,
        ));
        lemma_running_count_queued((n - 1) as nat);
    }
}

proof fn lemma_none_running(s: Seq<Slot>, i: int)
    requires
        running_count(s) == 0,
        0 <= i < s.len(),
    ensures
        !(s[i] is Running),
    decreases s.len(),
{
    if i < s.len() - 1 {
        lemma_none_running(s.drop_last(), i);
    }
}

proof fn lemma_lines_of_prefix(s: Seq<Slot>, i: int)
    requires
        0 <= i < s.len(),
    ensures
        failure_lines(s.take(i + 1)) == failure_lines(s.take(i)) + slot_lines(s[i]),
{
    assert(s.take(i + 1).drop_last() =~= s.take(i));
}

proof fn lemma_join_push(ls: Seq<Seq<char>>, x: Seq<char>)
    ensures
        join_lines(ls.push(x)) == if ls.len() == 0 {
            x
        } else {
            join_lines(ls) + "\n"@ + x
        },
{
    assert(ls.push(x).drop_last() =~= ls);
}

/// A line of a failed slot is among the batch's lines.
proof fn lemma_line_listed(s: Seq<Slot>, j: int) -> (m: int)
    requires
        0 <= j < s.len(),
        slot_lines(s[j]).len() == 1,
    ensures
        0 <= m < failure_lines(s).len(),
        failure_lines(s)[m] == slot_lines(s[j])[0],
    decreases s.len(),
{
    if j == s.len() - 1 {
        failure_lines(s.drop_last()).len() as int
    } else {
        lemma_line_listed(s.drop_last(), j)
    }
}

/// Each line occurs in the joined text.
proof fn lemma_join_contains(ls: Seq<Seq<char>>, m: int)
    requires
        0 <= m < ls.len(),
    ensures
        contains(join_lines(ls), ls[m]),
    decreases ls.len(),
{
    let j = join_lines(ls);
    if ls.len() == 1 {
        let k = 0int;
        assert(j.subrange(k, k + ls[m].len()) =~= ls[m]);
    } else {
        let head = join_lines(ls.drop_last());
        assert(j == head + "\n"@ + ls.last());
        if m == ls.len() - 1 {
            let k = (head.len() + ("\n"@).len()) as int;
            assert(j.subrange(k, k + ls[m].len()) =~= ls[m]);
        } else {
            lemma_join_contains(ls.drop_last(), m);
            let k = choose|k: int|
                0 <= k && k + ls[m].len() <= head.len() && #[trigger] head.subrange(
                    k,
                    k + ls[m].len(),
                ) == ls[m];
            assert(j.subrange(k, k + ls[m].len()) =~= head.subrange(k, k + ls[m].len()));
        }
    }
}

/// What occurs in a part of a text occurs in the text.
proof fn lemma_contains_part(hay: Seq<char>, part: Seq<char>, at: int, len: int)
    requires
        contains(hay, part),
        0 <= at,
        0 <= len,
        at + len <= part.len(),
    ensures
        contains(hay, part.subrange(at, at + len)),
{
    let k = choose|k: int|
        0 <= k && k + part.len() <= hay.len() && #[trigger] hay.subrange(k, k + part.len())
            == part;
    assert(hay.subrange(k + at, k + at + len) =~= part.subrange(at, at + len));
}

/// The report of a finished batch names every task that failed: it holds
/// the task's identifier and its reason text.
pub proof fn lemma_report_mentions_every_failure(s: Seq<Slot>, j: int)
    requires
        0 <= j < s.len(),
        s[j] matches Slot::Done(t) && t.status is Failed,
    ensures
        report_of(s) is Err,
        contains(report_of(s)->Err_0, s[j]->Done_0.id@),
        contains(
            report_of(s)->Err_0,
            crate::failure::reason_text(s[j]->Done_0.status->Failed_0),
        ),
{
    let t = s[j]->Done_0;
    let f = t.status->Failed_0;
    let line = failure_line(t.id@, f);
    let m = lemma_line_listed(s, j);
    lemma_join_contains(failure_lines(s), m);
    let text = join_lines(failure_lines(s));
    assert(line.subrange(0, t.id@.len() as int) =~= t.id@);
    lemma_contains_part(text, line, 0, t.id@.len() as int);
    let at = (t.id@.len() + (" - "@).len()) as int;
    let reason = crate::failure::reason_text(f);
    assert(line.subrange(at, at + reason.len()) =~= reason);
    lemma_contains_part(text, line, at, reason.len() as int);
}

proof fn lemma_lines_single_failure(s: Seq<Slot>, j: int, n: int)
    requires
        0 <= j < s.len(),
        0 <= n <= s.len(),
        s[j] matches Slot::Done(t) && t.status is Failed,
        forall|i: int|
            0 <= i < s.len() && i != j ==> (#[trigger] s[i] matches Slot::Done(t)
                && t.status is Succeeded),
    ensures
        failure_lines(s.take(n)) == if j < n {
            slot_lines(s[j])
        } else {
            Seq::<Seq<char>>::empty()
        },
    decreases n,
{
    if n > 0 {
        lemma_lines_single_failure(s, j, n - 1);
        lemma_lines_of_prefix(s, n - 1);
        if n - 1 != j {
            assert(slot_lines(s[n - 1]) =~= Seq::<Seq<char>>::empty());
        }
        if j < n - 1 {
            assert(slot_lines(s[j]) + slot_lines(s[n - 1]) =~= slot_lines(s[j]));
        } else if j == n - 1 {
            assert(Seq::<Seq<char>>::empty() + slot_lines(s[j]) =~= slot_lines(s[j]));
        } else {
            assert(Seq::<Seq<char>>::empty() + slot_lines(s[n - 1]) =~= Seq::<
                Seq<char>,
            >::empty());
        }
    } else {
        assert(s.take(0) =~= Seq::<Slot>::empty());
    }
}

/// One task's failure does not touch the others' outcome: when only slot
/// `j` failed and every other task succeeded, the report is exactly the
/// one line that names `j`.
pub proof fn lemma_single_failure_report(s: Seq<Slot>, j: int)
    requires
        0 <= j < s.len(),
        s[j] matches Slot::Done(t) && t.status is Failed,
        forall|i: int|
            0 <= i < s.len() && i != j ==> (#[trigger] s[i] matches Slot::Done(t)
                && t.status is Succeeded),
    ensures
        report_of(s) == Err::<(), Seq<char>>(
            failure_line(s[j]->Done_0.id@, s[j]->Done_0.status->Failed_0),
        ),
{
    lemma_lines_single_failure(s, j, s.len() as int);
    assert(s.take(s.len() as int) =~= s);
}

impl View for Batch {
    type V = BatchView;

    closed spec fn view(&self) -> BatchView {
        BatchView {
            endpoint: self.endpoint@,
            folder: self.folder@,
            token: self.token@,
            public: self.public,
            ids: self.ids@.map_values(|s: String| s@),
            slots: self.slots@,
            next: self.next as nat,
            running: self.running as nat,
        }
    }
}

impl Batch {
    /// The batch is well formed: one slot per identifier, slots before
    /// `next` started and after it queued, and the running count kept, and
    /// within [`MAX_IN_FLIGHT`].
    pub closed spec fn wf(&self) -> bool {
        &&& self.slots@.len() == self.ids@.len()
        &&& self.next <= self.slots@.len()
        &&& forall|i: int| self.next <= i < self.slots@.len() ==> #[trigger] self.slots@[i] is Queued
        &&& forall|i: int| 0 <= i < self.next ==> !(#[trigger] self.slots@[i] is Queued)
        &&& forall|i: int|
            0 <= i < self.slots@.len() ==> slot_fits(#[trigger] self.slots@[i], self.ids@[i]@)
        &&& self.running == running_count(self.slots@)
        &&& self.running <= MAX_IN_FLIGHT
    }

    /// A batch over `ids`, none admitted yet. Each task fetches its
    /// metadata from the public URL when `public` holds, and sends the
    /// session token `id_token` as a bearer credential.
    pub fn new(endpoint: &str, folder: &str, id_token: &str, ids: Vec<String>, public: bool) -> (r:
        Batch)
        ensures
            r@.endpoint == endpoint@,
            r@.folder == folder@,
            r@.token == bearer_of(id_token@),
            r@.public == public,
            r@.ids == ids@.map_values(|s: String| s@),
            r@.slots == Seq::new(ids@.len(), |i: int| Slot::Queued),
            r@.next == 0,
            r@.running == 0,
            r.wf(),
    {
        let n = ids.len();
        let mut slots: Vec<Slot> = Vec::new();
        let mut i: usize = 0;
        while i < n
            invariant
                i <= n,
                slots@ == Seq::new(i as nat, |k: int| Slot::Queued),
            decreases n - i,
        {
            slots.push(Slot::Queued);
            i = i + 1;
            assert(slots@ =~= Seq::new(i as nat, |k: int| Slot::Queued));
        }
        proof {
            lemma_running_count_queued(n as nat);
        }
        Batch {
            endpoint: endpoint.to_owned(),
            folder: folder.to_owned(),
            token: bearer(id_token),
            public,
            ids,
            slots,
            next: 0,
            running: 0,
        }
    }

    /// No well-formed batch has more than [`MAX_IN_FLIGHT`] pipelines in
    /// flight, at any point of its life; and every task it holds as done is
    /// terminal and of its slot's identifier.
    pub proof fn lemma_in_flight_bounded(b: &Batch)
        requires
            b.wf(),
        ensures
            b@.running == running_count(b@.slots),
            b@.running <= MAX_IN_FLIGHT,
            forall|i: int|
                0 <= i < b@.slots.len() ==> slot_fits(#[trigger] b@.slots[i], b@.ids[i]),
    {
        assert forall|i: int| 0 <= i < b@.slots.len() implies slot_fits(
            #[trigger] b@.slots[i],
            b@.ids[i],
        ) by {
            assert(b@.ids[i] == b.ids@[i]@);
        }
    }

    /// The number of identifiers.
    pub fn len(&self) -> (r: usize)
        requires
            self.wf(),
        ensures
            r == self@.slots.len(),
            r == self@.ids.len(),
    {
        self.slots.len()
    }

    /// How many pipelines are in flight: never more than [`MAX_IN_FLIGHT`].
    pub fn in_flight(&self) -> (r: usize)
        requires
            self.wf(),
        ensures
            r == self@.running,
            r == running_count(self@.slots),
            r <= MAX_IN_FLIGHT,
    {
        self.running
    }

    /// Have all tasks been admitted and ended?
    pub fn is_finished(&self) -> (r: bool)
        requires
            self.wf(),
        ensures
            r == finished(self@),
            r ==> settled(self@),
    {
        proof {
            if self.next == self.slots.len() && self.running == 0 {
                assert forall|i: int| 0 <= i < self@.slots.len() implies (
                #[trigger] self@.slots[i] matches Slot::Done(t) && is_terminal(t@.status) && t@.id
                    == self@.ids[i]) by {
                    lemma_none_running(self.slots@, i);
                    assert(slot_fits(self.slots@[i], self.ids@[i]@));
                    assert(self@.ids[i] == self.ids@[i]@);
                }
            }
        }
        self.next == self.slots.len() && self.running == 0
    }

    /// Starts the next identifier when a slot is free: returns its index
    /// and a fresh task for it, and counts it as in flight. Returns `None`,
    /// changing nothing, when all are admitted or [`MAX_IN_FLIGHT`] run.
    pub fn start_next(&mut self) -> (r: Option<(usize, DownloadTask)>)
        requires
            old(self).wf(),
        ensures
            final(self).wf(),
            ({
                let b = old(self)@;
                let free = b.running < MAX_IN_FLIGHT && b.next < b.slots.len();
                &&& free ==> (r matches Some((i, t)) && i == b.next && t@ == fresh_task(
                    b,
                    b.ids[b.next as int],
                ))
                &&& free ==> final(self)@ == BatchView {
                    slots: b.slots.update(b.next as int, Slot::Running),
                    next: b.next + 1,
                    running: b.running + 1,
                    ..b
                }
                &&& !free ==> r is None && final(self)@ == b
            }),
            final(self)@.running <= MAX_IN_FLIGHT,
    {
        if self.running < MAX_IN_FLIGHT && self.next < self.slots.len() {
            let i = self.next;
            let id = self.ids[i].clone();
            let meta_url = if self.public {
                public_collection_url(self.endpoint.as_str(), id.as_str())
            } else {
                collection_url(self.endpoint.as_str(), id.as_str())
            };
            let dl_url = collection_download_url(self.endpoint.as_str(), id.as_str());
            let task = DownloadTask::new(
                id,
                self.folder.clone(),
                meta_url,
                dl_url,
                self.token.clone(),
            );
            proof {
                lemma_running_count_update(self.slots@, i as int, Slot::Running);
            }
            self.slots.set(i, Slot::Running);
            self.next = i + 1;
            self.running = self.running + 1;
            Some((i, task))
        } else {
            None
        }
    }
    /// Records the end of the pipeline of slot `index` with its terminal
    /// task. Accepted only for a running slot, a task of that slot's
    /// identifier, and a terminal task; the slot is then done and no longer
    /// in flight, and every other slot is left as it was. Otherwise nothing
    /// changes.
    pub fn complete(&mut self, index: usize, task: DownloadTask) -> (accepted: bool)
        requires
            old(self).wf(),
        ensures
            final(self).wf(),
            ({
                let b = old(self)@;
                &&& accepted == (index < b.slots.len() && b.slots[index as int] is Running
                    && task@.id == b.ids[index as int] && is_terminal(task@.status))
                &&& accepted ==> final(self)@ == BatchView {
                    slots: b.slots.update(index as int, Slot::Done(task)),
                    running: (b.running - 1) as nat,
                    ..b
                }
                &&& !accepted ==> final(self)@ == b
            }),
    {
        if index < self.slots.len() {
            let running = match &self.slots[index] {
                Slot::Running => true,
                _ => false,
            };
            if running && task.id == self.ids[index] && task.is_terminal() {
                proof {
                    lemma_running_count_update(self.slots@, index as int, Slot::Done(task));
                    assert(self.ids@.map_values(|s: String| s@)[index as int] == self.ids@[index as int]@);
                }
                self.slots.set(index, Slot::Done(task));
                self.running = self.running - 1;
                return true;
            }
            assert(self.ids@.map_values(|s: String| s@)[index as int] == self.ids@[index as int]@);
        }
        false
    }

    /// The outcome of a finished batch: `Ok` when every task succeeded,
    /// else an error whose text has one line per failed task, in input
    /// order. `None` while tasks are queued or in flight.
    pub fn report(&self) -> (r: Option<Result<(), String>>)
        requires
            self.wf(),
        ensures
            r is None <==> !finished(self@),
            r is Some ==> settled(self@),
            r matches Some(Ok(())) ==> forall|i: int|
                0 <= i < self@.slots.len() ==> (#[trigger] self@.slots[i] matches Slot::Done(t)
                    && t@.status is Succeeded),
            r is Some ==> match (r->0, report_of(self@.slots)) {
                (Ok(()), Ok(())) => true,
                (Err(text), Err(expected)) => text@ == expected,
                _ => false,
            },
    {
        if !self.is_finished() {
            return None;
        }
        let n = self.slots.len();
        let mut out = String::new();
        let mut any = false;
        let mut i: usize = 0;
        while i < n
            invariant
                n == self.slots@.len(),
                i <= n,
                any == (failure_lines(self.slots@.take(i as int)).len() > 0),
                out@ == join_lines(failure_lines(self.slots@.take(i as int))),
            decreases n - i,
        {
            let ghost prev = failure_lines(self.slots@.take(i as int));
            proof {
                lemma_lines_of_prefix(self.slots@, i as int);
            }
            match &self.slots[i] {
                Slot::Done(t) => match t.failure_line() {
                    Some(line) => {
                        proof {
                            lemma_join_push(failure_lines(self.slots@.take(i as int)), line@);
                        }
                        if any {
                            out.append("\n");
                        }
                        out.append(line.as_str());
                        any = true;
                        assert(prev + slot_lines(self.slots@[i as int]) =~= prev.push(line@));
                    },
                    None => {
                        assert(prev + slot_lines(self.slots@[i as int]) =~= prev);
                    },
                },
                _ => {
                    assert(prev + slot_lines(self.slots@[i as int]) =~= prev);
                },
            }
            i = i + 1;
        }
        assert(self.slots@.take(n as int) =~= self.slots@);
        proof {
            if !any {
                assert forall|i: int| 0 <= i < self@.slots.len() implies (
                #[trigger] self@.slots[i] matches Slot::Done(t) && t@.status is Succeeded) by {
                    if self.slots@[i] matches Slot::Done(t) && t.status is Failed {
                        lemma_line_listed(self.slots@, i);
                    }
                }
            }
        }
        if any {
            Some(Err(out))
        } else {
            Some(Ok(()))
        }
    }

    /// The task that slot `index` ended with, once it has.
    pub fn finished_task(&self, index: usize) -> (r: Option<&DownloadTask>)
        requires
            self.wf(),
        ensures
            index < self@.slots.len() && self@.slots[index as int] is Done ==> r is Some && *r->0
                == self@.slots[index as int]->Done_0,
            !(index < self@.slots.len() && self@.slots[index as int] is Done) ==> r is None,
    {
        if index < self.slots.len() {
            match &self.slots[index] {
                Slot::Done(t) => Some(t),
                _ => None,
            }
        } else {
            None
        }
    }
}

} // verus!
