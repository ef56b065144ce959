//! What holds of a task over any sequence of events: the order of its
//! steps, what a success guarantees, and where its archive goes.

use vstd::prelude::*;
use crate::failure::is_success;
use crate::task::{TaskView, TaskStatus, Stage, Event, Action, next, dest_of};

verus! {

/// The task after the events `es`, applied in order.
pub open spec fn run(t: TaskView, es: Seq<Event>) -> TaskView
    decreases es.len(),
{
    if es.len() == 0 {
        t
    } else {
        run(next(t, es[0]).0, es.drop_first())
    }
}

/// The work the task asks for along `es`: one action per event.
pub open spec fn issued(t: TaskView, es: Seq<Event>) -> Seq<Action>
    decreases es.len(),
{
    if es.len() == 0 {
        Seq::empty()
    } else {
        seq![next(t, es[0]).1] + issued(next(t, es[0]).0, es.drop_first())
    }
}

/// What a task that has reached a given point can be relied on for: from
/// resolution on, its destination is the one its identifier and name give;
/// from streaming on, the file exists; from syncing on, the bytes written
/// match the reported length, if one was reported.
pub open spec fn sound(t: TaskView) -> bool {
    &&& (t.status is Downloading || t.status is Succeeded) ==> t.dest == dest_of(
        t.folder,
        t.name,
        t.id,
    )
    &&& (t.status == TaskStatus::Downloading(Stage::Streaming) || t.status
        == TaskStatus::Downloading(Stage::Syncing) || t.status is Succeeded) ==> t.file_created
    &&& (t.status == TaskStatus::Downloading(Stage::Syncing) || t.status is Succeeded) ==> (
    t.expected_size is Some ==> t.written == t.expected_size->0)
}

proof fn lemma_issued_len(t: TaskView, es: Seq<Event>)
    ensures
        issued(t, es).len() == es.len(),
    decreases es.len(),
{
    if es.len() > 0 {
        lemma_issued_len(next(t, es[0]).0, es.drop_first());
    }
}

/// Splits a run at step `k`: the action of step `k` is the one the task
/// takes from where the first `k` events left it.
proof fn lemma_issued_at(t: TaskView, es: Seq<Event>, k: int)
    requires
        0 <= k < es.len(),
    ensures
        issued(t, es)[k] == next(run(t, es.take(k)), es[k]).1,
    decreases k,
{
    lemma_issued_len(next(t, es[0]).0, es.drop_first());
    if k > 0 {
        let rest = es.drop_first();
        lemma_issued_at(next(t, es[0]).0, rest, k - 1);
        assert(es.take(k).drop_first() =~= rest.take(k - 1));
        assert(es.take(k)[0] == es[0]);
    }
}

proof fn lemma_run_sound(t: TaskView, es: Seq<Event>)
    requires
        sound(t),
    ensures
        sound(run(t, es)),
        run(t, es).id == t.id,
        run(t, es).folder == t.folder,
    decreases es.len(),
{
    if es.len() > 0 {
        lemma_run_sound(next(t, es[0]).0, es.drop_first());
    }
}

/// A failed task stays as it is, and asks for nothing more, whatever
/// events follow.
pub proof fn lemma_failed_is_final(t: TaskView, es: Seq<Event>)
    requires
        t.status is Failed,
    ensures
        run(t, es) == t,
        forall|k: int| 0 <= k < es.len() ==> #[trigger] issued(t, es)[k] == Action::Finish,
    decreases es.len(),
{
    lemma_issued_len(t, es);
    if es.len() > 0 {
        let rest = es.drop_first();
        assert(next(t, es[0]) == (t, Action::Finish));
        lemma_failed_is_final(t, rest);
        assert forall|k: int| 0 <= k < es.len() implies #[trigger] issued(t, es)[k]
            == Action::Finish by {
            if k > 0 {
                assert(issued(t, es)[k] == issued(t, rest)[k - 1]);
            }
        }
    }
}

/// A content request is issued only at a step where the task was resolving
/// and received a successful metadata reply that held a usable record.
pub proof fn lemma_content_request_needs_metadata(t: TaskView, es: Seq<Event>, k: int)
    requires
        0 <= k < es.len(),
        issued(t, es)[k] == Action::FetchContent,
    ensures
        run(t, es.take(k)).status is Resolving,
        es[k] matches Event::MetadataReceived { status, metadata } && is_success(status)
            && metadata is Some,
{
    lemma_issued_at(t, es, k);
}

/// How far along its lifecycle a status is.
pub open spec fn rank(s: TaskStatus) -> int {
    match s {
        TaskStatus::Pending => 0,
        TaskStatus::Resolving => 1,
        TaskStatus::Downloading(stage) => match stage {
            Stage::Requested => 2,
            Stage::CreatingFile => 3,
            Stage::Streaming => 4,
            Stage::Syncing => 5,
        },
        TaskStatus::Succeeded => 6,
        TaskStatus::Failed(_) => 6,
    }
}

/// A task's status only moves forward: a step that changes it moves it to
/// a later point of the lifecycle, so no status is revisited.
pub proof fn lemma_status_moves_forward(t: TaskView, e: Event)
    ensures
        rank(next(t, e).0.status) >= rank(t.status),
        next(t, e).0.status != t.status ==> rank(next(t, e).0.status) > rank(t.status),
{
}

proof fn lemma_run_forward(t: TaskView, es: Seq<Event>)
    ensures
        rank(run(t, es).status) >= rank(t.status),
    decreases es.len(),
{
    if es.len() > 0 {
        lemma_status_moves_forward(t, es[0]);
        lemma_run_forward(next(t, es[0]).0, es.drop_first());
    }
}

proof fn lemma_run_append(t: TaskView, xs: Seq<Event>, ys: Seq<Event>)
    ensures
        run(t, xs + ys) == run(run(t, xs), ys),
    decreases xs.len(),
{
    if xs.len() > 0 {
        assert((xs + ys).drop_first() =~= xs.drop_first() + ys);
        assert((xs + ys)[0] == xs[0]);
        lemma_run_append(next(t, xs[0]).0, xs.drop_first(), ys);
    } else {
        assert(xs + ys =~= ys);
    }
}

/// The task after `a` events is no further along than after `b >= a`.
proof fn lemma_prefix_forward(t: TaskView, es: Seq<Event>, a: int, b: int)
    requires
        0 <= a <= b <= es.len(),
    ensures
        rank(run(t, es.take(a)).status) <= rank(run(t, es.take(b)).status),
{
    lemma_run_append(t, es.take(a), es.subrange(a, b));
    assert(es.take(a) + es.subrange(a, b) =~= es.take(b));
    lemma_run_forward(run(t, es.take(a)), es.subrange(a, b));
}

proof fn lemma_run_step(t: TaskView, es: Seq<Event>, k: int)
    requires
        0 <= k < es.len(),
    ensures
        run(t, es.take(k + 1)) == next(run(t, es.take(k)), es[k]).0,
{
    lemma_run_append(t, es.take(k), seq![es[k]]);
    assert(es.take(k) + seq![es[k]] =~= es.take(k + 1));
    let x = run(t, es.take(k));
    let one = seq![es[k]];
    assert(one.drop_first() =~= Seq::<Event>::empty());
    assert(run(next(x, es[k]).0, one.drop_first()) == next(x, es[k]).0);
    assert(run(x, one) == run(next(x, one[0]).0, one.drop_first()));
}

/// For a task whose metadata resolution fails, at whatever step, no
/// download request is ever issued: not before, not at, not after it.
pub proof fn lemma_failed_resolution_never_downloads(t: TaskView, es: Seq<Event>, j: int)
    requires
        0 <= j < es.len(),
        run(t, es.take(j)).status is Resolving,
        run(t, es.take(j + 1)).status is Failed,
    ensures
        forall|k: int| 0 <= k < es.len() ==> #[trigger] issued(t, es)[k] != Action::FetchContent,
{
    assert forall|k: int| 0 <= k < es.len() implies #[trigger] issued(t, es)[k]
        != Action::FetchContent by {
        if issued(t, es)[k] == Action::FetchContent {
            lemma_issued_at(t, es, k);
            lemma_run_step(t, es, k);
            assert(run(t, es.take(k)).status is Resolving);
            assert(run(t, es.take(k + 1)).status is Downloading);
            if k < j {
                lemma_prefix_forward(t, es, k + 1, j);
            } else if k > j {
                lemma_prefix_forward(t, es, j + 1, k);
            }
        }
    }
}

/// A task that succeeded created its destination file at the path its
/// identifier and name give; when a length was reported the file holds
/// exactly that many bytes, so it is non-empty when the length is positive.
pub proof fn lemma_success_means_complete_file(t: TaskView, es: Seq<Event>)
    requires
        t.status is Pending,
    ensures
        run(t, es).status is Succeeded ==> {
            let r = run(t, es);
            &&& r.file_created
            &&& r.dest == dest_of(t.folder, r.name, t.id)
            &&& r.expected_size is Some ==> r.written == r.expected_size->0
            &&& (r.expected_size is Some && r.expected_size->0 > 0) ==> r.written > 0
        },
{
    lemma_run_sound(t, es);
}

/// Running the same identifier into the same folder again, with the
/// service giving the same name, writes to the same file.
pub proof fn lemma_same_inputs_same_destination(
    t1: TaskView,
    es1: Seq<Event>,
    t2: TaskView,
    es2: Seq<Event>,
)
    requires
        t1.status is Pending,
        t2.status is Pending,
        t1.id == t2.id,
        t1.folder == t2.folder,
        run(t1, es1).status is Succeeded,
        run(t2, es2).status is Succeeded,
        run(t1, es1).name == run(t2, es2).name,
    ensures
        run(t1, es1).dest == run(t2, es2).dest,
{
    lemma_run_sound(t1, es1);
    lemma_run_sound(t2, es2);
}

/// The total of a sequence of chunk lengths.
pub open spec fn total(lens: Seq<u64>) -> int
    decreases lens.len(),
{
    if lens.len() == 0 {
        0
    } else {
        total(lens.drop_last()) + lens.last()
    }
}

proof fn lemma_total_nonneg(lens: Seq<u64>)
    ensures
        total(lens) >= 0,
    decreases lens.len(),
{
    if lens.len() > 0 {
        lemma_total_nonneg(lens.drop_last());
    }
}

/// One written chunk per length.
pub open spec fn chunks(lens: Seq<u64>) -> Seq<Event> {
    Seq::new(lens.len(), |i: int| Event::ChunkWritten { len: lens[i] })
}

/// The events of a content download in which every step succeeds: the
/// reply with `status` and `length`, the file, the chunks, the end of the
/// body and the flush.
pub open spec fn clean_download(status: u16, length: Option<u64>, lens: Seq<u64>) -> Seq<Event> {
    seq![Event::ContentReceived { status, content_length: length }, Event::FileCreated] + chunks(
        lens,
    ) + seq![Event::StreamEnded, Event::Synced]
}

proof fn lemma_run_one(t: TaskView, e: Event)
    ensures
        run(t, seq![e]) == next(t, e).0,
{
    let one = seq![e];
    assert(one.drop_first() =~= Seq::<Event>::empty());
    assert(one[0] == e);
    assert(run(next(t, e).0, one.drop_first()) == next(t, e).0);
    assert(run(t, one) == run(next(t, one[0]).0, one.drop_first()));
}

proof fn lemma_chunks_written(s: TaskView, lens: Seq<u64>)
    requires
        s.status == TaskStatus::Downloading(Stage::Streaming),
        s.written + total(lens) <= u64::MAX,
    ensures
        run(s, chunks(lens)) == (TaskView { written: (s.written + total(lens)) as u64, ..s }),
    decreases lens.len(),
{
    if lens.len() == 0 {
        assert(chunks(lens) =~= Seq::<Event>::empty());
        assert(TaskView { written: (s.written + total(lens)) as u64, ..s } == s);
    } else {
        let init = lens.drop_last();
        lemma_total_nonneg(init);
        assert(total(lens) == total(init) + lens.last());
        assert(chunks(lens) =~= chunks(init) + seq![Event::ChunkWritten { len: lens.last() }]);
        lemma_chunks_written(s, init);
        lemma_run_append(s, chunks(init), seq![Event::ChunkWritten { len: lens.last() }]);
        let mid = run(s, chunks(init));
        assert(mid.written == s.written + total(init));
        assert(mid.status == TaskStatus::Downloading(Stage::Streaming));
        lemma_run_one(mid, Event::ChunkWritten { len: lens.last() });
        assert(next(mid, Event::ChunkWritten { len: lens.last() }).0 == (TaskView {
            written: (s.written + total(lens)) as u64,
            ..s
        }));
    }
}

/// A content download whose every step succeeds completes: with no length
/// header, or with one that matches the bytes streamed, the task succeeds,
/// having created its file and written exactly the streamed bytes to it.
pub proof fn lemma_clean_download_succeeds(
    t: TaskView,
    status: u16,
    length: Option<u64>,
    lens: Seq<u64>,
)
    requires
        t.status == TaskStatus::Downloading(Stage::Requested),
        t.written == 0,
        is_success(status),
        total(lens) <= u64::MAX,
        length is None || length->0 == total(lens),
    ensures
        run(t, clean_download(status, length, lens)).status is Succeeded,
        run(t, clean_download(status, length, lens)).file_created,
        run(t, clean_download(status, length, lens)).written == total(lens),
        run(t, clean_download(status, length, lens)).expected_size == length,
{
    let head = seq![Event::ContentReceived { status, content_length: length }, Event::FileCreated];
    let tail = seq![Event::StreamEnded, Event::Synced];
    let t1 = next(t, head[0]).0;
    let t2 = next(t1, head[1]).0;
    assert(run(t, head) == t2) by {
        assert(head.drop_first() =~= seq![Event::FileCreated]);
        lemma_run_one(t1, Event::FileCreated);
    }
    lemma_total_nonneg(lens);
    lemma_chunks_written(t2, lens);
    let t3 = run(t2, chunks(lens));
    let t4 = next(t3, tail[0]).0;
    assert(run(t3, tail) == next(t4, tail[1]).0) by {
        assert(tail.drop_first() =~= seq![Event::Synced]);
        lemma_run_one(t4, Event::Synced);
    }
    lemma_run_append(t, head, chunks(lens));
    lemma_run_append(t, head + chunks(lens), tail);
}

} // verus!
