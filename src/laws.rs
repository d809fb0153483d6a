//! What holds of whole downloads: the machine run over a sequence of events.
use vstd::prelude::*;

use crate::download::{
    initial, is_success, next, ActionModel, DownloadError, DownloadState, EventModel, Phase,
};
use crate::progress::{capped, mode_for};

verus! {

/// The state after the events `evs`, taken in order from `s`.
pub open spec fn run(s: DownloadState, evs: Seq<EventModel>) -> DownloadState
    decreases evs.len(),
{
    if evs.len() == 0 {
        s
    } else {
        next(run(s, evs.drop_last()), evs.last()).0
    }
}

/// The actions asked for along the events `evs`, one for each event.
pub open spec fn actions(s: DownloadState, evs: Seq<EventModel>) -> Seq<ActionModel>
    decreases evs.len(),
{
    if evs.len() == 0 {
        Seq::empty()
    } else {
        actions(s, evs.drop_last()).push(next(run(s, evs.drop_last()), evs.last()).1)
    }
}

/// Every event of `evs` is one that the machine expects where it arrives, as
/// the events of a real transfer are.
pub open spec fn follows_protocol(s: DownloadState, evs: Seq<EventModel>) -> bool
    decreases evs.len(),
{
    evs.len() == 0 || (follows_protocol(s, evs.drop_last()) && !(next(
        run(s, evs.drop_last()),
        evs.last(),
    ).1 is Idle))
}

/// The response body that `evs` deliver: their chunks, in order.
pub open spec fn body(evs: Seq<EventModel>) -> Seq<u8>
    decreases evs.len(),
{
    if evs.len() == 0 {
        Seq::empty()
    } else {
        match evs.last() {
            EventModel::Chunk(b) => body(evs.drop_last()) + b,
            _ => body(evs.drop_last()),
        }
    }
}

/// What the destination holds after a run that ended in `s`, where it held
/// `prior` before (`None`: it did not exist).
pub open spec fn disk(prior: Option<Seq<u8>>, s: DownloadState) -> Option<Seq<u8>> {
    match s.file {
        Some(f) => Some(f),
        None => prior,
    }
}

/// How a reachable state relates to the body `b` delivered so far.
spec fn consistent(s: DownloadState, b: Seq<u8>) -> bool {
    &&& match s.file {
        None => b.len() == 0 && s.pending.len() == 0,
        Some(f) => f + s.pending == b && s.progress is Some && s.progress.unwrap().position
            == capped(f.len() as int),
    }
    &&& (s.phase is Requesting || s.phase is Creating) ==> s.file is None
    &&& (s.phase is Reading || s.phase is Writing || s.phase is Complete) ==> s.file is Some
    &&& (s.phase is Reading || s.phase is Complete) ==> s.pending.len() == 0
    &&& s.phase is Creating ==> s.progress is Some && s.progress.unwrap().position == 0
    &&& s.phase is Complete ==> s.progress.unwrap().finished
    &&& s.progress matches Some(p) ==> p.mode == mode_for(s.quiet, s.total)
}

proof fn lemma_consistent(quiet: bool, evs: Seq<EventModel>)
    requires
        follows_protocol(initial(quiet), evs),
    ensures
        consistent(run(initial(quiet), evs), body(evs)),
    decreases evs.len(),
{
    if evs.len() > 0 {
        let pre = evs.drop_last();
        lemma_consistent(quiet, pre);
        let s = run(initial(quiet), pre);
        let t = run(initial(quiet), evs);
        assert(!(next(s, evs.last()).1 is Idle));
        match (s.phase, evs.last()) {
            (Phase::Writing, EventModel::Written) => {
                let f = s.file.unwrap();
                let p = s.progress.unwrap();
                assert(body(evs) == body(pre));
                assert(f + s.pending + t.pending =~= f + s.pending);
                assert(capped(p.position + s.pending.len()) == capped(
                    (f.len() + s.pending.len()) as int,
                ));
            },
            (Phase::Reading, EventModel::Chunk(c)) => {
                assert(body(evs) == body(pre) + c);
                assert(s.file.unwrap() + s.pending =~= s.file.unwrap());
            },
            (Phase::Creating, EventModel::FileCreated) => {
                assert(body(evs) == body(pre));
                assert(Seq::<u8>::empty() + s.pending =~= body(pre));
            },
            _ => {},
        }
    }
}

/// A successful download leaves in the destination exactly the bytes of the
/// response body, so its length is the number of bytes sent.
pub proof fn success_file_holds_body(quiet: bool, evs: Seq<EventModel>)
    requires
        follows_protocol(initial(quiet), evs),
        run(initial(quiet), evs).phase is Complete,
    ensures
        run(initial(quiet), evs).file == Some(body(evs)),
        run(initial(quiet), evs).file.unwrap().len() == body(evs).len(),
{
    lemma_consistent(quiet, evs);
}

/// When the server advertised a total and the body delivered is that long, a
/// successful download ends with the indicator finished at that total.
pub proof fn success_counts_advertised_total(quiet: bool, evs: Seq<EventModel>, t: u64)
    requires
        follows_protocol(initial(quiet), evs),
        run(initial(quiet), evs).phase is Complete,
        run(initial(quiet), evs).total == Some(t),
        body(evs).len() == t,
    ensures
        run(initial(quiet), evs).progress matches Some(p) && p.position == t && p.finished,
{
    lemma_consistent(quiet, evs);
}

/// A successful download truncates the destination before writing: whatever it
/// held before, it ends holding the body, so running the same download again
/// leaves the same bytes.
pub proof fn repeat_download_overwrites(
    quiet: bool,
    evs: Seq<EventModel>,
    prior: Option<Seq<u8>>,
)
    requires
        follows_protocol(initial(quiet), evs),
        run(initial(quiet), evs).phase is Complete,
    ensures
        disk(prior, run(initial(quiet), evs)) == Some(body(evs)),
        disk(disk(prior, run(initial(quiet), evs)), run(initial(quiet), evs)) == disk(
            prior,
            run(initial(quiet), evs),
        ),
{
    lemma_consistent(quiet, evs);
}

/// A response with a status outside 200..=299 fails the download with that
/// status; the destination is never created or written, and every later
/// event is ignored.
pub proof fn error_status_writes_nothing(
    quiet: bool,
    evs: Seq<EventModel>,
    status: u16,
    content_length: Option<u64>,
    prior: Option<Seq<u8>>,
)
    requires
        evs.len() >= 1,
        evs[0] == (EventModel::Responded { status, content_length }),
        !is_success(status),
    ensures
        run(initial(quiet), evs).phase == Phase::Failed(DownloadError::HttpStatus(status)),
        run(initial(quiet), evs).file is None,
        disk(prior, run(initial(quiet), evs)) == prior,
        actions(initial(quiet), evs).len() == evs.len(),
        actions(initial(quiet), evs)[0] == ActionModel::Fail(DownloadError::HttpStatus(status)),
        forall|i: int| 1 <= i < evs.len() ==> actions(initial(quiet), evs)[i] is Idle,
    decreases evs.len(),
{
    if evs.len() > 1 {
        let pre = evs.drop_last();
        assert(pre[0] == evs[0]);
        error_status_writes_nothing(quiet, pre, status, content_length, prior);
        assert(actions(initial(quiet), evs) == actions(initial(quiet), pre).push(ActionModel::Idle));
    } else {
        assert(evs.drop_last() =~= Seq::<EventModel>::empty());
        assert(run(initial(quiet), evs.drop_last()) == initial(quiet));
        assert(actions(initial(quiet), evs.drop_last()) == Seq::<ActionModel>::empty());
        assert(evs.last() == evs[0]);
    }
}

/// A body stream that breaks off fails the download with `Transport`, and the
/// destination keeps what was written before the break: exactly the chunks
/// delivered, not rolled back.
pub proof fn broken_stream_keeps_partial_file(quiet: bool, evs: Seq<EventModel>)
    requires
        follows_protocol(initial(quiet), evs),
        evs.len() >= 1,
        evs.last() is ReadFailed,
    ensures
        run(initial(quiet), evs).phase == Phase::Failed(DownloadError::Transport),
        run(initial(quiet), evs).file == Some(body(evs)),
        run(initial(quiet), evs).progress matches Some(p) && p.position == capped(
            body(evs).len() as int,
        ),
{
    lemma_consistent(quiet, evs.drop_last());
    assert(body(evs) == body(evs.drop_last()));
}

} // verus!
