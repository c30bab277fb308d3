//! What holds of every invocation, whatever the filesystem answers.
use vstd::prelude::*;
use crate::config::Action;
use crate::controller::{
    ControllerView, Effect, Event, Phase, enter, finish, initial, next, pending_effect,
    pending_mode, pending_source, well_formed,
};
use crate::error::{ClipError, TransferFailure};
use crate::record::{Mode, RecordError, first_line, lemma_record_round_trip, mode_of_token, parse, record_text};

verus! {

/// The state after the events `es`, in order, from `v`.
pub open spec fn run(v: ControllerView, es: Seq<Event<Seq<char>>>) -> ControllerView
    decreases es.len(),
{
    if es.len() == 0 {
        v
    } else {
        run(next(v, es[0]), es.drop_first())
    }
}

pub proof fn lemma_run_push(v: ControllerView, es: Seq<Event<Seq<char>>>, e: Event<Seq<char>>)
    ensures
        run(v, es.push(e)) == next(run(v, es), e),
    decreases es.len(),
{
    if es.len() > 0 {
        assert(es.push(e)[0] == es[0]);
        assert(es.push(e).drop_first() == es.drop_first().push(e));
        lemma_run_push(next(v, es[0]), es.drop_first(), e);
    } else {
        assert(es.push(e)[0] == e);
        assert(es.push(e).drop_first() == Seq::<Event<Seq<char>>>::empty());
        assert(run(next(v, e), Seq::<Event<Seq<char>>>::empty()) == next(v, e));
    }
}

/// Every event keeps a controller well formed.
pub proof fn lemma_next_well_formed(v: ControllerView, e: Event<Seq<char>>)
    requires
        well_formed(v),
    ensures
        well_formed(next(v, e)),
{
}

/// A source that can be recorded: not empty, and on one line.
pub open spec fn recordable(source: Seq<char>) -> bool {
    source.len() > 0 && forall|j: int| 0 <= j < source.len() ==> source[j] != '\n'
}

/// Marking records exactly the new mode and source: the record is written
/// whole, without being read first, and reads back as that operation alone.
pub proof fn lemma_mark_overwrites(action: Action, source: Seq<char>, store: Seq<char>)
    requires
        action != Action::Paste,
        recordable(source),
    ensures
        pending_effect(initial(action, source, Some(store))) == Effect::CheckExists(source),
        ({
            let v = next(initial(action, source, Some(store)), Event::Exists(true));
            let m = if action == Action::Cut { Mode::Cut } else { Mode::Copy };
            &&& pending_effect(v) == Effect::WriteRecord(store, record_text(m, source))
            &&& parse(record_text(m, source)) == Ok::<(Mode, Seq<char>), RecordError>((m, source))
            &&& next(v, Event::Done(true)).phase == Phase::Finished(Ok(()))
        }),
{
    lemma_record_round_trip(Mode::Cut, source);
    lemma_record_round_trip(Mode::Copy, source);
}

/// Whether an effect leaves the record and the source alone, and copies
/// `source` into `dest` where it transfers anything.
pub open spec fn copies_only(eff: Effect<Seq<char>>, dest: Seq<char>, source: Seq<char>) -> bool {
    match eff {
        Effect::WriteRecord(_, _) => false,
        Effect::RemoveSource(_) => false,
        Effect::Transfer { source: s, destination: d, mode } => s == source && d == dest && mode
            == Mode::Copy,
        _ => true,
    }
}

pub open spec fn copy_paste_state(v: ControllerView, dest: Seq<char>, source: Seq<char>) -> bool {
    &&& v.action == Action::Paste
    &&& v.target == dest
    &&& well_formed(v)
    &&& (v.op is Some ==> v.op == Some((Mode::Copy, source)))
    &&& (v.phase is Transferring ==> v.op is Some)
    &&& match v.phase {
        Phase::Finished(_) => true,
        Phase::CheckingDestination => v.op is None,
        Phase::CreatingDestination => v.op is None,
        Phase::Reading => v.op is None,
        Phase::Transferring => true,
        _ => false,
    }
}

proof fn lemma_copy_paste_step(
    v: ControllerView,
    e: Event<Seq<char>>,
    dest: Seq<char>,
    source: Seq<char>,
)
    requires
        recordable(source),
        copy_paste_state(v, dest, source),
        e is Contents ==> e == Event::Contents(Some(record_text(Mode::Copy, source))),
    ensures
        copy_paste_state(next(v, e), dest, source),
{
    lemma_record_round_trip(Mode::Copy, source);
}

proof fn lemma_copy_paste_prefix(
    dest: Seq<char>,
    store: Option<Seq<char>>,
    source: Seq<char>,
    es: Seq<Event<Seq<char>>>,
    i: int,
)
    requires
        recordable(source),
        0 <= i <= es.len(),
        forall|k: int|
            0 <= k < es.len() && (#[trigger] es[k]) is Contents ==> es[k] == Event::Contents(
                Some(record_text(Mode::Copy, source)),
            ),
    ensures
        copy_paste_state(run(initial(Action::Paste, dest, store), es.take(i)), dest, source),
    decreases i,
{
    let v0 = initial(Action::Paste, dest, store);
    if i == 0 {
        assert(es.take(0) == Seq::<Event<Seq<char>>>::empty());
    } else {
        lemma_copy_paste_prefix(dest, store, source, es, i - 1);
        assert(es.take(i) == es.take(i - 1).push(es[i - 1]));
        lemma_run_push(v0, es.take(i - 1), es[i - 1]);
        lemma_copy_paste_step(run(v0, es.take(i - 1)), es[i - 1], dest, source);
    }
}

/// While the record holds a copied source, a paste never writes the record
/// and never removes anything: every transfer it asks for copies that source
/// into the destination, and a finished transfer ends the paste with success.
/// So the same record serves any number of pastes.
pub proof fn lemma_copy_paste_keeps_record(
    dest: Seq<char>,
    store: Option<Seq<char>>,
    source: Seq<char>,
    es: Seq<Event<Seq<char>>>,
)
    requires
        recordable(source),
        forall|k: int|
            0 <= k < es.len() && (#[trigger] es[k]) is Contents ==> es[k] == Event::Contents(
                Some(record_text(Mode::Copy, source)),
            ),
    ensures
        forall|i: int|
            0 <= i <= es.len() ==> copies_only(
                #[trigger] pending_effect(run(initial(Action::Paste, dest, store), es.take(i))),
                dest,
                source,
            ),
        forall|i: int|
            0 <= i < es.len() && #[trigger] es[i] == Event::<Seq<char>>::Transferred(Ok(()))
                && run(initial(Action::Paste, dest, store), es.take(i)).phase is Transferring
                ==> run(initial(Action::Paste, dest, store), es.take(i + 1)).phase
                == Phase::Finished(Ok(())),
{
    let v0 = initial(Action::Paste, dest, store);
    assert forall|i: int| 0 <= i <= es.len() implies copies_only(
        #[trigger] pending_effect(run(v0, es.take(i))),
        dest,
        source,
    ) by {
        lemma_copy_paste_prefix(dest, store, source, es, i);
    }
    assert forall|i: int|
        0 <= i < es.len() && #[trigger] es[i] == Event::<Seq<char>>::Transferred(Ok(()))
            && run(v0, es.take(i)).phase is Transferring implies run(v0, es.take(i + 1)).phase
        == Phase::Finished(Ok(())) by {
        lemma_copy_paste_prefix(dest, store, source, es, i);
        assert(es.take(i + 1) == es.take(i).push(es[i]));
        lemma_run_push(v0, es.take(i), es[i]);
    }
}

/// A paste of a cut source succeeds only through its last step, clearing the
/// record (writing it empty), which comes only after the source was removed;
/// and a paste that then reads the empty record finds nothing to paste.
pub proof fn lemma_cut_paste_clears(v: ControllerView, e: Event<Seq<char>>, w: ControllerView)
    requires
        well_formed(v),
        v.action == Action::Paste,
        v.op == Some((Mode::Cut, pending_source(v))),
        w.phase is Reading,
    ensures
        (v.phase !is Finished && next(v, e).phase == Phase::Finished(Ok(()))) ==> ({
            &&& v.phase is Clearing
            &&& e == Event::<Seq<char>>::Done(true)
            &&& pending_effect(v) == Effect::WriteRecord(v.store->0, Seq::empty())
        }),
        (next(v, e).phase is Clearing && v.phase !is Clearing) ==> ({
            &&& v.phase is RemovingSource
            &&& e == Event::<Seq<char>>::Done(true)
            &&& pending_effect(v) == Effect::RemoveSource(pending_source(v))
        }),
        v.phase is Transferring ==> (pending_effect(v) == (Effect::Transfer {
            source: pending_source(v),
            destination: v.target,
            mode: Mode::Cut,
        })),
        next(w, Event::Contents(Some(Seq::empty()))) == finish(w, Err(ClipError::NothingToPaste)),
{
}

/// The state after the first `i` of the events `es`, from `v`.
pub open spec fn state_at(v: ControllerView, es: Seq<Event<Seq<char>>>, i: int) -> ControllerView {
    run(v, es.take(i))
}

pub proof fn lemma_state_step(v: ControllerView, es: Seq<Event<Seq<char>>>, i: int)
    requires
        0 <= i < es.len(),
    ensures
        state_at(v, es, i + 1) == next(state_at(v, es, i), es[i]),
{
    assert(es.take(i + 1) == es.take(i).push(es[i]));
    lemma_run_push(v, es.take(i), es[i]);
}

pub proof fn lemma_state_at_start(v: ControllerView, es: Seq<Event<Seq<char>>>)
    ensures
        state_at(v, es, 0) == v,
{
    assert(es.take(0) == Seq::<Event<Seq<char>>>::empty());
}

/// Every state that events lead to from a well-formed one is well formed,
/// and keeps the action, the path and the record file it started with.
pub proof fn lemma_reachable_well_formed(v: ControllerView, es: Seq<Event<Seq<char>>>, i: int)
    requires
        well_formed(v),
        0 <= i <= es.len(),
    ensures
        well_formed(state_at(v, es, i)),
        state_at(v, es, i).action == v.action,
        state_at(v, es, i).target == v.target,
        state_at(v, es, i).store == v.store,
    decreases i,
{
    if i == 0 {
        lemma_state_at_start(v, es);
    } else {
        lemma_reachable_well_formed(v, es, i - 1);
        lemma_state_step(v, es, i - 1);
        lemma_next_well_formed(state_at(v, es, i - 1), es[i - 1]);
    }
}

/// The first of the states that a finished state has stood unchanged since.
proof fn lemma_first_finished(v: ControllerView, es: Seq<Event<Seq<char>>>, i: int) -> (k: int)
    requires
        0 <= i <= es.len(),
        state_at(v, es, i).phase is Finished,
        v.phase !is Finished,
    ensures
        0 < k <= i,
        state_at(v, es, k) == state_at(v, es, i),
        state_at(v, es, k - 1).phase !is Finished,
    decreases i,
{
    lemma_state_at_start(v, es);
    if i == 0 {
        i
    } else {
        lemma_state_step(v, es, i - 1);
        if state_at(v, es, i - 1).phase is Finished {
            lemma_first_finished(v, es, i - 1)
        } else {
            i
        }
    }
}

/// The first of the states that a clearing state has stood unchanged since.
proof fn lemma_first_clearing(v: ControllerView, es: Seq<Event<Seq<char>>>, i: int) -> (k: int)
    requires
        0 <= i <= es.len(),
        state_at(v, es, i).phase is Clearing,
        v.phase !is Clearing,
    ensures
        0 < k <= i,
        state_at(v, es, k) == state_at(v, es, i),
        state_at(v, es, k - 1).phase !is Clearing,
    decreases i,
{
    lemma_state_at_start(v, es);
    if i == 0 {
        i
    } else {
        lemma_state_step(v, es, i - 1);
        if state_at(v, es, i - 1).phase is Clearing {
            lemma_first_clearing(v, es, i - 1)
        } else {
            i
        }
    }
}

/// A paste of a cut source that ends in success has, on its way, had the
/// source removed and then the record written empty, each confirmed by the
/// driver.
pub proof fn lemma_cut_paste_success_clears(
    dest: Seq<char>,
    store: Option<Seq<char>>,
    es: Seq<Event<Seq<char>>>,
)
    requires
        run(initial(Action::Paste, dest, store), es).phase == Phase::Finished(Ok(())),
        pending_mode(run(initial(Action::Paste, dest, store), es)) == Mode::Cut,
    ensures
        store is Some,
        exists|i: int, j: int|
            0 <= i < j < es.len() && pending_effect(#[trigger] state_at(initial(Action::Paste, dest, store), es, i))
                == Effect::RemoveSource(pending_source(run(initial(Action::Paste, dest, store), es)))
                && es[i] == Event::<Seq<char>>::Done(true)
                && pending_effect(#[trigger] state_at(initial(Action::Paste, dest, store), es, j))
                == Effect::WriteRecord(store->0, Seq::empty())
                && es[j] == Event::<Seq<char>>::Done(true),
{
    let v0 = initial(Action::Paste, dest, store);
    let n = es.len() as int;
    assert(es.take(n) == es);
    let k = lemma_first_finished(v0, es, n);
    let j = k - 1;
    lemma_state_step(v0, es, j);
    lemma_reachable_well_formed(v0, es, j);
    let before = state_at(v0, es, j);
    assert(before.op == state_at(v0, es, k).op);
    lemma_cut_paste_clears(before, es[j], enter(before, Phase::Reading));
    let c = lemma_first_clearing(v0, es, j);
    let i = c - 1;
    lemma_state_step(v0, es, i);
    lemma_reachable_well_formed(v0, es, i);
    let removing = state_at(v0, es, i);
    lemma_cut_paste_clears(removing, es[i], enter(before, Phase::Reading));
    assert(state_at(v0, es, c).op == removing.op);
    assert(before.store == store);
}

/// A record whose first line names no mode makes a paste fail with
/// `InvalidClipboardData` at once, before any transfer, and nothing more
/// happens after.
pub proof fn lemma_corrupt_record(v: ControllerView, s: Seq<char>)
    requires
        v.phase is Reading,
        s.len() > 0,
        mode_of_token(first_line(s)) is None,
    ensures
        next(v, Event::Contents(Some(s))) == finish(v, Err(ClipError::InvalidClipboardData)),
        pending_effect(next(v, Event::Contents(Some(s)))) == Effect::<Seq<char>>::Finish(
            Err(ClipError::InvalidClipboardData),
        ),
        forall|e: Event<Seq<char>>|
            #[trigger] next(next(v, Event::Contents(Some(s))), e) == next(v, Event::Contents(Some(s))),
{
}

/// A paste first asks whether the destination exists, and where it does not,
/// creates it before the record is read or anything is transferred.
pub proof fn lemma_destination_created(dest: Seq<char>, store: Seq<char>)
    ensures
        pending_effect(initial(Action::Paste, dest, Some(store))) == Effect::CheckExists(dest),
        ({
            let v = next(initial(Action::Paste, dest, Some(store)), Event::Exists(false));
            &&& pending_effect(v) == Effect::CreateDirectory(dest)
            &&& pending_effect(next(v, Event::Done(true))) == Effect::ReadRecord(store)
            &&& next(v, Event::Done(false)).phase == Phase::Finished(
                Err(ClipError::DestinationCreateFailed),
            )
        }),
{
}

/// A transfer that fails, on a name collision or otherwise, ends the paste
/// with that failure and leaves the record as it was: nothing is removed or
/// written afterwards, whatever events follow.
pub proof fn lemma_failed_transfer_keeps_record(v: ControllerView, k: TransferFailure)
    requires
        v.phase is Transferring,
    ensures
        next(v, Event::Transferred(Err(k))) == finish(v, Err(ClipError::Transfer(k))),
        pending_effect(next(v, Event::Transferred(Err(k)))) == Effect::<Seq<char>>::Finish(
            Err(ClipError::Transfer(k)),
        ),
        forall|e: Event<Seq<char>>|
            #[trigger] next(next(v, Event::Transferred(Err(k))), e) == next(v, Event::Transferred(Err(k))),
{
}

} // verus!
