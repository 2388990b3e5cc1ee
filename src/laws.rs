use vstd::prelude::*;
use crate::record::{bumped, RecordView};
use crate::worker::{
    adopted, begin_stage, finish, step, source_uri, ActionView, EventView, Lookup, Phase, Stage,
    StoredView, WorkerView,
};

verus! {

/// The state reached and the work asked for when `es` is fed to `w` in turn;
/// events that a state refuses are passed over.
pub open spec fn run(w: WorkerView, es: Seq<EventView>) -> (WorkerView, Seq<ActionView>)
    decreases es.len(),
{
    if es.len() == 0 {
        (w, Seq::empty())
    } else {
        match step(w, es[0]) {
            None => run(w, es.drop_first()),
            Some((w2, a)) => {
                let (w3, rest) = run(w2, es.drop_first());
                (w3, seq![a] + rest)
            },
        }
    }
}

/// A phase that some sequence of events can reach from the start.
pub open spec fn wf_phase(p: Phase) -> bool {
    p != Phase::Optimize(Stage::Json)
}

/// Phases at which the JSON stage is over or was skipped.
pub open spec fn json_done(p: Phase) -> bool {
    !(p == Phase::Start || p == Phase::Lookup(Stage::Json) || p == Phase::Resolve(Stage::Json)
        || p == Phase::Fetch)
}

/// A lookup by which a stage may be skipped; the token read is not one of
/// them under force, where it only hands back the record to go on from.
pub open spec fn is_dedup_lookup(a: ActionView) -> bool {
    a is FindByRawImageUri || a is FindByRawAnimationUri
}

/// `r` keeps what `r0` holds: no retry counter lower, no CDN reference lost.
pub open spec fn keeps(r0: RecordView, r: RecordView) -> bool {
    &&& r.json_parser_retry_count >= r0.json_parser_retry_count
    &&& r.image_optimizer_retry_count >= r0.image_optimizer_retry_count
    &&& r.animation_optimizer_retry_count >= r0.animation_optimizer_retry_count
    &&& r0.cdn_json_uri is Some ==> r.cdn_json_uri is Some
    &&& r0.cdn_image_uri is Some ==> r.cdn_image_uri is Some
    &&& r0.cdn_animation_uri is Some ==> r.cdn_animation_uri is Some
}

/// Progress through the phases; every accepted event raises it.
pub open spec fn rank(p: Phase) -> int {
    match p {
        Phase::Start => 0,
        Phase::Lookup(s) => 5 * stage_index(s) + 1,
        Phase::Resolve(s) => 5 * stage_index(s) + 2,
        Phase::Fetch => 3,
        Phase::Optimize(s) => 5 * stage_index(s) + 3,
        Phase::Write(s) => 5 * stage_index(s) + 4,
        Phase::Commit(s) => 5 * stage_index(s) + 5,
        Phase::Finished => 16,
    }
}

pub open spec fn stage_index(s: Stage) -> int {
    match s {
        Stage::Json => 0,
        Stage::Image => 1,
        Stage::Animation => 2,
    }
}

/// Each accepted event moves a worker strictly forward and keeps its
/// settings; but for the token read, which hands back the stored record, it
/// keeps what the record holds, and an upsert writes the record as it stands;
/// reachable phases stay reachable.
pub proof fn lemma_step_progress(w: WorkerView, e: EventView)
    requires
        step(w, e) is Some,
    ensures
        ({
            let (w2, a) = step(w, e)->0;
            &&& rank(w2.phase) > rank(w.phase)
            &&& w2.force == w.force
            &&& w2.record.token_uri == w.record.token_uri
            &&& !(e is Read) ==> keeps(w.record, w2.record)
            &&& a is Upsert ==> a->Upsert_0 == w2.record
            &&& e is Read ==> w.phase == Phase::Lookup(Stage::Json)
            &&& (w2.phase == Phase::Start || w2.phase == Phase::Lookup(Stage::Json)) ==> w.phase
                == Phase::Start
            &&& wf_phase(w.phase) ==> wf_phase(w2.phase)
            &&& (a is Done <==> w2.phase == Phase::Finished)
        }),
{
}

/// A finished worker takes no further event.
pub proof fn lemma_finished_is_final(w: WorkerView, e: EventView)
    requires
        w.phase == Phase::Finished,
    ensures
        step(w, e) is None,
{
}

/// A worker that is not finished always has an event that it accepts: the
/// answer to the work it asked for, whatever that answer is.
pub proof fn lemma_never_stuck(w: WorkerView)
    requires
        w.phase != Phase::Finished,
    ensures
        exists|e: EventView| #[trigger] step(w, e) is Some,
{
    let e = match w.phase {
        Phase::Start => EventView::Begin,
        Phase::Lookup(Stage::Json) => EventView::Read(StoredView::Failed),
        Phase::Lookup(_) => EventView::Looked(Lookup::Failed),
        Phase::Resolve(_) => EventView::Resolved(None),
        Phase::Fetch => EventView::JsonParsed(None),
        Phase::Optimize(_) => EventView::Optimized(None),
        Phase::Write(_) => EventView::Uploaded(None),
        _ => EventView::Committed,
    };
    assert(step(w, e) is Some);
}

/// The work of a run ends with its one `Done` at most: whatever failed on the
/// way, the entry is acknowledged once.
pub proof fn lemma_done_once(w: WorkerView, es: Seq<EventView>, k: int)
    requires
        0 <= k < run(w, es).1.len(),
        run(w, es).1[k] is Done,
    ensures
        k == run(w, es).1.len() - 1,
    decreases es.len(),
{
    if es.len() > 0 {
        match step(w, es[0]) {
            None => lemma_done_once(w, es.drop_first(), k),
            Some((w2, a)) => {
                lemma_step_progress(w, es[0]);
                if k == 0 {
                    lemma_finished_run_is_empty(w2, es.drop_first());
                } else {
                    lemma_done_once(w2, es.drop_first(), k - 1);
                }
            },
        }
    }
}

/// A parse asks for at most sixteen pieces of work: with
/// `lemma_never_stuck`, a driver that answers each one reaches `Done`.
pub proof fn lemma_run_is_short(w: WorkerView, es: Seq<EventView>)
    ensures
        run(w, es).1.len() <= 16 - rank(w.phase),
    decreases es.len(),
{
    if es.len() > 0 {
        match step(w, es[0]) {
            None => lemma_run_is_short(w, es.drop_first()),
            Some((w2, a)) => {
                lemma_step_progress(w, es[0]);
                lemma_run_is_short(w2, es.drop_first());
            },
        }
    }
}

proof fn lemma_finished_run_is_empty(w: WorkerView, es: Seq<EventView>)
    requires
        w.phase == Phase::Finished,
    ensures
        run(w, es).1.len() == 0,
        run(w, es).0 == w,
    decreases es.len(),
{
    if es.len() > 0 {
        lemma_finished_run_is_empty(w, es.drop_first());
    }
}

proof fn lemma_past_json_run(w: WorkerView, es: Seq<EventView>)
    requires
        json_done(w.phase),
    ensures
        forall|k: int|
            0 <= k < run(w, es).1.len() ==> !(#[trigger] run(w, es).1[k] is FetchJson)
                && !(run(w, es).1[k] is WriteJson),
    decreases es.len(),
{
    if es.len() > 0 {
        lemma_past_json_run(w, es.drop_first());
        if let Some((w2, a)) = step(w, es[0]) {
            lemma_past_json_run(w2, es.drop_first());
            let rest = run(w2, es.drop_first()).1;
            assert forall|k: int| 0 <= k < run(w, es).1.len() implies !(
            #[trigger] run(w, es).1[k] is FetchJson) && !(run(w, es).1[k] is WriteJson) by {
                if k > 0 {
                    assert(run(w, es).1[k] == rest[k - 1]);
                }
            }
        }
    }
}

/// Without force, a token URI that the store already holds costs no JSON
/// fetch and no JSON upload, whatever comes after.
pub proof fn lemma_known_token_skips_json_work(
    w: WorkerView,
    stored: RecordView,
    es: Seq<EventView>,
)
    requires
        w.phase == Phase::Start,
        !w.force,
        es.len() >= 2,
        es[0] == EventView::Begin,
        es[1] == EventView::Read(StoredView::Found(stored)),
    ensures
        forall|k: int|
            0 <= k < run(w, es).1.len() ==> !(#[trigger] run(w, es).1[k] is FetchJson)
                && !(run(w, es).1[k] is WriteJson),
{
    let (w1, a1) = step(w, es[0])->0;
    let (w2, a2) = step(w1, es[1])->0;
    let tail = es.drop_first().drop_first();
    assert(es.drop_first()[0] == es[1]);
    assert(es.drop_first().drop_first() == tail);
    lemma_past_json_run(w2, tail);
    let rest = run(w2, tail).1;
    assert(run(w1, es.drop_first()).1 == seq![a2] + rest);
    assert(run(w, es).1 == seq![a1] + (seq![a2] + rest));
    assert forall|k: int| 0 <= k < run(w, es).1.len() implies !(
    #[trigger] run(w, es).1[k] is FetchJson) && !(run(w, es).1[k] is WriteJson) by {
        if k > 1 {
            assert(run(w, es).1[k] == rest[k - 2]);
        }
    }
}

/// With force, no stage is skipped on the store's word: a run asks for no
/// image or animation lookup.
pub proof fn lemma_forced_never_looks_up(w: WorkerView, es: Seq<EventView>)
    requires
        w.force,
    ensures
        forall|k: int| 0 <= k < run(w, es).1.len() ==> !is_dedup_lookup(#[trigger] run(w, es).1[k]),
    decreases es.len(),
{
    if es.len() > 0 {
        lemma_forced_never_looks_up(w, es.drop_first());
        if let Some((w2, a)) = step(w, es[0]) {
            lemma_step_progress(w, es[0]);
            lemma_forced_never_looks_up(w2, es.drop_first());
            let rest = run(w2, es.drop_first()).1;
            assert forall|k: int| 0 <= k < run(w, es).1.len() implies !is_dedup_lookup(
                #[trigger] run(w, es).1[k],
            ) by {
                if k > 0 {
                    assert(run(w, es).1[k] == rest[k - 1]);
                } else {
                    assert(run(w, es).1[0] == a);
                    assert(!is_dedup_lookup(a));
                }
            }
        } else {
            assert(run(w, es) == run(w, es.drop_first()));
        }
    }
}

/// With force, each stage goes straight to its work: the JSON stage on
/// start, the image stage once the JSON stage is committed, and the
/// animation stage, where the record names an animation, once the image
/// stage is committed; a resolved URI then goes to its transformation.
pub proof fn lemma_forced_runs_every_stage(w: WorkerView)
    requires
        w.force,
    ensures
        w.phase == Phase::Start ==> step(w, EventView::Begin) == Some(
            (
                WorkerView { phase: Phase::Lookup(Stage::Json), ..w },
                ActionView::FindByTokenUri(w.record.token_uri),
            ),
        ),
        forall|r0: RecordView|
            w.phase == Phase::Lookup(Stage::Json) ==> #[trigger] step(
                w,
                EventView::Read(StoredView::Found(r0)),
            ) == Some(
                (
                    WorkerView {
                        phase: Phase::Resolve(Stage::Json),
                        record: adopted(r0, w.record.token_uri),
                        ..w
                    },
                    ActionView::ResolveUri(w.record.token_uri),
                ),
            ),
        w.phase == Phase::Lookup(Stage::Json) ==> step(w, EventView::Read(StoredView::Failed))
            == Some(
            (
                WorkerView { phase: Phase::Resolve(Stage::Json), ..w },
                ActionView::ResolveUri(w.record.token_uri),
            ),
        ),
        w.phase == Phase::Commit(Stage::Json) ==> step(w, EventView::Committed) == Some(
            (
                WorkerView { phase: Phase::Resolve(Stage::Image), ..w },
                ActionView::ResolveUri(source_uri(w.record, Stage::Image)),
            ),
        ),
        w.phase == Phase::Commit(Stage::Image) && w.record.raw_animation_uri is Some ==> step(
            w,
            EventView::Committed,
        ) == Some(
            (
                WorkerView { phase: Phase::Resolve(Stage::Animation), ..w },
                ActionView::ResolveUri(w.record.raw_animation_uri->0),
            ),
        ),
        w.phase == Phase::Resolve(Stage::Json) ==> forall|o: Option<Seq<char>>|
            { let (_w2, a) = (#[trigger] step(w, EventView::Resolved(o)))->0; a is FetchJson },
        w.phase is Resolve && w.phase != Phase::Resolve(Stage::Json) ==> forall|
            o: Option<Seq<char>>,
        | { let (_w2, a) = (#[trigger] step(w, EventView::Resolved(o)))->0; a is Optimize },
{
}

/// Two event sequences that agree but for the answers of store lookups.
pub open spec fn same_but_lookups(es1: Seq<EventView>, es2: Seq<EventView>) -> bool {
    &&& es1.len() == es2.len()
    &&& forall|k: int|
        0 <= k < es1.len() ==> #[trigger] es1[k] == es2[k] || (es1[k] is Looked && es2[k] is Looked)
}

/// With force, the store plays no part but through the record it hands back:
/// two runs of one work item on the same stored record and the same outcomes
/// of the outside work end with the same record and ask for the same work,
/// whatever the image and animation lookups would answer.
pub proof fn lemma_forced_run_repeatable(w: WorkerView, es1: Seq<EventView>, es2: Seq<EventView>)
    requires
        w.force,
        w.phase != Phase::Lookup(Stage::Image),
        w.phase != Phase::Lookup(Stage::Animation),
        same_but_lookups(es1, es2),
    ensures
        run(w, es1) == run(w, es2),
    decreases es1.len(),
{
    if es1.len() > 0 {
        let (t1, t2) = (es1.drop_first(), es2.drop_first());
        assert(same_but_lookups(t1, t2)) by {
            assert forall|k: int| 0 <= k < t1.len() implies #[trigger] t1[k] == t2[k] || (
            t1[k] is Looked && t2[k] is Looked) by {
                assert(t1[k] == es1[k + 1] && t2[k] == es2[k + 1]);
            }
        }
        assert(es1[0] == es2[0] || (es1[0] is Looked && es2[0] is Looked));
        match step(w, es1[0]) {
            None => lemma_forced_run_repeatable(w, t1, t2),
            Some((w2, a)) => {
                lemma_step_progress(w, es1[0]);
                lemma_forced_run_repeatable(w2, t1, t2);
            },
        }
    }
}

/// Two workers on one work item, past the token read, that may differ in the
/// record they went on from: in retry counters and CDN references, and in the
/// raw URIs until the JSON stage sets them.
pub open spec fn alike(wa: WorkerView, wb: WorkerView) -> bool {
    &&& wa.phase == wb.phase
    &&& wa.phase != Phase::Start
    &&& wa.phase != Phase::Lookup(Stage::Json)
    &&& wa.bucket == wb.bucket
    &&& wa.token_data_id == wb.token_data_id
    &&& wa.last_transaction_version == wb.last_transaction_version
    &&& wa.force == wb.force
    &&& wa.max_file_size_bytes == wb.max_file_size_bytes
    &&& wa.image_quality == wb.image_quality
    &&& wa.record.token_uri == wb.record.token_uri
    &&& !(wa.phase == Phase::Resolve(Stage::Json) || wa.phase == Phase::Fetch) ==> {
        &&& wa.record.raw_image_uri == wb.record.raw_image_uri
        &&& wa.record.raw_animation_uri == wb.record.raw_animation_uri
    }
}

/// Each CDN reference of `ea` and `eb` either is still the one of `ia` and
/// `ib`, or the two agree.
pub open spec fn cdn_kept_or_same(
    ia: RecordView,
    ib: RecordView,
    ea: RecordView,
    eb: RecordView,
) -> bool {
    &&& (ea.cdn_json_uri == ia.cdn_json_uri && eb.cdn_json_uri == ib.cdn_json_uri)
        || ea.cdn_json_uri == eb.cdn_json_uri
    &&& (ea.cdn_image_uri == ia.cdn_image_uri && eb.cdn_image_uri == ib.cdn_image_uri)
        || ea.cdn_image_uri == eb.cdn_image_uri
    &&& (ea.cdn_animation_uri == ia.cdn_animation_uri && eb.cdn_animation_uri
        == ib.cdn_animation_uri) || ea.cdn_animation_uri == eb.cdn_animation_uri
}

/// The state after an event; a refused event leaves it as it is.
pub open spec fn state_after(w: WorkerView, e: EventView) -> WorkerView {
    match step(w, e) {
        Some((w2, _)) => w2,
        None => w,
    }
}

proof fn lemma_alike_step(wa: WorkerView, wb: WorkerView, e: EventView)
    requires
        alike(wa, wb),
    ensures
        step(wa, e) is Some <==> step(wb, e) is Some,
        step(wa, e) is Some ==> alike(state_after(wa, e), state_after(wb, e)) && cdn_kept_or_same(
            wa.record,
            wb.record,
            state_after(wa, e).record,
            state_after(wb, e).record,
        ),
{
}

proof fn lemma_alike_run(wa: WorkerView, wb: WorkerView, es: Seq<EventView>)
    requires
        alike(wa, wb),
    ensures
        cdn_kept_or_same(wa.record, wb.record, run(wa, es).0.record, run(wb, es).0.record),
    decreases es.len(),
{
    if es.len() > 0 {
        lemma_alike_step(wa, wb, es[0]);
        match step(wa, es[0]) {
            None => lemma_alike_run(wa, wb, es.drop_first()),
            Some((wa2, _)) => {
                let wb2 = state_after(wb, es[0]);
                lemma_alike_run(wa2, wb2, es.drop_first());
            },
        }
    }
}

/// A forced run repeated on the same outcomes of the outside work, from the
/// record that the first run left in the store, ends with the same CDN
/// references: uploads may recur, the references they give do not change.
pub proof fn lemma_forced_rerun_keeps_cdn_uris(
    w: WorkerView,
    first_read: StoredView,
    outcomes: Seq<EventView>,
)
    requires
        w.phase == Phase::Lookup(Stage::Json),
        w.force,
    ensures
        ({
            let first = run(w, seq![EventView::Read(first_read)] + outcomes).0.record;
            let second = run(
                w,
                seq![EventView::Read(StoredView::Found(first))] + outcomes,
            ).0.record;
            &&& second.cdn_json_uri == first.cdn_json_uri
            &&& second.cdn_image_uri == first.cdn_image_uri
            &&& second.cdn_animation_uri == first.cdn_animation_uri
        }),
{
    let es1 = seq![EventView::Read(first_read)] + outcomes;
    assert(es1.drop_first() =~= outcomes);
    let wa = state_after(w, es1[0]);
    let first = run(w, es1).0.record;
    let es2 = seq![EventView::Read(StoredView::Found(first))] + outcomes;
    assert(es2.drop_first() =~= outcomes);
    let wb = state_after(w, es2[0]);
    assert(alike(wa, wb));
    lemma_alike_run(wa, wb, outcomes);
}

pub open spec fn all_json_failures(es: Seq<EventView>) -> bool {
    forall|k: int| 0 <= k < es.len() && (#[trigger] es[k]) is JsonParsed ==> es[k] == EventView::JsonParsed(None)
}

proof fn lemma_json_count_run(w: WorkerView, es: Seq<EventView>)
    requires
        wf_phase(w.phase),
        w.force,
        w.phase != Phase::Start,
        w.phase != Phase::Lookup(Stage::Json),
        all_json_failures(es),
    ensures
        ({
            let target = if json_done(w.phase) {
                w.record.json_parser_retry_count
            } else {
                bumped(w.record.json_parser_retry_count)
            };
            &&& run(w, es).0.phase == Phase::Finished ==> run(w, es).0.record.json_parser_retry_count
                == target
            &&& forall|k: int|
                0 <= k < run(w, es).1.len() && (#[trigger] run(w, es).1[k]) is Upsert
                    ==> run(w, es).1[k]->Upsert_0.json_parser_retry_count == target
        }),
    decreases es.len(),
{
    if es.len() > 0 {
        let tail = es.drop_first();
        assert(all_json_failures(tail)) by {
            assert forall|k: int| 0 <= k < tail.len() && (#[trigger] tail[k]) is JsonParsed implies tail[k]
                == EventView::JsonParsed(None) by {
                assert(tail[k] == es[k + 1]);
            }
        }
        match step(w, es[0]) {
            None => lemma_json_count_run(w, tail),
            Some((w2, a)) => {
                lemma_step_progress(w, es[0]);
                if w.phase == Phase::Fetch {
                    assert(es[0] == EventView::JsonParsed(None));
                }
                lemma_json_count_run(w2, tail);
                let rest = run(w2, tail).1;
                assert forall|k: int|
                    0 <= k < run(w, es).1.len() && (#[trigger] run(w, es).1[k]) is Upsert implies run(
                    w,
                    es,
                ).1[k]->Upsert_0.json_parser_retry_count == (if json_done(w.phase) {
                    w.record.json_parser_retry_count
                } else {
                    bumped(w.record.json_parser_retry_count)
                }) by {
                    if k > 0 {
                        assert(run(w, es).1[k] == rest[k - 1]);
                    }
                }
            },
        }
    }
}

/// The JSON retry counter that a run starts from: the stored one where the
/// token read found a record, the worker's own where there was none or the
/// read failed.
pub open spec fn start_json_count(w: WorkerView, stored: StoredView) -> u64 {
    match stored {
        StoredView::Found(r0) => r0.json_parser_retry_count,
        _ => w.record.json_parser_retry_count,
    }
}

/// Where the JSON parser fails on every attempt, a forced run raises the
/// stored JSON retry counter by exactly one: every upsert of the run writes
/// that count, and so does the record that a complete run ends with.
pub proof fn lemma_json_failure_counted_once(
    w: WorkerView,
    stored: StoredView,
    es: Seq<EventView>,
)
    requires
        w.phase == Phase::Lookup(Stage::Json),
        w.force,
        es.len() >= 1,
        es[0] == EventView::Read(stored),
        start_json_count(w, stored) < u64::MAX,
        all_json_failures(es),
    ensures
        run(w, es).0.phase == Phase::Finished ==> run(w, es).0.record.json_parser_retry_count
            == start_json_count(w, stored) + 1,
        forall|k: int|
            0 <= k < run(w, es).1.len() && (#[trigger] run(w, es).1[k]) is Upsert
                ==> run(w, es).1[k]->Upsert_0.json_parser_retry_count == start_json_count(w, stored)
                + 1,
{
    let tail = es.drop_first();
    assert(all_json_failures(tail)) by {
        assert forall|k: int| 0 <= k < tail.len() && (#[trigger] tail[k]) is JsonParsed implies tail[k]
            == EventView::JsonParsed(None) by {
            assert(tail[k] == es[k + 1]);
        }
    }
    let (w2, a) = step(w, es[0])->0;
    lemma_json_count_run(w2, tail);
    let rest = run(w2, tail).1;
    assert forall|k: int|
        0 <= k < run(w, es).1.len() && (#[trigger] run(w, es).1[k]) is Upsert implies run(w, es).1[k]->Upsert_0.json_parser_retry_count
        == start_json_count(w, stored) + 1 by {
        if k > 0 {
            assert(run(w, es).1[k] == rest[k - 1]);
        }
    }
}

proof fn lemma_upserts_keep(w: WorkerView, es: Seq<EventView>)
    requires
        w.phase != Phase::Start,
        w.phase != Phase::Lookup(Stage::Json),
    ensures
        keeps(w.record, run(w, es).0.record),
        forall|k: int|
            0 <= k < run(w, es).1.len() && (#[trigger] run(w, es).1[k]) is Upsert ==> keeps(
                w.record,
                run(w, es).1[k]->Upsert_0,
            ),
    decreases es.len(),
{
    if es.len() > 0 {
        let tail = es.drop_first();
        match step(w, es[0]) {
            None => lemma_upserts_keep(w, tail),
            Some((w2, a)) => {
                lemma_step_progress(w, es[0]);
                lemma_upserts_keep(w2, tail);
                let rest = run(w2, tail).1;
                assert forall|k: int|
                    0 <= k < run(w, es).1.len() && (#[trigger] run(w, es).1[k]) is Upsert implies keeps(
                    w.record,
                    run(w, es).1[k]->Upsert_0,
                ) by {
                    if k > 0 {
                        assert(run(w, es).1[k] == rest[k - 1]);
                    }
                }
            },
        }
    }
}

/// A run goes on from the record that the token read hands back, and never
/// goes back on it: every upsert, and the record the run ends with, keep
/// each stored retry counter at least as high and each stored CDN reference.
pub proof fn lemma_upserts_never_go_back(w: WorkerView, stored: RecordView, es: Seq<EventView>)
    requires
        w.phase == Phase::Lookup(Stage::Json),
        es.len() >= 1,
        es[0] == EventView::Read(StoredView::Found(stored)),
    ensures
        keeps(stored, run(w, es).0.record),
        forall|k: int|
            0 <= k < run(w, es).1.len() && (#[trigger] run(w, es).1[k]) is Upsert ==> keeps(
                stored,
                run(w, es).1[k]->Upsert_0,
            ),
{
    let tail = es.drop_first();
    let (w2, a) = step(w, es[0])->0;
    assert(w2.record == adopted(stored, w.record.token_uri));
    lemma_step_progress(w, es[0]);
    lemma_upserts_keep(w2, tail);
    let rest = run(w2, tail).1;
    assert forall|k: int|
        0 <= k < run(w, es).1.len() && (#[trigger] run(w, es).1[k]) is Upsert implies keeps(
        stored,
        run(w, es).1[k]->Upsert_0,
    ) by {
        if k > 0 {
            assert(run(w, es).1[k] == rest[k - 1]);
        }
    }
}

/// The animation stage fails open: a record found under the animation URI
/// ends the parse, while a failed lookup lets the optimizer run. The token
/// read and the image lookup fail closed: without force, a failure skips
/// their own stage only, and the parse goes on with the next one.
pub proof fn lemma_animation_lookup_fails_open(w: WorkerView)
    ensures
        w.phase == Phase::Lookup(Stage::Animation) ==> step(w, EventView::Looked(Lookup::Found))
            == Some(finish(w)),
        w.phase == Phase::Lookup(Stage::Animation) ==> step(w, EventView::Looked(Lookup::Failed))
            == Some(
            (
                WorkerView { phase: Phase::Resolve(Stage::Animation), ..w },
                ActionView::ResolveUri(source_uri(w.record, Stage::Animation)),
            ),
        ),
        w.phase == Phase::Resolve(Stage::Animation) ==> forall|o: Option<Seq<char>>|
            { let (_w2, a) = (#[trigger] step(w, EventView::Resolved(o)))->0; a is Optimize },
        w.phase == Phase::Lookup(Stage::Json) && !w.force ==> step(
            w,
            EventView::Read(StoredView::Failed),
        ) == Some(begin_stage(w, Stage::Image)),
        w.phase == Phase::Lookup(Stage::Image) ==> step(w, EventView::Looked(Lookup::Failed))
            == Some(begin_stage(w, Stage::Animation)),
{
}

} // verus!
