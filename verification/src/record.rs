//! The queue-file format: one task per line, each line one JSON object with
//! a fixed field order.
//!
//! The writers produce exactly the canonical form the spec functions give;
//! the parsers accept that canonical form and give back exactly the value
//! that was written, which the round-trip lemmas prove.
use crate::codec::{
    chars_to_string, dec_int, dec_nat, expect_lit, json_string, parse_i128, parse_json_string,
    parse_u128, parse_uuid, push_dec_i128, push_dec_u128, push_json_string, push_lit, push_uuid,
    sp_i128, sp_lit, sp_string, sp_u128, sp_uuid, string_to_chars, uuid_chars,
};
use crate::job::{Job, JobView, ProcessingType, SuccessView, ErrorView};
use crate::task::{Task, TaskResult, TaskResultView, TaskState, TaskView};
use crate::timestamp::NsTimestamp;
use crate::uuid_string::UuidString;
use crate::worker::{WorkerInfo, WorkerInfoView};
use vstd::prelude::*;

verus! {

broadcast use crate::timestamp::lemma_view_in_range;

// ---------------------------------------------------------------------------
// Spec encoders
// ---------------------------------------------------------------------------
/// A quoted UUID.
pub open spec fn json_of_uuid(u: u128) -> Seq<char> {
    seq!['"'] + uuid_chars(u) + seq!['"']
}

/// An optional number: `null` or its decimal notation.
pub open spec fn json_of_opt_int(v: Option<int>) -> Seq<char> {
    match v {
        None => "null"@,
        Some(x) => dec_int(x),
    }
}

/// An optional unsigned number: `null` or its decimal notation.
pub open spec fn json_of_opt_u64(v: Option<u64>) -> Seq<char> {
    match v {
        None => "null"@,
        Some(x) => dec_nat(x as nat),
    }
}

/// An optional text: `null` or a JSON string.
pub open spec fn json_of_opt_string(v: Option<Seq<char>>) -> Seq<char> {
    match v {
        None => "null"@,
        Some(s) => json_string(s),
    }
}

/// A task state, as its quoted tag.
pub open spec fn json_of_state(st: TaskState) -> Seq<char> {
    match st {
        TaskState::Queued => "\"queued\""@,
        TaskState::Working => "\"working\""@,
        TaskState::Done => "\"done\""@,
        TaskState::Failed => "\"failed\""@,
    }
}

/// A processing kind, as its quoted tag.
pub open spec fn json_of_ptype(p: ProcessingType) -> Seq<char> {
    match p {
        ProcessingType::CompressImportantVideo => "\"compress_important_video\""@,
        ProcessingType::CompressCrumpleVideo => "\"compress_crumple_video\""@,
        ProcessingType::CompressShredVideo => "\"compress_shred_video\""@,
    }
}

/// A job, as a tagged object carrying its details.
pub open spec fn json_of_job(j: JobView) -> Seq<char> {
    match j {
        JobView::Sleep { time_nanos } => "{\"type\":\"sleep\",\"details\":{\"time_nanos\":"@
            + dec_nat(time_nanos as nat) + "}}"@,
        JobView::DisplayMessage { message } => "{\"type\":\"display_message\",\"details\":{\"message\":"@
            + json_string(message) + "}}"@,
        JobView::DisplayMessageAndSleep { message, time_nanos } => "{\"type\":\"display_message_and_sleep\",\"details\":{\"message\":"@
            + json_string(message) + ",\"time_nanos\":"@ + dec_nat(time_nanos as nat) + "}}"@,
        JobView::CutVideo {
            source_proof_uuid,
            source_path,
            cut_point_start_ms,
            cut_point_end_ms,
            destination_path,
        } => "{\"type\":\"cut_video\",\"details\":{\"source_proof_uuid\":"@ + json_of_uuid(
            source_proof_uuid,
        ) + ",\"source_path\":"@ + json_string(source_path) + ",\"cut_point_start_ms\":"@
            + json_of_opt_u64(cut_point_start_ms) + ",\"cut_point_end_ms\":"@ + json_of_opt_u64(
            cut_point_end_ms,
        ) + ",\"destination_path\":"@ + json_string(destination_path) + "}}"@,
        JobView::ProcessVideo {
            source_proof_uuid,
            source_path,
            processing_type,
            destination_path,
        } => "{\"type\":\"process_video\",\"details\":{\"source_proof_uuid\":"@ + json_of_uuid(
            source_proof_uuid,
        ) + ",\"source_path\":"@ + json_string(source_path) + ",\"processing_type\":"@
            + json_of_ptype(processing_type) + ",\"destination_path\":"@ + json_string(
            destination_path,
        ) + "}}"@,
    }
}

/// A worker identity, as an object.
pub open spec fn json_of_worker(w: WorkerInfoView) -> Seq<char> {
    "{\"name\":"@ + json_string(w.name) + ",\"pid\":"@ + dec_nat(w.pid as nat)
        + ",\"birth_timestamp\":"@ + dec_int(w.birth_timestamp) + ",\"address\":"@ + json_string(
        w.address,
    ) + "}"@
}

/// An optional worker identity.
pub open spec fn json_of_opt_worker(w: Option<WorkerInfoView>) -> Seq<char> {
    match w {
        None => "null"@,
        Some(wi) => json_of_worker(wi),
    }
}

/// A success payload, as a tagged object.
pub open spec fn json_of_success(s: SuccessView) -> Seq<char> {
    match s {
        SuccessView::Void => "{\"type\":\"Void\"}"@,
        SuccessView::ProcessedVideo { dry, wet } => "{\"type\":\"ProcessedVideo\",\"details\":{\"dry\":"@
            + json_of_uuid(dry) + ",\"wet\":"@ + json_of_uuid(wet) + "}}"@,
        SuccessView::CutVideo { cloth, fragment } => "{\"type\":\"CutVideo\",\"details\":{\"cloth\":"@
            + json_of_uuid(cloth) + ",\"fragment\":"@ + json_of_uuid(fragment) + "}}"@,
    }
}

/// A job error, as a tagged object.
pub open spec fn json_of_jerror(e: ErrorView) -> Seq<char> {
    match e {
        ErrorView::UnknownError => "{\"type\":\"UnknownError\"}"@,
        ErrorView::LibraryError(m) => "{\"type\":\"LibraryError\",\"details\":"@ + json_string(
            m,
        ) + "}"@,
    }
}

/// A task outcome, as an object tagged success or error.
pub open spec fn json_of_result(r: TaskResultView) -> Seq<char> {
    match r {
        TaskResultView::Success(s) => "{\"success\":"@ + json_of_success(s) + "}"@,
        TaskResultView::Error(e) => "{\"error\":"@ + json_of_jerror(e) + "}"@,
    }
}

/// An optional task outcome.
pub open spec fn json_of_opt_result(r: Option<TaskResultView>) -> Seq<char> {
    match r {
        None => "null"@,
        Some(res) => json_of_result(res),
    }
}

/// The first half of a task record: identity, name, comment, job and state.
pub open spec fn json_of_task_head(t: TaskView) -> Seq<char> {
    "{\"uuid\":"@ + json_of_uuid(t.uuid) + ",\"name\":"@ + json_string(t.name) + ",\"comment\":"@
        + json_of_opt_string(t.comment) + ",\"job\":"@ + json_of_job(t.job) + ",\"state\":"@
        + json_of_state(t.state)
}

/// The second half of a task record: the timestamps, the worker and the
/// outcome.
pub open spec fn json_of_task_tail(t: TaskView) -> Seq<char> {
    ",\"request_timestamp\":"@ + dec_int(t.request_timestamp) + ",\"start_timestamp\":"@
        + json_of_opt_int(t.start_timestamp) + ",\"worker_info\":"@ + json_of_opt_worker(
        t.worker_info,
    ) + ",\"finish_timestamp\":"@ + json_of_opt_int(t.finish_timestamp) + ",\"result\":"@
        + json_of_opt_result(t.result) + "}"@
}

/// One task record: a JSON object with the fields in a fixed order.
pub open spec fn json_of_task(t: TaskView) -> Seq<char> {
    json_of_task_head(t) + json_of_task_tail(t)
}

/// A whole queue file: every task's record followed by a newline.
pub open spec fn json_of_queue(ts: Seq<TaskView>) -> Seq<char>
    decreases ts.len(),
{
    if ts.len() == 0 {
        Seq::empty()
    } else {
        json_of_task(ts[0]) + seq!['\n'] + json_of_queue(ts.drop_first())
    }
}

// ---------------------------------------------------------------------------
// Executable encoders
// ---------------------------------------------------------------------------
/// Appends a quoted UUID.
fn push_quoted_uuid(out: &mut Vec<char>, u: UuidString)
    ensures
        final(out)@ == old(out)@ + json_of_uuid(u@),
{
    out.push('"');
    push_uuid(out, u.0);
    out.push('"');
    assert(final(out)@ =~= old(out)@ + json_of_uuid(u@));
}

/// Appends `null` or the timestamp's decimal notation.
fn push_opt_timestamp(out: &mut Vec<char>, v: &Option<NsTimestamp>)
    ensures
        final(out)@ == old(out)@ + json_of_opt_int(
            match v {
                Some(t) => Some(t@),
                None => None,
            },
        ),
{
    match v {
        None => push_lit(out, "null"),
        Some(t) => push_dec_i128(out, t.as_nanos()),
    }
}

/// Appends `null` or the number's decimal notation.
fn push_opt_u64(out: &mut Vec<char>, v: &Option<u64>)
    ensures
        final(out)@ == old(out)@ + json_of_opt_u64(*v),
{
    match v {
        None => push_lit(out, "null"),
        Some(x) => push_dec_u128(out, *x as u128),
    }
}

/// Appends `null` or a JSON string.
fn push_opt_string(out: &mut Vec<char>, v: &Option<String>)
    ensures
        final(out)@ == old(out)@ + json_of_opt_string(
            match v {
                Some(s) => Some(s@),
                None => None,
            },
        ),
{
    match v {
        None => push_lit(out, "null"),
        Some(s) => push_json_string(out, s.as_str()),
    }
}

/// Appends the state's quoted tag.
fn push_state(out: &mut Vec<char>, st: TaskState)
    ensures
        final(out)@ == old(out)@ + json_of_state(st),
{
    match st {
        TaskState::Queued => push_lit(out, "\"queued\""),
        TaskState::Working => push_lit(out, "\"working\""),
        TaskState::Done => push_lit(out, "\"done\""),
        TaskState::Failed => push_lit(out, "\"failed\""),
    }
}

/// Appends the processing kind's quoted tag.
fn push_ptype(out: &mut Vec<char>, p: ProcessingType)
    ensures
        final(out)@ == old(out)@ + json_of_ptype(p),
{
    match p {
        ProcessingType::CompressImportantVideo => push_lit(out, "\"compress_important_video\""),
        ProcessingType::CompressCrumpleVideo => push_lit(out, "\"compress_crumple_video\""),
        ProcessingType::CompressShredVideo => push_lit(out, "\"compress_shred_video\""),
    }
}

/// Appends a job's tagged object.
#[verifier::rlimit(60)]
fn push_job(out: &mut Vec<char>, j: &Job)
    ensures
        final(out)@ == old(out)@ + json_of_job(j@),
{
    match j {
        Job::Sleep { time_nanos } => {
            push_lit(out, "{\"type\":\"sleep\",\"details\":{\"time_nanos\":");
            push_dec_u128(out, *time_nanos as u128);
            push_lit(out, "}}");
            assert(final(out)@ =~= old(out)@ + json_of_job(j@));
        },
        Job::DisplayMessage { message } => {
            push_lit(out, "{\"type\":\"display_message\",\"details\":{\"message\":");
            push_json_string(out, message.as_str());
            push_lit(out, "}}");
            assert(final(out)@ =~= old(out)@ + json_of_job(j@));
        },
        Job::DisplayMessageAndSleep { message, time_nanos } => {
            push_lit(out, "{\"type\":\"display_message_and_sleep\",\"details\":{\"message\":");
            push_json_string(out, message.as_str());
            push_lit(out, ",\"time_nanos\":");
            push_dec_u128(out, *time_nanos as u128);
            push_lit(out, "}}");
            assert(final(out)@ =~= old(out)@ + json_of_job(j@));
        },
        Job::CutVideo {
            source_proof_uuid,
            source_path,
            cut_point_start_ms,
            cut_point_end_ms,
            destination_path,
        } => {
            push_lit(out, "{\"type\":\"cut_video\",\"details\":{\"source_proof_uuid\":");
            push_quoted_uuid(out, *source_proof_uuid);
            push_lit(out, ",\"source_path\":");
            push_json_string(out, source_path.as_str());
            push_lit(out, ",\"cut_point_start_ms\":");
            push_opt_u64(out, cut_point_start_ms);
            push_lit(out, ",\"cut_point_end_ms\":");
            push_opt_u64(out, cut_point_end_ms);
            push_lit(out, ",\"destination_path\":");
            push_json_string(out, destination_path.as_str());
            push_lit(out, "}}");
            assert(final(out)@ =~= old(out)@ + json_of_job(j@));
        },
        Job::ProcessVideo {
            source_proof_uuid,
            source_path,
            processing_type,
            destination_path,
        } => {
            push_lit(out, "{\"type\":\"process_video\",\"details\":{\"source_proof_uuid\":");
            push_quoted_uuid(out, *source_proof_uuid);
            push_lit(out, ",\"source_path\":");
            push_json_string(out, source_path.as_str());
            push_lit(out, ",\"processing_type\":");
            push_ptype(out, *processing_type);
            push_lit(out, ",\"destination_path\":");
            push_json_string(out, destination_path.as_str());
            push_lit(out, "}}");
            assert(final(out)@ =~= old(out)@ + json_of_job(j@));
        },
    }
}

/// Appends a worker identity's object.
fn push_worker(out: &mut Vec<char>, w: &WorkerInfo)
    ensures
        final(out)@ == old(out)@ + json_of_worker(w@),
{
    push_lit(out, "{\"name\":");
    push_json_string(out, w.name.as_str());
    push_lit(out, ",\"pid\":");
    push_dec_u128(out, w.pid as u128);
    push_lit(out, ",\"birth_timestamp\":");
    push_dec_i128(out, w.birth_timestamp.as_nanos());
    push_lit(out, ",\"address\":");
    push_json_string(out, w.address.as_str());
    push_lit(out, "}");
    assert(final(out)@ =~= old(out)@ + json_of_worker(w@));
}

/// Appends a task outcome's tagged object.
fn push_result(out: &mut Vec<char>, r: &TaskResult)
    ensures
        final(out)@ == old(out)@ + json_of_result(r@),
{
    match r {
        TaskResult::Success(s) => {
            push_lit(out, "{\"success\":");
            match s {
                crate::job::Success::Void => {
                    push_lit(out, "{\"type\":\"Void\"}");
                },
                crate::job::Success::ProcessedVideo { dry, wet } => {
                    push_lit(out, "{\"type\":\"ProcessedVideo\",\"details\":{\"dry\":");
                    push_quoted_uuid(out, *dry);
                    push_lit(out, ",\"wet\":");
                    push_quoted_uuid(out, *wet);
                    push_lit(out, "}}");
                },
                crate::job::Success::CutVideo { cloth, fragment } => {
                    push_lit(out, "{\"type\":\"CutVideo\",\"details\":{\"cloth\":");
                    push_quoted_uuid(out, *cloth);
                    push_lit(out, ",\"fragment\":");
                    push_quoted_uuid(out, *fragment);
                    push_lit(out, "}}");
                },
            }
            push_lit(out, "}");
            assert(final(out)@ =~= old(out)@ + json_of_result(r@));
        },
        TaskResult::Error(e) => {
            push_lit(out, "{\"error\":");
            match e {
                crate::job::Error::UnknownError => {
                    push_lit(out, "{\"type\":\"UnknownError\"}");
                },
                crate::job::Error::LibraryError(m) => {
                    push_lit(out, "{\"type\":\"LibraryError\",\"details\":");
                    push_json_string(out, m.as_str());
                    push_lit(out, "}");
                },
            }
            push_lit(out, "}");
            assert(final(out)@ =~= old(out)@ + json_of_result(r@));
        },
    }
}

/// Appends one task record.
pub fn push_task(out: &mut Vec<char>, t: &Task)
    ensures
        final(out)@ == old(out)@ + json_of_task(t@),
{
    let ghost base = old(out)@;
    let ghost mut acc: Seq<char> = "{\"uuid\":"@;
    push_lit(out, "{\"uuid\":");
    push_quoted_uuid(out, t.uuid);
    proof {
        crate::codec::lemma_concat_shift(base, acc, json_of_uuid(t@.uuid));
        acc = acc + json_of_uuid(t@.uuid);
    }
    push_lit(out, ",\"name\":");
    proof {
        crate::codec::lemma_concat_shift(base, acc, ",\"name\":"@);
        acc = acc + ",\"name\":"@;
    }
    push_json_string(out, t.name.as_str());
    proof {
        crate::codec::lemma_concat_shift(base, acc, json_string(t@.name));
        acc = acc + json_string(t@.name);
    }
    push_lit(out, ",\"comment\":");
    proof {
        crate::codec::lemma_concat_shift(base, acc, ",\"comment\":"@);
        acc = acc + ",\"comment\":"@;
    }
    push_opt_string(out, &t.comment);
    proof {
        crate::codec::lemma_concat_shift(base, acc, json_of_opt_string(t@.comment));
        acc = acc + json_of_opt_string(t@.comment);
    }
    push_lit(out, ",\"job\":");
    proof {
        crate::codec::lemma_concat_shift(base, acc, ",\"job\":"@);
        acc = acc + ",\"job\":"@;
    }
    push_job(out, &t.job);
    proof {
        crate::codec::lemma_concat_shift(base, acc, json_of_job(t@.job));
        acc = acc + json_of_job(t@.job);
    }
    push_lit(out, ",\"state\":");
    proof {
        crate::codec::lemma_concat_shift(base, acc, ",\"state\":"@);
        acc = acc + ",\"state\":"@;
    }
    push_state(out, t.state);
    proof {
        crate::codec::lemma_concat_shift(base, acc, json_of_state(t@.state));
        acc = acc + json_of_state(t@.state);
    }
    let ghost head = acc;
    let ghost base2 = base + head;
    proof {
        assert(head == json_of_task_head(t@));
        assert(out@ == base2);
    }
    push_lit(out, ",\"request_timestamp\":");
    proof {
        acc = ",\"request_timestamp\":"@;
    }
    push_dec_i128(out, t.request_timestamp.as_nanos());
    proof {
        crate::codec::lemma_concat_shift(base2, acc, dec_int(t@.request_timestamp));
        acc = acc + dec_int(t@.request_timestamp);
    }
    push_lit(out, ",\"start_timestamp\":");
    proof {
        crate::codec::lemma_concat_shift(base2, acc, ",\"start_timestamp\":"@);
        acc = acc + ",\"start_timestamp\":"@;
    }
    push_opt_timestamp(out, &t.start_timestamp);
    proof {
        crate::codec::lemma_concat_shift(base2, acc, json_of_opt_int(t@.start_timestamp));
        acc = acc + json_of_opt_int(t@.start_timestamp);
    }
    push_lit(out, ",\"worker_info\":");
    proof {
        crate::codec::lemma_concat_shift(base2, acc, ",\"worker_info\":"@);
        acc = acc + ",\"worker_info\":"@;
    }
    match &t.worker_info {
        None => {
            push_lit(out, "null");
            assert(json_of_opt_worker(t@.worker_info) == "null"@);
        },
        Some(w) => {
            push_worker(out, w);
            assert(json_of_opt_worker(t@.worker_info) == json_of_worker(w@));
        },
    }
    proof {
        crate::codec::lemma_concat_shift(base2, acc, json_of_opt_worker(t@.worker_info));
        acc = acc + json_of_opt_worker(t@.worker_info);
    }
    push_lit(out, ",\"finish_timestamp\":");
    proof {
        crate::codec::lemma_concat_shift(base2, acc, ",\"finish_timestamp\":"@);
        acc = acc + ",\"finish_timestamp\":"@;
    }
    push_opt_timestamp(out, &t.finish_timestamp);
    proof {
        crate::codec::lemma_concat_shift(base2, acc, json_of_opt_int(t@.finish_timestamp));
        acc = acc + json_of_opt_int(t@.finish_timestamp);
    }
    push_lit(out, ",\"result\":");
    proof {
        crate::codec::lemma_concat_shift(base2, acc, ",\"result\":"@);
        acc = acc + ",\"result\":"@;
    }
    match &t.result {
        None => {
            push_lit(out, "null");
            assert(json_of_opt_result(t@.result) == "null"@);
        },
        Some(r) => {
            push_result(out, r);
            assert(json_of_opt_result(t@.result) == json_of_result(r@));
        },
    }
    proof {
        crate::codec::lemma_concat_shift(base2, acc, json_of_opt_result(t@.result));
        acc = acc + json_of_opt_result(t@.result);
    }
    push_lit(out, "}");
    proof {
        crate::codec::lemma_concat_shift(base2, acc, "}"@);
        acc = acc + "}"@;
        assert(acc == json_of_task_tail(t@));
        assert(out@ == base2 + acc);
        crate::codec::lemma_concat_shift(base, head, acc);
        assert(out@ == base + json_of_task(t@));
    }
}

/// The whole queue file's text: every task's record on its own line.
pub fn queue_to_text(tasks: &Vec<Task>) -> (r: String)
    ensures
        r@ == json_of_queue(tasks@.map_values(|t: Task| t@)),
{
    let n = tasks.len();
    let mut out: Vec<char> = Vec::new();
    let mut k: usize = 0;
    while k < n
        invariant
            n == tasks@.len(),
            k <= n,
            out@ == json_of_queue(tasks@.map_values(|t: Task| t@).subrange(0, k as int)),
        decreases n - k,
    {
        push_task(&mut out, &tasks[k]);
        out.push('\n');
        proof {
            let views = tasks@.map_values(|t: Task| t@);
            lemma_json_of_queue_snoc(views.subrange(0, k as int), views[k as int]);
            assert(views.subrange(0, k + 1 as int) =~= views.subrange(0, k as int).push(
                views[k as int],
            ));
        }
        k = k + 1;
    }
    proof {
        let views = tasks@.map_values(|t: Task| t@);
        assert(views.subrange(0, n as int) =~= views);
    }
    chars_to_string(&out)
}

/// Rendering one more task appends its record and a newline.
proof fn lemma_json_of_queue_snoc(ts: Seq<TaskView>, t: TaskView)
    ensures
        json_of_queue(ts.push(t)) == json_of_queue(ts) + json_of_task(t) + seq!['\n'],
    decreases ts.len(),
{
    if ts.len() == 0 {
        assert(ts.push(t)[0] == t);
        assert(ts.push(t).drop_first() =~= Seq::<TaskView>::empty());
        assert(json_of_queue(ts.push(t)) == json_of_task(t) + seq!['\n'] + json_of_queue(
            Seq::<TaskView>::empty(),
        ));
        assert(json_of_task(t) + seq!['\n'] + json_of_queue(Seq::<TaskView>::empty()) =~= json_of_queue(
            ts,
        ) + json_of_task(t) + seq!['\n']);
    } else {
        assert(ts.push(t)[0] == ts[0]);
        assert(ts.push(t).drop_first() =~= ts.drop_first().push(t));
        lemma_json_of_queue_snoc(ts.drop_first(), t);
        assert(json_of_queue(ts.push(t)) == json_of_task(ts[0]) + seq!['\n'] + (json_of_queue(
            ts.drop_first(),
        ) + json_of_task(t) + seq!['\n']));
        assert(json_of_task(ts[0]) + seq!['\n'] + (json_of_queue(ts.drop_first()) + json_of_task(t)
            + seq!['\n']) =~= (json_of_task(ts[0]) + seq!['\n'] + json_of_queue(ts.drop_first()))
            + json_of_task(t) + seq!['\n']);
    }
}

} // verus!

verus! {

// ---------------------------------------------------------------------------
// Spec parsers
// ---------------------------------------------------------------------------
/// Parses `null` or a signed number.
pub open spec fn sp_opt_i128(s: Seq<char>, i: int) -> Option<(Option<int>, int)> {
    match sp_lit(s, i, "null"@) {
        Some(j) => Some((None, j)),
        None => match sp_i128(s, i) {
            Some((v, j)) => Some((Some(v), j)),
            None => None,
        },
    }
}

/// Parses an unsigned number that fits a `u64`.
pub open spec fn sp_u64(s: Seq<char>, i: int) -> Option<(u64, int)> {
    match sp_u128(s, i) {
        Some((v, j)) => if v <= u64::MAX {
            Some((v as u64, j))
        } else {
            None
        },
        None => None,
    }
}

/// Parses an unsigned number that fits a `u32`.
pub open spec fn sp_u32(s: Seq<char>, i: int) -> Option<(u32, int)> {
    match sp_u128(s, i) {
        Some((v, j)) => if v <= u32::MAX {
            Some((v as u32, j))
        } else {
            None
        },
        None => None,
    }
}

/// Parses `null` or an unsigned number that fits a `u64`.
pub open spec fn sp_opt_u64(s: Seq<char>, i: int) -> Option<(Option<u64>, int)> {
    match sp_lit(s, i, "null"@) {
        Some(j) => Some((None, j)),
        None => match sp_u64(s, i) {
            Some((v, j)) => Some((Some(v), j)),
            None => None,
        },
    }
}

/// Parses `null` or a JSON string.
pub open spec fn sp_opt_string(s: Seq<char>, i: int) -> Option<(Option<Seq<char>>, int)> {
    match sp_lit(s, i, "null"@) {
        Some(j) => Some((None, j)),
        None => match sp_string(s, i) {
            Some((v, j)) => Some((Some(v), j)),
            None => None,
        },
    }
}

/// Parses a quoted UUID.
pub open spec fn sp_quoted_uuid(s: Seq<char>, i: int) -> Option<(u128, int)> {
    match sp_lit(s, i, "\""@) {
        Some(j) => match sp_uuid(s, j) {
            Some((u, j2)) => match sp_lit(s, j2, "\""@) {
                Some(j3) => Some((u, j3)),
                None => None,
            },
            None => None,
        },
        None => None,
    }
}

/// Parses a task state's quoted tag.
pub open spec fn sp_state(s: Seq<char>, i: int) -> Option<(TaskState, int)> {
    match sp_lit(s, i, "\"queued\""@) {
        Some(j) => Some((TaskState::Queued, j)),
        None => match sp_lit(s, i, "\"working\""@) {
            Some(j) => Some((TaskState::Working, j)),
            None => match sp_lit(s, i, "\"done\""@) {
                Some(j) => Some((TaskState::Done, j)),
                None => match sp_lit(s, i, "\"failed\""@) {
                    Some(j) => Some((TaskState::Failed, j)),
                    None => None,
                },
            },
        },
    }
}

/// Parses a processing kind's quoted tag.
pub open spec fn sp_ptype(s: Seq<char>, i: int) -> Option<(ProcessingType, int)> {
    match sp_lit(s, i, "\"compress_important_video\""@) {
        Some(j) => Some((ProcessingType::CompressImportantVideo, j)),
        None => match sp_lit(s, i, "\"compress_crumple_video\""@) {
            Some(j) => Some((ProcessingType::CompressCrumpleVideo, j)),
            None => match sp_lit(s, i, "\"compress_shred_video\""@) {
                Some(j) => Some((ProcessingType::CompressShredVideo, j)),
                None => None,
            },
        },
    }
}

/// Parses a job's tagged object.
pub open spec fn sp_job(s: Seq<char>, i: int) -> Option<(JobView, int)> {
    match sp_lit(s, i, "{\"type\":\"sleep\",\"details\":{\"time_nanos\":"@) {
        Some(j) => match sp_u64(s, j) {
            Some((t, j2)) => match sp_lit(s, j2, "}}"@) {
                Some(j3) => Some((JobView::Sleep { time_nanos: t }, j3)),
                None => None,
            },
            None => None,
        },
        None => match sp_lit(s, i, "{\"type\":\"display_message\",\"details\":{\"message\":"@) {
            Some(j) => match sp_string(s, j) {
                Some((m, j2)) => match sp_lit(s, j2, "}}"@) {
                    Some(j3) => Some((JobView::DisplayMessage { message: m }, j3)),
                    None => None,
                },
                None => None,
            },
            None => match sp_lit(
                s,
                i,
                "{\"type\":\"display_message_and_sleep\",\"details\":{\"message\":"@,
            ) {
                Some(j) => match sp_string(s, j) {
                    Some((m, j2)) => match sp_lit(s, j2, ",\"time_nanos\":"@) {
                        Some(j3) => match sp_u64(s, j3) {
                            Some((t, j4)) => match sp_lit(s, j4, "}}"@) {
                                Some(j5) => Some(
                                    (JobView::DisplayMessageAndSleep { message: m, time_nanos: t }, j5),
                                ),
                                None => None,
                            },
                            None => None,
                        },
                        None => None,
                    },
                    None => None,
                },
                None => match sp_lit(
                    s,
                    i,
                    "{\"type\":\"cut_video\",\"details\":{\"source_proof_uuid\":"@,
                ) {
                    Some(j) => match sp_quoted_uuid(s, j) {
                        Some((u, j2)) => match sp_lit(s, j2, ",\"source_path\":"@) {
                            Some(j3) => match sp_string(s, j3) {
                                Some((sp_, j4)) => match sp_lit(s, j4, ",\"cut_point_start_ms\":"@) {
                                    Some(j5) => match sp_opt_u64(s, j5) {
                                        Some((c1, j6)) => match sp_lit(
                                            s,
                                            j6,
                                            ",\"cut_point_end_ms\":"@,
                                        ) {
                                            Some(j7) => match sp_opt_u64(s, j7) {
                                                Some((c2, j8)) => match sp_lit(
                                                    s,
                                                    j8,
                                                    ",\"destination_path\":"@,
                                                ) {
                                                    Some(j9) => match sp_string(s, j9) {
                                                        Some((dp, j10)) => match sp_lit(
                                                            s,
                                                            j10,
                                                            "}}"@,
                                                        ) {
                                                            Some(j11) => Some(
                                                                (
                                                                    JobView::CutVideo {
                                                                        source_proof_uuid: u,
                                                                        source_path: sp_,
                                                                        cut_point_start_ms: c1,
                                                                        cut_point_end_ms: c2,
                                                                        destination_path: dp,
                                                                    },
                                                                    j11,
                                                                ),
                                                            ),
                                                            None => None,
                                                        },
                                                        None => None,
                                                    },
                                                    None => None,
                                                },
                                                None => None,
                                            },
                                            None => None,
                                        },
                                        None => None,
                                    },
                                    None => None,
                                },
                                None => None,
                            },
                            None => None,
                        },
                        None => None,
                    },
                    None => match sp_lit(
                        s,
                        i,
                        "{\"type\":\"process_video\",\"details\":{\"source_proof_uuid\":"@,
                    ) {
                        Some(j) => match sp_quoted_uuid(s, j) {
                            Some((u, j2)) => match sp_lit(s, j2, ",\"source_path\":"@) {
                                Some(j3) => match sp_string(s, j3) {
                                    Some((sp_, j4)) => match sp_lit(s, j4, ",\"processing_type\":"@) {
                                        Some(j5) => match sp_ptype(s, j5) {
                                            Some((pt, j6)) => match sp_lit(
                                                s,
                                                j6,
                                                ",\"destination_path\":"@,
                                            ) {
                                                Some(j7) => match sp_string(s, j7) {
                                                    Some((dp, j8)) => match sp_lit(s, j8, "}}"@) {
                                                        Some(j9) => Some(
                                                            (
                                                                JobView::ProcessVideo {
                                                                    source_proof_uuid: u,
                                                                    source_path: sp_,
                                                                    processing_type: pt,
                                                                    destination_path: dp,
                                                                },
                                                                j9,
                                                            ),
                                                        ),
                                                        None => None,
                                                    },
                                                    None => None,
                                                },
                                                None => None,
                                            },
                                            None => None,
                                        },
                                        None => None,
                                    },
                                    None => None,
                                },
                                None => None,
                            },
                            None => None,
                        },
                        None => None,
                    },
                },
            },
        },
    }
}

/// Parses a worker identity's object.
pub open spec fn sp_worker(s: Seq<char>, i: int) -> Option<(WorkerInfoView, int)> {
    match sp_lit(s, i, "{\"name\":"@) {
        Some(j) => match sp_string(s, j) {
            Some((nm, j2)) => match sp_lit(s, j2, ",\"pid\":"@) {
                Some(j3) => match sp_u32(s, j3) {
                    Some((pid, j4)) => match sp_lit(s, j4, ",\"birth_timestamp\":"@) {
                        Some(j5) => match sp_i128(s, j5) {
                            Some((bt, j6)) => match sp_lit(s, j6, ",\"address\":"@) {
                                Some(j7) => match sp_string(s, j7) {
                                    Some((ad, j8)) => match sp_lit(s, j8, "}"@) {
                                        Some(j9) => Some(
                                            (
                                                WorkerInfoView {
                                                    name: nm,
                                                    pid: pid,
                                                    birth_timestamp: bt,
                                                    address: ad,
                                                },
                                                j9,
                                            ),
                                        ),
                                        None => None,
                                    },
                                    None => None,
                                },
                                None => None,
                            },
                            None => None,
                        },
                        None => None,
                    },
                    None => None,
                },
                None => None,
            },
            None => None,
        },
        None => None,
    }
}

/// Parses `null` or a worker identity.
pub open spec fn sp_opt_worker(s: Seq<char>, i: int) -> Option<(Option<WorkerInfoView>, int)> {
    match sp_lit(s, i, "null"@) {
        Some(j) => Some((None, j)),
        None => match sp_worker(s, i) {
            Some((w, j)) => Some((Some(w), j)),
            None => None,
        },
    }
}

/// Parses a success payload's tagged object.
pub open spec fn sp_success(s: Seq<char>, i: int) -> Option<(SuccessView, int)> {
    match sp_lit(s, i, "{\"type\":\"Void\"}"@) {
        Some(j) => Some((SuccessView::Void, j)),
        None => match sp_lit(s, i, "{\"type\":\"ProcessedVideo\",\"details\":{\"dry\":"@) {
            Some(j) => match sp_quoted_uuid(s, j) {
                Some((d, j2)) => match sp_lit(s, j2, ",\"wet\":"@) {
                    Some(j3) => match sp_quoted_uuid(s, j3) {
                        Some((w, j4)) => match sp_lit(s, j4, "}}"@) {
                            Some(j5) => Some((SuccessView::ProcessedVideo { dry: d, wet: w }, j5)),
                            None => None,
                        },
                        None => None,
                    },
                    None => None,
                },
                None => None,
            },
            None => match sp_lit(s, i, "{\"type\":\"CutVideo\",\"details\":{\"cloth\":"@) {
                Some(j) => match sp_quoted_uuid(s, j) {
                    Some((c, j2)) => match sp_lit(s, j2, ",\"fragment\":"@) {
                        Some(j3) => match sp_quoted_uuid(s, j3) {
                            Some((f, j4)) => match sp_lit(s, j4, "}}"@) {
                                Some(j5) => Some(
                                    (SuccessView::CutVideo { cloth: c, fragment: f }, j5),
                                ),
                                None => None,
                            },
                            None => None,
                        },
                        None => None,
                    },
                    None => None,
                },
                None => None,
            },
        },
    }
}

/// Parses a job error's tagged object.
pub open spec fn sp_jerror(s: Seq<char>, i: int) -> Option<(ErrorView, int)> {
    match sp_lit(s, i, "{\"type\":\"UnknownError\"}"@) {
        Some(j) => Some((ErrorView::UnknownError, j)),
        None => match sp_lit(s, i, "{\"type\":\"LibraryError\",\"details\":"@) {
            Some(j) => match sp_string(s, j) {
                Some((m, j2)) => match sp_lit(s, j2, "}"@) {
                    Some(j3) => Some((ErrorView::LibraryError(m), j3)),
                    None => None,
                },
                None => None,
            },
            None => None,
        },
    }
}

/// Parses a task outcome's tagged object.
pub open spec fn sp_result(s: Seq<char>, i: int) -> Option<(TaskResultView, int)> {
    match sp_lit(s, i, "{\"success\":"@) {
        Some(j) => match sp_success(s, j) {
            Some((sv, j2)) => match sp_lit(s, j2, "}"@) {
                Some(j3) => Some((TaskResultView::Success(sv), j3)),
                None => None,
            },
            None => None,
        },
        None => match sp_lit(s, i, "{\"error\":"@) {
            Some(j) => match sp_jerror(s, j) {
                Some((ev, j2)) => match sp_lit(s, j2, "}"@) {
                    Some(j3) => Some((TaskResultView::Error(ev), j3)),
                    None => None,
                },
                None => None,
            },
            None => None,
        },
    }
}

/// Parses `null` or a task outcome.
pub open spec fn sp_opt_result(s: Seq<char>, i: int) -> Option<(Option<TaskResultView>, int)> {
    match sp_lit(s, i, "null"@) {
        Some(j) => Some((None, j)),
        None => match sp_result(s, i) {
            Some((r, j)) => Some((Some(r), j)),
            None => None,
        },
    }
}

/// Parses the first half of a task record: identity, name, comment, job
/// and state.
pub open spec fn sp_task_head(s: Seq<char>, i: int) -> Option<
    ((u128, Seq<char>, Option<Seq<char>>, JobView, TaskState), int),
> {
    match sp_lit(s, i, "{\"uuid\":"@) {
        Some(j1) => match sp_quoted_uuid(s, j1) {
            Some((uuid, j2)) => match sp_lit(s, j2, ",\"name\":"@) {
                Some(j3) => match sp_string(s, j3) {
                    Some((name, j4)) => match sp_lit(s, j4, ",\"comment\":"@) {
                        Some(j5) => match sp_opt_string(s, j5) {
                            Some((comment, j6)) => match sp_lit(s, j6, ",\"job\":"@) {
                                Some(j7) => match sp_job(s, j7) {
                                    Some((job, j8)) => match sp_lit(s, j8, ",\"state\":"@) {
                                        Some(j9) => match sp_state(s, j9) {
                                            Some((state, j10)) => Some(
                                                ((uuid, name, comment, job, state), j10),
                                            ),
                                            None => None,
                                        },
                                        None => None,
                                    },
                                    None => None,
                                },
                                None => None,
                            },
                            None => None,
                        },
                        None => None,
                    },
                    None => None,
                },
                None => None,
            },
            None => None,
        },
        None => None,
    }
}

/// Parses the second half of a task record: the timestamps, the worker and
/// the outcome.
pub open spec fn sp_task_tail(s: Seq<char>, i: int) -> Option<
    (
        (
            int,
            Option<int>,
            Option<WorkerInfoView>,
            Option<int>,
            Option<TaskResultView>,
        ),
        int,
    ),
> {
    match sp_lit(s, i, ",\"request_timestamp\":"@) {
        Some(j11) => match sp_i128(s, j11) {
            Some((rt, j12)) => match sp_lit(s, j12, ",\"start_timestamp\":"@) {
                Some(j13) => match sp_opt_i128(s, j13) {
                    Some((st, j14)) => match sp_lit(s, j14, ",\"worker_info\":"@) {
                        Some(j15) => match sp_opt_worker(s, j15) {
                            Some((wi, j16)) => match sp_lit(s, j16, ",\"finish_timestamp\":"@) {
                                Some(j17) => match sp_opt_i128(s, j17) {
                                    Some((ft, j18)) => match sp_lit(s, j18, ",\"result\":"@) {
                                        Some(j19) => match sp_opt_result(s, j19) {
                                            Some((res, j20)) => match sp_lit(s, j20, "}"@) {
                                                Some(j21) => Some(((rt, st, wi, ft, res), j21)),
                                                None => None,
                                            },
                                            None => None,
                                        },
                                        None => None,
                                    },
                                    None => None,
                                },
                                None => None,
                            },
                            None => None,
                        },
                        None => None,
                    },
                    None => None,
                },
                None => None,
            },
            None => None,
        },
        None => None,
    }
}

/// Parses one task record.
pub open spec fn sp_task(s: Seq<char>, i: int) -> Option<(TaskView, int)> {
    match sp_task_head(s, i) {
        Some(((uuid, name, comment, job, state), j10)) => match sp_task_tail(s, j10) {
            Some(((rt, st, wi, ft, res), j21)) => Some(
                (
                    TaskView {
                        uuid,
                        name,
                        comment,
                        job,
                        state,
                        request_timestamp: rt,
                        start_timestamp: st,
                        worker_info: wi,
                        finish_timestamp: ft,
                        result: res,
                    },
                    j21,
                ),
            ),
            None => None,
        },
        None => None,
    }
}

/// Parses a whole queue file: task records, each closed by a newline, up to
/// the end of the text.
pub open spec fn sp_queue(s: Seq<char>, i: int) -> Option<Seq<TaskView>>
    decreases s.len() - i,
{
    if i == s.len() {
        Some(Seq::empty())
    } else if i < 0 || i > s.len() {
        None
    } else {
        match sp_task(s, i) {
            Some((t, j)) => if i < j {
                match sp_lit(s, j, "\n"@) {
                    Some(j2) => if j < j2 <= s.len() {
                        match sp_queue(s, j2) {
                            Some(ts) => Some(seq![t] + ts),
                            None => None,
                        }
                    } else {
                        None
                    },
                    None => None,
                }
            } else {
                None
            },
            None => None,
        }
    }
}

} // verus!

verus! {

// ---------------------------------------------------------------------------
// Executable parsers
// ---------------------------------------------------------------------------
/// Parses `null` or a timestamp value.
fn parse_opt_timestamp(s: &Vec<char>, i: usize) -> (r: Option<(Option<i128>, usize)>)
    ensures
        match r {
            Some((v, j)) => sp_opt_i128(s@, i as int) == Some(
                (
                    match v {
                        Some(x) => Some(x as int),
                        None => None,
                    },
                    j as int,
                ),
            ),
            None => sp_opt_i128(s@, i as int) is None,
        },
{
    match expect_lit(s, i, "null") {
        Some(j) => Some((None, j)),
        None => match parse_i128(s, i) {
            Some((v, j)) => Some((Some(v), j)),
            None => None,
        },
    }
}

/// Parses an unsigned number that fits a `u64`.
fn parse_u64(s: &Vec<char>, i: usize) -> (r: Option<(u64, usize)>)
    ensures
        match r {
            Some((v, j)) => sp_u64(s@, i as int) == Some((v, j as int)),
            None => sp_u64(s@, i as int) is None,
        },
{
    match parse_u128(s, i) {
        Some((v, j)) => {
            if v <= 0xffffffffffffffffu128 {
                Some((v as u64, j))
            } else {
                None
            }
        },
        None => None,
    }
}

/// Parses an unsigned number that fits a `u32`.
fn parse_u32(s: &Vec<char>, i: usize) -> (r: Option<(u32, usize)>)
    ensures
        match r {
            Some((v, j)) => sp_u32(s@, i as int) == Some((v, j as int)),
            None => sp_u32(s@, i as int) is None,
        },
{
    match parse_u128(s, i) {
        Some((v, j)) => {
            if v <= 0xffffffffu128 {
                Some((v as u32, j))
            } else {
                None
            }
        },
        None => None,
    }
}

/// Parses `null` or an unsigned number that fits a `u64`.
fn parse_opt_u64(s: &Vec<char>, i: usize) -> (r: Option<(Option<u64>, usize)>)
    ensures
        match r {
            Some((v, j)) => sp_opt_u64(s@, i as int) == Some((v, j as int)),
            None => sp_opt_u64(s@, i as int) is None,
        },
{
    match expect_lit(s, i, "null") {
        Some(j) => Some((None, j)),
        None => match parse_u64(s, i) {
            Some((v, j)) => Some((Some(v), j)),
            None => None,
        },
    }
}

/// Parses `null` or a JSON string.
fn parse_opt_string(s: &Vec<char>, i: usize) -> (r: Option<(Option<String>, usize)>)
    ensures
        match r {
            Some((v, j)) => sp_opt_string(s@, i as int) == Some(
                (
                    match v {
                        Some(x) => Some(x@),
                        None => None,
                    },
                    j as int,
                ),
            ),
            None => sp_opt_string(s@, i as int) is None,
        },
{
    match expect_lit(s, i, "null") {
        Some(j) => Some((None, j)),
        None => match parse_json_string(s, i) {
            Some((v, j)) => Some((Some(chars_to_string(&v)), j)),
            None => None,
        },
    }
}

/// Parses a quoted UUID.
fn parse_quoted_uuid(s: &Vec<char>, i: usize) -> (r: Option<(UuidString, usize)>)
    ensures
        match r {
            Some((v, j)) => sp_quoted_uuid(s@, i as int) == Some((v@, j as int)),
            None => sp_quoted_uuid(s@, i as int) is None,
        },
{
    match expect_lit(s, i, "\"") {
        Some(j) => match parse_uuid(s, j) {
            Some((u, j2)) => match expect_lit(s, j2, "\"") {
                Some(j3) => Some((UuidString(u), j3)),
                None => None,
            },
            None => None,
        },
        None => None,
    }
}

/// Parses a task state's quoted tag.
fn parse_state(s: &Vec<char>, i: usize) -> (r: Option<(TaskState, usize)>)
    ensures
        match r {
            Some((v, j)) => sp_state(s@, i as int) == Some((v, j as int)),
            None => sp_state(s@, i as int) is None,
        },
{
    match expect_lit(s, i, "\"queued\"") {
        Some(j) => Some((TaskState::Queued, j)),
        None => match expect_lit(s, i, "\"working\"") {
            Some(j) => Some((TaskState::Working, j)),
            None => match expect_lit(s, i, "\"done\"") {
                Some(j) => Some((TaskState::Done, j)),
                None => match expect_lit(s, i, "\"failed\"") {
                    Some(j) => Some((TaskState::Failed, j)),
                    None => None,
                },
            },
        },
    }
}

/// Parses a processing kind's quoted tag.
fn parse_ptype(s: &Vec<char>, i: usize) -> (r: Option<(ProcessingType, usize)>)
    ensures
        match r {
            Some((v, j)) => sp_ptype(s@, i as int) == Some((v, j as int)),
            None => sp_ptype(s@, i as int) is None,
        },
{
    match expect_lit(s, i, "\"compress_important_video\"") {
        Some(j) => Some((ProcessingType::CompressImportantVideo, j)),
        None => match expect_lit(s, i, "\"compress_crumple_video\"") {
            Some(j) => Some((ProcessingType::CompressCrumpleVideo, j)),
            None => match expect_lit(s, i, "\"compress_shred_video\"") {
                Some(j) => Some((ProcessingType::CompressShredVideo, j)),
                None => None,
            },
        },
    }
}

/// Parses a job's tagged object.
fn parse_job(s: &Vec<char>, i: usize) -> (r: Option<(Job, usize)>)
    ensures
        match r {
            Some((v, j)) => sp_job(s@, i as int) == Some((v@, j as int)),
            None => sp_job(s@, i as int) is None,
        },
{
    if let Some(j) = expect_lit(s, i, "{\"type\":\"sleep\",\"details\":{\"time_nanos\":") {
        match parse_u64(s, j) {
            Some((t, j2)) => match expect_lit(s, j2, "}}") {
                Some(j3) => Some((Job::Sleep { time_nanos: t }, j3)),
                None => None,
            },
            None => None,
        }
    } else if let Some(j) = expect_lit(s, i, "{\"type\":\"display_message\",\"details\":{\"message\":") {
        match parse_json_string(s, j) {
            Some((m, j2)) => match expect_lit(s, j2, "}}") {
                Some(j3) => Some((Job::DisplayMessage { message: chars_to_string(&m) }, j3)),
                None => None,
            },
            None => None,
        }
    } else if let Some(j) = expect_lit(
        s,
        i,
        "{\"type\":\"display_message_and_sleep\",\"details\":{\"message\":",
    ) {
        match parse_json_string(s, j) {
            Some((m, j2)) => match expect_lit(s, j2, ",\"time_nanos\":") {
                Some(j3) => match parse_u64(s, j3) {
                    Some((t, j4)) => match expect_lit(s, j4, "}}") {
                        Some(j5) => Some(
                            (
                                Job::DisplayMessageAndSleep {
                                    message: chars_to_string(&m),
                                    time_nanos: t,
                                },
                                j5,
                            ),
                        ),
                        None => None,
                    },
                    None => None,
                },
                None => None,
            },
            None => None,
        }
    } else if let Some(j) = expect_lit(
        s,
        i,
        "{\"type\":\"cut_video\",\"details\":{\"source_proof_uuid\":",
    ) {
        match parse_quoted_uuid(s, j) {
            Some((u, j2)) => match expect_lit(s, j2, ",\"source_path\":") {
                Some(j3) => match parse_json_string(s, j3) {
                    Some((spath, j4)) => match expect_lit(s, j4, ",\"cut_point_start_ms\":") {
                        Some(j5) => match parse_opt_u64(s, j5) {
                            Some((c1, j6)) => match expect_lit(s, j6, ",\"cut_point_end_ms\":") {
                                Some(j7) => match parse_opt_u64(s, j7) {
                                    Some((c2, j8)) => match expect_lit(
                                        s,
                                        j8,
                                        ",\"destination_path\":",
                                    ) {
                                        Some(j9) => match parse_json_string(s, j9) {
                                            Some((dpath, j10)) => match expect_lit(s, j10, "}}") {
                                                Some(j11) => Some(
                                                    (
                                                        Job::CutVideo {
                                                            source_proof_uuid: u,
                                                            source_path: chars_to_string(&spath),
                                                            cut_point_start_ms: c1,
                                                            cut_point_end_ms: c2,
                                                            destination_path: chars_to_string(
                                                                &dpath,
                                                            ),
                                                        },
                                                        j11,
                                                    ),
                                                ),
                                                None => None,
                                            },
                                            None => None,
                                        },
                                        None => None,
                                    },
                                    None => None,
                                },
                                None => None,
                            },
                            None => None,
                        },
                        None => None,
                    },
                    None => None,
                },
                None => None,
            },
            None => None,
        }
    } else if let Some(j) = expect_lit(
        s,
        i,
        "{\"type\":\"process_video\",\"details\":{\"source_proof_uuid\":",
    ) {
        match parse_quoted_uuid(s, j) {
            Some((u, j2)) => match expect_lit(s, j2, ",\"source_path\":") {
                Some(j3) => match parse_json_string(s, j3) {
                    Some((spath, j4)) => match expect_lit(s, j4, ",\"processing_type\":") {
                        Some(j5) => match parse_ptype(s, j5) {
                            Some((pt, j6)) => match expect_lit(s, j6, ",\"destination_path\":") {
                                Some(j7) => match parse_json_string(s, j7) {
                                    Some((dpath, j8)) => match expect_lit(s, j8, "}}") {
                                        Some(j9) => Some(
                                            (
                                                Job::ProcessVideo {
                                                    source_proof_uuid: u,
                                                    source_path: chars_to_string(&spath),
                                                    processing_type: pt,
                                                    destination_path: chars_to_string(&dpath),
                                                },
                                                j9,
                                            ),
                                        ),
                                        None => None,
                                    },
                                    None => None,
                                },
                                None => None,
                            },
                            None => None,
                        },
                        None => None,
                    },
                    None => None,
                },
                None => None,
            },
            None => None,
        }
    } else {
        None
    }
}

/// Parses a worker identity's object.
fn parse_worker(s: &Vec<char>, i: usize) -> (r: Option<(WorkerInfo, usize)>)
    ensures
        match r {
            Some((v, j)) => sp_worker(s@, i as int) == Some((v@, j as int)),
            None => sp_worker(s@, i as int) is None,
        },
{
    match expect_lit(s, i, "{\"name\":") {
        Some(j) => match parse_json_string(s, j) {
            Some((nm, j2)) => match expect_lit(s, j2, ",\"pid\":") {
                Some(j3) => match parse_u32(s, j3) {
                    Some((pid, j4)) => match expect_lit(s, j4, ",\"birth_timestamp\":") {
                        Some(j5) => match parse_i128(s, j5) {
                            Some((bt, j6)) => match expect_lit(s, j6, ",\"address\":") {
                                Some(j7) => match parse_json_string(s, j7) {
                                    Some((ad, j8)) => match expect_lit(s, j8, "}") {
                                        Some(j9) => Some(
                                            (
                                                WorkerInfo {
                                                    name: chars_to_string(&nm),
                                                    pid,
                                                    birth_timestamp: NsTimestamp::from_nanos(bt),
                                                    address: chars_to_string(&ad),
                                                },
                                                j9,
                                            ),
                                        ),
                                        None => None,
                                    },
                                    None => None,
                                },
                                None => None,
                            },
                            None => None,
                        },
                        None => None,
                    },
                    None => None,
                },
                None => None,
            },
            None => None,
        },
        None => None,
    }
}

/// Parses `null` or a worker identity.
fn parse_opt_worker(s: &Vec<char>, i: usize) -> (r: Option<(Option<WorkerInfo>, usize)>)
    ensures
        match r {
            Some((v, j)) => sp_opt_worker(s@, i as int) == Some(
                (
                    match v {
                        Some(w) => Some(w@),
                        None => None,
                    },
                    j as int,
                ),
            ),
            None => sp_opt_worker(s@, i as int) is None,
        },
{
    match expect_lit(s, i, "null") {
        Some(j) => Some((None, j)),
        None => match parse_worker(s, i) {
            Some((w, j)) => Some((Some(w), j)),
            None => None,
        },
    }
}

/// Parses a task outcome's tagged object.
fn parse_result(s: &Vec<char>, i: usize) -> (r: Option<(TaskResult, usize)>)
    ensures
        match r {
            Some((v, j)) => sp_result(s@, i as int) == Some((v@, j as int)),
            None => sp_result(s@, i as int) is None,
        },
{
    if let Some(j) = expect_lit(s, i, "{\"success\":") {
        let inner: Option<(crate::job::Success, usize)> = if let Some(j2) = expect_lit(
            s,
            j,
            "{\"type\":\"Void\"}",
        ) {
            Some((crate::job::Success::Void, j2))
        } else if let Some(j2) = expect_lit(s, j, "{\"type\":\"ProcessedVideo\",\"details\":{\"dry\":") {
            match parse_quoted_uuid(s, j2) {
                Some((d, j3)) => match expect_lit(s, j3, ",\"wet\":") {
                    Some(j4) => match parse_quoted_uuid(s, j4) {
                        Some((w, j5)) => match expect_lit(s, j5, "}}") {
                            Some(j6) => Some((crate::job::Success::ProcessedVideo { dry: d, wet: w }, j6)),
                            None => None,
                        },
                        None => None,
                    },
                    None => None,
                },
                None => None,
            }
        } else if let Some(j2) = expect_lit(s, j, "{\"type\":\"CutVideo\",\"details\":{\"cloth\":") {
            match parse_quoted_uuid(s, j2) {
                Some((c, j3)) => match expect_lit(s, j3, ",\"fragment\":") {
                    Some(j4) => match parse_quoted_uuid(s, j4) {
                        Some((f, j5)) => match expect_lit(s, j5, "}}") {
                            Some(j6) => Some(
                                (crate::job::Success::CutVideo { cloth: c, fragment: f }, j6),
                            ),
                            None => None,
                        },
                        None => None,
                    },
                    None => None,
                },
                None => None,
            }
        } else {
            None
        };
        match inner {
            Some((sv, j2)) => match expect_lit(s, j2, "}") {
                Some(j3) => Some((TaskResult::Success(sv), j3)),
                None => None,
            },
            None => None,
        }
    } else if let Some(j) = expect_lit(s, i, "{\"error\":") {
        let inner: Option<(crate::job::Error, usize)> = if let Some(j2) = expect_lit(
            s,
            j,
            "{\"type\":\"UnknownError\"}",
        ) {
            Some((crate::job::Error::UnknownError, j2))
        } else if let Some(j2) = expect_lit(s, j, "{\"type\":\"LibraryError\",\"details\":") {
            match parse_json_string(s, j2) {
                Some((m, j3)) => match expect_lit(s, j3, "}") {
                    Some(j4) => Some((crate::job::Error::LibraryError(chars_to_string(&m)), j4)),
                    None => None,
                },
                None => None,
            }
        } else {
            None
        };
        match inner {
            Some((ev, j2)) => match expect_lit(s, j2, "}") {
                Some(j3) => Some((TaskResult::Error(ev), j3)),
                None => None,
            },
            None => None,
        }
    } else {
        None
    }
}

/// Parses `null` or a task outcome.
fn parse_opt_result(s: &Vec<char>, i: usize) -> (r: Option<(Option<TaskResult>, usize)>)
    ensures
        match r {
            Some((v, j)) => sp_opt_result(s@, i as int) == Some(
                (
                    match v {
                        Some(x) => Some(x@),
                        None => None,
                    },
                    j as int,
                ),
            ),
            None => sp_opt_result(s@, i as int) is None,
        },
{
    match expect_lit(s, i, "null") {
        Some(j) => Some((None, j)),
        None => match parse_result(s, i) {
            Some((v, j)) => Some((Some(v), j)),
            None => None,
        },
    }
}

/// Parses one task record.
pub fn parse_task(s: &Vec<char>, i: usize) -> (r: Option<(Task, usize)>)
    ensures
        match r {
            Some((t, j)) => sp_task(s@, i as int) == Some((t@, j as int)),
            None => sp_task(s@, i as int) is None,
        },
{
    let j1 = match expect_lit(s, i, "{\"uuid\":") {
        Some(j) => j,
        None => {
            return None;
        },
    };
    let (uuid, j2) = match parse_quoted_uuid(s, j1) {
        Some(p) => p,
        None => {
            return None;
        },
    };
    let j3 = match expect_lit(s, j2, ",\"name\":") {
        Some(j) => j,
        None => {
            return None;
        },
    };
    let (name_chars, j4) = match parse_json_string(s, j3) {
        Some(p) => p,
        None => {
            return None;
        },
    };
    let j5 = match expect_lit(s, j4, ",\"comment\":") {
        Some(j) => j,
        None => {
            return None;
        },
    };
    let (comment, j6) = match parse_opt_string(s, j5) {
        Some(p) => p,
        None => {
            return None;
        },
    };
    let j7 = match expect_lit(s, j6, ",\"job\":") {
        Some(j) => j,
        None => {
            return None;
        },
    };
    let (job, j8) = match parse_job(s, j7) {
        Some(p) => p,
        None => {
            return None;
        },
    };
    let j9 = match expect_lit(s, j8, ",\"state\":") {
        Some(j) => j,
        None => {
            return None;
        },
    };
    let (state, j10) = match parse_state(s, j9) {
        Some(p) => p,
        None => {
            return None;
        },
    };
    let j11 = match expect_lit(s, j10, ",\"request_timestamp\":") {
        Some(j) => j,
        None => {
            return None;
        },
    };
    let (rt, j12) = match parse_i128(s, j11) {
        Some(p) => p,
        None => {
            return None;
        },
    };
    let j13 = match expect_lit(s, j12, ",\"start_timestamp\":") {
        Some(j) => j,
        None => {
            return None;
        },
    };
    let (st, j14) = match parse_opt_timestamp(s, j13) {
        Some(p) => p,
        None => {
            return None;
        },
    };
    let j15 = match expect_lit(s, j14, ",\"worker_info\":") {
        Some(j) => j,
        None => {
            return None;
        },
    };
    let (wi, j16) = match parse_opt_worker(s, j15) {
        Some(p) => p,
        None => {
            return None;
        },
    };
    let j17 = match expect_lit(s, j16, ",\"finish_timestamp\":") {
        Some(j) => j,
        None => {
            return None;
        },
    };
    let (ft, j18) = match parse_opt_timestamp(s, j17) {
        Some(p) => p,
        None => {
            return None;
        },
    };
    let j19 = match expect_lit(s, j18, ",\"result\":") {
        Some(j) => j,
        None => {
            return None;
        },
    };
    let (res, j20) = match parse_opt_result(s, j19) {
        Some(p) => p,
        None => {
            return None;
        },
    };
    let j21 = match expect_lit(s, j20, "}") {
        Some(j) => j,
        None => {
            return None;
        },
    };
    let task = Task {
        uuid,
        name: chars_to_string(&name_chars),
        comment,
        job,
        state,
        request_timestamp: NsTimestamp::from_nanos(rt),
        start_timestamp: match st {
            Some(v) => Some(NsTimestamp::from_nanos(v)),
            None => None,
        },
        worker_info: wi,
        finish_timestamp: match ft {
            Some(v) => Some(NsTimestamp::from_nanos(v)),
            None => None,
        },
        result: res,
    };
    Some((task, j21))
}

/// Parses a whole queue file's text into its tasks; fails on any line that
/// is not a canonical task record.
#[verifier::rlimit(100)]
#[verifier::spinoff_prover]
pub fn queue_from_text(text: &str) -> (r: Option<Vec<Task>>)
    ensures
        match r {
            Some(ts) => sp_queue(text@, 0) == Some(ts@.map_values(|t: Task| t@)),
            None => sp_queue(text@, 0) is None,
        },
{
    let s = string_to_chars(text);
    let n = s.len();
    let mut acc: Vec<Task> = Vec::new();
    let mut k: usize = 0;
    loop
        invariant
            k <= n,
            n == s@.len(),
            s@ == text@,
            sp_queue(text@, 0) == (match sp_queue(s@, k as int) {
                Some(ts) => Some(acc@.map_values(|t: Task| t@) + ts),
                None => None,
            }),
        decreases n - k,
    {
        if k == n {
            proof {
                assert(sp_queue(s@, k as int) == Some(Seq::<TaskView>::empty()));
                assert(acc@.map_values(|t: Task| t@) + Seq::<TaskView>::empty() =~= acc@.map_values(
                    |t: Task| t@,
                ));
            }
            return Some(acc);
        }
        let (t, j) = match parse_task(&s, k) {
            Some(p) => p,
            None => {
                return None;
            },
        };
        if j <= k || j >= n {
            // a record must make progress and leave room for its newline
            proof {
                if j >= n {
                    assert(sp_lit(s@, j as int, "\n"@) is None) by {
                        reveal_strlit("\n");
                    }
                }
            }
            return None;
        }
        let j2 = match expect_lit(&s, j, "\n") {
            Some(p) => p,
            None => {
                return None;
            },
        };
        proof {
            let ghost before = acc@.map_values(|t0: Task| t0@);
            assert(sp_queue(s@, k as int) == (match sp_queue(s@, j2 as int) {
                Some(ts) => Some(seq![t@] + ts),
                None => None,
            }));
            match sp_queue(s@, j2 as int) {
                Some(ts) => {
                    assert(before + (seq![t@] + ts) =~= before.push(t@) + ts);
                    assert(acc@.push(t).map_values(|t0: Task| t0@) =~= before.push(t@));
                },
                None => {},
            }
        }
        acc.push(t);
        k = j2;
    }
}

} // verus!

verus! {

// ---------------------------------------------------------------------------
// Round-trip lemmas
// ---------------------------------------------------------------------------
/// A literal does not match where any single position differs.
proof fn lemma_lit_mismatch(s: Seq<char>, i: int, lit: Seq<char>, p: int, c: char)
    requires
        0 <= p < lit.len(),
        lit[p] != c,
        0 <= i,
        i + p < s.len(),
        s[i + p] == c,
    ensures
        sp_lit(s, i, lit) is None,
{
    if i + lit.len() <= s.len() && s.subrange(i, i + lit.len()) == lit {
        assert(s.subrange(i, i + lit.len())[p] == s[i + p]);
    }
}

/// The bounds every timestamp of a task observes.
pub open spec fn task_view_wf(t: TaskView) -> bool {
    &&& i128::MIN <= t.request_timestamp <= i128::MAX
    &&& match t.start_timestamp {
        Some(v) => i128::MIN <= v <= i128::MAX,
        None => true,
    }
    &&& match t.finish_timestamp {
        Some(v) => i128::MIN <= v <= i128::MAX,
        None => true,
    }
    &&& match t.worker_info {
        Some(w) => i128::MIN <= w.birth_timestamp <= i128::MAX,
        None => true,
    }
}

/// The value of any task held in memory observes the timestamp bounds.
pub proof fn lemma_task_view_wf(t: &Task)
    ensures
        task_view_wf(t@),
{
}

/// Parsing right after a written quoted UUID yields the value.
proof fn lemma_rt_quoted_uuid(u: u128, s: Seq<char>, i: int)
    requires
        0 <= i,
        i + 38 <= s.len(),
        s.subrange(i, i + 38) == json_of_uuid(u),
    ensures
        sp_quoted_uuid(s, i) == Some((u, i + 38)),
{
    crate::codec::lemma_uuid_chars_len(u);
    reveal_strlit("\"");
    assert("\""@ =~= seq!['"']);
    crate::codec::lemma_split_subrange(s, i, seq!['"'] + uuid_chars(u), seq!['"']);
    crate::codec::lemma_split_subrange(s, i, seq!['"'], uuid_chars(u));
    crate::codec::lemma_rt_uuid(u, s, i + 1);
    assert(sp_lit(s, i, "\""@) == Some(i + 1));
    assert(sp_lit(s, i + 37, "\""@) == Some(i + 38));
}

/// Parsing right after a written optional number yields the value, where
/// the character after it is no digit.
proof fn lemma_rt_opt_int(v: Option<int>, s: Seq<char>, i: int)
    requires
        0 <= i,
        i + json_of_opt_int(v).len() <= s.len(),
        s.subrange(i, i + json_of_opt_int(v).len()) == json_of_opt_int(v),
        match v {
            Some(x) => i128::MIN <= x <= i128::MAX && (i + json_of_opt_int(v).len() == s.len()
                || !crate::codec::is_digit(s[i + json_of_opt_int(v).len()])),
            None => true,
        },
    ensures
        sp_opt_i128(s, i) == Some((v, i + json_of_opt_int(v).len())),
{
    match v {
        None => {
            assert(sp_lit(s, i, "null"@) == Some(i + "null"@.len()));
        },
        Some(x) => {
            reveal_strlit("null");
            crate::codec::lemma_dec_nat_digits(if x < 0 {
                (-x) as nat
            } else {
                x as nat
            });
            assert(s[i] == dec_int(x)[0]) by {
                assert(s.subrange(i, i + json_of_opt_int(v).len())[0] == s[i]);
            }
            if x < 0 {
                lemma_lit_mismatch(s, i, "null"@, 0, '-');
            } else {
                assert(crate::codec::is_digit(dec_int(x)[0]));
                lemma_lit_mismatch(s, i, "null"@, 0, s[i]);
            }
            crate::codec::lemma_rt_i128(x, s, i);
        },
    }
}

/// Parsing right after a written optional unsigned number yields the value,
/// where the character after it is no digit.
proof fn lemma_rt_opt_u64(v: Option<u64>, s: Seq<char>, i: int)
    requires
        0 <= i,
        i + json_of_opt_u64(v).len() <= s.len(),
        s.subrange(i, i + json_of_opt_u64(v).len()) == json_of_opt_u64(v),
        match v {
            Some(x) => i + json_of_opt_u64(v).len() == s.len() || !crate::codec::is_digit(
                s[i + json_of_opt_u64(v).len()],
            ),
            None => true,
        },
    ensures
        sp_opt_u64(s, i) == Some((v, i + json_of_opt_u64(v).len())),
{
    match v {
        None => {
            assert(sp_lit(s, i, "null"@) == Some(i + "null"@.len()));
        },
        Some(x) => {
            reveal_strlit("null");
            crate::codec::lemma_dec_nat_digits(x as nat);
            assert(s[i] == dec_nat(x as nat)[0]) by {
                assert(s.subrange(i, i + json_of_opt_u64(v).len())[0] == s[i]);
            }
            assert(crate::codec::is_digit(dec_nat(x as nat)[0]));
            lemma_lit_mismatch(s, i, "null"@, 0, s[i]);
            crate::codec::lemma_rt_u128(x as nat, s, i);
        },
    }
}

/// Parsing right after a written unsigned number that fits a `u32` yields
/// the value, where the character after it is no digit.
proof fn lemma_rt_u32(v: u32, s: Seq<char>, i: int)
    requires
        0 <= i,
        i + dec_nat(v as nat).len() <= s.len(),
        s.subrange(i, i + dec_nat(v as nat).len()) == dec_nat(v as nat),
        i + dec_nat(v as nat).len() == s.len() || !crate::codec::is_digit(
            s[i + dec_nat(v as nat).len()],
        ),
    ensures
        sp_u32(s, i) == Some((v, i + dec_nat(v as nat).len())),
{
    crate::codec::lemma_rt_u128(v as nat, s, i);
}

/// Parsing right after a written unsigned number that fits a `u64` yields
/// the value, where the character after it is no digit.
proof fn lemma_rt_u64(v: u64, s: Seq<char>, i: int)
    requires
        0 <= i,
        i + dec_nat(v as nat).len() <= s.len(),
        s.subrange(i, i + dec_nat(v as nat).len()) == dec_nat(v as nat),
        i + dec_nat(v as nat).len() == s.len() || !crate::codec::is_digit(
            s[i + dec_nat(v as nat).len()],
        ),
    ensures
        sp_u64(s, i) == Some((v, i + dec_nat(v as nat).len())),
{
    crate::codec::lemma_rt_u128(v as nat, s, i);
}

/// Parsing right after a written optional JSON string yields the text back.
proof fn lemma_rt_opt_string(v: Option<Seq<char>>, s: Seq<char>, i: int)
    requires
        0 <= i,
        i + json_of_opt_string(v).len() <= s.len(),
        s.subrange(i, i + json_of_opt_string(v).len()) == json_of_opt_string(v),
    ensures
        sp_opt_string(s, i) == Some((v, i + json_of_opt_string(v).len())),
{
    match v {
        None => {
            assert(sp_lit(s, i, "null"@) == Some(i + "null"@.len()));
        },
        Some(t) => {
            reveal_strlit("null");
            assert(s[i] == json_string(t)[0]) by {
                assert(s.subrange(i, i + json_of_opt_string(v).len())[0] == s[i]);
            }
            assert(json_string(t)[0] == '"');
            lemma_lit_mismatch(s, i, "null"@, 0, '"');
            crate::codec::lemma_rt_string(t, s, i);
        },
    }
}

/// Parsing right after a written state tag yields the state back.
proof fn lemma_rt_state(st: TaskState, s: Seq<char>, i: int)
    requires
        0 <= i,
        i + json_of_state(st).len() <= s.len(),
        s.subrange(i, i + json_of_state(st).len()) == json_of_state(st),
    ensures
        sp_state(s, i) == Some((st, i + json_of_state(st).len())),
{
    reveal_strlit("\"queued\"");
    reveal_strlit("\"working\"");
    reveal_strlit("\"done\"");
    reveal_strlit("\"failed\"");
    let region = json_of_state(st);
    assert(s[i + 1] == region[1]) by {
        assert(s.subrange(i, i + region.len())[1] == s[i + 1]);
    }
    match st {
        TaskState::Queued => {
            assert(sp_lit(s, i, "\"queued\""@) == Some(i + 8));
        },
        TaskState::Working => {
            lemma_lit_mismatch(s, i, "\"queued\""@, 1, 'w');
            assert(sp_lit(s, i, "\"working\""@) == Some(i + 9));
        },
        TaskState::Done => {
            lemma_lit_mismatch(s, i, "\"queued\""@, 1, 'd');
            lemma_lit_mismatch(s, i, "\"working\""@, 1, 'd');
            assert(sp_lit(s, i, "\"done\""@) == Some(i + 6));
        },
        TaskState::Failed => {
            lemma_lit_mismatch(s, i, "\"queued\""@, 1, 'f');
            lemma_lit_mismatch(s, i, "\"working\""@, 1, 'f');
            lemma_lit_mismatch(s, i, "\"done\""@, 1, 'f');
            assert(sp_lit(s, i, "\"failed\""@) == Some(i + 8));
        },
    }
}

/// Parsing right after a written processing-kind tag yields it back.
proof fn lemma_rt_ptype(p: ProcessingType, s: Seq<char>, i: int)
    requires
        0 <= i,
        i + json_of_ptype(p).len() <= s.len(),
        s.subrange(i, i + json_of_ptype(p).len()) == json_of_ptype(p),
    ensures
        sp_ptype(s, i) == Some((p, i + json_of_ptype(p).len())),
{
    reveal_strlit("\"compress_important_video\"");
    reveal_strlit("\"compress_crumple_video\"");
    reveal_strlit("\"compress_shred_video\"");
    let region = json_of_ptype(p);
    assert(s[i + 10] == region[10]) by {
        assert(s.subrange(i, i + region.len())[10] == s[i + 10]);
    }
    match p {
        ProcessingType::CompressImportantVideo => {
            assert(sp_lit(s, i, "\"compress_important_video\""@) == Some(i + 26));
        },
        ProcessingType::CompressCrumpleVideo => {
            lemma_lit_mismatch(s, i, "\"compress_important_video\""@, 10, 'c');
            assert(sp_lit(s, i, "\"compress_crumple_video\""@) == Some(i + 24));
        },
        ProcessingType::CompressShredVideo => {
            lemma_lit_mismatch(s, i, "\"compress_important_video\""@, 10, 's');
            lemma_lit_mismatch(s, i, "\"compress_crumple_video\""@, 10, 's');
            assert(sp_lit(s, i, "\"compress_shred_video\""@) == Some(i + 22));
        },
    }
}

} // verus!

verus! {

/// Parsing right after a written worker identity yields it back.
proof fn lemma_rt_worker(w: WorkerInfoView, s: Seq<char>, i: int)
    requires
        i128::MIN <= w.birth_timestamp <= i128::MAX,
        0 <= i,
        i + json_of_worker(w).len() <= s.len(),
        s.subrange(i, i + json_of_worker(w).len()) == json_of_worker(w),
    ensures
        sp_worker(s, i) == Some((w, i + json_of_worker(w).len())),
{
    let p1 = "{\"name\":"@;
    let p2 = json_string(w.name);
    let p3 = ",\"pid\":"@;
    let p4 = dec_nat(w.pid as nat);
    let p5 = ",\"birth_timestamp\":"@;
    let p6 = dec_int(w.birth_timestamp);
    let p7 = ",\"address\":"@;
    let p8 = json_string(w.address);
    let p9 = "}"@;
    crate::codec::lemma_split_subrange(s, i, p1 + p2 + p3 + p4 + p5 + p6 + p7 + p8, p9);
    crate::codec::lemma_split_subrange(s, i, p1 + p2 + p3 + p4 + p5 + p6 + p7, p8);
    crate::codec::lemma_split_subrange(s, i, p1 + p2 + p3 + p4 + p5 + p6, p7);
    crate::codec::lemma_split_subrange(s, i, p1 + p2 + p3 + p4 + p5, p6);
    crate::codec::lemma_split_subrange(s, i, p1 + p2 + p3 + p4, p5);
    crate::codec::lemma_split_subrange(s, i, p1 + p2 + p3, p4);
    crate::codec::lemma_split_subrange(s, i, p1 + p2, p3);
    crate::codec::lemma_split_subrange(s, i, p1, p2);
    let q2 = i + p1.len();
    let q3 = q2 + p2.len();
    let q4 = q3 + p3.len();
    let q5 = q4 + p4.len();
    let q6 = q5 + p5.len();
    let q7 = q6 + p6.len();
    let q8 = q7 + p7.len();
    let q9 = q8 + p8.len();
    assert(sp_lit(s, i, p1) == Some(q2));
    crate::codec::lemma_rt_string(w.name, s, q2);
    assert(sp_lit(s, q3, p3) == Some(q4));
    assert(s[q5] == ',') by {
        reveal_strlit(",\"birth_timestamp\":");
        assert(s.subrange(q5, q5 + p5.len())[0] == s[q5]);
    }
    lemma_rt_u32(w.pid, s, q4);
    assert(sp_lit(s, q5, p5) == Some(q6));
    assert(s[q7] == ',') by {
        reveal_strlit(",\"address\":");
        assert(s.subrange(q7, q7 + p7.len())[0] == s[q7]);
    }
    crate::codec::lemma_rt_i128(w.birth_timestamp, s, q6);
    assert(sp_lit(s, q7, p7) == Some(q8));
    crate::codec::lemma_rt_string(w.address, s, q8);
    assert(sp_lit(s, q9, p9) == Some(q9 + p9.len()));
    assert(sp_worker(s, i) == Some(
        (
            WorkerInfoView {
                name: w.name,
                pid: w.pid,
                birth_timestamp: w.birth_timestamp,
                address: w.address,
            },
            q9 + p9.len(),
        ),
    ));
    assert(WorkerInfoView {
        name: w.name,
        pid: w.pid,
        birth_timestamp: w.birth_timestamp,
        address: w.address,
    } == w);
}

} // verus!

verus! {

/// Parsing right after a written success payload yields it back.
proof fn lemma_rt_success(sv: SuccessView, s: Seq<char>, i: int)
    requires
        0 <= i,
        i + json_of_success(sv).len() <= s.len(),
        s.subrange(i, i + json_of_success(sv).len()) == json_of_success(sv),
    ensures
        sp_success(s, i) == Some((sv, i + json_of_success(sv).len())),
{
    reveal_strlit("{\"type\":\"Void\"}");
    reveal_strlit("{\"type\":\"ProcessedVideo\",\"details\":{\"dry\":");
    reveal_strlit("{\"type\":\"CutVideo\",\"details\":{\"cloth\":");
    let region = json_of_success(sv);
    assert(s[i + 9] == region[9]) by {
        assert(s.subrange(i, i + region.len())[9] == s[i + 9]);
    }
    match sv {
        SuccessView::Void => {
            assert(sp_lit(s, i, "{\"type\":\"Void\"}"@) == Some(i + region.len()));
        },
        SuccessView::ProcessedVideo { dry, wet } => {
            let p1 = "{\"type\":\"ProcessedVideo\",\"details\":{\"dry\":"@;
            let p2 = json_of_uuid(dry);
            let p3 = ",\"wet\":"@;
            let p4 = json_of_uuid(wet);
            let p5 = "}}"@;
            assert(region[9] == p1[9]);
            lemma_lit_mismatch(s, i, "{\"type\":\"Void\"}"@, 9, 'P');
            crate::codec::lemma_split_subrange(s, i, p1 + p2 + p3 + p4, p5);
            crate::codec::lemma_split_subrange(s, i, p1 + p2 + p3, p4);
            crate::codec::lemma_split_subrange(s, i, p1 + p2, p3);
            crate::codec::lemma_split_subrange(s, i, p1, p2);
            crate::codec::lemma_uuid_chars_len(dry);
            crate::codec::lemma_uuid_chars_len(wet);
            let q2 = i + p1.len();
            let q3 = q2 + p2.len();
            let q4 = q3 + p3.len();
            let q5 = q4 + p4.len();
            assert(sp_lit(s, i, p1) == Some(q2));
            lemma_rt_quoted_uuid(dry, s, q2);
            assert(sp_lit(s, q3, p3) == Some(q4));
            lemma_rt_quoted_uuid(wet, s, q4);
            assert(sp_lit(s, q5, p5) == Some(q5 + p5.len()));
        },
        SuccessView::CutVideo { cloth, fragment } => {
            let p1 = "{\"type\":\"CutVideo\",\"details\":{\"cloth\":"@;
            let p2 = json_of_uuid(cloth);
            let p3 = ",\"fragment\":"@;
            let p4 = json_of_uuid(fragment);
            let p5 = "}}"@;
            assert(region[9] == p1[9]);
            lemma_lit_mismatch(s, i, "{\"type\":\"Void\"}"@, 9, 'C');
            lemma_lit_mismatch(s, i, "{\"type\":\"ProcessedVideo\",\"details\":{\"dry\":"@, 9, 'C');
            crate::codec::lemma_split_subrange(s, i, p1 + p2 + p3 + p4, p5);
            crate::codec::lemma_split_subrange(s, i, p1 + p2 + p3, p4);
            crate::codec::lemma_split_subrange(s, i, p1 + p2, p3);
            crate::codec::lemma_split_subrange(s, i, p1, p2);
            crate::codec::lemma_uuid_chars_len(cloth);
            crate::codec::lemma_uuid_chars_len(fragment);
            let q2 = i + p1.len();
            let q3 = q2 + p2.len();
            let q4 = q3 + p3.len();
            let q5 = q4 + p4.len();
            assert(sp_lit(s, i, p1) == Some(q2));
            lemma_rt_quoted_uuid(cloth, s, q2);
            assert(sp_lit(s, q3, p3) == Some(q4));
            lemma_rt_quoted_uuid(fragment, s, q4);
            assert(sp_lit(s, q5, p5) == Some(q5 + p5.len()));
        },
    }
}

/// Parsing right after a written job error yields it back.
proof fn lemma_rt_jerror(ev: ErrorView, s: Seq<char>, i: int)
    requires
        0 <= i,
        i + json_of_jerror(ev).len() <= s.len(),
        s.subrange(i, i + json_of_jerror(ev).len()) == json_of_jerror(ev),
    ensures
        sp_jerror(s, i) == Some((ev, i + json_of_jerror(ev).len())),
{
    reveal_strlit("{\"type\":\"UnknownError\"}");
    reveal_strlit("{\"type\":\"LibraryError\",\"details\":");
    let region = json_of_jerror(ev);
    assert(s[i + 9] == region[9]) by {
        assert(s.subrange(i, i + region.len())[9] == s[i + 9]);
    }
    match ev {
        ErrorView::UnknownError => {
            assert(sp_lit(s, i, "{\"type\":\"UnknownError\"}"@) == Some(i + region.len()));
        },
        ErrorView::LibraryError(m) => {
            let p1 = "{\"type\":\"LibraryError\",\"details\":"@;
            let p2 = json_string(m);
            let p3 = "}"@;
            assert(region[9] == p1[9]);
            lemma_lit_mismatch(s, i, "{\"type\":\"UnknownError\"}"@, 9, 'L');
            crate::codec::lemma_split_subrange(s, i, p1 + p2, p3);
            crate::codec::lemma_split_subrange(s, i, p1, p2);
            let q2 = i + p1.len();
            let q3 = q2 + p2.len();
            assert(sp_lit(s, i, p1) == Some(q2));
            crate::codec::lemma_rt_string(m, s, q2);
            assert(sp_lit(s, q3, p3) == Some(q3 + p3.len()));
        },
    }
}

/// Parsing right after a written task outcome yields it back.
proof fn lemma_rt_result(rv: TaskResultView, s: Seq<char>, i: int)
    requires
        0 <= i,
        i + json_of_result(rv).len() <= s.len(),
        s.subrange(i, i + json_of_result(rv).len()) == json_of_result(rv),
    ensures
        sp_result(s, i) == Some((rv, i + json_of_result(rv).len())),
{
    reveal_strlit("{\"success\":");
    reveal_strlit("{\"error\":");
    let region = json_of_result(rv);
    assert(s[i + 2] == region[2]) by {
        assert(s.subrange(i, i + region.len())[2] == s[i + 2]);
    }
    match rv {
        TaskResultView::Success(sv) => {
            let p1 = "{\"success\":"@;
            let p2 = json_of_success(sv);
            let p3 = "}"@;
            crate::codec::lemma_split_subrange(s, i, p1 + p2, p3);
            crate::codec::lemma_split_subrange(s, i, p1, p2);
            let q2 = i + p1.len();
            let q3 = q2 + p2.len();
            assert(sp_lit(s, i, p1) == Some(q2));
            lemma_rt_success(sv, s, q2);
            assert(sp_lit(s, q3, p3) == Some(q3 + p3.len()));
        },
        TaskResultView::Error(ev) => {
            let p1 = "{\"error\":"@;
            let p2 = json_of_jerror(ev);
            let p3 = "}"@;
            assert(region[2] == p1[2]);
            lemma_lit_mismatch(s, i, "{\"success\":"@, 2, 'e');
            crate::codec::lemma_split_subrange(s, i, p1 + p2, p3);
            crate::codec::lemma_split_subrange(s, i, p1, p2);
            let q2 = i + p1.len();
            let q3 = q2 + p2.len();
            assert(sp_lit(s, i, p1) == Some(q2));
            lemma_rt_jerror(ev, s, q2);
            assert(sp_lit(s, q3, p3) == Some(q3 + p3.len()));
        },
    }
}

/// Parsing right after a written optional worker identity yields it back.
proof fn lemma_rt_opt_worker(w: Option<WorkerInfoView>, s: Seq<char>, i: int)
    requires
        match w {
            Some(wi) => i128::MIN <= wi.birth_timestamp <= i128::MAX,
            None => true,
        },
        0 <= i,
        i + json_of_opt_worker(w).len() <= s.len(),
        s.subrange(i, i + json_of_opt_worker(w).len()) == json_of_opt_worker(w),
    ensures
        sp_opt_worker(s, i) == Some((w, i + json_of_opt_worker(w).len())),
{
    match w {
        None => {
            assert(sp_lit(s, i, "null"@) == Some(i + "null"@.len()));
        },
        Some(wi) => {
            reveal_strlit("null");
            reveal_strlit("{\"name\":");
            let region = json_of_worker(wi);
            assert(s[i] == region[0]) by {
                assert(s.subrange(i, i + region.len())[0] == s[i]);
            }
            assert(region[0] == "{\"name\":"@[0]);
            lemma_lit_mismatch(s, i, "null"@, 0, '{');
            lemma_rt_worker(wi, s, i);
        },
    }
}

/// Parsing right after a written optional task outcome yields it back.
proof fn lemma_rt_opt_result(r: Option<TaskResultView>, s: Seq<char>, i: int)
    requires
        0 <= i,
        i + json_of_opt_result(r).len() <= s.len(),
        s.subrange(i, i + json_of_opt_result(r).len()) == json_of_opt_result(r),
    ensures
        sp_opt_result(s, i) == Some((r, i + json_of_opt_result(r).len())),
{
    match r {
        None => {
            assert(sp_lit(s, i, "null"@) == Some(i + "null"@.len()));
        },
        Some(rv) => {
            reveal_strlit("null");
            reveal_strlit("{\"success\":");
            reveal_strlit("{\"error\":");
            let region = json_of_result(rv);
            assert(s[i] == region[0]) by {
                assert(s.subrange(i, i + region.len())[0] == s[i]);
            }
            match rv {
                TaskResultView::Success(_) => {
                    assert(region[0] == "{\"success\":"@[0]);
                },
                TaskResultView::Error(_) => {
                    assert(region[0] == "{\"error\":"@[0]);
                },
            }
            lemma_lit_mismatch(s, i, "null"@, 0, '{');
            lemma_rt_result(rv, s, i);
        },
    }
}

} // verus!

verus! {

/// Round trip of one written job variant.
#[verifier::spinoff_prover]
proof fn lemma_rt_job_sleep(time_nanos: u64, s: Seq<char>, i: int)
    requires
        0 <= i,
        i + json_of_job(JobView::Sleep { time_nanos }).len() <= s.len(),
        s.subrange(i, i + json_of_job(JobView::Sleep { time_nanos }).len()) == json_of_job(JobView::Sleep { time_nanos }),
    ensures
        sp_job(s, i) == Some((JobView::Sleep { time_nanos }, i + json_of_job(JobView::Sleep { time_nanos }).len())),
{
    let j = JobView::Sleep { time_nanos };
    reveal_strlit("{\"type\":\"sleep\",\"details\":{\"time_nanos\":");
    reveal_strlit("{\"type\":\"display_message\",\"details\":{\"message\":");
    reveal_strlit("{\"type\":\"display_message_and_sleep\",\"details\":{\"message\":");
    reveal_strlit("{\"type\":\"cut_video\",\"details\":{\"source_proof_uuid\":");
    reveal_strlit("{\"type\":\"process_video\",\"details\":{\"source_proof_uuid\":");
    reveal_strlit("}}");
    let region = json_of_job(j);
    assert(s[i + 9] == region[9]) by {
        assert(s.subrange(i, i + region.len())[9] == s[i + 9]);
    }

    let p1 = "{\"type\":\"sleep\",\"details\":{\"time_nanos\":"@;
    let p2 = dec_nat(time_nanos as nat);
    let p3 = "}}"@;
    crate::codec::lemma_split_subrange(s, i, p1 + p2, p3);
    crate::codec::lemma_split_subrange(s, i, p1, p2);
    let q2 = i + p1.len();
    let q3 = q2 + p2.len();
    assert(sp_lit(s, i, p1) == Some(q2));
    assert(s[q3] == '}') by {
        assert(s.subrange(q3, q3 + p3.len())[0] == s[q3]);
    }
    lemma_rt_u64(time_nanos, s, q2);
    assert(sp_lit(s, q3, p3) == Some(q3 + p3.len()));
}

/// Round trip of one written job variant.
#[verifier::spinoff_prover]
proof fn lemma_rt_job_display(message: Seq<char>, s: Seq<char>, i: int)
    requires
        0 <= i,
        i + json_of_job(JobView::DisplayMessage { message }).len() <= s.len(),
        s.subrange(i, i + json_of_job(JobView::DisplayMessage { message }).len()) == json_of_job(JobView::DisplayMessage { message }),
    ensures
        sp_job(s, i) == Some((JobView::DisplayMessage { message }, i + json_of_job(JobView::DisplayMessage { message }).len())),
{
    let j = JobView::DisplayMessage { message };
    reveal_strlit("{\"type\":\"sleep\",\"details\":{\"time_nanos\":");
    reveal_strlit("{\"type\":\"display_message\",\"details\":{\"message\":");
    reveal_strlit("{\"type\":\"display_message_and_sleep\",\"details\":{\"message\":");
    reveal_strlit("{\"type\":\"cut_video\",\"details\":{\"source_proof_uuid\":");
    reveal_strlit("{\"type\":\"process_video\",\"details\":{\"source_proof_uuid\":");
    reveal_strlit("}}");
    let region = json_of_job(j);
    assert(s[i + 9] == region[9]) by {
        assert(s.subrange(i, i + region.len())[9] == s[i + 9]);
    }

    let p1 = "{\"type\":\"display_message\",\"details\":{\"message\":"@;
    let p2 = json_string(message);
    let p3 = "}}"@;
    assert(region[9] == p1[9]);
    lemma_lit_mismatch(s, i, "{\"type\":\"sleep\",\"details\":{\"time_nanos\":"@, 9, 'd');
    crate::codec::lemma_split_subrange(s, i, p1 + p2, p3);
    crate::codec::lemma_split_subrange(s, i, p1, p2);
    let q2 = i + p1.len();
    let q3 = q2 + p2.len();
    assert(sp_lit(s, i, p1) == Some(q2));
    crate::codec::lemma_rt_string(message, s, q2);
    assert(sp_lit(s, q3, p3) == Some(q3 + p3.len()));
}

/// Round trip of one written job variant.
#[verifier::rlimit(60)]
#[verifier::spinoff_prover]
proof fn lemma_rt_job_display_sleep(message: Seq<char>, time_nanos: u64, s: Seq<char>, i: int)
    requires
        0 <= i,
        i + json_of_job(JobView::DisplayMessageAndSleep { message, time_nanos }).len() <= s.len(),
        s.subrange(i, i + json_of_job(JobView::DisplayMessageAndSleep { message, time_nanos }).len()) == json_of_job(JobView::DisplayMessageAndSleep { message, time_nanos }),
    ensures
        sp_job(s, i) == Some((JobView::DisplayMessageAndSleep { message, time_nanos }, i + json_of_job(JobView::DisplayMessageAndSleep { message, time_nanos }).len())),
{
    let j = JobView::DisplayMessageAndSleep { message, time_nanos };
    reveal_strlit("{\"type\":\"sleep\",\"details\":{\"time_nanos\":");
    reveal_strlit("{\"type\":\"display_message\",\"details\":{\"message\":");
    reveal_strlit("{\"type\":\"display_message_and_sleep\",\"details\":{\"message\":");
    reveal_strlit("{\"type\":\"cut_video\",\"details\":{\"source_proof_uuid\":");
    reveal_strlit("{\"type\":\"process_video\",\"details\":{\"source_proof_uuid\":");
    reveal_strlit("}}");
    let region = json_of_job(j);
    assert(s[i + 9] == region[9]) by {
        assert(s.subrange(i, i + region.len())[9] == s[i + 9]);
    }

    let p1 = "{\"type\":\"display_message_and_sleep\",\"details\":{\"message\":"@;
    let p2 = json_string(message);
    let p3 = ",\"time_nanos\":"@;
    let p4 = dec_nat(time_nanos as nat);
    let p5 = "}}"@;
    assert(region[9] == p1[9]);
    lemma_lit_mismatch(s, i, "{\"type\":\"sleep\",\"details\":{\"time_nanos\":"@, 9, 'd');
    assert(s[i + 24] == region[24]) by {
        assert(s.subrange(i, i + region.len())[24] == s[i + 24]);
    }
    assert(region[24] == p1[24]);
    lemma_lit_mismatch(
        s,
        i,
        "{\"type\":\"display_message\",\"details\":{\"message\":"@,
        24,
        '_',
    );
    crate::codec::lemma_split_subrange(s, i, p1 + p2 + p3 + p4, p5);
    crate::codec::lemma_split_subrange(s, i, p1 + p2 + p3, p4);
    crate::codec::lemma_split_subrange(s, i, p1 + p2, p3);
    crate::codec::lemma_split_subrange(s, i, p1, p2);
    let q2 = i + p1.len();
    let q3 = q2 + p2.len();
    let q4 = q3 + p3.len();
    let q5 = q4 + p4.len();
    assert(sp_lit(s, i, p1) == Some(q2));
    crate::codec::lemma_rt_string(message, s, q2);
    assert(sp_lit(s, q3, p3) == Some(q4));
    assert(s[q5] == '}') by {
        assert(s.subrange(q5, q5 + p5.len())[0] == s[q5]);
    }
    lemma_rt_u64(time_nanos, s, q4);
    assert(sp_lit(s, q5, p5) == Some(q5 + p5.len()));
}

/// Round trip of one written job variant.
#[verifier::rlimit(100)]
#[verifier::spinoff_prover]
proof fn lemma_rt_job_cut(source_proof_uuid: u128, source_path: Seq<char>, cut_point_start_ms: Option<u64>, cut_point_end_ms: Option<u64>, destination_path: Seq<char>, s: Seq<char>, i: int)
    requires
        0 <= i,
        i + json_of_job(JobView::CutVideo { source_proof_uuid, source_path, cut_point_start_ms, cut_point_end_ms, destination_path }).len() <= s.len(),
        s.subrange(i, i + json_of_job(JobView::CutVideo { source_proof_uuid, source_path, cut_point_start_ms, cut_point_end_ms, destination_path }).len()) == json_of_job(JobView::CutVideo { source_proof_uuid, source_path, cut_point_start_ms, cut_point_end_ms, destination_path }),
    ensures
        sp_job(s, i) == Some((JobView::CutVideo { source_proof_uuid, source_path, cut_point_start_ms, cut_point_end_ms, destination_path }, i + json_of_job(JobView::CutVideo { source_proof_uuid, source_path, cut_point_start_ms, cut_point_end_ms, destination_path }).len())),
{
    let j = JobView::CutVideo { source_proof_uuid, source_path, cut_point_start_ms, cut_point_end_ms, destination_path };
    reveal_strlit("{\"type\":\"sleep\",\"details\":{\"time_nanos\":");
    reveal_strlit("{\"type\":\"display_message\",\"details\":{\"message\":");
    reveal_strlit("{\"type\":\"display_message_and_sleep\",\"details\":{\"message\":");
    reveal_strlit("{\"type\":\"cut_video\",\"details\":{\"source_proof_uuid\":");
    reveal_strlit("{\"type\":\"process_video\",\"details\":{\"source_proof_uuid\":");
    reveal_strlit("}}");
    let region = json_of_job(j);
    assert(s[i + 9] == region[9]) by {
        assert(s.subrange(i, i + region.len())[9] == s[i + 9]);
    }

    let p1 = "{\"type\":\"cut_video\",\"details\":{\"source_proof_uuid\":"@;
    let p2 = json_of_uuid(source_proof_uuid);
    let p3 = ",\"source_path\":"@;
    let p4 = json_string(source_path);
    let p5 = ",\"cut_point_start_ms\":"@;
    let p6 = json_of_opt_u64(cut_point_start_ms);
    let p7 = ",\"cut_point_end_ms\":"@;
    let p8 = json_of_opt_u64(cut_point_end_ms);
    let p9 = ",\"destination_path\":"@;
    let p10 = json_string(destination_path);
    let p11 = "}}"@;
    assert(region[9] == p1[9]);
    lemma_lit_mismatch(s, i, "{\"type\":\"sleep\",\"details\":{\"time_nanos\":"@, 9, 'c');
    lemma_lit_mismatch(
        s,
        i,
        "{\"type\":\"display_message\",\"details\":{\"message\":"@,
        9,
        'c',
    );
    lemma_lit_mismatch(
        s,
        i,
        "{\"type\":\"display_message_and_sleep\",\"details\":{\"message\":"@,
        9,
        'c',
    );
    crate::codec::lemma_split_subrange(
        s,
        i,
        p1 + p2 + p3 + p4 + p5 + p6 + p7 + p8 + p9 + p10,
        p11,
    );
    crate::codec::lemma_split_subrange(s, i, p1 + p2 + p3 + p4 + p5 + p6 + p7 + p8 + p9, p10);
    crate::codec::lemma_split_subrange(s, i, p1 + p2 + p3 + p4 + p5 + p6 + p7 + p8, p9);
    crate::codec::lemma_split_subrange(s, i, p1 + p2 + p3 + p4 + p5 + p6 + p7, p8);
    crate::codec::lemma_split_subrange(s, i, p1 + p2 + p3 + p4 + p5 + p6, p7);
    crate::codec::lemma_split_subrange(s, i, p1 + p2 + p3 + p4 + p5, p6);
    crate::codec::lemma_split_subrange(s, i, p1 + p2 + p3 + p4, p5);
    crate::codec::lemma_split_subrange(s, i, p1 + p2 + p3, p4);
    crate::codec::lemma_split_subrange(s, i, p1 + p2, p3);
    crate::codec::lemma_split_subrange(s, i, p1, p2);
    crate::codec::lemma_uuid_chars_len(source_proof_uuid);
    let q2 = i + p1.len();
    let q3 = q2 + p2.len();
    let q4 = q3 + p3.len();
    let q5 = q4 + p4.len();
    let q6 = q5 + p5.len();
    let q7 = q6 + p6.len();
    let q8 = q7 + p7.len();
    let q9 = q8 + p8.len();
    let q10 = q9 + p9.len();
    let q11 = q10 + p10.len();
    assert(sp_lit(s, i, p1) == Some(q2));
    lemma_rt_quoted_uuid(source_proof_uuid, s, q2);
    assert(sp_lit(s, q3, p3) == Some(q4));
    crate::codec::lemma_rt_string(source_path, s, q4);
    assert(sp_lit(s, q5, p5) == Some(q6));
    assert(s[q7] == ',') by {
        reveal_strlit(",\"cut_point_end_ms\":");
        assert(s.subrange(q7, q7 + p7.len())[0] == s[q7]);
    }
    lemma_rt_opt_u64(cut_point_start_ms, s, q6);
    assert(sp_lit(s, q7, p7) == Some(q8));
    assert(s[q9] == ',') by {
        reveal_strlit(",\"destination_path\":");
        assert(s.subrange(q9, q9 + p9.len())[0] == s[q9]);
    }
    lemma_rt_opt_u64(cut_point_end_ms, s, q8);
    assert(sp_lit(s, q9, p9) == Some(q10));
    crate::codec::lemma_rt_string(destination_path, s, q10);
    assert(sp_lit(s, q11, p11) == Some(q11 + p11.len()));
}

/// Round trip of one written job variant.
#[verifier::rlimit(100)]
#[verifier::spinoff_prover]
proof fn lemma_rt_job_process(source_proof_uuid: u128, source_path: Seq<char>, processing_type: ProcessingType, destination_path: Seq<char>, s: Seq<char>, i: int)
    requires
        0 <= i,
        i + json_of_job(JobView::ProcessVideo { source_proof_uuid, source_path, processing_type, destination_path }).len() <= s.len(),
        s.subrange(i, i + json_of_job(JobView::ProcessVideo { source_proof_uuid, source_path, processing_type, destination_path }).len()) == json_of_job(JobView::ProcessVideo { source_proof_uuid, source_path, processing_type, destination_path }),
    ensures
        sp_job(s, i) == Some((JobView::ProcessVideo { source_proof_uuid, source_path, processing_type, destination_path }, i + json_of_job(JobView::ProcessVideo { source_proof_uuid, source_path, processing_type, destination_path }).len())),
{
    let j = JobView::ProcessVideo { source_proof_uuid, source_path, processing_type, destination_path };
    reveal_strlit("{\"type\":\"sleep\",\"details\":{\"time_nanos\":");
    reveal_strlit("{\"type\":\"display_message\",\"details\":{\"message\":");
    reveal_strlit("{\"type\":\"display_message_and_sleep\",\"details\":{\"message\":");
    reveal_strlit("{\"type\":\"cut_video\",\"details\":{\"source_proof_uuid\":");
    reveal_strlit("{\"type\":\"process_video\",\"details\":{\"source_proof_uuid\":");
    reveal_strlit("}}");
    let region = json_of_job(j);
    assert(s[i + 9] == region[9]) by {
        assert(s.subrange(i, i + region.len())[9] == s[i + 9]);
    }

    let p1 = "{\"type\":\"process_video\",\"details\":{\"source_proof_uuid\":"@;
    let p2 = json_of_uuid(source_proof_uuid);
    let p3 = ",\"source_path\":"@;
    let p4 = json_string(source_path);
    let p5 = ",\"processing_type\":"@;
    let p6 = json_of_ptype(processing_type);
    let p7 = ",\"destination_path\":"@;
    let p8 = json_string(destination_path);
    let p9 = "}}"@;
    assert(region[9] == p1[9]);
    lemma_lit_mismatch(s, i, "{\"type\":\"sleep\",\"details\":{\"time_nanos\":"@, 9, 'p');
    lemma_lit_mismatch(
        s,
        i,
        "{\"type\":\"display_message\",\"details\":{\"message\":"@,
        9,
        'p',
    );
    lemma_lit_mismatch(
        s,
        i,
        "{\"type\":\"display_message_and_sleep\",\"details\":{\"message\":"@,
        9,
        'p',
    );
    lemma_lit_mismatch(
        s,
        i,
        "{\"type\":\"cut_video\",\"details\":{\"source_proof_uuid\":"@,
        9,
        'p',
    );
    crate::codec::lemma_split_subrange(s, i, p1 + p2 + p3 + p4 + p5 + p6 + p7 + p8, p9);
    crate::codec::lemma_split_subrange(s, i, p1 + p2 + p3 + p4 + p5 + p6 + p7, p8);
    crate::codec::lemma_split_subrange(s, i, p1 + p2 + p3 + p4 + p5 + p6, p7);
    crate::codec::lemma_split_subrange(s, i, p1 + p2 + p3 + p4 + p5, p6);
    crate::codec::lemma_split_subrange(s, i, p1 + p2 + p3 + p4, p5);
    crate::codec::lemma_split_subrange(s, i, p1 + p2 + p3, p4);
    crate::codec::lemma_split_subrange(s, i, p1 + p2, p3);
    crate::codec::lemma_split_subrange(s, i, p1, p2);
    crate::codec::lemma_uuid_chars_len(source_proof_uuid);
    let q2 = i + p1.len();
    let q3 = q2 + p2.len();
    let q4 = q3 + p3.len();
    let q5 = q4 + p4.len();
    let q6 = q5 + p5.len();
    let q7 = q6 + p6.len();
    let q8 = q7 + p7.len();
    let q9 = q8 + p8.len();
    assert(sp_lit(s, i, p1) == Some(q2));
    lemma_rt_quoted_uuid(source_proof_uuid, s, q2);
    assert(sp_lit(s, q3, p3) == Some(q4));
    crate::codec::lemma_rt_string(source_path, s, q4);
    assert(sp_lit(s, q5, p5) == Some(q6));
    lemma_rt_ptype(processing_type, s, q6);
    assert(sp_lit(s, q7, p7) == Some(q8));
    crate::codec::lemma_rt_string(destination_path, s, q8);
    assert(sp_lit(s, q9, p9) == Some(q9 + p9.len()));
}

/// Parsing right after a written job yields it back.
proof fn lemma_rt_job(j: JobView, s: Seq<char>, i: int)
    requires
        0 <= i,
        i + json_of_job(j).len() <= s.len(),
        s.subrange(i, i + json_of_job(j).len()) == json_of_job(j),
    ensures
        sp_job(s, i) == Some((j, i + json_of_job(j).len())),
{
    match j {
        JobView::Sleep { time_nanos } => lemma_rt_job_sleep(time_nanos, s, i),
        JobView::DisplayMessage { message } => lemma_rt_job_display(message, s, i),
        JobView::DisplayMessageAndSleep { message, time_nanos } => lemma_rt_job_display_sleep(
            message,
            time_nanos,
            s,
            i,
        ),
        JobView::CutVideo {
            source_proof_uuid,
            source_path,
            cut_point_start_ms,
            cut_point_end_ms,
            destination_path,
        } => lemma_rt_job_cut(
            source_proof_uuid,
            source_path,
            cut_point_start_ms,
            cut_point_end_ms,
            destination_path,
            s,
            i,
        ),
        JobView::ProcessVideo {
            source_proof_uuid,
            source_path,
            processing_type,
            destination_path,
        } => lemma_rt_job_process(
            source_proof_uuid,
            source_path,
            processing_type,
            destination_path,
            s,
            i,
        ),
    }
}

} // verus!

verus! {

/// Round trip of the first half of a task record.
#[verifier::rlimit(100)]
#[verifier::spinoff_prover]
proof fn lemma_rt_task_head(t: TaskView, s: Seq<char>, i: int)
    requires
        0 <= i,
        i + json_of_task_head(t).len() <= s.len(),
        s.subrange(i, i + json_of_task_head(t).len()) == json_of_task_head(t),
    ensures
        sp_task_head(s, i) == Some(
            ((t.uuid, t.name, t.comment, t.job, t.state), i + json_of_task_head(t).len()),
        ),
{
    let p1 = "{\"uuid\":"@;
    let p2 = json_of_uuid(t.uuid);
    let p3 = ",\"name\":"@;
    let p4 = json_string(t.name);
    let p5 = ",\"comment\":"@;
    let p6 = json_of_opt_string(t.comment);
    let p7 = ",\"job\":"@;
    let p8 = json_of_job(t.job);
    let p9 = ",\"state\":"@;
    let p10 = json_of_state(t.state);
    crate::codec::lemma_split_subrange(s, i, p1 + p2 + p3 + p4 + p5 + p6 + p7 + p8 + p9, p10);
    crate::codec::lemma_split_subrange(s, i, p1 + p2 + p3 + p4 + p5 + p6 + p7 + p8, p9);
    crate::codec::lemma_split_subrange(s, i, p1 + p2 + p3 + p4 + p5 + p6 + p7, p8);
    crate::codec::lemma_split_subrange(s, i, p1 + p2 + p3 + p4 + p5 + p6, p7);
    crate::codec::lemma_split_subrange(s, i, p1 + p2 + p3 + p4 + p5, p6);
    crate::codec::lemma_split_subrange(s, i, p1 + p2 + p3 + p4, p5);
    crate::codec::lemma_split_subrange(s, i, p1 + p2 + p3, p4);
    crate::codec::lemma_split_subrange(s, i, p1 + p2, p3);
    crate::codec::lemma_split_subrange(s, i, p1, p2);
    crate::codec::lemma_uuid_chars_len(t.uuid);
    let q2 = i + p1.len();
    let q3 = q2 + p2.len();
    let q4 = q3 + p3.len();
    let q5 = q4 + p4.len();
    let q6 = q5 + p5.len();
    let q7 = q6 + p6.len();
    let q8 = q7 + p7.len();
    let q9 = q8 + p8.len();
    let q10 = q9 + p9.len();
    assert(sp_lit(s, i, p1) == Some(q2));
    lemma_rt_quoted_uuid(t.uuid, s, q2);
    assert(sp_lit(s, q3, p3) == Some(q4));
    crate::codec::lemma_rt_string(t.name, s, q4);
    assert(sp_lit(s, q5, p5) == Some(q6));
    lemma_rt_opt_string(t.comment, s, q6);
    assert(sp_lit(s, q7, p7) == Some(q8));
    lemma_rt_job(t.job, s, q8);
    assert(sp_lit(s, q9, p9) == Some(q10));
    lemma_rt_state(t.state, s, q10);
}

/// Round trip of the second half of a task record.
#[verifier::rlimit(100)]
#[verifier::spinoff_prover]
proof fn lemma_rt_task_tail(t: TaskView, s: Seq<char>, i: int)
    requires
        task_view_wf(t),
        0 <= i,
        i + json_of_task_tail(t).len() <= s.len(),
        s.subrange(i, i + json_of_task_tail(t).len()) == json_of_task_tail(t),
    ensures
        sp_task_tail(s, i) == Some(
            (
                (
                    t.request_timestamp,
                    t.start_timestamp,
                    t.worker_info,
                    t.finish_timestamp,
                    t.result,
                ),
                i + json_of_task_tail(t).len(),
            ),
        ),
{
    let p11 = ",\"request_timestamp\":"@;
    let p12 = dec_int(t.request_timestamp);
    let p13 = ",\"start_timestamp\":"@;
    let p14 = json_of_opt_int(t.start_timestamp);
    let p15 = ",\"worker_info\":"@;
    let p16 = json_of_opt_worker(t.worker_info);
    let p17 = ",\"finish_timestamp\":"@;
    let p18 = json_of_opt_int(t.finish_timestamp);
    let p19 = ",\"result\":"@;
    let p20 = json_of_opt_result(t.result);
    let p21 = "}"@;
    crate::codec::lemma_split_subrange(
        s,
        i,
        p11 + p12 + p13 + p14 + p15 + p16 + p17 + p18 + p19 + p20,
        p21,
    );
    crate::codec::lemma_split_subrange(s, i, p11 + p12 + p13 + p14 + p15 + p16 + p17 + p18 + p19, p20);
    crate::codec::lemma_split_subrange(s, i, p11 + p12 + p13 + p14 + p15 + p16 + p17 + p18, p19);
    crate::codec::lemma_split_subrange(s, i, p11 + p12 + p13 + p14 + p15 + p16 + p17, p18);
    crate::codec::lemma_split_subrange(s, i, p11 + p12 + p13 + p14 + p15 + p16, p17);
    crate::codec::lemma_split_subrange(s, i, p11 + p12 + p13 + p14 + p15, p16);
    crate::codec::lemma_split_subrange(s, i, p11 + p12 + p13 + p14, p15);
    crate::codec::lemma_split_subrange(s, i, p11 + p12 + p13, p14);
    crate::codec::lemma_split_subrange(s, i, p11 + p12, p13);
    crate::codec::lemma_split_subrange(s, i, p11, p12);
    let q12 = i + p11.len();
    let q13 = q12 + p12.len();
    let q14 = q13 + p13.len();
    let q15 = q14 + p14.len();
    let q16 = q15 + p15.len();
    let q17 = q16 + p16.len();
    let q18 = q17 + p17.len();
    let q19 = q18 + p18.len();
    let q20 = q19 + p19.len();
    let q21 = q20 + p20.len();
    assert(sp_lit(s, i, p11) == Some(q12));
    assert(s[q13] == ',') by {
        reveal_strlit(",\"start_timestamp\":");
        assert(s.subrange(q13, q13 + p13.len())[0] == s[q13]);
    }
    crate::codec::lemma_rt_i128(t.request_timestamp, s, q12);
    assert(sp_lit(s, q13, p13) == Some(q14));
    assert(s[q15] == ',') by {
        reveal_strlit(",\"worker_info\":");
        assert(s.subrange(q15, q15 + p15.len())[0] == s[q15]);
    }
    lemma_rt_opt_int(t.start_timestamp, s, q14);
    assert(sp_lit(s, q15, p15) == Some(q16));
    lemma_rt_opt_worker(t.worker_info, s, q16);
    assert(sp_lit(s, q17, p17) == Some(q18));
    assert(s[q19] == ',') by {
        reveal_strlit(",\"result\":");
        assert(s.subrange(q19, q19 + p19.len())[0] == s[q19]);
    }
    lemma_rt_opt_int(t.finish_timestamp, s, q18);
    assert(sp_lit(s, q19, p19) == Some(q20));
    lemma_rt_opt_result(t.result, s, q20);
    assert(sp_lit(s, q21, p21) == Some(q21 + p21.len()));
}

/// Parsing right after a written task record yields the task back.
#[verifier::rlimit(100)]
#[verifier::spinoff_prover]
pub proof fn lemma_rt_task(t: TaskView, s: Seq<char>, i: int)
    requires
        task_view_wf(t),
        0 <= i,
        i + json_of_task(t).len() <= s.len(),
        s.subrange(i, i + json_of_task(t).len()) == json_of_task(t),
    ensures
        sp_task(s, i) == Some((t, i + json_of_task(t).len())),
{
    let head = json_of_task_head(t);
    let tail = json_of_task_tail(t);
    crate::codec::lemma_split_subrange(s, i, head, tail);
    lemma_rt_task_head(t, s, i);
    lemma_rt_task_tail(t, s, i + head.len());
    assert(sp_task_head(s, i) == Some(
        ((t.uuid, t.name, t.comment, t.job, t.state), i + head.len()),
    ));
    assert(sp_task_tail(s, i + head.len()) == Some(
        (
            (t.request_timestamp, t.start_timestamp, t.worker_info, t.finish_timestamp, t.result),
            i + head.len() + tail.len(),
        ),
    ));
    let rebuilt = TaskView {
        uuid: t.uuid,
        name: t.name,
        comment: t.comment,
        job: t.job,
        state: t.state,
        request_timestamp: t.request_timestamp,
        start_timestamp: t.start_timestamp,
        worker_info: t.worker_info,
        finish_timestamp: t.finish_timestamp,
        result: t.result,
    };
    assert(rebuilt == t);
    assert(sp_task(s, i) == Some((rebuilt, i + head.len() + tail.len())));
    assert(i + head.len() + tail.len() == i + json_of_task(t).len());
}

/// Whether every task of a queue observes the timestamp bounds.
pub open spec fn queue_view_wf(ts: Seq<TaskView>) -> bool {
    forall|k: int| 0 <= k < ts.len() ==> task_view_wf(#[trigger] ts[k])
}

/// Parsing a whole written queue, ending at the end of the text, yields the
/// tasks back.
#[verifier::rlimit(100)]
#[verifier::spinoff_prover]
proof fn lemma_rt_queue_at(ts: Seq<TaskView>, s: Seq<char>, i: int)
    requires
        queue_view_wf(ts),
        0 <= i,
        i + json_of_queue(ts).len() == s.len(),
        s.subrange(i, s.len() as int) == json_of_queue(ts),
    ensures
        sp_queue(s, i) == Some(ts),
    decreases ts.len(),
{
    if ts.len() == 0 {
        assert(i == s.len());
        assert(ts =~= Seq::<TaskView>::empty());
    } else {
        let t = ts[0];
        let rest = ts.drop_first();
        let pt = json_of_task(t);
        let nl = seq!['\n'];
        assert(task_view_wf(t));
        assert(queue_view_wf(rest)) by {
            assert(forall|k: int|
                0 <= k < rest.len() ==> rest[k] == ts[k + 1] && task_view_wf(#[trigger] rest[k]));
        }
        crate::codec::lemma_split_subrange(s, i, pt + nl, json_of_queue(rest));
        crate::codec::lemma_split_subrange(s, i, pt, nl);
        let q2 = i + pt.len();
        let q3 = q2 + 1;
        lemma_rt_task(t, s, i);
        assert(pt.len() > 0) by {
            reveal_strlit("{\"uuid\":");
            assert(pt.len() >= "{\"uuid\":"@.len());
        }
        assert(sp_lit(s, q2, "\n"@) == Some(q2 + "\n"@.len())) by {
            reveal_strlit("\n");
            assert("\n"@ =~= nl);
        }
        assert(q2 + "\n"@.len() == q3) by {
            reveal_strlit("\n");
        }
        assert(s.subrange(q3, s.len() as int) == json_of_queue(rest));
        lemma_rt_queue_at(rest, s, q3);
        assert(seq![t] + rest =~= ts);
    }
}

/// The round trip of the queue file: parsing what was written yields the
/// same tasks, in the same order.
pub proof fn lemma_queue_round_trip(ts: Seq<TaskView>)
    requires
        queue_view_wf(ts),
    ensures
        sp_queue(json_of_queue(ts), 0) == Some(ts),
{
    let s = json_of_queue(ts);
    assert(s.subrange(0, s.len() as int) =~= s);
    lemma_rt_queue_at(ts, s, 0);
}

} // verus!
