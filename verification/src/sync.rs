//! The cloud sync cycle.
//!
//! Each cycle runs only while the network is `Stable`: it first checks the
//! cloud's `/health` endpoint, then fetches every unsynced payload, uploads
//! them as one batch (blobs in Base64), and on acceptance marks them synced.
//! The application performs each requested action (HTTP, database) and feeds
//! its outcome back into [`SyncCycle::step`]; every decision is taken here.

use vstd::prelude::*;

use crate::db::PayloadRow;
use crate::encoding::{base64_encode_bytes, base64_standard};
use crate::error::SentinelError;
use crate::logging::LogLevel;
use crate::state::NetworkStatus;
use crate::text::{decimal, u64_to_decimal};

verus! {

/// `text` without its trailing `/` characters.
pub open spec fn trim_trailing_slashes(text: Seq<char>) -> Seq<char>
    decreases text.len(),
{
    if text.len() > 0 && text.last() == '/' {
        trim_trailing_slashes(text.drop_last())
    } else {
        text
    }
}

/// The health endpoint of a cloud endpoint: trailing slashes removed, then `/health`.
pub open spec fn spec_health_url(endpoint: Seq<char>) -> Seq<char> {
    trim_trailing_slashes(endpoint) + "/health"@
}

/// The URL of the cloud's pre-flight health check.
pub fn health_url(endpoint: &str) -> (url: String)
    ensures
        url@ == spec_health_url(endpoint@),
{
    let mut end = endpoint.unicode_len();
    assert(endpoint@.subrange(0, end as int) =~= endpoint@);
    while end > 0 && endpoint.get_char(end - 1) == '/'
        invariant
            end <= endpoint@.len(),
            trim_trailing_slashes(endpoint@) == trim_trailing_slashes(endpoint@.subrange(0, end as int)),
        decreases end,
    {
        assert(endpoint@.subrange(0, end as int).drop_last() =~= endpoint@.subrange(0, end - 1));
        end = end - 1;
    }
    assert(trim_trailing_slashes(endpoint@.subrange(0, end as int)) == endpoint@.subrange(0, end as int));
    let mut url = endpoint.substring_char(0, end).to_owned();
    url.append("/health");
    url
}

/// One payload as sent to the cloud: the sealed blob in standard Base64.
#[derive(Debug)]
pub struct SyncRecord {
    pub id: i64,
    pub device_id: String,
    pub encrypted_blob: String,
    pub received_at: i64,
}

/// Base64 can render a blob of this many bytes without overflowing `usize`.
pub open spec fn encodable(len: nat) -> bool {
    4 * ((len + 2) / 3) <= usize::MAX
}

/// The upload form of a payload row.
pub fn to_sync_record(row: &PayloadRow) -> (r: SyncRecord)
    requires
        encodable(row.encrypted_blob@.len()),
    ensures
        r.id == row.id,
        r.device_id@ == row.device_id@,
        r.encrypted_blob@ == base64_standard(row.encrypted_blob@),
        r.received_at == row.received_at,
{
    SyncRecord {
        id: row.id,
        device_id: row.device_id.clone(),
        encrypted_blob: base64_encode_bytes(row.encrypted_blob.as_slice()),
        received_at: row.received_at,
    }
}

/// Whether every row's blob can be rendered in Base64.
pub open spec fn all_encodable(rows: Seq<PayloadRow>) -> bool {
    forall|i: int| 0 <= i < rows.len() ==> encodable(#[trigger] rows[i].encrypted_blob@.len())
}

/// A batch of records mirrors its rows one for one, in order.
pub open spec fn is_batch_of(records: Seq<SyncRecord>, rows: Seq<PayloadRow>) -> bool {
    &&& records.len() == rows.len()
    &&& forall|i: int|
        0 <= i < rows.len() ==> {
            &&& (#[trigger] records[i]).id == rows[i].id
            &&& records[i].device_id@ == rows[i].device_id@
            &&& records[i].encrypted_blob@ == base64_standard(rows[i].encrypted_blob@)
            &&& records[i].received_at == rows[i].received_at
        }
}

/// The upload batch for a list of rows.
pub fn build_batch(rows: &Vec<PayloadRow>) -> (records: Vec<SyncRecord>)
    requires
        all_encodable(rows@),
    ensures
        is_batch_of(records@, rows@),
{
    let mut records: Vec<SyncRecord> = Vec::new();
    let mut i: usize = 0;
    while i < rows.len()
        invariant
            i <= rows@.len(),
            all_encodable(rows@),
            is_batch_of(records@, rows@.subrange(0, i as int)),
        decreases rows@.len() - i,
    {
        let record = to_sync_record(&rows[i]);
        records.push(record);
        i = i + 1;
        assert(is_batch_of(records@, rows@.subrange(0, i as int)));
    }
    assert(rows@.subrange(0, i as int) =~= rows@);
    records
}

/// Each record is made from its own row alone: two batches agree on the
/// records of equal rows, wherever those rows stand.
pub proof fn lemma_batch_record_depends_on_its_row(
    r1: Seq<SyncRecord>,
    rows1: Seq<PayloadRow>,
    r2: Seq<SyncRecord>,
    rows2: Seq<PayloadRow>,
    i: int,
    j: int,
)
    requires
        is_batch_of(r1, rows1),
        is_batch_of(r2, rows2),
        0 <= i < rows1.len(),
        0 <= j < rows2.len(),
        rows1[i] == rows2[j],
    ensures
        r1[i].id == r2[j].id,
        r1[i].device_id@ == r2[j].device_id@,
        r1[i].encrypted_blob@ == r2[j].encrypted_blob@,
        r1[i].received_at == r2[j].received_at,
{
}

/// Every record carries the device, id and time of the row at its position,
/// and its blob is that row's blob in Base64.
pub proof fn lemma_batch_mirrors_rows(records: Seq<SyncRecord>, rows: Seq<PayloadRow>, i: int)
    requires
        is_batch_of(records, rows),
        0 <= i < rows.len(),
    ensures
        records[i].device_id@ == rows[i].device_id@,
        records[i].id == rows[i].id,
        records[i].received_at == rows[i].received_at,
        records[i].encrypted_blob@ == base64_standard(rows[i].encrypted_blob@),
{
}

/// The batch of two lists of rows, one after the other, is the batch of the
/// first followed by the batch of the second.
pub proof fn lemma_batch_concat(r1: Seq<SyncRecord>, rows1: Seq<PayloadRow>, r2: Seq<SyncRecord>, rows2: Seq<PayloadRow>)
    requires
        is_batch_of(r1, rows1),
        is_batch_of(r2, rows2),
    ensures
        is_batch_of(r1 + r2, rows1 + rows2),
{
    assert forall|i: int| 0 <= i < (rows1 + rows2).len() implies {
        &&& (#[trigger] (r1 + r2)[i]).id == (rows1 + rows2)[i].id
        &&& (r1 + r2)[i].device_id@ == (rows1 + rows2)[i].device_id@
        &&& (r1 + r2)[i].encrypted_blob@ == base64_standard((rows1 + rows2)[i].encrypted_blob@)
        &&& (r1 + r2)[i].received_at == (rows1 + rows2)[i].received_at
    } by {
        if i < rows1.len() {
            assert(r1[i] == (r1 + r2)[i]);
        } else {
            assert(r2[i - rows1.len()] == (r1 + r2)[i]);
        }
    }
}

/// The ids of a list of rows, in order.
pub open spec fn row_ids(rows: Seq<PayloadRow>) -> Seq<i64> {
    rows.map_values(|r: PayloadRow| r.id)
}

fn collect_ids(rows: &Vec<PayloadRow>) -> (ids: Vec<i64>)
    ensures
        ids@ == row_ids(rows@),
{
    let mut ids: Vec<i64> = Vec::new();
    let mut i: usize = 0;
    while i < rows.len()
        invariant
            i <= rows@.len(),
            ids@ == row_ids(rows@.subrange(0, i as int)),
        decreases rows@.len() - i,
    {
        ids.push(rows[i].id);
        i = i + 1;
        assert(row_ids(rows@.subrange(0, i as int)) =~= row_ids(rows@.subrange(0, i - 1)).push(rows@[i - 1].id));
    }
    assert(rows@.subrange(0, i as int) =~= rows@);
    ids
}

/// How many entries are `true`.
pub open spec fn count_true(s: Seq<bool>) -> nat
    decreases s.len(),
{
    if s.len() == 0 {
        0
    } else {
        count_true(s.drop_last()) + if s.last() { 1nat } else { 0nat }
    }
}

proof fn lemma_count_true_bound(s: Seq<bool>)
    ensures
        count_true(s) <= s.len(),
    decreases s.len(),
{
    if s.len() > 0 {
        lemma_count_true_bound(s.drop_last());
    }
}

/// One more successful marking adds one to the count; one more failed
/// marking leaves it as it was.
pub proof fn lemma_count_true_push(s: Seq<bool>)
    ensures
        count_true(s.push(true)) == count_true(s) + 1,
        count_true(s.push(false)) == count_true(s),
{
    assert(s.push(true).drop_last() =~= s);
    assert(s.push(false).drop_last() =~= s);
}

/// The count of a list of results made of two parts is the sum of the counts
/// of the parts.
pub proof fn lemma_count_true_concat(s: Seq<bool>, t: Seq<bool>)
    ensures
        count_true(s + t) == count_true(s) + count_true(t),
    decreases t.len(),
{
    if t.len() == 0 {
        assert(s + t =~= s);
    } else {
        lemma_count_true_concat(s, t.drop_last());
        assert((s + t).drop_last() =~= s + t.drop_last());
        assert((s + t).last() == t.last());
    }
}

/// When every row was marked, the count is the number of rows; when none
/// was, it is zero.
pub proof fn lemma_count_true_uniform(s: Seq<bool>)
    ensures
        (forall|i: int| 0 <= i < s.len() ==> s[i]) ==> count_true(s) == s.len(),
        (forall|i: int| 0 <= i < s.len() ==> !s[i]) ==> count_true(s) == 0,
    decreases s.len(),
{
    if s.len() > 0 {
        lemma_count_true_uniform(s.drop_last());
        assert(forall|i: int| 0 <= i < s.drop_last().len() ==> s.drop_last()[i] == s[i]);
    }
}

/// The count is the number of positions that hold `true`.
pub proof fn lemma_count_true_is_filter_len(s: Seq<bool>)
    ensures
        count_true(s) == s.filter(|b: bool| b).len(),
    decreases s.len(),
{
    reveal(Seq::filter);
    if s.len() > 0 {
        lemma_count_true_is_filter_len(s.drop_last());
    }
}

fn count_successes(results: &Vec<bool>) -> (n: u64)
    ensures
        n == count_true(results@),
{
    let mut n: u64 = 0;
    let mut i: usize = 0;
    while i < results.len()
        invariant
            i <= results@.len(),
            n == count_true(results@.subrange(0, i as int)),
        decreases results@.len() - i,
    {
        assert(results@.subrange(0, i + 1).drop_last() =~= results@.subrange(0, i as int));
        proof { lemma_count_true_bound(results@.subrange(0, i as int)); }
        if results[i] {
            n = n + 1;
        }
        i = i + 1;
    }
    assert(results@.subrange(0, i as int) =~= results@);
    n
}

/// Where a sync cycle stands.
#[derive(Debug, Clone, Copy, PartialEq, Eq, Structural)]
pub enum SyncStage {
    Idle,
    AwaitingHealth,
    AwaitingRows,
    AwaitingUpload,
    AwaitingMarks,
}

/// How the batch upload went.
#[derive(Debug)]
pub enum UploadOutcome {
    /// The cloud answered with a success status.
    Accepted,
    /// The cloud answered with another status (its rendering, e.g. `500 Internal Server Error`).
    Rejected { status: String },
    /// The request itself failed (the error's rendering).
    Failed { error: String },
}

/// The outcome of the previous action, fed back into the cycle.
#[derive(Debug)]
pub enum SyncInput {
    /// A new cycle begins with the current network status and cloud endpoint.
    Start { status: NetworkStatus, endpoint: String },
    /// The health check's answer.
    Health { healthy: bool },
    /// The unsynced rows, oldest first, or the error fetching them.
    Rows(Result<Vec<PayloadRow>, SentinelError>),
    /// How the upload went.
    Uploaded(UploadOutcome),
    /// For each uploaded row, whether marking it as synced succeeded.
    Marked { results: Vec<bool> },
}

/// What the application must do next.
#[derive(Debug)]
pub enum SyncAction {
    /// The cycle is over.
    Done,
    /// GET this URL and report whether it answered with a success status.
    CheckHealth { url: String },
    /// Fetch every unsynced row, oldest first.
    FetchUnsynced,
    /// POST these records as one batch to the endpoint.
    Upload { endpoint: String, records: Vec<SyncRecord> },
    /// Mark each of these rows as synced, reporting each outcome.
    MarkSynced { ids: Vec<i64> },
    /// Log this `Sync` event; the cycle is over.
    Log { level: LogLevel, message: String },
}

/// The stage that follows `stage` on `input`. An input that does not fit the
/// stage ends the cycle.
pub open spec fn next_stage(stage: SyncStage, input: SyncInput) -> SyncStage {
    match (stage, input) {
        (SyncStage::Idle, SyncInput::Start { status, .. }) => if status == NetworkStatus::Stable {
            SyncStage::AwaitingHealth
        } else {
            SyncStage::Idle
        },
        (SyncStage::AwaitingHealth, SyncInput::Health { healthy }) => if healthy {
            SyncStage::AwaitingRows
        } else {
            SyncStage::Idle
        },
        (SyncStage::AwaitingRows, SyncInput::Rows(Ok(rows))) => if rows@.len() > 0 {
            SyncStage::AwaitingUpload
        } else {
            SyncStage::Idle
        },
        (SyncStage::AwaitingUpload, SyncInput::Uploaded(UploadOutcome::Accepted)) => SyncStage::AwaitingMarks,
        _ => SyncStage::Idle,
    }
}

/// The stage reached from `Idle` after the given inputs.
pub open spec fn stage_after(inputs: Seq<SyncInput>) -> SyncStage
    decreases inputs.len(),
{
    if inputs.len() == 0 {
        SyncStage::Idle
    } else {
        next_stage(stage_after(inputs.drop_last()), inputs.last())
    }
}

/// The state of one sync cycle.
pub struct SyncCycle {
    stage: SyncStage,
    endpoint: String,
    pending: Vec<i64>,
}

impl SyncCycle {
    pub closed spec fn stage(&self) -> SyncStage {
        self.stage
    }

    /// The endpoint of the cycle in progress.
    pub closed spec fn endpoint(&self) -> Seq<char> {
        self.endpoint@
    }

    /// The ids uploaded in the cycle in progress.
    pub closed spec fn pending(&self) -> Seq<i64> {
        self.pending@
    }

    /// An idle cycle.
    pub fn new() -> (c: Self)
        ensures
            c.stage() == SyncStage::Idle,
    {
        SyncCycle { stage: SyncStage::Idle, endpoint: String::new(), pending: Vec::new() }
    }

    /// The current stage.
    pub fn current_stage(&self) -> (s: SyncStage)
        ensures
            s == self.stage(),
    {
        self.stage
    }

    /// Advances the cycle on the outcome of the previous action and returns
    /// the next action.
    pub fn step(&mut self, input: SyncInput) -> (action: SyncAction)
        requires
            input matches SyncInput::Rows(Ok(rows)) ==> all_encodable(rows@),
        ensures
            final(self).stage() == next_stage(old(self).stage(), input),
            match (old(self).stage(), input) {
                (SyncStage::Idle, SyncInput::Start { status, endpoint }) => if status == NetworkStatus::Stable {
                    action matches SyncAction::CheckHealth { url } && url@ == spec_health_url(endpoint@)
                        && final(self).endpoint() == endpoint@
                } else {
                    action is Done
                },
                (SyncStage::AwaitingHealth, SyncInput::Health { healthy }) => if healthy {
                    action is FetchUnsynced && final(self).endpoint() == old(self).endpoint()
                } else {
                    action matches SyncAction::Log { level, message } && level == LogLevel::Warn
                        && message@ == "Cloud Offline: /health unreachable"@
                },
                (SyncStage::AwaitingRows, SyncInput::Rows(Ok(rows))) => if rows@.len() > 0 {
                    action matches SyncAction::Upload { endpoint, records } && endpoint@ == old(self).endpoint()
                        && is_batch_of(records@, rows@) && final(self).pending() == row_ids(rows@)
                } else {
                    action is Done
                },
                (SyncStage::AwaitingRows, SyncInput::Rows(Err(e))) => action matches SyncAction::Log { level, message }
                    && level == LogLevel::Error && message@ == "Failed to fetch: "@ + e.spec_message(),
                (SyncStage::AwaitingUpload, SyncInput::Uploaded(outcome)) => match outcome {
                    UploadOutcome::Accepted => action matches SyncAction::MarkSynced { ids }
                        && ids@ == old(self).pending(),
                    UploadOutcome::Rejected { status } => action matches SyncAction::Log { level, message }
                        && level == LogLevel::Error && message@ == "Server rejected batch: HTTP "@ + status@,
                    UploadOutcome::Failed { error } => action matches SyncAction::Log { level, message }
                        && level == LogLevel::Error && message@ == "Upload failed: "@ + error@,
                },
                (SyncStage::AwaitingMarks, SyncInput::Marked { results }) => action matches SyncAction::Log { level, message }
                    && level == LogLevel::Info
                    && message@ == "Synced "@ + decimal(count_true(results@)) + " row(s) successfully"@,
                _ => action is Done,
            },
    {
        let stage = self.stage;
        self.stage = SyncStage::Idle;
        match (stage, input) {
            (SyncStage::Idle, SyncInput::Start { status, endpoint }) => {
                if status == NetworkStatus::Stable {
                    let url = health_url(endpoint.as_str());
                    self.endpoint = endpoint;
                    self.stage = SyncStage::AwaitingHealth;
                    SyncAction::CheckHealth { url }
                } else {
                    SyncAction::Done
                }
            },
            (SyncStage::AwaitingHealth, SyncInput::Health { healthy }) => {
                if healthy {
                    self.stage = SyncStage::AwaitingRows;
                    SyncAction::FetchUnsynced
                } else {
                    SyncAction::Log {
                        level: LogLevel::Warn,
                        message: "Cloud Offline: /health unreachable".to_owned(),
                    }
                }
            },
            (SyncStage::AwaitingRows, SyncInput::Rows(Ok(rows))) => {
                if rows.len() > 0 {
                    let records = build_batch(&rows);
                    self.pending = collect_ids(&rows);
                    self.stage = SyncStage::AwaitingUpload;
                    SyncAction::Upload { endpoint: self.endpoint.clone(), records }
                } else {
                    SyncAction::Done
                }
            },
            (SyncStage::AwaitingRows, SyncInput::Rows(Err(e))) => {
                let mut message = "Failed to fetch: ".to_owned();
                message.append(e.to_message().as_str());
                SyncAction::Log { level: LogLevel::Error, message }
            },
            (SyncStage::AwaitingUpload, SyncInput::Uploaded(outcome)) => {
                match outcome {
                    UploadOutcome::Accepted => {
                        self.stage = SyncStage::AwaitingMarks;
                        SyncAction::MarkSynced { ids: self.pending.clone() }
                    },
                    UploadOutcome::Rejected { status } => {
                        let mut message = "Server rejected batch: HTTP ".to_owned();
                        message.append(status.as_str());
                        SyncAction::Log { level: LogLevel::Error, message }
                    },
                    UploadOutcome::Failed { error } => {
                        let mut message = "Upload failed: ".to_owned();
                        message.append(error.as_str());
                        SyncAction::Log { level: LogLevel::Error, message }
                    },
                }
            },
            (SyncStage::AwaitingMarks, SyncInput::Marked { results }) => {
                let n = count_successes(&results);
                let mut message = "Synced ".to_owned();
                message.append(u64_to_decimal(n).as_str());
                message.append(" row(s) successfully");
                SyncAction::Log { level: LogLevel::Info, message }
            },
            _ => SyncAction::Done,
        }
    }
}

/// Rows are only ever uploaded right after a health check that succeeded,
/// which itself came right after a cycle started with a `Stable` network.
pub proof fn lemma_upload_needs_stable_and_healthy(inputs: Seq<SyncInput>)
    requires
        stage_after(inputs) == SyncStage::AwaitingRows,
    ensures
        inputs.len() >= 2,
        inputs[inputs.len() - 1] matches SyncInput::Health { healthy } && healthy,
        inputs[inputs.len() - 2] matches SyncInput::Start { status, .. } && status == NetworkStatus::Stable,
{
    let prev = inputs.drop_last();
    assert(inputs.len() > 0);
    assert(stage_after(prev) == SyncStage::AwaitingHealth);
    assert(prev.len() > 0);
    assert(prev.last() == inputs[inputs.len() - 2]);
}

/// Rows are only ever marked as synced after the cloud accepted their upload,
/// in a cycle that went through every check: it started with a `Stable`
/// network, the health check succeeded, and a non-empty batch was fetched.
pub proof fn lemma_marking_needs_accepted_upload(inputs: Seq<SyncInput>)
    requires
        stage_after(inputs) == SyncStage::AwaitingMarks,
    ensures
        inputs.len() >= 4,
        inputs[inputs.len() - 1] matches SyncInput::Uploaded(UploadOutcome::Accepted),
        inputs[inputs.len() - 2] matches SyncInput::Rows(Ok(rows)) && rows@.len() > 0,
        inputs[inputs.len() - 3] matches SyncInput::Health { healthy } && healthy,
        inputs[inputs.len() - 4] matches SyncInput::Start { status, .. } && status == NetworkStatus::Stable,
{
    let p1 = inputs.drop_last();
    assert(stage_after(p1) == SyncStage::AwaitingUpload);
    let p2 = p1.drop_last();
    assert(stage_after(p2) == SyncStage::AwaitingRows);
    lemma_upload_needs_stable_and_healthy(p2);
    assert(p1.last() == inputs[inputs.len() - 2]);
    assert(p2[p2.len() - 1] == inputs[inputs.len() - 3]);
    assert(p2[p2.len() - 2] == inputs[inputs.len() - 4]);
}

} // verus!
