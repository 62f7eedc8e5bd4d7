use crate::decimal::{decimal_of, to_decimal};
use crate::destination::{escapes, escapes_base};
use crate::naming::{is_ignored, is_ignored_name};
use vstd::prelude::*;
use vstd::string::*;

verus! {

/// Where a batch stores its files.
#[derive(Clone, Copy, Debug, PartialEq, Eq, Structural)]
pub enum Destination {
    Local,
    ObjectStore,
}

/// What the orchestrator does with one decoded field.
#[derive(Clone, Copy, Debug, PartialEq, Eq, Structural)]
pub enum FieldAction {
    /// Not counted and not stored.
    Skip,
    /// Counted as a failed attempt without being stored: the name would leave
    /// the destination.
    Reject,
    /// Stored; the outcome decides whether it counts as a success.
    Attempt,
}

/// The action for a field with this filename.
pub open spec fn action_of(name: Seq<char>) -> FieldAction {
    if is_ignored_name(name) {
        FieldAction::Skip
    } else if escapes_base(name) {
        FieldAction::Reject
    } else {
        FieldAction::Attempt
    }
}

/// Decides what to do with a decoded field.
pub fn decide(filename: &str) -> (r: FieldAction)
    ensures
        r == action_of(filename@),
{
    if is_ignored(filename) {
        FieldAction::Skip
    } else if escapes(filename) {
        FieldAction::Reject
    } else {
        FieldAction::Attempt
    }
}

/// Appends one chunk of a field's body, in arrival order, to what has arrived of
/// it so far.
pub fn append_chunk(buf: &mut Vec<u8>, chunk: &[u8])
    ensures
        final(buf)@ == old(buf)@ + chunk@,
{
    buf.extend_from_slice(chunk);
    assert(buf@ =~= old(buf)@ + chunk@);
}

/// Running counts of one batch.
#[derive(Clone, Copy, Debug, PartialEq, Eq, Structural)]
pub struct UploadSummary {
    /// Fields that were not skipped.
    pub attempted: u64,
    /// Fields that were stored.
    pub succeeded: u64,
}

impl UploadSummary {
    pub open spec fn wf(&self) -> bool {
        self.succeeded <= self.attempted
    }

    /// The counts of a batch before its first field.
    pub fn new() -> (r: UploadSummary)
        ensures
            r.attempted == 0,
            r.succeeded == 0,
            r.wf(),
    {
        UploadSummary { attempted: 0, succeeded: 0 }
    }

    /// Records the outcome of one field that was not skipped.
    pub fn record(&mut self, stored: bool)
        requires
            old(self).wf(),
            old(self).attempted < u64::MAX,
        ensures
            final(self).wf(),
            final(self).attempted == old(self).attempted + 1,
            final(self).succeeded == old(self).succeeded + if stored { 1int } else { 0int },
    {
        self.attempted = self.attempted + 1;
        if stored {
            self.succeeded = self.succeeded + 1;
        }
    }

    /// The summary line that the batch answers with.
    pub fn message(&self, destination: Destination) -> (r: String)
        ensures
            r@ == summary_message_of(self.succeeded as nat, destination),
    {
        let mut r = to_decimal(self.succeeded);
        match destination {
            Destination::Local => r.append(" files uploaded successfully"),
            Destination::ObjectStore => r.append(" files uploaded to S3"),
        }
        r
    }
}

/// `"<n> files uploaded successfully"` for local storage, `"<n> files uploaded to
/// S3"` for the object store.
pub open spec fn summary_message_of(n: nat, destination: Destination) -> Seq<char> {
    match destination {
        Destination::Local => decimal_of(n) + " files uploaded successfully"@,
        Destination::ObjectStore => decimal_of(n) + " files uploaded to S3"@,
    }
}

/// One decoded field and whether storing it went through (meaningless for a
/// field that is skipped or rejected).
#[derive(Clone, Debug)]
pub struct FieldReport {
    pub filename: String,
    pub stored: bool,
}

impl View for FieldReport {
    type V = (Seq<char>, bool);

    open spec fn view(&self) -> (Seq<char>, bool) {
        (self.filename@, self.stored)
    }
}

/// A field counts as attempted unless it is skipped.
pub open spec fn is_attempted(f: (Seq<char>, bool)) -> bool {
    !is_ignored_name(f.0)
}

/// A field counts as a success when it was attempted, not rejected, and stored.
pub open spec fn is_success(f: (Seq<char>, bool)) -> bool {
    action_of(f.0) == FieldAction::Attempt && f.1
}

/// The number of attempted fields of a batch.
pub open spec fn attempted_count(fs: Seq<(Seq<char>, bool)>) -> nat
    decreases fs.len(),
{
    if fs.len() == 0 {
        0
    } else {
        attempted_count(fs.drop_last()) + if is_attempted(fs.last()) { 1nat } else { 0nat }
    }
}

/// The number of successful fields of a batch.
pub open spec fn succeeded_count(fs: Seq<(Seq<char>, bool)>) -> nat
    decreases fs.len(),
{
    if fs.len() == 0 {
        0
    } else {
        succeeded_count(fs.drop_last()) + if is_success(fs.last()) { 1nat } else { 0nat }
    }
}

/// The number of fields whose storing failed.
pub open spec fn failed_count(fs: Seq<(Seq<char>, bool)>) -> nat
    decreases fs.len(),
{
    if fs.len() == 0 {
        0
    } else {
        failed_count(fs.drop_last()) + if !fs.last().1 { 1nat } else { 0nat }
    }
}

proof fn lemma_counts_bounded(fs: Seq<(Seq<char>, bool)>)
    ensures
        succeeded_count(fs) <= attempted_count(fs) <= fs.len(),
    decreases fs.len(),
{
    if fs.len() > 0 {
        lemma_counts_bounded(fs.drop_last());
    }
}

/// Runs the orchestrator over the fields of a batch, in order: each field is
/// decided on, and every field that is not skipped is counted, whatever became
/// of the fields before it.
pub fn summarize(fields: &Vec<FieldReport>) -> (r: UploadSummary)
    requires
        fields@.len() < u64::MAX,
    ensures
        r.wf(),
        r.attempted == attempted_count(fields@.map_values(|f: FieldReport| f@)),
        r.succeeded == succeeded_count(fields@.map_values(|f: FieldReport| f@)),
{
    let ghost all = fields@.map_values(|f: FieldReport| f@);
    let mut summary = UploadSummary::new();
    let mut i: usize = 0;
    while i < fields.len()
        invariant
            all == fields@.map_values(|f: FieldReport| f@),
            fields@.len() < u64::MAX,
            i <= fields@.len(),
            summary.wf(),
            summary.attempted == attempted_count(all.subrange(0, i as int)),
            summary.succeeded == succeeded_count(all.subrange(0, i as int)),
        decreases fields@.len() - i,
    {
        let ghost prefix = all.subrange(0, i as int + 1);
        proof {
            assert(prefix.drop_last() =~= all.subrange(0, i as int));
            assert(prefix.last() == fields@[i as int]@);
            lemma_counts_bounded(all.subrange(0, i as int));
        }
        let field = &fields[i];
        match decide(field.filename.as_str()) {
            FieldAction::Skip => {},
            FieldAction::Reject => summary.record(false),
            FieldAction::Attempt => summary.record(field.stored),
        }
        i += 1;
    }
    assert(all.subrange(0, fields@.len() as int) =~= all);
    summary
}

/// A field whose name is or holds `.DS_Store` changes neither count of a batch.
pub proof fn lemma_ignored_field_not_counted(fs: Seq<(Seq<char>, bool)>, f: (Seq<char>, bool))
    requires
        is_ignored_name(f.0),
    ensures
        attempted_count(fs.push(f)) == attempted_count(fs),
        succeeded_count(fs.push(f)) == succeeded_count(fs),
{
    assert(fs.push(f).drop_last() =~= fs);
}

/// A batch of N fields, each with a storable name and each stored, reports N
/// attempted and N succeeded.
pub proof fn lemma_all_stored(fs: Seq<(Seq<char>, bool)>)
    requires
        forall|i: int| 0 <= i < fs.len() ==> action_of(#[trigger] fs[i].0) == FieldAction::Attempt,
        forall|i: int| 0 <= i < fs.len() ==> #[trigger] fs[i].1,
    ensures
        attempted_count(fs) == fs.len(),
        succeeded_count(fs) == fs.len(),
    decreases fs.len(),
{
    if fs.len() > 0 {
        let p = fs.drop_last();
        assert forall|i: int| 0 <= i < p.len() implies action_of(#[trigger] p[i].0)
            == FieldAction::Attempt && p[i].1 by {
            assert(p[i] == fs[i]);
        }
        lemma_all_stored(p);
        assert(action_of(fs.last().0) == FieldAction::Attempt);
    }
}

/// In a batch of N fields with storable names of which K fail to be stored,
/// all N are attempted, the later ones included, and N - K succeed.
pub proof fn lemma_failures_subtract(fs: Seq<(Seq<char>, bool)>)
    requires
        forall|i: int| 0 <= i < fs.len() ==> action_of(#[trigger] fs[i].0) == FieldAction::Attempt,
    ensures
        attempted_count(fs) == fs.len(),
        failed_count(fs) <= fs.len(),
        succeeded_count(fs) == fs.len() - failed_count(fs),
    decreases fs.len(),
{
    if fs.len() > 0 {
        let p = fs.drop_last();
        assert forall|i: int| 0 <= i < p.len() implies action_of(#[trigger] p[i].0)
            == FieldAction::Attempt by {
            assert(p[i] == fs[i]);
        }
        lemma_failures_subtract(p);
        assert(action_of(fs.last().0) == FieldAction::Attempt);
    }
}

} // verus!
