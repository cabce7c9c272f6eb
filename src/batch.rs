use vstd::prelude::*;

verus! {

/// The payload each queue message carries.
pub struct MyStruct {
    pub name: String,
    pub surname: String,
}

/// One message that the queue should deliver again.
pub struct ItemIdentifier {
    pub item_identifier: String,
}

/// The partial-failure answer to a batch: the messages that failed.
pub struct BatchItemFailures {
    pub batch_item_failures: Vec<ItemIdentifier>,
}

impl View for BatchItemFailures {
    type V = Seq<Seq<char>>;

    open spec fn view(&self) -> Seq<Seq<char>> {
        self.batch_item_failures@.map_values(|i: ItemIdentifier| i.item_identifier@)
    }
}

/// What became of one record of a batch.
#[derive(PartialEq, Eq, Structural, Clone, Copy, Debug)]
pub enum RecordOutcome {
    /// The record had no body: there was nothing to do.
    NoBody,
    /// The body was parsed and processed.
    Succeeded,
    /// The body could not be parsed, or processing it failed.
    Failed,
}

/// One record's identifier and outcome, as its task reports them.
pub struct RecordResult {
    pub message_id: Option<String>,
    pub outcome: RecordOutcome,
}

/// The outcome of a record's task: `None` when the record had no body, else
/// the result of parsing and processing it.
pub fn record_outcome(handled: &Option<Result<(), String>>) -> (r: RecordOutcome)
    ensures
        r == match handled {
            None => RecordOutcome::NoBody,
            Some(Ok(_)) => RecordOutcome::Succeeded,
            Some(Err(_)) => RecordOutcome::Failed,
        },
{
    match handled {
        None => RecordOutcome::NoBody,
        Some(Ok(_)) => RecordOutcome::Succeeded,
        Some(Err(_)) => RecordOutcome::Failed,
    }
}

/// The identifiers of the failed records, in batch order. A failed record
/// without an identifier cannot be named and is left out.
pub open spec fn failed_ids(rs: Seq<RecordResult>) -> Seq<Seq<char>>
    decreases rs.len(),
{
    if rs.len() == 0 {
        Seq::empty()
    } else {
        let f = failed_ids(rs.drop_last());
        let r = rs.last();
        if r.outcome == RecordOutcome::Failed && r.message_id is Some {
            f.push(r.message_id->0@)
        } else {
            f
        }
    }
}

/// Number of failed records.
pub open spec fn count_failed(rs: Seq<RecordResult>) -> nat
    decreases rs.len(),
{
    if rs.len() == 0 {
        0
    } else {
        count_failed(rs.drop_last()) + if rs.last().outcome == RecordOutcome::Failed {
            1nat
        } else {
            0nat
        }
    }
}

/// Merges the results of a batch's record tasks, once all have finished,
/// into the partial-failure answer.
pub fn collect_failures(results: &Vec<RecordResult>) -> (r: BatchItemFailures)
    ensures
        r@ == failed_ids(results@),
{
    let mut failures: Vec<ItemIdentifier> = Vec::new();
    let mut i: usize = 0;
    while i < results.len()
        invariant
            i <= results@.len(),
            failures@.map_values(|x: ItemIdentifier| x.item_identifier@) == failed_ids(
                results@.take(i as int),
            ),
        decreases results@.len() - i,
    {
        let r = &results[i];
        assert(results@.take(i as int + 1).drop_last() =~= results@.take(i as int));
        if r.outcome == RecordOutcome::Failed {
            match &r.message_id {
                Some(m) => {
                    failures.push(ItemIdentifier { item_identifier: m.clone() });
                },
                None => {},
            }
        }
        assert(failures@.map_values(|x: ItemIdentifier| x.item_identifier@) =~= failed_ids(
            results@.take(i as int + 1),
        ));
        i = i + 1;
    }
    assert(results@.take(results@.len() as int) =~= results@);
    BatchItemFailures { batch_item_failures: failures }
}

proof fn lemma_failed_count(rs: Seq<RecordResult>)
    ensures
        count_failed(rs) <= rs.len(),
        (forall|i: int|
            0 <= i < rs.len() && rs[i].outcome == RecordOutcome::Failed ==> rs[i].message_id is Some)
            ==> failed_ids(rs).len() == count_failed(rs),
    decreases rs.len(),
{
    if rs.len() > 0 {
        let pre = rs.drop_last();
        lemma_failed_count(pre);
        if forall|i: int|
            0 <= i < rs.len() && rs[i].outcome == RecordOutcome::Failed ==> rs[i].message_id is Some {
            assert forall|i: int|
                0 <= i < pre.len() && pre[i].outcome == RecordOutcome::Failed implies pre[i].message_id is Some by {
                assert(pre[i] == rs[i]);
            }
            assert(rs[rs.len() - 1] == rs.last());
        }
    }
}

proof fn lemma_not_named(rs: Seq<RecordResult>, x: Seq<char>)
    requires
        forall|i: int|
            0 <= i < rs.len() && rs[i].outcome == RecordOutcome::Failed && rs[i].message_id is Some
                ==> rs[i].message_id->0@ != x,
    ensures
        !failed_ids(rs).contains(x),
    decreases rs.len(),
{
    if rs.len() > 0 {
        let pre = rs.drop_last();
        assert forall|i: int|
            0 <= i < pre.len() && pre[i].outcome == RecordOutcome::Failed && pre[i].message_id is Some
            implies pre[i].message_id->0@ != x by {
            assert(pre[i] == rs[i]);
        }
        lemma_not_named(pre, x);
        assert(rs[rs.len() - 1] == rs.last());
        let f0 = failed_ids(pre);
        if failed_ids(rs).contains(x) {
            let j = choose|j: int| 0 <= j < failed_ids(rs).len() && failed_ids(rs)[j] == x;
            if j < f0.len() {
                assert(failed_ids(rs)[j] == f0[j]);
            }
        }
    }
}

proof fn lemma_named(rs: Seq<RecordResult>, i: int)
    requires
        0 <= i < rs.len(),
        rs[i].outcome == RecordOutcome::Failed,
        rs[i].message_id is Some,
    ensures
        failed_ids(rs).contains(rs[i].message_id->0@),
    decreases rs.len(),
{
    let pre = rs.drop_last();
    let x = rs[i].message_id->0@;
    if i < rs.len() - 1 {
        assert(pre[i] == rs[i]);
        lemma_named(pre, i);
        let f0 = failed_ids(pre);
        let j = choose|j: int| 0 <= j < f0.len() && f0[j] == x;
        assert(failed_ids(rs)[j] == f0[j]);
    } else {
        assert(rs.last() == rs[i]);
        assert(failed_ids(rs)[failed_ids(rs).len() - 1] == x);
    }
}

/// Partial failure: of a batch of `K` records, `M` of which failed (each with
/// an identifier, no two records sharing one), the answer names exactly `M`
/// messages: every failed record, and none of the `K - M` others, which count
/// as succeeded.
pub proof fn lemma_partial_failure(rs: Seq<RecordResult>)
    requires
        forall|i: int|
            0 <= i < rs.len() && rs[i].outcome == RecordOutcome::Failed ==> rs[i].message_id is Some,
        forall|i: int, k: int|
            0 <= i < rs.len() && 0 <= k < rs.len() && i != k && rs[i].message_id is Some
                && rs[k].message_id is Some ==> rs[i].message_id->0@ != rs[k].message_id->0@,
    ensures
        failed_ids(rs).len() == count_failed(rs),
        count_failed(rs) <= rs.len(),
        forall|i: int|
            0 <= i < rs.len() && rs[i].outcome == RecordOutcome::Failed ==> failed_ids(rs).contains(
                #[trigger] rs[i].message_id->0@,
            ),
        forall|i: int|
            0 <= i < rs.len() && rs[i].outcome != RecordOutcome::Failed && rs[i].message_id is Some
                ==> !failed_ids(rs).contains(#[trigger] rs[i].message_id->0@),
{
    lemma_failed_count(rs);
    assert forall|i: int|
        0 <= i < rs.len() && rs[i].outcome == RecordOutcome::Failed implies failed_ids(rs).contains(
        #[trigger] rs[i].message_id->0@,
    ) by {
        lemma_named(rs, i);
    }
    assert forall|i: int|
        0 <= i < rs.len() && rs[i].outcome != RecordOutcome::Failed && rs[i].message_id is Some
        implies !failed_ids(rs).contains(#[trigger] rs[i].message_id->0@) by {
        lemma_not_named(rs, rs[i].message_id->0@);
    }
}

} // verus!
