//! The table locator: a linear scan of the tables that the enumeration
//! service hands out, index by index, for the first one that can be read as
//! a requested view.

use crate::status::{
    check_status, spec_check_status, spec_is_success, spec_not_found_status, status_not_found,
    AcpiError,
};
use crate::table_view::{decode_table, spec_decode_table, AcpiHeadeds};
use vstd::prelude::*;

verus! {

/// What the enumeration service gave back for one index.
#[derive(Debug, PartialEq, Eq)]
pub struct QueryReply {
    /// The status of the call; the other fields mean something only where
    /// it is success.
    pub status: usize,
    /// The bytes of the table that the service pointed to.
    pub table: Vec<u8>,
    /// The version tag that the service gave with the table. Opaque.
    pub version: u32,
    /// The key that the service gave with the table. Opaque.
    pub table_key: usize,
}

/// A reply as a plain value: the contracts of the scan speak of replies in
/// this form.
pub struct ReplyView {
    /// The status of the call.
    pub status: usize,
    /// The bytes of the table.
    pub table: Seq<u8>,
    /// The version tag that came with the table.
    pub version: u32,
    /// The key that came with the table.
    pub table_key: usize,
}

impl View for QueryReply {
    type V = ReplyView;

    open spec fn view(&self) -> ReplyView {
        ReplyView {
            status: self.status,
            table: self.table@,
            version: self.version,
            table_key: self.table_key,
        }
    }
}

impl Clone for QueryReply {
    fn clone(&self) -> (copy: QueryReply)
        ensures
            copy@ == self@,
    {
        let table = self.table.clone();
        assert(table@ =~= self.table@);
        QueryReply { status: self.status, table, version: self.version, table_key: self.table_key }
    }
}

/// The state of one scan: the index to ask for next, and the version tag
/// and table key that came with the last table. The scan never reads the
/// two; it only carries them.
#[derive(Clone, Copy, Debug, PartialEq, Eq, Structural)]
pub struct EnumerationCursor {
    /// The index to ask for next; a scan starts at 0 and only counts up.
    pub index: usize,
    /// The version tag of the last table.
    pub version: u32,
    /// The key of the last table.
    pub table_key: usize,
}

/// What the scan does after a reply.
#[derive(Debug, PartialEq, Eq)]
pub enum ScanStep<T> {
    /// Ask the service for the index in the cursor.
    Query(EnumerationCursor),
    /// The scan is over: this is the table.
    Found(T),
    /// The scan is over: there is no table.
    Failed(AcpiError),
}

/// Whether the reply carries a table that can be read as the view `T`.
pub open spec fn reply_matches<T: AcpiHeadeds>(reply: ReplyView) -> bool {
    spec_is_success(reply.status) && spec_decode_table::<T>(reply.table) is Some
}

/// Whether a scan for the view `T` ends at this reply: it does at a failure
/// and at a table that matches.
pub open spec fn reply_stops<T: AcpiHeadeds>(reply: ReplyView) -> bool {
    !spec_is_success(reply.status) || reply_matches::<T>(reply)
}

/// The outcome of a scan that ends at this reply.
pub open spec fn reply_verdict<T: AcpiHeadeds>(reply: ReplyView) -> Result<T, AcpiError> {
    match spec_check_status(reply.status) {
        Err(error) => Err(error),
        Ok(_) => match spec_decode_table::<T>(reply.table) {
            Some(table) => Ok(table),
            None => Err(AcpiError::NotFound),
        },
    }
}

/// The index of the first reply, from `from` on, at which a scan for the
/// view `T` ends; the number of replies if there is none.
pub open spec fn scan_stop<T: AcpiHeadeds>(replies: Seq<ReplyView>, from: nat) -> nat
    decreases replies.len() - from,
{
    if from >= replies.len() {
        replies.len()
    } else if reply_stops::<T>(replies[from as int]) {
        from
    } else {
        scan_stop::<T>(replies, from + 1)
    }
}

/// The outcome of a scan for the view `T` when the service answers index
/// `i` with `replies[i]` and any further index with "not found": the
/// verdict of the first reply that ends the scan.
pub open spec fn spec_locate<T: AcpiHeadeds>(replies: Seq<ReplyView>) -> Result<T, AcpiError> {
    let stop = scan_stop::<T>(replies, 0);
    if stop < replies.len() {
        reply_verdict::<T>(replies[stop as int])
    } else {
        Err(AcpiError::NotFound)
    }
}

/// Whether a scan for the view `T` reaches a matching table: some reply
/// matches, and no reply up to it is a failure.
pub open spec fn reaches_match<T: AcpiHeadeds>(replies: Seq<ReplyView>) -> bool {
    exists|i: int|
        #![trigger replies[i]]
        0 <= i < replies.len() && reply_matches::<T>(replies[i]) && forall|k: int|
            0 <= k < i ==> spec_is_success(#[trigger] replies[k].status)
}

/// A scan stops at the first reply that ends it: every reply before the
/// stop is a table that does not match, and the reply at the stop, if the
/// stop is a reply at all, is a failure or a table that matches.
pub proof fn lemma_scan_stop_is_first<T: AcpiHeadeds>(replies: Seq<ReplyView>, from: nat)
    requires
        from <= replies.len(),
    ensures
        from <= scan_stop::<T>(replies, from) <= replies.len(),
        forall|j: int|
            from <= j < scan_stop::<T>(replies, from) ==> !reply_stops::<T>(#[trigger] replies[j]),
        scan_stop::<T>(replies, from) < replies.len() ==> reply_stops::<T>(
            replies[scan_stop::<T>(replies, from) as int],
        ),
    decreases replies.len() - from,
{
    if from < replies.len() && !reply_stops::<T>(replies[from as int]) {
        lemma_scan_stop_is_first::<T>(replies, from + 1);
    }
}

/// There is one first reply that ends a scan, and the scan stops there.
pub proof fn lemma_first_stop_is_scan_stop<T: AcpiHeadeds>(
    replies: Seq<ReplyView>,
    from: nat,
    stop: nat,
)
    requires
        from <= stop <= replies.len(),
        forall|j: int| from <= j < stop ==> !reply_stops::<T>(#[trigger] replies[j]),
        stop < replies.len() ==> reply_stops::<T>(replies[stop as int]),
    ensures
        scan_stop::<T>(replies, from) == stop,
    decreases stop - from,
{
    if from < stop {
        assert(!reply_stops::<T>(replies[from as int]));
        lemma_first_stop_is_scan_stop::<T>(replies, from + 1, stop);
    }
}

/// Running out of replies and being told "not found" are the same to a
/// scan: a last reply with that status can be left out or put in.
pub proof fn lemma_not_found_ends_the_replies<T: AcpiHeadeds>(
    replies: Seq<ReplyView>,
    last: ReplyView,
)
    requires
        last.status == spec_not_found_status(),
    ensures
        spec_locate::<T>(replies.push(last)) == spec_locate::<T>(replies),
{
    let longer = replies.push(last);
    let stop = scan_stop::<T>(replies, 0);
    lemma_scan_stop_is_first::<T>(replies, 0);
    assert forall|j: int| 0 <= j < stop implies !reply_stops::<T>(#[trigger] longer[j]) by {
        assert(longer[j] == replies[j]);
    }
    if stop < replies.len() {
        assert(longer[stop as int] == replies[stop as int]);
    } else {
        assert(longer[stop as int] == last);
    }
    lemma_first_stop_is_scan_stop::<T>(longer, 0, stop);
}

/// A scan returns a table exactly when it reaches a matching one.
pub proof fn lemma_locate_ok_iff_reaches_match<T: AcpiHeadeds>(replies: Seq<ReplyView>)
    ensures
        spec_locate::<T>(replies) is Ok <==> reaches_match::<T>(replies),
{
    let stop = scan_stop::<T>(replies, 0);
    lemma_scan_stop_is_first::<T>(replies, 0);
    if spec_locate::<T>(replies) is Ok {
        assert(reply_matches::<T>(replies[stop as int]));
        assert forall|k: int| 0 <= k < stop implies spec_is_success(
            #[trigger] replies[k].status,
        ) by {
            assert(!reply_stops::<T>(replies[k]));
        }
    }
    if reaches_match::<T>(replies) {
        let i = choose|i: int|
            #![trigger replies[i]]
            0 <= i < replies.len() && reply_matches::<T>(replies[i]) && forall|k: int|
                0 <= k < i ==> spec_is_success(#[trigger] replies[k].status);
        assert(reply_stops::<T>(replies[i]));
        assert(stop <= i);
        assert(spec_is_success(replies[stop as int].status));
    }
}

/// Where the first table that matches is reached, the scan returns that
/// table, whole: later tables that match as well are never returned.
pub proof fn lemma_locate_returns_first_match<T: AcpiHeadeds>(replies: Seq<ReplyView>, i: int)
    requires
        0 <= i < replies.len(),
        reply_matches::<T>(replies[i]),
        forall|k: int|
            0 <= k < i ==> spec_is_success((#[trigger] replies[k]).status) && !reply_matches::<T>(
                replies[k],
            ),
    ensures
        spec_locate::<T>(replies) == Ok::<T, AcpiError>(
            spec_decode_table::<T>(replies[i].table).unwrap(),
        ),
{
    lemma_first_stop_is_scan_stop::<T>(replies, 0, i as nat);
}

/// A scan does not go on past the first match: whatever the service would
/// answer after it has no part in the outcome.
pub proof fn lemma_locate_ignores_replies_after_match<T: AcpiHeadeds>(
    replies: Seq<ReplyView>,
    other: Seq<ReplyView>,
    i: int,
)
    requires
        0 <= i < replies.len(),
        reply_matches::<T>(replies[i]),
        forall|k: int|
            0 <= k < i ==> spec_is_success((#[trigger] replies[k]).status) && !reply_matches::<T>(
                replies[k],
            ),
        i < other.len(),
        forall|k: int| 0 <= k <= i ==> #[trigger] other[k] == replies[k],
    ensures
        spec_locate::<T>(other) == spec_locate::<T>(replies),
{
    lemma_locate_returns_first_match::<T>(replies, i);
    assert(other[i] == replies[i]);
    assert forall|k: int| 0 <= k < i implies spec_is_success((#[trigger] other[k]).status)
        && !reply_matches::<T>(other[k]) by {
        assert(other[k] == replies[k]);
    }
    lemma_locate_returns_first_match::<T>(other, i);
}

/// Where a failure comes before any table that matches, the scan ends with
/// the error of that failure: "not found" for the status of that name, a
/// failed query with the status for any other.
pub proof fn lemma_locate_reports_first_failure<T: AcpiHeadeds>(replies: Seq<ReplyView>, i: int)
    requires
        0 <= i < replies.len(),
        !spec_is_success(replies[i].status),
        forall|k: int|
            0 <= k < i ==> spec_is_success((#[trigger] replies[k]).status) && !reply_matches::<T>(
                replies[k],
            ),
    ensures
        spec_check_status(replies[i].status) is Err,
        spec_locate::<T>(replies) == Err::<T, AcpiError>(
            spec_check_status(replies[i].status)->Err_0,
        ),
{
    lemma_first_stop_is_scan_stop::<T>(replies, 0, i as nat);
}

/// Where the replies end in a failure and no matching table is reached
/// before one, the scan returns no table: it ends with "not found" or with
/// a failed query.
pub proof fn lemma_locate_fails_where_replies_end_in_failure<T: AcpiHeadeds>(
    replies: Seq<ReplyView>,
)
    requires
        replies.len() > 0,
        !spec_is_success(replies.last().status),
        !reaches_match::<T>(replies),
    ensures
        spec_locate::<T>(replies) matches Err(error) && (error == AcpiError::NotFound
            || error is QueryFailed),
{
    lemma_locate_ok_iff_reaches_match::<T>(replies);
    lemma_scan_stop_is_first::<T>(replies, 0);
    let stop = scan_stop::<T>(replies, 0);
    assert(reply_stops::<T>(replies.last()));
    if stop == replies.len() {
        assert(!reply_stops::<T>(replies[replies.len() - 1]));
    }
}

impl EnumerationCursor {
    /// The cursor of a scan that has not asked yet.
    pub fn new() -> (cursor: EnumerationCursor)
        ensures
            cursor == (EnumerationCursor { index: 0, version: 0, table_key: 0 }),
    {
        EnumerationCursor { index: 0, version: 0, table_key: 0 }
    }

    /// The index that the scan asks for next.
    pub fn index(&self) -> (index: usize)
        ensures
            index == self.index,
    {
        self.index
    }

    /// What the scan does when the service answers the cursor's index with
    /// `reply`.
    ///
    /// A failure ends the scan with its error: the scan asks no index
    /// twice. A table that can be read as `T` ends it with that table. Any
    /// other table makes the scan go on to the next index, with the tag and
    /// the key of the reply in the cursor; where there is no next index,
    /// the scan has run out.
    pub open spec fn spec_advance<T: AcpiHeadeds>(self, reply: ReplyView) -> ScanStep<T> {
        match spec_check_status(reply.status) {
            Err(error) => ScanStep::Failed(error),
            Ok(_) => match spec_decode_table::<T>(reply.table) {
                Some(table) => ScanStep::Found(table),
                None => if self.index < usize::MAX {
                    ScanStep::Query(
                        EnumerationCursor {
                            index: (self.index + 1) as usize,
                            version: reply.version,
                            table_key: reply.table_key,
                        },
                    )
                } else {
                    ScanStep::Failed(AcpiError::NotFound)
                },
            },
        }
    }

    /// Decides what the scan does when the service answers the cursor's
    /// index with `reply`.
    pub fn advance<T: AcpiHeadeds>(self, reply: &QueryReply) -> (step: ScanStep<T>)
        ensures
            step == self.spec_advance::<T>(reply@),
    {
        match check_status(reply.status) {
            Err(error) => ScanStep::Failed(error),
            Ok(_) => match decode_table::<T>(reply.table.as_slice()) {
                Some(table) => ScanStep::Found(table),
                None => if self.index < usize::MAX {
                    ScanStep::Query(
                        EnumerationCursor {
                            index: self.index + 1,
                            version: reply.version,
                            table_key: reply.table_key,
                        },
                    )
                } else {
                    ScanStep::Failed(AcpiError::NotFound)
                },
            },
        }
    }
}

/// The outcome of stepping through `replies` from `cursor` on, one
/// [`EnumerationCursor::spec_advance`] per reply, where the reply to the
/// cursor's index is `replies[cursor.index]` and the replies have run out
/// once the index is past the last of them.
pub open spec fn spec_run<T: AcpiHeadeds>(
    cursor: EnumerationCursor,
    replies: Seq<ReplyView>,
) -> Result<T, AcpiError>
    decreases replies.len() - cursor.index,
{
    if cursor.index >= replies.len() {
        Err(AcpiError::NotFound)
    } else {
        match cursor.spec_advance::<T>(replies[cursor.index as int]) {
            ScanStep::Query(next) => {
                proof {
                    assert(next.index == cursor.index + 1);
                }
                spec_run::<T>(next, replies)
            },
            ScanStep::Found(table) => Ok(table),
            ScanStep::Failed(error) => Err(error),
        }
    }
}

/// Stepping through the replies is the scan: a caller that starts with a
/// new cursor, puts each question to the service itself and follows
/// [`EnumerationCursor::advance`] ends with the outcome of
/// [`AcpiSdt::locate_table_by_signature`].
pub proof fn lemma_run_is_locate<T: AcpiHeadeds>(cursor: EnumerationCursor, replies: Seq<ReplyView>)
    requires
        cursor.index <= replies.len(),
        replies.len() <= usize::MAX,
        scan_stop::<T>(replies, 0) == scan_stop::<T>(replies, cursor.index as nat),
    ensures
        spec_run::<T>(cursor, replies) == spec_locate::<T>(replies),
    decreases replies.len() - cursor.index,
{
    if cursor.index < replies.len() {
        let reply = replies[cursor.index as int];
        if !reply_stops::<T>(reply) {
            let next = cursor.spec_advance::<T>(reply)->Query_0;
            lemma_run_is_locate::<T>(next, replies);
        }
    }
}

/// The enumeration service as a record of its answers: the reply to index
/// `i` is `replies[i]`, and the reply to any further index is "not found".
pub struct AcpiSdt {
    /// The replies, by index.
    pub replies: Vec<QueryReply>,
}

impl View for AcpiSdt {
    type V = Seq<ReplyView>;

    open spec fn view(&self) -> Seq<ReplyView> {
        Seq::new(self.replies@.len(), |i: int| self.replies@[i]@)
    }
}

impl AcpiSdt {
    /// The service that answers with `replies`, in this order.
    pub fn new(replies: Vec<QueryReply>) -> (sdt: AcpiSdt)
        ensures
            sdt.replies == replies,
    {
        AcpiSdt { replies }
    }

    /// Finds the first table that can be read as the view `T`.
    ///
    /// The scan starts at index 0 and asks for one index after the other.
    /// It ends at the first failure, with the error of that failure, and at
    /// the first table that carries the signature of `T`, with that table
    /// read as `T`. What the service would answer after that is not asked
    /// for.
    pub fn locate_table_by_signature<T: AcpiHeadeds>(&self) -> (found: Result<T, AcpiError>)
        ensures
            found == spec_locate::<T>(self@),
            found is Ok <==> reaches_match::<T>(self@),
    {
        proof {
            lemma_locate_ok_iff_reaches_match::<T>(self@);
        }
        let past_the_end = QueryReply {
            status: status_not_found(),
            table: Vec::new(),
            version: 0,
            table_key: 0,
        };
        let mut cursor = EnumerationCursor::new();
        loop
            invariant
                cursor.index <= self.replies.len(),
                scan_stop::<T>(self@, 0) == scan_stop::<T>(self@, cursor.index as nat),
                spec_locate::<T>(self@) is Ok <==> reaches_match::<T>(self@),
                spec_check_status(past_the_end.status) == Err::<(), AcpiError>(AcpiError::NotFound),
            decreases self.replies.len() - cursor.index,
        {
            let index: usize = cursor.index();
            if index < self.replies.len() {
                assert(self@[index as int] == self.replies@[index as int]@);
                match cursor.advance::<T>(&self.replies[index]) {
                    ScanStep::Query(next) => {
                        cursor = next;
                    },
                    ScanStep::Found(table) => {
                        return Ok(table);
                    },
                    ScanStep::Failed(error) => {
                        return Err(error);
                    },
                }
            } else {
                match cursor.advance::<T>(&past_the_end) {
                    ScanStep::Query(next) => {
                        cursor = next;
                    },
                    ScanStep::Found(table) => {
                        return Ok(table);
                    },
                    ScanStep::Failed(error) => {
                        return Err(error);
                    },
                }
            }
        }
    }
}

} // verus!
