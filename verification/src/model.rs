//! The record cursor as mathematics: its state, the requests it makes and
//! the way it moves on what comes back.

use crate::auth::ConfigView;
use crate::errors::GlideError;
use crate::http::{header_value, json_headers, Method, RequestView};
use crate::text::{decimal, parse_decimal};
use vstd::prelude::*;
use vstd::string::StringSliceAdditionalSpecFns;

verus! {

/// The largest number of records that a new cursor yields, and the largest
/// number that it asks for at once.
pub const DEFAULT_LIMIT: u32 = 10000;

/// The header field in which the instance reports how many records match.
pub const TOTAL_COUNT_HEADER: &'static str = "x-total-count";

/// The character that joins the clauses of an encoded query.
pub open spec fn separator() -> Seq<char> {
    seq!['^']
}

/// `query` with `clause` added: joined by the separator where `query`
/// already holds something.
pub open spec fn append_clause(query: Seq<char>, clause: Seq<char>) -> Seq<char> {
    if query.len() == 0 {
        clause
    } else {
        query + separator() + clause
    }
}

/// The query that results from adding `clauses` to `query` one after the
/// other.
pub open spec fn append_clauses(query: Seq<char>, clauses: Seq<Seq<char>>) -> Seq<char>
    decreases clauses.len(),
{
    if clauses.len() == 0 {
        query
    } else {
        append_clause(append_clauses(query, clauses.drop_last()), clauses.last())
    }
}

/// `clauses` written one after the other with the separator between each
/// two of them.
pub open spec fn joined(clauses: Seq<Seq<char>>) -> Seq<char>
    decreases clauses.len(),
{
    if clauses.len() == 0 {
        Seq::empty()
    } else if clauses.len() == 1 {
        clauses[0]
    } else {
        joined(clauses.drop_last()) + separator() + clauses.last()
    }
}

/// The address of a table of an instance.
pub open spec fn table_url(instance: Seq<char>, table: Seq<char>) -> Seq<char> {
    "https://"@ + instance + "/api/now/table/"@ + table
}

/// The address of one record of a table.
pub open spec fn record_url(instance: Seq<char>, table: Seq<char>, sys_id: Seq<char>) -> Seq<
    char,
> {
    table_url(instance, table) + "/"@ + sys_id
}

/// The address of one page of a query on a table.
pub open spec fn page_url(
    instance: Seq<char>,
    table: Seq<char>,
    query: Seq<char>,
    limit: nat,
    offset: nat,
) -> Seq<char> {
    table_url(instance, table) + "?sysparm_query="@ + query + "&sysparm_limit="@ + decimal(limit)
        + "&sysparm_offset="@ + decimal(offset)
}

/// The total number of matching records that a response reports in its
/// first `x-total-count` header field, where it has one and that one reads
/// as a number.
pub open spec fn total_count_in(headers: Seq<(Seq<u8>, Seq<u8>)>) -> Option<u32> {
    match header_value(headers, TOTAL_COUNT_HEADER.spec_bytes()) {
        Some(value) => parse_decimal(value),
        None => None,
    }
}

/// How an attempt to fetch a batch ended.
pub enum FetchOutcome<T> {
    /// The transport failed.
    Unreachable,
    /// A response came, with a body that is no batch.
    Undecodable,
    /// A response came with these records, and with this total count where
    /// its header reports one.
    Batch { total_count: Option<u32>, records: Seq<T> },
}

/// The state of a cursor.
pub struct CursorView<T, C> {
    pub table_name: Seq<char>,
    pub encoded_query: Seq<char>,
    /// The most records that the cursor ever yields.
    pub query_limit: nat,
    /// The number of records that the cursor has yielded.
    pub offset: nat,
    /// The number of matching records, once the instance has reported it.
    pub total_count: Option<nat>,
    pub config: ConfigView,
    /// Whether the query has been started since its filter last changed.
    pub started: bool,
    /// The most records that the cursor asks for at once.
    pub batch_size: nat,
    /// The records that were fetched and not yet yielded, next one first.
    pub pending: Seq<T>,
    /// The transport that the cursor sends its requests through.
    pub client: C,
}

impl<T, C> CursorView<T, C> {
    /// The state of a new cursor on a table, which sends through `client`.
    pub open spec fn fresh(table_name: Seq<char>, config: ConfigView, client: C) -> CursorView<
        T,
        C,
    > {
        CursorView {
            table_name,
            encoded_query: Seq::empty(),
            query_limit: DEFAULT_LIMIT as nat,
            offset: 0,
            total_count: None,
            config,
            started: false,
            batch_size: DEFAULT_LIMIT as nat,
            pending: Seq::empty(),
            client,
        }
    }

    /// What holds of every cursor: it asks for at least one record at once
    /// and for no more than it may yield.
    pub open spec fn wf(self) -> bool {
        1 <= self.batch_size <= self.query_limit
    }

    /// The state after a filter clause was added: the query has to be
    /// started again.
    pub open spec fn with_clause(self, clause: Seq<char>) -> CursorView<T, C> {
        CursorView {
            encoded_query: append_clause(self.encoded_query, clause),
            started: false,
            ..self
        }
    }

    /// The state after the limit was set to `limit`, or to one where `limit`
    /// is zero. A larger batch size shrinks to the new limit.
    pub open spec fn with_limit(self, limit: nat) -> CursorView<T, C> {
        let query_limit = if limit == 0 {
            1
        } else {
            limit
        };
        CursorView {
            query_limit,
            batch_size: if self.batch_size > query_limit {
                query_limit
            } else {
                self.batch_size
            },
            ..self
        }
    }

    /// The state after the batch size was set to `size`, or to one where
    /// `size` is zero, and to no more than the limit.
    pub open spec fn with_batch_size(self, size: nat) -> CursorView<T, C> {
        let batch_size = if size == 0 {
            1
        } else {
            size
        };
        CursorView {
            batch_size: if batch_size > self.query_limit {
                self.query_limit
            } else {
                batch_size
            },
            ..self
        }
    }

    /// The state with the query started.
    pub open spec fn activated(self) -> CursorView<T, C> {
        CursorView { started: true, ..self }
    }

    /// Whether the instance is known to hold no record beyond those yielded.
    pub open spec fn drained(self) -> bool {
        self.total_count matches Some(total) && self.offset >= total
    }

    /// Whether the cursor may yield a record: its query is started and its
    /// limit not reached.
    pub open spec fn can_yield(self) -> bool {
        self.started && self.offset < self.query_limit
    }

    /// The request for the page that starts behind the records yielded.
    pub open spec fn batch_request(self) -> RequestView {
        RequestView {
            method: Method::Get,
            url: page_url(
                self.config.snow_instance,
                self.table_name,
                self.encoded_query,
                self.batch_size,
                self.offset,
            ),
            headers: json_headers(),
            credentials: self.config.credentials,
            body: None,
        }
    }

    /// The request for the record `sys_id`.
    pub open spec fn get_request(self, sys_id: Seq<char>) -> RequestView {
        RequestView {
            method: Method::Get,
            url: record_url(self.config.snow_instance, self.table_name, sys_id),
            headers: json_headers(),
            credentials: self.config.credentials,
            body: None,
        }
    }

    /// The request that creates a record from its serialized form.
    pub open spec fn insert_request(self, json: Seq<char>) -> RequestView {
        RequestView {
            method: Method::Post,
            url: table_url(self.config.snow_instance, self.table_name),
            headers: json_headers(),
            credentials: self.config.credentials,
            body: Some(json),
        }
    }

    /// The request that replaces the record `sys_id` by a serialized one.
    pub open spec fn update_request(self, json: Seq<char>, sys_id: Seq<char>) -> RequestView {
        RequestView {
            method: Method::Put,
            url: record_url(self.config.snow_instance, self.table_name, sys_id),
            headers: json_headers(),
            credentials: self.config.credentials,
            body: Some(json),
        }
    }

    /// The request that deletes the record `sys_id`: a `Put` without a body.
    pub open spec fn delete_request(self, sys_id: Seq<char>) -> RequestView {
        RequestView {
            method: Method::Put,
            url: record_url(self.config.snow_instance, self.table_name, sys_id),
            headers: json_headers(),
            credentials: self.config.credentials,
            body: None,
        }
    }

    /// The state after a batch arrived: its records are the pending ones,
    /// and a total count that came with it replaces the known one.
    pub open spec fn with_batch(self, total_count: Option<u32>, records: Seq<T>) -> CursorView<T, C> {
        CursorView {
            total_count: match total_count {
                Some(total) => Some(total as nat),
                None => self.total_count,
            },
            pending: records,
            ..self
        }
    }

    /// The state after the fetch of a batch ended in `outcome`. Only a batch
    /// changes the state.
    pub open spec fn received(self, outcome: FetchOutcome<T>) -> CursorView<T, C> {
        match outcome {
            FetchOutcome::Batch { total_count, records } => self.with_batch(total_count, records),
            _ => self,
        }
    }

    /// What the fetch of a batch reports when it ended in `outcome`.
    pub open spec fn fetch_result(outcome: FetchOutcome<T>) -> Result<(), GlideError> {
        match outcome {
            FetchOutcome::Unreachable => Err(GlideError::FailedToFetchBatch),
            FetchOutcome::Undecodable => Err(GlideError::FailedToDeserializeBatch),
            FetchOutcome::Batch { .. } => Ok(()),
        }
    }

    /// The state after a refill. A drained cursor asks for nothing and stays
    /// as it is; any other makes one fetch, which ends in `outcome`.
    pub open spec fn refilled(self, outcome: FetchOutcome<T>) -> CursorView<T, C> {
        if self.drained() {
            self
        } else {
            self.received(outcome)
        }
    }

    /// What a refill reports.
    pub open spec fn refill_result(self, outcome: FetchOutcome<T>) -> Result<(), GlideError> {
        if self.drained() {
            Ok(())
        } else {
            Self::fetch_result(outcome)
        }
    }

    /// The state after the next pending record was handed out.
    pub open spec fn popped(self) -> CursorView<T, C>
        recommends
            self.pending.len() > 0,
    {
        CursorView { offset: self.offset + 1, pending: self.pending.drop_first(), ..self }
    }

    /// The state after a step that hands out a pending record if the cursor
    /// may yield and has one, without any fetch.
    pub open spec fn after_take(self) -> CursorView<T, C> {
        if self.can_yield() && self.pending.len() > 0 {
            self.popped()
        } else {
            self
        }
    }

    /// The record that such a step hands out.
    pub open spec fn taken(self) -> Option<T> {
        if self.can_yield() && self.pending.len() > 0 {
            Some(self.pending[0])
        } else {
            None
        }
    }

    /// Whether the next record can only come from a refill.
    pub open spec fn needs_refill(self) -> bool {
        self.can_yield() && self.pending.len() == 0
    }

    /// The state after asking for the next record, where a refill, if one
    /// is made and fetches, ends in `outcome`.
    pub open spec fn after_next(self, outcome: FetchOutcome<T>) -> CursorView<T, C> {
        if self.needs_refill() {
            self.refilled(outcome).after_take()
        } else {
            self.after_take()
        }
    }

    /// The record that asking for the next one yields.
    pub open spec fn next_item(self, outcome: FetchOutcome<T>) -> Option<T> {
        if self.needs_refill() {
            self.refilled(outcome).taken()
        } else {
            self.taken()
        }
    }

    /// The state after asking for the next record once for each of
    /// `outcomes`, where the refill of each asking, if one is made and
    /// fetches, ends in the outcome of that asking.
    pub open spec fn after_run(self, outcomes: Seq<FetchOutcome<T>>) -> CursorView<T, C>
        decreases outcomes.len(),
    {
        if outcomes.len() == 0 {
            self
        } else {
            self.after_run(outcomes.drop_last()).after_next(outcomes.last())
        }
    }

    /// The records that such a run yields, in the order in which it yields
    /// them.
    pub open spec fn yielded(self, outcomes: Seq<FetchOutcome<T>>) -> Seq<T>
        decreases outcomes.len(),
    {
        if outcomes.len() == 0 {
            Seq::empty()
        } else {
            let so_far = self.yielded(outcomes.drop_last());
            match self.after_run(outcomes.drop_last()).next_item(outcomes.last()) {
                Some(record) => so_far.push(record),
                None => so_far,
            }
        }
    }
}

/// Clauses added one after the other to an empty query give the clauses
/// joined by the separator, in the order in which they were added: nothing
/// stands before the first clause and nothing behind the last. An empty
/// first clause leaves the query empty, so that no separator follows it:
/// the law speaks of the lists that have no other clause behind an empty
/// first one.
pub proof fn lemma_clauses_joined(clauses: Seq<Seq<char>>)
    requires
        clauses.len() >= 2 ==> clauses[0].len() > 0,
    ensures
        append_clauses(Seq::empty(), clauses) == joined(clauses),
        clauses.len() >= 1 ==> {
            let query = joined(clauses);
            &&& clauses[0].len() <= query.len()
            &&& clauses.last().len() <= query.len()
            &&& query.subrange(0, clauses[0].len() as int) == clauses[0]
            &&& query.subrange(query.len() - clauses.last().len(), query.len() as int)
                == clauses.last()
        },
        clauses.len() >= 2 ==> joined(clauses).len() > 0,
    decreases clauses.len(),
{
    if clauses.len() == 1 {
        assert(append_clauses(Seq::empty(), clauses.drop_last()) == Seq::<char>::empty());
        let query = joined(clauses);
        assert(query.subrange(0, query.len() as int) =~= query);
    } else if clauses.len() >= 2 {
        let front = clauses.drop_last();
        assert(front[0] == clauses[0]);
        lemma_clauses_joined(front);
        let query = joined(clauses);
        assert(joined(front).len() > 0) by {
            if front.len() == 1 {
                assert(joined(front) == front[0]);
            }
        }
        assert(query.subrange(0, clauses[0].len() as int) =~= joined(front).subrange(
            0,
            clauses[0].len() as int,
        ));
        assert(query.subrange(query.len() - clauses.last().len(), query.len() as int)
            =~= clauses.last());
    }
}

/// What holds of every cursor holds after every step that a cursor takes,
/// whatever a fetch brings.
pub proof fn lemma_steps_keep_wf<T, C>(
    state: CursorView<T, C>,
    clause: Seq<char>,
    n: nat,
    outcome: FetchOutcome<T>,
)
    requires
        state.wf(),
    ensures
        state.with_clause(clause).wf(),
        state.with_limit(n).wf(),
        state.with_batch_size(n).wf(),
        state.activated().wf(),
        state.refilled(outcome).wf(),
        state.activated().refilled(outcome).wf(),
        state.after_take().wf(),
        state.after_next(outcome).wf(),
{
}

/// Setting the limit or the batch size leaves the batch size within the
/// limit, in whatever state the cursor was. A batch size above the limit
/// becomes the limit, and a limit below the batch size becomes the batch
/// size too.
pub proof fn lemma_setters_clamp<T, C>(state: CursorView<T, C>, n: nat)
    ensures
        state.with_limit(n).batch_size <= state.with_limit(n).query_limit,
        state.with_batch_size(n).batch_size <= state.with_batch_size(n).query_limit,
        n > state.query_limit ==> state.with_batch_size(n).batch_size == state.query_limit,
        n < state.batch_size ==> state.with_limit(n).batch_size == state.with_limit(
            n,
        ).query_limit,
        state.with_limit(n).query_limit >= 1,
        state.with_batch_size(n).query_limit == state.query_limit,
{
}

/// A cursor whose query is not started, or that is at its limit, yields
/// nothing and stays as it is, whatever the instance holds. A cursor that
/// yields a record was below its limit and has then yielded one more.
pub proof fn lemma_next_within_limit<T, C>(state: CursorView<T, C>, outcome: FetchOutcome<T>)
    ensures
        !state.started || state.offset >= state.query_limit ==> state.next_item(outcome) is None
            && state.after_next(outcome) == state,
        state.next_item(outcome) is Some ==> state.offset < state.query_limit
            && state.after_next(outcome).offset == state.offset + 1,
        state.next_item(outcome) is None ==> state.after_next(outcome).offset == state.offset,
        state.after_next(outcome).query_limit == state.query_limit,
        state.after_next(outcome).started == state.started,
{
}

/// A drained cursor that has nothing pending yields nothing, asks for
/// nothing and stays as it is: it is exhausted for good.
pub proof fn lemma_exhausted_stays<T, C>(state: CursorView<T, C>, outcome: FetchOutcome<T>)
    requires
        state.drained(),
        state.pending.len() == 0,
    ensures
        state.next_item(outcome) is None,
        state.after_next(outcome) == state,
        state.refilled(outcome) == state,
        state.refill_result(outcome) == Ok::<(), GlideError>(()),
{
}

/// However often a cursor is asked for its next record, and whatever the
/// fetches bring, it counts each record that it yields, and it yields no
/// more records than its limit leaves room for.
pub proof fn lemma_run_within_limit<T, C>(
    state: CursorView<T, C>,
    outcomes: Seq<FetchOutcome<T>>,
)
    ensures
        state.after_run(outcomes).offset == state.offset + state.yielded(outcomes).len(),
        state.after_run(outcomes).query_limit == state.query_limit,
        state.after_run(outcomes).batch_size == state.batch_size,
        state.after_run(outcomes).started == state.started,
        state.after_run(outcomes).encoded_query == state.encoded_query,
        state.offset <= state.query_limit ==> state.offset + state.yielded(outcomes).len()
            <= state.query_limit,
        state.offset >= state.query_limit || !state.started ==> state.yielded(outcomes).len()
            == 0,
    decreases outcomes.len(),
{
    if outcomes.len() > 0 {
        lemma_run_within_limit(state, outcomes.drop_last());
    }
}

/// A cursor that is drained and has nothing pending is exhausted for good:
/// however often it is asked, it yields nothing and stays as it is.
pub proof fn lemma_exhausted_for_good<T, C>(
    state: CursorView<T, C>,
    outcomes: Seq<FetchOutcome<T>>,
)
    requires
        state.drained(),
        state.pending.len() == 0,
    ensures
        state.after_run(outcomes) == state,
        state.yielded(outcomes) == Seq::<T>::empty(),
    decreases outcomes.len(),
{
    if outcomes.len() > 0 {
        lemma_exhausted_for_good(state, outcomes.drop_last());
    }
}

/// Records come out in the order in which a batch brought them: the cursor
/// that may yield hands out the first pending record and keeps the others
/// in their order.
pub proof fn lemma_next_in_order<T, C>(state: CursorView<T, C>, outcome: FetchOutcome<T>)
    requires
        state.can_yield(),
        state.pending.len() > 0,
    ensures
        state.next_item(outcome) == Some(state.pending[0]),
        state.after_next(outcome).pending == state.pending.drop_first(),
        state.after_next(outcome).offset == state.offset + 1,
{
}

} // verus!
