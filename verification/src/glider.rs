//! The record cursor: query building, paginated iteration and operations
//! on single records of a remote table.

use crate::auth::GlideRecordConfig;
use crate::env::Environment;
use crate::errors::{view_of, GlideError};
use crate::http::{Method, Request, RequestView, Response, Transport, TransportError};
use crate::model::{total_count_in, CursorView, FetchOutcome, DEFAULT_LIMIT, TOTAL_COUNT_HEADER};
pub use crate::reference::{GlideReference, PreprocessedGlideRef};
use crate::text::{append_decimal, parse_u32};
use std::collections::VecDeque;
use vstd::prelude::*;

verus! {

/// The body of a response that carries one record.
#[derive(Debug)]
pub struct GlideResponse<T> {
    pub result: T,
}

/// The body of a response that carries a batch of records, in the order in
/// which the instance sent them.
#[derive(Debug)]
pub struct GlideResponseBatch<T> {
    pub result: VecDeque<T>,
}

impl<T> GlideResponseBatch<T> {
    /// A batch without records.
    pub fn new() -> (batch: GlideResponseBatch<T>)
        ensures
            batch.result@ == Seq::<T>::empty(),
    {
        GlideResponseBatch { result: VecDeque::new() }
    }
}

/// A record type that can be written as a request body and read from
/// response bodies. Nothing is assumed of what an implementation returns.
pub trait Record: Sized {
    /// The record as the body of a request, or `None` if it cannot be
    /// written.
    fn serialize(&self) -> Option<String>;

    /// The record in the body of a response that carries one, or `None` if
    /// the body is no such response.
    fn deserialize(body: &[u8]) -> Option<GlideResponse<Self>>;

    /// The records in the body of a response that carries a batch, or `None`
    /// if the body is no such response.
    fn deserialize_batch(body: &[u8]) -> Option<GlideResponseBatch<Self>>;
}

/// A record that knows its identifier, and can therefore update, insert and
/// delete itself through a cursor on its table.
pub trait Glideable: Record {
    /// The identifier of the record.
    fn sys_id(&self) -> &String;

    /// Replaces the remote record of this identifier by this one.
    fn update<C: Transport>(&self, gr: &GlideRecord<Self, C>) -> Option<Self>;

    /// Creates this record in the remote table.
    fn insert<C: Transport>(&self, gr: &GlideRecord<Self, C>) -> Option<Self>;

    /// Deletes the remote record of this identifier.
    fn delete<C: Transport>(&self, gr: &GlideRecord<Self, C>) -> Option<Self>;
}

/// Whether `reply` is what `client` may answer when it is handed `sent`.
/// For a transport of which nothing is known, any reply is.
pub open spec fn delivers<C: Transport>(
    client: C,
    sent: Request,
    reply: Result<Response, TransportError>,
) -> bool {
    call_ensures(C::send, (&client, &sent), reply)
}

/// Whether `reply` is what `client` may answer to a request that reads as
/// `request`.
pub open spec fn answers<C: Transport>(
    client: C,
    request: RequestView,
    reply: Result<Response, TransportError>,
) -> bool {
    exists|sent: Request| #[trigger] delivers(client, sent, reply) && sent@ == request
}

/// Whether `json` is what the record type may write for `record`.
pub open spec fn writes<T: Record>(record: T, json: Option<String>) -> bool {
    call_ensures(T::serialize, (&record,), json)
}

/// Whether `envelope` is what the record type may read from `body` as the
/// body of a response that carries one record.
pub open spec fn reads_record<T: Record>(body: Seq<u8>, envelope: Option<GlideResponse<T>>) -> bool {
    exists|bytes: &[u8]| #[trigger] call_ensures(T::deserialize, (bytes,), envelope) && bytes@ == body
}

/// Whether `batch` is what the record type may read from `body` as the body
/// of a response that carries a batch.
pub open spec fn reads_batch<T: Record>(body: Seq<u8>, batch: Option<GlideResponseBatch<T>>) -> bool {
    exists|bytes: &[u8]|
        #[trigger] call_ensures(T::deserialize_batch, (bytes,), batch) && bytes@ == body
}

/// How the fetch of a batch ends when the transport answers `reply` and the
/// body of the response, where there is one, reads as `batch`.
pub open spec fn outcome_of<T>(
    reply: Result<Response, TransportError>,
    batch: Option<GlideResponseBatch<T>>,
) -> FetchOutcome<T> {
    match reply {
        Err(_) => FetchOutcome::Unreachable,
        Ok(response) => match batch {
            None => FetchOutcome::Undecodable,
            Some(b) => FetchOutcome::Batch {
                total_count: total_count_in(response@.headers),
                records: b.result@,
            },
        },
    }
}

/// Whether the fetch of a batch by `request` through `client` may end in
/// `outcome`: the transport answers the request, and the record type reads
/// the body of a response that came.
pub open spec fn fetches<T: Record, C: Transport>(
    client: C,
    request: RequestView,
    outcome: FetchOutcome<T>,
) -> bool {
    exists|reply: Result<Response, TransportError>, batch: Option<GlideResponseBatch<T>>|
        outcome == #[trigger] outcome_of(reply, batch) && answers(client, request, reply) && (
        reply matches Ok(response) ==> reads_batch(response.body@, batch))
}

/// The record that a request for one yields when the transport answers
/// `reply` and the body of the response, where there is one, reads as
/// `envelope`.
pub open spec fn record_of<T>(
    reply: Result<Response, TransportError>,
    envelope: Option<GlideResponse<T>>,
) -> Option<T> {
    match (reply, envelope) {
        (Ok(_), Some(e)) => Some(e.result),
        _ => None,
    }
}

/// Whether `request`, sent through `client`, may yield `item`: the
/// transport answers the request, and the record type reads the body of a
/// response that came.
pub open spec fn obtains<T: Record, C: Transport>(
    client: C,
    request: RequestView,
    item: Option<T>,
) -> bool {
    exists|reply: Result<Response, TransportError>, envelope: Option<GlideResponse<T>>|
        item == #[trigger] record_of(reply, envelope) && answers(client, request, reply) && (
        reply matches Ok(response) ==> reads_record(response.body@, envelope))
}

/// Whether a refill of a cursor in `state` may end in `outcome`. A drained
/// cursor asks for nothing; any other fetches its next page.
pub open spec fn refills<T: Record, C: Transport>(
    state: CursorView<T, C>,
    outcome: FetchOutcome<T>,
) -> bool {
    state.drained() || fetches(state.client, state.batch_request(), outcome)
}

/// Whether the refill that a cursor in `state` makes when it is asked for
/// its next record may end in `outcome`. Only a cursor that may yield and
/// has nothing pending refills.
pub open spec fn advances<T: Record, C: Transport>(
    state: CursorView<T, C>,
    outcome: FetchOutcome<T>,
) -> bool {
    state.needs_refill() ==> refills(state, outcome)
}

/// A cursor over the records of one remote table that match a query. It
/// fetches the records batch by batch through the transport `C`, as they are
/// asked for.
pub struct GlideRecord<T, C> {
    table_name: String,
    encoded_query: String,
    query_limit: u32,
    offset: u32,
    len: Option<u32>,
    config: GlideRecordConfig,
    query_lock: bool,
    batch_size: u32,
    current_batch: GlideResponseBatch<T>,
    client: C,
}

impl<T, C> View for GlideRecord<T, C> {
    type V = CursorView<T, C>;

    closed spec fn view(&self) -> CursorView<T, C> {
        CursorView {
            table_name: self.table_name@,
            encoded_query: self.encoded_query@,
            query_limit: self.query_limit as nat,
            offset: self.offset as nat,
            total_count: match self.len {
                Some(total) => Some(total as nat),
                None => None,
            },
            config: self.config@,
            started: self.query_lock,
            batch_size: self.batch_size as nat,
            pending: self.current_batch.result@,
            client: self.client,
        }
    }
}

impl<T: Record, C: Transport> GlideRecord<T, C> {
    /// A cursor on `table_name`, configured by `env`, that sends through
    /// `client`. Fails as the resolution of the configuration fails.
    pub fn new(table_name: &str, env: &Environment, client: C) -> (r: Result<
        GlideRecord<T, C>,
        GlideError,
    >)
        ensures
            view_of(r) == match crate::auth::config_in(env@) {
                Ok(config) => Ok(CursorView::<T, C>::fresh(table_name@, config, client)),
                Err(e) => Err(e),
            },
            r matches Ok(gr) ==> gr@.wf(),
    {
        let config = match GlideRecordConfig::new_from_env_vars(env) {
            Ok(config) => config,
            Err(e) => {
                return Err(e);
            },
        };
        Ok(GlideRecord::new_with_configuration(table_name, config, client))
    }

    /// A cursor on `table_name` with the given configuration, that sends
    /// through `client`.
    pub fn new_with_configuration(table_name: &str, config: GlideRecordConfig, client: C) -> (gr:
        GlideRecord<T, C>)
        ensures
            gr@ == CursorView::<T, C>::fresh(table_name@, config@, client),
            gr@.wf(),
    {
        GlideRecord {
            table_name: String::from_str(table_name),
            encoded_query: String::new(),
            query_limit: DEFAULT_LIMIT,
            offset: 0,
            len: None,
            config,
            query_lock: false,
            batch_size: DEFAULT_LIMIT,
            current_batch: GlideResponseBatch::new(),
            client,
        }
    }

    /// Adds a filter clause to the query. The query has to be started again
    /// before the cursor yields records.
    pub fn add_encoded_query(&mut self, query: &str)
        ensures
            final(self)@ == old(self)@.with_clause(query@),
    {
        if self.encoded_query.as_str().is_empty() {
            self.encoded_query.append(query);
            assert(self.encoded_query@ =~= query@);
        } else {
            proof {
                reveal_strlit("^");
            }
            self.encoded_query.append("^");
            self.encoded_query.append(query);
            assert("^"@ =~= crate::model::separator());
        }
        self.query_lock = false;
    }

    /// The query as it is sent to the instance.
    pub fn get_encoded_query(&self) -> (query: &str)
        ensures
            query@ == self@.encoded_query,
    {
        self.encoded_query.as_str()
    }

    /// Sets the most records that the cursor ever yields; zero counts as
    /// one. A larger batch size shrinks to the new limit.
    pub fn set_limit(&mut self, limit: u32)
        ensures
            final(self)@ == old(self)@.with_limit(limit as nat),
            final(self)@.batch_size <= final(self)@.query_limit,
            limit < old(self)@.batch_size ==> final(self)@.batch_size == final(self)@.query_limit,
            old(self)@.wf() ==> final(self)@.wf(),
    {
        self.query_limit = if limit == 0 {
            1
        } else {
            limit
        };
        if self.batch_size > self.query_limit {
            self.batch_size = self.query_limit;
        }
    }

    /// Sets the most records that the cursor asks for at once; zero counts
    /// as one, and more than the limit as the limit.
    pub fn set_batch_size(&mut self, batch_size: u32)
        ensures
            final(self)@ == old(self)@.with_batch_size(batch_size as nat),
            final(self)@.batch_size <= final(self)@.query_limit,
            batch_size > old(self)@.query_limit ==> final(self)@.batch_size == old(self)@.query_limit,
            old(self)@.wf() ==> final(self)@.wf(),
    {
        self.batch_size = if batch_size == 0 {
            1
        } else {
            batch_size
        };
        if self.batch_size > self.query_limit {
            self.batch_size = self.query_limit;
        }
    }

    /// The most records that the cursor ever yields.
    pub fn query_limit(&self) -> (limit: u32)
        ensures
            limit == self@.query_limit,
    {
        self.query_limit
    }

    /// The most records that the cursor asks for at once.
    pub fn batch_size(&self) -> (size: u32)
        ensures
            size == self@.batch_size,
    {
        self.batch_size
    }

    /// The number of records that the cursor has yielded.
    pub fn offset(&self) -> (offset: u32)
        ensures
            offset == self@.offset,
    {
        self.offset
    }

    /// The number of matching records, once the instance has reported it.
    pub fn total_count(&self) -> (total: Option<u32>)
        ensures
            match total {
                Some(n) => self@.total_count == Some(n as nat),
                None => self@.total_count is None,
            },
    {
        self.len
    }

    /// Whether the query has been started since its filter last changed.
    pub fn is_started(&self) -> (started: bool)
        ensures
            started == self@.started,
    {
        self.query_lock
    }

    /// The address of the table.
    fn table_api_record_insert_link(&self) -> (url: String)
        ensures
            url@ == crate::model::table_url(self@.config.snow_instance, self@.table_name),
    {
        let mut url = String::from_str("https://");
        url.append(self.config.snow_instance());
        url.append("/api/now/table/");
        url.append(self.table_name.as_str());
        url
    }

    /// The address of the page that starts behind the records yielded.
    fn table_api_link(&self) -> (url: String)
        ensures
            url@ == crate::model::page_url(
                self@.config.snow_instance,
                self@.table_name,
                self@.encoded_query,
                self@.batch_size,
                self@.offset,
            ),
    {
        let mut url = self.table_api_record_insert_link();
        url.append("?sysparm_query=");
        url.append(self.encoded_query.as_str());
        url.append("&sysparm_limit=");
        append_decimal(&mut url, self.batch_size);
        url.append("&sysparm_offset=");
        append_decimal(&mut url, self.offset);
        url
    }

    /// The address of the record `sys_id`.
    fn table_api_record_link(&self, sys_id: &str) -> (url: String)
        ensures
            url@ == crate::model::record_url(
                self@.config.snow_instance,
                self@.table_name,
                sys_id@,
            ),
    {
        let mut url = self.table_api_record_insert_link();
        url.append("/");
        url.append(sys_id);
        url
    }

    /// The request for the next batch, or `None` where the instance is known
    /// to hold no record beyond those yielded.
    pub fn batch_request(&self) -> (request: Option<Request>)
        ensures
            self@.drained() ==> request is None,
            !self@.drained() ==> (request matches Some(r) && r@ == self@.batch_request()),
    {
        let drained = match self.len {
            Some(total) => self.offset >= total,
            None => false,
        };
        if drained {
            None
        } else {
            Some(
                Request::json(
                    Method::Get,
                    self.table_api_link(),
                    self.config.credentials().duplicate(),
                    None,
                ),
            )
        }
    }

    /// The request for the record `sys_id`.
    pub fn get_request(&self, sys_id: &str) -> (request: Request)
        ensures
            request@ == self@.get_request(sys_id@),
    {
        Request::json(
            Method::Get,
            self.table_api_record_link(sys_id),
            self.config.credentials().duplicate(),
            None,
        )
    }

    /// The request that creates a record from its serialized form `json`.
    pub fn insert_request(&self, json: String) -> (request: Request)
        ensures
            request@ == self@.insert_request(json@),
    {
        Request::json(
            Method::Post,
            self.table_api_record_insert_link(),
            self.config.credentials().duplicate(),
            Some(json),
        )
    }

    /// The request that replaces the record `sys_id` by the serialized
    /// record `json`.
    pub fn update_request(&self, json: String, sys_id: &str) -> (request: Request)
        ensures
            request@ == self@.update_request(json@, sys_id@),
    {
        Request::json(
            Method::Put,
            self.table_api_record_link(sys_id),
            self.config.credentials().duplicate(),
            Some(json),
        )
    }

    /// The request that deletes the record `sys_id`.
    pub fn delete_request(&self, sys_id: &str) -> (request: Request)
        ensures
            request@ == self@.delete_request(sys_id@),
    {
        Request::json(
            Method::Put,
            self.table_api_record_link(sys_id),
            self.config.credentials().duplicate(),
            None,
        )
    }

    /// Takes in what came back for a batch request: `response`, and `batch`
    /// as the records read from its body, or `None` where the body was no
    /// batch. A batch becomes the pending records, and the total count that
    /// the response reports, if any, the known one. Without a batch the
    /// cursor stays as it is.
    pub fn accept_batch(&mut self, response: &Response, batch: Option<GlideResponseBatch<T>>) -> (r:
        Result<(), GlideError>)
        ensures
            match batch {
                Some(b) => r == Ok::<(), GlideError>(()) && final(self)@ == old(self)@.with_batch(
                    total_count_in(response@.headers),
                    b.result@,
                ),
                None => r == Err::<(), GlideError>(GlideError::FailedToDeserializeBatch) && final(self)@ == old(self)@,
            },
    {
        match batch {
            None => Err(GlideError::FailedToDeserializeBatch),
            Some(batch) => {
                let total = match response.header(TOTAL_COUNT_HEADER) {
                    Some(value) => parse_u32(value.as_slice()),
                    None => None,
                };
                if total.is_some() {
                    self.len = total;
                }
                self.current_batch = batch;
                Ok(())
            },
        }
    }

    /// Fetches the next batch, unless the instance is known to hold no
    /// record beyond those yielded.
    fn next_batch(&mut self) -> (r: Result<(), GlideError>)
        ensures
            exists|outcome: FetchOutcome<T>|
                #[trigger] refills(old(self)@, outcome) && final(self)@ == old(self)@.refilled(
                    outcome,
                ) && r == old(self)@.refill_result(outcome),
    {
        let request = match self.batch_request() {
            Some(request) => request,
            None => {
                assert(refills(old(self)@, FetchOutcome::<T>::Unreachable));
                return Ok(());
            },
        };
        let reply = self.client.send(&request);
        assert(delivers(self.client, request, reply));
        assert(answers(self@.client, old(self)@.batch_request(), reply));
        let response = match reply {
            Ok(response) => response,
            Err(_) => {
                assert(FetchOutcome::<T>::Unreachable == outcome_of::<T>(reply, None));
                assert(refills(old(self)@, FetchOutcome::<T>::Unreachable));
                return Err(GlideError::FailedToFetchBatch);
            },
        };
        let body = response.body.as_slice();
        let batch = T::deserialize_batch(body);
        let ghost outcome = outcome_of(reply, batch);
        assert(reads_batch(response.body@, batch));
        assert(refills(old(self)@, outcome));
        let r = self.accept_batch(&response, batch);
        assert(self@ == old(self)@.refilled(outcome));
        r
    }

    /// Starts the query and fetches its first batch: the page behind the
    /// records yielded, unless the instance is known to hold no more.
    pub fn query(&mut self) -> (r: Result<(), GlideError>)
        ensures
            exists|outcome: FetchOutcome<T>|
                #[trigger] refills(old(self)@.activated(), outcome) && final(self)@ == old(self)@.activated().refilled(outcome) && r == old(self)@.activated().refill_result(
                    outcome,
                ),
            final(self)@.started,
            old(self)@.drained() ==> r is Ok && final(self)@ == old(self)@.activated(),
    {
        self.query_lock = true;
        self.next_batch()
    }

    /// Hands out the next pending record, if the cursor may yield and has
    /// one, and counts it. Never fetches.
    pub fn next_pending(&mut self) -> (item: Option<T>)
        ensures
            final(self)@ == old(self)@.after_take(),
            item == old(self)@.taken(),
    {
        if !self.query_lock || self.offset >= self.query_limit {
            return None;
        }
        let item = self.current_batch.result.pop_front();
        if item.is_some() {
            self.offset = self.offset + 1;
        }
        item
    }

    /// The next record of the query, or `None` where there is none to be
    /// had: before the query is started, at the limit, when the instance has
    /// no more, and when a batch cannot be fetched. A cursor that may yield
    /// and has nothing pending refills once.
    pub fn next(&mut self) -> (item: Option<T>)
        ensures
            exists|outcome: FetchOutcome<T>|
                #[trigger] advances(old(self)@, outcome) && final(self)@ == old(self)@.after_next(
                    outcome,
                ) && item == old(self)@.next_item(outcome),
            !old(self)@.can_yield() ==> item is None && final(self)@ == old(self)@,
            item is Some ==> old(self)@.offset < old(self)@.query_limit && final(self)@.offset
                == old(self)@.offset + 1,
            item is None ==> final(self)@.offset == old(self)@.offset,
    {
        if !self.query_lock || self.offset >= self.query_limit {
            assert(self@ == old(self)@.after_next(FetchOutcome::Unreachable));
            assert(advances(old(self)@, FetchOutcome::<T>::Unreachable));
            return None;
        }
        if self.current_batch.result.len() > 0 {
            let item = self.next_pending();
            assert(self@ == old(self)@.after_next(FetchOutcome::Unreachable));
            assert(advances(old(self)@, FetchOutcome::<T>::Unreachable));
            return item;
        }
        let _ = self.next_batch();
        let ghost refilled = self@;
        let item = self.next_pending();
        proof {
            let outcome = choose|outcome: FetchOutcome<T>|
                #[trigger] refills(old(self)@, outcome) && refilled == old(self)@.refilled(
                    outcome,
                );
            assert(advances(old(self)@, outcome));
            assert(self@ == old(self)@.after_next(outcome));
        }
        item
    }

    /// Sends the request for one record and reads the record from the body
    /// of the response, if the request was delivered and the body holds one.
    fn fetch_record(&self, request: &Request) -> (item: Option<T>)
        ensures
            obtains(self@.client, request@, item),
    {
        let reply = self.client.send(request);
        assert(delivers(self.client, *request, reply));
        assert(answers(self@.client, request@, reply));
        match reply {
            Ok(response) => {
                let body = response.body.as_slice();
                let envelope = T::deserialize(body);
                assert(reads_record(response.body@, envelope));
                assert(record_of(reply, envelope) == match envelope {
                    Some(e) => Some(e.result),
                    None => None,
                });
                match envelope {
                    Some(envelope) => Some(envelope.result),
                    None => None,
                }
            },
            Err(_) => {
                assert(record_of::<T>(reply, None) == None::<T>);
                None
            },
        }
    }

    /// The record `sys_id`, or `None` where it cannot be had: where the
    /// request for it is not delivered, and where the body of the response
    /// holds no record. The cursor stays as it is.
    pub fn get(&mut self, sys_id: &str) -> (item: Option<T>)
        ensures
            final(self)@ == old(self)@,
            obtains(old(self)@.client, old(self)@.get_request(sys_id@), item),
    {
        let request = self.get_request(sys_id);
        self.fetch_record(&request)
    }

    /// Creates `to_insert` in the remote table and returns the record as
    /// the instance holds it, or `None` where that failed. A record that
    /// cannot be written is not sent.
    pub fn insert(&self, to_insert: &T) -> (item: Option<T>)
        ensures
            exists|json: Option<String>| #[trigger]
                writes(*to_insert, json) && match json {
                    Some(text) => obtains(self@.client, self@.insert_request(text@), item),
                    None => item is None,
                },
    {
        let written = to_insert.serialize();
        assert(writes(*to_insert, written));
        let json = match written {
            Some(json) => json,
            None => {
                return None;
            },
        };
        let request = self.insert_request(json);
        self.fetch_record(&request)
    }

    /// Replaces the remote record `sys_id` by `to_update` and returns the
    /// record as the instance holds it, or `None` where that failed. A
    /// record that cannot be written is not sent.
    pub fn update(&self, to_update: &T, sys_id: &str) -> (item: Option<T>)
        ensures
            exists|json: Option<String>| #[trigger]
                writes(*to_update, json) && match json {
                    Some(text) => obtains(
                        self@.client,
                        self@.update_request(text@, sys_id@),
                        item,
                    ),
                    None => item is None,
                },
    {
        let written = to_update.serialize();
        assert(writes(*to_update, written));
        let json = match written {
            Some(json) => json,
            None => {
                return None;
            },
        };
        let request = self.update_request(json, sys_id);
        self.fetch_record(&request)
    }

    /// Deletes the remote record `sys_id` and returns what the instance
    /// answered with, or `None` where that failed.
    pub fn delete(&self, sys_id: &str) -> (item: Option<T>)
        ensures
            obtains(self@.client, self@.delete_request(sys_id@), item),
    {
        let request = self.delete_request(sys_id);
        self.fetch_record(&request)
    }
}

} // verus!
