//! References to single records, as the instance writes them in links of
//! the form `.../<table>/<sys_id>`.

use crate::auth::{config_in, ConfigView, GlideRecordConfig};
use crate::env::Environment;
use crate::errors::{view_of, GlideError};
use crate::glider::{fetches, obtains, refills, GlideRecord, Record};
use crate::http::Transport;
use crate::model::{CursorView, FetchOutcome};
use vstd::prelude::*;
use vstd::std_specs::iter::IteratorSpec;

verus! {

/// The position of the last `'/'` in `s`, or -1 where `s` has none.
pub open spec fn last_slash(s: Seq<char>) -> int
    decreases s.len(),
{
    if s.len() == 0 {
        -1
    } else if s.last() == '/' {
        s.len() - 1
    } else {
        last_slash(s.drop_last())
    }
}

/// Whether `s` holds no `'/'`.
pub open spec fn slash_free(s: Seq<char>) -> bool {
    forall|i: int| 0 <= i < s.len() ==> #[trigger] s[i] != '/'
}

/// The table and the identifier that a reference names.
pub struct ReferenceView {
    pub table: Seq<char>,
    pub sys_id: Seq<char>,
}

/// The reference that names nothing.
pub open spec fn empty_reference() -> ReferenceView {
    ReferenceView { table: Seq::empty(), sys_id: Seq::empty() }
}

/// The reference that `link` holds. The identifier is what follows the last
/// `'/'`, the table what stands between that `'/'` and the one before it, or
/// the start of the link. A link without any `'/'` holds the empty
/// reference.
pub open spec fn parse_link(link: Seq<char>) -> ReferenceView {
    let last = last_slash(link);
    if last < 0 {
        empty_reference()
    } else {
        let before = last_slash(link.subrange(0, last));
        ReferenceView {
            table: link.subrange(before + 1, last),
            sys_id: link.subrange(last + 1, link.len() as int),
        }
    }
}

/// Where the last `'/'` of a string is: at a position of the string that
/// holds one and behind which none follows, or nowhere in a string without
/// one.
pub proof fn lemma_last_slash(s: Seq<char>)
    ensures
        -1 <= last_slash(s) < s.len(),
        last_slash(s) >= 0 ==> s[last_slash(s)] == '/',
        slash_free(s.subrange(last_slash(s) + 1, s.len() as int)),
        slash_free(s) <==> last_slash(s) == -1,
    decreases s.len(),
{
    if s.len() > 0 && s.last() != '/' {
        lemma_last_slash(s.drop_last());
        let last = last_slash(s);
        let tail = s.subrange(last + 1, s.len() as int);
        let shorter = s.drop_last().subrange(last + 1, s.len() - 1);
        assert forall|i: int| 0 <= i < tail.len() implies #[trigger] tail[i] != '/' by {
            if i < tail.len() - 1 {
                assert(tail[i] == shorter[i]);
            }
        }
        if slash_free(s.drop_last()) {
            assert forall|i: int| 0 <= i < s.len() implies #[trigger] s[i] != '/' by {
                if i < s.len() - 1 {
                    assert(s[i] == s.drop_last()[i]);
                }
            }
        } else {
            let i = choose|i: int| 0 <= i < s.drop_last().len() && s.drop_last()[i] == '/';
            assert(s[i] == '/');
        }
    }
}

/// Text without a `'/'`, added behind a string, leaves the last `'/'` of
/// the string where it is.
pub proof fn lemma_last_slash_append(s: Seq<char>, tail: Seq<char>)
    requires
        slash_free(tail),
    ensures
        last_slash(s + tail) == last_slash(s),
    decreases tail.len(),
{
    if tail.len() == 0 {
        assert(s + tail =~= s);
    } else {
        assert((s + tail).drop_last() =~= s + tail.drop_last());
        assert((s + tail).last() == tail[tail.len() - 1]);
        assert forall|i: int| 0 <= i < tail.drop_last().len() implies #[trigger] tail.drop_last()[i]
            != '/' by {
            assert(tail.drop_last()[i] == tail[i]);
        }
        lemma_last_slash_append(s, tail.drop_last());
    }
}

/// A link that ends in a table, a `'/'` and an identifier names that table
/// and that identifier, whatever stands before them, so long as neither
/// holds a `'/'` and what stands before is empty or ends in one.
pub proof fn lemma_parse_link_segments(prefix: Seq<char>, table: Seq<char>, sys_id: Seq<char>)
    requires
        slash_free(table),
        slash_free(sys_id),
        prefix.len() == 0 || prefix.last() == '/',
    ensures
        parse_link(prefix + table + seq!['/'] + sys_id) == (ReferenceView { table, sys_id }),
{
    let head = prefix + table;
    let link = head + seq!['/'] + sys_id;
    lemma_last_slash_append(head + seq!['/'], sys_id);
    assert((head + seq!['/']).last() == '/');
    assert(last_slash(link) == head.len());
    assert(link.subrange(0, head.len() as int) =~= head);
    lemma_last_slash_append(prefix, table);
    if prefix.len() == 0 {
        assert(last_slash(prefix) == -1);
    }
    assert(last_slash(head) == prefix.len() - 1);
    assert(link.subrange(prefix.len() as int, head.len() as int) =~= table);
    assert(link.subrange(head.len() as int + 1, link.len() as int) =~= sys_id);
}

/// A link without any `'/'` names nothing.
pub proof fn lemma_parse_link_without_slash(link: Seq<char>)
    requires
        slash_free(link),
    ensures
        parse_link(link) == empty_reference(),
{
    lemma_last_slash(link);
}

/// A pointer to one record of a remote table.
#[derive(Debug)]
pub struct GlideReference {
    table: String,
    sys_id: String,
}

impl View for GlideReference {
    type V = ReferenceView;

    closed spec fn view(&self) -> ReferenceView {
        ReferenceView { table: self.table@, sys_id: self.sys_id@ }
    }
}

impl Default for GlideReference {
    /// The reference that names nothing.
    fn default() -> (reference: GlideReference)
        ensures
            reference@ == empty_reference(),
    {
        GlideReference { table: String::new(), sys_id: String::new() }
    }
}

/// A link as the instance sends it, before the reference is read from it.
#[derive(Debug)]
pub struct PreprocessedGlideRef {
    pub link: String,
}

impl PreprocessedGlideRef {
    /// Reads the reference that the link holds.
    pub fn into_glide_ref(pre: Self) -> (reference: GlideReference)
        ensures
            reference@ == parse_link(pre.link@),
    {
        broadcast use vstd::string::group_string_axioms;

        let link = pre.link.as_str();
        let len = link.unicode_len();
        let mut last: Option<usize> = None;
        let mut before: Option<usize> = None;
        let mut chars = link.chars();
        let mut i: usize = 0;
        assert(link@.subrange(0, 0) =~= Seq::<char>::empty());
        loop
            invariant
                i <= len,
                len == link@.len(),
                chars.remaining() == link@.subrange(i as int, len as int),
                match last {
                    Some(at) => at < i && at == last_slash(link@.subrange(0, i as int)),
                    None => last_slash(link@.subrange(0, i as int)) == -1,
                },
                match (last, before) {
                    (Some(at), Some(b)) => b == last_slash(link@.subrange(0, at as int)),
                    (Some(at), None) => last_slash(link@.subrange(0, at as int)) == -1,
                    (None, _) => before is None,
                },
            ensures
                i == len,
            decreases len - i,
        {
            let ghost seen = link@.subrange(0, i as int);
            match chars.next() {
                None => {
                    break ;
                },
                Some(c) => {
                    assert(c == link@[i as int]);
                    assert(link@.subrange(0, i + 1).drop_last() =~= seen);
                    assert(link@.subrange(0, i + 1).last() == c);
                    if c == '/' {
                        before = last;
                        last = Some(i);
                    }
                    i = i + 1;
                },
            }
        }
        assert(link@.subrange(0, len as int) =~= link@);
        match last {
            None => GlideReference::default(),
            Some(at) => {
                proof {
                    lemma_last_slash(link@.subrange(0, at as int));
                }
                let from: usize = match before {
                    Some(b) => b + 1,
                    None => 0,
                };
                let table = String::from_str(link.substring_char(from, at));
                let sys_id = String::from_str(link.substring_char(at + 1, len));
                GlideReference { table, sys_id }
            },
        }
    }
}

/// The state of the cursor that looks for the record of a reference, with
/// its query started and nothing fetched yet.
pub open spec fn searching<T, C>(reference: ReferenceView, config: ConfigView, client: C)
    -> CursorView<T, C> {
    CursorView::<T, C>::fresh(reference.table, config, client).with_clause(
        "sys_id="@ + reference.sys_id,
    ).activated()
}

/// That cursor once the fetch of its first batch ended in `outcome`; or the
/// error of that fetch.
pub open spec fn resolved<T, C>(
    reference: ReferenceView,
    config: ConfigView,
    client: C,
    outcome: FetchOutcome<T>,
) -> Result<CursorView<T, C>, GlideError> {
    match CursorView::<T, C>::fetch_result(outcome) {
        Ok(_) => Ok(searching(reference, config, client).received(outcome)),
        Err(e) => Err(e),
    }
}

/// Whether the fetch of that first batch may end in `outcome`.
pub open spec fn resolves<T: Record, C: Transport>(
    reference: ReferenceView,
    config: ConfigView,
    client: C,
    outcome: FetchOutcome<T>,
) -> bool {
    fetches(client, searching::<T, C>(reference, config, client).batch_request(), outcome)
}

/// The item that a result holds, if it holds one.
pub open spec fn item_of<T>(r: Result<T, GlideError>) -> Option<T> {
    match r {
        Ok(item) => Some(item),
        Err(_) => None,
    }
}

impl GlideReference {
    /// The reference to the record `sys_id` of `table`.
    pub fn new(table: String, sys_id: String) -> (reference: GlideReference)
        ensures
            reference@ == (ReferenceView { table: table@, sys_id: sys_id@ }),
    {
        GlideReference { table, sys_id }
    }

    /// The table of the record.
    pub fn table(&self) -> (table: &str)
        ensures
            table@ == self@.table,
    {
        self.table.as_str()
    }

    /// The identifier of the record.
    pub fn sys_id(&self) -> (sys_id: &str)
        ensures
            sys_id@ == self@.sys_id,
    {
        self.sys_id.as_str()
    }

    /// A cursor on the table of the record, configured by `env`, whose query
    /// asks for this identifier and is started. Fails as the resolution of
    /// the configuration fails, and as the fetch of the first batch does.
    pub fn as_glide_record<T: Record, C: Transport>(&self, env: &Environment, client: C) -> (r:
        Result<GlideRecord<T, C>, GlideError>)
        ensures
            match config_in(env@) {
                Ok(config) => exists|outcome: FetchOutcome<T>|
                    #[trigger] resolves(self@, config, client, outcome) && view_of(r) == resolved(
                        self@,
                        config,
                        client,
                        outcome,
                    ),
                Err(e) => r matches Err(failure) && failure == e,
            },
    {
        let mut gr = match GlideRecord::new(self.table.as_str(), env, client) {
            Ok(gr) => gr,
            Err(e) => {
                return Err(e);
            },
        };
        let mut clause = String::from_str("sys_id=");
        clause.append(self.sys_id.as_str());
        gr.add_encoded_query(clause.as_str());
        let ghost before = gr@;
        let fetched = gr.query();
        proof {
            let outcome = choose|outcome: FetchOutcome<T>|
                #[trigger] refills(before.activated(), outcome) && gr@ == before.activated().refilled(
                    outcome,
                ) && fetched == before.activated().refill_result(outcome);
            let config = config_in(env@)->Ok_0;
            assert(before.activated() == searching::<T, C>(self@, config, client));
            assert(resolves(self@, config, client, outcome));
            assert(view_of(
                match fetched {
                    Ok(_) => Ok(gr),
                    Err(e) => Err(e),
                },
            ) == resolved(self@, config, client, outcome));
        }
        match fetched {
            Ok(_) => Ok(gr),
            Err(e) => Err(e),
        }
    }

    /// The record itself, fetched through a cursor that `env` configures.
    /// Fails as the resolution of the configuration fails, and with
    /// `RecordNotFound` where the record cannot be had.
    pub fn as_item<T: Record, C: Transport>(&self, env: &Environment, client: C) -> (r: Result<
        T,
        GlideError,
    >)
        ensures
            match config_in(env@) {
                Ok(config) => {
                    &&& obtains(
                        client,
                        CursorView::<T, C>::fresh(self@.table, config, client).get_request(
                            self@.sys_id,
                        ),
                        item_of(r),
                    )
                    &&& r is Err ==> r == Err::<T, GlideError>(GlideError::RecordNotFound)
                },
                Err(e) => r == Err::<T, GlideError>(e),
            },
    {
        let mut gr: GlideRecord<T, C> = match GlideRecord::new(self.table.as_str(), env, client) {
            Ok(gr) => gr,
            Err(e) => {
                return Err(e);
            },
        };
        match gr.get(self.sys_id.as_str()) {
            Some(item) => Ok(item),
            None => Err(GlideError::RecordNotFound),
        }
    }

    /// A cursor on the table of the record with the given configuration. Its
    /// query is empty and not started.
    pub fn as_glide_record_with_config<T: Record, C: Transport>(
        &self,
        config: GlideRecordConfig,
        client: C,
    ) -> (r: Result<GlideRecord<T, C>, GlideError>)
        ensures
            view_of(r) == Ok::<CursorView<T, C>, GlideError>(
                CursorView::<T, C>::fresh(self@.table, config@, client),
            ),
    {
        let gr = GlideRecord::new_with_configuration(self.table.as_str(), config, client);
        Ok(gr)
    }
}

} // verus!
