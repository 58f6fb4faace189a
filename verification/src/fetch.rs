//! The bridge that lets a task await a value only the host can produce.
//!
//! The host's interface is synchronous and single-shot, so waiting happens on
//! the module side: the first poll of an operation issues the host call and
//! hands the host a correlation token; if no result is ready the task parks
//! its resumption handle in the operation's completion record and suspends.
//! When the host later calls back with the token, the completion entry point
//! drains the scratch buffer into the record, takes the parked handle out,
//! and only then (with the record no longer borrowed) the edge wakes the
//! task, whose next poll consumes the result.
//!
//! A token is handed out exactly once and accepted back at most once; a
//! record lives until both its sides are done with it — the module side may
//! drop the awaiting task early, in which case the record is reclaimed when
//! the host's completion finally arrives.

use vstd::prelude::*;

use crate::scratch::ScratchBuffer;

verus! {

/// The abstract state of one completion record.
///
/// `module_held` says the awaiting task still owns its reference; `host_held`
/// says a correlation token for this record is outstanding with the host.  A
/// record whose two sides are both gone is reclaimed.
pub struct RecordModel<W> {
    /// Parameter of the operation: the path the host is asked to fetch.
    pub path: Seq<char>,
    /// True from the moment the host call has been issued.
    pub running: bool,
    /// The delivered payload, present from completion until the next poll.
    pub result: Option<Seq<u8>>,
    /// The parked resumption handle, if the task is suspended.
    pub waker: Option<W>,
    pub module_held: bool,
    pub host_held: bool,
}

/// A record some side still refers to; only such records occupy memory.
pub open spec fn record_is_live<W>(r: RecordModel<W>) -> bool {
    r.module_held || r.host_held
}

/// Internal consistency of one record: a result can only have been delivered
/// to, and a token can only be outstanding for, an operation whose host call
/// has been issued.
pub open spec fn record_wf<W>(r: RecordModel<W>) -> bool {
    &&& (r.result is Some ==> r.running)
    &&& (r.host_held ==> r.running)
}

/// Every record of the bridge is consistent.
pub open spec fn bridge_wf<W>(s: Seq<RecordModel<W>>) -> bool {
    forall|i: int| 0 <= i < s.len() ==> record_wf(#[trigger] s[i])
}

/// A freshly created record: not yet issued, both sides still to come.
pub open spec fn record_new<W>(path: Seq<char>) -> RecordModel<W> {
    RecordModel {
        path,
        running: false,
        result: None,
        waker: None,
        module_held: true,
        host_held: false,
    }
}

/// The reclaimed tombstone a record collapses to once neither side holds it.
pub open spec fn record_reclaimed<W>() -> RecordModel<W> {
    RecordModel {
        path: Seq::empty(),
        running: true,
        result: None,
        waker: None,
        module_held: false,
        host_held: false,
    }
}

/// One poll of the record: issue the host call if this is the first poll,
/// then either consume a ready result or park the resumption handle.
pub open spec fn record_after_poll<W>(r: RecordModel<W>, waker: W) -> RecordModel<W> {
    let issued = RecordModel {
        path: r.path,
        running: true,
        result: r.result,
        waker: r.waker,
        module_held: r.module_held,
        host_held: if r.running {
            r.host_held
        } else {
            true
        },
    };
    if r.result is Some {
        RecordModel { result: None, ..issued }
    } else {
        RecordModel { waker: Some(waker), ..issued }
    }
}

/// Whether a poll of record `r` finds its result ready.
pub open spec fn poll_finds_ready<W>(r: RecordModel<W>) -> bool {
    r.result is Some
}

/// The host's completion delivering `data` to record `r`: the token comes
/// home, the result is written, the parked handle is taken out.  If the
/// awaiting task is already gone the record is reclaimed instead.
pub open spec fn record_after_complete<W>(r: RecordModel<W>, data: Seq<u8>) -> RecordModel<W> {
    if r.module_held {
        RecordModel {
            path: r.path,
            running: r.running,
            result: Some(data),
            waker: None,
            module_held: true,
            host_held: false,
        }
    } else {
        record_reclaimed()
    }
}

/// The awaiting task going away: its reference is released, and if no token
/// is outstanding either, the record is reclaimed on the spot.
pub open spec fn record_after_drop<W>(r: RecordModel<W>) -> RecordModel<W> {
    if r.host_held {
        RecordModel { module_held: false, ..r }
    } else {
        record_reclaimed()
    }
}

/// The whole bridge after a completion callback for token `t`: only a token
/// that is outstanding moves its own record; any other token is a no-op.
pub open spec fn bridge_after_complete<W>(
    s: Seq<RecordModel<W>>,
    t: u32,
    data: Seq<u8>,
) -> Seq<RecordModel<W>> {
    if t < s.len() && s[t as int].host_held {
        s.update(t as int, record_after_complete(s[t as int], data))
    } else {
        s
    }
}

/// The resumption handle a completion callback for token `t` yields.
pub open spec fn completion_waker<W>(s: Seq<RecordModel<W>>, t: u32) -> Option<W> {
    if t < s.len() && s[t as int].host_held {
        s[t as int].waker
    } else {
        None
    }
}

/// One in-flight host-bridged asynchronous operation.
struct CompletionRecord<W> {
    path: String,
    running: bool,
    result: Option<Vec<u8>>,
    waker: Option<W>,
    module_held: bool,
    host_held: bool,
}

impl<W> View for CompletionRecord<W> {
    type V = RecordModel<W>;

    closed spec fn view(&self) -> RecordModel<W> {
        RecordModel {
            path: self.path@,
            running: self.running,
            result: match self.result {
                Some(d) => Some(d@),
                None => None,
            },
            waker: match self.waker {
                Some(w) => Some(w),
                None => None,
            },
            module_held: self.module_held,
            host_held: self.host_held,
        }
    }
}

/// All completion records of one execution context, addressed by correlation
/// token.  A token is the index its record was created at, so a token names
/// exactly one record for its whole life and is never reissued.
pub struct CompletionBridge<W> {
    records: Vec<CompletionRecord<W>>,
}

impl<W> View for CompletionBridge<W> {
    type V = Seq<RecordModel<W>>;

    closed spec fn view(&self) -> Seq<RecordModel<W>> {
        self.records@.map_values(|r: CompletionRecord<W>| r@)
    }
}

/// What crosses to the host when an operation is issued: the operation's
/// parameter and the correlation token the host must call back with.
pub struct FetchIssue {
    pub path: String,
    pub token: u32,
}

/// What one poll reports back to the task's scheduler.
pub enum PollOutcome {
    /// The operation finished and this is its payload.
    Ready(Vec<u8>),
    /// Not finished; the resumption handle has been parked.
    Pending,
}

impl<W> CompletionBridge<W> {
    pub fn new() -> (r: Self)
        ensures
            r@ == Seq::<RecordModel<W>>::empty(),
            bridge_wf(r@),
    {
        let records: Vec<CompletionRecord<W>> = Vec::new();
        let bridge = CompletionBridge { records };
        proof {
            assert(bridge@ =~= Seq::<RecordModel<W>>::empty());
        }
        bridge
    }

    /// The number of records ever created on this bridge.
    pub fn record_count(&self) -> (r: usize)
        ensures
            r == self@.len(),
    {
        proof {
            assert(self@.len() == self.records@.len());
        }
        self.records.len()
    }

    /// Whether some side still refers to the record behind `token` — only
    /// such records occupy memory.
    pub fn is_record_live(&self, token: u32) -> (r: bool)
        requires
            token < self@.len(),
        ensures
            r == record_is_live(self@[token as int]),
    {
        let rec = &self.records[token as usize];
        rec.module_held || rec.host_held
    }

    /// Creates the completion record for a new asynchronous operation and
    /// hands back its correlation token.  Nothing has been issued yet: that
    /// happens at the operation's first poll.
    pub fn begin(&mut self, path: &str) -> (token: u32)
        requires
            bridge_wf(old(self)@),
            old(self)@.len() < u32::MAX,
        ensures
            token == old(self)@.len(),
            final(self)@ == old(self)@.push(record_new(path@)),
            bridge_wf(final(self)@),
    {
        let token = self.records.len() as u32;
        self.records.push(
            CompletionRecord {
                path: path.to_owned(),
                running: false,
                result: None,
                waker: None,
                module_held: true,
                host_held: false,
            },
        );
        proof {
            assert(self@ =~= old(self)@.push(record_new(path@)));
        }
        token
    }

    /// One poll of the operation behind `token`, on behalf of its awaiting
    /// task.  On the first poll this also yields the issue the edge must
    /// forward to the host — and the result is checked only after that
    /// issue is accounted for, so a completion can never be missed between
    /// issuing and suspending.
    pub fn poll(&mut self, token: u32, waker: W) -> (r: (PollOutcome, Option<FetchIssue>))
        requires
            bridge_wf(old(self)@),
            token < old(self)@.len(),
            old(self)@[token as int].module_held,
        ensures
            final(self)@ == old(self)@.update(
                token as int,
                record_after_poll(old(self)@[token as int], waker),
            ),
            bridge_wf(final(self)@),
            (r.1 is Some) == !old(self)@[token as int].running,
            r.1 matches Some(issue) ==> issue.token == token && issue.path@ == old(self)@[token
                as int].path,
            poll_finds_ready(old(self)@[token as int]) ==> (r.0 matches PollOutcome::Ready(data)
                && Some(data@) == old(self)@[token as int].result),
            !poll_finds_ready(old(self)@[token as int]) ==> r.0 is Pending,
    {
        let ghost pre = self@;
        let index = token as usize;
        let mut rec = self.records.remove(index);
        let issue = if !rec.running {
            rec.running = true;
            rec.host_held = true;
            Some(FetchIssue { path: rec.path.clone(), token })
        } else {
            None
        };
        let outcome = match rec.result.take() {
            Some(data) => PollOutcome::Ready(data),
            None => {
                rec.waker = Some(waker);
                PollOutcome::Pending
            },
        };
        self.records.insert(index, rec);
        proof {
            assert(self@ =~= pre.update(token as int, record_after_poll(pre[token as int], waker)));
        }
        (outcome, issue)
    }

    /// The completion callback for `token`, carrying the operation's payload.
    /// Only a token that is actually outstanding moves its own record — and
    /// it stops being outstanding right here, so a token is consumed at most
    /// once; anything else leaves the bridge untouched and wakes nothing.
    /// The parked resumption handle is returned to the edge, to be invoked
    /// only after the record is no longer borrowed.
    pub fn complete(&mut self, token: u32, data: Vec<u8>) -> (waker: Option<W>)
        requires
            bridge_wf(old(self)@),
        ensures
            final(self)@ == bridge_after_complete(old(self)@, token, data@),
            waker == completion_waker(old(self)@, token),
            bridge_wf(final(self)@),
    {
        let ghost pre = self@;
        let index = token as usize;
        if index >= self.records.len() {
            return None;
        }
        let mut rec = self.records.remove(index);
        if !rec.host_held {
            self.records.insert(index, rec);
            proof {
                assert(self@ =~= pre);
            }
            return None;
        }
        let waker = rec.waker.take();
        rec.host_held = false;
        if rec.module_held {
            rec.result = Some(data);
        } else {
            rec = CompletionRecord {
                path: String::new(),
                running: true,
                result: None,
                waker: None,
                module_held: false,
                host_held: false,
            };
        }
        self.records.insert(index, rec);
        proof {
            assert(self@ =~= bridge_after_complete(pre, token, data@));
        }
        waker
    }

    /// The awaiting task going away without ever consuming its result.  The
    /// record stays behind as long as the host still holds its token, and is
    /// reclaimed on the spot otherwise.
    pub fn drop_handle(&mut self, token: u32)
        requires
            bridge_wf(old(self)@),
            token < old(self)@.len(),
            old(self)@[token as int].module_held,
        ensures
            final(self)@ == old(self)@.update(
                token as int,
                record_after_drop(old(self)@[token as int]),
            ),
            bridge_wf(final(self)@),
    {
        let ghost pre = self@;
        let index = token as usize;
        let mut rec = self.records.remove(index);
        if rec.host_held {
            rec.module_held = false;
        } else {
            rec = CompletionRecord {
                path: String::new(),
                running: true,
                result: None,
                waker: None,
                module_held: false,
                host_held: false,
            };
        }
        self.records.insert(index, rec);
        proof {
            assert(self@ =~= pre.update(token as int, record_after_drop(pre[token as int])));
        }
    }
}

/// Starts an asynchronous fetch of `path`: creates its completion record and
/// hands back the correlation token the awaiting task polls with.
pub fn fetch<W>(bridge: &mut CompletionBridge<W>, path: &str) -> (token: u32)
    requires
        bridge_wf(old(bridge)@),
        old(bridge)@.len() < u32::MAX,
    ensures
        token == old(bridge)@.len(),
        final(bridge)@ == old(bridge)@.push(record_new(path@)),
        bridge_wf(final(bridge)@),
{
    bridge.begin(path)
}

/// The module's completion entry point, called on the host's behalf once it
/// has written the operation's payload into the scratch buffer: drains the
/// buffer into the record named by `token` and hands back the resumption
/// handle for the edge to invoke — after this call has returned, so that the
/// woken task finds the record free to inspect.
pub fn kwasm_complete_fetch<W>(
    bridge: &mut CompletionBridge<W>,
    scratch: &mut ScratchBuffer,
    token: u32,
) -> (waker: Option<W>)
    requires
        bridge_wf(old(bridge)@),
    ensures
        final(bridge)@ == bridge_after_complete(old(bridge)@, token, old(scratch)@),
        waker == completion_waker(old(bridge)@, token),
        final(scratch)@ == Seq::<u8>::empty(),
        bridge_wf(final(bridge)@),
{
    let data = scratch.take();
    bridge.complete(token, data)
}

/// A completion callback fires at most once per token: once a delivery for
/// `t` has gone through (or `t` was never outstanding), any later delivery
/// for the same token leaves the bridge unchanged and yields no resumption
/// handle.
pub proof fn lemma_completion_fires_at_most_once<W>(
    s: Seq<RecordModel<W>>,
    t: u32,
    d1: Seq<u8>,
    d2: Seq<u8>,
)
    ensures
        bridge_after_complete(bridge_after_complete(s, t, d1), t, d2) == bridge_after_complete(
            s,
            t,
            d1,
        ),
        completion_waker(bridge_after_complete(s, t, d1), t) == None::<W>,
{
    let s1 = bridge_after_complete(s, t, d1);
    if t < s.len() && s[t as int].host_held {
        assert(!s1[t as int].host_held);
        assert(bridge_after_complete(s1, t, d2) == s1);
    }
}

/// After a completion has delivered `data` to a record its task still holds,
/// the record's result is exactly `data`, and the very next poll finds it
/// ready and consumes it.
pub proof fn lemma_result_readable_after_completion<W>(
    s: Seq<RecordModel<W>>,
    t: u32,
    data: Seq<u8>,
    waker: W,
)
    requires
        t < s.len(),
        s[t as int].host_held,
        s[t as int].module_held,
    ensures
        bridge_after_complete(s, t, data)[t as int].result == Some(data),
        poll_finds_ready(bridge_after_complete(s, t, data)[t as int]),
        record_after_poll(bridge_after_complete(s, t, data)[t as int], waker).result is None,
{
}

/// A completion for token `t` touches no record but `t`'s own: tokens and
/// records correspond one to one while in flight, so a delivery can never
/// leak into a different operation.
pub proof fn lemma_completion_targets_token_only<W>(s: Seq<RecordModel<W>>, t: u32, data: Seq<u8>)
    ensures
        forall|i: int|
            0 <= i < s.len() && i != t ==> bridge_after_complete(s, t, data)[i] == s[i],
        bridge_after_complete(s, t, data).len() == s.len(),
{
}

/// A record never reports ready before its host call has been issued: in a
/// consistent bridge, a present result implies the operation is running, and
/// an outstanding token does too.
pub proof fn lemma_ready_only_after_issue<W>(s: Seq<RecordModel<W>>, t: u32)
    requires
        bridge_wf(s),
        t < s.len(),
    ensures
        poll_finds_ready(s[t as int]) ==> s[t as int].running,
        s[t as int].host_held ==> s[t as int].running,
{
}

/// Completions delivered out of order land each in their own record: after
/// deliveries for two distinct outstanding tokens, in either order, each
/// record holds exactly the payload delivered for its own token.
pub proof fn lemma_distinct_completions_independent<W>(
    s: Seq<RecordModel<W>>,
    t1: u32,
    t2: u32,
    d1: Seq<u8>,
    d2: Seq<u8>,
)
    requires
        t1 != t2,
        t1 < s.len(),
        t2 < s.len(),
        s[t1 as int].host_held,
        s[t1 as int].module_held,
        s[t2 as int].host_held,
        s[t2 as int].module_held,
    ensures
        bridge_after_complete(bridge_after_complete(s, t2, d2), t1, d1)[t1 as int].result == Some(
            d1,
        ),
        bridge_after_complete(bridge_after_complete(s, t2, d2), t1, d1)[t2 as int].result == Some(
            d2,
        ),
{
}

/// A task dropped before its completion leaves the record alive but
/// orphaned — dropping alone never reclaims it while the host still holds
/// the token.  The completion that eventually arrives consumes the token
/// and only then is the record reclaimed.
pub proof fn lemma_orphaned_record_reclaimed<W>(s: Seq<RecordModel<W>>, t: u32, data: Seq<u8>)
    requires
        t < s.len(),
        s[t as int].host_held,
        s[t as int].module_held,
    ensures
        record_is_live(record_after_drop(s[t as int])),
        bridge_after_complete(s.update(t as int, record_after_drop(s[t as int])), t, data)[t
            as int] == record_reclaimed::<W>(),
        !record_is_live(
            bridge_after_complete(s.update(t as int, record_after_drop(s[t as int])), t, data)[t
                as int],
        ),
{
}

} // verus!
