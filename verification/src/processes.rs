//! The exchange with `amdsmi_get_gpu_process_list` that lists the processes
//! running on a GPU.
//!
//! The list is read in rounds. The first call passes no buffer and learns
//! how many processes there are. Each later call passes a buffer of that
//! many entries; when the library answers that the buffer was too small it
//! reports the number it needs, and the next round uses that number.
//!
//! The caller makes each call and hands its outcome to [`process_list_step`],
//! which says what to do next: make another call, or return the list (or
//! the error).

use vstd::prelude::*;

use crate::error::AmdError;
use crate::status::{amdsmi_status_t, AmdStatus, AMDSMI_STATUS_OUT_OF_RESOURCES, AMDSMI_STATUS_SUCCESS};

verus! {

/// A call to make to `amdsmi_get_gpu_process_list`.
#[derive(Clone, Copy, Debug, PartialEq, Eq, Structural)]
pub enum ProcessQuery {
    /// Ask for the number of processes, passing no buffer.
    Count,
    /// Pass a buffer with room for `capacity` processes, and that number.
    Fill { capacity: u32 },
}

/// What to do after a call to `amdsmi_get_gpu_process_list`.
#[derive(Debug)]
pub enum ProcessListStep<T> {
    /// Make this call next.
    Query(ProcessQuery),
    /// The exchange is over, with this outcome.
    Done(Result<Vec<T>, AmdError>),
}

/// The statuses with which the counting call goes on: success, and the
/// report that a buffer would have been too small.
pub open spec fn counting_accepted(status: AmdStatus) -> bool {
    status.0 == AMDSMI_STATUS_SUCCESS || status.0 == AMDSMI_STATUS_OUT_OF_RESOURCES
}

/// The error that ends the exchange on any other status: that status and no
/// message.
pub open spec fn process_list_error(status: AmdStatus) -> AmdError {
    AmdError { status, message: None }
}

/// How many entries of a buffer with room for `capacity` processes hold
/// processes, when the library reports `count` of them.
pub open spec fn written_len(capacity: u32, count: u32) -> u32 {
    if count <= capacity {
        count
    } else {
        capacity
    }
}

/// The library writes as many entries as it reports, unless the buffer has
/// room for fewer: never more than either, and all of one of them.
pub proof fn law_written_len_is_the_smaller(capacity: u32, count: u32)
    ensures
        written_len(capacity, count) <= capacity,
        written_len(capacity, count) <= count,
        written_len(capacity, count) == capacity || written_len(capacity, count) == count,
{
}

/// The first call of the exchange.
pub fn process_list_start() -> (res: ProcessQuery)
    ensures
        res == ProcessQuery::Count,
{
    ProcessQuery::Count
}

/// How many entries of the buffer the library wrote, after a fill call with
/// room for `capacity` processes that reports `count` of them: those the
/// caller reads back and passes to [`process_list_step`].
pub fn written_entries(capacity: u32, count: u32) -> (res: u32)
    ensures
        res == written_len(capacity, count),
        res <= capacity && res <= count,
        res == capacity || res == count,
{
    if count <= capacity {
        count
    } else {
        capacity
    }
}

/// What follows a call, in terms of the processes' sequence.
pub enum StepView<T> {
    /// Make this call next.
    Query(ProcessQuery),
    /// The exchange is over, with this outcome.
    Done(Result<Seq<T>, AmdError>),
}

impl<T> View for ProcessListStep<T> {
    type V = StepView<T>;

    open spec fn view(&self) -> StepView<T> {
        match self {
            ProcessListStep::Query(q) => StepView::Query(*q),
            ProcessListStep::Done(Ok(list)) => StepView::Done(Ok(list@)),
            ProcessListStep::Done(Err(e)) => StepView::Done(Err(*e)),
        }
    }
}

/// What follows the call `query`, which returned `status`, reported
/// `count` processes and wrote the processes `written`.
pub open spec fn next_step<T>(query: ProcessQuery, status: AmdStatus, count: u32, written: Seq<T>) -> StepView<T> {
    match query {
        ProcessQuery::Count => if !counting_accepted(status) {
            StepView::Done(Err(process_list_error(status)))
        } else if count == 0 {
            StepView::Done(Ok(Seq::empty()))
        } else {
            StepView::Query(ProcessQuery::Fill { capacity: count })
        },
        ProcessQuery::Fill { .. } => if status.0 == AMDSMI_STATUS_SUCCESS {
            StepView::Done(Ok(if count <= written.len() {
                written.take(count as int)
            } else {
                written
            }))
        } else if status.0 == AMDSMI_STATUS_OUT_OF_RESOURCES {
            StepView::Query(ProcessQuery::Fill { capacity: count })
        } else {
            StepView::Done(Err(process_list_error(status)))
        },
    }
}

/// Decides what follows the call `query`, which returned `status`, reported
/// `count` processes and wrote the processes `written` (none for a counting
/// call).
///
/// - After counting: any status but success or "out of resources" ends with
///   that status as the error; no processes end with an empty list; else a
///   buffer for `count` processes is filled next.
/// - After filling: success ends with the processes written, cut to `count`;
///   "out of resources" means the buffer was too small, and a buffer for the
///   `count` processes now reported is filled next; any other status ends
///   with that status as the error.
pub fn process_list_step<T>(query: ProcessQuery, status: AmdStatus, count: u32, written: Vec<T>) -> (res: ProcessListStep<T>)
    ensures
        res@ == next_step(query, status, count, written@),
        status.0 != 0 && status.0 != 15 ==> (res matches ProcessListStep::Done(Err(e)) && e.status == status
            && e.message is None),
        query == ProcessQuery::Count && (status.0 == 0 || status.0 == 15) && count == 0 ==> (
        res matches ProcessListStep::Done(Ok(list)) && list@.len() == 0),
        query == ProcessQuery::Count && (status.0 == 0 || status.0 == 15) && count > 0 ==> (
        res matches ProcessListStep::Query(next) && next == ProcessQuery::Fill { capacity: count }),
        query is Fill && status.0 == 15 ==> (res matches ProcessListStep::Query(next) && next
            == ProcessQuery::Fill { capacity: count }),
        query is Fill && status.0 == 0 ==> (res matches ProcessListStep::Done(Ok(list)) && {
            &&& list@.len() <= count
            &&& list@.len() <= written@.len()
            &&& (list@.len() == count || list@.len() == written@.len())
            &&& forall|i: int| 0 <= i < list@.len() ==> list@[i] == written@[i]
        }),
{
    match query {
        ProcessQuery::Count => {
            if status.0 != AMDSMI_STATUS_SUCCESS && status.0 != AMDSMI_STATUS_OUT_OF_RESOURCES {
                ProcessListStep::Done(Err(AmdError { status, message: None }))
            } else if count == 0 {
                let list: Vec<T> = Vec::new();
                assert(list@ =~= Seq::<T>::empty());
                ProcessListStep::Done(Ok(list))
            } else {
                ProcessListStep::Query(ProcessQuery::Fill { capacity: count })
            }
        },
        ProcessQuery::Fill { .. } => {
            if status.0 == AMDSMI_STATUS_SUCCESS {
                let mut list = written;
                list.truncate(count as usize);
                ProcessListStep::Done(Ok(list))
            } else if status.0 == AMDSMI_STATUS_OUT_OF_RESOURCES {
                ProcessListStep::Query(ProcessQuery::Fill { capacity: count })
            } else {
                ProcessListStep::Done(Err(AmdError { status, message: None }))
            }
        },
    }
}

/// When the caller passes back exactly the entries that the library wrote
/// into a buffer of `capacity`, a successful fill ends the exchange with all
/// of them, in order.
pub proof fn law_fill_returns_written<T>(capacity: u32, count: u32, written: Seq<T>)
    requires
        written.len() == written_len(capacity, count),
    ensures
        next_step(ProcessQuery::Fill { capacity }, amdsmi_status_t(AMDSMI_STATUS_SUCCESS), count, written)
            == StepView::<T>::Done(Ok(written)),
{
    if count <= written.len() {
        assert(written.take(count as int) =~= written);
    }
}

/// Every further call fills a buffer sized by the count that the library
/// last reported, and the counting call leads to one only when it reported
/// some processes.
pub proof fn law_next_call_uses_reported_count<T>(
    query: ProcessQuery,
    status: AmdStatus,
    count: u32,
    written: Seq<T>,
)
    ensures
        next_step(query, status, count, written) matches StepView::Query(next) ==> {
            &&& next == ProcessQuery::Fill { capacity: count }
            &&& query == ProcessQuery::Count ==> count > 0
        },
{
}

/// The exchange fails only with the status of the call that ended it, with
/// no message, and that status is not a success.
pub proof fn law_failure_carries_status<T>(
    query: ProcessQuery,
    status: AmdStatus,
    count: u32,
    written: Seq<T>,
)
    ensures
        next_step(query, status, count, written) matches StepView::Done(Err(e)) ==> {
            &&& e.status == status
            &&& e.message is None
            &&& !status.succeeded()
        },
{
}

/// The exchange ends with a list only after a successful fill, which yields
/// at most the reported number of processes, or after a count that found
/// none, which yields the empty list.
pub proof fn law_list_only_on_success<T>(
    query: ProcessQuery,
    status: AmdStatus,
    count: u32,
    written: Seq<T>,
)
    ensures
        next_step(query, status, count, written) matches StepView::Done(Ok(list)) ==> {
            ||| query is Fill && status.succeeded() && list.len() <= count
            ||| query == ProcessQuery::Count && count == 0 && list.len() == 0
        },
{
}

/// A reply of the library to one call: its status, the count it reported
/// and the processes it wrote.
pub type Reply<T> = (AmdStatus, u32, Seq<T>);

/// Runs the exchange from the call `query`, the library answering the calls
/// in turn with `replies`: the outcome and the number of calls made, or
/// `None` when the replies run out before the exchange is over.
pub open spec fn run_exchange<T>(query: ProcessQuery, replies: Seq<Reply<T>>) -> Option<(Result<Seq<T>, AmdError>, nat)>
    decreases replies.len(),
{
    if replies.len() == 0 {
        None
    } else {
        match next_step(query, replies[0].0, replies[0].1, replies[0].2) {
            StepView::Done(outcome) => Some((outcome, 1)),
            StepView::Query(next) => match run_exchange(next, replies.drop_first()) {
                Some((outcome, calls)) => Some((outcome, calls + 1)),
                None => None,
            },
        }
    }
}

/// The outcome of a fill call that ends the exchange with `reply`.
pub open spec fn fill_outcome<T>(reply: Reply<T>) -> Result<Seq<T>, AmdError> {
    match next_step(ProcessQuery::Fill { capacity: 0 }, reply.0, reply.1, reply.2) {
        StepView::Done(outcome) => outcome,
        StepView::Query(_) => Err(process_list_error(reply.0)),
    }
}

/// The library answers the fill calls `replies[0]` to `replies[k - 1]` with
/// "out of resources", and the fill call `replies[k]` with anything else.
pub open spec fn fills_end_at<T>(replies: Seq<Reply<T>>, k: nat) -> bool {
    &&& k < replies.len()
    &&& forall|i: int| 0 <= i < k ==> (#[trigger] replies[i]).0.0 == AMDSMI_STATUS_OUT_OF_RESOURCES
    &&& replies[k as int].0.0 != AMDSMI_STATUS_OUT_OF_RESOURCES
}

/// Fill calls go on exactly as long as the library answers "out of
/// resources": when it does so `k` times and then answers otherwise, the
/// exchange ends after `k + 1` fill calls, with the outcome of the last one.
pub proof fn law_fills_until_not_out_of_resources<T>(capacity: u32, replies: Seq<Reply<T>>, k: nat)
    requires
        fills_end_at(replies, k),
    ensures
        run_exchange(ProcessQuery::Fill { capacity }, replies) == Some((fill_outcome(replies[k as int]), k + 1)),
    decreases k,
{
    if k > 0 {
        let rest = replies.drop_first();
        assert(fills_end_at(rest, (k - 1) as nat)) by {
            assert forall|i: int| 0 <= i < k - 1 implies (#[trigger] rest[i]).0.0 == AMDSMI_STATUS_OUT_OF_RESOURCES by {
                assert(rest[i] == replies[i + 1]);
            }
            assert(rest[k - 1] == replies[k as int]);
        }
        assert(replies[0].0.0 == AMDSMI_STATUS_OUT_OF_RESOURCES);
        law_fills_until_not_out_of_resources(replies[0].1, rest, (k - 1) as nat);
        assert(rest[k - 1] == replies[k as int]);
    }
}

/// A whole exchange: when the counting call reports some processes with an
/// accepted status, and the library then answers "out of resources" to `k`
/// fill calls and otherwise to the next, the exchange ends, after the
/// counting call and `k + 1` fill calls, with the outcome of the last fill.
/// When the counting call reports no processes, or fails, it ends at once.
pub proof fn law_whole_exchange<T>(replies: Seq<Reply<T>>, k: nat)
    requires
        replies.len() >= 1,
        counting_accepted(replies[0].0) && replies[0].1 > 0 ==> fills_end_at(replies.drop_first(), k),
    ensures
        counting_accepted(replies[0].0) && replies[0].1 > 0 ==> run_exchange(ProcessQuery::Count, replies)
            == Some((fill_outcome(replies[k + 1 as int]), k + 2)),
        !counting_accepted(replies[0].0) ==> run_exchange(ProcessQuery::Count, replies)
            == Some((Err::<Seq<T>, AmdError>(process_list_error(replies[0].0)), 1nat)),
        counting_accepted(replies[0].0) && replies[0].1 == 0 ==> run_exchange(ProcessQuery::Count, replies)
            == Some((Ok::<Seq<T>, AmdError>(Seq::empty()), 1nat)),
{
    if counting_accepted(replies[0].0) && replies[0].1 > 0 {
        let rest = replies.drop_first();
        law_fills_until_not_out_of_resources(replies[0].1, rest, k);
        assert(rest[k as int] == replies[k + 1 as int]);
    }
}

/// What follows a call, over every status: codes other than success (0)
/// and "out of resources" (15) end the exchange with that status and no
/// message; after counting, an accepted status ends with the empty list when
/// no processes are reported, and asks for a fill of the reported size
/// otherwise; after filling, "out of resources" asks for a fill of the newly
/// reported size, and success ends with the first entries written, as many
/// as reported unless fewer were written.
pub proof fn law_next_step_by_status<T>(query: ProcessQuery, status: AmdStatus, count: u32, written: Seq<T>)
    ensures
        status.0 != 0 && status.0 != 15 ==> next_step(query, status, count, written) == StepView::<T>::Done(
            Err(AmdError { status, message: None }),
        ),
        query == ProcessQuery::Count && (status.0 == 0 || status.0 == 15) && count == 0 ==> next_step(
            query,
            status,
            count,
            written,
        ) == StepView::<T>::Done(Ok(Seq::empty())),
        query == ProcessQuery::Count && (status.0 == 0 || status.0 == 15) && count > 0 ==> next_step(
            query,
            status,
            count,
            written,
        ) == StepView::<T>::Query(ProcessQuery::Fill { capacity: count }),
        query is Fill && status.0 == 15 ==> next_step(query, status, count, written) == StepView::<T>::Query(
            ProcessQuery::Fill { capacity: count },
        ),
        query is Fill && status.0 == 0 ==> (next_step(query, status, count, written) matches StepView::Done(
            Ok(list),
        ) && {
            &&& list.len() <= count
            &&& list.len() <= written.len()
            &&& (list.len() == count || list.len() == written.len())
            &&& forall|i: int| 0 <= i < list.len() ==> list[i] == written[i]
        }),
{
}

} // verus!
