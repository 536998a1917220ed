//! The conversation of a frontend with a vhost-user backend: what was asked, what was answered,
//! and how a planned sequence of requests is carried out.
use crate::vhost_user::{
    VhostTransferStateDirection, VhostTransferStatePhase, VhostUserConfig, VhostUserDirtyLogRegion,
    VhostUserError, VhostUserMemoryRegionInfo, VringConfigData,
};
use vmm_sys_util::eventfd::EventFd;
use vstd::prelude::*;

verus! {

/// A call on the backend. `S` is the backend's kind of stream, `F` its kind of file.
pub enum Request<S, F> {
    FromStream { sock: S, max_queue_num: u64 },
    SetHdrFlags { flags: u32 },
    GetFeatures,
    SetFeatures { features: u64 },
    SetOwner,
    SetMemTable { regions: Seq<VhostUserMemoryRegionInfo> },
    SetVringNum { index: usize, num: u16 },
    SetVringAddr { index: usize, config: VringConfigData },
    SetVringBase { index: usize, base: u16 },
    GetVringBase { index: usize },
    SetLogBase { log_base: u64, region: Option<VhostUserDirtyLogRegion> },
    SetVringCall { index: usize, fd: EventFd },
    SetVringKick { index: usize, fd: EventFd },
    GetProtocolFeatures,
    SetProtocolFeatures { features: u64 },
    SetVringEnable { index: usize, enable: bool },
    GetConfig { offset: u32, size: u32, flags: u32, buf: Seq<u8> },
    SetConfig { offset: u32, flags: u32, buf: Seq<u8> },
    SetDeviceStateFd {
        direction: VhostTransferStateDirection,
        phase: VhostTransferStatePhase,
        file: F,
    },
    CheckDeviceState,
}

/// What the backend answered.
pub enum Reply<F> {
    /// The call has no result.
    Silent,
    /// The call succeeded or failed.
    Ack(Result<(), vhost::Error>),
    /// A set of feature bits.
    Features(Result<u64, vhost::Error>),
    /// The next available index of a vring.
    Base(Result<u32, vhost::Error>),
    /// A part of the configuration space.
    Config(Result<(VhostUserConfig, Vec<u8>), vhost::Error>),
    /// The file for a state transfer, where the backend chose its own.
    Transfer(Result<Option<F>, vhost::Error>),
}

/// One call and its answer.
pub struct Exchange<S, F> {
    pub request: Request<S, F>,
    pub reply: Reply<F>,
}

/// A conversation, in the order in which it was held.
pub type Trace<S, F> = Seq<Exchange<S, F>>;

impl<F> Reply<F> {
    /// The error that the backend answered with.
    pub open spec fn error(self) -> Option<vhost::Error> {
        match self {
            Reply::Silent => None,
            Reply::Ack(r) => r.err(),
            Reply::Features(r) => r.err(),
            Reply::Base(r) => r.err(),
            Reply::Config(r) => r.err(),
            Reply::Transfer(r) => r.err(),
        }
    }
}

impl<S, F> Request<S, F> {
    /// The error that stands for a failure of this request.
    pub open spec fn error(self, cause: vhost::Error) -> VhostUserError {
        match self {
            Request::GetFeatures => VhostUserError::VhostUserGetFeatures(cause),
            Request::SetFeatures { .. } => VhostUserError::VhostUserSetFeatures(cause),
            Request::SetOwner => VhostUserError::VhostUserSetOwner(cause),
            Request::SetMemTable { .. } => VhostUserError::VhostUserSetMemTable(cause),
            Request::SetVringNum { .. } => VhostUserError::VhostUserSetVringNum(cause),
            Request::SetVringAddr { .. } => VhostUserError::VhostUserSetVringAddr(cause),
            Request::SetVringBase { .. } => VhostUserError::VhostUserSetVringBase(cause),
            Request::GetVringBase { .. } => VhostUserError::VhostUserGetVringBase(cause),
            Request::SetLogBase { .. } => VhostUserError::VhostUserSetLogBase(cause),
            Request::SetVringCall { .. } => VhostUserError::VhostUserSetVringCall(cause),
            Request::SetVringKick { .. } => VhostUserError::VhostUserSetVringKick(cause),
            Request::GetProtocolFeatures => VhostUserError::VhostUserGetProtocolFeatures(cause),
            Request::SetProtocolFeatures { .. } => VhostUserError::VhostUserSetProtocolFeatures(
                cause,
            ),
            Request::SetVringEnable { .. } => VhostUserError::VhostUserSetVringEnable(cause),
            Request::SetDeviceStateFd { .. } => VhostUserError::VhostUserSetDeviceState(cause),
            Request::CheckDeviceState => VhostUserError::VhostUserCheckDeviceState(cause),
            _ => vstd::pervasive::arbitrary(),
        }
    }
}

/// Requests to be sent one after the other, and the error that awaits at their end, if any.
#[verifier::ext_equal]
pub struct Plan<S, F> {
    pub requests: Seq<Request<S, F>>,
    pub stop: Option<VhostUserError>,
}

impl<S, F> Plan<S, F> {
    /// No request at all.
    pub open spec fn nothing() -> Self {
        Plan { requests: Seq::empty(), stop: None }
    }

    /// One request.
    pub open spec fn single(request: Request<S, F>) -> Self {
        Plan { requests: seq![request], stop: None }
    }

    /// No request, but an error.
    pub open spec fn refused(error: VhostUserError) -> Self {
        Plan { requests: Seq::empty(), stop: Some(error) }
    }

    /// This plan and then the other one, unless this one ends in an error.
    pub open spec fn and(self, other: Self) -> Self {
        if self.stop is Some {
            self
        } else {
            Plan { requests: self.requests + other.requests, stop: other.stop }
        }
    }
}

/// The exchanges between `before` and `after` carry out the plan: they are its requests in order,
/// up to the first that fails. The outcome is that failure; where none failed, it is the error at
/// the end of the plan, or success.
pub open spec fn carries_out<S, F>(
    before: Seq<Exchange<S, F>>,
    after: Seq<Exchange<S, F>>,
    plan: Plan<S, F>,
    outcome: Result<(), VhostUserError>,
) -> bool {
    let sent = after.skip(before.len() as int);
    &&& after == before + sent
    &&& sent.len() <= plan.requests.len()
    &&& forall|i: int|
        0 <= i < sent.len() ==> (#[trigger] sent[i]).request == plan.requests[i]
    &&& forall|i: int| 0 <= i < sent.len() - 1 ==> (#[trigger] sent[i]).reply.error() is None
    &&& if sent.len() > 0 && sent.last().reply.error() is Some {
        outcome == Err::<(), _>(sent.last().request.error(sent.last().reply.error()->0))
    } else {
        &&& sent.len() == plan.requests.len()
        &&& outcome == match plan.stop {
            Some(e) => Err(e),
            None => Ok(()),
        }
    }
}

/// Carrying out a plan only adds to a conversation. What it adds are requests of the plan, in their
/// order and from the first on, and none after one that failed. The outcome is a success exactly
/// where all of them were sent, none failed, and no error awaits at the end.
pub proof fn law_plans_are_carried_out_in_order<S, F>(
    before: Seq<Exchange<S, F>>,
    after: Seq<Exchange<S, F>>,
    plan: Plan<S, F>,
    outcome: Result<(), VhostUserError>,
)
    requires
        carries_out(before, after, plan, outcome),
    ensures
        before.len() <= after.len() <= before.len() + plan.requests.len(),
        after.take(before.len() as int) == before,
        forall|k: int|
            before.len() <= k < after.len() ==> (#[trigger] after[k]).request
                == plan.requests[k - before.len()],
        forall|k: int|
            before.len() <= k < after.len() - 1 ==> (#[trigger] after[k]).reply.error() is None,
        outcome is Ok <==> {
            &&& after.len() == before.len() + plan.requests.len()
            &&& plan.stop is None
            &&& after.len() > before.len() ==> after.last().reply.error() is None
        },
        outcome matches Err(e) ==> {
            ||| {
                &&& after.len() > before.len()
                &&& after.last().reply.error() is Some
                &&& e == after.last().request.error(after.last().reply.error()->0)
            }
            ||| {
                &&& after.len() == before.len() + plan.requests.len()
                &&& plan.stop == Some(e)
            }
        },
{
    let sent = after.skip(before.len() as int);
    assert(after.take(before.len() as int) =~= before);
    assert forall|k: int| before.len() <= k < after.len() implies (#[trigger] after[k]).request
        == plan.requests[k - before.len()] by {
        assert(sent[k - before.len()] == after[k]);
    }
    assert forall|k: int| before.len() <= k < after.len() - 1 implies (
    #[trigger] after[k]).reply.error() is None by {
        assert(sent[k - before.len()] == after[k]);
    }
    if sent.len() > 0 {
        assert(sent.last() == after.last());
    }
}

/// The error of a request names the request that failed, and keeps the cause.
pub proof fn law_failures_name_their_request<S, F>(request: Request<S, F>, cause: vhost::Error)
    ensures
        match request.error(cause) {
            VhostUserError::VhostUserGetFeatures(c) => request is GetFeatures ==> c == cause,
            _ => !(request is GetFeatures),
        },
        match request.error(cause) {
            VhostUserError::VhostUserSetFeatures(c) => request is SetFeatures ==> c == cause,
            _ => !(request is SetFeatures),
        },
        match request.error(cause) {
            VhostUserError::VhostUserSetOwner(c) => request is SetOwner ==> c == cause,
            _ => !(request is SetOwner),
        },
        match request.error(cause) {
            VhostUserError::VhostUserSetMemTable(c) => request is SetMemTable ==> c == cause,
            _ => !(request is SetMemTable),
        },
        match request.error(cause) {
            VhostUserError::VhostUserSetVringNum(c) => request is SetVringNum ==> c == cause,
            _ => !(request is SetVringNum),
        },
        match request.error(cause) {
            VhostUserError::VhostUserSetVringAddr(c) => request is SetVringAddr ==> c == cause,
            _ => !(request is SetVringAddr),
        },
        match request.error(cause) {
            VhostUserError::VhostUserSetVringBase(c) => request is SetVringBase ==> c == cause,
            _ => !(request is SetVringBase),
        },
        match request.error(cause) {
            VhostUserError::VhostUserGetVringBase(c) => request is GetVringBase ==> c == cause,
            _ => !(request is GetVringBase),
        },
        match request.error(cause) {
            VhostUserError::VhostUserSetLogBase(c) => request is SetLogBase ==> c == cause,
            _ => !(request is SetLogBase),
        },
        match request.error(cause) {
            VhostUserError::VhostUserSetVringCall(c) => request is SetVringCall ==> c == cause,
            _ => !(request is SetVringCall),
        },
        match request.error(cause) {
            VhostUserError::VhostUserSetVringKick(c) => request is SetVringKick ==> c == cause,
            _ => !(request is SetVringKick),
        },
        match request.error(cause) {
            VhostUserError::VhostUserGetProtocolFeatures(c) => request is GetProtocolFeatures
                ==> c == cause,
            _ => !(request is GetProtocolFeatures),
        },
        match request.error(cause) {
            VhostUserError::VhostUserSetProtocolFeatures(c) => request is SetProtocolFeatures
                ==> c == cause,
            _ => !(request is SetProtocolFeatures),
        },
        match request.error(cause) {
            VhostUserError::VhostUserSetVringEnable(c) => request is SetVringEnable
                ==> c == cause,
            _ => !(request is SetVringEnable),
        },
        match request.error(cause) {
            VhostUserError::VhostUserSetDeviceState(c) => request is SetDeviceStateFd
                ==> c == cause,
            _ => !(request is SetDeviceStateFd),
        },
        match request.error(cause) {
            VhostUserError::VhostUserCheckDeviceState(c) => request is CheckDeviceState
                ==> c == cause,
            _ => !(request is CheckDeviceState),
        },
{
}

/// An outcome without the value that a success brings.
pub open spec fn valueless<V>(outcome: Result<V, VhostUserError>) -> Result<(), VhostUserError> {
    match outcome {
        Ok(_) => Ok(()),
        Err(e) => Err(e),
    }
}

/// What follows a conversation is what it grew by.
pub proof fn lemma_grown<S, F>(
    before: Seq<Exchange<S, F>>,
    after: Seq<Exchange<S, F>>,
    sent: Seq<Exchange<S, F>>,
)
    requires
        after =~= before + sent,
    ensures
        after.skip(before.len() as int) == sent,
        after == before + sent,
{
    assert(after.skip(before.len() as int) =~= sent);
}

/// An empty conversation carries out the empty plan.
pub proof fn lemma_nothing<S, F>(trace: Seq<Exchange<S, F>>)
    ensures
        carries_out(trace, trace, Plan::nothing(), Ok(())),
{
    assert(trace =~= trace + trace.skip(trace.len() as int));
}

/// An empty conversation carries out a plan that is refused at once.
pub proof fn lemma_refused<S, F>(trace: Seq<Exchange<S, F>>, error: VhostUserError)
    ensures
        carries_out(trace, trace, Plan::refused(error), Err(error)),
{
    assert(trace =~= trace + trace.skip(trace.len() as int));
}

/// One exchange carries out a plan of one request.
pub proof fn lemma_single<S, F>(before: Seq<Exchange<S, F>>, exchange: Exchange<S, F>)
    ensures
        carries_out(
            before,
            before.push(exchange),
            Plan::single(exchange.request),
            match exchange.reply.error() {
                None => Ok(()),
                Some(v) => Err(exchange.request.error(v)),
            },
        ),
{
    let after = before.push(exchange);
    assert(after.skip(before.len() as int) =~= seq![exchange]);
    assert(after =~= before + seq![exchange]);
}

/// A plan that succeeded and the plan after it make up both together.
pub proof fn lemma_and_then<S, F>(
    before: Seq<Exchange<S, F>>,
    between: Seq<Exchange<S, F>>,
    after: Seq<Exchange<S, F>>,
    first: Plan<S, F>,
    second: Plan<S, F>,
    outcome: Result<(), VhostUserError>,
)
    requires
        carries_out(before, between, first, Ok(())),
        carries_out(between, after, second, outcome),
    ensures
        carries_out(before, after, first.and(second), outcome),
{
    let one = between.skip(before.len() as int);
    let two = after.skip(between.len() as int);
    let sent = after.skip(before.len() as int);
    assert(sent =~= one + two);
    assert(after =~= before + sent);
    let plan = first.and(second);
    assert forall|i: int| 0 <= i < sent.len() implies (#[trigger] sent[i]).request
        == plan.requests[i] by {
        if i < one.len() {
            assert(sent[i] == one[i]);
        } else {
            assert(sent[i] == two[i - one.len()]);
        }
    }
    assert forall|i: int| 0 <= i < sent.len() - 1 implies (
    #[trigger] sent[i]).reply.error() is None by {
        if i < one.len() {
            assert(sent[i] == one[i]);
            if i == one.len() - 1 {
                assert(one.last() == one[i]);
            }
        } else {
            assert(sent[i] == two[i - one.len()]);
        }
    }
    if two.len() > 0 {
        assert(sent.last() == two.last());
    } else if one.len() > 0 {
        assert(sent.last() == one.last());
    }
}

/// A plan that failed leaves nothing to do for the plan after it.
pub proof fn lemma_and_failed<S, F>(
    before: Seq<Exchange<S, F>>,
    after: Seq<Exchange<S, F>>,
    first: Plan<S, F>,
    second: Plan<S, F>,
    error: VhostUserError,
)
    requires
        carries_out(before, after, first, Err(error)),
    ensures
        carries_out(before, after, first.and(second), Err(error)),
{
}

/// The outcome of two attempts of which the second is made whatever came of the first: the error
/// that came first.
pub open spec fn first_error(
    first: Result<(), VhostUserError>,
    second: Result<(), VhostUserError>,
) -> Result<(), VhostUserError> {
    if first is Err {
        first
    } else {
        second
    }
}

/// The first error among the outcomes of several attempts.
pub open spec fn overall(outcomes: Seq<Result<(), VhostUserError>>) -> Result<(), VhostUserError>
    decreases outcomes.len(),
{
    if outcomes.len() == 0 {
        Ok(())
    } else {
        first_error(overall(outcomes.drop_last()), outcomes.last())
    }
}

/// Each plan was carried out between two neighbouring marks, with the outcome of the same index.
pub open spec fn between_marks<S, F>(
    marks: Seq<Seq<Exchange<S, F>>>,
    outcomes: Seq<Result<(), VhostUserError>>,
    plans: Seq<Plan<S, F>>,
) -> bool {
    &&& marks.len() == plans.len() + 1
    &&& outcomes.len() == plans.len()
    &&& forall|i: int|
        0 <= i < plans.len() ==> carries_out(
            marks[i],
            marks[i + 1],
            #[trigger] plans[i],
            outcomes[i],
        )
}

/// The exchanges between `before` and `after` try the plans one after the other, each of them
/// whatever came of those before it. The outcome is the first error.
pub open spec fn attempts<S, F>(
    before: Seq<Exchange<S, F>>,
    after: Seq<Exchange<S, F>>,
    plans: Seq<Plan<S, F>>,
    outcome: Result<(), VhostUserError>,
) -> bool {
    exists|marks: Seq<Seq<Exchange<S, F>>>, outcomes: Seq<Result<(), VhostUserError>>| #[trigger]
        between_marks(marks, outcomes, plans) && marks.first() == before && marks.last() == after
            && outcome == overall(outcomes)
}

/// Without plans, nothing is tried.
pub proof fn lemma_no_attempts<S, F>(trace: Seq<Exchange<S, F>>)
    ensures
        attempts(trace, trace, Seq::<Plan<S, F>>::empty(), Ok(())),
{
    assert(between_marks(seq![trace], Seq::empty(), Seq::<Plan<S, F>>::empty()));
}

/// One more plan that was carried out is one more attempt.
pub proof fn lemma_one_more_attempt<S, F>(
    before: Seq<Exchange<S, F>>,
    between: Seq<Exchange<S, F>>,
    after: Seq<Exchange<S, F>>,
    plans: Seq<Plan<S, F>>,
    plan: Plan<S, F>,
    first: Result<(), VhostUserError>,
    second: Result<(), VhostUserError>,
)
    requires
        attempts(before, between, plans, first),
        carries_out(between, after, plan, second),
    ensures
        attempts(before, after, plans.push(plan), first_error(first, second)),
{
    let (marks, outcomes) = choose|
        marks: Seq<Seq<Exchange<S, F>>>,
        outcomes: Seq<Result<(), VhostUserError>>,
    | #[trigger]
        between_marks(marks, outcomes, plans) && marks.first() == before && marks.last() == between
            && first == overall(outcomes);
    let all = plans.push(plan);
    assert forall|i: int| 0 <= i < all.len() implies carries_out(
        marks.push(after)[i],
        marks.push(after)[i + 1],
        #[trigger] all[i],
        outcomes.push(second)[i],
    ) by {
        if i < plans.len() {
            assert(all[i] == plans[i]);
        }
    }
    assert(between_marks(marks.push(after), outcomes.push(second), all));
    assert(outcomes.push(second).drop_last() =~= outcomes);
}

/// The first error of two lists of outcomes together.
proof fn lemma_overall_concat(
    a: Seq<Result<(), VhostUserError>>,
    b: Seq<Result<(), VhostUserError>>,
)
    ensures
        overall(a + b) == first_error(overall(a), overall(b)),
    decreases b.len(),
{
    if b.len() == 0 {
        assert(a + b =~= a);
        assert(overall(a) is Ok ==> overall(a)->Ok_0 == ());
    } else {
        assert((a + b).drop_last() =~= a + b.drop_last());
        lemma_overall_concat(a, b.drop_last());
    }
}

/// Attempts and further attempts after them are attempts at all of the plans.
pub proof fn lemma_attempts_concat<S, F>(
    before: Seq<Exchange<S, F>>,
    between: Seq<Exchange<S, F>>,
    after: Seq<Exchange<S, F>>,
    plans: Seq<Plan<S, F>>,
    more: Seq<Plan<S, F>>,
    first: Result<(), VhostUserError>,
    second: Result<(), VhostUserError>,
)
    requires
        attempts(before, between, plans, first),
        attempts(between, after, more, second),
    ensures
        attempts(before, after, plans + more, first_error(first, second)),
{
    let (m1, o1) = choose|
        marks: Seq<Seq<Exchange<S, F>>>,
        outcomes: Seq<Result<(), VhostUserError>>,
    | #[trigger]
        between_marks(marks, outcomes, plans) && marks.first() == before && marks.last() == between
            && first == overall(outcomes);
    let (m2, o2) = choose|
        marks: Seq<Seq<Exchange<S, F>>>,
        outcomes: Seq<Result<(), VhostUserError>>,
    | #[trigger]
        between_marks(marks, outcomes, more) && marks.first() == between && marks.last() == after
            && second == overall(outcomes);
    let marks = m1 + m2.skip(1);
    let outcomes = o1 + o2;
    let all = plans + more;
    assert forall|i: int| 0 <= i < all.len() implies carries_out(
        marks[i],
        marks[i + 1],
        #[trigger] all[i],
        outcomes[i],
    ) by {
        if i < plans.len() {
            assert(all[i] == plans[i]);
        } else {
            let j = i - plans.len();
            assert(all[i] == more[j]);
            assert(marks[i] == m2[j]);
            assert(marks[i + 1] == m2[j + 1]);
        }
    }
    assert(between_marks(marks, outcomes, all));
    lemma_overall_concat(o1, o2);
}

/// Two attempts are two plans that were carried out one after the other, whatever came of the
/// first.
pub proof fn lemma_two_attempts<S, F>(
    before: Seq<Exchange<S, F>>,
    after: Seq<Exchange<S, F>>,
    plans: Seq<Plan<S, F>>,
    outcome: Result<(), VhostUserError>,
) -> (parts: (
    Seq<Exchange<S, F>>,
    Result<(), VhostUserError>,
    Result<(), VhostUserError>,
))
    requires
        plans.len() == 2,
        attempts(before, after, plans, outcome),
    ensures
        carries_out(before, parts.0, plans[0], parts.1),
        carries_out(parts.0, after, plans[1], parts.2),
        outcome == first_error(parts.1, parts.2),
{
    let (marks, outcomes) = choose|
        marks: Seq<Seq<Exchange<S, F>>>,
        outcomes: Seq<Result<(), VhostUserError>>,
    | #[trigger]
        between_marks(marks, outcomes, plans) && marks.first() == before && marks.last() == after
            && outcome == overall(outcomes);
    assert(carries_out(marks[0], marks[1], plans[0], outcomes[0]));
    assert(carries_out(marks[1], marks[2], plans[1], outcomes[1]));
    assert(outcomes.drop_last().drop_last() =~= Seq::empty());
    assert(outcomes.drop_last().last() == outcomes[0]);
    reveal_with_fuel(overall, 3);
    assert(outcomes[0] is Ok ==> outcomes[0]->Ok_0 == ());
    (marks[1], outcomes[0], outcomes[1])
}

/// Three attempts are three plans that were carried out one after the other, whatever came of those
/// before.
pub proof fn lemma_three_attempts<S, F>(
    before: Seq<Exchange<S, F>>,
    after: Seq<Exchange<S, F>>,
    plans: Seq<Plan<S, F>>,
    outcome: Result<(), VhostUserError>,
) -> (parts: (
    Seq<Exchange<S, F>>,
    Seq<Exchange<S, F>>,
    Result<(), VhostUserError>,
    Result<(), VhostUserError>,
    Result<(), VhostUserError>,
))
    requires
        plans.len() == 3,
        attempts(before, after, plans, outcome),
    ensures
        carries_out(before, parts.0, plans[0], parts.2),
        carries_out(parts.0, parts.1, plans[1], parts.3),
        carries_out(parts.1, after, plans[2], parts.4),
        outcome == first_error(first_error(parts.2, parts.3), parts.4),
{
    let (marks, outcomes) = choose|
        marks: Seq<Seq<Exchange<S, F>>>,
        outcomes: Seq<Result<(), VhostUserError>>,
    | #[trigger]
        between_marks(marks, outcomes, plans) && marks.first() == before && marks.last() == after
            && outcome == overall(outcomes);
    assert(carries_out(marks[0], marks[1], plans[0], outcomes[0]));
    assert(carries_out(marks[1], marks[2], plans[1], outcomes[1]));
    assert(carries_out(marks[2], marks[3], plans[2], outcomes[2]));
    let two = outcomes.drop_last();
    assert(two.drop_last().drop_last() =~= Seq::empty());
    assert(two.last() == outcomes[1]);
    assert(two.drop_last().last() == outcomes[0]);
    reveal_with_fuel(overall, 4);
    assert(outcomes[0] is Ok ==> outcomes[0]->Ok_0 == ());
    (marks[1], marks[2], outcomes[0], outcomes[1], outcomes[2])
}

/// Attempts go on from where the conversation was.
pub proof fn lemma_attempts_extend<S, F>(
    before: Seq<Exchange<S, F>>,
    after: Seq<Exchange<S, F>>,
    plans: Seq<Plan<S, F>>,
    outcome: Result<(), VhostUserError>,
)
    requires
        attempts(before, after, plans, outcome),
    ensures
        before.len() <= after.len(),
        after.take(before.len() as int) == before,
{
    let (marks, outcomes) = choose|
        marks: Seq<Seq<Exchange<S, F>>>,
        outcomes: Seq<Result<(), VhostUserError>>,
    | #[trigger]
        between_marks(marks, outcomes, plans) && marks.first() == before && marks.last() == after
            && outcome == overall(outcomes);
    lemma_marks_extend(marks, outcomes, plans, plans.len());
}

/// Each mark goes on from the first.
proof fn lemma_marks_extend<S, F>(
    marks: Seq<Seq<Exchange<S, F>>>,
    outcomes: Seq<Result<(), VhostUserError>>,
    plans: Seq<Plan<S, F>>,
    n: nat,
)
    requires
        between_marks(marks, outcomes, plans),
        n <= plans.len(),
    ensures
        marks[0].len() <= marks[n as int].len(),
        marks[n as int].take(marks[0].len() as int) == marks[0],
    decreases n,
{
    if n == 0 {
        assert(marks[0].take(marks[0].len() as int) =~= marks[0]);
    } else {
        lemma_marks_extend(marks, outcomes, plans, (n - 1) as nat);
        let plan = plans[n - 1];
        assert(carries_out(marks[n - 1], marks[n as int], plan, outcomes[n - 1]));
        let start = marks[0].len() as int;
        assert(marks[n as int].take(start) =~= marks[n - 1].take(start));
    }
}

/// The header flags that the last request to set them has left.
pub open spec fn header_flags<S, F>(trace: Seq<Exchange<S, F>>) -> u32
    decreases trace.len(),
{
    if trace.len() == 0 {
        0
    } else {
        match trace.last().request {
            Request::SetHdrFlags { flags } => flags,
            _ => header_flags(trace.drop_last()),
        }
    }
}

/// A plan that does not touch the header flags.
pub open spec fn keeps_header<S, F>(plan: Plan<S, F>) -> bool {
    forall|i: int| 0 <= i < plan.requests.len() ==> (#[trigger] plan.requests[i]) !is SetHdrFlags
}

/// Exchanges that do not set header flags leave them as they were.
proof fn lemma_header_kept<S, F>(before: Seq<Exchange<S, F>>, sent: Seq<Exchange<S, F>>)
    requires
        forall|i: int| 0 <= i < sent.len() ==> (#[trigger] sent[i]).request !is SetHdrFlags,
    ensures
        header_flags(before + sent) == header_flags(before),
    decreases sent.len(),
{
    if sent.len() > 0 {
        assert((before + sent).drop_last() =~= before + sent.drop_last());
        assert((before + sent).last() == sent[sent.len() - 1]);
        assert forall|i: int| 0 <= i < sent.drop_last().len() implies (
        #[trigger] sent.drop_last()[i]).request !is SetHdrFlags by {
            assert(sent[i] == sent.drop_last()[i]);
        }
        lemma_header_kept(before, sent.drop_last());
    } else {
        assert(before + sent =~= before);
    }
}

/// Carrying out a plan that does not touch the header flags leaves them as they were.
pub proof fn lemma_plan_keeps_header<S, F>(
    before: Seq<Exchange<S, F>>,
    after: Seq<Exchange<S, F>>,
    plan: Plan<S, F>,
    outcome: Result<(), VhostUserError>,
)
    requires
        carries_out(before, after, plan, outcome),
        keeps_header(plan),
    ensures
        header_flags(after) == header_flags(before),
{
    let sent = after.skip(before.len() as int);
    assert forall|i: int| 0 <= i < sent.len() implies (
    #[trigger] sent[i]).request !is SetHdrFlags by {
        assert(sent[i].request == plan.requests[i]);
    }
    lemma_header_kept(before, sent);
}

/// The last request that switched a vring on or off has switched it off.
pub open spec fn vring_stopped<S, F>(trace: Seq<Exchange<S, F>>, vring: usize) -> bool
    decreases trace.len(),
{
    if trace.len() == 0 {
        false
    } else {
        match trace.last().request {
            Request::SetVringEnable { index, enable } if index == vring => !enable
                && trace.last().reply.error() is None,
            _ => vring_stopped(trace.drop_last(), vring),
        }
    }
}

/// A plan that switches no vring on or off.
pub open spec fn switches_nothing<S, F>(plan: Plan<S, F>) -> bool {
    forall|i: int| 0 <= i < plan.requests.len() ==> (#[trigger] plan.requests[i]) !is SetVringEnable
}

/// Exchanges that switch no vring leave a stopped one stopped.
pub proof fn lemma_vring_stays<S, F>(
    before: Seq<Exchange<S, F>>,
    sent: Seq<Exchange<S, F>>,
    vring: usize,
)
    requires
        forall|i: int| 0 <= i < sent.len() ==> (#[trigger] sent[i]).request !is SetVringEnable,
    ensures
        vring_stopped(before + sent, vring) == vring_stopped(before, vring),
    decreases sent.len(),
{
    if sent.len() > 0 {
        assert((before + sent).drop_last() =~= before + sent.drop_last());
        assert((before + sent).last() == sent[sent.len() - 1]);
        assert forall|i: int| 0 <= i < sent.drop_last().len() implies (
        #[trigger] sent.drop_last()[i]).request !is SetVringEnable by {
            assert(sent[i] == sent.drop_last()[i]);
        }
        lemma_vring_stays(before, sent.drop_last(), vring);
    } else {
        assert(before + sent =~= before);
    }
}

/// Carrying out a plan that switches no vring leaves a stopped one stopped.
pub proof fn lemma_plan_keeps_vring<S, F>(
    before: Seq<Exchange<S, F>>,
    after: Seq<Exchange<S, F>>,
    plan: Plan<S, F>,
    outcome: Result<(), VhostUserError>,
    vring: usize,
)
    requires
        carries_out(before, after, plan, outcome),
        switches_nothing(plan),
    ensures
        vring_stopped(after, vring) == vring_stopped(before, vring),
{
    let sent = after.skip(before.len() as int);
    assert forall|i: int| 0 <= i < sent.len() implies (
    #[trigger] sent[i]).request !is SetVringEnable by {
        assert(sent[i].request == plan.requests[i]);
    }
    lemma_vring_stays(before, sent, vring);
}

/// Switching a vring off stops it and no other.
pub proof fn lemma_switched_off<S, F>(trace: Seq<Exchange<S, F>>, exchange: Exchange<S, F>)
    requires
        exchange.request matches Request::SetVringEnable { enable, .. } && !enable,
        exchange.reply.error() is None,
    ensures
        vring_stopped(trace.push(exchange), exchange.request->SetVringEnable_index),
        forall|vring: usize|
            vring != exchange.request->SetVringEnable_index ==> #[trigger] vring_stopped(
                trace.push(exchange),
                vring,
            ) == vring_stopped(trace, vring),
{
    assert(trace.push(exchange).drop_last() =~= trace);
}

/// A vring counts as stopped exactly where a request has switched it off with success, and none has
/// tried to switch it since.
pub proof fn law_a_stopped_vring_was_switched_off<S, F>(
    trace: Seq<Exchange<S, F>>,
    vring: usize,
)
    ensures
        vring_stopped(trace, vring) <==> exists|k: int|
            {
                &&& 0 <= k < trace.len()
                &&& (#[trigger] trace[k]).request == Request::<S, F>::SetVringEnable {
                    index: vring,
                    enable: false,
                }
                &&& trace[k].reply.error() is None
                &&& forall|j: int|
                    k < j < trace.len() ==> !((#[trigger] trace[j]).request matches
                        Request::SetVringEnable { index, .. } && index == vring)
            },
    decreases trace.len(),
{
    if trace.len() > 0 {
        let less = trace.drop_last();
        let last = trace.len() - 1;
        law_a_stopped_vring_was_switched_off(less, vring);
        let switches = trace.last().request matches Request::SetVringEnable { index, .. }
            && index == vring;
        if !switches && vring_stopped(less, vring) {
            let k = choose|k: int|
                {
                    &&& 0 <= k < less.len()
                    &&& (#[trigger] less[k]).request == Request::<S, F>::SetVringEnable {
                        index: vring,
                        enable: false,
                    }
                    &&& less[k].reply.error() is None
                    &&& forall|j: int|
                        k < j < less.len() ==> !((#[trigger] less[j]).request matches
                            Request::SetVringEnable { index, .. } && index == vring)
                };
            assert(trace[k] == less[k]);
            assert forall|j: int| k < j < trace.len() implies !((
            #[trigger] trace[j]).request matches Request::SetVringEnable { index, .. } && index
                == vring) by {
                if j < last {
                    assert(trace[j] == less[j]);
                }
            }
        }
        if exists|k: int|
            {
                &&& 0 <= k < trace.len()
                &&& (#[trigger] trace[k]).request == Request::<S, F>::SetVringEnable {
                    index: vring,
                    enable: false,
                }
                &&& trace[k].reply.error() is None
                &&& forall|j: int|
                    k < j < trace.len() ==> !((#[trigger] trace[j]).request matches
                        Request::SetVringEnable { index, .. } && index == vring)
            } {
            let k = choose|k: int|
                {
                    &&& 0 <= k < trace.len()
                    &&& (#[trigger] trace[k]).request == Request::<S, F>::SetVringEnable {
                        index: vring,
                        enable: false,
                    }
                    &&& trace[k].reply.error() is None
                    &&& forall|j: int|
                        k < j < trace.len() ==> !((#[trigger] trace[j]).request matches
                            Request::SetVringEnable { index, .. } && index == vring)
                };
            if k < last {
                assert(!(trace[last].request matches Request::SetVringEnable { index, .. } && index
                    == vring));
                assert(less[k] == trace[k]);
                assert forall|j: int| k < j < less.len() implies !((
                #[trigger] less[j]).request matches Request::SetVringEnable { index, .. } && index
                    == vring) by {
                    assert(less[j] == trace[j]);
                }
            }
        }
        if switches && vring_stopped(trace, vring) {
            assert(trace[last].request == Request::<S, F>::SetVringEnable {
                index: vring,
                enable: false,
            });
        }
    }
}

} // verus!
