//! The target: the storage endpoint that owns transports and subsystems.
//!
//! Every operation on a target is split where the runtime comes in. The
//! method on [`Target`] yields the request to hand to the runtime; the
//! request's own methods take the runtime's answers and decide what follows.

use vstd::prelude::*;
use crate::errors::{is_status, status_result, to_result, Errno, EINPROGRESS, ENOMEM};
use crate::nvme::{TransportId, SPDK_NVME_GLOBAL_NS_TAG};
use crate::nvmf::linkage::{advance, head, lemma_position, position, successor, well_linked};
use crate::nvmf::subsystem::{
    AllowAnyHost, Subsystem, SubsystemOp, SubsystemState, SubsystemType, Subsystems, Transition,
};
use crate::nvmf::transport::{DestroyTransport, Transport, Transports};
use crate::nvmf::SPDK_NVMF_DISCOVERY_NQN;
use crate::task::{complete_with_ok, Promise};

verus! {

/// An NVMe-oF target. The handle is never null. The target itself lives in
/// the runtime, which creates and frees it.
#[derive(Debug)]
pub struct Target {
    ptr: usize,
}

impl View for Target {
    type V = usize;

    closed spec fn view(&self) -> usize {
        self.ptr
    }
}

impl Target {
    #[verifier::type_invariant]
    spec fn non_null(self) -> bool {
        self.ptr != 0
    }

    /// Wraps a handle that the runtime gave out. A null handle is not one.
    pub fn from_ptr(ptr: usize) -> (target: Target)
        requires
            ptr != 0,
        ensures
            target@ == ptr,
    {
        Target { ptr }
    }

    /// The handle of the target.
    pub fn as_ptr(&self) -> (ptr: usize)
        ensures
            ptr == self@,
            ptr != 0,
    {
        proof {
            use_type_invariant(self);
        }
        self.ptr
    }

    /// The request to add `transport` to this target. The transport leaves
    /// the caller's hands here: the request holds it until the outcome says
    /// whose it is.
    pub fn add_transport(&mut self, transport: Transport) -> (op: AddTransport)
        ensures
            final(self)@ == old(self)@,
            op.target() == old(self)@,
            op.transport() == transport@,
    {
        AddTransport { target: self.ptr, transport }
    }

    /// A cursor over the transports of this target, starting at `first`,
    /// the runtime's answer for the target's first transport.
    pub fn transports(&self, first: usize) -> (transports: Transports)
        ensures
            transports.cursor == first,
    {
        Transports::new(first)
    }

    /// The request to create the discovery subsystem on this target: a
    /// subsystem under the well-known discovery name, of the discovery
    /// kind, without namespaces.
    pub fn enable_discovery(&mut self) -> (op: EnableDiscovery)
        ensures
            final(self)@ == old(self)@,
            op.create.target == old(self)@,
            op.create.nqn@ == SPDK_NVMF_DISCOVERY_NQN@,
            op.create.subtype == SubsystemType::Discovery,
            op.create.num_namespaces == 0,
    {
        EnableDiscovery {
            create: self.add_subsystem(SPDK_NVMF_DISCOVERY_NQN, SubsystemType::Discovery, 0),
        }
    }

    /// The request to create a subsystem named `nqn` on this target, with
    /// room for `num_ns` namespaces.
    pub fn add_subsystem<'a>(&mut self, nqn: &'a str, subtype: SubsystemType, num_ns: u32) -> (op:
        CreateSubsystem<'a>)
        ensures
            final(self)@ == old(self)@,
            op.target == old(self)@,
            op.nqn@ == nqn@,
            op.subtype == subtype,
            op.num_namespaces == num_ns,
    {
        CreateSubsystem { target: self.ptr, nqn, subtype, num_namespaces: num_ns }
    }

    /// The request to destroy `subsys`. The handle is consumed.
    pub fn remove_subsystem(&mut self, subsys: Subsystem) -> (op: RemoveSubsystem)
        ensures
            final(self)@ == old(self)@,
            op.subsystem == subsys@,
            op.subsystem != 0,
    {
        RemoveSubsystem { subsystem: subsys.as_ptr() }
    }

    /// A cursor over the subsystems of this target, starting at `first`,
    /// the runtime's answer for the target's first subsystem.
    pub fn subsystems(&self, first: usize) -> (subsystems: Subsystems)
        ensures
            subsystems.cursor == first,
    {
        Subsystems::new(first)
    }

    /// A sweep that starts every subsystem of this target, beginning at
    /// `first`, the runtime's answer for the target's first subsystem.
    pub fn start_subsystems(&self, first: usize) -> (sweep: Sweep)
        ensures
            sweep == Sweep::begin(SubsystemOp::Start, first),
    {
        Sweep { op: SubsystemOp::Start, subsystems: self.subsystems(first), failure: None }
    }

    /// A sweep that stops every subsystem of this target, beginning at
    /// `first`, the runtime's answer for the target's first subsystem.
    pub fn stop_subsystems(&self, first: usize) -> (sweep: Sweep)
        ensures
            sweep == Sweep::begin(SubsystemOp::Stop, first),
    {
        Sweep { op: SubsystemOp::Stop, subsystems: self.subsystems(first), failure: None }
    }

    /// A sweep that pauses every subsystem of this target for all of its
    /// namespaces, beginning at `first`, the runtime's answer for the
    /// target's first subsystem.
    pub fn pause_subsystems(&self, first: usize) -> (sweep: Sweep)
        ensures
            sweep == Sweep::begin(SubsystemOp::Pause(SPDK_NVME_GLOBAL_NS_TAG), first),
    {
        Sweep {
            op: SubsystemOp::Pause(SPDK_NVME_GLOBAL_NS_TAG),
            subsystems: self.subsystems(first),
            failure: None,
        }
    }

    /// A sweep that resumes every subsystem of this target, beginning at
    /// `first`, the runtime's answer for the target's first subsystem.
    pub fn resume_subsystems(&self, first: usize) -> (sweep: Sweep)
        ensures
            sweep == Sweep::begin(SubsystemOp::Resume, first),
    {
        Sweep { op: SubsystemOp::Resume, subsystems: self.subsystems(first), failure: None }
    }

    /// The request to accept connections on `transport_id`, with the
    /// runtime's default listen options.
    pub fn listen(&self, transport_id: &TransportId) -> (op: Listen)
        ensures
            op == (Listen {
                target: self@,
                transport_id: transport_id@,
                options: ListenOptions::Default,
            }),
    {
        Listen {
            target: self.ptr,
            transport_id: transport_id.as_ptr(),
            options: ListenOptions::Default,
        }
    }
}

/// The request to add a transport to a target, and the transport itself
/// while the request is in flight. The runtime takes the submission without
/// an answer and later invokes the completion function that reports a
/// status.
#[derive(Debug)]
pub struct AddTransport {
    target: usize,
    transport: Transport,
}

impl AddTransport {
    /// The handle of the target.
    pub closed spec fn spec_target(&self) -> usize {
        self.target
    }

    /// The handle of the transport.
    pub closed spec fn spec_transport(&self) -> usize {
        self.transport@
    }

    /// The handle of the target.
    #[verifier::when_used_as_spec(spec_target)]
    pub fn target(&self) -> (ptr: usize)
        ensures
            ptr == self.target(),
    {
        self.target
    }

    /// The handle of the transport.
    #[verifier::when_used_as_spec(spec_transport)]
    pub fn transport(&self) -> (ptr: usize)
        ensures
            ptr == self.transport(),
            ptr != 0,
    {
        self.transport.as_ptr()
    }

    /// Records in `cx` that the request was handed to the runtime. The
    /// primitive returns nothing, so the submission always counts as
    /// accepted.
    pub fn register(&self, cx: &mut Promise)
        ensures
            *final(cx) == old(cx).after_registration(Ok(())),
    {
        cx.register(Ok(()));
    }

    /// Decides whose the transport is once the request has resolved with
    /// `outcome`.
    ///
    /// On success the target owns the transport, and nothing is handed back
    /// with which the caller could destroy it. On failure the transport was
    /// never attached, and it is handed back as a teardown that destroys it
    /// and then reports the failure of the request.
    pub fn resolve(self, outcome: Result<(), Errno>) -> (r: Result<(), Teardown>)
        ensures
            outcome is Ok <==> r is Ok,
            outcome matches Err(e) ==> r == Err::<(), Teardown>(
                Teardown { destroy: DestroyTransport { transport: self.transport() }, status: e },
            ),
    {
        match outcome {
            Ok(_) => Ok(()),
            Err(e) => Err(Teardown { destroy: self.transport.destroy(), status: e }),
        }
    }
}

/// What is left to do after a transport could not be added: destroy the
/// transport, then report why it could not be added.
#[derive(Debug, PartialEq, Eq, Structural)]
pub struct Teardown {
    /// The request that destroys the transport.
    pub destroy: DestroyTransport,
    /// The error with which adding the transport failed.
    pub status: Errno,
}

impl Teardown {
    /// Ends the teardown once the transport's destruction has resolved with
    /// `destroyed`, and reports the error with which adding the transport
    /// failed.
    ///
    /// The transport was attached to nothing, so its destruction has to
    /// succeed: a failed one is not accepted.
    pub fn finish(self, destroyed: Result<(), Errno>) -> (r: Result<(), Errno>)
        requires
            destroyed is Ok,
        ensures
            r == Err::<(), Errno>(self.status),
    {
        Err(self.status)
    }
}

/// The request to create a subsystem. The runtime answers with the new
/// subsystem's handle, or with the null handle where it could not allocate
/// one.
#[derive(Debug, PartialEq, Eq)]
pub struct CreateSubsystem<'a> {
    /// The handle of the target.
    pub target: usize,
    /// The name of the subsystem.
    pub nqn: &'a str,
    /// The kind of the subsystem.
    pub subtype: SubsystemType,
    /// The number of namespaces to make room for.
    pub num_namespaces: u32,
}

impl<'a> CreateSubsystem<'a> {
    /// The new subsystem, inactive and owned by the target, where the
    /// runtime answered with `handle`; the out-of-memory error where it
    /// answered with the null handle.
    pub fn created(&self, handle: usize) -> (r: Result<Subsystem, Errno>)
        ensures
            handle == 0 <==> r is Err,
            r matches Err(e) ==> e == Errno(ENOMEM),
            r matches Ok(subsystem) ==> subsystem@ == handle,
    {
        if handle == 0 {
            Err(Errno(ENOMEM))
        } else {
            Ok(Subsystem::from_ptr(handle))
        }
    }
}

/// The request to create the discovery subsystem, which is then set to
/// allow any host.
#[derive(Debug, PartialEq, Eq)]
pub struct EnableDiscovery {
    /// The request that creates the subsystem.
    pub create: CreateSubsystem<'static>,
}

impl EnableDiscovery {
    /// The discovery subsystem where the runtime answered the creation with
    /// `handle`, together with the request that lets any host connect to
    /// it; the out-of-memory error where it answered with the null handle.
    pub fn created(&self, handle: usize) -> (r: Result<(Subsystem, AllowAnyHost), Errno>)
        ensures
            handle == 0 <==> r is Err,
            r matches Err(e) ==> e == Errno(ENOMEM),
            r matches Ok(pair) ==> pair.0@ == handle && pair.1 == (AllowAnyHost {
                subsystem: handle,
                allow: true,
            }),
    {
        match self.create.created(handle) {
            Ok(discovery) => {
                let allow = discovery.allow_any_host(true);
                Ok((discovery, allow))
            },
            Err(e) => Err(e),
        }
    }
}

/// The request to destroy a subsystem. The runtime answers the submission
/// with a status: zero where the subsystem is already destroyed, in which
/// case no completion follows; the negated "in progress" identifier where
/// the destruction goes on and the completion function that reports nothing
/// is invoked at its end; any other negative status where the subsystem
/// cannot be destroyed.
///
/// The completion carries no status, so a destruction that was accepted
/// counts as done when the completion fires, whatever became of it.
#[derive(Clone, Copy, Debug, PartialEq, Eq, Structural)]
pub struct RemoveSubsystem {
    /// The handle of the subsystem.
    pub subsystem: usize,
}

impl RemoveSubsystem {
    /// The state of `cx` after the destroy primitive has returned `rc`.
    pub open spec fn registered(cx: Promise, rc: i32) -> Promise {
        if rc == 0 {
            cx.after_completion(Ok(())).after_registration(Ok(()))
        } else if rc == -EINPROGRESS {
            cx.after_registration(Ok(()))
        } else {
            cx.after_registration(Err(Errno((-rc) as i32)))
        }
    }

    /// Records in `cx` what the destroy primitive returned.
    ///
    /// Where the subsystem was destroyed inside the call, the completion is
    /// invoked here, as the runtime would have done later, and the
    /// submission counts as accepted. Where the destruction is in progress,
    /// the submission counts as accepted and the completion is left to the
    /// runtime. Any other status rejects the submission with that error.
    pub fn register(&self, cx: &mut Promise, rc: i32)
        requires
            is_status(rc),
        ensures
            *final(cx) == Self::registered(*old(cx), rc),
    {
        match to_result(rc) {
            Ok(_) => {
                complete_with_ok(cx);
                cx.register(Ok(()));
            },
            Err(e) => {
                if e.0 == EINPROGRESS {
                    cx.register(Ok(()));
                } else {
                    cx.register(Err(e));
                }
            },
        }
    }
}

/// The options with which a target listens.
#[derive(Clone, Copy, Debug, PartialEq, Eq, Structural)]
pub enum ListenOptions {
    /// The options as the runtime initialises them.
    Default,
}

/// The request to accept connections on a transport identifier. The runtime
/// answers with a status.
#[derive(Clone, Copy, Debug, PartialEq, Eq, Structural)]
pub struct Listen {
    /// The handle of the target.
    pub target: usize,
    /// The address of the transport identifier.
    pub transport_id: usize,
    /// The listen options.
    pub options: ListenOptions,
}

impl Listen {
    /// The result of the request where the runtime answered with `rc`:
    /// `Ok(())` for zero, the error with the status's magnitude otherwise.
    pub fn returned(&self, rc: i32) -> (r: Result<(), Errno>)
        requires
            is_status(rc),
        ensures
            r == status_result(rc),
    {
        to_result(rc)
    }
}

/// What a sweep asks for next.
#[derive(Clone, Copy, Debug, PartialEq, Eq)]
pub enum SweepStep {
    /// Submit this transition, wait for it to resolve, and settle the sweep
    /// with the outcome.
    Apply(Transition),
    /// The sweep has ended with this result.
    Finished(Result<(), Errno>),
}

/// One state change applied to the subsystems of a target, one after the
/// other in the order in which the runtime links them. The first failure
/// ends the sweep: the subsystems after it are not touched, and those
/// before it stay as the sweep left them.
#[derive(Debug, PartialEq, Eq)]
pub struct Sweep {
    /// The change to apply.
    pub op: SubsystemOp,
    /// The subsystems that are still to be visited.
    pub subsystems: Subsystems,
    /// The failure that ended the sweep, if one did.
    pub failure: Option<Errno>,
}

impl Sweep {
    /// The sweep that applies `op`, starting at the subsystem `first`.
    pub open spec fn begin(op: SubsystemOp, first: usize) -> Sweep {
        Sweep { op, subsystems: Subsystems { cursor: first }, failure: None }
    }

    /// The handle whose successor the next step needs; null where it needs
    /// none.
    pub open spec fn spec_cursor(&self) -> usize {
        if self.failure is Some {
            0
        } else {
            self.subsystems.cursor
        }
    }

    /// The sweep after its next step, and what that step asks for, where
    /// `following` is the runtime's answer for the subsystem after the one
    /// at the cursor.
    pub open spec fn after_next(self, following: usize) -> (Sweep, SweepStep) {
        match self.failure {
            Some(e) => (self, SweepStep::Finished(Err(e))),
            None => if self.subsystems.cursor == 0 {
                (self, SweepStep::Finished(Ok(())))
            } else {
                (
                    Sweep { subsystems: Subsystems { cursor: following }, ..self },
                    SweepStep::Apply(
                        Transition { subsystem: self.subsystems.cursor, op: self.op },
                    ),
                )
            },
        }
    }

    /// The sweep after the transition it last asked for has resolved with
    /// `outcome`.
    pub open spec fn after_settle(self, outcome: Result<(), Errno>) -> Sweep {
        match (self.failure, outcome) {
            (None, Err(e)) => Sweep { failure: Some(e), ..self },
            _ => self,
        }
    }

    /// The handle whose successor the next step needs: the subsystem that
    /// the step will visit. Null where the step visits none, because the
    /// sweep has failed or has run out of subsystems.
    #[verifier::when_used_as_spec(spec_cursor)]
    pub fn cursor(&self) -> (ptr: usize)
        ensures
            ptr == self.cursor(),
    {
        match self.failure {
            Some(_) => 0,
            None => self.subsystems.cursor,
        }
    }

    /// Takes the next step. After a failure the sweep ends with that
    /// failure. With no subsystem left it ends with success. Otherwise the
    /// subsystem at the cursor is visited: the cursor moves on to
    /// `following`, the runtime's answer for the subsystem after it, and
    /// the step asks for the transition of the visited subsystem.
    pub fn next(&mut self, following: usize) -> (step: SweepStep)
        ensures
            (*final(self), step) == old(self).after_next(following),
    {
        match self.failure {
            Some(e) => SweepStep::Finished(Err(e)),
            None => match self.subsystems.next(following) {
                Some(subsystem) => SweepStep::Apply(self.transition(&subsystem)),
                None => SweepStep::Finished(Ok(())),
            },
        }
    }

    /// Takes in the outcome of the transition that the last step asked
    /// for. A failure ends the sweep; of several, the first one stays.
    pub fn settle(&mut self, outcome: Result<(), Errno>)
        ensures
            *final(self) == old(self).after_settle(outcome),
    {
        match outcome {
            Ok(_) => {},
            Err(e) => {
                if self.failure.is_none() {
                    self.failure = Some(e);
                }
            },
        }
    }

    /// The transition that this sweep applies to `subsystem`.
    fn transition(&self, subsystem: &Subsystem) -> (op: Transition)
        ensures
            op == (Transition { subsystem: subsystem@, op: self.op }),
    {
        match self.op {
            SubsystemOp::Start => subsystem.start(),
            SubsystemOp::Stop => subsystem.stop(),
            SubsystemOp::Pause(nsid) => subsystem.pause(nsid),
            SubsystemOp::Resume => subsystem.resume(),
        }
    }
}

/// What a sweep over the subsystems `links` visits in up to `steps` steps,
/// and the result it ends with if it ends within them. The runtime answers
/// each step with the subsystem that follows the cursor in `links`, and the
/// transition of the subsystem at index `i` resolves with `outcomes[i]`.
pub open spec fn sweep_run(
    sweep: Sweep,
    links: Seq<usize>,
    outcomes: Seq<Result<(), Errno>>,
    steps: nat,
) -> (Seq<usize>, Option<Result<(), Errno>>)
    decreases steps,
{
    if steps == 0 {
        (Seq::empty(), None)
    } else {
        match sweep.after_next(successor(links, sweep.spec_cursor())) {
            (_, SweepStep::Finished(result)) => (Seq::empty(), Some(result)),
            (next, SweepStep::Apply(transition)) => {
                let outcome = outcomes[position(links, transition.subsystem)];
                let (rest, result) = sweep_run(
                    next.after_settle(outcome),
                    links,
                    outcomes,
                    (steps - 1) as nat,
                );
                (seq![transition.subsystem] + rest, result)
            },
        }
    }
}

/// The number of subsystems that a sweep over `count` subsystems visits
/// where the first failing transition is the one at index `failing`, or
/// where none fails and `failing` is `count`.
pub open spec fn visited(count: nat, failing: int) -> int {
    if failing < count {
        failing + 1
    } else {
        count as int
    }
}

/// The states in which the runtime holds the subsystems after a sweep of
/// `op` has visited the first `visited` of them: a visited subsystem is
/// found as its transition left it, the others as they were.
pub open spec fn states_after_sweep(
    states: Seq<SubsystemState>,
    op: SubsystemOp,
    outcomes: Seq<Result<(), Errno>>,
    visited: int,
) -> Seq<SubsystemState> {
    Seq::new(
        states.len(),
        |i: int|
            if i < visited {
                states[i].settled(op, outcomes[i])
            } else {
                states[i]
            },
    )
}

/// The result of a sweep where the first failing transition is the one at
/// index `failing`, or where none fails.
pub open spec fn sweep_result(outcomes: Seq<Result<(), Errno>>, failing: int) -> Result<(), Errno> {
    if failing < outcomes.len() {
        outcomes[failing]
    } else {
        Ok(())
    }
}

/// A sweep that stands at index `i`, with every transition before `failing`
/// succeeding, visits the subsystems from `i` up to the failing one and
/// ends with that one's failure, or visits all that are left and ends with
/// success.
proof fn lemma_sweep_from(
    op: SubsystemOp,
    links: Seq<usize>,
    outcomes: Seq<Result<(), Errno>>,
    failing: int,
    i: int,
    steps: nat,
)
    requires
        well_linked(links),
        outcomes.len() == links.len(),
        0 <= i <= failing <= links.len(),
        forall|j: int| 0 <= j < failing ==> (#[trigger] outcomes[j]) is Ok,
        failing < links.len() ==> outcomes[failing] is Err,
        steps > visited(links.len(), failing) - i,
    ensures
        sweep_run(
            Sweep::begin(op, if i < links.len() { links[i] } else { 0 }),
            links,
            outcomes,
            steps,
        ) == (links.subrange(i, visited(links.len(), failing)), Some(sweep_result(outcomes, failing))),
    decreases links.len() - i,
{
    let cursor: usize = if i < links.len() { links[i] } else { 0 };
    let sweep = Sweep::begin(op, cursor);
    if i < links.len() {
        lemma_position(links, i);
        let following: usize = if i + 1 < links.len() { links[i + 1] } else { 0 };
        let moved = Sweep::begin(op, following);
        assert(sweep.after_next(successor(links, cursor)) == (
            moved,
            SweepStep::Apply(Transition { subsystem: cursor, op }),
        ));
        if i == failing {
            let failed = moved.after_settle(outcomes[i]);
            assert(failed.failure == Some(outcomes[i]->Err_0));
            assert(sweep_run(failed, links, outcomes, (steps - 1) as nat) == (
                Seq::<usize>::empty(),
                Some(outcomes[i]),
            ));
            assert(seq![cursor] + Seq::<usize>::empty() =~= links.subrange(i, i + 1));
        } else {
            assert(outcomes[i] is Ok);
            assert(moved.after_settle(outcomes[i]) == moved);
            lemma_sweep_from(op, links, outcomes, failing, i + 1, (steps - 1) as nat);
            assert(seq![cursor] + links.subrange(i + 1, visited(links.len(), failing))
                =~= links.subrange(i, visited(links.len(), failing)));
        }
    } else {
        assert(links.subrange(i, visited(links.len(), failing)) =~= Seq::<usize>::empty());
    }
}

/// A sweep visits the subsystems in the order in which they are linked and
/// stops at the first failure. Where the transition at index `failing` is
/// the first to fail, the sweep visits the subsystems up to and including
/// that one, none after it, and returns that failure. Where no transition
/// fails, it visits every subsystem and returns success; over no subsystems
/// it returns success at once.
pub proof fn lemma_sweep_stops_at_first_failure(
    op: SubsystemOp,
    links: Seq<usize>,
    outcomes: Seq<Result<(), Errno>>,
    failing: int,
    steps: nat,
)
    requires
        well_linked(links),
        outcomes.len() == links.len(),
        0 <= failing <= links.len(),
        forall|j: int| 0 <= j < failing ==> (#[trigger] outcomes[j]) is Ok,
        failing < links.len() ==> outcomes[failing] is Err,
        steps > visited(links.len(), failing),
    ensures
        sweep_run(Sweep::begin(op, head(links)), links, outcomes, steps) == (
            links.take(visited(links.len(), failing)),
            Some(sweep_result(outcomes, failing)),
        ),
{
    lemma_sweep_from(op, links, outcomes, failing, 0, steps);
    assert(links.subrange(0, visited(links.len(), failing)) =~= links.take(visited(links.len(), failing)));
}

/// A sweep leaves no subsystem half done and rolls nothing back. Where the
/// transition at index `failing` is the first to fail, every subsystem
/// before it is in the state that the change leads to, the failing one and
/// all after it are in the state they were in.
pub proof fn lemma_sweep_changes_what_it_visited(
    states: Seq<SubsystemState>,
    op: SubsystemOp,
    outcomes: Seq<Result<(), Errno>>,
    failing: int,
)
    requires
        outcomes.len() == states.len(),
        0 <= failing <= states.len(),
        forall|j: int| 0 <= j < failing ==> (#[trigger] outcomes[j]) is Ok,
        failing < states.len() ==> outcomes[failing] is Err,
    ensures
        forall|i: int|
            0 <= i < failing ==> #[trigger] states_after_sweep(
                states,
                op,
                outcomes,
                visited(states.len(), failing),
            )[i] == match states[i].spec_after(op) {
                Some(next) => next,
                None => states[i],
            },
        forall|i: int|
            failing <= i < states.len() ==> #[trigger] states_after_sweep(
                states,
                op,
                outcomes,
                visited(states.len(), failing),
            )[i] == states[i],
{
}

/// A sweep that has ended stays ended: further steps visit nothing and
/// give the same result, and further outcomes do not replace a failure.
pub proof fn lemma_sweep_ends_once(sweep: Sweep, following: usize, outcome: Result<(), Errno>)
    requires
        sweep.after_next(following).1 is Finished,
    ensures
        sweep.after_next(following).0 == sweep,
        sweep.spec_cursor() == 0,
        sweep.failure is Some ==> sweep.after_settle(outcome) == sweep,
{
}

/// Removing a subsystem that the runtime lets go succeeds on both of the
/// runtime's paths. Where the primitive reports that the subsystem is
/// already destroyed, the promise is resolved with success when the
/// registration ends. Where it reports that the destruction is in
/// progress, the task stays suspended, and the completion resolves the
/// promise with success. Any other status resolves the promise at once with
/// that error.
pub proof fn lemma_remove_subsystem_resolves(rc: i32)
    requires
        is_status(rc),
    ensures
        rc == 0 ==> RemoveSubsystem::registered(Promise::Registering, rc).resolution() == Some(
            Ok::<(), Errno>(()),
        ),
        rc == -EINPROGRESS ==> {
            &&& RemoveSubsystem::registered(Promise::Registering, rc) == Promise::Pending
            &&& RemoveSubsystem::registered(Promise::Registering, rc).after_completion(
                Ok(()),
            ).resolution() == Some(Ok::<(), Errno>(()))
        },
        rc != 0 && rc != -EINPROGRESS ==> RemoveSubsystem::registered(
            Promise::Registering,
            rc,
        ).resolution() == Some(Err::<(), Errno>(Errno((-rc) as i32))),
{
}

/// A cursor over the targets of the runtime.
#[derive(Debug, PartialEq, Eq, Structural)]
pub struct Targets {
    /// The handle to yield next; null once the targets are exhausted.
    pub cursor: usize,
}

impl Targets {
    /// Yields the target at the cursor and moves the cursor to `following`,
    /// the runtime's answer for the target after that one. An exhausted
    /// cursor yields `None` and stays exhausted.
    pub fn next(&mut self, following: usize) -> (item: Option<Target>)
        ensures
            final(self).cursor == advance(old(self).cursor, following).0,
            old(self).cursor == 0 <==> item is None,
            item matches Some(target) ==> target@ == old(self).cursor,
    {
        if self.cursor == 0 {
            None
        } else {
            let captured: usize = self.cursor;
            self.cursor = following;
            Some(Target::from_ptr(captured))
        }
    }
}

/// A cursor over the targets of the runtime, starting at `first`, the
/// runtime's answer for its first target.
pub fn targets(first: usize) -> (targets: Targets)
    ensures
        targets.cursor == first,
{
    Targets { cursor: first }
}

} // verus!
