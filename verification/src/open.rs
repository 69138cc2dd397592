//! Acquiring the keyboard: the device is opened, the kernel driver is
//! detached from each interface that has one, and both interfaces are
//! claimed. What was done is undone if a later call fails.
//!
//! The caller makes the calls. An `Opening` says which call comes next and,
//! told how that call went, what follows.

use crate::error::{Error, Fault};
use crate::session::{FusionKBD, Variant};
use crate::usb::{Interface, Reply, Request, PRODUCT_ID, VENDOR_ID};
use vstd::prelude::*;

verus! {

/// The call that an acquisition waits for.
#[derive(Clone, Copy, Debug, PartialEq, Eq, Structural)]
pub enum Step {
    /// Opening the device.
    Locate,
    /// Asking whether a kernel driver is bound to the interface.
    Probe(Interface),
    /// Detaching the kernel driver from the interface.
    Detach(Interface),
    /// Claiming the interface.
    Claim(Interface),
}

/// An acquisition under way, as a mathematical value.
pub struct OpeningView {
    /// How the session to come switches to a preset.
    pub variant: Variant,
    /// The call that is awaited.
    pub step: Step,
    /// Whether the kernel driver has been detached from interface 0.
    pub detached_zero: bool,
    /// Whether the kernel driver has been detached from interface 3.
    pub detached_three: bool,
}

/// Where an acquisition stands after a reply, as a mathematical value.
pub enum ProgressView {
    /// Another call is to be made.
    Continue(OpeningView),
    /// The session is open.
    Ready(Variant),
    /// The acquisition has failed with `error`; the calls of `undo` remain
    /// to be made.
    Failed { error: Error, undo: Seq<Request> },
}

/// `request` if `wanted`, else nothing.
pub open spec fn when(wanted: bool, request: Request) -> Seq<Request> {
    if wanted {
        seq![request]
    } else {
        Seq::empty()
    }
}

/// The calls that undo a part of an acquisition: interface 0 released if it
/// was claimed, then the kernel driver attached again to each interface
/// from which it was detached.
pub open spec fn rollback(claimed_zero: bool, detached_zero: bool, detached_three: bool) -> Seq<
    Request,
> {
    when(claimed_zero, Request::Release(Interface::Zero)) + when(
        detached_zero,
        Request::Attach(Interface::Zero),
    ) + when(detached_three, Request::Attach(Interface::Three))
}

impl Step {
    /// The step that follows once the kernel driver of `interface` is out
    /// of the way.
    pub open spec fn after_driver(interface: Interface) -> Step {
        match interface {
            Interface::Zero => Step::Probe(Interface::Three),
            Interface::Three => Step::Claim(Interface::Zero),
        }
    }

    /// The place of the step in the order of an acquisition.
    pub open spec fn rank(self) -> nat {
        match self {
            Step::Locate => 0,
            Step::Probe(Interface::Zero) => 1,
            Step::Detach(Interface::Zero) => 2,
            Step::Probe(Interface::Three) => 3,
            Step::Detach(Interface::Three) => 4,
            Step::Claim(Interface::Zero) => 5,
            Step::Claim(Interface::Three) => 6,
        }
    }
}

impl OpeningView {
    /// An acquisition before its first call.
    pub open spec fn start(variant: Variant) -> OpeningView {
        OpeningView { variant, step: Step::Locate, detached_zero: false, detached_three: false }
    }

    /// The call that is awaited.
    pub open spec fn request(self) -> Request {
        match self.step {
            Step::Locate => Request::Open { vendor: VENDOR_ID, product: PRODUCT_ID },
            Step::Probe(interface) => Request::DriverActive(interface),
            Step::Detach(interface) => Request::Detach(interface),
            Step::Claim(interface) => Request::Claim(interface),
        }
    }

    /// Whether `reply` says that the awaited call did what it was made for.
    pub open spec fn accepts(self, reply: Reply) -> bool {
        match self.step {
            Step::Probe(_) => reply is Active,
            _ => reply is Done,
        }
    }

    /// Whether interface 0 is claimed: it is while the claim of interface 3
    /// is awaited.
    pub open spec fn claimed_zero(self) -> bool {
        self.step == Step::Claim(Interface::Three)
    }

    /// The calls that undo what the acquisition has done so far.
    pub open spec fn undo(self) -> Seq<Request> {
        rollback(self.claimed_zero(), self.detached_zero, self.detached_three)
    }

    /// The error that the acquisition fails with when the awaited call is
    /// answered by `reply` and that is not what it was made for.
    pub open spec fn error(self, reply: Reply) -> Error {
        if self.step == Step::Locate {
            Error::DeviceNotFound
        } else if reply == Reply::Failed(Fault::Busy) {
            Error::DeviceBusy
        } else {
            Error::DeviceAccessDenied
        }
    }

    /// The acquisition with `step` awaited.
    pub open spec fn at(self, step: Step) -> OpeningView {
        OpeningView { step, ..self }
    }

    /// The acquisition once the kernel driver of `interface` is detached.
    pub open spec fn detached(self, interface: Interface) -> OpeningView {
        match interface {
            Interface::Zero => OpeningView {
                step: Step::after_driver(interface),
                detached_zero: true,
                ..self
            },
            Interface::Three => OpeningView {
                step: Step::after_driver(interface),
                detached_three: true,
                ..self
            },
        }
    }

    /// Where the acquisition stands once the awaited call is answered by
    /// `reply`.
    pub open spec fn advance(self, reply: Reply) -> ProgressView {
        if !self.accepts(reply) {
            ProgressView::Failed { error: self.error(reply), undo: self.undo() }
        } else {
            match self.step {
                Step::Locate => ProgressView::Continue(self.at(Step::Probe(Interface::Zero))),
                Step::Probe(interface) => if reply == Reply::Active(true) {
                    ProgressView::Continue(self.at(Step::Detach(interface)))
                } else {
                    ProgressView::Continue(self.at(Step::after_driver(interface)))
                },
                Step::Detach(interface) => ProgressView::Continue(self.detached(interface)),
                Step::Claim(Interface::Zero) => ProgressView::Continue(
                    self.at(Step::Claim(Interface::Three)),
                ),
                Step::Claim(Interface::Three) => ProgressView::Ready(self.variant),
            }
        }
    }
}

impl ProgressView {
    /// The call that is awaited, if the acquisition is not over.
    pub open spec fn request(self) -> Option<Request> {
        match self {
            ProgressView::Continue(opening) => Some(opening.request()),
            _ => None,
        }
    }

    /// Where the acquisition stands after `reply`. Once it is over, it
    /// stays as it is.
    pub open spec fn after(self, reply: Reply) -> ProgressView {
        match self {
            ProgressView::Continue(opening) => opening.advance(reply),
            _ => self,
        }
    }
}

/// Where an acquisition stands after `replies`, each the answer to the
/// call that was awaited when it came.
pub open spec fn replay(variant: Variant, replies: Seq<Reply>) -> ProgressView
    decreases replies.len(),
{
    if replies.len() == 0 {
        ProgressView::Continue(OpeningView::start(variant))
    } else {
        replay(variant, replies.drop_last()).after(replies.last())
    }
}

/// The call that reply `k` of `replies` answered; nothing if the
/// acquisition was over by then.
pub open spec fn asked(variant: Variant, replies: Seq<Reply>, k: int) -> Option<Request> {
    replay(variant, replies.take(k)).request()
}

/// Whether, in the course of `replies`, `request` was made and answered
/// with `reply`.
pub open spec fn answered(
    variant: Variant,
    replies: Seq<Reply>,
    request: Request,
    reply: Reply,
) -> bool {
    exists|k: int|
        0 <= k < replies.len() && #[trigger] asked(variant, replies, k) == Some(request)
            && replies[k] == reply
}

/// Whether, in the course of `replies`, `request` was made and answered
/// with `Done`.
pub open spec fn succeeded(variant: Variant, replies: Seq<Reply>, request: Request) -> bool {
    answered(variant, replies, request, Reply::Done)
}

/// Whether, in the course of `replies`, the device said that a kernel
/// driver is bound to `interface`.
pub open spec fn found_driver(variant: Variant, replies: Seq<Reply>, interface: Interface) -> bool {
    answered(variant, replies, Request::DriverActive(interface), Reply::Active(true))
}

/// Whether, in the course of `replies`, `interface` was found or made free
/// of a kernel driver: the device said that none is bound to it, or the
/// one that was bound to it was detached.
pub open spec fn unbound(variant: Variant, replies: Seq<Reply>, interface: Interface) -> bool {
    answered(variant, replies, Request::DriverActive(interface), Reply::Active(false))
        || succeeded(variant, replies, Request::Detach(interface))
}

/// One more reply adds one answered call.
proof fn lemma_answered_step(variant: Variant, replies: Seq<Reply>, request: Request, reply: Reply)
    requires
        replies.len() > 0,
    ensures
        answered(variant, replies, request, reply) <==> answered(
            variant,
            replies.drop_last(),
            request,
            reply,
        ) || (replies.last() == reply && replay(variant, replies.drop_last()).request() == Some(
            request,
        )),
{
    let earlier = replies.drop_last();
    let n = earlier.len() as int;
    assert(replies.take(n) =~= earlier);
    assert forall|k: int| 0 <= k < n implies asked(variant, earlier, k) == asked(
        variant,
        replies,
        k,
    ) by {
        assert(earlier.take(k) =~= replies.take(k));
    }
    if answered(variant, replies, request, reply) {
        let k = choose|k: int|
            0 <= k < replies.len() && #[trigger] asked(variant, replies, k) == Some(request)
                && replies[k] == reply;
        if k < n {
            assert(asked(variant, earlier, k) == Some(request) && earlier[k] == reply);
        }
    }
    if answered(variant, earlier, request, reply) {
        let k = choose|k: int|
            0 <= k < earlier.len() && #[trigger] asked(variant, earlier, k) == Some(request)
                && earlier[k] == reply;
        assert(asked(variant, replies, k) == Some(request) && replies[k] == reply);
    }
    if replies.last() == reply && replay(variant, earlier).request() == Some(request) {
        assert(asked(variant, replies, n) == Some(request) && replies[n] == reply);
    }
}

/// What an acquisition has come to agrees with the calls that were made
/// and how they were answered.
spec fn consistent(variant: Variant, replies: Seq<Reply>) -> bool {
    let opened = succeeded(variant, replies, Request::Open { vendor: VENDOR_ID, product: PRODUCT_ID });
    let claimed_zero = succeeded(variant, replies, Request::Claim(Interface::Zero));
    let claimed_three = succeeded(variant, replies, Request::Claim(Interface::Three));
    let detached_zero = succeeded(variant, replies, Request::Detach(Interface::Zero));
    let detached_three = succeeded(variant, replies, Request::Detach(Interface::Three));
    &&& detached_zero ==> found_driver(variant, replies, Interface::Zero)
    &&& detached_three ==> found_driver(variant, replies, Interface::Three)
    &&& match replay(variant, replies) {
        ProgressView::Continue(opening) => {
            &&& opening.variant == variant
            &&& opening.step.rank() >= replies.len()
            &&& opening.step.rank() >= 1 ==> opened
            &&& opening.step.rank() >= 3 ==> unbound(variant, replies, Interface::Zero)
            &&& opening.step.rank() >= 5 ==> unbound(variant, replies, Interface::Three)
            &&& opening.step matches Step::Detach(interface) ==> found_driver(
                variant,
                replies,
                interface,
            )
            &&& opening.claimed_zero() == claimed_zero
            &&& opening.detached_zero == detached_zero
            &&& opening.detached_three == detached_three
            &&& !claimed_three
        },
        ProgressView::Ready(session) => {
            &&& session == variant
            &&& opened
            &&& unbound(variant, replies, Interface::Zero)
            &&& unbound(variant, replies, Interface::Three)
            &&& claimed_zero
            &&& claimed_three
        },
        ProgressView::Failed { error, undo } => {
            &&& undo == rollback(claimed_zero, detached_zero, detached_three)
            &&& !claimed_three
        },
    }
}

/// Every acquisition is consistent, whatever the replies.
proof fn lemma_consistent(variant: Variant, replies: Seq<Reply>)
    ensures
        consistent(variant, replies),
    decreases replies.len(),
{
    let open = Request::Open { vendor: VENDOR_ID, product: PRODUCT_ID };
    if replies.len() > 0 {
        let earlier = replies.drop_last();
        lemma_consistent(variant, earlier);
        lemma_answered_step(variant, replies, open, Reply::Done);
        lemma_answered_step(variant, replies, Request::Claim(Interface::Zero), Reply::Done);
        lemma_answered_step(variant, replies, Request::Claim(Interface::Three), Reply::Done);
        lemma_answered_step(variant, replies, Request::Detach(Interface::Zero), Reply::Done);
        lemma_answered_step(variant, replies, Request::Detach(Interface::Three), Reply::Done);
        lemma_answered_step(
            variant,
            replies,
            Request::DriverActive(Interface::Zero),
            Reply::Active(true),
        );
        lemma_answered_step(
            variant,
            replies,
            Request::DriverActive(Interface::Three),
            Reply::Active(true),
        );
        lemma_answered_step(
            variant,
            replies,
            Request::DriverActive(Interface::Zero),
            Reply::Active(false),
        );
        lemma_answered_step(
            variant,
            replies,
            Request::DriverActive(Interface::Three),
            Reply::Active(false),
        );
    } else {
        assert forall|request: Request, reply: Reply| !answered(
            variant,
            replies,
            request,
            reply,
        ) by {}
    }
}

/// A failed acquisition undoes what it has done and nothing else. The
/// calls left to make are: interface 0 released if and only if its claim
/// succeeded, then the kernel driver attached again to each interface if
/// and only if it was detached from it. Interface 3 is never to be
/// released, since its claim is the last call.
pub proof fn lemma_failure_undoes_what_was_done(variant: Variant, replies: Seq<Reply>)
    requires
        replay(variant, replies) is Failed,
    ensures
        replay(variant, replies)->undo == rollback(
            succeeded(variant, replies, Request::Claim(Interface::Zero)),
            succeeded(variant, replies, Request::Detach(Interface::Zero)),
            succeeded(variant, replies, Request::Detach(Interface::Three)),
        ),
        !succeeded(variant, replies, Request::Claim(Interface::Three)),
{
    lemma_consistent(variant, replies);
}

/// A session is open only after the device was opened, each interface was
/// found or made free of a kernel driver, and both interfaces were
/// claimed.
pub proof fn lemma_ready_is_earned(variant: Variant, replies: Seq<Reply>)
    requires
        replay(variant, replies) is Ready,
    ensures
        replay(variant, replies) == ProgressView::Ready(variant),
        succeeded(variant, replies, Request::Open { vendor: 0x1044, product: 0x7a39 }),
        unbound(variant, replies, Interface::Zero),
        unbound(variant, replies, Interface::Three),
        succeeded(variant, replies, Request::Claim(Interface::Zero)),
        succeeded(variant, replies, Request::Claim(Interface::Three)),
{
    lemma_consistent(variant, replies);
}

/// A kernel driver is detached only from an interface of which the device
/// said that one is bound to it.
pub proof fn lemma_detached_only_if_found(
    variant: Variant,
    replies: Seq<Reply>,
    interface: Interface,
    k: int,
)
    requires
        0 <= k < replies.len(),
        asked(variant, replies, k) == Some(Request::Detach(interface)),
    ensures
        found_driver(variant, replies.take(k), interface),
        found_driver(variant, replies, interface),
{
    let earlier = replies.take(k);
    lemma_consistent(variant, earlier);
    let at = choose|j: int|
        0 <= j < earlier.len() && #[trigger] asked(variant, earlier, j) == Some(
            Request::DriverActive(interface),
        ) && earlier[j] == Reply::Active(true);
    assert(earlier.take(at) =~= replies.take(at));
    assert(asked(variant, replies, at) == Some(Request::DriverActive(interface)) && replies[at]
        == Reply::Active(true));
}

/// An acquisition is over after seven replies at most.
pub proof fn lemma_over_in_seven(variant: Variant, replies: Seq<Reply>)
    requires
        replies.len() >= 7,
    ensures
        !(replay(variant, replies) is Continue),
{
    lemma_consistent(variant, replies);
}

/// One call of an acquisition. The kernel driver of an interface is
/// detached if and only if the device said that one is bound to it; a
/// session comes only of the claim of interface 3, the last call; and every
/// other call that does what it was made for leads to a later step.
pub proof fn lemma_one_call(opening: OpeningView, reply: Reply)
    ensures
        match opening.advance(reply) {
            ProgressView::Continue(next) => {
                &&& opening.accepts(reply)
                &&& next.variant == opening.variant
                &&& next.step.rank() > opening.step.rank()
                &&& next.step matches Step::Detach(interface) ==> opening.step == Step::Probe(
                    interface,
                ) && reply == Reply::Active(true)
                &&& opening.step matches Step::Probe(interface) ==> (reply == Reply::Active(true)
                    <==> next.step == Step::Detach(interface))
            },
            ProgressView::Ready(session) => {
                &&& session == opening.variant
                &&& opening.step == Step::Claim(Interface::Three)
                &&& reply == Reply::Done
            },
            ProgressView::Failed { error, undo } => {
                &&& !opening.accepts(reply)
                &&& undo == opening.undo()
                &&& error == Error::DeviceNotFound <==> opening.step == Step::Locate
                &&& error == Error::DeviceBusy <==> opening.step != Step::Locate && reply
                    == Reply::Failed(Fault::Busy)
                &&& error == Error::DeviceNotFound || error == Error::DeviceBusy || error
                    == Error::DeviceAccessDenied
            },
        },
{
}

/// An acquisition in which every call does what it was made for. The
/// device is opened; each interface is asked for its kernel driver, and
/// the driver is detached where there is one and left alone where there
/// is none; interface 0 is claimed, then interface 3; and the session is
/// open.
pub proof fn lemma_acquisition_succeeds(variant: Variant, active_zero: bool, active_three: bool)
    ensures
        ({
            let begun = ProgressView::Continue(OpeningView::start(variant));
            let opened = begun.after(Reply::Done);
            let probed_zero = opened.after(Reply::Active(active_zero));
            let past_zero = if active_zero {
                probed_zero.after(Reply::Done)
            } else {
                probed_zero
            };
            let probed_three = past_zero.after(Reply::Active(active_three));
            let past_three = if active_three {
                probed_three.after(Reply::Done)
            } else {
                probed_three
            };
            let claimed_zero = past_three.after(Reply::Done);
            let claimed_three = claimed_zero.after(Reply::Done);
            &&& begun.request() == Some(Request::Open { vendor: 0x1044, product: 0x7a39 })
            &&& opened.request() == Some(Request::DriverActive(Interface::Zero))
            &&& active_zero ==> probed_zero.request() == Some(Request::Detach(Interface::Zero))
            &&& past_zero.request() == Some(Request::DriverActive(Interface::Three))
            &&& active_three ==> probed_three.request() == Some(Request::Detach(Interface::Three))
            &&& past_three.request() == Some(Request::Claim(Interface::Zero))
            &&& claimed_zero.request() == Some(Request::Claim(Interface::Three))
            &&& claimed_three == ProgressView::Ready(variant)
        }),
{
}

/// An acquisition under way.
#[derive(Debug)]
pub struct Opening {
    variant: Variant,
    step: Step,
    detached_zero: bool,
    detached_three: bool,
}

/// Where an acquisition stands after a reply.
#[derive(Debug)]
pub enum Progress {
    /// Another call is to be made: the one that the acquisition asks for.
    Continue(Opening),
    /// The session is open.
    Ready(FusionKBD),
    /// The acquisition has failed with `error`. The calls of `undo` remain
    /// to be made, in order, each whatever became of the one before it.
    Failed { error: Error, undo: Vec<Request> },
}

impl View for Opening {
    type V = OpeningView;

    closed spec fn view(&self) -> OpeningView {
        OpeningView {
            variant: self.variant,
            step: self.step,
            detached_zero: self.detached_zero,
            detached_three: self.detached_three,
        }
    }
}

impl View for Progress {
    type V = ProgressView;

    open spec fn view(&self) -> ProgressView {
        match self {
            Progress::Continue(opening) => ProgressView::Continue(opening@),
            Progress::Ready(kbd) => ProgressView::Ready(kbd@),
            Progress::Failed { error, undo } => ProgressView::Failed { error: *error, undo: undo@ },
        }
    }
}

impl FusionKBD {
    /// Begins the acquisition of the keyboard for a session that switches
    /// to presets as `variant` says.
    pub fn new(variant: Variant) -> (opening: Opening)
        ensures
            opening@ == OpeningView::start(variant),
    {
        Opening { variant, step: Step::Locate, detached_zero: false, detached_three: false }
    }
}

impl Opening {
    /// The call that is to be made next.
    pub fn request(&self) -> (request: Request)
        ensures
            request == self@.request(),
    {
        match self.step {
            Step::Locate => Request::Open { vendor: VENDOR_ID, product: PRODUCT_ID },
            Step::Probe(interface) => Request::DriverActive(interface),
            Step::Detach(interface) => Request::Detach(interface),
            Step::Claim(interface) => Request::Claim(interface),
        }
    }

    /// The calls that undo what has been done so far.
    fn undo(&self) -> (undo: Vec<Request>)
        ensures
            undo@ == self@.undo(),
    {
        let mut undo: Vec<Request> = Vec::new();
        if let Step::Claim(Interface::Three) = self.step {
            undo.push(Request::Release(Interface::Zero));
        }
        if self.detached_zero {
            undo.push(Request::Attach(Interface::Zero));
        }
        if self.detached_three {
            undo.push(Request::Attach(Interface::Three));
        }
        assert(undo@ =~= self@.undo());
        undo
    }

    /// The acquisition given up because `reply` was not what the awaited
    /// call was made for.
    fn fail(self, reply: Reply) -> (progress: Progress)
        ensures
            progress@ == (ProgressView::Failed { error: self@.error(reply), undo: self@.undo() }),
    {
        let error = match (self.step, reply) {
            (Step::Locate, _) => Error::DeviceNotFound,
            (_, Reply::Failed(Fault::Busy)) => Error::DeviceBusy,
            _ => Error::DeviceAccessDenied,
        };
        Progress::Failed { error, undo: self.undo() }
    }

    /// The acquisition with the kernel driver of `interface` out of the way.
    fn past_driver(self, interface: Interface) -> (opening: Opening)
        ensures
            opening@ == self@.at(Step::after_driver(interface)),
    {
        let step = match interface {
            Interface::Zero => Step::Probe(Interface::Three),
            Interface::Three => Step::Claim(Interface::Zero),
        };
        Opening { step, ..self }
    }

    /// Takes the reply to the call that `request` asked for and says what
    /// follows.
    pub fn advance(self, reply: Reply) -> (progress: Progress)
        ensures
            progress@ == self@.advance(reply),
    {
        match (self.step, reply) {
            (Step::Locate, Reply::Done) => Progress::Continue(
                Opening { step: Step::Probe(Interface::Zero), ..self },
            ),
            (Step::Probe(interface), Reply::Active(true)) => Progress::Continue(
                Opening { step: Step::Detach(interface), ..self },
            ),
            (Step::Probe(interface), Reply::Active(false)) => Progress::Continue(
                self.past_driver(interface),
            ),
            (Step::Detach(Interface::Zero), Reply::Done) => Progress::Continue(
                Opening { detached_zero: true, ..self }.past_driver(Interface::Zero),
            ),
            (Step::Detach(Interface::Three), Reply::Done) => Progress::Continue(
                Opening { detached_three: true, ..self }.past_driver(Interface::Three),
            ),
            (Step::Claim(Interface::Zero), Reply::Done) => Progress::Continue(
                Opening { step: Step::Claim(Interface::Three), ..self },
            ),
            (Step::Claim(Interface::Three), Reply::Done) => Progress::Ready(
                FusionKBD::opened(self.variant),
            ),
            _ => self.fail(reply),
        }
    }
}

} // verus!
