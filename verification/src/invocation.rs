//! The course of one invocation: which foreign call is owed next.
//!
//! An invocation makes two foreign calls: the native entry point, once, and
//! then the native release function, once, on the record that the entry point
//! filled. In between, everything that is needed from the record is copied
//! into host-owned memory. The [`Invocation`] keeps this order. The embedding
//! program asks it which call is [`pending`](Invocation::pending), makes that
//! call, and reports it with [`step`](Invocation::step); the outcome is handed
//! out only once the record has been released.

use vstd::prelude::*;
use crate::flavor::LLDFlavor;
use crate::marshal::{all_c_strings, buffers};
use crate::result::{copied, LLDInvokeResult, LLDInvokeResultView, LLDResult, LLDResultView};

verus! {

/// The foreign call that the embedding program owes next.
#[derive(Clone, Copy, Debug, PartialEq, Eq, Structural)]
pub enum Action {
    /// Call the native entry point with the flavor, the number of arguments
    /// and the argument table of the invocation.
    Invoke,
    /// Call the native release function on the record that the entry point
    /// filled.
    Release,
    /// Nothing is owed: take the outcome.
    Finish,
}

/// What the embedding program reports back.
#[derive(Debug)]
pub enum Event {
    /// The native entry point has returned; the record as read from it.
    Returned(LLDInvokeResult),
    /// The native release function has returned.
    Released,
}

/// What an [`Event`] stands for.
pub enum EventView {
    Returned(LLDInvokeResultView),
    Released,
}

impl View for Event {
    type V = EventView;

    open spec fn view(&self) -> EventView {
        match self {
            Event::Returned(record) => EventView::Returned(record@),
            Event::Released => EventView::Released,
        }
    }
}

/// How far an invocation has come.
pub enum Phase {
    /// The arguments are marshalled; the native entry point has not been
    /// called.
    Ready,
    /// The entry point has returned and its record is copied; the record is
    /// not yet released.
    Holding(LLDResultView),
    /// The record is released.
    Done(LLDResultView),
}

/// What an [`Invocation`] stands for.
pub struct InvocationView {
    pub flavor: LLDFlavor,
    pub argv: Seq<Seq<u8>>,
    pub phase: Phase,
}

impl InvocationView {
    /// The call that is owed in this phase.
    pub open spec fn pending(self) -> Action {
        match self.phase {
            Phase::Ready => Action::Invoke,
            Phase::Holding(_) => Action::Release,
            Phase::Done(_) => Action::Finish,
        }
    }

    /// The event reports the call that is owed.
    pub open spec fn accepts(self, event: EventView) -> bool {
        match (self.phase, event) {
            (Phase::Ready, EventView::Returned(_)) => true,
            (Phase::Holding(_), EventView::Released) => true,
            _ => false,
        }
    }

    /// The invocation after the event. An event that does not report the call
    /// that is owed changes nothing.
    pub open spec fn step(self, event: EventView) -> InvocationView {
        match (self.phase, event) {
            (Phase::Ready, EventView::Returned(record)) => InvocationView {
                phase: Phase::Holding(copied(record)),
                ..self
            },
            (Phase::Holding(outcome), EventView::Released) => InvocationView {
                phase: Phase::Done(outcome),
                ..self
            },
            _ => self,
        }
    }

    /// The outcome copied from the record, once there is one.
    pub open spec fn copy(self) -> Option<LLDResultView> {
        match self.phase {
            Phase::Ready => None,
            Phase::Holding(outcome) => Some(outcome),
            Phase::Done(outcome) => Some(outcome),
        }
    }

    /// The outcome that the caller can take: the copy, once the record is
    /// released.
    pub open spec fn outcome(self) -> Option<LLDResultView> {
        match self.phase {
            Phase::Done(outcome) => Some(outcome),
            _ => None,
        }
    }
}

/// The event with which the native side answers a call, where the record that
/// the entry point fills reads `record`; `None` where no call is made.
pub open spec fn answer(action: Action, record: LLDInvokeResultView) -> Option<EventView> {
    match action {
        Action::Invoke => Some(EventView::Returned(record)),
        Action::Release => Some(EventView::Released),
        Action::Finish => None,
    }
}

/// The actions, in order, of a program that follows the invocation for at
/// most `fuel` actions: it does what is pending, reports the answer, and
/// stops at `Finish`.
pub open spec fn actions(inv: InvocationView, record: LLDInvokeResultView, fuel: nat) -> Seq<
    Action,
>
    decreases fuel,
{
    if fuel == 0 {
        Seq::empty()
    } else {
        match answer(inv.pending(), record) {
            Some(event) => seq![inv.pending()] + actions(
                inv.step(event),
                record,
                (fuel - 1) as nat,
            ),
            None => seq![inv.pending()],
        }
    }
}

/// The invocation that such a program ends with.
pub open spec fn followed(inv: InvocationView, record: LLDInvokeResultView, fuel: nat) -> InvocationView
    decreases fuel,
{
    if fuel == 0 {
        inv
    } else {
        match answer(inv.pending(), record) {
            Some(event) => followed(inv.step(event), record, (fuel - 1) as nat),
            None => inv,
        }
    }
}

/// Release follows the record exactly once.
///
/// Whatever record the native entry point fills, reporting success or failure,
/// a program that follows a fresh invocation calls the entry point once, then
/// the release function once, and then stops; it ends with the outcome copied
/// from that record. More fuel adds no action.
pub proof fn lemma_release_exactly_once(
    inv: InvocationView,
    record: LLDInvokeResultView,
    fuel: nat,
)
    requires
        inv.phase is Ready,
        fuel >= 3,
    ensures
        actions(inv, record, fuel) == seq![Action::Invoke, Action::Release, Action::Finish],
        followed(inv, record, fuel).outcome() == Some(copied(record)),
        followed(inv, record, fuel).flavor == inv.flavor,
        followed(inv, record, fuel).argv == inv.argv,
{
    let held = inv.step(EventView::Returned(record));
    let done = held.step(EventView::Released);
    reveal_with_fuel(actions, 4);
    reveal_with_fuel(followed, 4);
    assert(actions(done, record, (fuel - 2) as nat) == seq![Action::Finish]);
    assert(actions(held, record, (fuel - 1) as nat) == seq![Action::Release] + seq![
        Action::Finish,
    ]);
    assert(actions(inv, record, fuel) =~= seq![Action::Invoke, Action::Release, Action::Finish]);
}

/// No release without a record, and no outcome before the release.
///
/// The release is owed only while a copied record is held, and the outcome
/// can be taken only once the release has been reported.
pub proof fn lemma_release_follows_copy(inv: InvocationView)
    ensures
        inv.pending() == Action::Release ==> inv.copy() is Some && inv.outcome() is None,
        inv.pending() == Action::Invoke ==> inv.copy() is None && inv.outcome() is None,
        inv.pending() == Action::Finish <==> inv.outcome() is Some,
        inv.outcome() is Some ==> inv.outcome() == inv.copy(),
{
}

/// The copied outcome is stable.
///
/// Once the record has been copied, no event changes the copy: neither the
/// release of the record, nor a later record that reads otherwise.
pub proof fn lemma_copy_is_stable(inv: InvocationView, event: EventView)
    requires
        inv.copy() is Some,
    ensures
        inv.step(event).copy() == inv.copy(),
{
}

/// Nothing follows the end: a finished invocation takes in no event, so it
/// never asks for a second call of the entry point or of the release function.
pub proof fn lemma_done_is_final(inv: InvocationView, event: EventView)
    requires
        inv.phase is Done,
    ensures
        !inv.accepts(event),
        inv.step(event) == inv,
        inv.step(event).pending() == Action::Finish,
{
}

enum Stage {
    Ready,
    Holding(LLDResult),
    Done(LLDResult),
}

/// One invocation of the linker, from the marshalled arguments to the outcome.
pub struct Invocation {
    flavor: LLDFlavor,
    argv: Vec<Vec<u8>>,
    stage: Stage,
}

impl View for Invocation {
    type V = InvocationView;

    closed spec fn view(&self) -> InvocationView {
        InvocationView {
            flavor: self.flavor,
            argv: buffers(self.argv@),
            phase: match self.stage {
                Stage::Ready => Phase::Ready,
                Stage::Holding(outcome) => Phase::Holding(outcome@),
                Stage::Done(outcome) => Phase::Done(outcome@),
            },
        }
    }
}

impl Invocation {
    /// The argument table holds well-formed C strings, in every phase.
    #[verifier::type_invariant]
    spec fn well_formed(self) -> bool {
        all_c_strings(buffers(self.argv@))
    }

    /// An invocation whose entry point has not been called, for the flavor and
    /// the table of null-terminated buffers given.
    pub(crate) fn new(flavor: LLDFlavor, argv: Vec<Vec<u8>>) -> (inv: Invocation)
        requires
            all_c_strings(buffers(argv@)),
        ensures
            inv@ == (InvocationView { flavor, argv: buffers(argv@), phase: Phase::Ready }),
    {
        Invocation { flavor, argv, stage: Stage::Ready }
    }

    /// The flavor to hand to the native entry point.
    pub fn flavor(&self) -> (flavor: LLDFlavor)
        ensures
            flavor == self@.flavor,
    {
        self.flavor
    }

    /// The argument table to hand to the native entry point: one well-formed
    /// C string per argument.
    pub fn argv(&self) -> (argv: &Vec<Vec<u8>>)
        ensures
            buffers(argv@) == self@.argv,
            all_c_strings(buffers(argv@)),
    {
        proof {
            use_type_invariant(self);
        }
        &self.argv
    }

    /// The number of arguments to hand to the native entry point: the length
    /// of the argument table.
    pub fn argc(&self) -> (argc: usize)
        ensures
            argc == self@.argv.len(),
    {
        self.argv.len()
    }

    /// The call that is owed next.
    pub fn pending(&self) -> (action: Action)
        ensures
            action == self@.pending(),
    {
        match &self.stage {
            Stage::Ready => Action::Invoke,
            Stage::Holding(_) => Action::Release,
            Stage::Done(_) => Action::Finish,
        }
    }

    /// Whether the event reports the call that is owed.
    pub fn accepts(&self, event: &Event) -> (fits: bool)
        ensures
            fits == self@.accepts(event@),
    {
        match (&self.stage, event) {
            (Stage::Ready, Event::Returned(_)) => true,
            (Stage::Holding(_), Event::Released) => true,
            _ => false,
        }
    }

    /// Takes in an event.
    ///
    /// The return of the entry point copies the record into an owned outcome
    /// and leaves the release owed, whether the record reports success or
    /// failure. The return of the release function makes the outcome
    /// available. Any other event changes nothing.
    pub fn step(self, event: Event) -> (next: Invocation)
        ensures
            next@ == self@.step(event@),
    {
        proof {
            use_type_invariant(&self);
        }
        let Invocation { flavor, argv, stage } = self;
        let stage = match (stage, event) {
            (Stage::Ready, Event::Returned(record)) => Stage::Holding(LLDResult::copy_of(&record)),
            (Stage::Holding(outcome), Event::Released) => Stage::Done(outcome),
            (stage, _) => stage,
        };
        Invocation { flavor, argv, stage }
    }

    /// Hands out the outcome; `None` as long as the record is not released.
    pub fn finish(self) -> (outcome: Option<LLDResult>)
        ensures
            match self@.outcome() {
                Some(view) => outcome is Some && outcome->0@ == view,
                None => outcome is None,
            },
    {
        match self.stage {
            Stage::Done(outcome) => Some(outcome),
            _ => None,
        }
    }
}

} // verus!
