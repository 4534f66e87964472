//! The controller's decisions. The controller never talks to the cluster
//! itself: each step takes what the last request brought back and says what
//! to do next. After the first publish it keeps the pod list in memory and
//! changes it event by event, without listing the pods again.
use vstd::prelude::*;
use crate::event::{apply_event, MemberEvent, MemberEventView};
use crate::topology::{create_spec, snapshot, TopologySpec, TopologyView, RECORD_NAME};

verus! {

/// The name under which the topology resource type is registered.
pub const CRD_NAME: &'static str = "topologies.aria3ppp.ir";

/// The field owner under which the controller applies what it writes.
pub const FIELD_MANAGER: &'static str = "topology-apply";

/// How long the controller waits for the resource type to be established.
pub const ESTABLISH_TIMEOUT_SECS: u64 = 10;

/// Why the controller stopped.
#[derive(Clone, Copy, Debug, PartialEq, Eq, Structural)]
pub enum ControllerError {
    /// The resource type definition could not be applied.
    RegistrationFailed,
    /// The resource type was not established in time.
    RegistrationTimeout,
    /// The pods could not be listed.
    ListingFailed,
    /// The topology record could not be applied.
    PublishFailed,
    /// The watch stream came to an end.
    StreamEnded,
    /// The watch stream failed.
    StreamError,
}

/// Where the controller stands: which reply it waits for, or why it stopped.
#[derive(Clone, Copy, Debug, PartialEq, Eq, Structural)]
pub enum Phase {
    Registering,
    AwaitingEstablished,
    Listing,
    Publishing,
    Watching,
    Stopped(ControllerError),
}

/// What the last request brought back.
pub enum Input {
    DefinitionApplied,
    DefinitionRejected,
    Established,
    EstablishTimedOut,
    Listed(Vec<String>),
    ListFailed,
    Published,
    PublishRejected,
    Event(MemberEvent),
    StreamEnded,
    StreamFailed,
}

/// What an `Input` holds, as plain values.
pub enum InputView {
    DefinitionApplied,
    DefinitionRejected,
    Established,
    EstablishTimedOut,
    Listed(Seq<Seq<char>>),
    ListFailed,
    Published,
    PublishRejected,
    Event(MemberEventView),
    StreamEnded,
    StreamFailed,
}

impl View for Input {
    type V = InputView;

    open spec fn view(&self) -> InputView {
        match self {
            Input::DefinitionApplied => InputView::DefinitionApplied,
            Input::DefinitionRejected => InputView::DefinitionRejected,
            Input::Established => InputView::Established,
            Input::EstablishTimedOut => InputView::EstablishTimedOut,
            Input::Listed(v) => InputView::Listed(crate::topology::names_view(v@)),
            Input::ListFailed => InputView::ListFailed,
            Input::Published => InputView::Published,
            Input::PublishRejected => InputView::PublishRejected,
            Input::Event(e) => InputView::Event(e@),
            Input::StreamEnded => InputView::StreamEnded,
            Input::StreamFailed => InputView::StreamFailed,
        }
    }
}

/// The request that the controller asks to be made next.
pub enum Action {
    /// Apply the topology resource type under `FIELD_MANAGER`, forcing.
    ApplyDefinition,
    /// Wait until the resource type is established, at most this long.
    AwaitEstablished { timeout_secs: u64 },
    /// List the pods of the namespace.
    ListPods,
    /// Apply this record under `FIELD_MANAGER`, forcing.
    Publish(TopologySpec),
    /// Read the next event of the watch stream.
    NextEvent,
    /// Stop, with this error.
    Exit(ControllerError),
}

/// What an `Action` holds, as plain values.
pub enum ActionView {
    ApplyDefinition,
    AwaitEstablished { timeout_secs: u64 },
    ListPods,
    Publish(TopologyView),
    NextEvent,
    Exit(ControllerError),
}

impl View for Action {
    type V = ActionView;

    open spec fn view(&self) -> ActionView {
        match self {
            Action::ApplyDefinition => ActionView::ApplyDefinition,
            Action::AwaitEstablished { timeout_secs } => ActionView::AwaitEstablished {
                timeout_secs: *timeout_secs,
            },
            Action::ListPods => ActionView::ListPods,
            Action::Publish(s) => ActionView::Publish(s@),
            Action::NextEvent => ActionView::NextEvent,
            Action::Exit(e) => ActionView::Exit(*e),
        }
    }
}

/// The controller's state: its phase, the record as it stands in memory,
/// and the last record that the cluster acknowledged.
pub struct Controller {
    pub phase: Phase,
    pub spec: TopologySpec,
    pub stored: Option<TopologySpec>,
}

/// What a `Controller` holds, as plain values.
pub struct ControllerView {
    pub phase: Phase,
    pub spec: TopologyView,
    pub stored: Option<TopologyView>,
}

impl View for Controller {
    type V = ControllerView;

    open spec fn view(&self) -> ControllerView {
        ControllerView {
            phase: self.phase,
            spec: self.spec@,
            stored: match self.stored {
                Some(s) => Some(s@),
                None => None,
            },
        }
    }
}

impl ControllerView {
    /// The in-memory record and the stored one are well formed, and nothing
    /// is stored before the first publish.
    pub open spec fn wf(self) -> bool {
        &&& self.spec.wf()
        &&& (self.stored matches Some(s) ==> s.wf())
        &&& (self.phase is Registering || self.phase is AwaitingEstablished
            || self.phase is Listing) ==> self.stored is None
    }
}

/// Whether the controller in `phase` waits for `i`: each request has its own
/// replies, and a stopped controller waits for nothing.
pub open spec fn accepts(phase: Phase, i: InputView) -> bool {
    match phase {
        Phase::Registering => i is DefinitionApplied || i is DefinitionRejected,
        Phase::AwaitingEstablished => i is Established || i is EstablishTimedOut,
        Phase::Listing => i is Listed || i is ListFailed,
        Phase::Publishing => i is Published || i is PublishRejected,
        Phase::Watching => i is Event || i is StreamEnded || i is StreamFailed,
        Phase::Stopped(_) => false,
    }
}

/// The controller stopped by `e`, and the request that says so.
pub open spec fn stop(c: ControllerView, e: ControllerError) -> (ControllerView, ActionView) {
    (ControllerView { phase: Phase::Stopped(e), ..c }, ActionView::Exit(e))
}

/// The controller's next state and request, given what its last request
/// brought back.
pub open spec fn next(c: ControllerView, i: InputView) -> (ControllerView, ActionView) {
    match i {
        InputView::DefinitionApplied => (
            ControllerView { phase: Phase::AwaitingEstablished, ..c },
            ActionView::AwaitEstablished { timeout_secs: ESTABLISH_TIMEOUT_SECS },
        ),
        InputView::DefinitionRejected => stop(c, ControllerError::RegistrationFailed),
        InputView::Established => (ControllerView { phase: Phase::Listing, ..c }, ActionView::ListPods),
        InputView::EstablishTimedOut => stop(c, ControllerError::RegistrationTimeout),
        InputView::Listed(names) => {
            let spec = TopologyView { name: RECORD_NAME@, pods: snapshot(names) };
            (ControllerView { phase: Phase::Publishing, spec, ..c }, ActionView::Publish(spec))
        },
        InputView::ListFailed => stop(c, ControllerError::ListingFailed),
        InputView::Published => (
            ControllerView { phase: Phase::Watching, stored: Some(c.spec), ..c },
            ActionView::NextEvent,
        ),
        InputView::PublishRejected => stop(c, ControllerError::PublishFailed),
        InputView::Event(e) => {
            if e is Other {
                (c, ActionView::NextEvent)
            } else {
                let spec = TopologyView { pods: apply_event(c.spec.pods, e), ..c.spec };
                (ControllerView { phase: Phase::Publishing, spec, ..c }, ActionView::Publish(spec))
            }
        },
        InputView::StreamEnded => stop(c, ControllerError::StreamEnded),
        InputView::StreamFailed => stop(c, ControllerError::StreamError),
    }
}

impl Controller {
    /// A controller that has not yet registered the resource type, and its
    /// first request: to apply the type's definition.
    pub fn start() -> (r: (Controller, Action))
        ensures
            r.0@.phase == Phase::Registering,
            r.0@.spec == (TopologyView { name: RECORD_NAME@, pods: Seq::empty() }),
            r.0@.stored is None,
            r.0@.wf(),
            r.1@ is ApplyDefinition,
    {
        let c = Controller { phase: Phase::Registering, spec: TopologySpec::new(RECORD_NAME), stored: None };
        (c, Action::ApplyDefinition)
    }

    /// Whether the controller waits for `input` now.
    pub fn accepts(&self, input: &Input) -> (r: bool)
        ensures
            r == accepts(self@.phase, input@),
    {
        match self.phase {
            Phase::Registering => matches!(input, Input::DefinitionApplied | Input::DefinitionRejected),
            Phase::AwaitingEstablished => matches!(input, Input::Established | Input::EstablishTimedOut),
            Phase::Listing => matches!(input, Input::Listed(_) | Input::ListFailed),
            Phase::Publishing => matches!(input, Input::Published | Input::PublishRejected),
            Phase::Watching => matches!(input, Input::Event(_) | Input::StreamEnded | Input::StreamFailed),
            Phase::Stopped(_) => false,
        }
    }

    fn stop(&mut self, e: ControllerError) -> (a: Action)
        ensures
            (final(self)@, a@) == stop(old(self)@, e),
    {
        self.phase = Phase::Stopped(e);
        Action::Exit(e)
    }

    /// Takes what the last request brought back, moves to the next state and
    /// says which request to make next.
    pub fn step(&mut self, input: Input) -> (a: Action)
        requires
            old(self)@.wf(),
            accepts(old(self)@.phase, input@),
        ensures
            (final(self)@, a@) == next(old(self)@, input@),
            final(self)@.wf(),
    {
        match input {
            Input::DefinitionApplied => {
                self.phase = Phase::AwaitingEstablished;
                Action::AwaitEstablished { timeout_secs: ESTABLISH_TIMEOUT_SECS }
            },
            Input::DefinitionRejected => self.stop(ControllerError::RegistrationFailed),
            Input::Established => {
                self.phase = Phase::Listing;
                Action::ListPods
            },
            Input::EstablishTimedOut => self.stop(ControllerError::RegistrationTimeout),
            Input::Listed(names) => {
                self.spec = create_spec(&names);
                self.phase = Phase::Publishing;
                Action::Publish(self.spec.duplicate())
            },
            Input::ListFailed => self.stop(ControllerError::ListingFailed),
            Input::Published => {
                self.stored = Some(self.spec.duplicate());
                self.phase = Phase::Watching;
                Action::NextEvent
            },
            Input::PublishRejected => self.stop(ControllerError::PublishFailed),
            Input::Event(e) => {
                let ghost before = self.spec@;
                if self.spec.apply_event(&e) {
                    proof {
                        crate::event::lemma_apply_event(before.pods, e@);
                    }
                    self.phase = Phase::Publishing;
                    Action::Publish(self.spec.duplicate())
                } else {
                    Action::NextEvent
                }
            },
            Input::StreamEnded => self.stop(ControllerError::StreamEnded),
            Input::StreamFailed => self.stop(ControllerError::StreamError),
        }
    }
}

} // verus!
