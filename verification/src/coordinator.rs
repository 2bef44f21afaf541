//! The order of one install run, as a function from the current state and
//! what just happened to the next state and what to do next. The caller
//! performs the action and comes back with the event.

use vstd::prelude::*;
use vstd::string::*;
use crate::error::{Error, ErrorView};
use crate::manifest::{
    resolve, resolved, ArtifactDescriptor, ArtifactDescriptorView, ReleaseManifest, MANIFEST_URL,
};
use crate::target::InstallTarget;

verus! {

/// Where a run stands.
#[derive(Debug, Clone, PartialEq, Eq)]
pub enum State {
    /// Waiting for the user to pick a platform.
    SelectingTarget,
    /// Waiting for the release index.
    FetchingManifest { target: InstallTarget },
    /// The index is here; the artifact is looked up next.
    Resolving { target: InstallTarget, manifest: ReleaseManifest },
    /// Waiting for the artifact to be written to the staging directory.
    Downloading { descriptor: ArtifactDescriptor },
    /// The artifact is staged; waiting for the user to accept the destination.
    ConfirmingDestination { staged: String },
    /// Waiting for the archive to be unpacked.
    Extracting { staged: String },
    /// The user declined; the artifact stays where it was staged.
    StagedOnly { staged: String },
    /// The run ended well.
    Done,
    /// The run ended with the error that is carried.
    Failed { error: Error },
}

/// What happened outside since the last step.
#[derive(Debug, Clone, PartialEq, Eq)]
pub enum Event {
    /// The user picked a platform.
    TargetSelected(InstallTarget),
    /// The user chose to leave instead of picking a platform.
    Quit,
    /// The release index was fetched and decoded.
    ManifestFetched(ReleaseManifest),
    /// The action asked for nothing from outside; go on.
    Continue,
    /// The artifact was written completely to the path that is carried.
    Downloaded { staged: String },
    /// The user answered the question about the destination.
    DestinationConfirmed(bool),
    /// Every entry of the archive was unpacked.
    Extracted,
    /// The user interrupted a prompt.
    Cancelled,
    /// The outside work failed.
    Failure(Error),
}

/// What the caller is to do before the next step.
#[derive(Debug, Clone, PartialEq, Eq)]
pub enum Action {
    /// Fetch and decode the release index at `url`.
    FetchManifest { url: String },
    /// Nothing outside: step again with [`Event::Continue`].
    Proceed,
    /// Download `url` into the staging directory.
    Download { url: String },
    /// Ask the user whether to unpack into `destination`.
    ConfirmDestination { destination: String },
    /// Unpack the archive at `staged` into `destination`.
    Extract { staged: String, destination: String },
    /// Tell the user that the artifact was left at `staged`, then step again
    /// with [`Event::Continue`].
    ReportStaged { staged: String },
    /// End the process with status 0.
    Finish,
    /// Show `message` and end the process with `status`.
    Abort { message: String, status: i32 },
    /// The state does not wait for this event: nothing to do.
    Ignore,
}

/// A [`State`] over views.
pub ghost enum StateView {
    SelectingTarget,
    FetchingManifest { target: InstallTarget },
    Resolving {
        target: InstallTarget,
        manifest: Map<Seq<char>, Map<Seq<char>, ArtifactDescriptorView>>,
    },
    Downloading { descriptor: ArtifactDescriptorView },
    ConfirmingDestination { staged: Seq<char> },
    Extracting { staged: Seq<char> },
    StagedOnly { staged: Seq<char> },
    Done,
    Failed { error: ErrorView },
}

/// An [`Event`] over views.
pub ghost enum EventView {
    TargetSelected(InstallTarget),
    Quit,
    ManifestFetched(Map<Seq<char>, Map<Seq<char>, ArtifactDescriptorView>>),
    Continue,
    Downloaded { staged: Seq<char> },
    DestinationConfirmed(bool),
    Extracted,
    Cancelled,
    Failure(ErrorView),
}

/// An [`Action`] over views.
pub ghost enum ActionView {
    FetchManifest { url: Seq<char> },
    Proceed,
    Download { url: Seq<char> },
    ConfirmDestination { destination: Seq<char> },
    Extract { staged: Seq<char>, destination: Seq<char> },
    ReportStaged { staged: Seq<char> },
    Finish,
    Abort { message: Seq<char>, status: int },
    Ignore,
}

impl View for State {
    type V = StateView;

    open spec fn view(&self) -> StateView {
        match self {
            State::SelectingTarget => StateView::SelectingTarget,
            State::FetchingManifest { target } => StateView::FetchingManifest { target: *target },
            State::Resolving { target, manifest } => StateView::Resolving {
                target: *target,
                manifest: manifest@,
            },
            State::Downloading { descriptor } => StateView::Downloading {
                descriptor: descriptor@,
            },
            State::ConfirmingDestination { staged } => StateView::ConfirmingDestination {
                staged: staged@,
            },
            State::Extracting { staged } => StateView::Extracting { staged: staged@ },
            State::StagedOnly { staged } => StateView::StagedOnly { staged: staged@ },
            State::Done => StateView::Done,
            State::Failed { error } => StateView::Failed { error: error@ },
        }
    }
}

impl View for Event {
    type V = EventView;

    open spec fn view(&self) -> EventView {
        match self {
            Event::TargetSelected(target) => EventView::TargetSelected(*target),
            Event::Quit => EventView::Quit,
            Event::ManifestFetched(manifest) => EventView::ManifestFetched(manifest@),
            Event::Continue => EventView::Continue,
            Event::Downloaded { staged } => EventView::Downloaded { staged: staged@ },
            Event::DestinationConfirmed(answer) => EventView::DestinationConfirmed(*answer),
            Event::Extracted => EventView::Extracted,
            Event::Cancelled => EventView::Cancelled,
            Event::Failure(error) => EventView::Failure(error@),
        }
    }
}

impl View for Action {
    type V = ActionView;

    open spec fn view(&self) -> ActionView {
        match self {
            Action::FetchManifest { url } => ActionView::FetchManifest { url: url@ },
            Action::Proceed => ActionView::Proceed,
            Action::Download { url } => ActionView::Download { url: url@ },
            Action::ConfirmDestination { destination } => ActionView::ConfirmDestination {
                destination: destination@,
            },
            Action::Extract { staged, destination } => ActionView::Extract {
                staged: staged@,
                destination: destination@,
            },
            Action::ReportStaged { staged } => ActionView::ReportStaged { staged: staged@ },
            Action::Finish => ActionView::Finish,
            Action::Abort { message, status } => ActionView::Abort {
                message: message@,
                status: *status as int,
            },
            Action::Ignore => ActionView::Ignore,
        }
    }
}

impl StateView {
    /// Whether the run has ended.
    pub open spec fn is_terminal(self) -> bool {
        self is Done || self is Failed
    }

    /// How far along the run is. The two ways on from the confirmation share
    /// a stage, and so do the two ways a run can end.
    pub open spec fn stage(self) -> nat {
        match self {
            StateView::SelectingTarget => 0,
            StateView::FetchingManifest { .. } => 1,
            StateView::Resolving { .. } => 2,
            StateView::Downloading { .. } => 3,
            StateView::ConfirmingDestination { .. } => 4,
            StateView::Extracting { .. } => 5,
            StateView::StagedOnly { .. } => 5,
            StateView::Done => 6,
            StateView::Failed { .. } => 6,
        }
    }
}

/// The end of a run on `error`: the state keeps the error, the action carries
/// its message and its exit status.
pub open spec fn failed_with(error: ErrorView) -> (StateView, ActionView) {
    (
        StateView::Failed { error },
        ActionView::Abort { message: error.message(), status: error.exit_status() },
    )
}

/// The transition relation. A failure ends the run from every state that has
/// not ended; a cancellation does so where a prompt is open; apart from that
/// each state waits for one kind of event, and any other event changes nothing.
pub open spec fn next_step(state: StateView, event: EventView, destination: Seq<char>) -> (
    StateView,
    ActionView,
) {
    if state.is_terminal() {
        (state, ActionView::Ignore)
    } else if event is Failure {
        failed_with(event->Failure_0)
    } else {
        match (state, event) {
            (StateView::SelectingTarget, EventView::TargetSelected(target)) => (
                StateView::FetchingManifest { target },
                ActionView::FetchManifest { url: MANIFEST_URL@ },
            ),
            (StateView::SelectingTarget, EventView::Quit) => (StateView::Done, ActionView::Finish),
            (StateView::SelectingTarget, EventView::Cancelled) => failed_with(
                ErrorView::UserCancelled,
            ),
            (StateView::FetchingManifest { target }, EventView::ManifestFetched(manifest)) => (
                StateView::Resolving { target, manifest },
                ActionView::Proceed,
            ),
            (StateView::Resolving { target, manifest }, EventView::Continue) => match resolved(
                manifest,
                target,
            ) {
                Ok(descriptor) => (
                    StateView::Downloading { descriptor },
                    ActionView::Download { url: descriptor.tarball },
                ),
                Err(error) => failed_with(error),
            },
            (StateView::Downloading { .. }, EventView::Downloaded { staged }) => (
                StateView::ConfirmingDestination { staged },
                ActionView::ConfirmDestination { destination },
            ),
            (
                StateView::ConfirmingDestination { staged },
                EventView::DestinationConfirmed(answer),
            ) => if answer {
                (StateView::Extracting { staged }, ActionView::Extract { staged, destination })
            } else {
                (StateView::StagedOnly { staged }, ActionView::ReportStaged { staged })
            },
            (StateView::ConfirmingDestination { .. }, EventView::Cancelled) => failed_with(
                ErrorView::UserCancelled,
            ),
            (StateView::Extracting { .. }, EventView::Extracted) => (
                StateView::Done,
                ActionView::Finish,
            ),
            (StateView::StagedOnly { .. }, EventView::Continue) => (
                StateView::Done,
                ActionView::Finish,
            ),
            _ => (state, ActionView::Ignore),
        }
    }
}

/// Ends the run on `error`.
fn fail(error: Error) -> (step: (State, Action))
    ensures
        (step.0@, step.1@) == failed_with(error@),
{
    let message = error.message();
    let status = error.exit_status();
    (State::Failed { error }, Action::Abort { message, status })
}

impl State {
    /// The state a run starts in.
    pub fn start() -> (state: State)
        ensures
            state@ == StateView::SelectingTarget,
    {
        State::SelectingTarget
    }

    /// Whether the run has ended.
    pub fn is_terminal(&self) -> (ended: bool)
        ensures
            ended == self@.is_terminal(),
    {
        match self {
            State::Done => true,
            State::Failed { .. } => true,
            _ => false,
        }
    }
}

/// One step of a run that installs into `destination`: the state that follows
/// `state` on `event`, and what the caller is to do next.
pub fn step(state: State, event: Event, destination: &str) -> (next: (State, Action))
    ensures
        (next.0@, next.1@) == next_step(state@, event@, destination@),
{
    match state {
        State::Done => (State::Done, Action::Ignore),
        State::Failed { error } => (State::Failed { error }, Action::Ignore),
        State::SelectingTarget => match event {
            Event::Failure(error) => fail(error),
            Event::TargetSelected(target) => (
                State::FetchingManifest { target },
                Action::FetchManifest { url: String::from_str(MANIFEST_URL) },
            ),
            Event::Quit => (State::Done, Action::Finish),
            Event::Cancelled => fail(Error::UserCancelled),
            _ => (State::SelectingTarget, Action::Ignore),
        },
        State::FetchingManifest { target } => match event {
            Event::Failure(error) => fail(error),
            Event::ManifestFetched(manifest) => (
                State::Resolving { target, manifest },
                Action::Proceed,
            ),
            _ => (State::FetchingManifest { target }, Action::Ignore),
        },
        State::Resolving { target, manifest } => match event {
            Event::Failure(error) => fail(error),
            Event::Continue => match resolve(&manifest, target) {
                Ok(descriptor) => {
                    let url = descriptor.tarball.clone();
                    (State::Downloading { descriptor }, Action::Download { url })
                },
                Err(error) => fail(error),
            },
            _ => (State::Resolving { target, manifest }, Action::Ignore),
        },
        State::Downloading { descriptor } => match event {
            Event::Failure(error) => fail(error),
            Event::Downloaded { staged } => (
                State::ConfirmingDestination { staged },
                Action::ConfirmDestination { destination: String::from_str(destination) },
            ),
            _ => (State::Downloading { descriptor }, Action::Ignore),
        },
        State::ConfirmingDestination { staged } => match event {
            Event::Failure(error) => fail(error),
            Event::DestinationConfirmed(answer) => {
                let copy = staged.clone();
                if answer {
                    (
                        State::Extracting { staged },
                        Action::Extract {
                            staged: copy,
                            destination: String::from_str(destination),
                        },
                    )
                } else {
                    (State::StagedOnly { staged }, Action::ReportStaged { staged: copy })
                }
            },
            Event::Cancelled => fail(Error::UserCancelled),
            _ => (State::ConfirmingDestination { staged }, Action::Ignore),
        },
        State::Extracting { staged } => match event {
            Event::Failure(error) => fail(error),
            Event::Extracted => (State::Done, Action::Finish),
            _ => (State::Extracting { staged }, Action::Ignore),
        },
        State::StagedOnly { staged } => match event {
            Event::Failure(error) => fail(error),
            Event::Continue => (State::Done, Action::Finish),
            _ => (State::StagedOnly { staged }, Action::Ignore),
        },
    }
}

/// Runs go one way only: a step either leaves the state as it is or moves it
/// to a later stage, so no step leads back into a state that was left.
pub proof fn lemma_step_never_goes_back(
    state: StateView,
    event: EventView,
    destination: Seq<char>,
)
    ensures
        next_step(state, event, destination).0 == state || next_step(
            state,
            event,
            destination,
        ).0.stage() > state.stage(),
{
}

/// A run that has ended stays as it ended, and asks for nothing more.
pub proof fn lemma_ended_run_stays(state: StateView, event: EventView, destination: Seq<char>)
    requires
        state.is_terminal(),
    ensures
        next_step(state, event, destination) == (state, ActionView::Ignore),
{
}

/// From every state that has not ended, a failure ends the run with that
/// error: the process is told its message, and exits with 0 exactly for a
/// cancellation.
pub proof fn lemma_failure_ends_the_run(
    state: StateView,
    error: ErrorView,
    destination: Seq<char>,
)
    requires
        !state.is_terminal(),
    ensures
        next_step(state, EventView::Failure(error), destination) == failed_with(error),
        failed_with(error).1->Abort_status == 0 <==> error is UserCancelled,
{
}

/// The archive is unpacked only on the user's consent, given after the
/// download was staged, and it is the staged file that is unpacked into the
/// destination of the run.
pub proof fn lemma_extraction_needs_consent(
    state: StateView,
    event: EventView,
    destination: Seq<char>,
)
    requires
        next_step(state, event, destination).1 is Extract,
    ensures
        state is ConfirmingDestination,
        event == EventView::DestinationConfirmed(true),
        next_step(state, event, destination) == (
            StateView::Extracting { staged: state->ConfirmingDestination_staged },
            ActionView::Extract {
                staged: state->ConfirmingDestination_staged,
                destination,
            },
        ),
{
}

/// The user is asked about the destination only once the download has been
/// staged, and the question then carries the destination of the run.
pub proof fn lemma_confirmation_follows_download(
    state: StateView,
    event: EventView,
    destination: Seq<char>,
)
    requires
        next_step(state, event, destination).1 is ConfirmDestination,
    ensures
        state is Downloading,
        event is Downloaded,
        next_step(state, event, destination) == (
            StateView::ConfirmingDestination { staged: event->Downloaded_staged },
            ActionView::ConfirmDestination { destination },
        ),
{
}

/// Declining the destination leaves the artifact staged: the user is told
/// where it is, and the run then ends well without unpacking.
pub proof fn lemma_declined_destination_stays_staged(staged: Seq<char>, destination: Seq<char>)
    ensures
        next_step(
            StateView::ConfirmingDestination { staged },
            EventView::DestinationConfirmed(false),
            destination,
        ) == (StateView::StagedOnly { staged }, ActionView::ReportStaged { staged }),
        next_step(StateView::StagedOnly { staged }, EventView::Continue, destination) == (
            StateView::Done,
            ActionView::Finish,
        ),
{
}

/// A download is asked for only where the index lists the chosen target, and
/// then for the URL listed under the target's key.
pub proof fn lemma_download_follows_resolution(
    state: StateView,
    event: EventView,
    destination: Seq<char>,
)
    requires
        next_step(state, event, destination).1 is Download,
    ensures
        state is Resolving,
        resolved(state->Resolving_manifest, state->Resolving_target) is Ok,
        next_step(state, event, destination).1->Download_url == resolved(
            state->Resolving_manifest,
            state->Resolving_target,
        )->Ok_0.tarball,
{
}

} // verus!
