//! One invocation, from the command line to the exit status, as a
//! sequence of steps.
//!
//! [`start`] looks at the arguments and names the first step. The caller
//! takes the step, reports what happened as an [`Event`] and gets the
//! next step from [`advance`], until the step is [`Step::Finish`]. All
//! decisions are made here; the caller only performs.

use vstd::prelude::*;
use vstd::string::*;
use vstd::pervasive::unreached;
use crate::config::{
    empty_layer, local_path_of, merged, resolve, resolved, ConfigSourceView, Layer, LayerView,
};
use crate::credentials::{credential_exports, exports_of};
use crate::dispatch::{aws_s3, list_report, listed, planned};
use crate::error::{Error, ErrorView};
use crate::path::{destination, destination_of, path_file_name, path_join};
use crate::protocol::{
    fail, failed, succeed, succeeded, Event, EventView, State, StateView, Step, StepView,
};
use crate::status::{check_code, code_outcome};
use crate::text::{opt_view, texts_view};

verus! {

/// The configuration file that is read when the command line names none.
pub const DEFAULT_CONFIG: &'static str = "aws-s3.json";

/// What the command line supplied.
#[derive(Clone, Debug, PartialEq, Eq)]
pub struct Arguments {
    /// The mode words given, in order. Exactly one is expected.
    pub modes: Vec<String>,
    /// The remote path, if given.
    pub remote: Option<String>,
    /// The path of the configuration file.
    pub config: String,
    /// The settings given as flags.
    pub flags: Layer,
}

/// The mathematical content of [`Arguments`].
pub struct ArgumentsView {
    pub modes: Seq<Seq<char>>,
    pub remote: Option<Seq<char>>,
    pub config: Seq<char>,
    pub flags: LayerView,
}

impl View for Arguments {
    type V = ArgumentsView;

    open spec fn view(&self) -> ArgumentsView {
        ArgumentsView {
            modes: texts_view(self.modes@),
            remote: opt_view(self.remote),
            config: self.config@,
            flags: self.flags@,
        }
    }
}

/// How an invocation begins: with exactly one mode word, by loading the
/// configuration file; with none or several, by ending with a usage error.
pub open spec fn started(args: ArgumentsView) -> (StateView, StepView) {
    if args.modes.len() == 1 {
        (
            StateView::AwaitConfig { mode: args.modes[0], remote: args.remote, flags: args.flags },
            StepView::LoadConfig { path: args.config },
        )
    } else {
        failed(ErrorView::Usage)
    }
}

/// Validates the arguments and names the first step. Unless exactly one
/// mode was selected the invocation ends here with a usage error, before
/// the configuration is read and before anything is asked of the storage
/// service.
pub fn start(args: Arguments) -> (r: (State, Step))
    ensures
        (r.0@, r.1@) == started(args@),
        args@.modes.len() != 1 ==> (r.0@, r.1@) == failed(ErrorView::Usage),
        r.0@.well_formed(),
{
    let Arguments { modes, remote, config, flags } = args;
    if modes.len() != 1 {
        return fail(Error::Usage);
    }
    let mode = modes[0].clone();
    (State::AwaitConfig { mode, remote, flags }, Step::LoadConfig { path: config })
}

/// Whether `e` is a failure that building the storage handle can report.
pub open spec fn is_connect_failure(e: ErrorView) -> bool {
    e is InvalidBucket || e is InvalidRegion || e is Transport
}

/// The transition of an invocation: the state and the step that follow
/// when `event` is reported in `state`, or `None` where `event` does not
/// answer the step that led to `state`.
///
/// - The configuration file: a malformed one ends the invocation; a
///   missing one does not. The settings are resolved and the handle is
///   asked for, with the credentials to publish first.
/// - The handle: the operation is planned from the mode word, the remote
///   path and the local path of the settings.
/// - An upload reads the local file first and stores only what was read;
///   the status code of the answer decides.
/// - A download that targets a directory lands in it under the object's
///   base name, and needs one; the object is written only if its status
///   code is 200.
/// - A deletion succeeds whatever the status code of the answer.
/// - A failure of a step ends the invocation with that failure: local
///   work fails with a local-file error, remote work with a transport
///   error, building the handle with either of the three errors of
///   [`is_connect_failure`].
/// - A finished invocation accepts nothing.
pub open spec fn advanced(state: StateView, event: EventView) -> Option<(StateView, StepView)> {
    match (state, event) {
        (StateView::AwaitConfig { mode, remote, flags }, EventView::ConfigRead(source)) => Some(
            match resolved(source, flags) {
                Err(e) => failed(e),
                Ok(config) => (
                    StateView::AwaitHandle { mode, remote, local: local_path_of(config) },
                    StepView::Connect { config, exports: exports_of(config) },
                ),
            },
        ),
        (StateView::AwaitHandle { mode, remote, local }, EventView::Connected) => Some(
            planned(Some(mode), remote, local),
        ),
        (StateView::AwaitHandle { .. }, EventView::Failed(e)) => if is_connect_failure(e) {
            Some(failed(e))
        } else {
            None
        },
        (StateView::AwaitListing, EventView::Listed(pages)) => Some(
            (
                StateView::Finished,
                StepView::Finish { output: listed(pages).0, result: listed(pages).1 },
            ),
        ),
        (StateView::AwaitRead { remote }, EventView::LocalRead(data)) => Some(
            (StateView::AwaitPut, StepView::PutObject { remote, data }),
        ),
        (StateView::AwaitPut, EventView::Replied { code, .. }) => Some(
            (
                StateView::Finished,
                StepView::Finish { output: Seq::empty(), result: code_outcome(code) },
            ),
        ),
        (StateView::AwaitProbe { remote, local, name }, EventView::Probed(is_directory)) => if is_directory
            && name is None {
            None
        } else {
            Some(
                (
                    StateView::AwaitFetch {
                        destination: destination_of(local, is_directory, name),
                    },
                    StepView::GetObject { remote },
                ),
            )
        },
        (StateView::AwaitFetch { destination }, EventView::Replied { data, code }) => Some(
            match code_outcome(code) {
                Err(e) => failed(e),
                Ok(()) => (StateView::AwaitWrite, StepView::WriteLocal { path: destination, data }),
            },
        ),
        (StateView::AwaitWrite, EventView::Written) => Some(succeeded()),
        (StateView::AwaitDelete, EventView::Replied { .. }) => Some(succeeded()),
        (StateView::AwaitListing, EventView::Failed(e))
        | (StateView::AwaitPut, EventView::Failed(e))
        | (StateView::AwaitFetch { .. }, EventView::Failed(e))
        | (StateView::AwaitDelete, EventView::Failed(e)) => if e is Transport {
            Some(failed(e))
        } else {
            None
        },
        (StateView::AwaitRead { .. }, EventView::Failed(e))
        | (StateView::AwaitWrite, EventView::Failed(e)) => if e is LocalFile {
            Some(failed(e))
        } else {
            None
        },
        _ => None,
    }
}

impl State {
    /// Whether `event` answers the step that led to this state. Only such
    /// an event may be handed to [`advance`].
    pub fn accepts(&self, event: &Event) -> (yes: bool)
        ensures
            yes == (advanced(self@, event@) is Some),
    {
        match self {
            State::AwaitConfig { .. } => match event {
                Event::ConfigRead(_) => true,
                _ => false,
            },
            State::AwaitHandle { .. } => match event {
                Event::Connected => true,
                Event::Failed(Error::InvalidBucket(_)) => true,
                Event::Failed(Error::InvalidRegion(_)) => true,
                Event::Failed(Error::Transport(_)) => true,
                _ => false,
            },
            State::AwaitListing => match event {
                Event::Listed(_) => true,
                Event::Failed(Error::Transport(_)) => true,
                _ => false,
            },
            State::AwaitRead { .. } => match event {
                Event::LocalRead(_) => true,
                Event::Failed(Error::LocalFile(_)) => true,
                _ => false,
            },
            State::AwaitPut => match event {
                Event::Replied { .. } => true,
                Event::Failed(Error::Transport(_)) => true,
                _ => false,
            },
            State::AwaitProbe { name, .. } => match event {
                Event::Probed(is_directory) => !*is_directory || name.is_some(),
                _ => false,
            },
            State::AwaitFetch { .. } => match event {
                Event::Replied { .. } => true,
                Event::Failed(Error::Transport(_)) => true,
                _ => false,
            },
            State::AwaitWrite => match event {
                Event::Written => true,
                Event::Failed(Error::LocalFile(_)) => true,
                _ => false,
            },
            State::AwaitDelete => match event {
                Event::Replied { .. } => true,
                Event::Failed(Error::Transport(_)) => true,
                _ => false,
            },
            State::Finished => false,
        }
    }
}

/// Takes the invocation one step further: given the state and the event
/// that answers the last step, returns the next state and the next step.
pub fn advance(state: State, event: Event) -> (r: (State, Step))
    requires
        advanced(state@, event@) is Some,
    ensures
        Some((r.0@, r.1@)) == advanced(state@, event@),
        r.0@.well_formed(),
{
    match state {
        State::AwaitConfig { mode, remote, flags } => match event {
            Event::ConfigRead(source) => match resolve(source, flags) {
                Err(e) => fail(e),
                Ok(config) => {
                    let local = config.local_path();
                    let exports = credential_exports(&config);
                    (State::AwaitHandle { mode, remote, local }, Step::Connect { config, exports })
                },
            },
            _ => unreached(),
        },
        State::AwaitHandle { mode, remote, local } => match event {
            Event::Connected => {
                let remote_path = match &remote {
                    Some(path) => Some(path.as_str()),
                    None => None,
                };
                let local_path = match &local {
                    Some(path) => Some(path.as_str()),
                    None => None,
                };
                aws_s3(Some(mode.as_str()), remote_path, local_path)
            },
            Event::Failed(e) => fail(e),
            _ => unreached(),
        },
        State::AwaitListing => match event {
            Event::Listed(pages) => {
                let (output, result) = list_report(&pages);
                (State::Finished, Step::Finish { output, result })
            },
            Event::Failed(e) => fail(e),
            _ => unreached(),
        },
        State::AwaitRead { remote } => match event {
            Event::LocalRead(data) => (State::AwaitPut, Step::PutObject { remote, data }),
            Event::Failed(e) => fail(e),
            _ => unreached(),
        },
        State::AwaitPut => match event {
            Event::Replied { data: _, code } => match check_code(code) {
                Err(e) => fail(e),
                Ok(()) => succeed(),
            },
            Event::Failed(e) => fail(e),
            _ => unreached(),
        },
        State::AwaitProbe { remote, local, name } => match event {
            Event::Probed(is_directory) => {
                let target = destination(local.as_str(), is_directory, &name);
                (State::AwaitFetch { destination: target }, Step::GetObject { remote })
            },
            _ => unreached(),
        },
        State::AwaitFetch { destination } => match event {
            Event::Replied { data, code } => match check_code(code) {
                Err(e) => fail(e),
                Ok(()) => (State::AwaitWrite, Step::WriteLocal { path: destination, data }),
            },
            Event::Failed(e) => fail(e),
            _ => unreached(),
        },
        State::AwaitWrite => match event {
            Event::Written => succeed(),
            Event::Failed(e) => fail(e),
            _ => unreached(),
        },
        State::AwaitDelete => match event {
            Event::Replied { .. } => succeed(),
            Event::Failed(e) => fail(e),
            _ => unreached(),
        },
        State::Finished => unreached(),
    }
}

/// Whether a step asks something of the storage service.
pub open spec fn is_storage_step(step: StepView) -> bool {
    step is ListObjects || step is PutObject || step is GetObject || step is DeleteObject
}

/// Whether the invocation is past the point where it could ask
/// something of the storage service.
pub open spec fn storage_settled(state: StateView) -> bool {
    state is AwaitListing || state is AwaitPut || state is AwaitFetch || state is AwaitDelete
        || state is AwaitWrite || state is Finished
}

/// An upper bound on the number of events an invocation can still take.
pub open spec fn remaining(state: StateView) -> nat {
    match state {
        StateView::AwaitConfig { .. } => 5,
        StateView::AwaitHandle { .. } => 4,
        StateView::AwaitRead { .. } => 3,
        StateView::AwaitProbe { .. } => 3,
        StateView::AwaitFetch { .. } => 2,
        StateView::AwaitListing => 1,
        StateView::AwaitPut => 1,
        StateView::AwaitWrite => 1,
        StateView::AwaitDelete => 1,
        StateView::Finished => 0,
    }
}

/// Every transition brings the invocation closer to its end, the end is
/// reached exactly with the step that finishes, and a finished invocation
/// takes no further event: an invocation is over after at most five
/// events.
pub proof fn lemma_invocation_ends(state: StateView, event: EventView)
    ensures
        advanced(state, event) matches Some((next, step)) ==> {
            &&& remaining(next) < remaining(state)
            &&& (step is Finish <==> next is Finished)
        },
        state is Finished ==> advanced(state, event) is None,
{
}

/// Nothing is retried and nothing is recovered: a failure that is
/// reported ends the invocation with exactly that failure.
pub proof fn lemma_failures_are_final(state: StateView, e: ErrorView)
    ensures
        advanced(state, EventView::Failed(e)) matches Some(next) ==> next == failed(e),
{
}

/// An invocation asks at most one thing of the storage service: a
/// storage step settles the matter, and once it is settled no transition
/// issues another. Nothing is asked of the service before the storage
/// handle exists.
pub proof fn lemma_one_storage_operation(state: StateView, event: EventView)
    ensures
        advanced(state, event) matches Some((next, step)) ==> {
            &&& is_storage_step(step) ==> !storage_settled(state) && storage_settled(next)
                && !(state is AwaitConfig)
            &&& storage_settled(state) ==> storage_settled(next) && !is_storage_step(step)
        },
{
}

/// Without exactly one mode word the invocation ends at once with the
/// usage error: the configuration is never loaded and no storage step
/// can follow, since the finished state takes no event.
pub proof fn lemma_usage_error_comes_first(args: ArgumentsView, event: EventView)
    requires
        args.modes.len() != 1,
    ensures
        started(args) == failed(ErrorView::Usage),
        advanced(started(args).0, event) is None,
{
}

/// A configuration file that cannot be opened does not fail the
/// invocation: the flags are laid over an empty record and the handle is
/// asked for.
pub proof fn lemma_missing_config_proceeds(
    mode: Seq<char>,
    remote: Option<Seq<char>>,
    flags: LayerView,
)
    ensures
        ({
            let config = merged(empty_layer(), flags);
            advanced(
                StateView::AwaitConfig { mode, remote, flags },
                EventView::ConfigRead(ConfigSourceView::Missing),
            ) == Some(
                (
                    StateView::AwaitHandle { mode, remote, local: local_path_of(config) },
                    StepView::Connect { config, exports: exports_of(config) },
                ),
            )
        }),
{
}

/// An upload whose local file cannot be read ends with the local-file
/// error and stores nothing: the object is stored only in answer to the
/// content that was read, and with exactly that content.
pub proof fn lemma_upload_needs_the_file(state: StateView, event: EventView, detail: Seq<char>)
    ensures
        state is AwaitRead ==> advanced(state, EventView::Failed(ErrorView::LocalFile(detail)))
            == Some(failed(ErrorView::LocalFile(detail))),
        advanced(state, event) matches Some((_, StepView::PutObject { remote, data })) ==> {
            &&& state matches StateView::AwaitRead { remote: wanted }
            &&& wanted == remote
            &&& event == EventView::LocalRead(data)
        },
{
}

/// A download to an existing directory is written under the object's
/// base name inside that directory, not to the directory itself, and
/// only after the object arrived with status code 200.
pub proof fn lemma_download_lands_in_directory(
    remote: Seq<char>,
    local: Seq<char>,
    data: Seq<u8>,
    code: u16,
)
    ensures
        ({
            let probing = StateView::AwaitProbe { remote, local, name: path_file_name(remote) };
            &&& planned(Some("get"@), Some(remote), Some(local)) == (
                probing,
                StepView::ProbeLocal { path: local },
            )
            &&& path_file_name(remote) matches Some(name) ==> {
                let target = path_join(local, name);
                let fetching = StateView::AwaitFetch { destination: target };
                &&& advanced(probing, EventView::Probed(true)) == Some(
                    (fetching, StepView::GetObject { remote }),
                )
                &&& advanced(fetching, EventView::Replied { data, code }) == Some(
                    if code == 200 {
                        (StateView::AwaitWrite, StepView::WriteLocal { path: target, data })
                    } else {
                        failed(ErrorView::RemoteStatus(code))
                    },
                )
            }
        }),
{
    reveal_strlit("get");
    reveal_strlit("l");
    reveal_strlit("list");
    reveal_strlit("p");
    reveal_strlit("put");
    reveal_strlit("g");
    assert("get"@.len() == 3);
    assert("l"@.len() == 1);
    assert("list"@.len() == 4);
    assert("p"@.len() == 1);
    assert("put"@[0] == 'p');
    assert("get"@[0] == 'g');
}

/// Every state that follows a state is well formed.
pub proof fn lemma_states_stay_well_formed(state: StateView, event: EventView)
    ensures
        advanced(state, event) matches Some((next, _)) ==> next.well_formed(),
{
}

} // verus!
