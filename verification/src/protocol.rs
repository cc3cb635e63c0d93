//! The vocabulary between the decision logic and the caller that performs
//! the work: the steps the caller is asked to take, the events it reports
//! back, and the state kept in between.

use vstd::prelude::*;
use vstd::string::*;
use crate::config::{ConfigSource, ConfigSourceView, Configs, ConfigsView, Layer, LayerView};
use crate::credentials::{exports_view, EnvVar};
use crate::error::{outcome_view, Error, ErrorView};
use crate::path::path_file_name;
use crate::text::{opt_view, texts_view};

verus! {

/// One page of a bucket listing as the storage client returned it: the
/// printable form of each object on the page, and the page's status code.
#[derive(Clone, Debug, PartialEq, Eq)]
pub struct ListPage {
    pub entries: Vec<String>,
    pub code: u16,
}

/// The mathematical content of a [`ListPage`].
pub struct ListPageView {
    pub entries: Seq<Seq<char>>,
    pub code: u16,
}

impl View for ListPage {
    type V = ListPageView;

    open spec fn view(&self) -> ListPageView {
        ListPageView { entries: texts_view(self.entries@), code: self.code }
    }
}

/// The views of a list of pages, in order.
pub open spec fn pages_view(pages: Seq<ListPage>) -> Seq<ListPageView> {
    Seq::new(pages.len(), |i: int| pages[i]@)
}

/// What the caller is asked to do next.
#[derive(Debug, PartialEq, Eq)]
pub enum Step {
    /// Open and parse the configuration file at `path`.
    LoadConfig { path: String },
    /// Make the assignments in `exports` in the process environment, then
    /// build the storage handle for the bucket and region of `config`.
    Connect { config: Configs, exports: Vec<EnvVar> },
    /// List the objects whose key starts with `prefix`.
    ListObjects { prefix: String },
    /// Read the whole local file at `path` into memory.
    ReadLocal { path: String },
    /// Store `data` as the object `remote`.
    PutObject { remote: String, data: Vec<u8> },
    /// Find out whether `path` is an existing directory.
    ProbeLocal { path: String },
    /// Fetch the object `remote`.
    GetObject { remote: String },
    /// Write `data` to the local file at `path`, replacing what is there.
    WriteLocal { path: String, data: Vec<u8> },
    /// Delete the object `remote`.
    DeleteObject { remote: String },
    /// Print the lines of `output`, then end the invocation with `result`.
    Finish { output: Vec<String>, result: Result<(), Error> },
}

/// The mathematical content of a [`Step`].
pub enum StepView {
    LoadConfig { path: Seq<char> },
    Connect { config: ConfigsView, exports: Seq<(Seq<char>, Seq<char>)> },
    ListObjects { prefix: Seq<char> },
    ReadLocal { path: Seq<char> },
    PutObject { remote: Seq<char>, data: Seq<u8> },
    ProbeLocal { path: Seq<char> },
    GetObject { remote: Seq<char> },
    WriteLocal { path: Seq<char>, data: Seq<u8> },
    DeleteObject { remote: Seq<char> },
    Finish { output: Seq<Seq<char>>, result: Result<(), ErrorView> },
}

impl View for Step {
    type V = StepView;

    open spec fn view(&self) -> StepView {
        match *self {
            Step::LoadConfig { path } => StepView::LoadConfig { path: path@ },
            Step::Connect { config, exports } => StepView::Connect {
                config: config@,
                exports: exports_view(exports@),
            },
            Step::ListObjects { prefix } => StepView::ListObjects { prefix: prefix@ },
            Step::ReadLocal { path } => StepView::ReadLocal { path: path@ },
            Step::PutObject { remote, data } => StepView::PutObject { remote: remote@, data: data@ },
            Step::ProbeLocal { path } => StepView::ProbeLocal { path: path@ },
            Step::GetObject { remote } => StepView::GetObject { remote: remote@ },
            Step::WriteLocal { path, data } => StepView::WriteLocal { path: path@, data: data@ },
            Step::DeleteObject { remote } => StepView::DeleteObject { remote: remote@ },
            Step::Finish { output, result } => StepView::Finish {
                output: texts_view(output@),
                result: outcome_view(result),
            },
        }
    }
}

/// What the caller reports after taking a step.
#[derive(Debug, PartialEq, Eq)]
pub enum Event {
    /// The configuration file was looked at, with this result.
    ConfigRead(ConfigSource),
    /// The storage handle was built.
    Connected,
    /// The listing came back, page by page.
    Listed(Vec<ListPage>),
    /// The local file was read.
    LocalRead(Vec<u8>),
    /// The local target is (`true`) or is not an existing directory.
    Probed(bool),
    /// The storage operation answered with a payload and a status code.
    Replied { data: Vec<u8>, code: u16 },
    /// The local file was written.
    Written,
    /// The step could not be carried out.
    Failed(Error),
}

/// The mathematical content of an [`Event`].
pub enum EventView {
    ConfigRead(ConfigSourceView),
    Connected,
    Listed(Seq<ListPageView>),
    LocalRead(Seq<u8>),
    Probed(bool),
    Replied { data: Seq<u8>, code: u16 },
    Written,
    Failed(ErrorView),
}

impl View for Event {
    type V = EventView;

    open spec fn view(&self) -> EventView {
        match *self {
            Event::ConfigRead(source) => EventView::ConfigRead(source@),
            Event::Connected => EventView::Connected,
            Event::Listed(pages) => EventView::Listed(pages_view(pages@)),
            Event::LocalRead(data) => EventView::LocalRead(data@),
            Event::Probed(is_directory) => EventView::Probed(is_directory),
            Event::Replied { data, code } => EventView::Replied { data: data@, code },
            Event::Written => EventView::Written,
            Event::Failed(e) => EventView::Failed(e@),
        }
    }
}

/// Where an invocation stands: which answer it waits for, and what it
/// has to remember until then.
#[allow(inconsistent_fields)]
#[derive(Debug, PartialEq, Eq)]
pub enum State {
    /// Waiting for the configuration file.
    AwaitConfig { mode: String, remote: Option<String>, flags: Layer },
    /// Waiting for the storage handle.
    AwaitHandle { mode: String, remote: Option<String>, local: Option<String> },
    /// Waiting for the listing.
    AwaitListing,
    /// Waiting for the content of the local file to upload as `remote`.
    AwaitRead { remote: String },
    /// Waiting for the answer to the upload.
    AwaitPut,
    /// Waiting to learn whether `local` is a directory; `name` is the
    /// final component of `remote`, if it has one.
    AwaitProbe { remote: String, local: String, name: Option<String> },
    /// Waiting for the object that goes to `destination`.
    AwaitFetch { destination: String },
    /// Waiting for the local file to be written.
    AwaitWrite,
    /// Waiting for the answer to the deletion.
    AwaitDelete,
    /// The invocation has ended.
    Finished,
}

/// The mathematical content of a [`State`].
#[allow(inconsistent_fields)]
pub enum StateView {
    AwaitConfig { mode: Seq<char>, remote: Option<Seq<char>>, flags: LayerView },
    AwaitHandle { mode: Seq<char>, remote: Option<Seq<char>>, local: Option<Seq<char>> },
    AwaitListing,
    AwaitRead { remote: Seq<char> },
    AwaitPut,
    AwaitProbe { remote: Seq<char>, local: Seq<char>, name: Option<Seq<char>> },
    AwaitFetch { destination: Seq<char> },
    AwaitWrite,
    AwaitDelete,
    Finished,
}

impl View for State {
    type V = StateView;

    open spec fn view(&self) -> StateView {
        match *self {
            State::AwaitConfig { mode, remote, flags } => StateView::AwaitConfig {
                mode: mode@,
                remote: opt_view(remote),
                flags: flags@,
            },
            State::AwaitHandle { mode, remote, local } => StateView::AwaitHandle {
                mode: mode@,
                remote: opt_view(remote),
                local: opt_view(local),
            },
            State::AwaitListing => StateView::AwaitListing,
            State::AwaitRead { remote } => StateView::AwaitRead { remote: remote@ },
            State::AwaitPut => StateView::AwaitPut,
            State::AwaitProbe { remote, local, name } => StateView::AwaitProbe {
                remote: remote@,
                local: local@,
                name: opt_view(name),
            },
            State::AwaitFetch { destination } => StateView::AwaitFetch { destination: destination@ },
            State::AwaitWrite => StateView::AwaitWrite,
            State::AwaitDelete => StateView::AwaitDelete,
            State::Finished => StateView::Finished,
        }
    }
}

impl StateView {
    /// What holds of every state that an invocation goes through: the
    /// name remembered for a download is the final component of its
    /// remote path.
    pub open spec fn well_formed(self) -> bool {
        match self {
            StateView::AwaitProbe { remote, name, .. } => name == path_file_name(remote),
            _ => true,
        }
    }
}

/// The end of an invocation with an error and nothing to print.
pub open spec fn failed(e: ErrorView) -> (StateView, StepView) {
    (StateView::Finished, StepView::Finish { output: Seq::empty(), result: Err(e) })
}

/// The end of an invocation with success and nothing to print.
pub open spec fn succeeded() -> (StateView, StepView) {
    (StateView::Finished, StepView::Finish { output: Seq::empty(), result: Ok(()) })
}

/// Ends the invocation with `e`.
pub fn fail(e: Error) -> (r: (State, Step))
    ensures
        (r.0@, r.1@) == failed(e@),
{
    let output: Vec<String> = Vec::new();
    assert(texts_view(output@) =~= Seq::<Seq<char>>::empty());
    (State::Finished, Step::Finish { output, result: Err(e) })
}

/// Ends the invocation successfully.
pub fn succeed() -> (r: (State, Step))
    ensures
        (r.0@, r.1@) == succeeded(),
{
    let output: Vec<String> = Vec::new();
    assert(texts_view(output@) =~= Seq::<Seq<char>>::empty());
    (State::Finished, Step::Finish { output, result: Ok(()) })
}

} // verus!
