//! Choosing the storage operation and checking what it needs.

use vstd::prelude::*;
use vstd::string::*;
use crate::error::{outcome_view, Error, ErrorView, PathKind};
use crate::path::{file_name, path_file_name};
use crate::protocol::{
    fail, failed, pages_view, ListPage, ListPageView, State, StateView, Step, StepView,
};
use crate::status::{check_code, code_outcome};
use crate::text::{opt_str_view, opt_view, same_text, texts_view};

verus! {

/// The four operations.
#[derive(Clone, Copy, Debug, PartialEq, Eq, Structural)]
pub enum Mode {
    List,
    Put,
    Get,
    Delete,
}

/// The operation that a mode word selects. No word at all selects the
/// listing; a word that is none of the known ones selects nothing.
pub open spec fn mode_of(word: Option<Seq<char>>) -> Option<Mode> {
    match word {
        None => Some(Mode::List),
        Some(w) => if w == "l"@ || w == "list"@ {
            Some(Mode::List)
        } else if w == "p"@ || w == "put"@ {
            Some(Mode::Put)
        } else if w == "g"@ || w == "get"@ {
            Some(Mode::Get)
        } else if w == "d"@ || w == "del"@ || w == "delete"@ {
            Some(Mode::Delete)
        } else {
            None
        },
    }
}

/// Reads a mode word: `l`/`list`, `p`/`put`, `g`/`get`, `d`/`del`/`delete`,
/// or none for the listing. Any other word is an invalid mode.
pub fn parse_mode(word: Option<&str>) -> (r: Result<Mode, Error>)
    ensures
        match mode_of(opt_str_view(word)) {
            Some(mode) => r == Ok::<Mode, Error>(mode),
            None => r == Err::<Mode, Error>(Error::InvalidMode),
        },
{
    match word {
        None => Ok(Mode::List),
        Some(w) => {
            if same_text(w, "l") || same_text(w, "list") {
                Ok(Mode::List)
            } else if same_text(w, "p") || same_text(w, "put") {
                Ok(Mode::Put)
            } else if same_text(w, "g") || same_text(w, "get") {
                Ok(Mode::Get)
            } else if same_text(w, "d") || same_text(w, "del") || same_text(w, "delete") {
                Ok(Mode::Delete)
            } else {
                Err(Error::InvalidMode)
            }
        },
    }
}

/// The first step of an operation, or the error that ends it at once.
///
/// - The listing asks for every object: its prefix is empty.
/// - An upload needs the local path and the remote path, and misses the
///   local one first. It begins by reading the local file.
/// - A download needs the remote path and the local path, and misses the
///   remote one first. It begins by probing the local target.
/// - A deletion needs the remote path.
pub open spec fn planned(
    mode: Option<Seq<char>>,
    remote: Option<Seq<char>>,
    local: Option<Seq<char>>,
) -> (StateView, StepView) {
    match mode_of(mode) {
        None => failed(ErrorView::InvalidMode),
        Some(Mode::List) => (
            StateView::AwaitListing,
            StepView::ListObjects { prefix: Seq::<char>::empty() },
        ),
        Some(Mode::Put) => match (local, remote) {
            (None, _) => failed(ErrorView::MissingPath(PathKind::Local)),
            (Some(_), None) => failed(ErrorView::MissingPath(PathKind::Remote)),
            (Some(l), Some(r)) => (
                StateView::AwaitRead { remote: r },
                StepView::ReadLocal { path: l },
            ),
        },
        Some(Mode::Get) => match (remote, local) {
            (None, _) => failed(ErrorView::MissingPath(PathKind::Remote)),
            (Some(_), None) => failed(ErrorView::MissingPath(PathKind::Local)),
            (Some(r), Some(l)) => (
                StateView::AwaitProbe { remote: r, local: l, name: path_file_name(r) },
                StepView::ProbeLocal { path: l },
            ),
        },
        Some(Mode::Delete) => match remote {
            None => failed(ErrorView::MissingPath(PathKind::Remote)),
            Some(r) => (StateView::AwaitDelete, StepView::DeleteObject { remote: r }),
        },
    }
}

/// Begins the storage operation that `mode` selects on the paths given:
/// returns the first step to take and the state to continue from with
/// [`crate::session::advance`], or the step that ends the invocation
/// with an invalid-mode or missing-path error. No storage operation and
/// no file access is asked for before the paths the mode needs are known
/// to be present.
pub fn aws_s3(mode: Option<&str>, remote: Option<&str>, local: Option<&str>) -> (r: (State, Step))
    ensures
        (r.0@, r.1@) == planned(opt_str_view(mode), opt_str_view(remote), opt_str_view(local)),
        r.0@.well_formed(),
{
    let mode = match parse_mode(mode) {
        Ok(mode) => mode,
        Err(e) => {
            return fail(e);
        },
    };
    match mode {
        Mode::List => (State::AwaitListing, Step::ListObjects { prefix: String::new() }),
        Mode::Put => {
            let local_path = match local {
                Some(path) => path,
                None => {
                    return fail(Error::MissingPath(PathKind::Local));
                },
            };
            let remote_path = match remote {
                Some(path) => path,
                None => {
                    return fail(Error::MissingPath(PathKind::Remote));
                },
            };
            (
                State::AwaitRead { remote: remote_path.to_owned() },
                Step::ReadLocal { path: local_path.to_owned() },
            )
        },
        Mode::Get => {
            let remote_path = match remote {
                Some(path) => path,
                None => {
                    return fail(Error::MissingPath(PathKind::Remote));
                },
            };
            let local_path = match local {
                Some(path) => path,
                None => {
                    return fail(Error::MissingPath(PathKind::Local));
                },
            };
            (
                State::AwaitProbe {
                    remote: remote_path.to_owned(),
                    local: local_path.to_owned(),
                    name: file_name(remote_path),
                },
                Step::ProbeLocal { path: local_path.to_owned() },
            )
        },
        Mode::Delete => {
            let remote_path = match remote {
                Some(path) => path,
                None => {
                    return fail(Error::MissingPath(PathKind::Remote));
                },
            };
            (State::AwaitDelete, Step::DeleteObject { remote: remote_path.to_owned() })
        },
    }
}

/// Lines followed by what the rest of a listing yields.
pub open spec fn prefixed(
    lines: Seq<Seq<char>>,
    rest: (Seq<Seq<char>>, Result<(), ErrorView>),
) -> (Seq<Seq<char>>, Result<(), ErrorView>) {
    (lines + rest.0, rest.1)
}

/// What a listing yields: the entries of its pages, in order, up to the
/// first page whose status code is not 200, and the error of that page
/// if there is one. Pages after a rejected page contribute nothing.
pub open spec fn listed(pages: Seq<ListPageView>) -> (Seq<Seq<char>>, Result<(), ErrorView>)
    decreases pages.len(),
{
    if pages.len() == 0 {
        (Seq::empty(), Ok(()))
    } else {
        match code_outcome(pages[0].code) {
            Err(e) => (Seq::empty(), Err(e)),
            Ok(()) => prefixed(pages[0].entries, listed(pages.skip(1))),
        }
    }
}

/// Goes through the pages of a listing in order. Every page's status code
/// is validated before its entries are taken; the first page that fails
/// ends the listing with its error, and only the entries of the pages
/// before it are reported.
pub fn list_report(pages: &Vec<ListPage>) -> (r: (Vec<String>, Result<(), Error>))
    ensures
        (texts_view(r.0@), outcome_view(r.1)) == listed(pages_view(pages@)),
{
    let ghost all = pages_view(pages@);
    let mut lines: Vec<String> = Vec::new();
    let mut i: usize = 0;
    assert(all.skip(0) =~= all);
    assert(texts_view(lines@) + listed(all).0 =~= listed(all).0);
    while i < pages.len()
        invariant
            i <= pages.len(),
            all == pages_view(pages@),
            listed(all) == prefixed(texts_view(lines@), listed(all.skip(i as int))),
        decreases pages.len() - i,
    {
        let page = &pages[i];
        let ghost tail = all.skip(i as int);
        let ghost before = texts_view(lines@);
        assert(tail.len() > 0);
        assert(tail[0] == page@);
        assert(tail.skip(1) =~= all.skip(i + 1));
        match check_code(page.code) {
            Err(e) => {
                assert(before + Seq::<Seq<char>>::empty() =~= before);
                return (lines, Err(e));
            },
            Ok(()) => {},
        }
        let mut j: usize = 0;
        assert(before + page@.entries.take(0) =~= before);
        while j < page.entries.len()
            invariant
                j <= page.entries.len(),
                texts_view(lines@) == before + page@.entries.take(j as int),
            decreases page.entries.len() - j,
        {
            let ghost copied = texts_view(lines@);
            lines.push(page.entries[j].clone());
            assert(texts_view(lines@) =~= copied.push(page@.entries[j as int]));
            assert(page@.entries.take(j + 1) =~= page@.entries.take(j as int).push(
                page@.entries[j as int],
            ));
            j += 1;
        }
        assert(page@.entries.take(j as int) =~= page@.entries);
        assert((before + page@.entries) + listed(all.skip(i + 1)).0 =~= before + (page@.entries
            + listed(all.skip(i + 1)).0));
        i += 1;
    }
    assert(texts_view(lines@) + Seq::<Seq<char>>::empty() =~= texts_view(lines@));
    (lines, Ok(()))
}

/// The entries of all the pages of a listing, in order.
pub open spec fn all_entries(pages: Seq<ListPageView>) -> Seq<Seq<char>>
    decreases pages.len(),
{
    if pages.len() == 0 {
        Seq::empty()
    } else {
        pages[0].entries + all_entries(pages.skip(1))
    }
}

/// A listing fails fast. If the first `k` pages carry the status 200 and
/// page `k`, if there is one, does not, the listing yields exactly the
/// entries of those first `k` pages; it fails with the status of page `k`
/// if there is one and succeeds otherwise.
pub proof fn lemma_listing_fails_fast(pages: Seq<ListPageView>, k: int)
    requires
        0 <= k <= pages.len(),
        forall|i: int| 0 <= i < k ==> (#[trigger] pages[i]).code == 200,
        k < pages.len() ==> pages[k].code != 200,
    ensures
        listed(pages).0 == all_entries(pages.take(k)),
        listed(pages).1 == if k < pages.len() {
            Err::<(), ErrorView>(ErrorView::RemoteStatus(pages[k].code))
        } else {
            Ok::<(), ErrorView>(())
        },
    decreases k,
{
    if k == 0 {
        assert(pages.take(0).len() == 0);
    } else {
        let rest = pages.skip(1);
        assert(pages[0].code == 200);
        assert forall|i: int| 0 <= i < k - 1 implies (#[trigger] rest[i]).code == 200 by {
            assert(rest[i] == pages[i + 1]);
        }
        lemma_listing_fails_fast(rest, k - 1);
        assert(pages.take(k).skip(1) =~= rest.take(k - 1));
        assert(pages.take(k)[0] == pages[0]);
    }
}

} // verus!
