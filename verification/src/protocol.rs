//! What the program asks of the outside world, and what it is answered.
//!
//! The program never touches a file or a terminal. It hands out one
//! [`Request`] at a time; whoever drives it carries the request out and
//! resumes the program with the [`Reply`].
use vstd::prelude::*;
use crate::error::{outcome_view, Error, ErrorView};

verus! {

/// What a path leads to.
#[derive(Clone, Copy, Debug, PartialEq, Eq, Structural)]
pub enum Kind {
    /// A regular file.
    File,
    /// A directory.
    Directory,
    /// Something that is neither.
    Other,
    /// Nothing: the path does not exist.
    Missing,
}

/// An entry of a directory.
#[derive(Debug, PartialEq, Eq)]
pub struct Entry {
    /// The path of the entry, from the path of the directory on.
    pub path: String,
    /// What the entry is.
    pub kind: Kind,
}

/// The mathematical value of an [`Entry`].
pub ghost struct EntryView {
    pub path: Seq<char>,
    pub kind: Kind,
}

impl View for Entry {
    type V = EntryView;

    open spec fn view(&self) -> EntryView {
        EntryView { path: self.path@, kind: self.kind }
    }
}

/// The mathematical value of a list of entries.
pub open spec fn entries_view(entries: Seq<Entry>) -> Seq<EntryView> {
    entries.map_values(|entry: Entry| entry@)
}

/// What the program asks of the outside world.
///
/// Before a request is carried out, what the program has written to its two
/// output streams is to be shown. Every request but the last may be
/// answered by `Failed`, with the cause.
#[derive(Debug, PartialEq, Eq)]
pub enum Request {
    /// Write the help message to the diagnostic stream. Answered by `Done`.
    Help,
    /// Write the version message to the diagnostic stream. Answered by
    /// `Done`.
    Version,
    /// Read one line from the input stream and make it the input of the
    /// program; at the end of the stream, leave the program without input.
    /// Answered by `Done`.
    Read,
    /// Tell what the path leads to. Answered by `Resolved`.
    Probe { path: String },
    /// Enumerate the directory, and tell of each entry what it is. Answered
    /// by `Entries`.
    List { path: String },
    /// Tell the length of the file in bytes. Answered by `Length`.
    Measure { path: String },
    /// Open the file for writing without truncating it, write `len` zero
    /// bytes from its start on, and force them to stable storage before the
    /// file is closed. Answered by `Done`.
    Fill { path: String, len: u64 },
    /// Nothing more: the run is over, with this outcome.
    Finish { outcome: Result<(), Error> },
}

/// The mathematical value of a [`Request`].
pub ghost enum RequestView {
    Help,
    Version,
    Read,
    Probe { path: Seq<char> },
    List { path: Seq<char> },
    Measure { path: Seq<char> },
    Fill { path: Seq<char>, len: u64 },
    Finish { outcome: Result<(), ErrorView> },
}

impl View for Request {
    type V = RequestView;

    open spec fn view(&self) -> RequestView {
        match self {
            Request::Help => RequestView::Help,
            Request::Version => RequestView::Version,
            Request::Read => RequestView::Read,
            Request::Probe { path } => RequestView::Probe { path: path@ },
            Request::List { path } => RequestView::List { path: path@ },
            Request::Measure { path } => RequestView::Measure { path: path@ },
            Request::Fill { path, len } => RequestView::Fill { path: path@, len: *len },
            Request::Finish { outcome } => RequestView::Finish { outcome: outcome_view(*outcome) },
        }
    }
}

/// What the outside world answers.
#[derive(Debug, PartialEq, Eq)]
pub enum Reply {
    /// What was asked for has been done.
    Done,
    /// What was asked for could not be done, for the cause given.
    Failed(String),
    /// What the path leads to.
    Resolved(Kind),
    /// The entries of the directory, in the order in which they were
    /// enumerated.
    Entries(Vec<Entry>),
    /// The length of the file in bytes.
    Length(u64),
}

/// The mathematical value of a [`Reply`].
pub ghost enum ReplyView {
    Done,
    Failed(Seq<char>),
    Resolved(Kind),
    Entries(Seq<EntryView>),
    Length(u64),
}

impl View for Reply {
    type V = ReplyView;

    open spec fn view(&self) -> ReplyView {
        match self {
            Reply::Done => ReplyView::Done,
            Reply::Failed(cause) => ReplyView::Failed(cause@),
            Reply::Resolved(kind) => ReplyView::Resolved(*kind),
            Reply::Entries(entries) => ReplyView::Entries(entries_view(entries@)),
            Reply::Length(len) => ReplyView::Length(*len),
        }
    }
}

/// The content of the files of the outside world, by path.
pub type Files = Map<Seq<char>, Seq<u8>>;

/// The content of a file after `len` zero bytes have been written from its
/// start on: what lay beyond them stays, and a shorter file grows to `len`.
pub open spec fn zero_filled(content: Seq<u8>, len: nat) -> Seq<u8> {
    Seq::new(
        if content.len() < len {
            len
        } else {
            content.len()
        },
        |i: int|
            if i < len {
                0u8
            } else {
                content[i]
            },
    )
}

impl RequestView {
    /// What carrying out the request does to the content of files: `Fill`
    /// zero-fills the one file it names, and no other request changes any
    /// file.
    pub open spec fn effect(self, files: Files) -> Files {
        match self {
            RequestView::Fill { path, len } => if files.dom().contains(path) {
                files.insert(path, zero_filled(files[path], len as nat))
            } else {
                files
            },
            _ => files,
        }
    }
}

/// What carrying out these requests, one after the other, does to the
/// content of files.
pub open spec fn effects(requests: Seq<RequestView>, files: Files) -> Files
    decreases requests.len(),
{
    if requests.len() == 0 {
        files
    } else {
        effects(requests.drop_first(), requests.first().effect(files))
    }
}

} // verus!
