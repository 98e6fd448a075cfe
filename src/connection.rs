//! Which input source feeds the dispatcher: the connection lifecycle as a
//! state machine. The caller performs what it decides (closing a link,
//! opening a source, enumerating sources) and reports back the outcome.
use vstd::prelude::*;

verus! {

/// A request from the control surface.
#[derive(Clone, Debug, PartialEq, Eq)]
pub enum Message {
    PortSelected(String),
    Rescan,
    OpenGitHub,
}

/// Why a connection attempt failed.
#[derive(Clone, Debug, PartialEq, Eq)]
pub enum ConnectError {
    /// No source of the requested name is present.
    NotFound,
    /// The input driver refused the connection, with its reason.
    Refused(String),
}

/// Where the link to the selected source stands.
#[derive(Clone, Debug, PartialEq, Eq)]
pub enum ConnectionState {
    Disconnected,
    Connecting,
    Connected(String),
    Failed(ConnectError),
}

/// What the status line reports; updated on every transition.
#[derive(Clone, Debug, PartialEq, Eq)]
pub enum Status {
    Ready,
    NoSources,
    FoundSources(usize),
    Connecting(String),
    Connected(String),
    Failed(ConnectError),
}

/// What became of an attempt to open the selected source.
#[derive(Clone, Debug, PartialEq, Eq)]
pub enum OpenOutcome {
    Opened,
    NotFound,
    Refused(String),
}

fn copy_error(e: &ConnectError) -> (r: ConnectError)
    ensures
        r == *e,
{
    match e {
        ConnectError::NotFound => ConnectError::NotFound,
        ConnectError::Refused(reason) => ConnectError::Refused(reason.clone()),
    }
}

fn copy_state(s: &ConnectionState) -> (r: ConnectionState)
    ensures
        r == *s,
{
    match s {
        ConnectionState::Disconnected => ConnectionState::Disconnected,
        ConnectionState::Connecting => ConnectionState::Connecting,
        ConnectionState::Connected(name) => ConnectionState::Connected(name.clone()),
        ConnectionState::Failed(e) => ConnectionState::Failed(copy_error(e)),
    }
}

fn copy_status(s: &Status) -> (r: Status)
    ensures
        r == *s,
{
    match s {
        Status::Ready => Status::Ready,
        Status::NoSources => Status::NoSources,
        Status::FoundSources(n) => Status::FoundSources(*n),
        Status::Connecting(name) => Status::Connecting(name.clone()),
        Status::Connected(name) => Status::Connected(name.clone()),
        Status::Failed(e) => Status::Failed(copy_error(e)),
    }
}

/// Whether `i` is the index of the first name in `names` equal to `name`.
pub open spec fn first_match(names: Seq<String>, name: Seq<char>, i: int) -> bool {
    0 <= i < names.len() && names[i]@ == name && forall|j: int| 0 <= j < i ==> names[j]@ != name
}

/// Finds the position of the source called `name`, the first one if several
/// share it.
pub fn find_source(names: &Vec<String>, name: &String) -> (r: Option<usize>)
    ensures
        match r {
            Some(i) => first_match(names@, name@, i as int),
            None => forall|j: int| 0 <= j < names.len() ==> names[j]@ != name@,
        },
{
    let mut i: usize = 0;
    while i < names.len()
        invariant
            0 <= i <= names.len(),
            forall|j: int| 0 <= j < i ==> names[j]@ != name@,
        decreases names.len() - i,
    {
        if names[i] == *name {
            return Some(i);
        }
        i = i + 1;
    }
    None
}

/// The connection lifecycle. At most one link feeds the dispatcher: the live
/// one, named by an id that no link opened just before it carries.
pub struct Connection {
    sources: Vec<String>,
    selected: Option<String>,
    state: ConnectionState,
    status: Status,
    link: Option<u64>,
    next_link: u64,
}

/// The id handed to the link opened after the one with id `id`.
pub open spec fn successor(id: u64) -> u64 {
    if id == u64::MAX {
        0
    } else {
        (id + 1) as u64
    }
}

impl Connection {
    pub closed spec fn sources_spec(&self) -> Seq<String> {
        self.sources@
    }

    pub closed spec fn selected_spec(&self) -> Option<String> {
        self.selected
    }

    pub closed spec fn state_spec(&self) -> ConnectionState {
        self.state
    }

    pub closed spec fn status_spec(&self) -> Status {
        self.status
    }

    /// The id of the link now feeding the dispatcher, if any.
    pub closed spec fn link_spec(&self) -> Option<u64> {
        self.link
    }

    /// The id the next opened link will carry.
    pub closed spec fn next_link_spec(&self) -> u64 {
        self.next_link
    }

    /// A live link exists exactly when the state is `Connected`, the next id
    /// to hand out follows the live link's, and a connected source is the
    /// selected one.
    pub closed spec fn wf(&self) -> bool {
        &&& self.link.is_some() <==> self.state is Connected
        &&& self.link.is_some() ==> self.next_link == successor(self.link.unwrap())
        &&& self.state matches ConnectionState::Connected(name) ==> self.selected == Some(name)
    }

    /// A lifecycle over the enumerated `sources`, with nothing connected.
    pub fn new(sources: Vec<String>) -> (r: Connection)
        ensures
            r.wf(),
            r.sources_spec() == sources@,
            r.selected_spec() is None,
            r.state_spec() == ConnectionState::Disconnected,
            r.link_spec() is None,
            r.status_spec() == Status::Ready,
    {
        Connection {
            sources,
            selected: None,
            state: ConnectionState::Disconnected,
            status: Status::Ready,
            link: None,
            next_link: 0,
        }
    }

    /// The source to select at startup: the first one enumerated.
    pub fn first_source(&self) -> (r: Option<String>)
        ensures
            self.sources_spec().len() == 0 ==> r is None,
            self.sources_spec().len() > 0 ==> r == Some(self.sources_spec()[0]),
    {
        if self.sources.len() > 0 {
            Some(self.sources[0].clone())
        } else {
            None
        }
    }

    /// Replaces the list of sources by a fresh enumeration. The link and the
    /// connection state stay as they are.
    pub fn rescan(&mut self, sources: Vec<String>)
        requires
            old(self).wf(),
        ensures
            final(self).wf(),
            final(self).sources_spec() == sources@,
            final(self).selected_spec() == old(self).selected_spec(),
            final(self).state_spec() == old(self).state_spec(),
            final(self).link_spec() == old(self).link_spec(),
            final(self).next_link_spec() == old(self).next_link_spec(),
            final(self).status_spec() == if sources@.len() == 0 {
                Status::NoSources
            } else {
                Status::FoundSources(sources@.len() as usize)
            },
    {
        let n = sources.len();
        self.status = if n == 0 {
            Status::NoSources
        } else {
            Status::FoundSources(n)
        };
        self.sources = sources;
    }

    /// Starts selecting the source `name`. The live link, if any, is given up
    /// here and returned: the caller closes it, and must see it closed, before
    /// it opens anything else.
    pub fn begin_select(&mut self, name: String) -> (close: Option<u64>)
        requires
            old(self).wf(),
        ensures
            final(self).wf(),
            began_select(*old(self), *final(self), name, close),
    {
        let close = self.link;
        self.link = None;
        self.state = ConnectionState::Connecting;
        self.status = Status::Connecting(name.clone());
        self.selected = Some(name);
        close
    }

    /// Records what became of opening the selected source. An opened source
    /// becomes the live link, under a fresh id, which is returned; a failure
    /// leaves nothing live and the lifecycle ready for another selection.
    pub fn finish_select(&mut self, outcome: OpenOutcome) -> (opened: Option<u64>)
        requires
            old(self).wf(),
            old(self).state_spec() == ConnectionState::Connecting,
            old(self).selected_spec() is Some,
        ensures
            final(self).wf(),
            finished_select(*old(self), *final(self), outcome, opened),
    {
        match outcome {
            OpenOutcome::Opened => {
                let id = self.next_link;
                self.next_link = if id == u64::MAX {
                    0
                } else {
                    id + 1
                };
                let name = match &self.selected {
                    Some(n) => n.clone(),
                    None => String::new(),
                };
                self.link = Some(id);
                self.state = ConnectionState::Connected(name.clone());
                self.status = Status::Connected(name);
                Some(id)
            },
            OpenOutcome::NotFound => {
                self.state = ConnectionState::Failed(ConnectError::NotFound);
                self.status = Status::Failed(ConnectError::NotFound);
                None
            },
            OpenOutcome::Refused(reason) => {
                self.state = ConnectionState::Failed(ConnectError::Refused(reason.clone()));
                self.status = Status::Failed(ConnectError::Refused(reason));
                None
            },
        }
    }

    /// Whether events arriving over the link `id` may reach the dispatcher:
    /// only those of the live link do.
    pub fn accepts(&self, id: u64) -> (r: bool)
        ensures
            r == (self.link_spec() == Some(id)),
    {
        match self.link {
            Some(live) => live == id,
            None => false,
        }
    }

    /// The current connection state.
    pub fn state(&self) -> (r: ConnectionState)
        ensures
            r == self.state_spec(),
    {
        copy_state(&self.state)
    }

    /// The current status.
    pub fn status(&self) -> (r: Status)
        ensures
            r == self.status_spec(),
    {
        copy_status(&self.status)
    }

    /// The enumerated sources, in the order the input backend gave them.
    pub fn sources(&self) -> (r: &Vec<String>)
        ensures
            r@ == self.sources_spec(),
    {
        &self.sources
    }

    /// The selected source, if any.
    pub fn selected(&self) -> (r: Option<String>)
        ensures
            r == self.selected_spec(),
    {
        self.selected.clone()
    }
}

/// `post` is what `begin_select(name)` makes of `pre`, handing back `close`.
pub open spec fn began_select(pre: Connection, post: Connection, name: String, close: Option<u64>) -> bool {
    &&& close == pre.link_spec()
    &&& post.link_spec() is None
    &&& post.state_spec() == ConnectionState::Connecting
    &&& post.selected_spec() == Some(name)
    &&& post.status_spec() == Status::Connecting(name)
    &&& post.sources_spec() == pre.sources_spec()
    &&& post.next_link_spec() == pre.next_link_spec()
}

/// `post` is what `finish_select(outcome)` makes of `pre`, handing back
/// `opened`.
pub open spec fn finished_select(
    pre: Connection,
    post: Connection,
    outcome: OpenOutcome,
    opened: Option<u64>,
) -> bool {
    &&& post.sources_spec() == pre.sources_spec()
    &&& post.selected_spec() == pre.selected_spec()
    &&& match outcome {
        OpenOutcome::Opened => {
            &&& opened == Some(pre.next_link_spec())
            &&& post.link_spec() == opened
            &&& post.next_link_spec() == successor(pre.next_link_spec())
            &&& post.state_spec() == ConnectionState::Connected(pre.selected_spec().unwrap())
            &&& post.status_spec() == Status::Connected(pre.selected_spec().unwrap())
        },
        OpenOutcome::NotFound => {
            &&& opened is None
            &&& post.link_spec() is None
            &&& post.next_link_spec() == pre.next_link_spec()
            &&& post.state_spec() == ConnectionState::Failed(ConnectError::NotFound)
            &&& post.status_spec() == Status::Failed(ConnectError::NotFound)
        },
        OpenOutcome::Refused(reason) => {
            &&& opened is None
            &&& post.link_spec() is None
            &&& post.next_link_spec() == pre.next_link_spec()
            &&& post.state_spec() == ConnectionState::Failed(ConnectError::Refused(reason))
            &&& post.status_spec() == Status::Failed(ConnectError::Refused(reason))
        },
    }
}

/// Once a source is connected over the link `old_link`, selecting a source
/// again retires that link for good: whatever opening the new source gives,
/// events arriving over `old_link` are no longer accepted, and a newly opened
/// link carries another id.
pub proof fn lemma_reselect_retires_old_link(
    connected: Connection,
    selecting: Connection,
    after: Connection,
    name: String,
    close: Option<u64>,
    outcome: OpenOutcome,
    opened: Option<u64>,
    old_link: u64,
)
    requires
        connected.wf(),
        connected.link_spec() == Some(old_link),
        began_select(connected, selecting, name, close),
        finished_select(selecting, after, outcome, opened),
    ensures
        close == Some(old_link),
        selecting.link_spec() != Some(old_link),
        after.link_spec() != Some(old_link),
        opened != Some(old_link),
{
}

} // verus!
