//! File events and the dispatcher that routes them to their source's channel.

use vstd::prelude::*;
use crate::channels::send_event;

verus! {

/// "A file became available": where it came from and where it lies.
#[derive(Debug, PartialEq, Eq)]
pub struct FileEvent {
    pub file_id: i64,
    pub source_name: String,
    pub path: String,
}

/// The mathematical value of a [`FileEvent`].
pub ghost struct FileEventView {
    pub file_id: int,
    pub source_name: Seq<char>,
    pub path: Seq<char>,
}

impl View for FileEvent {
    type V = FileEventView;

    open spec fn view(&self) -> FileEventView {
        FileEventView {
            file_id: self.file_id as int,
            source_name: self.source_name@,
            path: self.path@,
        }
    }
}

impl Clone for FileEvent {
    fn clone(&self) -> (copy: FileEvent)
        ensures
            copy@ == self@,
    {
        FileEvent {
            file_id: self.file_id,
            source_name: self.source_name.clone(),
            path: self.path.clone(),
        }
    }
}

/// Why an event was not delivered.
#[derive(Debug, PartialEq, Eq)]
pub enum DispatchError {
    /// No channel is registered under the event's source name: the wiring is
    /// wrong. Carries the name.
    UnknownSource(String),
    /// The channel's receiving end is closed. Carries the event that was not
    /// delivered.
    SendFailed(FileEvent),
}

/// The mathematical value of a [`DispatchError`].
pub ghost enum DispatchErrorView {
    UnknownSource(Seq<char>),
    SendFailed(FileEventView),
}

impl View for DispatchError {
    type V = DispatchErrorView;

    open spec fn view(&self) -> DispatchErrorView {
        match self {
            DispatchError::UnknownSource(name) => DispatchErrorView::UnknownSource(name@),
            DispatchError::SendFailed(event) => DispatchErrorView::SendFailed(event@),
        }
    }
}

/// What the caller of a dispatch is told of a send: a refused event is
/// reported with the event.
pub open spec fn outcome_of(sent: Result<(), FileEvent>) -> Result<(), DispatchErrorView> {
    match sent {
        Ok(()) => Ok(()),
        Err(refused) => Err(DispatchErrorView::SendFailed(refused@)),
    }
}

/// The value of a dispatch result.
pub open spec fn result_view(result: Result<(), DispatchError>) -> Result<(), DispatchErrorView> {
    match result {
        Ok(()) => Ok(()),
        Err(e) => Err(e@),
    }
}

/// Turns the outcome of a send into what the caller of a dispatch is told.
pub fn dispatch_outcome(sent: Result<(), FileEvent>) -> (result: Result<(), DispatchError>)
    ensures
        result_view(result) == outcome_of(sent),
{
    match sent {
        Ok(()) => Ok(()),
        Err(refused) => Err(DispatchError::SendFailed(refused)),
    }
}

/// A source name and the sending end of that source's channel.
pub struct Route {
    name: String,
    sender: tokio::sync::mpsc::UnboundedSender<FileEvent>,
}

/// Routes file events to the channel registered under their source name.
pub struct EventDispatcher {
    routes: Vec<Route>,
}

impl EventDispatcher {
    /// The registered source names, in the order of registration.
    pub closed spec fn names(&self) -> Seq<Seq<char>> {
        self.routes@.map_values(|route: Route| route.name@)
    }

    /// The sending ends, each at the index of its name.
    pub closed spec fn senders(&self) -> Seq<tokio::sync::mpsc::UnboundedSender<FileEvent>> {
        self.routes@.map_values(|route: Route| route.sender)
    }

    /// The dispatcher's invariant: a name is registered once.
    pub open spec fn wf(&self) -> bool {
        &&& self.names().no_duplicates()
        &&& self.senders().len() == self.names().len()
    }

    /// Whether a channel is registered under `name`.
    pub open spec fn is_registered(&self, name: Seq<char>) -> bool {
        self.names().contains(name)
    }

    /// A dispatcher without channels.
    pub fn new() -> (dispatcher: EventDispatcher)
        ensures
            dispatcher.wf(),
            dispatcher.names() == Seq::<Seq<char>>::empty(),
    {
        let dispatcher = EventDispatcher { routes: Vec::new() };
        assert(dispatcher.names() =~= Seq::<Seq<char>>::empty());
        dispatcher
    }

    /// The number of registered channels.
    pub fn len(&self) -> (n: usize)
        ensures
            n == self.names().len(),
    {
        self.routes.len()
    }

    /// Finds the slot of the channel registered under `name`: `None` exactly
    /// where no channel is.
    pub fn route(&self, name: &String) -> (slot: Option<usize>)
        ensures
            match slot {
                Some(i) => i < self.names().len() && self.names()[i as int] == name@,
                None => !self.is_registered(name@),
            },
    {
        let mut i: usize = 0;
        while i < self.routes.len()
            invariant
                i <= self.routes.len(),
                forall|j: int| 0 <= j < i ==> self.names()[j] != name@,
            decreases self.routes.len() - i,
        {
            if self.routes[i].name == *name {
                return Some(i);
            }
            i = i + 1;
        }
        None
    }

    /// The sending end of the channel that events of the source `name` go
    /// to: the one registered under that name, `None` where none is.
    pub fn channel_for(&self, name: &String) -> (channel: Option<
        &tokio::sync::mpsc::UnboundedSender<FileEvent>,
    >)
        requires
            self.wf(),
        ensures
            match channel {
                Some(sender) => self.is_registered(name@) && *sender == self.senders()[
                    self.names().index_of(name@)],
                None => !self.is_registered(name@),
            },
    {
        match self.route(name) {
            Some(slot) => {
                assert(self.names().index_of(name@) == slot);
                Some(&self.routes[slot].sender)
            },
            None => None,
        }
    }

    /// Registers `sender` under `name`. A channel registered under that name
    /// before is replaced, at its slot, and its sending end handed back.
    pub fn register(
        &mut self,
        name: String,
        sender: tokio::sync::mpsc::UnboundedSender<FileEvent>,
    ) -> (replaced: Option<tokio::sync::mpsc::UnboundedSender<FileEvent>>)
        requires
            old(self).wf(),
        ensures
            final(self).wf(),
            final(self).is_registered(name@),
            old(self).is_registered(name@) ==> {
                &&& final(self).names() == old(self).names()
                &&& replaced == Some(old(self).senders()[old(self).names().index_of(name@)])
                &&& final(self).senders() == old(self).senders().update(
                    old(self).names().index_of(name@),
                    sender,
                )
            },
            !old(self).is_registered(name@) ==> {
                &&& final(self).names() == old(self).names().push(name@)
                &&& final(self).senders() == old(self).senders().push(sender)
                &&& replaced.is_none()
            },
    {
        match self.route(&name) {
            Some(i) => {
                let before = self.routes.remove(i);
                self.routes.insert(i, Route { name: before.name, sender });
                proof {
                    assert(final(self).names() =~= old(self).names());
                    assert(old(self).names().index_of(name@) == i);
                    assert(final(self).senders() =~= old(self).senders().update(i as int, sender));
                    assert(final(self).names()[i as int] == name@);
                }
                Some(before.sender)
            },
            None => {
                let ghost taken = name@;
                self.routes.push(Route { name, sender });
                proof {
                    assert(final(self).names() =~= old(self).names().push(taken));
                    assert(final(self).senders() =~= old(self).senders().push(sender));
                    assert(final(self).names().last() == taken);
                }
                None
            },
        }
    }

    /// Forwards a copy of `file_event` on the channel registered under its
    /// source name, and on no other. An event whose source name is not
    /// registered is refused as [`DispatchError::UnknownSource`]; where the
    /// channel does not take the event, which its receiving end decides, the
    /// event comes back as [`DispatchError::SendFailed`]. The registrations
    /// stay as they are.
    pub fn dispatch_event(&mut self, file_event: &FileEvent) -> (result: Result<(), DispatchError>)
        requires
            old(self).wf(),
        ensures
            final(self).wf(),
            final(self).names() == old(self).names(),
            final(self).senders() == old(self).senders(),
            !old(self).is_registered(file_event.source_name@) ==> result_view(result) == Err::<
                (),
                DispatchErrorView,
            >(DispatchErrorView::UnknownSource(file_event.source_name@)),
            old(self).is_registered(file_event.source_name@) ==> {
                ||| result is Ok
                ||| result_view(result) == Err::<(), DispatchErrorView>(
                    DispatchErrorView::SendFailed(file_event@),
                )
            },
    {
        match self.channel_for(&file_event.source_name) {
            None => Err(DispatchError::UnknownSource(file_event.source_name.clone())),
            Some(sender) => dispatch_outcome(send_event(sender, file_event.clone())),
        }
    }
}

/// Routing is exclusive: under a name at most one slot is registered, so an
/// event has exactly one channel to go to.
pub proof fn law_route_is_exclusive(dispatcher: &EventDispatcher, a: int, b: int)
    requires
        dispatcher.wf(),
        0 <= a < dispatcher.names().len(),
        0 <= b < dispatcher.names().len(),
        dispatcher.names()[a] == dispatcher.names()[b],
    ensures
        a == b,
{
}

} // verus!
