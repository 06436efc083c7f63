//! The directory watch source: the table from kernel watch handles to the
//! watched sources, and what is made of a change notification.

use std::collections::HashMap;
use vstd::prelude::*;
use crate::channels::{event_channel, send_event};
use crate::event::{FileEvent, FileEventView};
use crate::paths::{join, path_join};
use crate::settings::DirectorySource;

verus! {

broadcast use vstd::std_specs::hash::group_hash_axioms;

/// A registered source: its name and the receiving end of its event channel.
pub struct Source {
    pub name: String,
    pub receiver: tokio::sync::mpsc::UnboundedReceiver<FileEvent>,
}

/// What a watch handle stands for: a snapshot of the source's configuration
/// and the sending end of the source's event channel.
pub struct Watch {
    source: DirectorySource,
    sender: tokio::sync::mpsc::UnboundedSender<FileEvent>,
}

/// The mathematical value of a watched source.
pub ghost struct WatchedDirectory {
    pub name: Seq<char>,
    pub directory: Seq<char>,
}

/// The value of a configured directory source.
pub open spec fn watched(source: &DirectorySource) -> WatchedDirectory {
    WatchedDirectory { name: source.name@, directory: source.directory@ }
}

/// Why a change notification did not become a delivered event.
#[derive(Debug, PartialEq, Eq)]
pub enum WatchError {
    /// The notification names no file. It is dropped; the stream goes on.
    MissingName,
    /// No source is registered under the notification's watch handle.
    UnknownWatch(i32),
    /// The source's channel did not take the event, which comes back.
    SendFailed(FileEvent),
}

/// The mathematical value of a [`WatchError`].
pub ghost enum WatchErrorView {
    MissingName,
    UnknownWatch(i32),
    SendFailed(FileEventView),
}

impl View for WatchError {
    type V = WatchErrorView;

    open spec fn view(&self) -> WatchErrorView {
        match self {
            WatchError::MissingName => WatchErrorView::MissingName,
            WatchError::UnknownWatch(handle) => WatchErrorView::UnknownWatch(*handle),
            WatchError::SendFailed(event) => WatchErrorView::SendFailed(event@),
        }
    }
}

impl WatchError {
    /// Whether the error ends the notification stream. Only a notification
    /// without a file name is passed over.
    pub fn ends_stream(&self) -> (fatal: bool)
        ensures
            fatal == !(self@ == WatchErrorView::MissingName),
    {
        match self {
            WatchError::MissingName => false,
            _ => true,
        }
    }
}

/// The event that a notification for the file `name` under `handle` stands
/// for: the event of the source registered under the handle, its path the
/// source's directory joined with the name. A notification without a name is
/// refused first, then one under a handle that is not registered.
pub open spec fn decoded(
    table: Map<i32, WatchedDirectory>,
    handle: i32,
    name: Option<Seq<char>>,
    file_id: int,
) -> Result<FileEventView, WatchErrorView> {
    match name {
        None => Err(WatchErrorView::MissingName),
        Some(file_name) => if table.contains_key(handle) {
            Ok(
                FileEventView {
                    file_id,
                    source_name: table[handle].name,
                    path: path_join(table[handle].directory, file_name),
                },
            )
        } else {
            Err(WatchErrorView::UnknownWatch(handle))
        },
    }
}

/// The text of a file name, where there is one.
pub open spec fn option_text(name: Option<&str>) -> Option<Seq<char>> {
    match name {
        Some(text) => Some(text@),
        None => None,
    }
}

/// The value of a decoding result.
pub open spec fn decoded_view(result: Result<FileEvent, WatchError>) -> Result<
    FileEventView,
    WatchErrorView,
> {
    match result {
        Ok(event) => Ok(event@),
        Err(e) => Err(e@),
    }
}

/// The watch handle of the source at `index`: `watches` holds for each source
/// the handle of its kernel watch, or `None` where the watch could not be set
/// up. A source for which `watches` holds nothing has no watch.
pub open spec fn watch_of(watches: Seq<Option<i32>>, index: int) -> Option<i32> {
    if 0 <= index < watches.len() {
        watches[index]
    } else {
        None
    }
}

/// The table after the first `count` of the configured `sources` have been
/// registered. A source without a watch is left out; a handle that comes
/// again, as it does for a directory that is configured twice, stands for the
/// later source.
pub open spec fn registered(
    sources: Seq<DirectorySource>,
    watches: Seq<Option<i32>>,
    count: int,
) -> Map<i32, WatchedDirectory>
    decreases count,
{
    if count <= 0 {
        Map::empty()
    } else {
        let before = registered(sources, watches, count - 1);
        match watch_of(watches, count - 1) {
            Some(handle) => before.insert(handle, watched(&sources[count - 1])),
            None => before,
        }
    }
}

/// What the handler of a notification reports of a send: a refused event is
/// reported with the event.
pub open spec fn delivery_of(sent: Result<(), FileEvent>) -> Result<(), WatchErrorView> {
    match sent {
        Ok(()) => Ok(()),
        Err(refused) => Err(WatchErrorView::SendFailed(refused@)),
    }
}

/// The value of a handling result.
pub open spec fn delivery_view(result: Result<(), WatchError>) -> Result<(), WatchErrorView> {
    match result {
        Ok(()) => Ok(()),
        Err(e) => Err(e@),
    }
}

/// Turns the outcome of a send into what the handler of a notification
/// reports.
pub fn delivery_outcome(sent: Result<(), FileEvent>) -> (result: Result<(), WatchError>)
    ensures
        delivery_view(result) == delivery_of(sent),
{
    match sent {
        Ok(()) => Ok(()),
        Err(refused) => Err(WatchError::SendFailed(refused)),
    }
}

/// The event of the file at `path` under `source`.
pub fn source_event(source: &DirectorySource, file_id: i64, path: String) -> (event: FileEvent)
    ensures
        event@ == (FileEventView { file_id: file_id as int, source_name: source.name@, path: path@ }),
{
    FileEvent { file_id, source_name: source.name.clone(), path }
}

/// The table from watch handles to watched sources. One thread owns it.
pub struct WatchTable {
    watches: HashMap<i32, Watch>,
}

impl View for WatchTable {
    type V = Map<i32, WatchedDirectory>;

    closed spec fn view(&self) -> Map<i32, WatchedDirectory> {
        self.watches@.map_values(|watch: Watch| watched(&watch.source))
    }
}

impl WatchTable {
    /// The sending end of each watched source's event channel, under the
    /// source's watch handle.
    pub closed spec fn senders(&self) -> Map<i32, tokio::sync::mpsc::UnboundedSender<FileEvent>> {
        self.watches@.map_values(|watch: Watch| watch.sender)
    }

    /// Every watch has its sender: the handles that stand for a source are
    /// the handles under which a sending end is kept.
    pub proof fn lemma_every_watch_has_a_sender(&self)
        ensures
            self.senders().dom() == self@.dom(),
    {
        assert(self.senders().dom() =~= self@.dom());
    }

    /// A table without watches.
    pub fn new() -> (table: WatchTable)
        ensures
            table@ == Map::<i32, WatchedDirectory>::empty(),
            table.senders() == Map::<i32, tokio::sync::mpsc::UnboundedSender<FileEvent>>::empty(),
    {
        let table = WatchTable { watches: HashMap::new() };
        assert(table@ =~= Map::<i32, WatchedDirectory>::empty());
        assert(table.senders() =~= Map::<
            i32,
            tokio::sync::mpsc::UnboundedSender<FileEvent>,
        >::empty());
        table
    }

    /// The sending end of the channel that events under `handle` go to: the
    /// one kept under that handle, `None` where no source is registered
    /// under it.
    pub fn channel_for(&self, handle: i32) -> (channel: Option<
        &tokio::sync::mpsc::UnboundedSender<FileEvent>,
    >)
        ensures
            match channel {
                Some(sender) => self@.contains_key(handle) && *sender == self.senders()[handle],
                None => !self@.contains_key(handle),
            },
    {
        match self.watches.get(&handle) {
            Some(watch) => Some(&watch.sender),
            None => None,
        }
    }

    /// Whether a source is registered under `handle`.
    pub fn contains(&self, handle: i32) -> (found: bool)
        ensures
            found == self@.contains_key(handle),
    {
        self.watches.contains_key(&handle)
    }

    /// Registers one configured source. Its event channel is made and the
    /// receiving end handed back under the source's name. With a watch
    /// handle, the handle stands for the source from now on; without one,
    /// the table stays as it is and nothing will ever come through the
    /// channel.
    pub fn add_source(&mut self, source: &DirectorySource, watch: Option<i32>) -> (registration:
        Source)
        ensures
            registration.name@ == source.name@,
            final(self)@ == match watch {
                Some(handle) => old(self)@.insert(handle, watched(source)),
                None => old(self)@,
            },
            match watch {
                Some(handle) => exists|sender: tokio::sync::mpsc::UnboundedSender<FileEvent>|
                    final(self).senders() == #[trigger] old(self).senders().insert(handle, sender),
                None => final(self).senders() == old(self).senders(),
            },
    {
        let (sender, receiver) = event_channel();
        match watch {
            Some(handle) => {
                let ghost kept = sender;
                let entry = Watch { source: source.clone(), sender };
                self.watches.insert(handle, entry);
                assert(final(self)@ =~= old(self)@.insert(handle, watched(source)));
                assert(final(self).senders() =~= old(self).senders().insert(handle, kept));
            },
            None => {},
        }
        Source { name: source.name.clone(), receiver }
    }

    /// Resolves a change notification to the watch kept under its handle
    /// and the event it stands for.
    fn resolve(&self, handle: i32, name: Option<&str>, file_id: i64) -> (result: Result<
        (&Watch, FileEvent),
        WatchError,
    >)
        ensures
            match result {
                Ok((watch, event)) => {
                    &&& decoded(self@, handle, option_text(name), file_id as int) == Ok::<
                        FileEventView,
                        WatchErrorView,
                    >(event@)
                    &&& self.senders().contains_key(handle)
                    &&& watch.sender == self.senders()[handle]
                },
                Err(e) => decoded(self@, handle, option_text(name), file_id as int) == Err::<
                    FileEventView,
                    WatchErrorView,
                >(e@),
            },
    {
        match name {
            None => Err(WatchError::MissingName),
            Some(file_name) => match self.watches.get(&handle) {
                None => Err(WatchError::UnknownWatch(handle)),
                Some(watch) => {
                    let path = join(watch.source.directory.as_str(), file_name);
                    Ok((watch, source_event(&watch.source, file_id, path)))
                },
            },
        }
    }

    /// Decodes a change notification: the event for the file `name` in the
    /// directory watched under `handle`.
    pub fn decode_notification(&self, handle: i32, name: Option<&str>, file_id: i64) -> (result:
        Result<FileEvent, WatchError>)
        ensures
            decoded_view(result) == decoded(self@, handle, option_text(name), file_id as int),
    {
        match self.resolve(handle, name, file_id) {
            Ok((_, event)) => Ok(event),
            Err(e) => Err(e),
        }
    }

    /// Handles a change notification: decodes it and sends the event on the
    /// channel of the source registered under `handle`, which is the channel
    /// that [`WatchTable::channel_for`] gives for the handle, and on no
    /// other, without waiting. A notification that does not decode is refused
    /// with the decoding error and nothing is sent. Whether a decoded event
    /// is taken, the channel's receiving end decides: the event is delivered,
    /// or it comes back as [`WatchError::SendFailed`].
    pub fn notify(&self, handle: i32, name: Option<&str>, file_id: i64) -> (result: Result<
        (),
        WatchError,
    >)
        ensures
            match decoded(self@, handle, option_text(name), file_id as int) {
                Ok(event) => result is Ok || (result matches Err(e) && e@
                    == WatchErrorView::SendFailed(event)),
                Err(refusal) => result matches Err(e) && e@ == refusal,
            },
    {
        match self.resolve(handle, name, file_id) {
            Ok((watch, event)) => delivery_outcome(send_event(&watch.sender, event)),
            Err(e) => Err(e),
        }
    }
}

/// Registers the configured directory sources, in their order. `watches`
/// holds for each source the handle of its kernel watch, or `None` where the
/// watch could not be set up: that source is left out of the table, the
/// others are registered all the same. Every source, watched or not, gets a
/// registration under its name, in the configured order.
pub fn register_directory_sources(sources: &Vec<DirectorySource>, watches: &Vec<Option<i32>>) -> (started:
    (WatchTable, Vec<Source>))
    ensures
        started.0@ == registered(sources@, watches@, sources.len() as int),
        started.0.senders().dom() == registered(sources@, watches@, sources.len() as int).dom(),
        started.1.len() == sources.len(),
        forall|i: int| 0 <= i < sources.len() ==> (#[trigger] started.1[i]).name@ == sources[i].name@,
{
    let mut table = WatchTable::new();
    let mut registrations: Vec<Source> = Vec::new();
    let mut i: usize = 0;
    while i < sources.len()
        invariant
            i <= sources.len(),
            table@ == registered(sources@, watches@, i as int),
            registrations.len() == i,
            forall|j: int| 0 <= j < i ==> (#[trigger] registrations[j]).name@ == sources[j].name@,
        decreases sources.len() - i,
    {
        let watch = if i < watches.len() {
            watches[i]
        } else {
            None
        };
        let registration = table.add_source(&sources[i], watch);
        registrations.push(registration);
        i = i + 1;
    }
    proof {
        table.lemma_every_watch_has_a_sender();
    }
    (table, registrations)
}

} // verus!
