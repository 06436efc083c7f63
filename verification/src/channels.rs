//! The channels between the engine's threads: unbounded `tokio` channels for
//! file events, and the bounded `crossbeam` channel for download commands.

use vstd::prelude::*;
use crate::event::FileEvent;
use crate::sftp_scanner::SftpDownload;

verus! {

/// `tokio::sync::mpsc::UnboundedSender`, carried as an opaque value.
#[verifier::external_type_specification]
#[verifier::external_body]
#[verifier::reject_recursive_types(T)]
pub struct ExUnboundedSender<T>(tokio::sync::mpsc::UnboundedSender<T>);

/// `tokio::sync::mpsc::UnboundedReceiver`, carried as an opaque value.
#[verifier::external_type_specification]
#[verifier::external_body]
#[verifier::reject_recursive_types(T)]
pub struct ExUnboundedReceiver<T>(tokio::sync::mpsc::UnboundedReceiver<T>);

/// `crossbeam_channel::Sender`, carried as an opaque value.
#[verifier::external_type_specification]
#[verifier::external_body]
#[verifier::reject_recursive_types(T)]
pub struct ExCommandSender<T>(crossbeam_channel::Sender<T>);

/// `crossbeam_channel::Receiver`, carried as an opaque value.
#[verifier::external_type_specification]
#[verifier::external_body]
#[verifier::reject_recursive_types(T)]
pub struct ExCommandReceiver<T>(crossbeam_channel::Receiver<T>);

/// Calls `tokio::sync::mpsc::unbounded_channel`. Nothing is claimed of the two
/// ends.
#[verifier::external_body]
pub(crate) fn event_channel() -> (ends: (
    tokio::sync::mpsc::UnboundedSender<FileEvent>,
    tokio::sync::mpsc::UnboundedReceiver<FileEvent>,
)) {
    tokio::sync::mpsc::unbounded_channel()
}

/// Calls `tokio::sync::mpsc::UnboundedSender::send`, which never waits.
/// Whether the event is taken depends on the receiving end; trusted is only
/// that a refused event is the one handed in, given back.
#[verifier::external_body]
pub(crate) fn send_event(
    sender: &tokio::sync::mpsc::UnboundedSender<FileEvent>,
    event: FileEvent,
) -> (sent: Result<(), FileEvent>)
    ensures
        sent matches Err(refused) ==> refused@ == event@,
{
    match sender.send(event) {
        Ok(()) => Ok(()),
        Err(tokio::sync::mpsc::error::SendError(refused)) => Err(refused),
    }
}

/// The number of commands that the command channel holds at most.
pub const COMMAND_CHANNEL_CAPACITY: usize = 4096;

/// The capacity that a command channel was made with, as
/// `crossbeam_channel::Sender::capacity` reports it.
pub uninterp spec fn command_capacity(sender: crossbeam_channel::Sender<SftpDownload>) -> Option<
    usize,
>;

/// Why the command channel did not take a command. Either way the command
/// comes back.
#[derive(Debug, PartialEq, Eq)]
pub enum SubmitError {
    /// The channel holds as many commands as it can.
    Full(SftpDownload),
    /// The receiving end is gone.
    Disconnected(SftpDownload),
}

impl SubmitError {
    /// The command that was not taken.
    pub open spec fn command(&self) -> SftpDownload {
        match self {
            SubmitError::Full(command) => *command,
            SubmitError::Disconnected(command) => *command,
        }
    }
}

/// Calls `crossbeam_channel::bounded`. Trusted: the channel reports the
/// capacity it was made with. The call panics on a capacity too large to
/// allocate, which the bound rules out.
#[verifier::external_body]
fn bounded_channel(capacity: usize) -> (ends: (
    crossbeam_channel::Sender<SftpDownload>,
    crossbeam_channel::Receiver<SftpDownload>,
))
    requires
        capacity <= COMMAND_CHANNEL_CAPACITY,
    ensures
        command_capacity(ends.0) == Some(capacity),
{
    crossbeam_channel::bounded(capacity)
}

/// Calls `crossbeam_channel::Sender::capacity`.
#[verifier::external_body]
fn sender_capacity(sender: &crossbeam_channel::Sender<SftpDownload>) -> (capacity: Option<usize>)
    ensures
        capacity == command_capacity(*sender),
{
    sender.capacity()
}

/// Calls `crossbeam_channel::Sender::try_send`, which never waits. Whether
/// the command is taken depends on what the channel holds and on its
/// receiving end; trusted is only that a refused command is the one handed in,
/// given back.
#[verifier::external_body]
fn try_send_command(sender: &crossbeam_channel::Sender<SftpDownload>, command: SftpDownload) -> (sent:
    Result<(), SubmitError>)
    ensures
        sent matches Err(e) ==> e.command()@ == command@,
{
    match sender.try_send(command) {
        Ok(()) => Ok(()),
        Err(crossbeam_channel::TrySendError::Full(refused)) => Err(SubmitError::Full(refused)),
        Err(crossbeam_channel::TrySendError::Disconnected(refused)) => Err(
            SubmitError::Disconnected(refused),
        ),
    }
}

/// Makes the channel that carries download commands from the scan threads
/// to the queue bridge, bounded at [`COMMAND_CHANNEL_CAPACITY`].
pub fn command_channel() -> (ends: (
    crossbeam_channel::Sender<SftpDownload>,
    crossbeam_channel::Receiver<SftpDownload>,
))
    ensures
        command_capacity(ends.0) == Some(COMMAND_CHANNEL_CAPACITY),
{
    bounded_channel(COMMAND_CHANNEL_CAPACITY)
}

/// The capacity that the command channel behind `sender` was made with.
pub fn capacity_of(sender: &crossbeam_channel::Sender<SftpDownload>) -> (capacity: Option<usize>)
    ensures
        capacity == command_capacity(*sender),
{
    sender_capacity(sender)
}

/// Offers `command` to the command channel without waiting. On refusal the
/// command comes back with the reason; what the scan cycle is told is whether
/// the command was taken.
pub fn submit_command(sender: &crossbeam_channel::Sender<SftpDownload>, command: SftpDownload) -> (sent:
    Result<(), SubmitError>)
    ensures
        sent matches Err(e) ==> e.command()@ == command@,
{
    try_send_command(sender, command)
}

} // verus!
