use vstd::prelude::*;
use crate::errors::{ErrorKind, StatusCode};

verus! {

/// A container operation as the command-line client phrases it.
#[derive(Debug, PartialEq, Eq)]
pub enum ContainerCommand {
    CreateContainer { image: String, command: Vec<String> },
    RunContainer { uuid: String },
    KillContainer { uuid: String },
    StateContainer { uuid: String },
    DeleteContainer { uuid: String },
}

/// The errors of the VM service surface.
#[derive(Debug, PartialEq, Eq)]
pub enum VmServiceError {
    /// The hypervisor supervisor failed.
    Vmm(String),
    /// The record store failed; the flag says whether the record was
    /// simply not found.
    Persistence { not_found: bool, detail: String },
    /// The image store could not serve the request.
    ImageService(String),
    /// The caller's arguments were rejected.
    InvalidArgument(String),
    /// A VM with the given id already exists.
    AlreadyExists(String),
}

impl VmServiceError {
    /// The structured RPC status code of this error: a missing record is
    /// `NotFound`, other persistence or hypervisor failures are internal,
    /// an unreachable image store is `Unavailable`, and argument or
    /// uniqueness violations keep their own codes.
    pub fn status_code(&self) -> (r: StatusCode)
        ensures
            self matches VmServiceError::Vmm(_) ==> r == StatusCode::Internal,
            self matches VmServiceError::Persistence { not_found: true, .. } ==> r
                == StatusCode::NotFound,
            self matches VmServiceError::Persistence { not_found: false, .. } ==> r
                == StatusCode::Internal,
            self matches VmServiceError::ImageService(_) ==> r == StatusCode::Unavailable,
            self matches VmServiceError::InvalidArgument(_) ==> r == StatusCode::InvalidArgument,
            self matches VmServiceError::AlreadyExists(_) ==> r == StatusCode::AlreadyExists,
    {
        match self {
            VmServiceError::Vmm(_) => StatusCode::Internal,
            VmServiceError::Persistence { not_found, .. } => {
                if *not_found {
                    StatusCode::NotFound
                } else {
                    StatusCode::Internal
                }
            },
            VmServiceError::ImageService(_) => StatusCode::Unavailable,
            VmServiceError::InvalidArgument(_) => StatusCode::InvalidArgument,
            VmServiceError::AlreadyExists(_) => StatusCode::AlreadyExists,
        }
    }
}

/// The capacity of a dispatcher's command channel.
pub const COMMAND_CHANNEL_CAPACITY: usize = 32;

/// The capacity of one event subscriber's mailbox; past it the
/// subscriber is dropped, never the publisher.
pub const SUBSCRIBER_MAILBOX_CAPACITY: usize = 64;

/// A dispatcher's bounded command channel: two FIFO lanes of command
/// tickets, where lifecycle commands (shutdown, kill, delete) preempt
/// info commands (get, ping) whenever both are ready.
pub struct CommandChannel {
    pub lifecycle: Vec<u64>,
    pub info: Vec<u64>,
}

impl CommandChannel {
    /// How many commands are queued over both lanes.
    pub open spec fn queued(self) -> nat {
        self.lifecycle@.len() + self.info@.len()
    }

    /// The channel never holds more than its capacity.
    pub open spec fn wf(self) -> bool {
        self.queued() <= COMMAND_CHANNEL_CAPACITY
    }

    /// An empty channel.
    pub fn new() -> (r: CommandChannel)
        ensures
            r.wf(),
            r.lifecycle@ =~= Seq::<u64>::empty(),
            r.info@ =~= Seq::<u64>::empty(),
    {
        CommandChannel { lifecycle: Vec::new(), info: Vec::new() }
    }

    /// Offers one command to the channel; a full channel refuses it with
    /// `Busy` and keeps everything as it was.
    pub fn offer(&mut self, ticket: u64, lifecycle: bool) -> (r: Result<(), ErrorKind>)
        requires
            old(self).wf(),
        ensures
            final(self).wf(),
            old(self).queued() == COMMAND_CHANNEL_CAPACITY ==> r == Err::<(), ErrorKind>(
                ErrorKind::Busy,
            ) && final(self).lifecycle@ == old(self).lifecycle@ && final(self).info@ == old(self).info@,
            old(self).queued() < COMMAND_CHANNEL_CAPACITY ==> r == Ok::<(), ErrorKind>(()) && (
            if lifecycle {
                final(self).lifecycle@ == old(self).lifecycle@.push(ticket) && final(self).info@
                    == old(self).info@
            } else {
                final(self).info@ == old(self).info@.push(ticket) && final(self).lifecycle@ == old(self).lifecycle@
            }),
    {
        if self.lifecycle.len() + self.info.len() >= COMMAND_CHANNEL_CAPACITY {
            return Err(ErrorKind::Busy);
        }
        if lifecycle {
            self.lifecycle.push(ticket);
        } else {
            self.info.push(ticket);
        }
        Ok(())
    }

    /// Takes the next command: the oldest lifecycle command when one is
    /// ready, otherwise the oldest info command, otherwise nothing.
    pub fn take(&mut self) -> (r: Option<u64>)
        requires
            old(self).wf(),
        ensures
            final(self).wf(),
            old(self).lifecycle@.len() > 0 ==> r == Some(old(self).lifecycle@[0]) && final(self).lifecycle@ == old(self).lifecycle@.subrange(
                1,
                old(self).lifecycle@.len() as int,
            ) && final(self).info@ == old(self).info@,
            old(self).lifecycle@.len() == 0 && old(self).info@.len() > 0 ==> r == Some(
                old(self).info@[0],
            ) && final(self).info@ == old(self).info@.subrange(1, old(self).info@.len() as int)
                && final(self).lifecycle@ == old(self).lifecycle@,
            old(self).queued() == 0 ==> r is None && final(self).lifecycle@ == old(self).lifecycle@ && final(self).info@ == old(self).info@,
    {
        if self.lifecycle.len() > 0 {
            let t = self.lifecycle.remove(0);
            return Some(t);
        }
        if self.info.len() > 0 {
            let t = self.info.remove(0);
            return Some(t);
        }
        None
    }
}

} // verus!
