//! An actor library: actors own a mailbox, are addressed through `Pid`s,
//! run the jobs their mailbox delivers, stop on request, and can have
//! streams forwarded into them.
//!
//! This crate holds the runtime's bookkeeping and decisions: how a job or a
//! stop request reaches a mailbox and what the sender is told, what the run
//! loop does with each event, which stream listeners an actor owns, how a
//! stream is forwarded, and who is subscribed to a broadcast registry. The
//! asynchronous driver that awaits mailboxes and runs jobs sits beside it.
pub mod callback;
pub mod context;
pub mod error;
pub mod listeners;
pub mod mailbox;
pub mod message;
pub mod pid;
pub mod pump;
pub mod registry;

pub use callback::{CallFn, CallJobFor, Caller, JobFor, SendFn, Sender};
pub use context::{Context, LoopStep};
pub use error::{ActorError, Delivery};
pub use mailbox::{ExitSignal, MailboxReceiver, WeakMailbox};
pub use message::{ActorEvent, Message};
pub use pid::{Pid, WeakPid};
pub use pump::{ListenerPump, PumpAction, PumpEvent, PumpStage};
pub use registry::{Connect, Disconnect, Publish, Registry, ServiceRegistry};
