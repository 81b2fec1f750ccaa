//! The values that travel on the status channel: which container an event is
//! about, and what that container's lifecycle status has become.

use vstd::prelude::*;

verus! {

/// An instant on the UTC time line: whole seconds since the Unix epoch and the
/// nanoseconds into that second.
#[derive(Clone, Copy, Debug, PartialEq, Eq, Structural)]
pub struct Timestamp {
    pub seconds: i64,
    pub nanos: u32,
}

/// Identifies a container within a pod, and says whether it is one of the
/// pod's application containers or an auxiliary init container.
#[derive(Debug, PartialEq, Eq)]
pub enum ContainerKey {
    /// An init container with the given name.
    Init(String),
    /// An application container with the given name.
    App(String),
}

/// Mathematical value of a [`ContainerKey`].
pub enum ContainerKeyView {
    Init(Seq<char>),
    App(Seq<char>),
}

impl View for ContainerKey {
    type V = ContainerKeyView;

    open spec fn view(&self) -> ContainerKeyView {
        match self {
            ContainerKey::Init(name) => ContainerKeyView::Init(name@),
            ContainerKey::App(name) => ContainerKeyView::App(name@),
        }
    }
}

impl ContainerKeyView {
    /// The container's name, whichever kind of container it is.
    pub open spec fn name(self) -> Seq<char> {
        match self {
            ContainerKeyView::Init(name) => name,
            ContainerKeyView::App(name) => name,
        }
    }
}

impl Clone for ContainerKey {
    fn clone(&self) -> (copy: Self)
        ensures
            copy == *self,
    {
        match self {
            ContainerKey::Init(name) => ContainerKey::Init(name.clone()),
            ContainerKey::App(name) => ContainerKey::App(name.clone()),
        }
    }
}

impl ContainerKey {
    /// The container's name.
    pub fn name(&self) -> (name: &String)
        ensures
            name@ == self@.name(),
    {
        match self {
            ContainerKey::Init(name) => name,
            ContainerKey::App(name) => name,
        }
    }

    /// Whether the key names an application container.
    pub fn is_app(&self) -> (app: bool)
        ensures
            app == (self@ is App),
    {
        match self {
            ContainerKey::Init(_) => false,
            ContainerKey::App(_) => true,
        }
    }

    /// Whether the key names an init container.
    pub fn is_init(&self) -> (init: bool)
        ensures
            init == (self@ is Init),
    {
        match self {
            ContainerKey::Init(_) => true,
            ContainerKey::App(_) => false,
        }
    }
}

/// Lifecycle status of one container.
#[derive(Debug, PartialEq, Eq)]
pub enum Status {
    /// The container has not started yet.
    Waiting {
        /// When this status was reported.
        timestamp: Timestamp,
        /// Why the container is waiting.
        message: String,
    },
    /// The container is running.
    Running {
        /// When this status was reported.
        timestamp: Timestamp,
    },
    /// The container has stopped.
    Terminated {
        /// When the container stopped.
        timestamp: Timestamp,
        /// Why the container stopped.
        message: String,
        /// Whether it stopped with an error.
        failed: bool,
    },
}

/// Mathematical value of a [`Status`].
pub enum StatusView {
    Waiting { timestamp: Timestamp, message: Seq<char> },
    Running { timestamp: Timestamp },
    Terminated { timestamp: Timestamp, message: Seq<char>, failed: bool },
}

impl View for Status {
    type V = StatusView;

    open spec fn view(&self) -> StatusView {
        match self {
            Status::Waiting { timestamp, message } => StatusView::Waiting {
                timestamp: *timestamp,
                message: message@,
            },
            Status::Running { timestamp } => StatusView::Running { timestamp: *timestamp },
            Status::Terminated { timestamp, message, failed } => StatusView::Terminated {
                timestamp: *timestamp,
                message: message@,
                failed: *failed,
            },
        }
    }
}

impl StatusView {
    /// A terminal status: the container has stopped, well or badly.
    pub open spec fn is_terminal(self) -> bool {
        self is Terminated
    }

    /// The container stopped without an error.
    pub open spec fn is_success(self) -> bool {
        self matches StatusView::Terminated { failed, .. } && !failed
    }

    /// The container stopped with an error.
    pub open spec fn is_failure(self) -> bool {
        self matches StatusView::Terminated { failed, .. } && failed
    }

    /// The message that the status carries; a running container carries none.
    pub open spec fn message(self) -> Seq<char> {
        match self {
            StatusView::Waiting { message, .. } => message,
            StatusView::Running { .. } => Seq::empty(),
            StatusView::Terminated { message, .. } => message,
        }
    }
}

impl Clone for Status {
    fn clone(&self) -> (copy: Self)
        ensures
            copy == *self,
    {
        match self {
            Status::Waiting { timestamp, message } => Status::Waiting {
                timestamp: *timestamp,
                message: message.clone(),
            },
            Status::Running { timestamp } => Status::Running { timestamp: *timestamp },
            Status::Terminated { timestamp, message, failed } => Status::Terminated {
                timestamp: *timestamp,
                message: message.clone(),
                failed: *failed,
            },
        }
    }
}

impl Status {
    /// Whether the status is terminal.
    pub fn is_terminal(&self) -> (terminal: bool)
        ensures
            terminal == self@.is_terminal(),
    {
        match self {
            Status::Terminated { .. } => true,
            _ => false,
        }
    }
}

/// One item of the status channel: the name of an application container and
/// the status it has just entered.
#[derive(Debug, PartialEq, Eq)]
pub struct StatusEvent {
    pub name: String,
    pub status: Status,
}

/// Mathematical value of a [`StatusEvent`].
pub struct StatusEventView {
    pub name: Seq<char>,
    pub status: StatusView,
}

impl View for StatusEvent {
    type V = StatusEventView;

    open spec fn view(&self) -> StatusEventView {
        StatusEventView { name: self.name@, status: self.status@ }
    }
}

impl Clone for StatusEvent {
    fn clone(&self) -> (copy: Self)
        ensures
            copy == *self,
    {
        StatusEvent { name: self.name.clone(), status: self.status.clone() }
    }
}

} // verus!
