//! The monitor: one open handle, tagged with the kind of its source.

use vstd::prelude::*;
use crate::setup::Armed;
use crate::source::SourceKind;
use crate::wait::{Engine, Wait};

verus! {

/// The handle of an open pressure source, tagged with the kind of the
/// source. The tag is set when the handle is wrapped and cannot change.
///
/// `H` is whatever owns the kernel handle. The library never looks at it:
/// it keeps it, lends it and gives it up as a whole, so the handle is
/// closed when, and only when, its one owner goes.
#[derive(Debug)]
pub enum MonitorType<H> {
    /// A regular file.
    File(H),
    /// A named pipe.
    Fifo(H),
    /// A connected Unix stream socket.
    Socket(H),
}

impl<H> MonitorType<H> {
    /// The kind this handle is tagged with.
    pub open spec fn kind_of(self) -> SourceKind {
        match self {
            MonitorType::File(_) => SourceKind::RegularFile,
            MonitorType::Fifo(_) => SourceKind::NamedPipe,
            MonitorType::Socket(_) => SourceKind::StreamSocket,
        }
    }

    /// The handle inside.
    pub open spec fn fd_of(self) -> H {
        match self {
            MonitorType::File(fd) => fd,
            MonitorType::Fifo(fd) => fd,
            MonitorType::Socket(fd) => fd,
        }
    }

    /// Tags a handle with the kind of its source.
    pub fn new(kind: SourceKind, fd: H) -> (tagged: Self)
        ensures
            tagged.kind_of() == kind,
            tagged.fd_of() == fd,
    {
        match kind {
            SourceKind::RegularFile => MonitorType::File(fd),
            SourceKind::NamedPipe => MonitorType::Fifo(fd),
            SourceKind::StreamSocket => MonitorType::Socket(fd),
        }
    }

    /// The kind this handle is tagged with.
    pub fn kind(&self) -> (kind: SourceKind)
        ensures
            kind == self.kind_of(),
    {
        match self {
            MonitorType::File(_) => SourceKind::RegularFile,
            MonitorType::Fifo(_) => SourceKind::NamedPipe,
            MonitorType::Socket(_) => SourceKind::StreamSocket,
        }
    }

    /// Lends the handle, whatever the kind.
    pub fn as_fd(&self) -> (fd: &H)
        ensures
            *fd == self.fd_of(),
    {
        match self {
            MonitorType::File(fd) => fd,
            MonitorType::Fifo(fd) => fd,
            MonitorType::Socket(fd) => fd,
        }
    }
}

/// A pressure monitor: the handle of one opened and armed source, and the
/// engine that waits on it.
///
/// A monitor serves one waiter at a time. Nothing in a wait changes the
/// monitor, so a wait that is given up half-way leaves it as it was.
#[derive(Debug)]
pub struct PressureMonitor<H> {
    pressure_file: MonitorType<H>,
    engine: Engine,
}

impl<H> PressureMonitor<H> {
    /// The tagged handle of the monitor.
    pub closed spec fn source(self) -> MonitorType<H> {
        self.pressure_file
    }

    /// The engine of the monitor.
    pub closed spec fn engine_of(self) -> Engine {
        self.engine
    }

    /// Makes a monitor of the handle of the source that a finished setup
    /// has opened and armed, for a waiter that uses `engine`. The handle is
    /// tagged with the kind that the setup found.
    pub fn new(armed: Armed, fd: H, engine: Engine) -> (monitor: Self)
        ensures
            monitor.source().kind_of() == armed.kind_of(),
            monitor.source().fd_of() == fd,
            monitor.engine_of() == engine,
    {
        PressureMonitor { pressure_file: MonitorType::new(armed.kind(), fd), engine }
    }

    /// The kind of the source.
    pub fn kind(&self) -> (kind: SourceKind)
        ensures
            kind == self.source().kind_of(),
    {
        self.pressure_file.kind()
    }

    /// The engine that waits on the source.
    pub fn engine(&self) -> (engine: Engine)
        ensures
            engine == self.engine_of(),
    {
        self.engine
    }

    /// Lends the handle, to perform an action of a wait on it.
    pub fn as_fd(&self) -> (fd: &H)
        ensures
            *fd == self.source().fd_of(),
    {
        self.pressure_file.as_fd()
    }

    /// Starts a wait for one pressure event.
    ///
    /// The wait that comes back depends on the kind of the source and on
    /// the engine alone, not on any wait before it.
    pub fn wait(&self) -> (wait: Wait)
        ensures
            wait == Wait::begun(self.source().kind_of(), self.engine_of()),
    {
        Wait::begin(self.pressure_file.kind(), self.engine)
    }
}

} // verus!
