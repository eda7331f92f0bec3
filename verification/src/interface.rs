//! Interface: the configuration a bus was opened with, the outcome of the
//! backend bring-up sequence, and the bookkeeping for the lazily shared
//! notifier's listeners.
//!
//! The foreign steps themselves — importing `python-can`, opening the bus,
//! creating the dispatch loop, adding a listener — are performed by an
//! unverified shell, which reports how far they ran; this module fixes what
//! each report must turn into.

use vstd::prelude::*;

use crate::config::PyCanBusType;
use crate::error::PyCanError;
use crate::message::PyCanMessage;
use crate::message::is_tx_frame;

verus! {

/// How far the bring-up sequence ran.  The three fallible steps are
/// attempted in this order, each only if the previous one succeeded.
pub enum BackendOutcome {
    /// The `python-can` support could not be imported; carries the loader's
    /// report.
    ImportFailed(String),
    /// The import succeeded, but the `Bus` constructor rejected the backend
    /// parameters.
    BusFailed(String),
    /// The bus opened, but the dispatch loop could not be created over it.
    NotifierFailed(String),
    /// All steps succeeded: the bus is open and its dispatch loop runs with
    /// no listeners yet.
    Opened,
}

/// An open CAN interface: the configuration it was opened with, kept
/// unchanged for introspection, and the state of its dispatch loop.
///
/// The dispatch loop is created once, together with the interface and with
/// an empty listener set; later registrations attach to that one loop, so
/// several independent callbacks share a single background consumer of the
/// transport.
#[derive(Debug)]
pub struct PyCanInterface {
    /// The configuration this interface was opened with.
    pub bustype: PyCanBusType,
    /// How many listeners are attached to the shared dispatch loop.
    pub listeners: usize,
}

impl PyCanInterface {
    /// Decides what opening an interface returns, given the configuration
    /// and how far the backend bring-up ran.
    ///
    /// A fully opened backend yields a handle that stores the submitted
    /// configuration and a dispatch loop with no listeners; every partial
    /// outcome yields the error of the step that failed, carrying the
    /// backend's own report — never a usable handle.
    pub fn new(kind: PyCanBusType, outcome: BackendOutcome) -> (r: Result<
        PyCanInterface,
        PyCanError,
    >)
        ensures
            r is Ok <==> outcome is Opened,
            outcome is Opened ==> (r matches Ok(iface) && iface.bustype == kind
                && iface.listeners == 0),
            outcome matches BackendOutcome::ImportFailed(c) ==> (r matches Err(e) && e
                == PyCanError::PythonCanImportFailed(c)),
            outcome matches BackendOutcome::BusFailed(c) ==> (r matches Err(e) && e
                == PyCanError::FailedToCreateInterface(c)),
            outcome matches BackendOutcome::NotifierFailed(c) ==> (r matches Err(e) && e
                == PyCanError::FailedToCreateNotifier(c)),
    {
        match outcome {
            BackendOutcome::ImportFailed(c) => Result::Err(PyCanError::PythonCanImportFailed(c)),
            BackendOutcome::BusFailed(c) => Result::Err(PyCanError::FailedToCreateInterface(c)),
            BackendOutcome::NotifierFailed(c) => Result::Err(PyCanError::FailedToCreateNotifier(c)),
            BackendOutcome::Opened => Result::Ok(PyCanInterface { bustype: kind, listeners: 0 }),
        }
    }

    /// Builds the frame a send call transmits: exactly the submitted
    /// identifier and payload, with the data length code computed from the
    /// payload length.  Writing the frame to the transport is the shell's
    /// step; whatever thread calls this, the frame's fields depend on the
    /// arguments alone.
    pub fn send(&self, id: u32, data: &[u8]) -> (frame: PyCanMessage)
        requires
            data@.len() <= 8,
        ensures
            is_tx_frame(frame, id, data@),
            frame.well_formed(),
    {
        PyCanMessage::new_tx(id, data)
    }

    /// Decides what registering a listener pair returns, given the dispatch
    /// loop's answer to the add-listener step.
    ///
    /// On success the new listener joins the shared loop (its index is the
    /// previous count); on refusal the interface is unchanged and the
    /// listener-registration error carries the loop's report.
    pub fn register_rx_callback(&mut self, registration: Result<(), String>) -> (r: Result<
        (),
        PyCanError,
    >)
        requires
            old(self).listeners < usize::MAX,
        ensures
            r is Ok <==> registration is Ok,
            registration is Ok ==> final(self).listeners == old(self).listeners + 1
                && final(self).bustype == old(self).bustype,
            registration matches Err(c) ==> (r matches Err(e) && e
                == PyCanError::FailedToAddListener(c) && *final(self) == *old(self)),
    {
        match registration {
            Result::Ok(()) => {
                self.listeners = self.listeners + 1;
                Result::Ok(())
            },
            Result::Err(c) => Result::Err(PyCanError::FailedToAddListener(c)),
        }
    }

    /// The convenience form of [`Self::register_rx_callback`] that takes
    /// only a frame callback: the listener it adds observes no dispatch
    /// errors, but joins the shared loop the same way.
    pub fn recv_spawn(&mut self, registration: Result<(), String>) -> (r: Result<(), PyCanError>)
        requires
            old(self).listeners < usize::MAX,
        ensures
            r is Ok <==> registration is Ok,
            registration is Ok ==> final(self).listeners == old(self).listeners + 1
                && final(self).bustype == old(self).bustype,
            registration matches Err(c) ==> (r matches Err(e) && e
                == PyCanError::FailedToAddListener(c) && *final(self) == *old(self)),
    {
        self.register_rx_callback(registration)
    }
}

} // verus!
