//! What a host process sees: an executor that is made for a port, connected,
//! and then asked to move an axis or to scan.

use vstd::prelude::*;
use vstd::string::*;
use crate::arcus_driver::{absolute_move, frame, ArcusController, PortSettings, READ_TIMEOUT_MS};
use crate::decimal::{decimal, push_decimal, push_digits, digits};
use crate::error::ArcusError;
use crate::scan::{Phase, ScanCoordinator, ScanState};

verus! {

/// A failure as the host is told of it.
#[derive(Debug, Clone, PartialEq, Eq)]
pub enum HostError {
    /// A driver operation failed; holds the rendered driver error.
    Io(String),
    /// The operation was asked for before a connection was made.
    NotConnected,
}

impl HostError {
    /// The text that describes this failure to the host.
    pub open spec fn text(self) -> Seq<char> {
        match self {
            HostError::Io(rendered) => rendered@,
            HostError::NotConnected => "Not connected"@,
        }
    }

    /// Renders this failure for the host.
    pub fn message(&self) -> (rendered: String)
        ensures
            rendered@ == self.text(),
    {
        match self {
            HostError::Io(rendered) => rendered.clone(),
            HostError::NotConnected => String::from_str("Not connected"),
        }
    }

    /// The failure that the host is told of when the driver fails with `e`.
    pub fn from_driver(e: &ArcusError) -> (failure: HostError)
        ensures
            failure matches HostError::Io(rendered) && rendered@ == e.text(),
    {
        HostError::Io(e.message())
    }
}

/// What the host is told after a connection was made.
pub open spec fn connected_text(port_name: Seq<char>, baud_rate: u32) -> Seq<char> {
    "Connected to "@ + port_name + " at "@ + digits(baud_rate as nat)
}

/// What the host is told after a move was sent.
pub open spec fn moved_text(axis: char, position: i32) -> Seq<char> {
    "Moved "@ + seq![axis] + " to "@ + decimal(position as int)
}

/// The host's handle on one stage: the port it was made for and, once
/// connected, the controller behind it.
pub struct ScanExecutor {
    port_name: String,
    baud_rate: u32,
    controller: Option<ArcusController>,
}

impl ScanExecutor {
    /// The name of the port that this executor was made for.
    pub closed spec fn port_name(&self) -> Seq<char> {
        self.port_name@
    }

    /// The baud rate that this executor was made for.
    pub closed spec fn baud_rate(&self) -> u32 {
        self.baud_rate
    }

    /// The controller, once a connection was made.
    pub closed spec fn controller(&self) -> Option<ArcusController> {
        self.controller
    }

    /// Whether a connection was made.
    pub open spec fn is_connected(&self) -> bool {
        self.controller() is Some
    }

    /// An executor for the port `port_name` at `baud_rate`, not yet
    /// connected.
    pub fn new(port_name: String, baud_rate: u32) -> (executor: ScanExecutor)
        ensures
            executor.port_name() == port_name@,
            executor.baud_rate() == baud_rate,
            !executor.is_connected(),
    {
        ScanExecutor { port_name, baud_rate, controller: None }
    }

    /// The settings with which the port is opened.
    pub fn port_settings(&self) -> (settings: PortSettings)
        ensures
            settings.port_name@ == self.port_name(),
            settings.baud_rate == self.baud_rate(),
            settings.timeout_ms == READ_TIMEOUT_MS,
    {
        ArcusController::port_settings(self.port_name.as_str(), self.baud_rate)
    }

    /// Whether a connection was made.
    pub fn connected(&self) -> (r: bool)
        ensures
            r == self.is_connected(),
    {
        self.controller.is_some()
    }

    /// Takes up the connection; `opened` is what opening the port gave.  A
    /// failure leaves the executor as it was.
    pub fn connect(&mut self, opened: Result<(), String>) -> (r: Result<String, HostError>)
        ensures
            final(self).port_name() == old(self).port_name(),
            final(self).baud_rate() == old(self).baud_rate(),
            match opened {
                Ok(_) => {
                    &&& final(self).controller() matches Some(controller)
                    &&& controller.gathered().len() == 0
                    &&& r matches Ok(told)
                    &&& told@ == connected_text(old(self).port_name(), old(self).baud_rate())
                },
                Err(description) => {
                    &&& final(self).controller() == old(self).controller()
                    &&& r matches Err(failure)
                    &&& failure.text() == ArcusError::Serial(description).text()
                    &&& failure is Io
                },
            },
    {
        match ArcusController::connect(self.port_name.as_str(), self.baud_rate, opened) {
            Ok(controller) => {
                self.controller = Some(controller);
                let mut told = String::from_str("Connected to ");
                told.append(self.port_name.as_str());
                told.append(" at ");
                push_digits(&mut told, self.baud_rate as u64);
                Ok(told)
            },
            Err(e) => Err(HostError::from_driver(&e)),
        }
    }

    /// The controller, for the exchanges of an operation, or the usage
    /// failure where no connection was made.
    pub fn driver(&mut self) -> (r: Result<&mut ArcusController, HostError>)
        ensures
            final(self).port_name() == old(self).port_name(),
            final(self).baud_rate() == old(self).baud_rate(),
            match r {
                Ok(controller) => {
                    &&& old(self).controller() == Some(*controller)
                    &&& final(self).controller() == Some(*final(controller))
                },
                Err(failure) => {
                    &&& failure == HostError::NotConnected
                    &&& !old(self).is_connected()
                    &&& final(self).controller() == old(self).controller()
                },
            },
    {
        match &mut self.controller {
            Some(controller) => Ok(controller),
            None => Err(HostError::NotConnected),
        }
    }

    /// The bytes to transmit to move `axis` to the absolute `position`, or
    /// the usage failure where no connection was made.
    pub fn move_axis(&mut self, axis: char, position: i32) -> (r: Result<Vec<u8>, HostError>)
        ensures
            *final(self) == *old(self),
            match r {
                Ok(bytes) => old(self).is_connected() && bytes@ == frame(
                    absolute_move(axis, position as int),
                ),
                Err(failure) => !old(self).is_connected() && failure == HostError::NotConnected,
            },
    {
        match &self.controller {
            Some(controller) => Ok(controller.move_to(axis, position)),
            None => Err(HostError::NotConnected),
        }
    }

    /// What the host is told of a move; `sent` is what transmitting its
    /// bytes gave.
    pub fn moved(axis: char, position: i32, sent: Result<(), ArcusError>) -> (r: Result<
        String,
        HostError,
    >)
        ensures
            match sent {
                Ok(_) => r matches Ok(told) && told@ == moved_text(axis, position),
                Err(e) => r matches Err(failure) && failure is Io && failure.text() == e.text(),
            },
    {
        match sent {
            Ok(_) => {
                let mut told = String::from_str("Moved ");
                told.push(axis);
                told.append(" to ");
                push_decimal(&mut told, position as i64);
                Ok(told)
            },
            Err(e) => Err(HostError::from_driver(&e)),
        }
    }

    /// Starts a scan from `x_min` to `x_max` inclusive in increments of
    /// `step`, or gives the usage failure where no connection was made.
    pub fn start_scan(&mut self, x_min: i32, x_max: i32, step: i32) -> (r: Result<
        ScanCoordinator,
        HostError,
    >)
        ensures
            *final(self) == *old(self),
            match r {
                Ok(scan) => {
                    &&& old(self).is_connected()
                    &&& scan@ == ScanState::start(x_min as int, x_max as int, step as int)
                    &&& scan@.wf()
                },
                Err(failure) => !old(self).is_connected() && failure == HostError::NotConnected,
            },
    {
        match &self.controller {
            Some(_) => Ok(ScanCoordinator::start_scan(x_min, x_max, step)),
            None => Err(HostError::NotConnected),
        }
    }

    /// What the host is told of a scan that is over: the recorded pairs of a
    /// complete scan, or the failure for which it was given up.  `None`
    /// while the scan is still under way.
    pub fn scan_outcome(scan: ScanCoordinator) -> (r: Option<Result<Vec<(i32, i32)>, HostError>>)
        ensures
            scan@.wf(),
            match scan@.phase {
                Phase::Finished => r matches Some(Ok(pairs)) && pairs@ == scan@.results,
                Phase::Failed(e) => r matches Some(Err(failure)) && failure is Io
                    && failure.text() == e.text(),
                _ => r is None,
            },
    {
        match scan.failure() {
            Some(e) => Some(Err(HostError::from_driver(&e))),
            None => match scan.into_results() {
                Some(pairs) => Some(Ok(pairs)),
                None => None,
            },
        }
    }
}

} // verus!
