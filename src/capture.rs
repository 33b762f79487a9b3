use vstd::prelude::*;
use vstd::string::StringExecFns;
use crate::classify::{analyze_packet, direction_of, display_hex, hex_of, PacketInfo};

verus! {

/// Snapshot length the capture session is opened with.
pub const SNAPSHOT_LEN: i32 = 65535;

/// Why capture could not start.
#[derive(Debug, PartialEq, Eq, Structural)]
pub enum SetupError {
    NoInterfaces,
}

impl SetupError {
    /// A human-readable description of the error.
    pub fn message(&self) -> (r: String)
        ensures
            r@ == "No available network interfaces found."@,
    {
        match self {
            SetupError::NoInterfaces => String::from_str("No available network interfaces found."),
        }
    }
}

/// Picks the interface to capture on: the first one enumerated, or
/// `NoInterfaces` when there is none.
pub fn select_interface<T>(devices: &Vec<T>) -> (r: Result<&T, SetupError>)
    ensures
        devices@.len() == 0 <==> r == Err::<&T, SetupError>(SetupError::NoInterfaces),
        devices@.len() > 0 ==> r == Ok::<&T, SetupError>(&devices@[0]),
{
    if devices.len() == 0 {
        Err(SetupError::NoInterfaces)
    } else {
        Ok(&devices[0])
    }
}

/// What the capture loop does after one pull from the capture session.
#[derive(Debug)]
pub enum CaptureAction {
    /// Emit the record of frame number `number`.
    Report { number: u32, info: PacketInfo },
    /// The session failed: end the loop.
    Stop,
}

/// The capture loop's state: how many frames it has seen, and whether it
/// has stopped.
#[derive(Debug)]
pub struct CaptureLoop {
    pub packet_count: u32,
    pub stopped: bool,
}

impl CaptureLoop {
    /// A loop that has seen no frame.
    pub fn new() -> (r: CaptureLoop)
        ensures
            r.packet_count == 0,
            !r.stopped,
    {
        CaptureLoop { packet_count: 0, stopped: false }
    }

    /// Handles one pull: `Some(frame)` when a frame arrived, `None` when the
    /// session reported an error. A frame advances the counter and yields its
    /// record tagged with the new count; an error, or any pull after one,
    /// stops the loop.
    pub fn on_pull(&mut self, frame: Option<&[u8]>) -> (r: CaptureAction)
        requires
            frame is Some && !old(self).stopped ==> old(self).packet_count < u32::MAX,
        ensures
            match frame {
                Some(data) if !old(self).stopped => {
                    &&& final(self).packet_count == old(self).packet_count + 1
                    &&& !final(self).stopped
                    &&& match r {
                        CaptureAction::Report { number, info } => {
                            &&& number == final(self).packet_count
                            &&& info.direction@ == direction_of(data@)
                            &&& info.hex_data@ == display_hex(hex_of(data@))
                        },
                        CaptureAction::Stop => false,
                    }
                },
                _ => {
                    &&& final(self).packet_count == old(self).packet_count
                    &&& final(self).stopped
                    &&& r is Stop
                },
            },
    {
        if self.stopped {
            return CaptureAction::Stop;
        }
        match frame {
            Some(data) => {
                self.packet_count = self.packet_count + 1;
                let info = analyze_packet(data, self.packet_count);
                CaptureAction::Report { number: self.packet_count, info }
            },
            None => {
                self.stopped = true;
                CaptureAction::Stop
            },
        }
    }
}

} // verus!
