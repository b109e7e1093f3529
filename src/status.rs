//! The device's state byte and the six-byte GET_STATUS reply.
use crate::error::Error;
use vstd::prelude::*;

verus! {

/// The states of a DFU device, each bound to the byte that reports it.
#[derive(Debug, Clone, Copy, PartialEq, Eq, Structural)]
pub enum State {
    AppIdle,
    AppDetach,
    DfuIdle,
    DfuDownloadSync,
    DfuDownloadBusy,
    DfuDownloadIdle,
    DfuManifestSync,
    DfuManifest,
    DfuManifestWaitReset,
    DfuUploadIdle,
    DfuError,
    Unknown,
}

/// The byte that reports a state.
pub open spec fn code_of(s: State) -> u8 {
    match s {
        State::AppIdle => 0,
        State::AppDetach => 1,
        State::DfuIdle => 2,
        State::DfuDownloadSync => 3,
        State::DfuDownloadBusy => 4,
        State::DfuDownloadIdle => 5,
        State::DfuManifestSync => 6,
        State::DfuManifest => 7,
        State::DfuManifestWaitReset => 8,
        State::DfuUploadIdle => 9,
        State::DfuError => 10,
        State::Unknown => 255,
    }
}

/// The state that a byte reports; bytes without a state read as `Unknown`.
pub open spec fn state_of(b: u8) -> State {
    if b == 0 {
        State::AppIdle
    } else if b == 1 {
        State::AppDetach
    } else if b == 2 {
        State::DfuIdle
    } else if b == 3 {
        State::DfuDownloadSync
    } else if b == 4 {
        State::DfuDownloadBusy
    } else if b == 5 {
        State::DfuDownloadIdle
    } else if b == 6 {
        State::DfuManifestSync
    } else if b == 7 {
        State::DfuManifest
    } else if b == 8 {
        State::DfuManifestWaitReset
    } else if b == 9 {
        State::DfuUploadIdle
    } else if b == 10 {
        State::DfuError
    } else {
        State::Unknown
    }
}

impl State {
    /// The byte that reports this state.
    pub fn code(&self) -> (r: u8)
        ensures
            r == code_of(*self),
    {
        match self {
            State::AppIdle => 0,
            State::AppDetach => 1,
            State::DfuIdle => 2,
            State::DfuDownloadSync => 3,
            State::DfuDownloadBusy => 4,
            State::DfuDownloadIdle => 5,
            State::DfuManifestSync => 6,
            State::DfuManifest => 7,
            State::DfuManifestWaitReset => 8,
            State::DfuUploadIdle => 9,
            State::DfuError => 10,
            State::Unknown => 255,
        }
    }

    /// The state that a byte reports.
    pub fn from_code(b: u8) -> (r: State)
        ensures
            r == state_of(b),
    {
        match b {
            0 => State::AppIdle,
            1 => State::AppDetach,
            2 => State::DfuIdle,
            3 => State::DfuDownloadSync,
            4 => State::DfuDownloadBusy,
            5 => State::DfuDownloadIdle,
            6 => State::DfuManifestSync,
            7 => State::DfuManifest,
            8 => State::DfuManifestWaitReset,
            9 => State::DfuUploadIdle,
            10 => State::DfuError,
            _ => State::Unknown,
        }
    }

    /// A short human-readable name.
    pub fn name(&self) -> &'static str {
        match self {
            State::AppIdle => "App Idle",
            State::AppDetach => "App detach",
            State::DfuIdle => "Dfu Idle",
            State::DfuDownloadSync => "Dfu download sync",
            State::DfuDownloadBusy => "Dfu download busy",
            State::DfuDownloadIdle => "Dfu download idle",
            State::DfuManifestSync => "Dfu manifest sync",
            State::DfuManifest => "Dfu manifest",
            State::DfuManifestWaitReset => "Dfu manifest wait reset",
            State::DfuUploadIdle => "Dfu Upload idle",
            State::DfuError => "Dfu error",
            State::Unknown => "Unknown state",
        }
    }
}

impl From<&State> for u8 {
    fn from(state: &State) -> (r: u8) {
        state.code()
    }
}

impl vstd::std_specs::convert::FromSpecImpl<&State> for u8 {
    open spec fn obeys_from_spec() -> bool {
        true
    }

    open spec fn from_spec(state: &State) -> u8 {
        code_of(*state)
    }
}

impl From<u8> for State {
    fn from(state: u8) -> (r: State) {
        State::from_code(state)
    }
}

impl vstd::std_specs::convert::FromSpecImpl<u8> for State {
    open spec fn obeys_from_spec() -> bool {
        true
    }

    open spec fn from_spec(state: u8) -> State {
        state_of(state)
    }
}

/// Reading a state's byte back gives the state again, for every state.
pub proof fn lemma_state_code_round_trip(s: State)
    ensures
        state_of(code_of(s)) == s,
{
}

/// The reply to GET_STATUS.
#[derive(Debug, Clone, Copy, PartialEq, Eq, Structural)]
pub struct Status {
    /// 0 when the device reports no error.
    pub status: u8,
    /// Milliseconds the device asks to wait before the next GET_STATUS.
    pub poll_timeout: usize,
    /// The state byte; see `State`.
    pub state: u8,
    /// Index of a string descriptor that describes the error.
    pub string_index: u8,
}

/// The status that a six-byte reply carries: byte 0 is the status, bytes 1
/// to 3 the poll timeout with byte 1 most significant, byte 4 the state and
/// byte 5 the string index.
pub open spec fn status_of(d: Seq<u8>) -> Status {
    Status {
        status: d[0],
        poll_timeout: (d[1] as int * 65536 + d[2] as int * 256 + d[3] as int) as usize,
        state: d[4],
        string_index: d[5],
    }
}

impl Status {
    /// Decodes a GET_STATUS reply; anything but six bytes is refused.
    pub fn parse(data: &[u8]) -> (r: Result<Status, Error>)
        ensures
            r is Ok <==> data@.len() == 6,
            r is Ok ==> r->Ok_0 == status_of(data@),
            r is Err ==> r->Err_0 is InvalidControlResponse,
    {
        if data.len() != 6 {
            return Err(Error::InvalidControlResponse("Status length was not 6".to_string()));
        }
        let poll_timeout = (data[1] as usize) * 65536 + (data[2] as usize) * 256 + (data[3] as usize);
        Ok(Status {
            status: data[0],
            poll_timeout,
            state: data[4],
            string_index: data[5],
        })
    }
}

} // verus!
