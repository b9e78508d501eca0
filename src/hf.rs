//! Host-flash service interface: its error codes and mux positions.
use vstd::prelude::*;

verus! {

/// Errors that the host flash service can report.
#[derive(Copy, Clone, Debug, PartialEq, Eq, Structural)]
pub enum HfError {
    WriteEnableFailed,
    ServerRestarted,
    MuxFailed,
    HashBadRange,
    HashError,
    HashNotConfigured,
}

/// The wire code of an error: `WriteEnableFailed` is 1, and so on up to
/// `HashNotConfigured`, which is 6.
pub open spec fn hf_error_code(e: HfError) -> u32 {
    match e {
        HfError::WriteEnableFailed => 1,
        HfError::ServerRestarted => 2,
        HfError::MuxFailed => 3,
        HfError::HashBadRange => 4,
        HfError::HashError => 5,
        HfError::HashNotConfigured => 6,
    }
}

/// The error whose wire code is `rc`; `Err(())` for any other number.
pub open spec fn hf_error_from_code(rc: u32) -> Result<HfError, ()> {
    match rc {
        1 => Ok(HfError::WriteEnableFailed),
        2 => Ok(HfError::ServerRestarted),
        3 => Ok(HfError::MuxFailed),
        4 => Ok(HfError::HashBadRange),
        5 => Ok(HfError::HashError),
        6 => Ok(HfError::HashNotConfigured),
        _ => Err(()),
    }
}

impl HfError {
    /// The wire code of this error.
    pub fn code(self) -> (r: u32)
        ensures
            r == hf_error_code(self),
    {
        match self {
            HfError::WriteEnableFailed => 1,
            HfError::ServerRestarted => 2,
            HfError::MuxFailed => 3,
            HfError::HashBadRange => 4,
            HfError::HashError => 5,
            HfError::HashNotConfigured => 6,
        }
    }

    /// The error with wire code `rc`, or `Err(())` when no error has it.
    pub fn from_code(rc: u32) -> (r: Result<HfError, ()>)
        ensures
            r == hf_error_from_code(rc),
            match r {
                Ok(e) => hf_error_code(e) == rc,
                Err(_) => !(1 <= rc <= 6),
            },
    {
        match rc {
            1 => Ok(HfError::WriteEnableFailed),
            2 => Ok(HfError::ServerRestarted),
            3 => Ok(HfError::MuxFailed),
            4 => Ok(HfError::HashBadRange),
            5 => Ok(HfError::HashError),
            6 => Ok(HfError::HashNotConfigured),
            _ => Err(()),
        }
    }
}

impl From<HfError> for u16 {
    fn from(rc: HfError) -> (r: u16) {
        rc.code() as u16
    }
}

impl vstd::std_specs::convert::FromSpecImpl<HfError> for u16 {
    open spec fn obeys_from_spec() -> bool {
        true
    }

    open spec fn from_spec(rc: HfError) -> u16 {
        hf_error_code(rc) as u16
    }
}

impl From<HfError> for u32 {
    fn from(rc: HfError) -> (r: u32) {
        rc.code()
    }
}

impl vstd::std_specs::convert::FromSpecImpl<HfError> for u32 {
    open spec fn obeys_from_spec() -> bool {
        true
    }

    open spec fn from_spec(rc: HfError) -> u32 {
        hf_error_code(rc)
    }
}

impl TryFrom<u32> for HfError {
    type Error = ();

    fn try_from(rc: u32) -> (r: Result<HfError, ()>) {
        HfError::from_code(rc)
    }
}

impl vstd::std_specs::convert::TryFromSpecImpl<u32> for HfError {
    open spec fn obeys_try_from_spec() -> bool {
        true
    }

    open spec fn try_from_spec(rc: u32) -> Result<HfError, ()> {
        hf_error_from_code(rc)
    }
}

/// Which side owns the host flash.
#[derive(Copy, Clone, Debug, PartialEq, Eq, Structural)]
pub enum HfMuxState {
    /// The service processor.
    SP,
    /// The host CPU.
    HostCPU,
}

/// The wire byte of a mux position: 1 for the service processor, 2 for the
/// host CPU.
pub open spec fn mux_code(m: HfMuxState) -> u8 {
    match m {
        HfMuxState::SP => 1,
        HfMuxState::HostCPU => 2,
    }
}

impl HfMuxState {
    /// The wire byte of this position.
    pub fn code(self) -> (r: u8)
        ensures
            r == mux_code(self),
    {
        match self {
            HfMuxState::SP => 1,
            HfMuxState::HostCPU => 2,
        }
    }

    /// The position with wire byte `b`, if any.
    pub fn from_code(b: u8) -> (r: Option<HfMuxState>)
        ensures
            match r {
                Some(m) => mux_code(m) == b,
                None => b != 1 && b != 2,
            },
    {
        match b {
            1 => Some(HfMuxState::SP),
            2 => Some(HfMuxState::HostCPU),
            _ => None,
        }
    }
}

} // verus!
