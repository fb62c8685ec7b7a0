//! The state that a running instance shares with the next one.
use vstd::prelude::*;

verus! {

/// The visibility state shared between instances, stored as one byte.
#[derive(Clone, Copy, PartialEq, Eq, Debug, Structural)]
pub enum IpcState {
    Visible,
    Hidden,
    ShowRequested,
    QuitRequested,
}

/// Why the shared state could not be read.
#[derive(Clone, Copy, PartialEq, Eq, Debug, Structural)]
pub enum IpcError {
    /// The stored data is empty.
    Empty,
    /// The stored byte names no state.
    InvalidState(u8),
}

impl IpcState {
    /// The byte that stands for the state.
    pub open spec fn byte_of(self) -> u8 {
        match self {
            IpcState::Visible => 0,
            IpcState::Hidden => 1,
            IpcState::ShowRequested => 2,
            IpcState::QuitRequested => 3,
        }
    }

    pub fn from_byte(byte: u8) -> (r: Option<Self>)
        ensures
            byte <= 3 ==> r == Some(IpcState::from_byte_spec(byte)),
            byte > 3 ==> r is None,
    {
        match byte {
            0 => Some(IpcState::Visible),
            1 => Some(IpcState::Hidden),
            2 => Some(IpcState::ShowRequested),
            3 => Some(IpcState::QuitRequested),
            _ => None,
        }
    }

    pub open spec fn from_byte_spec(byte: u8) -> Self {
        if byte == 0 {
            IpcState::Visible
        } else if byte == 1 {
            IpcState::Hidden
        } else if byte == 2 {
            IpcState::ShowRequested
        } else {
            IpcState::QuitRequested
        }
    }

    /// The state stored in `data`: its first byte.
    pub fn read(data: &[u8]) -> (r: Result<Self, IpcError>)
        ensures
            data@.len() == 0 ==> r == Err::<Self, IpcError>(IpcError::Empty),
            data@.len() > 0 && data@[0] <= 3 ==> r == Ok::<Self, IpcError>(
                IpcState::from_byte_spec(data@[0]),
            ),
            data@.len() > 0 && data@[0] > 3 ==> r == Err::<Self, IpcError>(
                IpcError::InvalidState(data@[0]),
            ),
    {
        if data.len() == 0 {
            return Err(IpcError::Empty);
        }
        match IpcState::from_byte(data[0]) {
            Some(s) => Ok(s),
            None => Err(IpcError::InvalidState(data[0])),
        }
    }

    /// The bytes that store the state.
    pub fn write(self) -> (r: Vec<u8>)
        ensures
            r@ == seq![self.byte_of()],
            IpcState::from_byte_spec(self.byte_of()) == self,
    {
        let b: u8 = match self {
            IpcState::Visible => 0,
            IpcState::Hidden => 1,
            IpcState::ShowRequested => 2,
            IpcState::QuitRequested => 3,
        };
        let mut v: Vec<u8> = Vec::new();
        v.push(b);
        v
    }
}

} // verus!
