use vstd::prelude::*;

verus! {

/// Why a network fetch did not produce a value.
#[derive(Clone, Copy, Debug, PartialEq, Eq, Structural)]
pub enum ErrorKind {
    /// The request never got a response body (connection or transport failure).
    TransportError,
    /// A response came back but did not have the expected shape, or carried no data.
    DecodeError,
}

/// The lifecycle of one fetch owned by a component.
#[derive(Debug)]
pub enum FetchState<T> {
    Idle,
    Loading,
    Success(T),
    Failed(ErrorKind),
}

impl<T> FetchState<T> {
    pub fn is_loading(&self) -> (r: bool)
        ensures
            r == (*self is Loading),
    {
        match self {
            FetchState::Loading => true,
            _ => false,
        }
    }

    pub fn is_idle(&self) -> (r: bool)
        ensures
            r == (*self is Idle),
    {
        match self {
            FetchState::Idle => true,
            _ => false,
        }
    }
}

} // verus!
