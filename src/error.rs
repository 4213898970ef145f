use vstd::prelude::*;

verus! {

/// The engine's status code for success.
pub const BSEC_OK: i32 = 0;

/// A failure reported by the engine, carrying its status code unchanged.
#[derive(Clone, Copy, Debug, PartialEq, Eq, Structural)]
pub struct Error(pub i32);

/// Wraps a status code: `BSEC_OK` passes, every other code is an error
/// that carries it.
pub fn status_of(code: i32) -> (r: Result<(), Error>)
    ensures
        code == BSEC_OK <==> r is Ok,
        r matches Err(e) ==> e == Error(code),
{
    if code == BSEC_OK {
        Ok(())
    } else {
        Err(Error(code))
    }
}

/// Version of the fusion engine.
#[derive(Clone, Copy, Debug, PartialEq, Eq, PartialOrd, Ord, Structural)]
pub struct Version {
    pub major: u8,
    pub minor: u8,
    pub major_bugfix: u8,
    pub minor_bugfix: u8,
}

} // verus!
