use vstd::prelude::*;

verus! {

/// A status code in the COM convention: negative values are failures.
#[allow(non_camel_case_types)]
#[derive(Clone, Copy, Debug, PartialEq, Eq, Structural)]
pub struct HRESULT {
    pub code: i32,
}

impl HRESULT {
    /// Whether this status reports a failure.
    pub open spec fn is_failure(self) -> bool {
        self.code < 0
    }

    /// The success status.
    pub fn ok() -> (r: HRESULT)
        ensures
            r.code == 0,
    {
        HRESULT { code: 0 }
    }

    pub fn from_i32(code: i32) -> (r: HRESULT)
        ensures
            r.code == code,
    {
        HRESULT { code }
    }

    pub fn failed(&self) -> (r: bool)
        ensures
            r == self.is_failure(),
    {
        self.code < 0
    }
}

} // verus!
