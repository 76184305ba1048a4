use vstd::prelude::*;

verus! {

/// A window handle, passed through untouched.
pub type HWND = u32;

/// The identifier of a virtual desktop (a GUID), passed through untouched.
#[derive(Clone, Copy, Debug, PartialEq, Eq, Hash, Default)]
pub struct DesktopID {
    pub data1: u32,
    pub data2: u16,
    pub data3: u16,
    pub data4: [u8; 8],
}

} // verus!
