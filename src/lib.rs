//! An adapter that bridges a virtual-desktop notification service to typed
//! user callbacks, and that undoes its registration exactly once.

mod changelistener;
mod hresult;
mod ids;

pub use changelistener::{
    interface_query_outcome, Event, Handshake, Lifecycle, Notification, VirtualDesktopChangeListener,
};
pub use hresult::HRESULT;
pub use ids::{DesktopID, HWND};
