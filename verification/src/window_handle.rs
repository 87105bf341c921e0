//! Selection of the native Win32 window handle from a platform window handle.
use vstd::prelude::*;

verus! {

/// What a platform window handle holds, as far as the Win32 conversion reads it.
#[derive(PartialEq, Eq, Structural, Clone, Copy, Debug)]
pub enum WindowHandleKind {
    /// A Win32 window handle with its `HWND` value.
    Win32 { hwnd: isize },
    /// A handle of any other platform.
    Other,
}

/// The `HWND` value of a Win32 handle; `None` for a handle of another platform, which the
/// conversion refuses.
pub fn win32_hwnd(kind: WindowHandleKind) -> (r: Option<isize>)
    ensures
        r == (match kind {
            WindowHandleKind::Win32 { hwnd } => Some(hwnd),
            WindowHandleKind::Other => None::<isize>,
        }),
{
    match kind {
        WindowHandleKind::Win32 { hwnd } => Some(hwnd),
        WindowHandleKind::Other => None,
    }
}

} // verus!
