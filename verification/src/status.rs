//! Native status codes and the protocol constants of the windowing system.

use vstd::prelude::*;

verus! {

/// The status that signals plain success.
pub const S_OK: i32 = 0;

/// The failure with which a data object declines a format it does not offer.
pub const DV_E_FORMATETC: i32 = -2147221404;

/// The failure with which revoking answers for a window that has no drop
/// target registered.
pub const DRAGDROP_E_NOTREGISTERED: i32 = -2147221248;

/// The clipboard format of a list of dropped files.
pub const CF_HDROP: u16 = 15;

/// The aspect that asks for the content itself.
pub const DVASPECT_CONTENT: u32 = 1;

/// The storage medium of a global memory handle.
pub const TYMED_HGLOBAL: u32 = 1;

/// A status code as native calls return it: negative values are failures,
/// all others are successes.
#[derive(Clone, Copy, Debug, PartialEq, Eq, Structural)]
pub struct StatusCode(pub i32);

impl StatusCode {
    /// Whether the code reports success.
    pub open spec fn succeeded(self) -> bool {
        self.0 >= 0
    }

    /// Whether the code reports success.
    pub fn is_ok(self) -> (ok: bool)
        ensures
            ok == self.succeeded(),
    {
        self.0 >= 0
    }

    /// Whether the code reports failure.
    pub fn is_err(self) -> (failed: bool)
        ensures
            failed == !self.succeeded(),
    {
        self.0 < 0
    }

    /// The code of plain success.
    pub fn ok() -> (status: StatusCode)
        ensures
            status == StatusCode(S_OK),
    {
        native_s_ok()
    }

    /// Reads a native result as a status: success without a code is plain
    /// success, a failure is its own code.
    pub fn from_result(result: core::result::Result<(), StatusCode>) -> (status: StatusCode)
        ensures
            status == (match result {
                Ok(_) => StatusCode(S_OK),
                Err(code) => code,
            }),
    {
        match result {
            Ok(_) => native_s_ok(),
            Err(code) => code,
        }
    }
}

/// What can go wrong.
#[derive(Clone, Copy, Debug, PartialEq, Eq, Structural)]
pub enum Error {
    /// A native call failed with this status.
    WebView2Error(StatusCode),
}

/// The result of an operation of this crate.
pub type Result<T> = core::result::Result<T, Error>;

/// Reads a status as a result: a failure code is an error, any other code is
/// success.
pub fn check(status: StatusCode) -> (result: Result<()>)
    ensures
        result == (if status.succeeded() {
            Ok::<(), Error>(())
        } else {
            Err::<(), Error>(Error::WebView2Error(status))
        }),
{
    if status.is_ok() {
        Ok(())
    } else {
        Err(Error::WebView2Error(status))
    }
}

/// `windows::Win32::Foundation::S_OK`: trusted to be zero.
#[verifier::external_body]
pub(crate) fn native_s_ok() -> (status: StatusCode)
    ensures
        status == StatusCode(S_OK),
{
    StatusCode(windows::Win32::Foundation::S_OK.0)
}

/// `windows::Win32::Foundation::DV_E_FORMATETC`: trusted to be the code
/// `0x80040064`.
#[verifier::external_body]
pub(crate) fn native_dv_e_formatetc() -> (status: StatusCode)
    ensures
        status == StatusCode(DV_E_FORMATETC),
{
    StatusCode(windows::Win32::Foundation::DV_E_FORMATETC.0)
}

/// `windows::Win32::Foundation::DRAGDROP_E_NOTREGISTERED`: trusted to be the
/// code `0x80040100`.
#[verifier::external_body]
pub(crate) fn native_dragdrop_e_notregistered() -> (status: StatusCode)
    ensures
        status == StatusCode(DRAGDROP_E_NOTREGISTERED),
{
    StatusCode(windows::Win32::Foundation::DRAGDROP_E_NOTREGISTERED.0)
}

/// `windows::Win32::System::SystemServices::CF_HDROP`: trusted to be 15.
#[verifier::external_body]
pub(crate) fn native_cf_hdrop() -> (format: u16)
    ensures
        format == CF_HDROP,
{
    windows::Win32::System::SystemServices::CF_HDROP.0 as u16
}

/// `windows::Win32::System::Com::DVASPECT_CONTENT`: trusted to be 1.
#[verifier::external_body]
pub(crate) fn native_dvaspect_content() -> (aspect: u32)
    ensures
        aspect == DVASPECT_CONTENT,
{
    windows::Win32::System::Com::DVASPECT_CONTENT.0 as u32
}

/// `windows::Win32::System::Com::TYMED_HGLOBAL`: trusted to be 1.
#[verifier::external_body]
pub(crate) fn native_tymed_hglobal() -> (medium: u32)
    ensures
        medium == TYMED_HGLOBAL,
{
    windows::Win32::System::Com::TYMED_HGLOBAL.0 as u32
}

} // verus!
