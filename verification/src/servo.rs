//! The webview of the Servo backend.
//!
//! The backend renders through an embedder that this crate does not look
//! into, so the webview is generic in it. Most of what a webview can be
//! asked has no effect on this backend yet; the contracts say so.

use crate::status::{Error, Result};
use vstd::prelude::*;

pub mod window;

verus! {

/// `http::HeaderMap`, a multimap of header names and values. It is only
/// handed through.
#[verifier::external_type_specification]
#[verifier::external_body]
#[verifier::reject_recursive_types(T)]
pub struct ExHeaderMap<T>(http::HeaderMap<T>);

/// `http::HeaderValue`, the value of one header. It is only handed through.
#[verifier::external_type_specification]
#[verifier::external_body]
pub struct ExHeaderValue(http::HeaderValue);

/// A colour: red, green, blue and alpha.
pub type RGBA = (u8, u8, u8, u8);

/// A rectangle on the screen.
#[derive(Clone, Copy, Debug, PartialEq, Eq, Structural)]
pub struct Rect {
    /// The horizontal position of the top left corner.
    pub x: i32,
    /// The vertical position of the top left corner.
    pub y: i32,
    /// The width.
    pub width: u32,
    /// The height.
    pub height: u32,
}

/// The webview of the Servo backend, around its embedder.
pub struct InnerWebView<E> {
    /// The embedder that drives the engine.
    pub embedder: E,
}

impl<E> InnerWebView<E> {
    /// The webview around an embedder that has been set up.
    pub fn new_servo(embedder: E) -> (webview: Result<Self>)
        ensures
            webview == Ok::<Self, Error>(InnerWebView { embedder }),
    {
        Ok(InnerWebView { embedder })
    }

    /// Prints the page. This backend does not print.
    pub fn print(&self) {
    }

    /// Evaluates a script. This backend evaluates nothing and never calls
    /// the callback; it reports success.
    pub fn eval(
        &self,
        _js: &str,
        _callback: Option<impl FnOnce(String) + Send + 'static>,
    ) -> (result: Result<()>)
        ensures
            result == Ok::<(), Error>(()),
    {
        Ok(())
    }

    /// Opens the developer tools. This backend has none.
    pub fn open_devtools(&self) {
    }

    /// Closes the developer tools. This backend has none.
    pub fn close_devtools(&self) {
    }

    /// Whether the developer tools are open. This backend always says so.
    pub fn is_devtools_open(&self) -> (open: bool)
        ensures
            open,
    {
        true
    }

    /// Sets the background colour. This backend keeps its own and reports
    /// success.
    pub fn set_background_color(&self, _background_color: RGBA) -> (result: Result<()>)
        ensures
            result == Ok::<(), Error>(()),
    {
        Ok(())
    }

    /// Loads a page. This backend loads nothing.
    pub fn load_url(&self, _url: &str) {
    }

    /// Loads a page with request headers. This backend loads nothing.
    pub fn load_url_with_headers(&self, _url: &str, _headers: http::HeaderMap) {
    }

    /// Clears what the engine has stored of earlier browsing. This backend
    /// stores nothing and reports success.
    pub fn clear_all_browsing_data(&self) -> (result: Result<()>)
        ensures
            result == Ok::<(), Error>(()),
    {
        Ok(())
    }

    /// Moves and resizes the webview. This backend stays where it is.
    pub fn set_bounds(&self, _bounds: Rect) {
    }

    /// Shows or hides the webview. This backend stays as it is.
    pub fn set_visible(&self, _visible: bool) {
    }

    /// Gives the webview the keyboard focus. This backend takes none.
    pub fn focus(&self) {
    }
}

/// The version of the platform's webview. This backend has no version to
/// report: the text is empty.
pub fn platform_webview_version() -> (version: Result<String>)
    ensures
        version is Ok,
        version->Ok_0@ == Seq::<char>::empty(),
{
    Ok(String::new())
}

/// A webview, around the webview of its backend.
pub struct WebView<E> {
    /// The webview of the backend.
    pub webview: InnerWebView<E>,
}

/// Access to the embedder of a webview of the Servo backend.
pub trait WebViewExtServo<E> {
    /// The embedder, to drive the engine directly.
    fn servo(&mut self) -> &mut E;
}

impl<E> WebViewExtServo<E> for WebView<E> {
    fn servo(&mut self) -> (embedder: &mut E)
        ensures
            *embedder == old(self).webview.embedder,
            final(self).webview.embedder == *final(embedder),
    {
        &mut self.webview.embedder
    }
}

} // verus!
