//! The answer of the desktop portal's screenshot request.

use vstd::prelude::*;

verus! {

/// Why the portal's answer holds no screenshot.
#[derive(Clone, Copy, Debug, PartialEq, Eq)]
pub enum PortalError {
    /// The request ended with this non-zero response code (1: cancelled by
    /// the user, 2: another failure).
    Failed(u32),
    /// The answer succeeded but named no screenshot URI.
    MissingUri,
}

/// What the portal's `Response` signal means: the URI of the screenshot when
/// the response code is 0 and a string URI came with it.
pub open spec fn spec_screenshot_uri(code: u32, uri: Option<Seq<char>>) -> Result<Seq<char>, PortalError> {
    if code != 0 {
        Err(PortalError::Failed(code))
    } else {
        match uri {
            Some(u) => Ok(u),
            None => Err(PortalError::MissingUri),
        }
    }
}

/// Interprets the portal's response code and the string found under `"uri"`
/// in its results (if any).
pub fn screenshot_uri(code: u32, uri: Option<String>) -> (res: Result<String, PortalError>)
    ensures
        match (res, spec_screenshot_uri(code, match uri {
            Some(u) => Some(u@),
            None => None,
        })) {
            (Ok(u), Ok(v)) => u@ == v,
            (Err(e), Err(f)) => e == f,
            _ => false,
        },
{
    if code != 0 {
        return Err(PortalError::Failed(code));
    }
    match uri {
        Some(u) => Ok(u),
        None => Err(PortalError::MissingUri),
    }
}

} // verus!
