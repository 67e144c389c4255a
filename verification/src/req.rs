//! Error replies that this service sends back for requests it declines.

use vstd::prelude::*;

verus! {

/// Error response from us to a request made by the remote daemon.
///
/// This is a closed enumeration: requests are either rejected or
/// canceled, and no other failure reason exists at this layer.
#[derive(Clone, Copy, Debug, PartialEq, Eq, PartialOrd, Ord, Hash, Structural)]
pub enum ReqError {
    /// Request was rejected.
    Rejected,
    /// Request was canceled.
    Canceled,
}

impl Default for ReqError {
    /// The default outcome for an abandoned request is cancelation.
    fn default() -> (r: Self)
        ensures
            r == ReqError::Canceled,
    {
        ReqError::Canceled
    }
}

/// The namespace that prefixes every error name this service sends
/// over the bus.
pub open spec fn err_prefix() -> Seq<char> {
    "org.bluez.Error."@
}

impl ReqError {
    /// The stable textual name of the variant.
    pub open spec fn spec_name(self) -> Seq<char> {
        match self {
            ReqError::Rejected => "Rejected"@,
            ReqError::Canceled => "Canceled"@,
        }
    }

    /// The human-readable message of the variant.
    pub open spec fn spec_message(self) -> Seq<char> {
        match self {
            ReqError::Rejected => "Request was rejected."@,
            ReqError::Canceled => "Request was canceled."@,
        }
    }

    /// The stable textual name of the variant.
    pub fn name(&self) -> (r: String)
        ensures
            r@ == self.spec_name(),
    {
        match self {
            ReqError::Rejected => "Rejected".to_owned(),
            ReqError::Canceled => "Canceled".to_owned(),
        }
    }

    /// The human-readable message of the variant.
    pub fn message(&self) -> (r: String)
        ensures
            r@ == self.spec_message(),
    {
        match self {
            ReqError::Rejected => "Request was rejected.".to_owned(),
            ReqError::Canceled => "Request was canceled.".to_owned(),
        }
    }

    /// The name under which this error goes out on the bus: the fixed
    /// error namespace followed by the variant's name.
    pub fn bus_error_name(&self) -> (r: String)
        ensures
            r@ == err_prefix() + self.spec_name(),
    {
        let mut r = "org.bluez.Error.".to_owned();
        let name = self.name();
        r.append(name.as_str());
        r
    }
}

} // verus!
