//! The callback-dispatch rule of the exported monitor object.
//!
//! An application installs an optional handler per slot. For every
//! incoming request the rule is the same: with no handler installed the
//! request is rejected outright; with one installed, whatever the
//! handler answered is relayed unchanged.
//!
//! The handlers themselves are asynchronous and live outside this
//! library; callers hand the outcome of an invocation in as
//! `Some(outcome)`, or `None` when no handler is installed.

use vstd::prelude::*;

use crate::address::Address;
use crate::req::ReqError;

verus! {

/// A device-found request: the adapter that saw the device, and the
/// device's address.
#[derive(Clone, Debug)]
pub struct DeviceFound {
    /// Adapter making the request.
    pub adapter: String,
    /// Address of device making the request.
    pub addr: Address,
}

/// A device-lost request: the adapter that lost sight of the device,
/// and the device's address.
#[derive(Clone, Debug)]
pub struct DeviceLost {
    /// Adapter making the request.
    pub adapter: String,
    /// Address of device making the request.
    pub addr: Address,
}

/// The dispatch rule: `None` (no handler installed) is rejected;
/// `Some(outcome)` is relayed unchanged.
pub open spec fn spec_dispatch<T>(outcome: Option<Result<T, ReqError>>) -> Result<T, ReqError> {
    match outcome {
        Option::None => Result::Err(ReqError::Rejected),
        Option::Some(o) => o,
    }
}

/// Settles one request against an optional handler's outcome:
/// a slot with no handler uniformly answers [`ReqError::Rejected`],
/// and a handler's answer is relayed unchanged.
pub fn dispatch_outcome<T>(outcome: Option<Result<T, ReqError>>) -> (r: Result<T, ReqError>)
    ensures
        r == spec_dispatch(outcome),
{
    match outcome {
        Option::None => Result::Err(ReqError::Rejected),
        Option::Some(o) => o,
    }
}

/// Law: a slot with no handler installed answers `Rejected`, whatever
/// the slot's result type is.
pub proof fn lemma_missing_handler_rejected<T>()
    ensures
        spec_dispatch::<T>(Option::None) == Result::<T, ReqError>::Err(ReqError::Rejected),
{
}

/// Law: an installed handler's answer — success or error — is relayed
/// unchanged.
pub proof fn lemma_outcome_relayed<T>(o: Result<T, ReqError>)
    ensures
        spec_dispatch(Option::Some(o)) == o,
{
}

/// Decodes the argument of a device-found request. A malformed path is
/// rejected, never silently defaulted.
pub fn decode_device_found(path: &str) -> (r: Result<DeviceFound, ReqError>)
    ensures
        r is Ok <==> crate::paths::well_formed_device_path(path@),
        r matches Ok(d) ==> d.adapter@ =~= crate::paths::device_path_adapter(path@) && d.addr@
            =~= crate::paths::device_path_addr(path@),
        r is Err ==> r->Err_0 == ReqError::Rejected,
{
    match crate::paths::parse_device_path(path) {
        Result::Ok((adapter, addr)) => Result::Ok(DeviceFound { adapter, addr }),
        Result::Err(e) => Result::Err(e),
    }
}

/// Decodes the argument of a device-lost request. A malformed path is
/// rejected, never silently defaulted.
pub fn decode_device_lost(path: &str) -> (r: Result<DeviceLost, ReqError>)
    ensures
        r is Ok <==> crate::paths::well_formed_device_path(path@),
        r matches Ok(d) ==> d.adapter@ =~= crate::paths::device_path_adapter(path@) && d.addr@
            =~= crate::paths::device_path_addr(path@),
        r is Err ==> r->Err_0 == ReqError::Rejected,
{
    match crate::paths::parse_device_path(path) {
        Result::Ok((adapter, addr)) => Result::Ok(DeviceLost { adapter, addr }),
        Result::Err(e) => Result::Err(e),
    }
}

} // verus!
