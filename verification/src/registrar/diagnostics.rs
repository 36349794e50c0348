//! Keeping track of the devices that are heard from.

use vstd::prelude::*;
use crate::links::{append_query_pairs, pairs_view, url_with_query_pairs};
use crate::rendering::{is_layout_variant, LayoutModel, RenderVariant};
use crate::schema::DeviceDiagnosticRegistration;

verus! {

/// A device that was never sent its registration code gets one when it is heard from: one whose
/// registration is still initial, or unknown.
pub open spec fn spec_needs_registration_code(state: Option<DeviceDiagnosticRegistration>) -> bool {
    match state {
        None => true,
        Some(DeviceDiagnosticRegistration::Initial) => true,
        _ => false,
    }
}

/// Whether a device that was just heard from must be sent the registration code.
pub fn needs_registration_code(state: &Option<DeviceDiagnosticRegistration>) -> (send: bool)
    ensures
        send == spec_needs_registration_code(*state),
{
    match state {
        None => true,
        Some(DeviceDiagnosticRegistration::Initial) => true,
        _ => false,
    }
}

/// The address a device's registration code points to: the configured address with the
/// device's id as its `device_target_id` query parameter.
pub open spec fn registration_address(base: Seq<char>, device_id: Seq<char>) -> Result<
    Seq<char>,
    Seq<char>,
> {
    url_with_query_pairs(base, seq![("device_target_id"@, device_id)])
}

/// The layout that shows a device its registration code: a scannable of the registration
/// address, or the reason the configured address is not a url.
pub fn registration_scannable(base: &str, device_id: &str) -> (layout: Result<
    RenderVariant<String>,
    String,
>)
    ensures
        match layout {
            Ok(v) => registration_address(base@, device_id@) matches Ok(address)
                && is_layout_variant(v, LayoutModel::Scannable(address)),
            Err(message) => registration_address(base@, device_id@) == Err::<Seq<char>, Seq<char>>(message@),
        },
{
    let pairs = vec![(String::from_str("device_target_id"), String::from_str(device_id))];
    proof {
        assert(pairs_view(pairs@) =~= seq![("device_target_id"@, device_id@)]);
    }
    match append_query_pairs(base, &pairs) {
        Ok(address) => Ok(RenderVariant::scannable(address)),
        Err(message) => Err(message),
    }
}

} // verus!
