use vstd::prelude::*;

use crate::ffi::FfiMode;
use crate::mode::Mode;

verus! {

/// The version of the host's plugin interface that this record follows.
pub const ABI_VERSION: i32 = 6;

/// The plugin record as it is registered with the host, once per process.
pub struct RofiModeWrapper<T>(pub FfiMode<T>);

/// Builds the record of a mode that has not been started yet.
pub fn create_mode<M: Mode>(name: String, plugin_display_name: String) -> (r: RofiModeWrapper<M>)
    ensures
        r.0.abi_version == ABI_VERSION,
        r.0.name == name,
        r.0.plugin_display_name == plugin_display_name,
        r.0.private_data is None,
{
    RofiModeWrapper(FfiMode { abi_version: ABI_VERSION, name, plugin_display_name, private_data: None })
}

} // verus!
