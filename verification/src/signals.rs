//! The exit decision about the machine-wide proxy.

use vstd::prelude::*;

verus! {

/// Whether this exit should clear the machine-wide proxy: only when the proxy
/// is on and the user did not explicitly choose to keep it.
pub fn should_clear_proxy(system_proxy_enabled: bool, kept_proxy_on_purpose: bool) -> (clear: bool)
    ensures
        clear == (system_proxy_enabled && !kept_proxy_on_purpose),
{
    system_proxy_enabled && !kept_proxy_on_purpose
}

} // verus!
