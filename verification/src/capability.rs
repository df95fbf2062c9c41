//! Capability gating: the whole ceremony flow requires the platform
//! authenticator to support the secret-release (PRF) extension. The platform
//! is probed once for its advertised capability names; the decision over the
//! probed names is made here.

use vstd::prelude::*;
use vstd::string::StringExecFns;

verus! {

/// The capability name that gates every flow: the secret-release extension.
pub open spec fn prf_capability() -> Seq<char> {
    "extension:prf"@
}

/// Whether the probed capability names advertise the secret-release
/// extension. Absence is a fatal precondition failure, surfaced before any
/// ceremony begins.
pub fn has_prf_support(capabilities: &Vec<String>) -> (r: bool)
    ensures
        r <==> exists|i: int|
            0 <= i < capabilities@.len() && capabilities@[i]@ == prf_capability(),
{
    let needle = String::from_str("extension:prf");
    let n = capabilities.len();
    let mut i: usize = 0;
    while i < n
        invariant
            n == capabilities@.len(),
            i <= n,
            needle@ == prf_capability(),
            forall|j: int| 0 <= j < i ==> capabilities@[j]@ != prf_capability(),
        decreases n - i,
    {
        if capabilities[i].eq(&needle) {
            return true;
        }
        i = i + 1;
    }
    false
}

} // verus!
