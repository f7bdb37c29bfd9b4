//! Synthesis of the fingerprint marker path: the filesystem path at which
//! the orchestrator's freshness check expects a cache marker for one compile
//! task.

use vstd::prelude::*;
use vstd::string::*;
use crate::descriptor::{DescriptorView, InvocationDescriptor};

verus! {

/// The fingerprint marker path for a descriptor `d` and package name `pkg`:
///
/// `<dependency_dir>/../.fingerprint/<pkg><extra_filename>/dep-<crate_type>-<crate_name><extra_filename>`
pub open spec fn fingerprint_path_spec(d: DescriptorView, pkg: Seq<char>) -> Seq<char> {
    d.dependency_dir + "/../.fingerprint/"@ + pkg + d.extra_filename + "/dep-"@ + d.crate_type
        + "-"@ + d.crate_name + d.extra_filename
}

/// Construct the fingerprint marker path for this descriptor and package
/// name, mirroring the orchestrator's cache naming convention.
///
/// Pure: the result is a function of the two arguments alone, and is total —
/// empty fields are interpolated as empty strings (an empty dependency
/// directory yields a path rooted at `/..`, a caller error that surfaces
/// only as a later filesystem failure).
pub fn fingerprint_path(descriptor: &InvocationDescriptor, package_name: &str) -> (r: String)
    ensures
        r@ == fingerprint_path_spec(descriptor@, package_name@),
{
    let mut path = String::new();
    path.append(descriptor.dependency_dir.as_str());
    path.append("/../.fingerprint/");
    path.append(package_name);
    path.append(descriptor.extra_filename.as_str());
    path.append("/dep-");
    path.append(descriptor.crate_type.as_str());
    path.append("-");
    path.append(descriptor.crate_name.as_str());
    path.append(descriptor.extra_filename.as_str());
    proof {
        assert(path@ =~= fingerprint_path_spec(descriptor@, package_name@));
    }
    path
}

/// Law: fingerprint path synthesis is deterministic — identical inputs give
/// identical output paths.
pub proof fn lemma_fingerprint_path_deterministic(
    d1: DescriptorView,
    d2: DescriptorView,
    pkg1: Seq<char>,
    pkg2: Seq<char>,
)
    requires
        d1 == d2,
        pkg1 == pkg2,
    ensures
        fingerprint_path_spec(d1, pkg1) == fingerprint_path_spec(d2, pkg2),
{
}

} // verus!
