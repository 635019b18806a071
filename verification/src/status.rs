//! The status publisher: the apply-patch that rewrites only the resource's
//! status sub-resource, leaving its identity in place and its spec exactly
//! as the user authored it.

use crate::crd::{SasGenerator, SasGeneratorSpecView, SasGeneratorStatus, SasGeneratorStatusView};
use vstd::prelude::*;

verus! {

/// An apply-style patch of the status sub-resource: the resource's identity,
/// its spec unchanged, and the new status. Nothing else is touched.
#[derive(Debug, PartialEq, Eq)]
pub struct StatusPatch {
    pub name: String,
    pub namespace: Option<String>,
    pub spec: crate::crd::SasGeneratorSpec,
    pub status: SasGeneratorStatus,
}

/// Mathematical image of a status patch.
pub struct StatusPatchView {
    pub name: Seq<char>,
    pub namespace: Option<Seq<char>>,
    pub spec: SasGeneratorSpecView,
    pub status: SasGeneratorStatusView,
}

impl View for StatusPatch {
    type V = StatusPatchView;

    open spec fn view(&self) -> StatusPatchView {
        StatusPatchView {
            name: self.name@,
            namespace: self.namespace.deep_view(),
            spec: self.spec@,
            status: self.status@,
        }
    }
}

/// The patch that publishes a status: addressed by the resource's own name
/// and namespace, carrying its spec untouched and the new status.
pub open spec fn spec_status_patch(
    resource: crate::crd::SasGeneratorView,
    status: SasGeneratorStatusView,
) -> StatusPatchView {
    StatusPatchView { name: resource.name, namespace: resource.namespace, spec: resource.spec, status }
}

/// Build the status-subresource patch: it never clobbers the spec, and
/// addresses exactly the resource it was built from.
pub fn update_crd_status(resource: &SasGenerator, status: SasGeneratorStatus) -> (p: StatusPatch)
    ensures
        p@ == spec_status_patch(resource@, status@),
{
    StatusPatch {
        name: resource.name.clone(),
        namespace: match &resource.namespace {
            Some(ns) => Some(ns.clone()),
            None => None,
        },
        spec: resource.spec.clone(),
        status,
    }
}

} // verus!
