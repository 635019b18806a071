//! The secret publisher: the derived secret's full desired state, and the
//! create-or-patch decision taken from what a lookup found. The store calls
//! themselves are the caller's; this module fixes what must be written.

use crate::crd::{
    spec_effective_status, spec_secret_annotations, spec_secret_labels, view_opt_status,
    SasGenerator, SasGeneratorStatus, SasGeneratorStatusView,
};
use crate::reconcile::StoreFault;
use vstd::prelude::*;
use vstd::string::StringExecFns;

verus! {

/// The derived secret's full desired state: identity, provenance labels,
/// timestamp annotations, string data, and the owner back-reference that has
/// the store cascade-delete it with its resource.
#[derive(Debug, PartialEq, Eq)]
pub struct SecretRecord {
    pub name: String,
    pub namespace: String,
    pub labels: Vec<(String, String)>,
    pub annotations: Vec<(String, String)>,
    pub string_data: Vec<(String, String)>,
    pub owner_name: String,
}

/// Mathematical image of a secret record.
pub struct SecretRecordView {
    pub name: Seq<char>,
    pub namespace: Seq<char>,
    pub labels: Seq<(Seq<char>, Seq<char>)>,
    pub annotations: Seq<(Seq<char>, Seq<char>)>,
    pub string_data: Seq<(Seq<char>, Seq<char>)>,
    pub owner_name: Seq<char>,
}

impl View for SecretRecord {
    type V = SecretRecordView;

    open spec fn view(&self) -> SecretRecordView {
        SecretRecordView {
            name: self.name@,
            namespace: self.namespace@,
            labels: self.labels.deep_view(),
            annotations: self.annotations.deep_view(),
            string_data: self.string_data.deep_view(),
            owner_name: self.owner_name@,
        }
    }
}

/// How the desired state reaches the store: created fresh, or applied over
/// the existing secret as a forced server-side patch.
#[derive(Clone, Copy, Debug, PartialEq, Eq)]
pub enum SecretOp {
    Create,
    Patch,
}

/// One write the caller must perform against the store.
#[derive(Debug, PartialEq, Eq)]
pub struct SecretWrite {
    pub op: SecretOp,
    pub secret: SecretRecord,
}

/// The namespace a resource's artifacts land in: its own, or `default`.
pub open spec fn spec_target_namespace(namespace: Option<Seq<char>>) -> Seq<char> {
    match namespace {
        Some(ns) => ns,
        None => "default"@,
    }
}

/// The derived secret's desired state, as published on every issuance: data
/// keys carry the token and the account and container identifiers, and the
/// owner back-reference names the resource.
pub open spec fn spec_desired_secret(
    resource: crate::crd::SasGeneratorView,
    name: Seq<char>,
    labels: Seq<(Seq<char>, Seq<char>)>,
    annotations: Seq<(Seq<char>, Seq<char>)>,
    status: SasGeneratorStatusView,
) -> SecretRecordView {
    SecretRecordView {
        name,
        namespace: spec_target_namespace(resource.namespace),
        labels,
        annotations,
        string_data: seq![
            (
                "sas_token"@,
                match status.token {
                    Some(t) => t,
                    None => Seq::<char>::empty(),
                },
            ),
            ("account"@, resource.spec.storage_account),
            ("container"@, resource.spec.container_name),
        ],
        owner_name: resource.name,
    }
}

/// Assemble the derived secret's desired state from the resource, the
/// resolved name, the label and annotation sets, and the status being
/// published (the resource's own when none is handed in).
pub fn desired_secret(
    resource: &SasGenerator,
    secret_name: &str,
    labels: Vec<(String, String)>,
    annotations: Vec<(String, String)>,
    status_override: Option<&SasGeneratorStatus>,
) -> (r: SecretRecord)
    ensures
        r@ == spec_desired_secret(
            resource@,
            secret_name@,
            labels.deep_view(),
            annotations.deep_view(),
            spec_effective_status(view_opt_status(resource.status), status_override.deep_view()),
        ),
{
    let st: SasGeneratorStatus = match status_override {
        Some(st) => st.clone(),
        None => match &resource.status {
            Some(st) => st.clone(),
            None => SasGeneratorStatus::default(),
        },
    };
    let token = match st.token {
        Some(t) => t,
        None => String::new(),
    };
    let namespace = match &resource.namespace {
        Some(ns) => ns.clone(),
        None => String::from_str("default"),
    };
    let string_data = vec![
        (String::from_str("sas_token"), token),
        (String::from_str("account"), resource.spec.storage_account.clone()),
        (String::from_str("container"), resource.spec.container_name.clone()),
    ];
    let r = SecretRecord {
        name: String::from_str(secret_name),
        namespace,
        labels,
        annotations,
        string_data,
        owner_name: resource.name.clone(),
    };
    proof {
        assert(r@.string_data =~= spec_desired_secret(
            resource@,
            secret_name@,
            labels.deep_view(),
            annotations.deep_view(),
            spec_effective_status(view_opt_status(resource.status), status_override.deep_view()),
        ).string_data);
    }
    r
}

/// Decide the write that makes the store carry the desired state, from what
/// the caller's lookup found: patch what exists, create what is absent
/// (the not-found class of error), and surface any other lookup failure
/// unchanged.
pub fn ensure_secret(
    resource: &SasGenerator,
    secret_name: &str,
    labels: Vec<(String, String)>,
    annotations: Vec<(String, String)>,
    status_override: Option<&SasGeneratorStatus>,
    lookup: Result<(), StoreFault>,
) -> (r: Result<SecretWrite, StoreFault>)
    ensures
        ({
            let desired = spec_desired_secret(
                resource@,
                secret_name@,
                labels.deep_view(),
                annotations.deep_view(),
                spec_effective_status(
                    view_opt_status(resource.status),
                    status_override.deep_view(),
                ),
            );
            match lookup {
                Ok(()) => r matches Ok(w) && w.op is Patch && w.secret@ == desired,
                Err(fault) => {
                    if fault.code == Some(404u16) {
                        r matches Ok(w) && w.op is Create && w.secret@ == desired
                    } else {
                        r == Err::<SecretWrite, StoreFault>(fault)
                    }
                },
            }
        }),
{
    let desired = desired_secret(resource, secret_name, labels, annotations, status_override);
    match lookup {
        Ok(()) => Ok(SecretWrite { op: SecretOp::Patch, secret: desired }),
        Err(fault) => {
            let not_found = match fault.code {
                Some(code) => code == 404,
                None => false,
            };
            if not_found {
                Ok(SecretWrite { op: SecretOp::Create, secret: desired })
            } else {
                Err(fault)
            }
        },
    }
}

/// The store's view of its secrets, keyed by name, after one write lands:
/// create and forced apply-patch both leave the named secret carrying
/// exactly the written desired state.
pub open spec fn spec_apply_secret_write(
    store: Map<Seq<char>, SecretRecordView>,
    written: SecretRecordView,
) -> Map<Seq<char>, SecretRecordView> {
    store.insert(written.name, written)
}

/// Publishing a byte-identical desired state over a store that already
/// carries it changes nothing observable: the second write is a patch whose
/// applied result leaves every secret as it was.
pub proof fn lemma_ensure_secret_idempotent(
    store: Map<Seq<char>, SecretRecordView>,
    desired: SecretRecordView,
)
    requires
        store.contains_key(desired.name),
        store[desired.name] == desired,
    ensures
        spec_apply_secret_write(store, desired) =~= store,
{
}

/// Two writes of the same desired state land the same store, whatever stood
/// at the name before: the second write is as if only it had happened.
pub proof fn lemma_repeated_write_converges(
    store: Map<Seq<char>, SecretRecordView>,
    desired: SecretRecordView,
)
    ensures
        spec_apply_secret_write(spec_apply_secret_write(store, desired), desired)
            =~= spec_apply_secret_write(store, desired),
{
}

} // verus!
