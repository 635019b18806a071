//! The credential resource: its user-authored spec, its controller-owned
//! status, the controller-wide defaults, and the resource's derived names,
//! labels and annotations.

use vstd::prelude::*;
use vstd::string::StringExecFns;

verus! {

/// User-authored intent: which container of which storage account to issue
/// tokens for, with optional overrides for the output secret name, the token
/// lifetime and the renewal window.
#[derive(Debug, PartialEq, Eq)]
pub struct SasGeneratorSpec {
    pub storage_account: String,
    pub container_name: String,
    pub secret_name: Option<String>,
    pub sas_ttl_hours: Option<i64>,
    pub sas_renewal_hours: Option<i64>,
}

/// Mathematical image of a spec: strings as character sequences.
pub struct SasGeneratorSpecView {
    pub storage_account: Seq<char>,
    pub container_name: Seq<char>,
    pub secret_name: Option<Seq<char>>,
    pub sas_ttl_hours: Option<i64>,
    pub sas_renewal_hours: Option<i64>,
}

impl View for SasGeneratorSpec {
    type V = SasGeneratorSpecView;

    open spec fn view(&self) -> SasGeneratorSpecView {
        SasGeneratorSpecView {
            storage_account: self.storage_account@,
            container_name: self.container_name@,
            secret_name: self.secret_name.deep_view(),
            sas_ttl_hours: self.sas_ttl_hours,
            sas_renewal_hours: self.sas_renewal_hours,
        }
    }
}

impl Clone for SasGeneratorSpec {
    fn clone(&self) -> (r: Self)
        ensures
            r == *self,
    {
        SasGeneratorSpec {
            storage_account: self.storage_account.clone(),
            container_name: self.container_name.clone(),
            secret_name: match &self.secret_name {
                Some(name) => Some(name.clone()),
                None => None,
            },
            sas_ttl_hours: self.sas_ttl_hours,
            sas_renewal_hours: self.sas_renewal_hours,
        }
    }
}

/// Controller-owned record of the last issuance: the token, the resolved
/// output secret name, and the issuance and expiry instants as RFC 3339
/// strings. Absent on a newly created resource.
#[derive(Debug, PartialEq, Eq)]
pub struct SasGeneratorStatus {
    pub token: Option<String>,
    pub target_secret: Option<String>,
    pub generated: Option<String>,
    pub expiry: Option<String>,
}

/// Mathematical image of a status.
pub struct SasGeneratorStatusView {
    pub token: Option<Seq<char>>,
    pub target_secret: Option<Seq<char>>,
    pub generated: Option<Seq<char>>,
    pub expiry: Option<Seq<char>>,
}

impl View for SasGeneratorStatus {
    type V = SasGeneratorStatusView;

    open spec fn view(&self) -> SasGeneratorStatusView {
        SasGeneratorStatusView {
            token: self.token.deep_view(),
            target_secret: self.target_secret.deep_view(),
            generated: self.generated.deep_view(),
            expiry: self.expiry.deep_view(),
        }
    }
}

impl DeepView for SasGeneratorStatus {
    type V = SasGeneratorStatusView;

    open spec fn deep_view(&self) -> SasGeneratorStatusView {
        self.view()
    }
}

impl Clone for SasGeneratorStatus {
    fn clone(&self) -> (r: Self)
        ensures
            r == *self,
    {
        SasGeneratorStatus {
            token: match &self.token {
                Some(v) => Some(v.clone()),
                None => None,
            },
            target_secret: match &self.target_secret {
                Some(v) => Some(v.clone()),
                None => None,
            },
            generated: match &self.generated {
                Some(v) => Some(v.clone()),
                None => None,
            },
            expiry: match &self.expiry {
                Some(v) => Some(v.clone()),
                None => None,
            },
        }
    }
}

/// A status with nothing recorded yet.
pub open spec fn spec_default_status() -> SasGeneratorStatusView {
    SasGeneratorStatusView { token: None, target_secret: None, generated: None, expiry: None }
}

impl Default for SasGeneratorStatus {
    fn default() -> (r: Self)
        ensures
            r@ == spec_default_status(),
    {
        SasGeneratorStatus { token: None, target_secret: None, generated: None, expiry: None }
    }
}

/// The credential resource as the controller sees it: identity, spec and
/// status.
#[derive(Debug, PartialEq, Eq)]
pub struct SasGenerator {
    pub name: String,
    pub namespace: Option<String>,
    pub spec: SasGeneratorSpec,
    pub status: Option<SasGeneratorStatus>,
}

/// The status half of a resource, as a view.
pub open spec fn view_opt_status(status: Option<SasGeneratorStatus>) -> Option<
    SasGeneratorStatusView,
> {
    match status {
        Some(st) => Some(st@),
        None => None,
    }
}

/// Mathematical image of a resource.
pub struct SasGeneratorView {
    pub name: Seq<char>,
    pub namespace: Option<Seq<char>>,
    pub spec: SasGeneratorSpecView,
    pub status: Option<SasGeneratorStatusView>,
}

impl View for SasGenerator {
    type V = SasGeneratorView;

    open spec fn view(&self) -> SasGeneratorView {
        SasGeneratorView {
            name: self.name@,
            namespace: self.namespace.deep_view(),
            spec: self.spec@,
            status: view_opt_status(self.status),
        }
    }
}

impl Clone for SasGenerator {
    fn clone(&self) -> (r: Self)
        ensures
            r == *self,
    {
        SasGenerator {
            name: self.name.clone(),
            namespace: match &self.namespace {
                Some(ns) => Some(ns.clone()),
                None => None,
            },
            spec: self.spec.clone(),
            status: match &self.status {
                Some(st) => Some(st.clone()),
                None => None,
            },
        }
    }
}

/// Renewal-window default when neither the resource nor the environment
/// overrides it, in hours.
pub const DEFAULT_RENEWAL_HOURS: i64 = 24;

/// Token-lifetime default when neither the resource nor the environment
/// overrides it, in hours.
pub const DEFAULT_TTL_HOURS: i64 = 48;

/// Controller-wide configuration, established once at startup.
#[derive(Debug, PartialEq, Eq)]
pub struct Config {
    pub sas_renewal_hours: i64,
    pub sas_ttl_hours: i64,
}

impl Config {
    /// Settle the controller-wide defaults from optional environment-supplied
    /// overrides.
    pub fn resolve(renewal_hours: Option<i64>, ttl_hours: Option<i64>) -> (r: Self)
        ensures
            r.sas_renewal_hours == match renewal_hours {
                Some(h) => h,
                None => DEFAULT_RENEWAL_HOURS,
            },
            r.sas_ttl_hours == match ttl_hours {
                Some(h) => h,
                None => DEFAULT_TTL_HOURS,
            },
    {
        Config {
            sas_renewal_hours: match renewal_hours {
                Some(h) => h,
                None => DEFAULT_RENEWAL_HOURS,
            },
            sas_ttl_hours: match ttl_hours {
                Some(h) => h,
                None => DEFAULT_TTL_HOURS,
            },
        }
    }
}

/// The immutable context handed to every reconciliation: the controller-wide
/// renewal-window and token-lifetime defaults. Read-only, so safe to share
/// across parallel reconciliations.
#[derive(Clone, Copy, Debug, PartialEq, Eq)]
pub struct ContextData {
    pub sas_renewal_hours: i64,
    pub sas_ttl_hours: i64,
}

impl ContextData {
    pub fn new(sas_renewal_hours: i64, sas_ttl_hours: i64) -> (r: Self)
        ensures
            r.sas_renewal_hours == sas_renewal_hours,
            r.sas_ttl_hours == sas_ttl_hours,
    {
        ContextData { sas_renewal_hours, sas_ttl_hours }
    }
}

/// The output secret's name: the explicit override if one is handed in, else
/// the name pinned in the resource's spec, else `volsync-<account>-<container>`.
pub open spec fn spec_target_secret_name(
    spec: SasGeneratorSpecView,
    override_name: Option<Seq<char>>,
) -> Seq<char> {
    match override_name {
        Some(name) => name,
        None => match spec.secret_name {
            Some(name) => name,
            None => "volsync-"@ + spec.storage_account + "-"@ + spec.container_name,
        },
    }
}

/// The label set that marks the secret's provenance: its storage account and
/// container.
pub open spec fn spec_secret_labels(spec: SasGeneratorSpecView) -> Seq<(Seq<char>, Seq<char>)> {
    seq![
        ("sas.azure.com/account"@, spec.storage_account),
        ("sas.azure.com/container"@, spec.container_name),
    ]
}

/// The status a derived artifact is stamped from: the explicit override if
/// one is handed in, else the resource's own status, else an empty one.
pub open spec fn spec_effective_status(
    status: Option<SasGeneratorStatusView>,
    override_status: Option<SasGeneratorStatusView>,
) -> SasGeneratorStatusView {
    match override_status {
        Some(st) => st,
        None => match status {
            Some(st) => st,
            None => spec_default_status(),
        },
    }
}

/// The annotation set carrying the issuance and expiry timestamps, an absent
/// one carried as the empty string.
pub open spec fn spec_secret_annotations(st: SasGeneratorStatusView) -> Seq<
    (Seq<char>, Seq<char>),
> {
    seq![
        (
            "sas.azure.com/generated"@,
            match st.generated {
                Some(g) => g,
                None => Seq::<char>::empty(),
            },
        ),
        (
            "sas.azure.com/expires"@,
            match st.expiry {
                Some(e) => e,
                None => Seq::<char>::empty(),
            },
        ),
    ]
}

/// The fields worth reporting when a resource is loaded, as plain values for
/// the caller's log sink.
#[derive(Debug, PartialEq, Eq)]
pub struct LogLine {
    pub crd: String,
    pub account: String,
    pub container: String,
    pub ttl: Option<i64>,
    pub renewal: Option<i64>,
    pub target_secret: String,
    pub token_present: bool,
    pub expiry: Option<String>,
}

impl SasGenerator {
    /// Resolve the output secret's name, preferring the explicit override,
    /// then the spec's pinned name, then the computed default.
    pub fn target_secret_name(&self, override_name: Option<&str>) -> (r: String)
        ensures
            r@ == spec_target_secret_name(self.spec@, override_name.deep_view()),
    {
        match override_name {
            Some(name) => String::from_str(name),
            None => match &self.spec.secret_name {
                Some(name) => name.clone(),
                None => {
                    let prefixed = String::from_str("volsync-").concat(
                        self.spec.storage_account.as_str(),
                    );
                    prefixed.concat("-").concat(self.spec.container_name.as_str())
                },
            },
        }
    }

    /// The provenance labels for the derived secret.
    pub fn secret_labels(&self) -> (r: Vec<(String, String)>)
        ensures
            r.deep_view() == spec_secret_labels(self.spec@),
    {
        let r = vec![
            (String::from_str("sas.azure.com/account"), self.spec.storage_account.clone()),
            (String::from_str("sas.azure.com/container"), self.spec.container_name.clone()),
        ];
        proof {
            assert(r.deep_view() =~= spec_secret_labels(self.spec@));
        }
        r
    }

    /// The timestamp annotations for the derived secret, stamped from the
    /// handed-in status if there is one, else from the resource's own.
    pub fn secret_annotations(&self, status_override: Option<&SasGeneratorStatus>) -> (r: Vec<
        (String, String),
    >)
        ensures
            r.deep_view() == spec_secret_annotations(
                spec_effective_status(
                    view_opt_status(self.status),
                    status_override.deep_view(),
                ),
            ),
    {
        let st: SasGeneratorStatus = match status_override {
            Some(st) => st.clone(),
            None => match &self.status {
                Some(st) => st.clone(),
                None => SasGeneratorStatus::default(),
            },
        };
        let generated = match st.generated {
            Some(g) => g,
            None => String::new(),
        };
        let expiry = match st.expiry {
            Some(e) => e,
            None => String::new(),
        };
        let r = vec![
            (String::from_str("sas.azure.com/generated"), generated),
            (String::from_str("sas.azure.com/expires"), expiry),
        ];
        proof {
            assert(r.deep_view() =~= spec_secret_annotations(
                spec_effective_status(view_opt_status(self.status), status_override.deep_view()),
            ));
        }
        r
    }

    /// The load-time summary of the resource: what the controller reports
    /// before deciding anything.
    pub fn log_spec(&self) -> (r: LogLine)
        ensures
            r.crd@ == self.name@,
            r.account@ == self.spec.storage_account@,
            r.container@ == self.spec.container_name@,
            r.ttl == self.spec.sas_ttl_hours,
            r.renewal == self.spec.sas_renewal_hours,
            r.target_secret@ == spec_target_secret_name(self.spec@, None),
            r.token_present == match self@.status {
                Some(st) => st.token is Some,
                None => false,
            },
            r.expiry.deep_view() == match self@.status {
                Some(st) => st.expiry,
                None => None::<Seq<char>>,
            },
    {
        let token_present = match &self.status {
            Some(st) => st.token.is_some(),
            None => false,
        };
        let expiry = match &self.status {
            Some(st) => match &st.expiry {
                Some(e) => Some(e.clone()),
                None => None,
            },
            None => None,
        };
        LogLine {
            crd: self.name.clone(),
            account: self.spec.storage_account.clone(),
            container: self.spec.container_name.clone(),
            ttl: self.spec.sas_ttl_hours,
            renewal: self.spec.sas_renewal_hours,
            target_secret: self.target_secret_name(None),
            token_present,
            expiry,
        }
    }
}

} // verus!
