//! The reconciliation engine: the expiry policy deciding when a token must
//! be renewed, the status assembled from a successful issuance, and the
//! closed error taxonomy every failure surfaces through.

use crate::crd::{
    spec_secret_annotations, spec_secret_labels, spec_target_secret_name, view_opt_status,
    ContextData, SasGenerator, SasGeneratorStatus, SasGeneratorStatusView, SasGeneratorView,
};
use crate::sas::{
    instant_in_range, issuance_window, ttl_in_range, IssueFault, SasTokenInfo,
};
use crate::secret::spec_desired_secret;
use crate::status::{spec_status_patch, update_crd_status, StatusPatch};
use crate::utils::{format_rfc3339, parse_rfc3339, rfc3339_parse, spec_format_rfc3339};
use vstd::prelude::*;
use vstd::string::StringExecFns;

verus! {

/// A failed read or write against the resource store, with the store's
/// status code where one was reported.
#[derive(Debug, PartialEq, Eq)]
pub struct StoreFault {
    pub code: Option<u16>,
    pub message: String,
}

impl Clone for StoreFault {
    fn clone(&self) -> (r: Self)
        ensures
            r == *self,
    {
        StoreFault { code: self.code, message: self.message.clone() }
    }
}

/// Everything a reconciliation can fail with. Each kind carries its
/// structured cause, so callers branch on the kind, never on message text.
#[derive(Debug, PartialEq, Eq)]
#[allow(inconsistent_fields)]
pub enum ReconcileError {
    /// A read or write against the resource store failed.
    ResourceStoreError { fault: StoreFault },
    /// The credential service produced no token: the identity mechanism
    /// refused, or every attempt the retry budget allowed failed.
    IssuanceError { fault: IssueFault },
    /// The status-subresource or secret patch was refused.
    ApplyError { fault: StoreFault },
}

/// How long to wait before the next reconciliation after a quiet or
/// successful pass, in seconds.
pub const REQUEUE_OK_SECONDS: u64 = 15;

/// The fixed cool-down after a failed reconciliation, in seconds: a steady
/// cadence, not an escalating backoff.
pub const REQUEUE_ERROR_SECONDS: u64 = 300;

/// The orchestrator's instruction to the hosting framework: when to re-invoke
/// reconciliation for this resource.
#[derive(Clone, Copy, Debug, PartialEq, Eq)]
pub struct Action {
    pub requeue_after_seconds: u64,
}

/// Every reconciliation failure produces the same fixed cool-down.
pub fn error_policy(_err: &ReconcileError) -> (a: Action)
    ensures
        a.requeue_after_seconds == REQUEUE_ERROR_SECONDS,
{
    Action { requeue_after_seconds: REQUEUE_ERROR_SECONDS }
}

/// Whether the token must be renewed now. True with no prior status, no
/// recorded expiry, or an expiry string the parser refuses (fail open: an
/// extra issuance over an unverifiable expiry); otherwise true exactly when
/// `now` has reached the expiry minus the renewal window.
pub open spec fn spec_should_regenerate(
    now: int,
    status: Option<SasGeneratorStatusView>,
    renewal_hours: int,
) -> bool {
    match status {
        None => true,
        Some(st) => match st.expiry {
            None => true,
            Some(e) => match rfc3339_parse(e) {
                None => true,
                Some(t) => now >= t - renewal_hours * 3600,
            },
        },
    }
}

/// Decide whether the token must be renewed now.
pub fn should_regenerate(now: i64, status: &Option<SasGeneratorStatus>, renewal_hours: i64) -> (r:
    bool)
    ensures
        r == spec_should_regenerate(now as int, view_opt_status(*status), renewal_hours as int),
{
    match status {
        None => true,
        Some(st) => match &st.expiry {
            None => true,
            Some(e) => match parse_rfc3339(e.as_str()) {
                None => true,
                Some(t) => now as i128 >= t as i128 - (renewal_hours as i128) * 3600,
            },
        },
    }
}

/// A resource with no status at all is always due for its first issuance.
pub proof fn lemma_no_status_regenerates(now: int, renewal_hours: int)
    ensures
        spec_should_regenerate(now, None, renewal_hours),
{
}

/// With a parseable expiry, regeneration fires exactly when `now` has
/// reached the expiry minus the renewal window, whatever the other fields.
pub proof fn lemma_parseable_expiry_threshold(
    now: int,
    status: SasGeneratorStatusView,
    renewal_hours: int,
    expiry_secs: int,
)
    requires
        status.expiry matches Some(e) && rfc3339_parse(e) == Some(expiry_secs),
    ensures
        spec_should_regenerate(now, Some(status), renewal_hours) <==> now >= expiry_secs
            - renewal_hours * 3600,
{
}

/// An expiry string the parser refuses always regenerates, whatever the
/// other fields hold.
pub proof fn lemma_unparseable_expiry_regenerates(
    now: int,
    status: SasGeneratorStatusView,
    renewal_hours: int,
)
    requires
        status.expiry matches Some(e) && rfc3339_parse(e) is None,
    ensures
        spec_should_regenerate(now, Some(status), renewal_hours),
{
}

/// The status a successful issuance publishes: the token itself, the
/// resolved secret name, and the two instants rendered as RFC 3339.
pub open spec fn spec_build_status(
    token: Seq<char>,
    generated: int,
    expiry: int,
    secret_name: Seq<char>,
) -> SasGeneratorStatusView {
    SasGeneratorStatusView {
        token: Some(token),
        target_secret: Some(secret_name),
        generated: Some(spec_format_rfc3339(generated)),
        expiry: Some(spec_format_rfc3339(expiry)),
    }
}

/// Assemble the status record for one successful issuance.
pub fn build_status(token_info: SasTokenInfo, secret_name: &str) -> (r: SasGeneratorStatus)
    ensures
        r@ == spec_build_status(
            token_info.token@,
            token_info.generated as int,
            token_info.expiry as int,
            secret_name@,
        ),
{
    SasGeneratorStatus {
        token: Some(token_info.token),
        target_secret: Some(String::from_str(secret_name)),
        generated: Some(format_rfc3339(token_info.generated)),
        expiry: Some(format_rfc3339(token_info.expiry)),
    }
}

/// Round trip: one successful issuance with a token and two instants yields
/// a status carrying exactly that token and the two instants rendered as
/// RFC 3339, and a derived secret whose `sas_token` data value is that very
/// token.
pub proof fn lemma_issuance_round_trip(
    resource: SasGeneratorView,
    token: Seq<char>,
    generated: int,
    expiry: int,
    name: Seq<char>,
    labels: Seq<(Seq<char>, Seq<char>)>,
    annotations: Seq<(Seq<char>, Seq<char>)>,
)
    ensures
        ({
            let st = spec_build_status(token, generated, expiry, name);
            let secret = spec_desired_secret(resource, name, labels, annotations, st);
            &&& st.token == Some(token)
            &&& st.target_secret == Some(name)
            &&& st.generated == Some(spec_format_rfc3339(generated))
            &&& st.expiry == Some(spec_format_rfc3339(expiry))
            &&& secret.string_data[0] == ("sas_token"@, token)
        }),
{
}

/// What the issuer is asked for: one token for this account and container,
/// valid over the already-computed window.
#[derive(Debug, PartialEq, Eq)]
pub struct IssueRequest {
    pub account: String,
    pub container: String,
    pub ttl_hours: i64,
    pub start: i64,
    pub expiry: i64,
}

/// The renewal window in force for a resource: its own override, else the
/// controller-wide default.
pub open spec fn spec_effective_renewal_hours(resource: SasGeneratorView, ctx: ContextData) -> int {
    match resource.spec.sas_renewal_hours {
        Some(h) => h as int,
        None => ctx.sas_renewal_hours as int,
    }
}

/// The token lifetime in force for a resource: its own override, else the
/// controller-wide default.
pub open spec fn spec_effective_ttl_hours(resource: SasGeneratorView, ctx: ContextData) -> int {
    match resource.spec.sas_ttl_hours {
        Some(h) => h as int,
        None => ctx.sas_ttl_hours as int,
    }
}

/// Where one reconciliation pass stands.
#[derive(Debug, PartialEq, Eq)]
pub enum ReconcilePhase {
    /// Regeneration is due and the issuer has been asked for a token.
    AwaitingIssue,
    /// The secret write is out; the status that must follow it is pending.
    AwaitingSecret { pending_status: SasGeneratorStatus },
    /// The status patch is out.
    AwaitingStatus,
    /// The pass is over; the requeue directive has been handed out.
    Settled,
}

/// One reconciliation pass for one resource. The hosting framework runs at
/// most one pass per resource identity at a time, so the machine carries no
/// lock: it owns its resource snapshot and the instant the pass started.
#[derive(Debug, PartialEq, Eq)]
pub struct ReconcileMachine {
    pub resource: SasGenerator,
    pub now: i64,
    pub ttl_hours: i64,
    pub phase: ReconcilePhase,
}

impl ReconcileMachine {
    /// Bounds under which the expiry arithmetic of this pass stays in range.
    pub open spec fn wf(&self) -> bool {
        &&& instant_in_range(self.now as int)
        &&& ttl_in_range(self.ttl_hours as int)
    }
}

/// What the caller must do next for the pass to advance.
#[derive(Debug, PartialEq, Eq)]
pub enum ReconcileOp {
    /// The pass is over: requeue after the contained action's delay, or
    /// surface the error (whose cool-down `error_policy` fixes).
    Done { result: Result<Action, ReconcileError> },
    /// Run the token issuer for this request.
    Issue { request: IssueRequest },
    /// Make the store carry this secret: look the name up, then create or
    /// patch as `ensure_secret` decides.
    PublishSecret {
        name: String,
        labels: Vec<(String, String)>,
        annotations: Vec<(String, String)>,
        status: SasGeneratorStatus,
    },
    /// Apply this patch to the status sub-resource.
    PublishStatus { patch: StatusPatch },
}

/// What the caller reports back after acting on an op.
#[derive(Debug, PartialEq, Eq)]
#[allow(inconsistent_fields)]
pub enum ReconcileEvent {
    /// The issuer handed out a token, or failed for good.
    Issued { outcome: Result<String, IssueFault> },
    /// The secret write landed, or the store refused it.
    SecretPublished { outcome: Result<(), StoreFault> },
    /// The status patch landed, or the store refused it.
    StatusPublished { outcome: Result<(), StoreFault> },
}

/// Whether an event is the one the machine's phase is waiting for.
pub open spec fn reconcile_event_fits(m: ReconcileMachine, ev: ReconcileEvent) -> bool {
    match m.phase {
        ReconcilePhase::AwaitingIssue => ev is Issued,
        ReconcilePhase::AwaitingSecret { .. } => ev is SecretPublished,
        ReconcilePhase::AwaitingStatus => ev is StatusPublished,
        ReconcilePhase::Settled => false,
    }
}

/// Begin one reconciliation pass: resolve the effective renewal window and
/// token lifetime, evaluate the expiry policy, and either finish at once
/// with the quiet requeue or ask the issuer for a token over the computed
/// window.
pub fn reconcile(resource: SasGenerator, ctx: &ContextData, now: i64) -> (r: (
    ReconcileMachine,
    ReconcileOp,
))
    requires
        instant_in_range(now as int),
        ttl_in_range(spec_effective_ttl_hours(resource@, *ctx)),
    ensures
        r.0.resource == resource,
        r.0.now == now,
        r.0.ttl_hours as int == spec_effective_ttl_hours(resource@, *ctx),
        r.0.wf(),
        !spec_should_regenerate(
            now as int,
            resource@.status,
            spec_effective_renewal_hours(resource@, *ctx),
        ) ==> r.0.phase is Settled && r.1 == (ReconcileOp::Done {
            result: Ok::<Action, ReconcileError>(
                Action { requeue_after_seconds: REQUEUE_OK_SECONDS },
            ),
        }),
        spec_should_regenerate(
            now as int,
            resource@.status,
            spec_effective_renewal_hours(resource@, *ctx),
        ) ==> r.0.phase is AwaitingIssue && (r.1 matches ReconcileOp::Issue { request }
            && request.account@ == resource.spec.storage_account@
            && request.container@ == resource.spec.container_name@
            && request.ttl_hours as int == spec_effective_ttl_hours(resource@, *ctx)
            && request.start == now - 5 && request.expiry as int == now
            + spec_effective_ttl_hours(resource@, *ctx) * 3600),
{
    let renewal_hours = match resource.spec.sas_renewal_hours {
        Some(h) => h,
        None => ctx.sas_renewal_hours,
    };
    let ttl_hours = match resource.spec.sas_ttl_hours {
        Some(h) => h,
        None => ctx.sas_ttl_hours,
    };
    if should_regenerate(now, &resource.status, renewal_hours) {
        let (start, expiry) = issuance_window(now, ttl_hours);
        let request = IssueRequest {
            account: resource.spec.storage_account.clone(),
            container: resource.spec.container_name.clone(),
            ttl_hours,
            start,
            expiry,
        };
        (
            ReconcileMachine { resource, now, ttl_hours, phase: ReconcilePhase::AwaitingIssue },
            ReconcileOp::Issue { request },
        )
    } else {
        (
            ReconcileMachine { resource, now, ttl_hours, phase: ReconcilePhase::Settled },
            ReconcileOp::Done {
                result: Ok(Action { requeue_after_seconds: REQUEUE_OK_SECONDS }),
            },
        )
    }
}

/// Advance one reconciliation pass by one reported event.
///
/// A token in hand turns into the secret write (the secret goes first: the
/// status advertises the secret's existence, so it must not lead); a landed
/// secret turns into the status patch; a landed patch finishes the pass with
/// the quiet requeue. Any failure finishes the pass at once with the kind
/// the failing step owns; the other artifact is not rolled back, and the
/// next pass reconverges from scratch.
pub fn reconcile_step(m: ReconcileMachine, ev: ReconcileEvent) -> (r: (
    ReconcileMachine,
    ReconcileOp,
))
    requires
        m.wf(),
        reconcile_event_fits(m, ev),
    ensures
        r.0.resource == m.resource,
        r.0.now == m.now,
        r.0.ttl_hours == m.ttl_hours,
        r.0.wf(),
        ev matches ReconcileEvent::Issued { outcome: Ok(token) } ==> ({
            let target = spec_target_secret_name(m.resource@.spec, None);
            let new_status = spec_build_status(
                token@,
                m.now as int,
                m.now + m.ttl_hours * 3600,
                target,
            );
            &&& (r.1 matches ReconcileOp::PublishSecret { name, labels, annotations, status }
                && name@ == target && labels.deep_view() == spec_secret_labels(m.resource@.spec)
                && annotations.deep_view() == spec_secret_annotations(new_status) && status@
                == new_status)
            &&& (r.0.phase matches ReconcilePhase::AwaitingSecret { pending_status }
                && pending_status@ == new_status)
        }),
        ev matches ReconcileEvent::Issued { outcome: Err(fault) } ==> r.0.phase is Settled && r.1
            == (ReconcileOp::Done {
            result: Err::<Action, ReconcileError>(ReconcileError::IssuanceError { fault }),
        }),
        ev matches ReconcileEvent::SecretPublished { outcome: Ok(()) } ==> (
        m.phase matches ReconcilePhase::AwaitingSecret { pending_status } ==> ({
            &&& (r.1 matches ReconcileOp::PublishStatus { patch } && patch@ == spec_status_patch(
                m.resource@,
                pending_status@,
            ))
            &&& r.0.phase is AwaitingStatus
        })),
        ev matches ReconcileEvent::SecretPublished { outcome: Err(fault) } ==> r.0.phase
            is Settled && r.1 == (ReconcileOp::Done {
            result: Err::<Action, ReconcileError>(ReconcileError::ResourceStoreError { fault }),
        }),
        ev matches ReconcileEvent::StatusPublished { outcome: Ok(()) } ==> r.0.phase is Settled
            && r.1 == (ReconcileOp::Done {
            result: Ok::<Action, ReconcileError>(
                Action { requeue_after_seconds: REQUEUE_OK_SECONDS },
            ),
        }),
        ev matches ReconcileEvent::StatusPublished { outcome: Err(fault) } ==> r.0.phase
            is Settled && r.1 == (ReconcileOp::Done {
            result: Err::<Action, ReconcileError>(ReconcileError::ApplyError { fault }),
        }),
{
    let ReconcileMachine { resource, now, ttl_hours, phase } = m;
    match (phase, ev) {
        (ReconcilePhase::AwaitingIssue, ReconcileEvent::Issued { outcome }) => match outcome {
            Ok(token) => {
                let expiry = now + ttl_hours * 3600;
                let token_info = SasTokenInfo { token, expiry, generated: now };
                let target = resource.target_secret_name(None);
                let status = build_status(token_info, target.as_str());
                let labels = resource.secret_labels();
                let annotations = resource.secret_annotations(Some(&status));
                let pending_status = status.clone();
                (
                    ReconcileMachine {
                        resource,
                        now,
                        ttl_hours,
                        phase: ReconcilePhase::AwaitingSecret { pending_status },
                    },
                    ReconcileOp::PublishSecret { name: target, labels, annotations, status },
                )
            },
            Err(fault) => (
                ReconcileMachine { resource, now, ttl_hours, phase: ReconcilePhase::Settled },
                ReconcileOp::Done { result: Err(ReconcileError::IssuanceError { fault }) },
            ),
        },
        (
            ReconcilePhase::AwaitingSecret { pending_status },
            ReconcileEvent::SecretPublished { outcome },
        ) => match outcome {
            Ok(()) => {
                let patch = update_crd_status(&resource, pending_status);
                (
                    ReconcileMachine {
                        resource,
                        now,
                        ttl_hours,
                        phase: ReconcilePhase::AwaitingStatus,
                    },
                    ReconcileOp::PublishStatus { patch },
                )
            },
            Err(fault) => (
                ReconcileMachine { resource, now, ttl_hours, phase: ReconcilePhase::Settled },
                ReconcileOp::Done {
                    result: Err(ReconcileError::ResourceStoreError { fault }),
                },
            ),
        },
        (ReconcilePhase::AwaitingStatus, ReconcileEvent::StatusPublished { outcome }) => match outcome {
            Ok(()) => (
                ReconcileMachine { resource, now, ttl_hours, phase: ReconcilePhase::Settled },
                ReconcileOp::Done {
                    result: Ok(Action { requeue_after_seconds: REQUEUE_OK_SECONDS }),
                },
            ),
            Err(fault) => (
                ReconcileMachine { resource, now, ttl_hours, phase: ReconcilePhase::Settled },
                ReconcileOp::Done { result: Err(ReconcileError::ApplyError { fault }) },
            ),
        },
        (other_phase, _) => (
            ReconcileMachine { resource, now, ttl_hours, phase: other_phase },
            ReconcileOp::Done {
                result: Ok(Action { requeue_after_seconds: REQUEUE_OK_SECONDS }),
            },
        ),
    }
}

} // verus!
