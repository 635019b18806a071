//! The orchestrator and the issuance machine, walked through whole
//! scenarios.

use sas_operator::crd::{ContextData, SasGenerator, SasGeneratorSpec, SasGeneratorStatus};
use sas_operator::reconcile::{
    build_status, error_policy, reconcile, reconcile_step, Action, IssueRequest, ReconcileError,
    ReconcileEvent, ReconcileOp, StoreFault, REQUEUE_ERROR_SECONDS, REQUEUE_OK_SECONDS,
};
use sas_operator::sas::{
    attempt_delay_ms, backoff_ms, issue_start, issue_step, issuance_window, IssueEvent,
    IssueFault, IssueStep, RetryPolicy, SasTokenInfo,
};
use sas_operator::status::update_crd_status;

// 2024-01-01T00:00:00Z
const T0: i64 = 1_704_067_200;

fn resource(status: Option<SasGeneratorStatus>, ttl: Option<i64>, renewal: Option<i64>) -> SasGenerator {
    SasGenerator {
        name: "my-gen".to_string(),
        namespace: Some("apps".to_string()),
        spec: SasGeneratorSpec {
            storage_account: "acct".to_string(),
            container_name: "cont".to_string(),
            secret_name: None,
            sas_ttl_hours: ttl,
            sas_renewal_hours: renewal,
        },
        status,
    }
}

fn ctx() -> ContextData {
    ContextData::new(24, 48)
}

#[test]
fn backoff_doubles_and_caps() {
    let p = RetryPolicy::standard();
    assert_eq!(backoff_ms(&p, 0), 500);
    assert_eq!(backoff_ms(&p, 1), 1000);
    assert_eq!(backoff_ms(&p, 2), 2000);
    assert_eq!(backoff_ms(&p, 3), 4000);
    assert_eq!(backoff_ms(&p, 10), 30_000);
    let tight = RetryPolicy { initial_delay_ms: 500, backoff_factor: 2, max_delay_ms: 3000, max_attempts: 5 };
    assert_eq!(backoff_ms(&tight, 3), 3000);
}

#[test]
fn jittered_delay_stays_below_backoff() {
    let p = RetryPolicy::standard();
    for _ in 0..100 {
        assert!(attempt_delay_ms(&p, 0) <= 500);
        assert!(attempt_delay_ms(&p, 3) <= 4000);
    }
}

#[test]
fn jitter_actually_scatters() {
    // The jitter draws a factor from [0, 1): across two hundred draws at
    // least one must land well below the un-jittered delay.
    let p = RetryPolicy::standard();
    let min = (0..200).map(|_| attempt_delay_ms(&p, 0)).min().unwrap();
    assert!(min < 250, "two hundred draws never fell below half the delay");
}

#[test]
fn window_backdates_five_seconds() {
    let (start, expiry) = issuance_window(T0, 1);
    assert_eq!(start, T0 - 5);
    assert_eq!(expiry, T0 + 3600);
}

#[test]
fn issue_machine_success_on_first_attempt() {
    let (m, step) = issue_start(RetryPolicy::standard());
    assert!(matches!(step, IssueStep::ObtainCredential));
    let (m, step) = issue_step(m, IssueEvent::CredentialObtained { outcome: Ok(()) });
    assert!(matches!(step, IssueStep::Attempt));
    let (_m, step) = issue_step(m, IssueEvent::AttemptFinished { outcome: Ok("tok".to_string()) });
    assert_eq!(step, IssueStep::Complete { outcome: Ok("tok".to_string()) });
}

#[test]
fn issue_machine_credential_failure_is_distinct_and_unretried() {
    let (m, _step) = issue_start(RetryPolicy::standard());
    let (_m, step) = issue_step(
        m,
        IssueEvent::CredentialObtained { outcome: Err("no environment".to_string()) },
    );
    assert_eq!(
        step,
        IssueStep::Complete {
            outcome: Err(IssueFault::Credential { cause: "no environment".to_string() })
        }
    );
}

#[test]
fn issue_machine_exhausts_after_five_attempts() {
    let (mut m, step) = issue_start(RetryPolicy::standard());
    assert!(matches!(step, IssueStep::ObtainCredential));
    let (m2, step) = issue_step(m, IssueEvent::CredentialObtained { outcome: Ok(()) });
    m = m2;
    assert!(matches!(step, IssueStep::Attempt));
    let mut attempts = 0;
    let mut waits = 0;
    let mut last = None;
    loop {
        let (m2, step) = issue_step(
            m,
            IssueEvent::AttemptFinished { outcome: Err(format!("boom {attempts}")) },
        );
        m = m2;
        attempts += 1;
        match step {
            IssueStep::Backoff { delay_ms } => {
                assert!(delay_ms <= backoff_ms(&RetryPolicy::standard(), waits));
                waits += 1;
                let (m2, step) = issue_step(m, IssueEvent::BackoffElapsed);
                m = m2;
                assert!(matches!(step, IssueStep::Attempt));
            }
            IssueStep::Complete { outcome } => {
                last = Some(outcome);
                break;
            }
            other => panic!("unexpected step {other:?}"),
        }
    }
    assert_eq!(attempts, 5);
    assert_eq!(waits, 4);
    assert_eq!(
        last.unwrap(),
        Err(IssueFault::Exhausted { attempts: 5, cause: "boom 4".to_string() })
    );
}

#[test]
fn fresh_resource_regenerates_and_publishes() {
    // No status, TTL one hour, renewal one hour: regeneration fires and the
    // resulting status expiry is one hour past the pass's instant.
    let (m, op) = reconcile(resource(None, Some(1), Some(1)), &ctx(), T0);
    let request = match op {
        ReconcileOp::Issue { request } => request,
        other => panic!("expected an issuance, got {other:?}"),
    };
    assert_eq!(
        request,
        IssueRequest {
            account: "acct".to_string(),
            container: "cont".to_string(),
            ttl_hours: 1,
            start: T0 - 5,
            expiry: T0 + 3600,
        }
    );

    let (m, op) = reconcile_step(m, ReconcileEvent::Issued { outcome: Ok("tok".to_string()) });
    let (name, status) = match op {
        ReconcileOp::PublishSecret { name, labels, annotations, status } => {
            assert_eq!(labels.len(), 2);
            assert_eq!(
                annotations,
                vec![
                    (
                        "sas.azure.com/generated".to_string(),
                        "2024-01-01T00:00:00Z".to_string()
                    ),
                    ("sas.azure.com/expires".to_string(), "2024-01-01T01:00:00Z".to_string()),
                ]
            );
            (name, status)
        }
        other => panic!("expected the secret write, got {other:?}"),
    };
    assert_eq!(name, "volsync-acct-cont");
    assert_eq!(status.token.as_deref(), Some("tok"));
    assert_eq!(status.expiry.as_deref(), Some("2024-01-01T01:00:00Z"));
    assert_eq!(status.generated.as_deref(), Some("2024-01-01T00:00:00Z"));
    assert_eq!(status.target_secret.as_deref(), Some("volsync-acct-cont"));

    let (m, op) = reconcile_step(m, ReconcileEvent::SecretPublished { outcome: Ok(()) });
    let patch = match op {
        ReconcileOp::PublishStatus { patch } => patch,
        other => panic!("expected the status patch, got {other:?}"),
    };
    assert_eq!(patch.name, "my-gen");
    assert_eq!(patch.namespace.as_deref(), Some("apps"));
    assert_eq!(patch.spec.storage_account, "acct");
    assert_eq!(patch.status.expiry.as_deref(), Some("2024-01-01T01:00:00Z"));

    let (_m, op) = reconcile_step(m, ReconcileEvent::StatusPublished { outcome: Ok(()) });
    assert_eq!(
        op,
        ReconcileOp::Done { result: Ok(Action { requeue_after_seconds: REQUEUE_OK_SECONDS }) }
    );
}

#[test]
fn far_expiry_is_quiet() {
    // Expiry ten hours out, renewal one hour: no issuance, quiet requeue.
    let status = SasGeneratorStatus {
        token: Some("tok".to_string()),
        target_secret: Some("volsync-acct-cont".to_string()),
        generated: Some("2024-01-01T00:00:00Z".to_string()),
        expiry: Some("2024-01-01T10:00:00Z".to_string()),
    };
    let (_m, op) = reconcile(resource(Some(status), None, Some(1)), &ctx(), T0);
    assert_eq!(
        op,
        ReconcileOp::Done { result: Ok(Action { requeue_after_seconds: REQUEUE_OK_SECONDS }) }
    );
}

#[test]
fn exhausted_issuance_cools_down_without_writes() {
    // Issuance fails on every attempt: the pass reports the failure, emits
    // no secret or status write, and the caller is told to wait 300 s.
    let (m, op) = reconcile(resource(None, Some(1), Some(1)), &ctx(), T0);
    assert!(matches!(op, ReconcileOp::Issue { .. }));
    let fault = IssueFault::Exhausted { attempts: 5, cause: "boom".to_string() };
    let (_m, op) = reconcile_step(m, ReconcileEvent::Issued { outcome: Err(fault.clone()) });
    let err = match op {
        ReconcileOp::Done { result: Err(err) } => err,
        other => panic!("expected the failure, got {other:?}"),
    };
    assert_eq!(err, ReconcileError::IssuanceError { fault });
    let action = error_policy(&err);
    assert_eq!(action.requeue_after_seconds, REQUEUE_ERROR_SECONDS);
    assert_eq!(action.requeue_after_seconds, 300);
}

#[test]
fn secret_failure_surfaces_as_store_error() {
    let (m, _op) = reconcile(resource(None, Some(1), Some(1)), &ctx(), T0);
    let (m, _op) = reconcile_step(m, ReconcileEvent::Issued { outcome: Ok("tok".to_string()) });
    let fault = StoreFault { code: Some(500), message: "boom".to_string() };
    let (_m, op) = reconcile_step(
        m,
        ReconcileEvent::SecretPublished { outcome: Err(fault.clone()) },
    );
    assert_eq!(
        op,
        ReconcileOp::Done { result: Err(ReconcileError::ResourceStoreError { fault }) }
    );
}

#[test]
fn status_failure_surfaces_as_apply_error() {
    let (m, _op) = reconcile(resource(None, Some(1), Some(1)), &ctx(), T0);
    let (m, _op) = reconcile_step(m, ReconcileEvent::Issued { outcome: Ok("tok".to_string()) });
    let (m, _op) = reconcile_step(m, ReconcileEvent::SecretPublished { outcome: Ok(()) });
    let fault = StoreFault { code: None, message: "conflict".to_string() };
    let (_m, op) = reconcile_step(
        m,
        ReconcileEvent::StatusPublished { outcome: Err(fault.clone()) },
    );
    assert_eq!(op, ReconcileOp::Done { result: Err(ReconcileError::ApplyError { fault }) });
}

#[test]
fn build_status_round_trip() {
    // Issuance with token T, generated G, expiry E: the status carries T and
    // the two rendered instants, and the secret's data carries T.
    let info = SasTokenInfo { token: "T".to_string(), generated: T0, expiry: T0 + 7200 };
    let status = build_status(info, "volsync-acct-cont");
    assert_eq!(status.token.as_deref(), Some("T"));
    assert_eq!(status.generated.as_deref(), Some("2024-01-01T00:00:00Z"));
    assert_eq!(status.expiry.as_deref(), Some("2024-01-01T02:00:00Z"));
    assert_eq!(status.target_secret.as_deref(), Some("volsync-acct-cont"));

    let r = resource(None, None, None);
    let secret = sas_operator::secret::desired_secret(&r, "volsync-acct-cont", vec![], vec![], Some(&status));
    assert_eq!(
        secret.string_data[0],
        ("sas_token".to_string(), "T".to_string())
    );
}

#[test]
fn status_patch_preserves_spec() {
    let r = resource(None, Some(7), Some(3));
    let status = SasGeneratorStatus {
        token: Some("tok".to_string()),
        target_secret: None,
        generated: None,
        expiry: None,
    };
    let patch = update_crd_status(&r, status);
    assert_eq!(patch.name, "my-gen");
    assert_eq!(patch.namespace.as_deref(), Some("apps"));
    assert_eq!(patch.spec, r.spec);
    assert_eq!(patch.status.token.as_deref(), Some("tok"));
}

#[test]
fn effective_hours_fall_back_to_context() {
    // No per-resource TTL: the request uses the controller-wide default.
    let (_m, op) = reconcile(resource(None, None, None), &ctx(), T0);
    let request = match op {
        ReconcileOp::Issue { request } => request,
        other => panic!("expected an issuance, got {other:?}"),
    };
    assert_eq!(request.ttl_hours, 48);
    assert_eq!(request.expiry, T0 + 48 * 3600);
}
