use lan_camera::error::StartupError;
use lan_camera::startup::{Startup, StartupStep};

fn run(outcomes: &[bool]) -> Startup {
    let mut startup = Startup::begin();
    for outcome in outcomes {
        startup = startup.record(*outcome);
    }
    startup
}

#[test]
fn start_begins_with_the_mint() {
    assert_eq!(Startup::begin(), Startup::Pending(StartupStep::MintIdentity));
    assert_eq!(Startup::begin().failure(), None);
}

#[test]
fn three_successes_lead_to_serving() {
    assert_eq!(run(&[true]), Startup::Pending(StartupStep::ConfigureTls));
    assert_eq!(run(&[true, true]), Startup::Pending(StartupStep::Bind));
    assert_eq!(run(&[true, true, true]), Startup::Serving);
    assert_eq!(run(&[true, true, true]).failure(), None);
}

#[test]
fn failed_mint_is_cert_generation_failed() {
    assert_eq!(run(&[false]), Startup::Failed(StartupError::CertGenerationFailed));
    assert_eq!(run(&[false]).failure(), Some(StartupError::CertGenerationFailed));
}

#[test]
fn failed_tls_config_is_tls_config_failed() {
    assert_eq!(run(&[true, false]), Startup::Failed(StartupError::TlsConfigFailed));
    assert_eq!(run(&[true, false]).failure(), Some(StartupError::TlsConfigFailed));
}

#[test]
fn failed_bind_is_bind_failed() {
    assert_eq!(run(&[true, true, false]), Startup::Failed(StartupError::BindFailed));
    assert_eq!(run(&[true, true, false]).failure(), Some(StartupError::BindFailed));
}

#[test]
fn first_failure_is_final() {
    assert_eq!(
        run(&[false, true, true, true]),
        Startup::Failed(StartupError::CertGenerationFailed)
    );
    assert_eq!(run(&[true, false, false, true]), Startup::Failed(StartupError::TlsConfigFailed));
    assert_eq!(run(&[true, true, false, true, true]), Startup::Failed(StartupError::BindFailed));
}

#[test]
fn serving_endpoint_keeps_serving() {
    assert_eq!(run(&[true, true, true, false]), Startup::Serving);
    assert_eq!(run(&[true, true, true, true, false]), Startup::Serving);
}

#[test]
fn each_step_names_its_failure() {
    assert_eq!(StartupStep::MintIdentity.failure(), StartupError::CertGenerationFailed);
    assert_eq!(StartupStep::ConfigureTls.failure(), StartupError::TlsConfigFailed);
    assert_eq!(StartupStep::Bind.failure(), StartupError::BindFailed);
}
