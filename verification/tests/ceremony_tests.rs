use oks_util::ceremony::{
    default_params, export_start, export_step, init_step, initialize_start, restore_start,
    restore_step, Action, CeremonyParams, Event, ExportState, InitState, RestoreState,
};
use oks_util::config::KeySpec;
use oks_util::hsm::{Label, ObjectKind};
use oks_util::HsmError;

const JSON_RSA4K: &str = r#"{
            "common_name":
                "Gimlet RoT Stage0 Code Signing Engineering Offline CA A",
            "id":1,
            "algorithm":"Rsa4096",
            "capabilities":"All",
            "domain":"DOM1",
            "hash":"Sha256",
            "label":"rot-stage0-signing-root-eng-a",
            "purpose":"ProductionCodeSigning"
        }"#;

#[test]
fn default_parameters() {
    let p = default_params();
    assert_eq!(p.wrap_id, 1);
    assert_eq!(p.wrap_label.as_text(), "backup");
    assert_eq!(p.auth_id, 2);
    assert_eq!(p.auth_label.as_text(), "admin");
    assert_eq!(p.key_len, 32);
    assert_eq!(p.threshold, 3);
    assert_eq!(p.share_count, 5);
}

#[test]
fn bad_threshold_is_refused_at_construction() {
    let wrap = Label::from_text("backup").unwrap();
    let auth = Label::from_text("admin").unwrap();
    let r = CeremonyParams::new(1, wrap.clone(), 2, auth.clone(), 32, 4, 3);
    assert!(matches!(r, Err(HsmError::BadThreshold)));
    let r = CeremonyParams::new(1, wrap.clone(), 2, auth.clone(), 32, 0, 3);
    assert!(matches!(r, Err(HsmError::BadThreshold)));
    let r = CeremonyParams::new(1, wrap, 2, auth, 32, 3, 5);
    assert!(r.is_ok());
}

/// Walks the initialize ceremony to the state right after the credential's
/// artifact was exported and checked, returning that state.
fn walk_to_await_write(p: &CeremonyParams) -> InitState {
    let (s, a) = initialize_start(p);
    assert!(matches!(a, Action::GetRandom { len: 32 }));

    let (s, a) = init_step(p, s, Event::RandomBytes { bytes: vec![0x42; 32] });
    match &a {
        Action::InstallWrapKey { id, label, domain, capabilities, delegated, algorithm, key } => {
            assert_eq!(*id, 1);
            assert_eq!(label.as_text(), "backup");
            assert!(matches!(domain, oks_util::hsm::Domain::All));
            assert!(matches!(capabilities, oks_util::hsm::Capability::All));
            assert!(matches!(delegated, oks_util::hsm::Capability::All));
            assert!(matches!(algorithm, oks_util::hsm::WrapAlgorithm::Aes256Ccm));
            assert_eq!(key, &vec![0x42; 32]);
        }
        _ => panic!("expected the wrap key installation"),
    }

    let (s, a) = init_step(p, s, Event::WrapKeyInstalled { id: 1 });
    assert!(matches!(a, Action::PromptPasswords));

    // Mismatched entries are re-prompted, not fatal.
    let (s, a) = init_step(
        p,
        s,
        Event::PasswordsEntered { first: b"melon".to_vec(), second: b"lemon".to_vec() },
    );
    assert!(matches!(a, Action::PromptPasswords));

    let (s, a) = init_step(
        p,
        s,
        Event::PasswordsEntered { first: b"hunter2!".to_vec(), second: b"hunter2!".to_vec() },
    );
    match &a {
        Action::InstallAuthKey { id, label, domain, capabilities, delegated, algorithm, key } => {
            assert_eq!(*id, 2);
            assert_eq!(label.as_text(), "admin");
            assert!(matches!(domain, oks_util::hsm::Domain::All));
            assert!(matches!(capabilities, oks_util::hsm::Capability::All));
            assert!(matches!(delegated, oks_util::hsm::Capability::All));
            assert!(matches!(algorithm, oks_util::hsm::AuthAlgorithm::YubicoAes));
            assert_eq!(key.len(), 32);
        }
        _ => panic!("expected the auth key installation"),
    }

    let (s, a) = init_step(p, s, Event::AuthKeyInstalled);
    match &a {
        Action::ExportObject { wrap_id, kind, id } => {
            assert_eq!(*wrap_id, 1);
            assert!(matches!(kind, ObjectKind::AuthenticationKey));
            assert_eq!(*id, 2);
        }
        _ => panic!("expected the export of the new credential"),
    }

    let (s, a) = init_step(p, s, Event::Exported { artifact: b"{wrapped}".to_vec() });
    match &a {
        Action::CheckArtifact { name } => assert_eq!(name, "admin.json"),
        _ => panic!("expected the artifact collision check"),
    }

    let (s, a) = init_step(p, s, Event::ArtifactChecked { exists: false });
    match &a {
        Action::WriteArtifact { name, data } => {
            assert_eq!(name, "admin.json");
            assert_eq!(data, &b"{wrapped}".to_vec());
        }
        _ => panic!("expected the artifact write"),
    }
    s
}

#[test]
fn initialize_full_walk_and_share_recovery() {
    let p = default_params();
    let s = walk_to_await_write(&p);

    // Only now, with the credential exported and its artifact written, is
    // the factory-default credential deleted.
    let (s, a) = init_step(&p, s, Event::ArtifactWritten);
    assert!(matches!(a, Action::DeleteDefaultAuth));

    let (s, a) = init_step(&p, s, Event::DefaultAuthDeleted);
    assert!(matches!(a, Action::ConfirmSplitStart { share_count: 5 }));

    let (mut s, a) = init_step(&p, s, Event::Acknowledged);
    assert!(matches!(a, Action::AwaitCustodian { index: 1 }));

    // Record each share exactly once, in order.
    let mut shares: Vec<String> = Vec::new();
    for i in 1..=5u8 {
        let (s2, a) = init_step(&p, s, Event::Acknowledged);
        match &a {
            Action::DisplayShare { index, share } => {
                assert_eq!(*index, i);
                shares.push(share.clone());
            }
            _ => panic!("expected share {} to be displayed", i),
        }
        let (s3, a) = init_step(&p, s2, Event::Acknowledged);
        if i < 5 {
            assert!(matches!(a, Action::AwaitCustodian { index } if index == i + 1));
        } else {
            assert!(matches!(a, Action::Done));
            assert!(matches!(s3, InitState::Complete));
        }
        s = s3;
    }

    // Any three recorded shares reconstruct the wrap key that was installed.
    let subset = vec![shares[0].clone(), shares[2].clone(), shares[4].clone()];
    assert_eq!(oks_util::codec::recover(&subset).unwrap(), vec![0x42; 32]);
    let short = vec![shares[1].clone(), shares[3].clone()];
    assert!(oks_util::codec::recover(&short).is_err());
}

#[test]
fn fault_before_deletion_leaves_default_credential() {
    let p = default_params();
    let s = walk_to_await_write(&p);

    // Fault injected between the credential's export and the deletion of
    // the factory default: the ceremony fails without ever asking for the
    // deletion.
    let (s, a) = init_step(&p, s, Event::DeviceFault { collision: false });
    assert!(matches!(a, Action::Fail { error: HsmError::DeviceFailed }));
    assert!(matches!(s, InitState::Failed { error: HsmError::DeviceFailed }));
}

#[test]
fn existing_admin_artifact_aborts_initialization() {
    let p = default_params();
    let (s, _) = initialize_start(&p);
    let (s, _) = init_step(&p, s, Event::RandomBytes { bytes: vec![7; 32] });
    let (s, _) = init_step(&p, s, Event::WrapKeyInstalled { id: 1 });
    let (s, _) = init_step(
        &p,
        s,
        Event::PasswordsEntered { first: b"pw".to_vec(), second: b"pw".to_vec() },
    );
    let (s, _) = init_step(&p, s, Event::AuthKeyInstalled);
    let (s, _) = init_step(&p, s, Event::Exported { artifact: b"x".to_vec() });
    let (s, a) = init_step(&p, s, Event::ArtifactChecked { exists: true });
    assert!(matches!(a, Action::Fail { error: HsmError::ArtifactExists }));
    assert!(matches!(s, InitState::Failed { error: HsmError::ArtifactExists }));
}

#[test]
fn wrap_key_collision_is_classified() {
    let p = default_params();
    let (s, _) = initialize_start(&p);
    let (s, _) = init_step(&p, s, Event::RandomBytes { bytes: vec![7; 32] });
    let (_, a) = init_step(&p, s, Event::DeviceFault { collision: true });
    assert!(matches!(a, Action::Fail { error: HsmError::WrapKeyExists }));
}

#[test]
fn protocol_violation_is_classified() {
    let p = default_params();
    let (s, _) = initialize_start(&p);
    let (_, a) = init_step(&p, s, Event::Acknowledged);
    assert!(matches!(a, Action::Fail { error: HsmError::Protocol }));
}

#[test]
fn restore_collects_threshold_shares_and_reinstalls() {
    let secret: Vec<u8> = (100u8..132u8).collect();
    let shares = oks_util::codec::split(&secret, 3, 5).unwrap();

    let p = default_params();
    let (s, a) = restore_start(&p);
    assert!(matches!(a, Action::PromptShare { index: 1 }));

    let (s, a) = restore_step(&p, s, Event::ShareEntered { share: shares[4].clone() });
    assert!(matches!(a, Action::PromptShare { index: 2 }));
    let (s, a) = restore_step(&p, s, Event::ShareEntered { share: shares[1].clone() });
    assert!(matches!(a, Action::PromptShare { index: 3 }));
    let (s, a) = restore_step(&p, s, Event::ShareEntered { share: shares[3].clone() });
    match &a {
        Action::InstallWrapKey { id, label, domain, capabilities, delegated, algorithm, key } => {
            assert_eq!(*id, 1);
            assert_eq!(label.as_text(), "backup");
            assert!(matches!(domain, oks_util::hsm::Domain::All));
            assert!(matches!(capabilities, oks_util::hsm::Capability::All));
            assert!(matches!(delegated, oks_util::hsm::Capability::All));
            assert!(matches!(algorithm, oks_util::hsm::WrapAlgorithm::Aes256Ccm));
            assert_eq!(key, &secret);
        }
        _ => panic!("expected the reconstructed wrap key's installation"),
    }

    let (s, a) = restore_step(&p, s, Event::WrapKeyInstalled { id: 1 });
    assert!(matches!(a, Action::Done));
    assert!(matches!(s, RestoreState::Complete));
}

#[test]
fn restore_rejects_blank_share_entry() {
    let p = default_params();
    let (s, _) = restore_start(&p);
    let (s, a) = restore_step(&p, s, Event::ShareEntered { share: "   ".to_string() });
    assert!(matches!(a, Action::Fail { error: HsmError::EmptyShare }));
    assert!(matches!(s, RestoreState::Failed { error: HsmError::EmptyShare }));
}

#[test]
fn restore_reports_inconsistent_shares() {
    let p = default_params();
    let (s, _) = restore_start(&p);
    let (s, _) = restore_step(&p, s, Event::ShareEntered { share: "3-1-garbage".to_string() });
    let (s, _) = restore_step(&p, s, Event::ShareEntered { share: "3-2-garbage".to_string() });
    let (s, a) = restore_step(&p, s, Event::ShareEntered { share: "3-3-garbage".to_string() });
    assert!(matches!(a, Action::Fail { error: HsmError::RecoveryFailed }));
    assert!(matches!(s, RestoreState::Failed { .. }));
}

#[test]
fn restore_reports_colliding_installation() {
    let secret: Vec<u8> = (0u8..32u8).collect();
    let shares = oks_util::codec::split(&secret, 3, 5).unwrap();
    let p = default_params();
    let (s, _) = restore_start(&p);
    let (s, _) = restore_step(&p, s, Event::ShareEntered { share: shares[0].clone() });
    let (s, _) = restore_step(&p, s, Event::ShareEntered { share: shares[1].clone() });
    let (s, _) = restore_step(&p, s, Event::ShareEntered { share: shares[2].clone() });
    let (_, a) = restore_step(&p, s, Event::DeviceFault { collision: true });
    assert!(matches!(a, Action::Fail { error: HsmError::WrapKeyExists }));
}

#[test]
fn export_walk_writes_label_named_artifact() {
    let request = KeySpec::from_str(JSON_RSA4K).unwrap();
    let (s, a) = export_start(request, 1);
    match &a {
        Action::CheckArtifact { name } => {
            assert_eq!(name, "rot-stage0-signing-root-eng-a.json")
        }
        _ => panic!("expected the artifact collision check"),
    }

    let (s, a) = export_step(s, Event::ArtifactChecked { exists: false });
    match &a {
        Action::GenerateKey { request } => {
            assert_eq!(request.id, 1);
            assert_eq!(request.label.as_text(), "rot-stage0-signing-root-eng-a");
        }
        _ => panic!("expected the key generation"),
    }

    let (s, a) = export_step(s, Event::KeyGenerated { id: 9 });
    match &a {
        Action::ExportObject { wrap_id, kind, id } => {
            assert_eq!(*wrap_id, 1);
            assert!(matches!(kind, ObjectKind::AsymmetricKey));
            assert_eq!(*id, 9);
        }
        _ => panic!("expected the export under wrap"),
    }

    let (s, a) = export_step(s, Event::Exported { artifact: b"{wrapped-rsa}".to_vec() });
    match &a {
        Action::WriteArtifact { name, data } => {
            assert_eq!(name, "rot-stage0-signing-root-eng-a.json");
            assert_eq!(data, &b"{wrapped-rsa}".to_vec());
        }
        _ => panic!("expected the artifact write"),
    }

    let (s, a) = export_step(s, Event::ArtifactWritten);
    assert!(matches!(a, Action::Done));
    assert!(matches!(s, ExportState::Complete));
}

#[test]
fn export_refuses_existing_artifact() {
    let request = KeySpec::from_str(JSON_RSA4K).unwrap();
    let (s, _) = export_start(request, 1);
    let (s, a) = export_step(s, Event::ArtifactChecked { exists: true });
    assert!(matches!(a, Action::Fail { error: HsmError::ArtifactExists }));
    assert!(matches!(s, ExportState::Failed { error: HsmError::ArtifactExists }));
}

#[test]
fn export_fault_after_generation_reports_resident_key() {
    let request = KeySpec::from_str(JSON_RSA4K).unwrap();
    let (s, _) = export_start(request, 1);
    let (s, _) = export_step(s, Event::ArtifactChecked { exists: false });
    let (s, _) = export_step(s, Event::KeyGenerated { id: 9 });
    let (_, a) = export_step(s, Event::DeviceFault { collision: false });
    assert!(matches!(a, Action::Fail { error: HsmError::UnexportedKey }));
}

#[test]
fn error_messages_are_nonempty() {
    assert!(!HsmError::BadLabel.message().is_empty());
    assert!(!HsmError::WrapKeyExists.message().is_empty());
    assert!(!HsmError::Protocol.message().is_empty());
}
