use glimpse_speech::error::SpeechErrorKind;
use glimpse_speech::resolve::{check_symbol_table, dylib_candidates, resolve_bridge_dylib_path};

#[test]
fn candidates_cover_binary_frameworks_and_resources() {
    let candidates = dylib_candidates(Some("/app/bin"));
    assert_eq!(
        candidates,
        vec![
            "/app/bin/libGlimpseSpeechFluidBridge.dylib".to_string(),
            "/app/bin/../Frameworks/libGlimpseSpeechFluidBridge.dylib".to_string(),
            "/app/bin/../Resources/libGlimpseSpeechFluidBridge.dylib".to_string(),
        ]
    );
    assert!(dylib_candidates(None).is_empty());
}

#[test]
fn explicit_path_wins_only_when_it_exists() {
    let candidates = dylib_candidates(Some("/app/bin"));
    let exists = vec![true, true, true];
    let resolved = resolve_bridge_dylib_path(
        Some("/custom/bridge.dylib"),
        true,
        Some("/env/bridge.dylib"),
        true,
        &candidates,
        &exists,
    )
    .expect("explicit path exists");
    assert_eq!(resolved, "/custom/bridge.dylib");

    let error = resolve_bridge_dylib_path(
        Some("/custom/bridge.dylib"),
        false,
        Some("/env/bridge.dylib"),
        true,
        &candidates,
        &exists,
    )
    .expect_err("missing explicit path fails the whole resolution");
    assert_eq!(error.kind, SpeechErrorKind::Load);
    assert_eq!(
        error.message(),
        "Fluid bridge dylib path does not exist: /custom/bridge.dylib"
    );
}

#[test]
fn env_override_is_used_only_when_it_exists() {
    let candidates = dylib_candidates(Some("/app/bin"));
    let exists = vec![true, true, true];
    let resolved =
        resolve_bridge_dylib_path(None, false, Some("/env/bridge.dylib"), true, &candidates, &exists)
            .expect("env override exists");
    assert_eq!(resolved, "/env/bridge.dylib");

    let resolved =
        resolve_bridge_dylib_path(None, false, Some("/env/bridge.dylib"), false, &candidates, &exists)
            .expect("falls back to candidates");
    assert_eq!(resolved, "/app/bin/libGlimpseSpeechFluidBridge.dylib");
}

#[test]
fn first_existing_candidate_wins_in_order() {
    let candidates = dylib_candidates(Some("/app/bin"));
    let exists = vec![false, true, true];
    let resolved = resolve_bridge_dylib_path(None, false, None, false, &candidates, &exists)
        .expect("second candidate exists");
    assert_eq!(
        resolved,
        "/app/bin/../Frameworks/libGlimpseSpeechFluidBridge.dylib"
    );
}

#[test]
fn no_mechanism_fails_closed_with_guidance() {
    let candidates = dylib_candidates(Some("/app/bin"));
    let exists = vec![false, false, false];
    let error = resolve_bridge_dylib_path(None, false, None, false, &candidates, &exists)
        .expect_err("nothing exists");
    assert_eq!(error.kind, SpeechErrorKind::Load);
    assert!(error.message().contains("GLIMPSE_FLUID_BRIDGE_DYLIB"));
    assert!(error.message().contains("FluidModelParams::dylib_path"));
    assert!(error.message().contains("libGlimpseSpeechFluidBridge.dylib"));
}

#[test]
fn partial_symbol_bindings_are_never_accepted() {
    assert!(check_symbol_table(true, true, true, true).is_ok());
    let error = check_symbol_table(true, true, false, true).expect_err("missing symbol");
    assert_eq!(error.kind, SpeechErrorKind::Load);
    assert_eq!(
        error.message(),
        "missing Fluid bridge symbol glimpse_fluid_transcribe_wav"
    );
    let error = check_symbol_table(false, false, false, false).expect_err("missing symbol");
    assert_eq!(error.message(), "missing Fluid bridge symbol glimpse_fluid_create");
    let error = check_symbol_table(true, true, true, false).expect_err("missing symbol");
    assert_eq!(error.message(), "missing Fluid bridge symbol glimpse_fluid_free_buffer");
}
