use base64::Engine;
use openvair_installer::context::InstallationContext;
use openvair_installer::config::OpenVairConfig;
use openvair_installer::secret::generate_random_secret;
use openvair_installer::step::JwtSecretStep;

#[test]
fn test_generate_random_secret() {
    let secret1 = generate_random_secret();
    let secret2 = generate_random_secret();

    // Secrets should be different
    assert_ne!(secret1, secret2);

    // Should be valid base64
    assert!(base64::engine::general_purpose::STANDARD.decode(&secret1).is_ok());
    assert!(base64::engine::general_purpose::STANDARD.decode(&secret2).is_ok());

    // Decoded should be 32 bytes
    let decoded = base64::engine::general_purpose::STANDARD.decode(&secret1).unwrap();
    assert_eq!(decoded.len(), 32);
}

#[test]
fn secret_is_padded_base64_of_44_chars() {
    let secret = generate_random_secret();
    assert_eq!(secret.len(), 44);
    assert!(secret.ends_with('='));
    let decoded = base64::engine::general_purpose::STANDARD.decode(&secret).unwrap();
    assert_eq!(decoded.len(), 32);
    assert_eq!(base64::engine::general_purpose::STANDARD.encode(&decoded), secret);
}

#[test]
fn jwt_step_records_a_fresh_secret_and_nothing_else() {
    let mut ctx = InstallationContext::new(OpenVairConfig::default());
    assert!(ctx.config.jwt.secret.is_none());
    JwtSecretStep.apply(&mut ctx);
    let first = ctx.config.jwt.secret.clone().unwrap();
    assert_eq!(first.len(), 44);
    assert_eq!(ctx.config.jwt.algorithm, "HS256");
    assert_eq!(ctx.config.default_user.login, "");
}

#[test]
fn jwt_step_keeps_a_configured_secret() {
    let mut ctx = InstallationContext::new(OpenVairConfig::default());
    JwtSecretStep.apply(&mut ctx);
    let first = ctx.config.jwt.secret.clone().unwrap();
    JwtSecretStep.apply(&mut ctx);
    assert_eq!(ctx.config.jwt.secret.as_deref(), Some(first.as_str()));

    let mut preset = InstallationContext::new(OpenVairConfig::default());
    preset.config.update_jwt_secret("already-set".to_string());
    JwtSecretStep.apply(&mut preset);
    assert_eq!(preset.config.jwt.secret.as_deref(), Some("already-set"));
}
