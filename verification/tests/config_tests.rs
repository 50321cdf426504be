use oks_util::config::{
    ConfigError, KeySpec, OksAlgorithm, OksCapability, OksDomain, OksKeySpec, OksLabel,
    Purpose, SpecParseError,
};
use oks_util::hsm::{Algorithm, Capability, Domain, Label};

const JSON_RSA4K: &str = r#"{
            "common_name":
                "Gimlet RoT Stage0 Code Signing Engineering Offline CA A",
            "id":1,
            "algorithm":"Rsa4096",
            "capabilities":"All",
            "domain":"DOM1",
            "hash":"Sha256",
            "label":"rot-stage0-signing-root-eng-a",
            "purpose":"ProductionCodeSigning"
        }"#;

#[test]
fn test_rsa4k_deserialize() {
    let key_spec: OksKeySpec = OksKeySpec::from_str(JSON_RSA4K).unwrap();
    assert_eq!(
        key_spec.common_name,
        "Gimlet RoT Stage0 Code Signing Engineering Offline CA A",
    );
    assert_eq!(key_spec.id, 1);
    assert_eq!(key_spec.capabilities, OksCapability::All);
    assert_eq!(key_spec.domain, OksDomain::DOM1);
    assert_eq!(
        key_spec.label,
        OksLabel("rot-stage0-signing-root-eng-a".to_string())
    );
    assert_eq!(key_spec.algorithm, OksAlgorithm::Rsa4096);
}

#[test]
fn test_oks_spec_convert() {
    let key_spec = KeySpec::from_str(JSON_RSA4K).unwrap();

    assert_eq!(key_spec.id, 1);
    assert_eq!(key_spec.capabilities, Capability::all());
    assert_eq!(key_spec.domain, Domain::DOM1);
    assert_eq!(
        key_spec.label,
        Label::from_text("rot-stage0-signing-root-eng-a").unwrap(),
    );
    assert_eq!(key_spec.algorithm, Algorithm::Rsa4096);
}

const JSON_ECP384: &str = r#"{
        "common_name": "RoT Identity Signing Offline CA",
        "id": 2,
        "algorithm":"Ecp384",
        "capabilities":"All",
        "domain":"DOM1",
        "hash":"Sha384",
        "label":"rot-identity-signing-ca",
        "purpose":"DevelopmentCodeSigning"
    }"#;

#[test]
fn test_ecp384_deserialize() {
    let key_spec: OksKeySpec = OksKeySpec::from_str(JSON_ECP384).unwrap();
    assert_eq!(key_spec.common_name, "RoT Identity Signing Offline CA",);
    assert_eq!(key_spec.id, 2);
    assert_eq!(key_spec.capabilities, OksCapability::All);
    assert_eq!(key_spec.domain, OksDomain::DOM1);
    assert_eq!(
        key_spec.label,
        OksLabel("rot-identity-signing-ca".to_string())
    );
    assert_eq!(key_spec.algorithm, OksAlgorithm::Ecp384);
    assert_eq!(key_spec.purpose, Purpose::DevelopmentCodeSigning);
}

const JSON_IDENTITY: &str = r#"{
        "common_name": "RoT Identity Signing Offline CA",
        "id": 2,
        "algorithm":"Ecp384",
        "capabilities":"All",
        "domain":"DOM1",
        "hash":"Sha384",
        "label":"rot-identity-signing-ca",
        "purpose":"Identity"
    }"#;

#[test]
fn test_extensions_engineering() {
    let key_spec: OksKeySpec = OksKeySpec::from_str(JSON_IDENTITY).unwrap();
    assert_eq!(key_spec.purpose, Purpose::Identity);
}

#[test]
fn rsa4k_purpose_maps_to_prod_code_signing_section() {
    let key_spec = KeySpec::from_str(JSON_RSA4K).unwrap();
    assert_eq!(key_spec.algorithm, Algorithm::Rsa4096);
    assert_eq!(key_spec.purpose, Purpose::ProductionCodeSigning);
    assert_eq!(key_spec.purpose.to_string(), "v3_code_signing_prod");
    assert_eq!(key_spec.hash, oks_util::config::Hash::Sha256);
}

#[test]
fn purpose_section_names() {
    assert_eq!(
        Purpose::ProductionCodeSigningCA.to_string(),
        "v3_code_signing_prod_ca"
    );
    assert_eq!(
        Purpose::DevelopmentCodeSigningCA.to_string(),
        "v3_code_signing_dev_ca"
    );
    assert_eq!(
        Purpose::ProductionCodeSigning.to_string(),
        "v3_code_signing_prod"
    );
    assert_eq!(
        Purpose::DevelopmentCodeSigning.to_string(),
        "v3_code_signing_dev"
    );
    assert_eq!(Purpose::Identity.to_string(), "v3_identity");
}

#[test]
fn unknown_algorithm_is_rejected() {
    let doc = JSON_RSA4K.replace("Rsa4096", "Rsa2048");
    let r = KeySpec::from_str(&doc);
    assert!(matches!(
        r,
        Err(ConfigError::BadKeySpec {
            e: SpecParseError::UnknownValue
        })
    ));
}

#[test]
fn missing_field_is_rejected() {
    let doc = r#"{"common_name":"x","id":1,"algorithm":"Rsa4096","capabilities":"All","domain":"DOM1","hash":"Sha256","label":"x"}"#;
    assert!(matches!(
        OksKeySpec::from_str(doc),
        Err(SpecParseError::MissingField)
    ));
}

#[test]
fn unknown_field_is_rejected() {
    let doc = JSON_RSA4K.replace("\"hash\"", "\"digest\"");
    assert!(matches!(
        OksKeySpec::from_str(&doc),
        Err(SpecParseError::UnknownField)
    ));
}

#[test]
fn duplicate_field_is_rejected() {
    let doc = r#"{"common_name":"x","common_name":"y","id":1,"algorithm":"Rsa4096","capabilities":"All","domain":"DOM1","hash":"Sha256","label":"x","purpose":"Identity"}"#;
    assert!(matches!(
        OksKeySpec::from_str(doc),
        Err(SpecParseError::DuplicateField)
    ));
}

#[test]
fn wrong_field_type_is_rejected() {
    let doc = JSON_RSA4K.replace("\"id\":1", "\"id\":\"one\"");
    assert!(matches!(
        OksKeySpec::from_str(&doc),
        Err(SpecParseError::WrongType)
    ));
}

#[test]
fn id_out_of_range_is_rejected() {
    let doc = JSON_RSA4K.replace("\"id\":1", "\"id\":70000");
    assert!(matches!(
        OksKeySpec::from_str(&doc),
        Err(SpecParseError::IdOutOfRange)
    ));
}

#[test]
fn malformed_document_is_rejected() {
    assert!(matches!(
        OksKeySpec::from_str("not a key spec"),
        Err(SpecParseError::Syntax)
    ));
    assert!(matches!(
        OksKeySpec::from_str("{\"label\":\"x\""),
        Err(SpecParseError::Syntax)
    ));
    assert!(matches!(
        KeySpec::from_str(""),
        Err(ConfigError::BadKeySpec {
            e: SpecParseError::Syntax
        })
    ));
}

#[test]
fn oversized_label_is_rejected() {
    let long = "x".repeat(41);
    let doc = JSON_RSA4K.replace("rot-stage0-signing-root-eng-a", &long);
    assert!(matches!(
        OksKeySpec::from_str(&doc),
        Ok(OksKeySpec { .. })
    ));
    assert!(matches!(KeySpec::from_str(&doc), Err(ConfigError::BadLabel)));
}

#[test]
fn declarative_form_round_trips() {
    let w = OksKeySpec::from_str(JSON_RSA4K).unwrap();
    let doc = w.to_json();
    let w2 = OksKeySpec::from_str(&doc).unwrap();
    assert_eq!(w, w2);

    let v = OksKeySpec::from_str(JSON_ECP384).unwrap();
    let doc = v.to_json();
    let v2 = OksKeySpec::from_str(&doc).unwrap();
    assert_eq!(v, v2);
}

#[test]
fn string_escapes_round_trip() {
    let doc = JSON_RSA4K.replace(
        "Gimlet RoT Stage0 Code Signing Engineering Offline CA A",
        r#"Gimlet \"RoT\" Stage0 \\ Code Signing"#,
    );
    let w = OksKeySpec::from_str(&doc).unwrap();
    assert_eq!(w.common_name, "Gimlet \"RoT\" Stage0 \\ Code Signing");
    let out = w.to_json();
    let w2 = OksKeySpec::from_str(&out).unwrap();
    assert_eq!(w, w2);
}

#[test]
fn unsupported_escape_is_rejected() {
    let doc = JSON_RSA4K.replace("Gimlet", r#"Gim\net"#);
    assert!(matches!(
        OksKeySpec::from_str(&doc),
        Err(SpecParseError::Syntax)
    ));
}

#[test]
fn label_length_boundary() {
    let forty = "y".repeat(40);
    assert!(Label::from_text(&forty).is_ok());
    let over = "y".repeat(41);
    assert!(matches!(
        Label::from_text(&over),
        Err(oks_util::HsmError::BadLabel)
    ));
}

#[test]
fn ca_config_references_key_and_hash() {
    let text = oks_util::config::ca_config_text(1, oks_util::config::Hash::Sha256);
    assert!(text.contains("private_key                 = 0:0001"));
    assert_eq!(text.matches("default_md                  = Sha256").count(), 2);

    let text = oks_util::config::ca_config_text(1234, oks_util::config::Hash::Sha384);
    assert!(text.contains("private_key                 = 0:1234"));
    assert!(text.contains("default_md                  = Sha384"));
    assert!(text.contains("basicConstraints            = critical,CA:true"));
}
