use pkce_loopback::pkce::{
    generate_code_challenge, generate_code_verifier, verifier_from_entropy, PkceCredential,
};

const ENTROPY: [u8; 32] = [
    116, 24, 223, 180, 151, 153, 224, 37, 79, 250, 96, 125, 216, 173, 187, 186, 22, 212, 37, 77,
    105, 214, 191, 240, 91, 88, 5, 88, 83, 132, 141, 121,
];

fn is_url_safe(c: char) -> bool {
    c.is_ascii_alphanumeric() || c == '-' || c == '_'
}

#[test]
fn verifier_of_known_entropy() {
    assert_eq!(
        verifier_from_entropy(&ENTROPY),
        "dBjftJeZ4CVP-mB92K27uhbUJU1p1r_wW1gFWFOEjXk"
    );
}

#[test]
fn verifier_of_zero_entropy() {
    assert_eq!(
        verifier_from_entropy(&[0u8; 32]),
        "AAAAAAAAAAAAAAAAAAAAAAAAAAAAAAAAAAAAAAAAAAA"
    );
}

#[test]
fn verifier_of_all_ones_uses_url_safe_symbols() {
    assert_eq!(
        verifier_from_entropy(&[0xffu8; 32]),
        "__________________________________________8"
    );
}

#[test]
fn challenge_of_known_verifier() {
    assert_eq!(
        generate_code_challenge("dBjftJeZ4CVP-mB92K27uhbUJU1p1r_wW1gFWFOEjXk"),
        "E9Melhoa2OwvFrEMTJguCHaoeK1t8URWbuGJSstw-cM"
    );
}

#[test]
fn challenge_of_empty_verifier() {
    assert_eq!(
        generate_code_challenge(""),
        "47DEQpj8HBSa-_TImW-5JCeuQeRkm5NMpJWZG3hSuFU"
    );
}

#[test]
fn challenge_is_deterministic() {
    let verifier = generate_code_verifier();
    let first = generate_code_challenge(&verifier);
    let second = generate_code_challenge(&verifier);
    assert_eq!(first, second);
}

#[test]
fn challenges_of_different_verifiers_differ() {
    let first = generate_code_challenge("dBjftJeZ4CVP-mB92K27uhbUJU1p1r_wW1gFWFOEjXk");
    let second = generate_code_challenge("dBjftJeZ4CVP-mB92K27uhbUJU1p1r_wW1gFWFOEjXl");
    assert_ne!(first, second);
}

#[test]
fn challenge_is_not_the_verifier() {
    let verifier = "dBjftJeZ4CVP-mB92K27uhbUJU1p1r_wW1gFWFOEjXk";
    assert_ne!(generate_code_challenge(verifier), verifier);
}

#[test]
fn generated_verifier_has_43_url_safe_characters() {
    for _ in 0..50 {
        let verifier = generate_code_verifier();
        assert_eq!(verifier.len(), 43);
        assert_eq!(verifier.chars().count(), 43);
        assert!(verifier.chars().all(is_url_safe));
        assert!(!verifier.contains('='));
    }
}

#[test]
fn generated_verifiers_are_not_all_alike() {
    let first = generate_code_verifier();
    let mut differs = false;
    for _ in 0..8 {
        if generate_code_verifier() != first {
            differs = true;
        }
    }
    assert!(differs);
}

#[test]
fn generated_challenge_has_43_url_safe_characters() {
    let verifier = generate_code_verifier();
    let challenge = generate_code_challenge(&verifier);
    assert_eq!(challenge.len(), 43);
    assert!(challenge.chars().all(is_url_safe));
}

#[test]
fn credential_holds_the_challenge_of_its_verifier() {
    let credential = PkceCredential::generate();
    assert_eq!(credential.verifier.len(), 43);
    assert_eq!(
        credential.challenge,
        generate_code_challenge(&credential.verifier)
    );
}
