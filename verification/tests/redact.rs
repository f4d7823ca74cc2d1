use telividb::telemetry::redact::{collection_label, is_vault, resource_token, vector_shape};

#[test]
fn resource_token_is_stable() {
    assert_eq!(
        resource_token("collections/finance/points/doc-1"),
        resource_token("collections/finance/points/doc-1")
    );
}

#[test]
fn resource_token_differs_between_resources() {
    assert_ne!(resource_token("a/b"), resource_token("a/c"));
}

#[test]
fn resource_token_does_not_contain_the_name() {
    let token = resource_token("collections/finance/points/doc-1");
    assert!(!token.contains("finance"));
    assert!(!token.contains("doc-1"));
}

#[test]
fn vector_shape_carries_only_the_dimension() {
    let shape = vector_shape(&[0.9f32, -0.2, 0.44]);
    assert_eq!(shape.dim, 3);
    let rendered = shape.to_string();
    for leaked in ["0.9", "-0.2", "0.44"] {
        assert!(!rendered.contains(leaked), "leaked a component: {rendered}");
    }
}

#[test]
fn vaults_are_recognised() {
    assert!(is_vault("vault/therapy-notes"));
    assert!(is_vault("vaults/personal"));
    assert!(!is_vault("collections/finance"));
}

#[test]
fn vault_collections_collapse_to_a_placeholder() {
    assert_eq!(collection_label("vault/therapy-notes"), "<vault>");
    assert_eq!(collection_label("vaults/x"), "<vault>");
    assert_eq!(
        collection_label("collections/finance"),
        "collections/finance"
    );
}

#[test]
fn a_token_is_r_and_sixteen_hex_digits() {
    for name in ["", "a", "collections/finance/points/doc-1", "vault/secret"] {
        let token = resource_token(name);
        assert_eq!(token.len(), 18, "{token}");
        assert!(token.starts_with("r_"));
        assert!(token[2..].chars().all(|c| c.is_ascii_digit() || ('a'..='f').contains(&c)));
    }
}

#[test]
fn a_shape_renders_its_dimension_in_decimal() {
    assert_eq!(vector_shape(&[0u8; 768]).to_string(), "dim=768");
    assert_eq!(vector_shape::<f32>(&[]).to_string(), "dim=0");
}

#[test]
fn only_the_exact_vault_prefixes_count() {
    assert!(!is_vault("vault"));
    assert!(!is_vault("Vault/x"));
    assert!(!is_vault("my-vault/x"));
    assert!(is_vault("vault/"));
    assert_eq!(collection_label("vault"), "vault");
    assert_eq!(collection_label(""), "");
}
