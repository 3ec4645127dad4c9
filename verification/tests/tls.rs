//! TLS identities and the transport of keys in TPM form.
use citadel::model::{
    Algorithm, Identity, IdentityUsage, ObjectKind, ObjectPath, TpmObject,
};
use citadel::store::MemoryStore;
use citadel::tls::{
    der_uint, ecdsa_tpmt_to_der, is_pinned, parse_ecc_point, scheme_for, server_config_from_identity,
    server_identity, TlsScheme,
};

/// A synthetic ECDSA signature in TPM form with the given r and s bytes.
fn tpmt(r: &[u8], s: &[u8]) -> Vec<u8> {
    let mut v = Vec::new();
    v.extend_from_slice(&0x0018u16.to_be_bytes());
    v.extend_from_slice(&0x000Bu16.to_be_bytes());
    v.extend_from_slice(&(r.len() as u16).to_be_bytes());
    v.extend_from_slice(r);
    v.extend_from_slice(&(s.len() as u16).to_be_bytes());
    v.extend_from_slice(s);
    v
}

#[test]
fn parse_ecc_point_matches_the_vtpm_public_layout() {
    let x = [0x11u8; 32];
    let y = [0x22u8; 32];
    let mut tpmt = Vec::new();
    tpmt.extend_from_slice(&0x0023u16.to_be_bytes());
    tpmt.extend_from_slice(&0x000Bu16.to_be_bytes());
    tpmt.extend_from_slice(&0x0003_0472u32.to_be_bytes());
    tpmt.extend_from_slice(&0u16.to_be_bytes());
    tpmt.extend_from_slice(&0x0010u16.to_be_bytes());
    tpmt.extend_from_slice(&0x0018u16.to_be_bytes());
    tpmt.extend_from_slice(&0x000Bu16.to_be_bytes());
    tpmt.extend_from_slice(&0x0003u16.to_be_bytes());
    tpmt.extend_from_slice(&0x0010u16.to_be_bytes());
    tpmt.extend_from_slice(&32u16.to_be_bytes());
    tpmt.extend_from_slice(&x);
    tpmt.extend_from_slice(&32u16.to_be_bytes());
    tpmt.extend_from_slice(&y);
    let mut t2b = (tpmt.len() as u16).to_be_bytes().to_vec();
    t2b.extend_from_slice(&tpmt);

    let point = parse_ecc_point(&t2b).unwrap();
    assert_eq!(point.len(), 65);
    assert_eq!(point[0], 0x04);
    assert_eq!(&point[1..33], &x);
    assert_eq!(&point[33..65], &y);
}

#[test]
fn other_public_keys_are_refused() {
    assert_eq!(parse_ecc_point(&[0, 4, 0, 1, 0, 0]).unwrap_err().message(), "not an ECC TPM2B_PUBLIC");
    assert!(parse_ecc_point(&[0, 4, 0, 0x23]).is_err());
    assert!(parse_ecc_point(&[]).is_err());
}

#[test]
fn ecdsa_tpmt_to_der_round_trips_a_signature() {
    let mut sig = Vec::new();
    sig.extend_from_slice(&0x0018u16.to_be_bytes());
    sig.extend_from_slice(&0x000Bu16.to_be_bytes());
    sig.extend_from_slice(&3u16.to_be_bytes());
    sig.extend_from_slice(&[0x01, 0x02, 0x03]);
    sig.extend_from_slice(&3u16.to_be_bytes());
    sig.extend_from_slice(&[0x04, 0x05, 0x06]);
    let der = ecdsa_tpmt_to_der(&sig).unwrap();
    assert_eq!(der[0], 0x30);
    assert!(der.len() >= 8);
    assert_eq!(der, vec![0x30, 10, 2, 3, 1, 2, 3, 2, 3, 4, 5, 6]);
}

#[test]
fn leading_zeros_do_not_count() {
    assert_eq!(der_uint(&[0, 0, 0]), vec![2, 1, 0]);
    assert_eq!(der_uint(&[0, 0x81]), der_uint(&[0x81]));
    let plain = ecdsa_tpmt_to_der(&tpmt(&[0x81, 2], &[3])).unwrap();
    assert_eq!(plain, vec![0x30, 8, 2, 3, 0, 0x81, 2, 2, 1, 3]);
    assert_eq!(ecdsa_tpmt_to_der(&tpmt(&[0, 0, 0x81, 2], &[0, 3])).unwrap(), plain);
    assert_eq!(
        ecdsa_tpmt_to_der(&tpmt(&[0, 0, 0], &[0])).unwrap(),
        vec![0x30, 6, 2, 1, 0, 2, 1, 0]
    );
}

#[test]
fn converts_tpmt_to_well_formed_der() {
    let r = [0x11u8; 32];
    let s = [0x22u8; 32];
    let der = ecdsa_tpmt_to_der(&tpmt(&r, &s)).expect("parses");
    assert_eq!(der[0], 0x30, "SEQUENCE");
    assert_eq!(der[1] as usize, der.len() - 2, "length covers the body");
    assert_eq!(der[2], 0x02);
    assert_eq!(der[3], 0x20);
    assert_eq!(der[2 + 34], 0x02);
    assert_eq!(der[2 + 34 + 1], 0x20);
}

#[test]
fn high_bit_integer_gets_zero_prefix() {
    let mut r = [0u8; 32];
    r[0] = 0x80;
    let s = [0x01u8; 32];
    let der = ecdsa_tpmt_to_der(&tpmt(&r, &s)).unwrap();
    assert_eq!(der[2], 0x02);
    assert_eq!(der[3], 0x21);
    assert_eq!(der[4], 0x00);
    assert_eq!(der[5], 0x80);
}

#[test]
fn leading_zeros_are_stripped() {
    let der = ecdsa_tpmt_to_der(&tpmt(&[0, 0, 5], &[0])).unwrap();
    assert_eq!(der, vec![0x30, 6, 2, 1, 5, 2, 1, 0]);
}

#[test]
fn rejects_non_ecdsa_and_truncated() {
    let mut bad = tpmt(&[1u8; 32], &[2u8; 32]);
    bad[0] = 0x00;
    bad[1] = 0x14;
    assert!(ecdsa_tpmt_to_der(&bad).is_none());
    assert!(ecdsa_tpmt_to_der(&[0x00, 0x18, 0x00]).is_none());
    assert!(ecdsa_tpmt_to_der(&[0u8; 8]).is_none());
}

#[test]
fn scheme_mapping() {
    assert_eq!(scheme_for(Algorithm::EccP256).unwrap(), TlsScheme::EcdsaNistp256Sha256);
    assert!(scheme_for(Algorithm::Rsa2048).is_err());
    assert_eq!(
        scheme_for(Algorithm::EccP384).unwrap_err().message(),
        "TLS-from-TPM currently supports ecc-p256 identities, not EccP384"
    );
}

#[test]
fn missing_identity_is_an_error() {
    let store = MemoryStore::new();
    let err = server_config_from_identity(&store, "nope", "").expect_err("unknown identity");
    assert!(err.message().contains("TLS identity not found"));
}

fn with_identity(algorithm: Algorithm, handle: Option<Vec<u8>>, key: bool) -> MemoryStore {
    let mut store = MemoryStore::new();
    if key {
        store
            .insert_object(TpmObject {
                id: 20,
                path: ObjectPath::new("signing/web").unwrap(),
                kind: ObjectKind::SigningKey,
                algorithm,
                policy_id: None,
                handle_blob: handle,
                created_at: "2026-04-23T10:11:12+00:00".to_string(),
                metadata: "{}".to_string(),
            })
            .unwrap();
    }
    store
        .insert_identity(Identity {
            id: 10,
            name: "web".to_string(),
            key_object_id: 20,
            policy_id: None,
            usage: IdentityUsage::Tls,
            subject: None,
            certificate_pem: None,
            created_at: "2026-04-23T10:11:12+00:00".to_string(),
            rotated_from: None,
        })
        .unwrap();
    store
}

const PEM: &str = "-----BEGIN CERTIFICATE-----\nAQID\n-----END CERTIFICATE-----\n-----BEGIN CERTIFICATE-----\nBAU=\n-----END CERTIFICATE-----\n";

#[test]
fn server_presents_its_certificates_with_its_key() {
    let store = with_identity(Algorithm::EccP256, Some(vec![7]), true);
    let got = server_config_from_identity(&store, "web", PEM).unwrap();
    assert_eq!(got.certs, vec![vec![1, 2, 3], vec![4, 5]]);
    assert_eq!(got.handle.id, vec![7]);
    assert_eq!(got.handle.path, "signing/web");
    assert_eq!(got.scheme, TlsScheme::EcdsaNistp256Sha256);
}

#[test]
fn server_identity_needs_key_handle_scheme_and_certificates() {
    let message = |store: &MemoryStore, pem: &str| {
        server_config_from_identity(store, "web", pem).unwrap_err().message().to_string()
    };
    assert_eq!(
        message(&with_identity(Algorithm::EccP256, None, false), PEM),
        "TLS identity 'web' references a missing key"
    );
    assert_eq!(
        message(&with_identity(Algorithm::EccP256, None, true), PEM),
        "TLS identity 'web' key has no TPM handle"
    );
    assert_eq!(
        message(&with_identity(Algorithm::Rsa3072, Some(vec![7]), true), PEM),
        "TLS-from-TPM currently supports ecc-p256 identities, not Rsa3072"
    );
    assert_eq!(
        message(&with_identity(Algorithm::EccP256, Some(vec![7]), true), "nothing"),
        "no certificates found in the TLS cert PEM for identity 'web'"
    );
    let store = with_identity(Algorithm::EccP256, Some(vec![7]), true);
    assert_eq!(
        server_identity(&store, "web", Err("bad".to_string())).unwrap_err().message(),
        "bad"
    );
}

#[test]
fn only_pinned_certificates_are_accepted() {
    let pinned = vec![vec![1, 2], vec![3]];
    assert!(is_pinned(&pinned, &[3]));
    assert!(is_pinned(&pinned, &[1, 2]));
    assert!(!is_pinned(&pinned, &[1]));
    assert!(!is_pinned(&vec![], &[]));
}
