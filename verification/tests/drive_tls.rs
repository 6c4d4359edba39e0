use ironrdp_web_drive::entry::{fs_error_for_exception, is_type_mismatch, FsError};
use ironrdp_web_drive::tls::{server_key_from_decoded, server_public_key, sni_name_for, sni_server_name, ServerKeyError};

fn tlv(tag: u8, body: &[u8]) -> Vec<u8> {
    let mut out = vec![tag];
    let n = body.len();
    if n < 128 {
        out.push(n as u8);
    } else {
        out.extend([0x81, n as u8]);
    }
    out.extend_from_slice(body);
    out
}

fn seq(parts: &[Vec<u8>]) -> Vec<u8> {
    tlv(0x30, &parts.concat())
}

fn name() -> Vec<u8> {
    let attr = seq(&[tlv(0x06, &[0x55, 0x04, 0x03]), tlv(0x0c, b"a")]);
    seq(&[tlv(0x31, &attr)])
}

/// A DER certificate (with a meaningless signature) whose subject public key
/// `BIT STRING` holds `key` with `unused` unused bits.
fn certificate(key: &[u8], unused: u8) -> Vec<u8> {
    let alg = seq(&[tlv(0x06, &[0x2a, 0x86, 0x48, 0xce, 0x3d, 0x04, 0x03, 0x02])]);
    let mut bits = vec![unused];
    bits.extend_from_slice(key);
    let spki = seq(&[seq(&[tlv(0x06, &[0x2b, 0x65, 0x70])]), tlv(0x03, &bits)]);
    let validity = seq(&[tlv(0x17, b"250101000000Z"), tlv(0x17, b"350101000000Z")]);
    let tbs = seq(&[
        tlv(0xa0, &tlv(0x02, &[2])),
        tlv(0x02, &[1]),
        alg.clone(),
        name(),
        validity,
        name(),
        spki,
    ]);
    seq(&[tbs, alg, tlv(0x03, &[0, 1, 2, 3, 4])])
}

#[test]
fn server_public_key_is_the_subject_key_bit_string() {
    let key: Vec<u8> = (1..=32).collect();
    let der = certificate(&key, 0);
    assert_eq!(server_public_key(&vec![der.clone()]), Ok(key.clone()));
    assert_eq!(server_public_key(&vec![der, vec![0xff]]), Ok(key));
}

#[test]
fn server_public_key_failures() {
    assert_eq!(server_public_key(&Vec::new()), Err(ServerKeyError::MissingCertificate));
    assert!(matches!(server_public_key(&vec![vec![0x30, 0x03, 0x02, 0x01]]), Err(ServerKeyError::Malformed(_))));
    assert_eq!(server_public_key(&vec![certificate(&[1, 2, 3, 4], 1)]), Err(ServerKeyError::UnalignedKey));
    let decode_error = x509_cert::der::Error::from(x509_cert::der::ErrorKind::Failed);
    assert_eq!(server_key_from_decoded(Err(decode_error)), Err(ServerKeyError::Malformed(decode_error)));
    assert_eq!(server_key_from_decoded(Ok(None)), Err(ServerKeyError::UnalignedKey));
    assert_eq!(server_key_from_decoded(Ok(Some(vec![9]))), Ok(vec![9]));
}

#[test]
fn sni_name_falls_back_to_the_placeholder() {
    assert_eq!(sni_server_name("example.com"), "example.com");
    assert_eq!(sni_server_name("192.168.0.10"), "192.168.0.10");
    assert_eq!(sni_server_name("not a host name!"), "rdp.invalid");
    assert_eq!(sni_name_for("x", false), "rdp.invalid");
    assert_eq!(sni_name_for("x", true), "x");
}

#[test]
fn exception_names_map_to_filesystem_errors() {
    assert_eq!(fs_error_for_exception(Some("NotFoundError".to_string()), "m".to_string()), FsError::NotFound);
    assert_eq!(fs_error_for_exception(Some("NotAllowedError".to_string()), "m".to_string()), FsError::AccessDenied);
    assert_eq!(
        fs_error_for_exception(Some("NoModificationAllowedError".to_string()), "m".to_string()),
        FsError::AccessDenied
    );
    assert_eq!(
        fs_error_for_exception(Some("TypeMismatchError".to_string()), "m".to_string()),
        FsError::Other("m".to_string())
    );
    assert_eq!(fs_error_for_exception(None, "m".to_string()), FsError::Other("m".to_string()));
    assert!(is_type_mismatch(Some("TypeMismatchError".to_string())));
    assert!(!is_type_mismatch(Some("NotFoundError".to_string())));
    assert!(!is_type_mismatch(None));
}
