use cms::cert::x509::der::asn1::SetOfVec;
use cms::cert::x509::der::oid::db::rfc5911::{ID_DATA, ID_SIGNED_DATA};
use cms::cert::x509::der::oid::ObjectIdentifier;
use cms::cert::x509::der::{Any, Decode, Encode};
use cms::cert::{CertificateChoices, OtherCertificateFormat};
use cms::content_info::{CmsVersion, ContentInfo};
use cms::signed_data::{CertificateSet, EncapsulatedContentInfo, SignedData, SignerInfos};
use http::header::CONTENT_TYPE;
use http::{HeaderMap, HeaderValue};
use openssl::asn1::Asn1Time;
use openssl::bn::BigNum;
use openssl::ec::{EcGroup, EcKey};
use openssl::hash::MessageDigest;
use openssl::nid::Nid;
use openssl::pkey::PKey;
use openssl::x509::{X509Builder, X509NameBuilder, X509};
use url::Url;
use x509_client::provided::default::parser::holds_body;
use x509_client::provided::default::{
    Certificate, DefaultX509Iterator, DefaultX509IteratorError, DefaultX509Parser,
};
use x509_client::{
    Transport, X509Client, X509ClientConfiguration, X509ClientError, X509Iterator,
    X509IteratorError, X509Parse, X509Type,
};

/// A self-signed certificate for `name`, made on the spot.
fn certificate(name: &str) -> X509 {
    let group = EcGroup::from_curve_name(Nid::X9_62_PRIME256V1).unwrap();
    let key = PKey::from_ec_key(EcKey::generate(&group).unwrap()).unwrap();
    let mut subject = X509NameBuilder::new().unwrap();
    subject.append_entry_by_text("CN", name).unwrap();
    let subject = subject.build();
    let mut builder = X509Builder::new().unwrap();
    builder.set_version(2).unwrap();
    let serial = BigNum::from_u32(7).unwrap().to_asn1_integer().unwrap();
    builder.set_serial_number(&serial).unwrap();
    builder.set_subject_name(&subject).unwrap();
    builder.set_issuer_name(&subject).unwrap();
    builder.set_pubkey(&key).unwrap();
    builder
        .set_not_before(&Asn1Time::days_from_now(0).unwrap())
        .unwrap();
    builder
        .set_not_after(&Asn1Time::days_from_now(30).unwrap())
        .unwrap();
    builder.sign(&key, MessageDigest::sha256()).unwrap();
    builder.build()
}

fn cer(name: &str) -> Vec<u8> {
    certificate(name).to_der().unwrap()
}

fn pem(names: &[&str]) -> Vec<u8> {
    let mut text = Vec::new();
    for name in names {
        text.extend(certificate(name).to_pem().unwrap());
    }
    text
}

fn signed_data(certificates: Option<CertificateSet>) -> Vec<u8> {
    let signed_data = SignedData {
        version: CmsVersion::V1,
        digest_algorithms: SetOfVec::default(),
        encap_content_info: EncapsulatedContentInfo {
            econtent_type: ID_DATA,
            econtent: None,
        },
        certificates,
        crls: None,
        signer_infos: SignerInfos(SetOfVec::default()),
    };
    let content = Any::from_der(&signed_data.to_der().unwrap()).unwrap();
    ContentInfo {
        content_type: ID_SIGNED_DATA,
        content,
    }
    .to_der()
    .unwrap()
}

fn plain(name: &str) -> CertificateChoices {
    CertificateChoices::Certificate(cms::cert::x509::Certificate::from_der(&cer(name)).unwrap())
}

fn other() -> CertificateChoices {
    CertificateChoices::Other(OtherCertificateFormat {
        other_cert_format: ObjectIdentifier::new_unwrap("1.3.6.1.4.1.99999.1"),
        other_cert: Any::from_der(&[0x04, 0x02, 0xca, 0xfe]).unwrap(),
    })
}

fn p7c(choices: Vec<CertificateChoices>) -> Vec<u8> {
    let mut set = SetOfVec::new();
    for choice in choices {
        set.insert(choice).unwrap();
    }
    signed_data(Some(CertificateSet(set)))
}

fn subject(certificate: &Certificate) -> String {
    certificate.0.tbs_certificate.subject.to_string()
}

fn subjects(certificates: &[Certificate]) -> Vec<String> {
    let mut names: Vec<String> = certificates.iter().map(subject).collect();
    names.sort();
    names
}

fn content_type(value: &str) -> HeaderMap {
    let mut headers = HeaderMap::new();
    headers.insert(CONTENT_TYPE, HeaderValue::from_str(value).unwrap());
    headers
}

fn build_client(config: X509ClientConfiguration) -> X509Client<DefaultX509Iterator> {
    X509Client::new(config)
}

/// What a caller does with a `file` origin whose bytes it has read.
fn load(
    client: &X509Client<DefaultX509Iterator>,
    url: &Url,
    data: &[u8],
) -> Result<DefaultX509Iterator, X509ClientError> {
    match client.get_all(url)? {
        Transport::File(path) => client.file_read_certificates(&path, data),
        Transport::Network => panic!("a file origin is read from a file"),
    }
}

/// What a caller does with a network origin that answered 200 with `body`,
/// received in chunks of 256 bytes.
fn get(
    client: &X509Client<DefaultX509Iterator>,
    url: &Url,
    headers: &HeaderMap,
    body: &[u8],
) -> Result<DefaultX509Iterator, X509ClientError> {
    match client.get_all(url)? {
        Transport::File(_) => panic!("a network origin is read from the network"),
        Transport::Network => {
            let mut download = client.download(200, headers)?;
            for chunk in body.chunks(256) {
                download = download.receive(chunk)?;
            }
            client.http_get_certificates(download)
        }
    }
}

#[test]
fn test_cer() {
    let certificate = cer("resource.resources.ciph.xxx");
    let iter = DefaultX509Iterator::from_cer(&certificate)
        .unwrap()
        .into_iter();
    assert_eq!(1, iter.len());
}

#[test]
fn test_pem() {
    let certificate = pem(&["resource.resources.ciph.xxx"]);
    let iter = DefaultX509Iterator::from_pem(&certificate)
        .unwrap()
        .into_iter();
    assert_eq!(1, iter.len());
}

#[test]
fn test_pkcs7() {
    let certificate = p7c(vec![plain("resource.resources.ciph.xxx"), plain("ca.ciph.xxx")]);
    let iter = DefaultX509Iterator::from_pkcs7(&certificate)
        .unwrap()
        .into_iter();
    assert_eq!(2, iter.len());
}

#[test]
fn test_pemstack() {
    let certificate = pem(&["resource.resources.ciph.xxx", "ca.ciph.xxx"]);
    let iter = DefaultX509Iterator::from_pem(&certificate)
        .unwrap()
        .into_iter();
    assert_eq!(2, iter.len());
}

#[test]
fn limit() {
    let limit_config = X509ClientConfiguration {
        strict: true,
        files: false,
        limit: Some(600),
    };
    let no_limit_config = X509ClientConfiguration {
        strict: true,
        files: false,
        limit: None,
    };

    let url_small = Url::parse(
        "https://identity.vandelaybank.com:4443/certificates/kim@id.vandelaybank.com.cer",
    )
    .unwrap();
    let small = cer("kim@id.vandelaybank.com");
    assert!(small.len() <= 600);

    let url_large = Url::parse(
        "https://identity.vandelaybank.com:4443/certificates/kim@id.vandelaybank.com-fullchain.pem",
    )
    .unwrap();
    let large = pem(&["kim@id.vandelaybank.com", "id.vandelaybank.com"]);
    assert!(large.len() > 600);

    let cer_type = content_type("application/pkix-cert");
    let pem_type = content_type("application/pem-certificate-chain");

    let client = build_client(limit_config);
    assert!(get(&client, &url_small, &cer_type, &small).is_ok());

    let client = build_client(no_limit_config);
    assert!(get(&client, &url_large, &pem_type, &large).is_ok());

    let client = build_client(limit_config);
    assert!(get(&client, &url_large, &pem_type, &large).is_err());
}

#[test]
fn files() {
    let file_config = X509ClientConfiguration {
        strict: true,
        files: true,
        limit: None,
    };

    let no_file_config = X509ClientConfiguration {
        strict: true,
        files: false,
        limit: None,
    };

    let file = Url::from_file_path(
        "/tmp/pki-test-framework/identity/vandelaybank.com/kim@id.vandelaybank.com.cer",
    )
    .unwrap();
    let data = cer("kim@id.vandelaybank.com");

    let client = build_client(file_config);
    assert!(load(&client, &file, &data).is_ok());

    let client = build_client(no_file_config);
    assert!(load(&client, &file, &data).is_err());
}

#[test]
fn default_get_cer() {
    let client = build_client(X509ClientConfiguration {
        strict: true,
        files: false,
        limit: None,
    });

    let url = Url::parse(
        "https://identity.vandelaybank.com:4443/certificates/kim@id.vandelaybank.com.cer",
    )
    .unwrap();

    let certificates = get(
        &client,
        &url,
        &content_type("application/pkix-cert"),
        &cer("kim@id.vandelaybank.com"),
    )
    .unwrap()
    .into_iter()
    .collect::<Vec<Certificate>>();

    assert_eq!(1, certificates.len());
}

#[test]
fn default_load_cer() {
    let client = build_client(X509ClientConfiguration {
        strict: true,
        files: true,
        limit: None,
    });

    let file = Url::from_file_path(
        "/tmp/pki-test-framework/identity/vandelaybank.com/kim@id.vandelaybank.com.cer",
    )
    .unwrap();

    let certificates = load(&client, &file, &cer("kim@id.vandelaybank.com"))
        .unwrap()
        .into_iter()
        .collect::<Vec<Certificate>>();

    assert_eq!(1, certificates.len());
}

#[test]
fn default_get_pkcs7() {
    let client = build_client(X509ClientConfiguration {
        strict: true,
        files: false,
        limit: None,
    });

    let url = Url::parse(
        "https://identity.vandelaybank.com:4443/certificates/kim@id.vandelaybank.com.p7c",
    )
    .unwrap();

    let certificates = get(
        &client,
        &url,
        &content_type("application/pkcs7-mime"),
        &p7c(vec![plain("kim@id.vandelaybank.com"), plain("id.vandelaybank.com")]),
    )
    .unwrap()
    .into_iter()
    .collect::<Vec<Certificate>>();

    assert_eq!(2, certificates.len());
}

#[test]
fn default_load_pkcs7() {
    let client = build_client(X509ClientConfiguration {
        strict: true,
        files: true,
        limit: None,
    });

    let file = Url::from_file_path(
        "/tmp/pki-test-framework/identity/vandelaybank.com/kim@id.vandelaybank.com.p7c",
    )
    .unwrap();

    let certificates = load(
        &client,
        &file,
        &p7c(vec![plain("kim@id.vandelaybank.com"), plain("id.vandelaybank.com")]),
    )
    .unwrap()
    .into_iter()
    .collect::<Vec<Certificate>>();

    assert_eq!(2, certificates.len());
}

#[test]
fn default_get_pem() {
    let client = build_client(X509ClientConfiguration {
        strict: true,
        files: false,
        limit: None,
    });

    let url = Url::parse(
        "https://identity.vandelaybank.com:4443/certificates/kim@id.vandelaybank.com.pem",
    )
    .unwrap();

    let certificates = get(
        &client,
        &url,
        &content_type("application/pem-certificate-chain"),
        &pem(&["kim@id.vandelaybank.com"]),
    )
    .unwrap()
    .into_iter()
    .collect::<Vec<Certificate>>();

    assert_eq!(1, certificates.len());
}

#[test]
fn default_load_pem() {
    let client = build_client(X509ClientConfiguration {
        strict: true,
        files: true,
        limit: None,
    });

    let file = Url::from_file_path(
        "/tmp/pki-test-framework/identity/vandelaybank.com/kim@id.vandelaybank.com.pem",
    )
    .unwrap();

    let certificates = load(&client, &file, &pem(&["kim@id.vandelaybank.com"]))
        .unwrap()
        .into_iter()
        .collect::<Vec<Certificate>>();

    assert_eq!(1, certificates.len());
}

#[test]
fn default_get_pemstack() {
    let client = build_client(X509ClientConfiguration {
        strict: true,
        files: false,
        limit: None,
    });

    let url = Url::parse(
        "https://identity.vandelaybank.com:4443/certificates/kim@id.vandelaybank.com-fullchain.pem",
    )
    .unwrap();

    let certificates = get(
        &client,
        &url,
        &content_type("application/pem-certificate-chain"),
        &pem(&["kim@id.vandelaybank.com", "id.vandelaybank.com"]),
    )
    .unwrap()
    .into_iter()
    .collect::<Vec<Certificate>>();

    assert_eq!(2, certificates.len());
}

#[test]
fn default_load_pemstack() {
    let client = build_client(X509ClientConfiguration {
        strict: true,
        files: true,
        limit: None,
    });

    let file = Url::from_file_path(
        "/tmp/pki-test-framework/identity/vandelaybank.com/kim@id.vandelaybank.com-fullchain.pem",
    )
    .unwrap();

    let certificates = load(
        &client,
        &file,
        &pem(&["kim@id.vandelaybank.com", "id.vandelaybank.com"]),
    )
    .unwrap()
    .into_iter()
    .collect::<Vec<Certificate>>();

    assert_eq!(2, certificates.len());
}

#[test]
fn single_certificate_decodes_to_one() {
    let certificates = DefaultX509Parser::from_cer(&cer("one")).unwrap();
    assert_eq!(vec!["CN=one".to_string()], subjects(&certificates));
}

#[test]
fn single_certificate_with_trailing_bytes_is_rejected() {
    let mut der = cer("one");
    der.push(0);
    assert!(matches!(
        DefaultX509Parser::from_cer(&der),
        Err(DefaultX509IteratorError::DerError(_))
    ));
    assert!(DefaultX509Parser::from_cer(b"").is_err());
    assert!(DefaultX509Parser::from_cer(&pem(&["one"])).is_err());
}

#[test]
fn chain_decodes_in_order() {
    let certificates = DefaultX509Parser::from_pem(&pem(&["b", "a", "c"])).unwrap();
    let names: Vec<String> = certificates.iter().map(subject).collect();
    assert_eq!(vec!["CN=b", "CN=a", "CN=c"], names);
}

#[test]
fn chain_of_nothing_but_line_ends_is_empty() {
    for blank in [&b""[..], &b"\n"[..], &b"\r\n"[..], &b"\n\n\r\r\n"[..]] {
        assert_eq!(0, DefaultX509Parser::from_pem(blank).unwrap().len());
        assert_eq!(
            0,
            DefaultX509Iterator::from_pem(blank).unwrap().into_vec().len()
        );
    }
}

#[test]
fn chain_that_is_cut_short_is_rejected() {
    let mut text = pem(&["one"]);
    text.truncate(text.len() / 2);
    assert!(matches!(
        DefaultX509Parser::from_pem(&text),
        Err(DefaultX509IteratorError::DerError(_))
    ));
    assert!(DefaultX509Parser::from_pem(b"no certificate here").is_err());
    assert!(DefaultX509Parser::from_pem(&cer("one")).is_err());
}

#[test]
fn line_ends_are_told_from_content() {
    assert!(!holds_body(b""));
    assert!(!holds_body(b"\r\n\n"));
    assert!(holds_body(b" "));
    assert!(holds_body(b"\n\n-\n"));
    assert!(holds_body(b"\t"));
}

#[test]
fn bundle_of_two_decodes_to_two() {
    let certificates =
        DefaultX509Parser::from_pkcs7(&p7c(vec![plain("one"), plain("two")])).unwrap();
    assert_eq!(vec!["CN=one", "CN=two"], subjects(&certificates));
}

#[test]
fn bundle_keeps_the_order_of_its_set() {
    let bundle = p7c(vec![plain("one"), plain("two"), plain("three")]);
    let expected: Vec<String> = SignedData::from_der(
        &ContentInfo::from_der(&bundle)
            .unwrap()
            .content
            .to_der()
            .unwrap(),
    )
    .unwrap()
    .certificates
    .unwrap()
    .0
    .into_vec()
    .into_iter()
    .map(|choice| match choice {
        CertificateChoices::Certificate(c) => c.tbs_certificate.subject.to_string(),
        CertificateChoices::Other(_) => panic!("the bundle holds plain certificates only"),
    })
    .collect();
    let certificates = DefaultX509Parser::from_pkcs7(&bundle).unwrap();
    let names: Vec<String> = certificates.iter().map(subject).collect();
    assert_eq!(expected, names);
    assert_eq!(3, names.len());
}

#[test]
fn bundle_without_certificates_decodes_to_none() {
    let certificates = DefaultX509Parser::from_pkcs7(&signed_data(None)).unwrap();
    assert_eq!(0, certificates.len());
    let collection = DefaultX509Iterator::from_pkcs7(&signed_data(None)).unwrap();
    assert_eq!(0, collection.into_iter().len());
}

#[test]
fn bundle_with_an_empty_set_decodes_to_none() {
    let certificates = DefaultX509Parser::from_pkcs7(&p7c(vec![])).unwrap();
    assert_eq!(0, certificates.len());
}

#[test]
fn bundle_drops_what_is_not_a_plain_certificate() {
    let certificates =
        DefaultX509Parser::from_pkcs7(&p7c(vec![other(), plain("one")])).unwrap();
    assert_eq!(vec!["CN=one"], subjects(&certificates));
    let certificates = DefaultX509Parser::from_pkcs7(&p7c(vec![other()])).unwrap();
    assert_eq!(0, certificates.len());
}

#[test]
fn bundle_that_is_malformed_is_rejected() {
    assert!(matches!(
        DefaultX509Parser::from_pkcs7(b"not a bundle"),
        Err(DefaultX509IteratorError::DerError(_))
    ));
    assert!(DefaultX509Parser::from_pkcs7(&cer("one")).is_err());
    let mut bundle = p7c(vec![plain("one")]);
    bundle.pop();
    assert!(DefaultX509Parser::from_pkcs7(&bundle).is_err());
}

#[test]
fn collection_hands_out_what_it_was_given() {
    let certificates = DefaultX509Parser::from_pem(&pem(&["b", "a"])).unwrap();
    let collection = DefaultX509Iterator::from_vec(certificates);
    let names: Vec<String> = collection.into_vec().iter().map(subject).collect();
    assert_eq!(vec!["CN=b", "CN=a"], names);
}

#[test]
fn strict_parse_of_a_chain_hinted_as_single_fails() {
    let chain = pem(&["one"]);
    let strict: X509Parse<DefaultX509Iterator> = X509Parse::new(true);
    let relaxed: X509Parse<DefaultX509Iterator> = X509Parse::new(false);
    assert!(matches!(
        strict.parse(&X509Type::Cer, &chain),
        Err(X509ClientError::X509IteratorError(_))
    ));
    assert_eq!(
        1,
        relaxed
            .parse(&X509Type::Pem, &chain)
            .unwrap()
            .into_vec()
            .len()
    );
    assert_eq!(
        1,
        relaxed
            .parse(&X509Type::Cer, &chain)
            .unwrap()
            .into_vec()
            .len()
    );
}

#[test]
fn relaxed_parse_finds_a_bundle_without_a_hint() {
    let bundle = p7c(vec![plain("one"), plain("two")]);
    let relaxed: X509Parse<DefaultX509Iterator> = X509Parse::new(false);
    assert_eq!(
        2,
        relaxed
            .parse(&X509Type::Unknown, &bundle)
            .unwrap()
            .into_vec()
            .len()
    );
    assert!(matches!(
        relaxed.parse(&X509Type::Unknown, b"neither of the three"),
        Err(X509ClientError::NoFormatMatched)
    ));
}

#[test]
fn decode_failure_says_what_happened() {
    let error = DefaultX509Parser::from_cer(b"").err().unwrap();
    let text = error.message();
    assert!(text.starts_with("default x509 iterator -> der error: "));
    assert!(text.len() > "default x509 iterator -> der error: ".len());
    assert_eq!(
        "default x509 iterator -> error: no luck",
        DefaultX509IteratorError::Error("no luck".to_string()).message()
    );
    let strict: X509Parse<DefaultX509Iterator> = X509Parse::new(true);
    match strict.parse(&X509Type::Cer, b"") {
        Err(e) => assert_eq!(format!("x509-client -> {}", text), e.message()),
        Ok(_) => panic!("nothing is no certificate"),
    }
}

#[test]
fn der_error_converts() {
    let cause = cms::cert::x509::Certificate::from_der(b"").err().unwrap();
    assert!(matches!(
        DefaultX509IteratorError::from(cause),
        DefaultX509IteratorError::DerError(_)
    ));
}
