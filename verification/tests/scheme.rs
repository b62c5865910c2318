use argon2::password_hash::{PasswordHasher, SaltString};
use lib_auth::pass::hex::hex_encode;
use lib_auth::pass::scheme::scheme_01::{hashed_from_tag, Scheme01};
use lib_auth::pass::scheme::scheme_02::{
    hashed_from_derived, Scheme02, M_COST, OUTPUT_LEN, P_COST, T_COST,
};
use lib_auth::pass::scheme::{
    get_scheme, same_hashed, scheme_status, validate_hashed, Error, Scheme, SchemeDispatcher,
    SchemeStatus, DEFAULT_SCHEME,
};
use lib_auth::pass::ContentToHash;

fn content(content: &str, salt: [u8; 16]) -> ContentToHash {
    ContentToHash {
        content: content.to_string(),
        salt,
    }
}

#[test]
fn default_scheme_is_the_second() {
    assert_eq!(DEFAULT_SCHEME, "02");
    assert!(matches!(
        get_scheme(DEFAULT_SCHEME),
        Ok(SchemeDispatcher::Scheme02(_))
    ));
}

#[test]
fn every_scheme_still_resolves() {
    assert!(matches!(
        get_scheme("01"),
        Ok(SchemeDispatcher::Scheme01(_))
    ));
    assert!(matches!(
        get_scheme("02"),
        Ok(SchemeDispatcher::Scheme02(_))
    ));
}

#[test]
fn no_scheme_stands_in_for_an_unknown_name() {
    for name in ["", "0", "1", "2", "00", "03", "99", "001", "01 ", " 01", "O2", "０２", "02\n"] {
        match get_scheme(name) {
            Err(Error::SchemeNotFound(cause)) => assert_eq!(cause, name),
            _ => panic!("{name:?} resolved"),
        }
    }
}

#[test]
fn status_of_the_schemes() {
    assert_eq!(scheme_status("02"), SchemeStatus::Current);
    assert_eq!(scheme_status("01"), SchemeStatus::Outdated);
    assert_eq!(scheme_status("99"), SchemeStatus::Outdated);
    assert_eq!(scheme_status(""), SchemeStatus::Outdated);
}

#[test]
fn first_scheme_known_answer() {
    // the second test case for HMAC-SHA-512 of RFC 4231: the key "Jefe" and
    // the data "what do ya want for nothing?"
    let mut salt = [0u8; 16];
    salt.copy_from_slice(b"ant for nothing?");
    let hashed = Scheme01.hash(&content("what do ya w", salt), b"Jefe").unwrap();
    assert_eq!(
        hashed,
        "164b7a7bfcf819e2e395fbe73b56e0a387bd64222e831fd610270cd7ea250554\
         9758bf75c05a994a6d034f65f8f0e6fdcaeab1a34d4a6b4b636e070a38bce737"
    );
}

#[test]
fn first_scheme_validates_what_it_hashed() {
    let c = content("test_password", [3u8; 16]);
    let hashed = Scheme01.hash(&c, b"key").unwrap();
    assert!(Scheme01.validate(&c, &hashed, b"key").is_ok());
    assert!(matches!(
        Scheme01.validate(&content("test_passwore", [3u8; 16]), &hashed, b"key"),
        Err(Error::PassValidate)
    ));
    assert!(matches!(
        Scheme01.validate(&c, &hashed[1..], b"key"),
        Err(Error::PassValidate)
    ));
    assert!(matches!(
        Scheme01.validate(&c, &hashed.to_uppercase(), b"key"),
        Err(Error::PassValidate)
    ));
    assert!(matches!(
        Scheme01.validate(&c, "", b"key"),
        Err(Error::PassValidate)
    ));
    assert!(matches!(
        Scheme01.validate(&c, &hashed, b""),
        Err(Error::Key)
    ));
}

#[test]
fn second_scheme_is_keyed_argon2id() {
    let key = b"pepper";
    let salt = [0x5au8; 16];
    let hashed = Scheme02.hash(&content("superoot", salt), key).unwrap();

    // the same, by the way of the crate's own text form
    let params = argon2::Params::new(M_COST, T_COST, P_COST, Some(OUTPUT_LEN)).unwrap();
    let ctx = argon2::Argon2::new_with_secret(
        key,
        argon2::Algorithm::Argon2id,
        argon2::Version::V0x13,
        params,
    )
    .unwrap();
    let salt_text = SaltString::encode_b64(&salt).unwrap();
    let phc = ctx.hash_password(b"superoot", &salt_text).unwrap();
    assert_eq!(phc.algorithm.as_str(), "argon2id");
    assert_eq!(phc.version, Some(19));
    let derived = phc.hash.unwrap();
    assert_eq!(derived.as_bytes().len(), 32);
    assert_eq!(hashed, hex_encode(derived.as_bytes()));

    // and not the same without the key
    let unkeyed = argon2::Argon2::new(
        argon2::Algorithm::Argon2id,
        argon2::Version::V0x13,
        argon2::Params::new(M_COST, T_COST, P_COST, Some(OUTPUT_LEN)).unwrap(),
    );
    let mut out = [0u8; 32];
    unkeyed
        .hash_password_into(b"superoot", &salt, &mut out)
        .unwrap();
    assert_ne!(hashed, hex_encode(&out));
}

#[test]
fn second_scheme_costs() {
    assert_eq!(M_COST, 19 * 1024);
    assert_eq!(T_COST, 2);
    assert_eq!(P_COST, 1);
    assert_eq!(OUTPUT_LEN, 32);
}

#[test]
fn second_scheme_validates_what_it_hashed() {
    let c = content("test_password", [3u8; 16]);
    let hashed = Scheme02.hash(&c, b"key").unwrap();
    assert_eq!(hashed.len(), 64);
    assert!(Scheme02.validate(&c, &hashed, b"key").is_ok());
    assert!(matches!(
        Scheme02.validate(&content("Test_password", [3u8; 16]), &hashed, b"key"),
        Err(Error::PassValidate)
    ));
    assert!(matches!(
        Scheme02.validate(&c, &hashed, b"kez"),
        Err(Error::PassValidate)
    ));
    assert!(matches!(
        Scheme02.validate(&c, &hashed, b""),
        Err(Error::Key)
    ));
    assert!(matches!(Scheme02.hash(&c, b""), Err(Error::Key)));
}

#[test]
fn the_schemes_differ() {
    let c = content("test_password", [3u8; 16]);
    let first = Scheme01.hash(&c, b"key").unwrap();
    let second = Scheme02.hash(&c, b"key").unwrap();
    assert_ne!(first, second);
    assert!(Scheme02.validate(&c, &first, b"key").is_err());
    assert!(Scheme01.validate(&c, &second, b"key").is_err());
}

#[test]
fn dispatcher_hands_on_to_its_scheme() {
    let c = content("test_password", [3u8; 16]);
    let first = get_scheme("01").unwrap();
    let second = get_scheme("02").unwrap();
    assert_eq!(
        first.hash(&c, b"key").unwrap(),
        Scheme01.hash(&c, b"key").unwrap()
    );
    assert_eq!(
        second.hash(&c, b"key").unwrap(),
        Scheme02.hash(&c, b"key").unwrap()
    );
    let hashed = second.hash(&c, b"key").unwrap();
    assert!(second.validate(&c, &hashed, b"key").is_ok());
    assert!(matches!(
        first.validate(&c, &hashed, b"key"),
        Err(Error::PassValidate)
    ));
}

#[test]
fn same_hashed_is_equality() {
    assert!(same_hashed("", ""));
    assert!(same_hashed("00ff", "00ff"));
    assert!(!same_hashed("00ff", "00fe"));
    assert!(!same_hashed("00ff", "10ff"));
    assert!(!same_hashed("00ff", "00ff0"));
    assert!(!same_hashed("00ff", "00f"));
    assert!(!same_hashed("", "0"));
    assert!(same_hashed("é", "é"));
    assert!(!same_hashed("é", "e"));
}

#[test]
fn messages_of_the_scheme_errors() {
    assert_eq!(Error::Key.message(), "Error with key");
    assert_eq!(Error::Salt.message(), "Error with salt");
    assert_eq!(Error::Hash.message(), "Error with hash");
    assert_eq!(
        Error::PassValidate.message(),
        "Error with password validation"
    );
    assert_eq!(
        Error::SchemeNotFound("99".to_string()).message(),
        "Error with scheme not found - cause: 99"
    );
    match get_scheme("99") {
        Err(e) => assert_eq!(e.message(), "Error with scheme not found - cause: 99"),
        Ok(_) => panic!("99 resolved"),
    }
}

#[test]
fn hashed_from_what_was_derived() {
    assert_eq!(
        hashed_from_derived(Some(vec![0x00, 0x1f, 0xa5, 0xff])).unwrap(),
        "001fa5ff"
    );
    assert_eq!(hashed_from_derived(Some(vec![0x7f])).unwrap(), "7f");
    assert!(matches!(hashed_from_derived(None), Err(Error::Hash)));
    assert!(matches!(
        hashed_from_derived(Some(Vec::new())),
        Err(Error::Hash)
    ));
}

#[test]
fn hashed_from_a_tag() {
    assert_eq!(
        hashed_from_tag(Ok(vec![0x00, 0x1f, 0xa5, 0xff])).unwrap(),
        "001fa5ff"
    );
    assert!(matches!(
        hashed_from_tag(Err(hmac::digest::InvalidLength)),
        Err(Error::Key)
    ));
    assert!(matches!(hashed_from_tag(Ok(Vec::new())), Err(Error::Hash)));
}

#[test]
fn validating_what_was_hashed() {
    assert!(validate_hashed(Ok("00ff".to_string()), "00ff").is_ok());
    assert!(validate_hashed(Ok(String::new()), "").is_ok());
    assert!(matches!(
        validate_hashed(Ok("00ff".to_string()), "00fe"),
        Err(Error::PassValidate)
    ));
    assert!(matches!(
        validate_hashed(Ok("00ff".to_string()), ""),
        Err(Error::PassValidate)
    ));
    // a failure to hash stays what it is, whatever was presented
    assert!(matches!(
        validate_hashed(Err(Error::Key), "00ff"),
        Err(Error::Key)
    ));
    assert!(matches!(
        validate_hashed(Err(Error::Hash), ""),
        Err(Error::Hash)
    ));
    assert!(matches!(
        validate_hashed(Err(Error::Salt), "00ff"),
        Err(Error::Salt)
    ));
}
