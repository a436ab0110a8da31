use signet::keychain::password::argon2;
use signet::keychain::password::request;
use signet::keychain::password::Error;
use signet::system::Failure;
use signet::system::FailureKind;
use signet::Input;
use signet::Passphrase;
use signet::Password;
use signet::Secret;
use signet::System;

fn refuse<T>() -> Result<T, Failure> {
    Err(Failure { kind: FailureKind::Other, message: "not for this test".to_owned() })
}

struct Glow;

impl System for Glow {
    fn init(_: &str, _: &[u8]) -> Result<(), Failure> {
        refuse()
    }

    fn sync(_: &str, _: &[u8]) -> Result<(), Failure> {
        refuse()
    }

    fn mkdir(_: &str) -> Result<(), Failure> {
        refuse()
    }

    fn read(_: &Input) -> Result<Vec<u8>, Failure> {
        refuse()
    }

    fn write(_: &str, _: &[u8]) -> Result<(), Failure> {
        refuse()
    }

    fn prompt(_: &str) -> Result<String, Failure> {
        Ok("afternoon-glow".to_owned())
    }
}

struct Midnight;

impl System for Midnight {
    fn init(_: &str, _: &[u8]) -> Result<(), Failure> {
        refuse()
    }

    fn sync(_: &str, _: &[u8]) -> Result<(), Failure> {
        refuse()
    }

    fn mkdir(_: &str) -> Result<(), Failure> {
        refuse()
    }

    fn read(_: &Input) -> Result<Vec<u8>, Failure> {
        refuse()
    }

    fn write(_: &str, _: &[u8]) -> Result<(), Failure> {
        refuse()
    }

    fn prompt(_: &str) -> Result<String, Failure> {
        Ok("afternoon-glow ".to_owned())
    }
}

struct Slip;

impl System for Slip {
    fn init(_: &str, _: &[u8]) -> Result<(), Failure> {
        refuse()
    }

    fn sync(_: &str, _: &[u8]) -> Result<(), Failure> {
        refuse()
    }

    fn mkdir(_: &str) -> Result<(), Failure> {
        refuse()
    }

    fn read(_: &Input) -> Result<Vec<u8>, Failure> {
        refuse()
    }

    fn write(_: &str, _: &[u8]) -> Result<(), Failure> {
        refuse()
    }

    fn prompt(prompt: &str) -> Result<String, Failure> {
        match prompt {
            "enter password: " => Ok("afternoon-glow".to_owned()),
            "password again: " => Ok("afternoon-glov".to_owned()),
            _ => panic!("unexpected prompt {prompt:?}"),
        }
    }
}

struct Closed;

impl System for Closed {
    fn init(_: &str, _: &[u8]) -> Result<(), Failure> {
        refuse()
    }

    fn sync(_: &str, _: &[u8]) -> Result<(), Failure> {
        refuse()
    }

    fn mkdir(_: &str) -> Result<(), Failure> {
        refuse()
    }

    fn read(_: &Input) -> Result<Vec<u8>, Failure> {
        refuse()
    }

    fn write(_: &str, _: &[u8]) -> Result<(), Failure> {
        refuse()
    }

    fn prompt(_: &str) -> Result<String, Failure> {
        Err(Failure { kind: FailureKind::Other, message: "end of input".to_owned() })
    }
}

struct Second;

impl System for Second {
    fn init(_: &str, _: &[u8]) -> Result<(), Failure> {
        refuse()
    }

    fn sync(_: &str, _: &[u8]) -> Result<(), Failure> {
        refuse()
    }

    fn mkdir(_: &str) -> Result<(), Failure> {
        refuse()
    }

    fn read(_: &Input) -> Result<Vec<u8>, Failure> {
        refuse()
    }

    fn write(_: &str, _: &[u8]) -> Result<(), Failure> {
        refuse()
    }

    fn prompt(prompt: &str) -> Result<String, Failure> {
        match prompt {
            "enter password: " => Ok("afternoon-glow".to_owned()),
            _ => Err(Failure { kind: FailureKind::Other, message: "terminal gone".to_owned() }),
        }
    }
}

#[test]
fn static_password_round_trip() {
    let password = Password::create::<Glow>(false).unwrap();
    let hash = match &password {
        Password::Static(kept) => kept.hash.clone(),
        _ => panic!("a static password was asked for"),
    };
    assert!(hash.starts_with("$argon2id$v=19$m=19456,t=2,p=1$"));
    assert!(!hash.contains("afternoon-glow"));
    let unlocked = password.lookup::<Glow>().unwrap();
    assert_eq!(unlocked.as_str(), "afternoon-glow");
}

#[test]
fn static_password_rejects_another_entry() {
    let password = Password::create::<Glow>(false).unwrap();
    match password.lookup::<Midnight>() {
        Err(Error::Crypto(words)) => assert_eq!(words, "invalid password"),
        _ => panic!("a wrong entry unlocked the keychain"),
    }
}

#[test]
fn static_password_gets_a_fresh_salt_each_time() {
    let first = Password::create::<Glow>(false).unwrap();
    let second = Password::create::<Glow>(false).unwrap();
    match (first, second) {
        (Password::Static(first), Password::Static(second)) => assert_ne!(first.hash, second.hash),
        _ => panic!("static passwords were asked for"),
    }
}

#[test]
fn create_fails_with_mismatch_when_entries_differ() {
    assert!(matches!(Password::create::<Slip>(false), Err(Error::Mismatch)));
    assert!(matches!(Password::create::<Slip>(true), Err(Error::Mismatch)));
    assert!(matches!(request::<Slip>(), Err(Error::Mismatch)));
}

#[test]
fn create_fails_with_system_when_a_prompt_fails() {
    match Password::create::<Closed>(false) {
        Err(Error::System(words)) => assert_eq!(words, "end of input"),
        _ => panic!("a failed prompt was passed over"),
    }
    match Password::create::<Second>(false) {
        Err(Error::System(words)) => assert_eq!(words, "terminal gone"),
        _ => panic!("a failed prompt was passed over"),
    }
}

#[test]
fn request_gives_the_entry_when_both_agree() {
    let entered = request::<Glow>().unwrap();
    assert_eq!(entered.as_str(), "afternoon-glow");
}

#[test]
fn lookup_of_static_fails_with_system_when_the_prompt_fails() {
    let password = Password::create::<Glow>(false).unwrap();
    match password.lookup::<Closed>() {
        Err(Error::System(words)) => assert_eq!(words, "end of input"),
        _ => panic!("a failed prompt was passed over"),
    }
}

#[test]
fn lookup_of_a_hash_that_is_none_fails_with_crypto() {
    let password = Password::Static(signet::keychain::Static { hash: "no hash".to_owned() });
    assert!(matches!(password.lookup::<Glow>(), Err(Error::Crypto(_))));
}

#[test]
fn insecure_password_is_returned_without_prompt() {
    let password = Password::insecure("afternoon-glow");
    assert!(matches!(&password, Password::String(text) if text == "afternoon-glow"));
    assert_eq!(password.lookup::<Closed>().unwrap().as_str(), "afternoon-glow");
}

#[test]
fn argon2_is_a_function_of_password_and_salt() {
    let first = argon2("afternoon-glow", "c29tZXNhbHRzb21lc2FsdA").unwrap();
    let second = argon2("afternoon-glow", "c29tZXNhbHRzb21lc2FsdA").unwrap();
    assert_eq!(first, second);
    assert!(first.starts_with("$argon2id$v=19$m=19456,t=2,p=1$c29tZXNhbHRzb21lc2FsdA$"));
    let other = argon2("afternoon-glov", "c29tZXNhbHRzb21lc2FsdA").unwrap();
    assert_ne!(first, other);
    assert!(matches!(argon2("afternoon-glow", "!"), Err(Error::Crypto(_))));
}

#[test]
fn secret_reference_is_thirty_two_hex_digits() {
    let secret = Secret::named(&[0, 1, 2, 3, 4, 5, 6, 7, 8, 9, 10, 11, 12, 13, 14, 255]);
    assert_eq!(secret.name, "000102030405060708090a0b0c0d0eff");
    match Secret::create(Passphrase::new("afternoon-glow".to_owned())) {
        Ok(secret) => {
            assert_eq!(secret.name.len(), 32);
            assert!(secret.name.chars().all(|c| matches!(c, '0'..='9' | 'a'..='f')));
        }
        Err(signet::platform::Error::System(words)) => assert!(!words.is_empty()),
    }
}

#[test]
fn secret_backend_keeps_only_a_reference() {
    match Password::create::<Glow>(true) {
        Ok(Password::Secret(secret)) => assert_eq!(secret.name.len(), 32),
        Ok(_) => panic!("a secret was asked for"),
        Err(error) => assert!(matches!(error, Error::System(_))),
    }
}

#[test]
fn lookup_of_an_unknown_secret_fails_with_system() {
    let password = Password::Secret(Secret { name: "00000000000000000000000000000000".to_owned() });
    assert!(matches!(password.lookup::<Glow>(), Err(Error::System(_))));
}

#[test]
fn passphrase_holds_its_text() {
    let first = Passphrase::new("afternoon-glow".to_owned());
    let second = Passphrase::new("afternoon-glow".to_owned());
    let third = Passphrase::new("Afternoon-glow".to_owned());
    assert_eq!(first.as_str(), "afternoon-glow");
    assert!(first.same(&second));
    assert!(!first.same(&third));
    assert!(!first.same(&Passphrase::new(String::new())));
}

#[test]
fn cleared_passphrase_is_empty() {
    let mut passphrase = Passphrase::new("afternoon-glow".to_owned());
    passphrase.clear();
    assert_eq!(passphrase.as_str(), "");
    assert!(passphrase.same(&Passphrase::new(String::new())));
}

#[test]
fn password_error_messages() {
    assert_eq!(Error::Mismatch.message(), "password mismatch");
    assert_eq!(Error::Crypto("invalid password".to_owned()).message(), "invalid password");
    assert_eq!(Error::System("end of input".to_owned()).message(), "end of input");
    assert_eq!(signet::platform::Error::System("locked".to_owned()).message(), "locked");
}

#[test]
fn secure_storage_gives_only_what_it_holds() {
    let stored = signet::platform::secret::create("signet-test-entry", Passphrase::new("value".to_owned()));
    match stored {
        Ok(()) => {}
        Err(signet::platform::Error::System(words)) => assert!(!words.is_empty()),
    }
    let secret = Secret { name: "ffffffffffffffffffffffffffffffff".to_owned() };
    match secret.lookup() {
        Ok(_) => panic!("the storage gave what nobody stored"),
        Err(signet::platform::Error::System(words)) => assert!(!words.is_empty()),
    }
    assert!(signet::platform::secret::lookup("eeeeeeeeeeeeeeeeeeeeeeeeeeeeeeee").is_err());
}
