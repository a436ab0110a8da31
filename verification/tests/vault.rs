use std::sync::Mutex;

use rand_core::OsRng;
use signet::args::Init;
use signet::args::Keys;
use signet::args::Sign;
use signet::args::Verify;
use signet::command;
use signet::persist::Cause;
use signet::persist::Store;
use signet::Key;
use ssh_key::Algorithm;
use ssh_key::LineEnding;
use ssh_key::PrivateKey;
use signet::system::Failure;
use signet::system::FailureKind;
use signet::Input;
use signet::Keystore;
use signet::Password;
use signet::Signet;
use signet::System;

static FILES: Mutex<Vec<(String, Vec<u8>)>> = Mutex::new(Vec::new());

fn failure(kind: FailureKind, message: &str) -> Failure {
    Failure { kind, message: message.to_owned() }
}

struct Memory;

impl System for Memory {
    fn init(path: &str, data: &[u8]) -> Result<(), Failure> {
        let mut files = FILES.lock().unwrap();
        if files.iter().any(|(name, _)| name == path) {
            return Err(failure(FailureKind::Other, "file exists"));
        }
        files.push((path.to_owned(), data.to_vec()));
        Ok(())
    }

    fn sync(path: &str, data: &[u8]) -> Result<(), Failure> {
        let mut files = FILES.lock().unwrap();
        match files.iter_mut().find(|(name, _)| name == path) {
            Some(file) => {
                file.1 = data.to_vec();
                Ok(())
            }
            None => Err(failure(FailureKind::NotFound, "no such file")),
        }
    }

    fn mkdir(_path: &str) -> Result<(), Failure> {
        Ok(())
    }

    fn read(input: &Input) -> Result<Vec<u8>, Failure> {
        let files = FILES.lock().unwrap();
        match input {
            Input::File(path) => match files.iter().find(|(name, _)| name == path) {
                Some(file) => Ok(file.1.clone()),
                None => Err(failure(FailureKind::NotFound, "no such file")),
            },
            Input::Stdin => Ok(Vec::new()),
        }
    }

    fn write(path: &str, data: &[u8]) -> Result<(), Failure> {
        let mut files = FILES.lock().unwrap();
        files.retain(|(name, _)| name != path);
        files.push((path.to_owned(), data.to_vec()));
        Ok(())
    }

    fn prompt(_prompt: &str) -> Result<String, Failure> {
        Ok("afternoon-glow".to_owned())
    }
}

#[test]
fn initialize_lays_out_default_vault() {
    let vault: Signet<Memory> = Signet::new("vault-a".to_owned());
    assert!(vault.initialize(Password::insecure("afternoon-glow")).is_ok());

    let keystore: Keystore = vault.keystore().unwrap();
    assert_eq!(keystore.keychains(), &vec!["default".to_owned()]);
    assert_eq!(keystore.current(), Ok("default"));

    let keychain = vault.current().unwrap();
    assert_eq!(keychain.len(), 0);
    assert_eq!(keychain.metadata().identity, "default");

    let text = String::from_utf8(Memory::read(&Input::File("vault-a/signet.yml".to_owned())).unwrap()).unwrap();
    assert_eq!(text, "version: 1\nkeychains:\n- default\ncurrent: default\n");
    let text = String::from_utf8(Memory::read(&Input::File("vault-a/chains/default.yml".to_owned())).unwrap()).unwrap();
    assert_eq!(text, "keychain: {}\nmetadata:\n  identity: default\n  password: !String afternoon-glow\nprovider: Local\n");
}

#[test]
fn initialize_twice_fails_and_keeps_the_vault() {
    let vault: Signet<Memory> = Signet::new("vault-b".to_owned());
    assert!(vault.initialize(Password::insecure("first")).is_ok());
    match vault.initialize(Password::insecure("second")) {
        Err(signet::signet::Error::Store(error)) => {
            assert!(matches!(error.cause, Cause::System(_)));
            assert_eq!(error.path, "vault-b/signet.yml");
        }
        _ => panic!("a second vault was laid out over the first"),
    }
    let keychain = vault.current().unwrap();
    match keychain.password() {
        Password::String(text) => assert_eq!(text, "first"),
        _ => panic!("the password policy changed"),
    }
}

#[test]
fn load_before_initialize_is_missing() {
    let vault: Signet<Memory> = Signet::new("vault-c".to_owned());
    match vault.keystore() {
        Err(signet::signet::Error::Store(error)) => {
            assert!(matches!(error.cause, Cause::Missing(_)));
            assert_eq!(error.message(), "vault-c/signet.yml not found");
        }
        _ => panic!("a keystore was loaded from nothing"),
    }
}

fn fresh() -> Key {
    let private = PrivateKey::random(OsRng, Algorithm::Ed25519).unwrap();
    Key::from_openssh(private.to_openssh(LineEnding::LF).unwrap().to_string()).unwrap()
}

fn content(path: &str) -> Option<String> {
    Memory::read(&Input::File(path.to_owned())).ok().map(|bytes| String::from_utf8(bytes).unwrap())
}

#[test]
fn added_key_is_there_only_after_sync() {
    let vault: Signet<Memory> = Signet::new("vault-d".to_owned());
    vault.initialize(Password::insecure("pw")).unwrap();
    let mut keychain = vault.current().unwrap();
    let id = keychain.add(fresh());
    assert_eq!(vault.current().unwrap().len(), 0);
    assert!(matches!(
        vault.find(&id),
        Err(signet::signet::Error::Keychain(signet::keychain::Error::KeyNotFound))
    ));
    vault.sync(&keychain).unwrap();
    assert_eq!(vault.current().unwrap().len(), 1);
    assert_eq!(vault.find(&id[..8]).unwrap().id(), id);
    assert_eq!(vault.keychain("default").unwrap().entry(0).unwrap().0, &id);
}

#[test]
fn sync_of_a_document_that_was_never_created_fails() {
    let vault: Signet<Memory> = Signet::new("vault-e".to_owned());
    let keystore = Keystore::default();
    match vault.sync(&keystore) {
        Err(signet::signet::Error::Store(error)) => {
            assert!(matches!(error.cause, Cause::Missing(_)));
            assert_eq!(error.path, "vault-e/signet.yml");
        }
        _ => panic!("a document was replaced that was not there"),
    }
    assert!(content("vault-e/signet.yml").is_none());
}

#[test]
fn current_without_selection_fails() {
    let store: Store<Memory> = Store::new("vault-f".to_owned());
    store.init(&Keystore::default()).unwrap();
    let vault: Signet<Memory> = Signet::new("vault-f".to_owned());
    assert!(matches!(
        vault.current(),
        Err(signet::signet::Error::Keystore(signet::keystore::Error::KeychainNotSelected))
    ));
    assert!(matches!(
        vault.find("ab"),
        Err(signet::signet::Error::Keystore(signet::keystore::Error::KeychainNotSelected))
    ));
}

#[test]
fn document_of_another_form_is_invalid() {
    Memory::write("vault-g/signet.yml", b"version: one\nkeychains: []\n").unwrap();
    let store: Store<Memory> = Store::new("vault-g".to_owned());
    let error = store.keystore().unwrap_err();
    assert!(matches!(error.cause, Cause::Invalid(_)));
    assert_eq!(error.path, "vault-g/signet.yml");
    Memory::write("vault-g/signet.yml", b"version: [1\n").unwrap();
    let error = store.keystore().unwrap_err();
    assert!(matches!(error.cause, Cause::Invalid(_)));
    Memory::write("vault-g/chains/work.yml", b"keychain: 1\n").unwrap();
    let error = store.keychain("work").unwrap_err();
    assert!(matches!(error.cause, Cause::Invalid(_)));
    assert_eq!(error.path, "vault-g/chains/work.yml");
    assert!(error.message().starts_with("vault-g/chains/work.yml: "));
}

#[test]
fn keychain_that_is_selected_but_not_there_is_missing() {
    Memory::write("vault-h/signet.yml", b"version: 1\nkeychains: [work]\ncurrent: work\n").unwrap();
    let vault: Signet<Memory> = Signet::new("vault-h".to_owned());
    match vault.current() {
        Err(signet::signet::Error::Store(error)) => {
            assert!(matches!(error.cause, Cause::Missing(_)));
            assert_eq!(error.path, "vault-h/chains/work.yml");
        }
        _ => panic!("a keychain was loaded from nothing"),
    }
}

#[test]
fn init_command_lays_out_a_vault_with_a_static_password() {
    let vault: Signet<Memory> = Signet::new("vault-i".to_owned());
    let said = command::init(&vault, Init { secret: false }).unwrap();
    assert_eq!(said, "signet initialized!\n");
    let keystore = vault.keystore().unwrap();
    assert_eq!(keystore.keychains(), &vec!["default".to_owned()]);
    assert_eq!(keystore.current(), Ok("default"));
    let keychain = vault.current().unwrap();
    assert_eq!(keychain.len(), 0);
    assert!(matches!(keychain.password(), Password::Static(_)));
    assert_eq!(keychain.password().lookup::<Memory>().unwrap().as_str(), "afternoon-glow");
    assert!(!content("vault-i/chains/default.yml").unwrap().contains("afternoon-glow"));
    assert!(command::init(&vault, Init { secret: false }).is_err());
}

#[test]
fn list_and_delete_commands() {
    let vault: Signet<Memory> = Signet::new("vault-j".to_owned());
    vault.initialize(Password::insecure("pw")).unwrap();
    assert_eq!(command::keys(&vault, Keys::List).unwrap(), "keychain 'default':\n\n");
    let mut keychain = vault.current().unwrap();
    let first = keychain.add(fresh());
    let second = keychain.add(fresh());
    vault.sync(&keychain).unwrap();
    assert_eq!(
        command::keys(&vault, Keys::List).unwrap(),
        format!("keychain 'default':\n  {first}\n  {second}\n")
    );
    assert!(command::keys(&vault, Keys::Delete(String::new())).is_err());
    assert!(command::keys(&vault, Keys::Delete("nonexistent-id".to_owned())).is_err());
    assert_eq!(vault.current().unwrap().len(), 2);
    let said = command::keys(&vault, Keys::Delete(first[..16].to_owned())).unwrap();
    assert_eq!(said, format!("deleted key {first}\n"));
    assert_eq!(command::keys(&vault, Keys::List).unwrap(), format!("keychain 'default':\n  {second}\n"));
}

#[test]
fn create_and_public_commands() {
    let vault: Signet<Memory> = Signet::new("vault-k".to_owned());
    vault.initialize(Password::insecure("pw")).unwrap();
    let said = command::keys(&vault, Keys::Create).unwrap();
    let id = said.strip_prefix("created key ").unwrap().strip_suffix('\n').unwrap().to_owned();
    assert_eq!(id.len(), 64);
    let key = vault.find(&id).unwrap();
    let private = PrivateKey::from_openssh(key.openssh()).unwrap();
    assert!(private.is_encrypted());
    assert!(private.decrypt("pw").is_ok());
    let said = command::keys(&vault, Keys::Public(id[..8].to_owned())).unwrap();
    assert_eq!(said, format!("{}\n", private.public_key().to_openssh().unwrap()));
    assert!(said.starts_with("ssh-ed25519 "));
}

#[test]
fn import_command_seals_the_key_under_the_keychain_password() {
    let vault: Signet<Memory> = Signet::new("vault-l".to_owned());
    vault.initialize(Password::insecure("pw")).unwrap();
    let private = PrivateKey::random(OsRng, Algorithm::Ed25519).unwrap();
    let text = private.to_openssh(LineEnding::LF).unwrap().to_string();
    Memory::write("vault-l/incoming", text.as_bytes()).unwrap();
    let said = command::keys(&vault, Keys::Import(Input::File("vault-l/incoming".to_owned()))).unwrap();
    let id = said.strip_prefix("imported key ").unwrap().strip_suffix('\n').unwrap().to_owned();
    assert_eq!(id, Key::from_openssh(text).unwrap().id());
    let kept = PrivateKey::from_openssh(vault.find(&id).unwrap().openssh()).unwrap();
    assert!(kept.is_encrypted());
    let opened = kept.decrypt("pw").unwrap();
    assert_eq!(
        opened.key_data().ed25519().unwrap().to_bytes(),
        private.key_data().ed25519().unwrap().to_bytes()
    );
    assert!(command::keys(&vault, Keys::Import(Input::File("vault-l/nothing".to_owned()))).is_err());
}

#[test]
fn export_command_seals_the_key_under_the_export_password() {
    let vault: Signet<Memory> = Signet::new("vault-m".to_owned());
    vault.initialize(Password::insecure("pw")).unwrap();
    let said = command::keys(&vault, Keys::Create).unwrap();
    let id = said.strip_prefix("created key ").unwrap().strip_suffix('\n').unwrap().to_owned();
    let exported = command::keys(&vault, Keys::Export(id.clone())).unwrap();
    let exported = PrivateKey::from_openssh(&exported).unwrap();
    assert!(exported.is_encrypted());
    assert!(exported.decrypt("pw").is_err());
    assert!(exported.decrypt("afternoon-glow").is_ok());
    assert_eq!(Key::from_openssh(exported.to_openssh(LineEnding::LF).unwrap().to_string()).unwrap().id(), id);
}

#[test]
fn sign_and_verify_commands() {
    let vault: Signet<Memory> = Signet::new("vault-n".to_owned());
    vault.initialize(Password::insecure("pw")).unwrap();
    let said = command::keys(&vault, Keys::Create).unwrap();
    let id = said.strip_prefix("created key ").unwrap().strip_suffix('\n').unwrap().to_owned();
    Memory::write("vault-n/letter", b"dear reader").unwrap();
    let data = Input::File("vault-n/letter".to_owned());
    let said = command::sign(&vault, Sign { key: id[..8].to_owned(), ns: "file".to_owned(), data: data.clone() });
    assert_eq!(said.unwrap(), "");
    assert!(content("vault-n/letter.sig").unwrap().starts_with("-----BEGIN SSH SIGNATURE-----"));
    let good = Verify { sig: "vault-n/letter.sig".to_owned(), ns: "file".to_owned(), data: data.clone() };
    let said = command::verify(&vault, good).unwrap();
    assert!(said.starts_with("good signature from SHA256:"));
    assert!(said.ends_with('\n'));
    let other = Verify { sig: "vault-n/letter.sig".to_owned(), ns: "mail".to_owned(), data: data.clone() };
    assert!(command::verify(&vault, other).is_err());
    Memory::write("vault-n/letter", b"dear reader,").unwrap();
    let changed = Verify { sig: "vault-n/letter.sig".to_owned(), ns: "file".to_owned(), data };
    assert!(command::verify(&vault, changed).is_err());
}

#[test]
fn commands_name_the_part_that_failed() {
    let vault: Signet<Memory> = Signet::new("vault-o".to_owned());
    assert!(matches!(
        command::keys(&vault, Keys::List),
        Err(command::Error::Vault(signet::signet::Error::Store(_)))
    ));
    vault.initialize(Password::insecure("pw")).unwrap();
    assert!(matches!(
        command::keys(&vault, Keys::Public("ab".to_owned())),
        Err(command::Error::Vault(signet::signet::Error::Keychain(signet::keychain::Error::KeyNotFound)))
    ));
    assert!(matches!(
        command::keys(&vault, Keys::Import(Input::File("vault-o/nothing".to_owned()))),
        Err(command::Error::Store(_))
    ));
    Memory::write("vault-o/garbage", b"no key").unwrap();
    match command::keys(&vault, Keys::Import(Input::File("vault-o/garbage".to_owned()))) {
        Err(error) => {
            assert!(matches!(error, command::Error::Key(_)));
            assert!(!error.message().is_empty());
        }
        Ok(_) => panic!("what is no key was taken in"),
    }
    let mut keychain = vault.current().unwrap();
    keychain.add(fresh());
    keychain.add(fresh());
    vault.sync(&keychain).unwrap();
    let error = command::keys(&vault, Keys::Delete(String::new())).unwrap_err();
    assert_eq!(error.message(), "key ambiguous");
    let sign = Sign { key: String::new(), ns: "file".to_owned(), data: Input::Stdin };
    assert!(matches!(
        command::sign(&vault, sign),
        Err(command::Error::Vault(signet::signet::Error::Keychain(signet::keychain::Error::KeyAmbiguous)))
    ));
}

#[test]
fn signature_is_pem_and_needs_a_namespace() {
    let private = PrivateKey::random(OsRng, Algorithm::Ed25519).unwrap();
    let sealed = private.encrypt(OsRng, "pw").unwrap().to_openssh(LineEnding::LF).unwrap().to_string();
    let signed = command::sign::signature(&sealed, "pw", "file", b"dear reader").unwrap();
    assert!(signed.starts_with("-----BEGIN SSH SIGNATURE-----"));
    let parsed = ssh_key::SshSig::from_pem(&signed).unwrap();
    assert!(private.public_key().verify("file", b"dear reader", &parsed).is_ok());
    assert!(private.public_key().verify("file", b"dear reader.", &parsed).is_err());
    assert!(command::sign::signature(&sealed, "pw", "", b"dear reader").is_err());
    assert!(command::sign::signature(&sealed, "wrong", "file", b"dear reader").is_err());
    assert!(command::sign::signature("no key", "pw", "file", b"dear reader").is_err());
}

#[test]
fn open_with_asks_for_the_password_of_the_key() {
    let private = PrivateKey::random(OsRng, Algorithm::Ed25519).unwrap();
    let sealed = private.encrypt(OsRng, "afternoon-glow").unwrap();
    let opened = command::keys::open_with::<Memory>(&sealed, "key password: ").unwrap();
    assert!(!opened.is_encrypted());
    assert_eq!(
        opened.key_data().ed25519().unwrap().to_bytes(),
        private.key_data().ed25519().unwrap().to_bytes()
    );
    let other = private.encrypt(OsRng, "midnight").unwrap();
    assert!(matches!(
        command::keys::open_with::<Memory>(&other, "key password: "),
        Err(command::Error::Key(_))
    ));
    assert!(matches!(
        command::keys::open_with::<Memory>(&private, "key password: "),
        Err(command::Error::Key(_))
    ));
}

#[test]
fn keep_writes_the_keychain_with_the_key() {
    let vault: Signet<Memory> = Signet::new("vault-p".to_owned());
    vault.initialize(Password::insecure("pw")).unwrap();
    let private = PrivateKey::random(OsRng, Algorithm::Ed25519).unwrap();
    let id = Key::from_openssh(private.to_openssh(LineEnding::LF).unwrap().to_string()).unwrap().id();
    let said = command::keys::keep(&vault, vault.current().unwrap(), &private, "kept key ").unwrap();
    assert_eq!(said, format!("kept key {id}\n"));
    assert_eq!(vault.current().unwrap().entry(0).unwrap().0, &id);
    let lost: Signet<Memory> = Signet::new("vault-q".to_owned());
    let said = command::keys::keep(&lost, vault.current().unwrap(), &private, "kept key ");
    match said {
        Err(command::Error::Vault(signet::signet::Error::Store(error))) => {
            assert!(matches!(error.cause, Cause::Missing(_)));
            assert_eq!(error.path, "vault-q/chains/default.yml");
        }
        _ => panic!("a keychain was written where there is none"),
    }
}

#[test]
fn verify_reads_the_data_before_the_signature() {
    let vault: Signet<Memory> = Signet::new("vault-r".to_owned());
    vault.initialize(Password::insecure("pw")).unwrap();
    let args = Verify {
        sig: "vault-r/none.sig".to_owned(),
        ns: "file".to_owned(),
        data: Input::File("vault-r/none".to_owned()),
    };
    match command::verify(&vault, args) {
        Err(command::Error::Store(error)) => assert_eq!(error.path, "vault-r/none"),
        _ => panic!("nothing was there to verify"),
    }
    Memory::write("vault-r/letter", b"dear reader").unwrap();
    let args = Verify {
        sig: "vault-r/none.sig".to_owned(),
        ns: "file".to_owned(),
        data: Input::File("vault-r/letter".to_owned()),
    };
    match command::verify(&vault, args) {
        Err(command::Error::Store(error)) => {
            assert!(matches!(error.cause, Cause::Missing(_)));
            assert_eq!(error.path, "vault-r/none.sig");
        }
        _ => panic!("no signature was there to verify"),
    }
    Memory::write("vault-r/letter.sig", b"no signature").unwrap();
    let args = Verify {
        sig: "vault-r/letter.sig".to_owned(),
        ns: "file".to_owned(),
        data: Input::File("vault-r/letter".to_owned()),
    };
    assert!(matches!(command::verify(&vault, args), Err(command::Error::Key(_))));
}
