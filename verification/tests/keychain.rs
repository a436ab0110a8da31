use rand_core::OsRng;
use signet::keychain::Error;
use signet::Key;
use signet::Keychain;
use signet::Metadata;
use signet::Password;
use signet::Provider;
use ssh_key::Algorithm;
use ssh_key::HashAlg;
use ssh_key::LineEnding;
use ssh_key::PrivateKey;

fn private() -> PrivateKey {
    PrivateKey::random(OsRng, Algorithm::Ed25519).unwrap()
}

fn text_of(key: &PrivateKey) -> String {
    key.to_openssh(LineEnding::LF).unwrap().to_string()
}

fn fresh() -> Key {
    Key::from_openssh(text_of(&private())).unwrap()
}

fn empty() -> Keychain {
    let metadata = Metadata { identity: "default".to_owned(), password: Password::insecure("pw") };
    Keychain::new(metadata, Provider::Local)
}

fn is_lower_hex(text: &str) -> bool {
    text.chars().all(|c| matches!(c, '0'..='9' | 'a'..='f'))
}

#[test]
fn new_keychain_is_empty() {
    let chain = empty();
    assert_eq!(chain.len(), 0);
    assert!(chain.keys().is_empty());
    assert_eq!(chain.metadata().identity, "default");
    assert_eq!(chain.provider(), Provider::Local);
    assert!(matches!(chain.password(), Password::String(text) if text == "pw"));
    assert!(chain.entry(0).is_none());
}

#[test]
fn id_is_hex_of_sha256_fingerprint() {
    let private = private();
    let key = Key::from_openssh(text_of(&private)).unwrap();
    let expected = hex::encode(private.fingerprint(HashAlg::Sha256).as_bytes());
    assert_eq!(key.id(), expected);
    assert_eq!(key.id().len(), 64);
    assert!(is_lower_hex(&key.id()));
}

#[test]
fn openssh_text_is_kept_as_given() {
    let text = text_of(&private());
    let key = Key::from_openssh(text.clone()).unwrap();
    assert_eq!(key.openssh(), text);
    assert_eq!(key.clone().openssh(), text);
    assert_eq!(key.clone().id(), key.id());
}

#[test]
fn from_openssh_rejects_what_is_no_key() {
    assert!(Key::from_openssh(String::new()).is_none());
    assert!(Key::from_openssh("not a key".to_owned()).is_none());
    let public = private().public_key().to_openssh().unwrap();
    assert!(Key::from_openssh(public).is_none());
}

#[test]
fn add_on_empty_keychain_then_find_by_eight_characters() {
    let mut chain = empty();
    let key = fresh();
    let text = key.openssh().to_owned();
    let id = chain.add(key);
    assert_eq!(id.len(), 64);
    assert!(is_lower_hex(&id));
    assert_eq!(chain.len(), 1);
    let found = chain.find(&id[..8]).unwrap();
    assert_eq!(found.openssh(), text);
    assert_eq!(found.id(), id);
}

#[test]
fn find_by_full_id_gives_that_key() {
    let mut chain = empty();
    let mut added = Vec::new();
    for _ in 0..5 {
        let key = fresh();
        let text = key.openssh().to_owned();
        added.push((chain.add(key), text));
    }
    for (id, text) in &added {
        let found = chain.find(id).unwrap();
        assert_eq!(found.openssh(), text);
        assert_eq!(&found.id(), id);
    }
}

#[test]
fn find_on_empty_prefix_with_two_keys_is_ambiguous() {
    let mut chain = empty();
    chain.add(fresh());
    assert!(chain.find("").is_ok());
    chain.add(fresh());
    assert_eq!(chain.find("").err(), Some(Error::KeyAmbiguous));
}

#[test]
fn find_on_shared_prefix_is_ambiguous_and_full_ids_are_not() {
    let mut chain = empty();
    let mut ids: Vec<String> = Vec::new();
    let pair = loop {
        let id = chain.add(fresh());
        if let Some(other) = ids.iter().find(|other| other[..1] == id[..1]) {
            break (other.clone(), id);
        }
        ids.push(id);
    };
    let shared: String =
        pair.0.chars().zip(pair.1.chars()).take_while(|(a, b)| a == b).map(|(a, _)| a).collect();
    assert!(!shared.is_empty() && shared.len() < 64);
    assert_eq!(chain.find(&shared).err(), Some(Error::KeyAmbiguous));
    assert_eq!(chain.find(&pair.0).unwrap().id(), pair.0);
    assert_eq!(chain.find(&pair.1).unwrap().id(), pair.1);
    let longer = &pair.0[..shared.len() + 1];
    assert_eq!(chain.find(longer).unwrap().id(), pair.0);
}

#[test]
fn find_without_match_is_not_found() {
    let mut chain = empty();
    assert_eq!(chain.find("").err(), Some(Error::KeyNotFound));
    assert_eq!(chain.find("abc").err(), Some(Error::KeyNotFound));
    let id = chain.add(fresh());
    assert_eq!(chain.find("g").err(), Some(Error::KeyNotFound));
    let longer = format!("{id}0");
    assert_eq!(chain.find(&longer).err(), Some(Error::KeyNotFound));
    let upper = id.to_uppercase();
    if upper != id {
        assert_eq!(chain.find(&upper).err(), Some(Error::KeyNotFound));
    }
}

#[test]
fn delete_of_absent_id_changes_nothing() {
    let mut chain = empty();
    let first = chain.add(fresh());
    let second = chain.add(fresh());
    assert!(chain.delete("nonexistent-id").is_none());
    assert!(chain.delete(&first[..8]).is_none());
    assert_eq!(chain.len(), 2);
    assert_eq!(chain.entry(0).unwrap().0, &first);
    assert_eq!(chain.entry(1).unwrap().0, &second);
}

#[test]
fn delete_removes_the_key_and_keeps_the_order() {
    let mut chain = empty();
    let first = chain.add(fresh());
    let second = chain.add(fresh());
    let third = chain.add(fresh());
    let removed = chain.delete(&second).unwrap();
    assert_eq!(removed.id(), second);
    assert_eq!(chain.len(), 2);
    let ids: Vec<String> = chain.keys().iter().map(|key| key.id()).collect();
    assert_eq!(ids, vec![first.clone(), third.clone()]);
    assert_eq!(chain.find(&second).err(), Some(Error::KeyNotFound));
    let removed = chain.delete(&first).unwrap();
    assert_eq!(removed.id(), first);
    assert_eq!(chain.entry(0).unwrap().0, &third);
}

#[test]
fn adding_the_same_key_again_keeps_one_entry_in_its_place() {
    let mut chain = empty();
    let private = private();
    let first = chain.add(Key::from_openssh(text_of(&private)).unwrap());
    let second = chain.add(fresh());
    let again = chain.add(Key::from_openssh(text_of(&private)).unwrap());
    assert_eq!(first, again);
    assert_eq!(chain.len(), 2);
    assert_eq!(chain.entry(0).unwrap().0, &first);
    assert_eq!(chain.entry(1).unwrap().0, &second);
}

#[test]
fn keys_come_in_the_order_they_were_added() {
    let mut chain = empty();
    let mut ids = Vec::new();
    for _ in 0..6 {
        ids.push(chain.add(fresh()));
    }
    let listed: Vec<String> = chain.keys().iter().map(|key| key.id()).collect();
    assert_eq!(listed, ids);
    for (index, id) in ids.iter().enumerate() {
        let (name, key) = chain.entry(index).unwrap();
        assert_eq!(name, id);
        assert_eq!(&key.id(), id);
    }
    assert!(chain.entry(ids.len()).is_none());
}

#[test]
fn keychain_error_messages() {
    assert_eq!(Error::KeyNotFound.message(), "key not found");
    assert_eq!(Error::KeyAmbiguous.message(), "key ambiguous");
}
