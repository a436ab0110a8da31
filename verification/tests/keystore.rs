use signet::keystore::position;
use signet::keystore::Error;
use signet::Keystore;

#[test]
fn default_has_no_selection() {
    let store = Keystore::default();
    assert_eq!(store.version(), 1);
    assert!(store.keychains().is_empty());
    assert_eq!(store.current(), Err(Error::KeychainNotSelected));
}

#[test]
fn select_registered_name_makes_it_current() {
    let mut store = Keystore::default();
    store.insert("default");
    store.insert("work");
    assert_eq!(store.select("work"), Ok(()));
    assert_eq!(store.current(), Ok("work"));
    assert_eq!(store.keychains(), &vec!["default".to_owned(), "work".to_owned()]);
}

#[test]
fn select_absent_name_keeps_selection() {
    let mut store = Keystore::default();
    store.insert("default");
    assert_eq!(store.select("default"), Ok(()));
    assert_eq!(store.select("missing"), Err(Error::KeychainNotFound));
    assert_eq!(store.current(), Ok("default"));
}

#[test]
fn select_on_empty_registry_fails() {
    let mut store = Keystore::default();
    assert_eq!(store.select("default"), Err(Error::KeychainNotFound));
    assert_eq!(store.current(), Err(Error::KeychainNotSelected));
}

#[test]
fn keystore_error_messages() {
    assert_eq!(Error::KeychainNotFound.message(), "keychain not found");
    assert_eq!(Error::KeychainNotSelected.message(), "no keychain selected");
}

#[test]
fn assemble_refuses_a_selection_that_is_not_registered() {
    let names = vec!["a".to_owned(), "b".to_owned()];
    assert!(Keystore::assemble(1, names.clone(), Some("c".to_owned())).is_none());
    assert!(Keystore::assemble(1, Vec::new(), Some(String::new())).is_none());
    let store = Keystore::assemble(3, names.clone(), Some("b".to_owned())).unwrap();
    assert_eq!(store.version(), 3);
    assert_eq!(store.keychains(), &names);
    assert_eq!(store.selected(), Some(&"b".to_owned()));
    let store = Keystore::assemble(3, names, None).unwrap();
    assert_eq!(store.current(), Err(Error::KeychainNotSelected));
}

#[test]
fn position_is_the_first_place_of_a_name() {
    let names = vec!["a".to_owned(), "b".to_owned(), "a".to_owned()];
    assert_eq!(position(&names, "a"), Some(0));
    assert_eq!(position(&names, "b"), Some(1));
    assert_eq!(position(&names, "c"), None);
    assert_eq!(position(&Vec::new(), "a"), None);
}

#[test]
fn insert_does_not_look_for_duplicates() {
    let mut store = Keystore::default();
    store.insert("a");
    store.insert("a");
    assert_eq!(store.keychains(), &vec!["a".to_owned(), "a".to_owned()]);
    assert_eq!(store.select("a"), Ok(()));
    assert_eq!(store.current(), Ok("a"));
}
