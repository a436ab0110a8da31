use std::sync::Mutex;

use signet::command::sign::append;
use signet::persist::read;
use signet::persist::Cause;
use signet::system::Failure;
use signet::system::FailureKind;
use signet::Input;
use signet::System;

static WRITTEN: Mutex<Vec<(String, Vec<u8>)>> = Mutex::new(Vec::new());

struct Recorder;

impl System for Recorder {
    fn init(_: &str, _: &[u8]) -> Result<(), Failure> {
        Ok(())
    }

    fn sync(_: &str, _: &[u8]) -> Result<(), Failure> {
        Ok(())
    }

    fn mkdir(_: &str) -> Result<(), Failure> {
        Ok(())
    }

    fn read(input: &Input) -> Result<Vec<u8>, Failure> {
        match input {
            Input::File(path) if path == "there" => Ok(b"content".to_vec()),
            Input::File(_) => Err(Failure { kind: FailureKind::NotFound, message: "no such file".to_owned() }),
            Input::Stdin => Err(Failure { kind: FailureKind::Other, message: "closed".to_owned() }),
        }
    }

    fn write(path: &str, data: &[u8]) -> Result<(), Failure> {
        if path.starts_with("readonly") {
            return Err(Failure { kind: FailureKind::Other, message: "permission denied".to_owned() });
        }
        WRITTEN.lock().unwrap().push((path.to_owned(), data.to_vec()));
        Ok(())
    }

    fn prompt(_: &str) -> Result<String, Failure> {
        Ok(String::new())
    }
}

#[test]
fn append_puts_the_suffix_behind_the_file_name() {
    assert_eq!(append("file.txt", ".sig"), "file.txt.sig");
    assert_eq!(append("dir/file.txt", ".sig"), "dir/file.txt.sig");
    assert_eq!(append("/abs/dir/file", ".sig"), "/abs/dir/file.sig");
    assert_eq!(append("dir/", ".sig"), "dir.sig");
    assert_eq!(append("file", ""), "file");
}

#[test]
fn signature_of_a_file_is_written_beside_it() {
    assert!(signet::command::sign::write::<Recorder>(&Input::File("docs/letter.txt".to_owned()), b"signature").is_ok());
    let written = WRITTEN.lock().unwrap();
    assert!(written.contains(&("docs/letter.txt.sig".to_owned(), b"signature".to_vec())));
}

#[test]
fn signature_of_standard_input_goes_to_standard_output() {
    assert!(signet::command::sign::write::<Recorder>(&Input::Stdin, b"piped").is_ok());
    let written = WRITTEN.lock().unwrap();
    assert!(written.contains(&("/dev/stdout".to_owned(), b"piped".to_vec())));
}

#[test]
fn failed_write_names_the_place_of_the_signature() {
    let error = signet::command::sign::write::<Recorder>(&Input::File("readonly/letter".to_owned()), b"x").unwrap_err();
    assert!(matches!(error.cause, Cause::System(_)));
    assert_eq!(error.path, "readonly/letter.sig");
    assert_eq!(error.message(), "readonly/letter.sig: permission denied");
}

#[test]
fn read_gives_the_content_or_an_error_at_the_path() {
    assert_eq!(read::<Recorder>(&Input::File("there".to_owned())).unwrap(), b"content");
    let error = read::<Recorder>(&Input::File("nowhere".to_owned())).unwrap_err();
    assert!(matches!(error.cause, Cause::Missing(_)));
    assert_eq!(error.path, "nowhere");
    assert_eq!(error.message(), "nowhere not found");
    let error = read::<Recorder>(&Input::Stdin).unwrap_err();
    assert!(matches!(error.cause, Cause::System(_)));
    assert_eq!(error.path, "");
    assert_eq!(error.message(), ": closed");
}

#[test]
fn input_from_a_path_is_that_file() {
    assert!(matches!(Input::from("a/b".to_owned()), Input::File(path) if path == "a/b"));
    assert!(matches!("a/b".parse::<Input>(), Ok(Input::File(path)) if path == "a/b"));
    assert!(matches!("".parse::<Input>(), Ok(Input::File(path)) if path.is_empty()));
    assert!(matches!(Input::Stdin.clone(), Input::Stdin));
}
