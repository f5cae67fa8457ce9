use file_opener::media_type::MediaType;
use file_opener::mime_helpers::{
    determine_mime, extension_type, guessed_type, resolve_type, sniffed_type, SniffOutcome,
    TypeError,
};

#[test]
fn extension_gives_the_media_type() {
    let m = MediaType::from_extension("pdf").unwrap();
    assert_eq!(m.essence(), "application/pdf");
    let m = MediaType::from_extension("PNG").unwrap();
    assert_eq!(m.essence(), "image/png");
    assert!(MediaType::from_extension("no-such-extension").is_none());
    assert!(MediaType::from_extension("").is_none());
}

#[test]
fn extensions_of_a_media_type() {
    let list = MediaType::new("text", "plain").unwrap().extensions().unwrap();
    assert!(list.iter().any(|e| e == "txt"));
    assert!(MediaType::new("nothing", "known").unwrap().extensions().is_none());
}

#[test]
fn path_extension_is_used_first() {
    let m = extension_type("report.pdf").unwrap();
    assert_eq!(m.essence(), "application/pdf");
    assert!(extension_type("README").is_none());
    assert!(extension_type("archive.no-such-extension").is_none());
}

#[test]
fn sniffed_type_of_each_report() {
    assert_eq!(sniffed_type(&SniffOutcome::NotFound).unwrap_err(), TypeError::NotFound);
    assert_eq!(sniffed_type(&SniffOutcome::Unreadable).unwrap_err(), TypeError::IOFailure);
    assert_eq!(
        sniffed_type(&SniffOutcome::Guess("not a type".to_string())).unwrap_err(),
        TypeError::TypeUnparseable
    );
    assert_eq!(
        sniffed_type(&SniffOutcome::Guess("*/*".to_string())).unwrap_err(),
        TypeError::TypeUnparseable
    );
    let m = sniffed_type(&SniffOutcome::Guess("text/x-shellscript".to_string())).unwrap();
    assert_eq!(m.essence(), "text/x-shellscript");
}

#[test]
fn a_concrete_guess_wins_over_the_report() {
    let guess = MediaType::new("image", "png");
    let m = resolve_type(guess, &SniffOutcome::Guess("text/plain".to_string())).unwrap();
    assert_eq!(m.essence(), "image/png");
    let m = resolve_type(MediaType::new("image", "png"), &SniffOutcome::NotFound).unwrap();
    assert_eq!(m.essence(), "image/png");
}

#[test]
fn without_a_concrete_guess_the_report_decides() {
    let m = resolve_type(None, &SniffOutcome::Guess("text/plain".to_string())).unwrap();
    assert_eq!(m.essence(), "text/plain");
    let m = resolve_type(MediaType::new("image", "*"), &SniffOutcome::Guess("text/plain".to_string()))
        .unwrap();
    assert_eq!(m.essence(), "text/plain");
    assert_eq!(resolve_type(None, &SniffOutcome::NotFound).unwrap_err(), TypeError::NotFound);
    assert_eq!(resolve_type(None, &SniffOutcome::Unreadable).unwrap_err(), TypeError::IOFailure);
}

#[test]
fn determine_mime_by_extension_then_content() {
    let m = determine_mime("notes.txt", &SniffOutcome::NotFound).unwrap();
    assert_eq!(m.essence(), "text/plain");
    let m = determine_mime("notes", &SniffOutcome::Guess("text/plain".to_string())).unwrap();
    assert_eq!(m.essence(), "text/plain");
    assert_eq!(determine_mime("notes", &SniffOutcome::NotFound).unwrap_err(), TypeError::NotFound);
    assert_eq!(
        determine_mime("notes", &SniffOutcome::Guess("??".to_string())).unwrap_err(),
        TypeError::TypeUnparseable
    );
}

fn essence(m: Option<MediaType>) -> Option<String> {
    m.map(|m| m.essence())
}

#[test]
fn plain_name_gets_the_type_of_what_follows_its_last_dot() {
    for (name, ext) in [
        ("report.pdf", "pdf"),
        ("archive.tar.gz", "gz"),
        ("photo.PNG", "PNG"),
        ("a.b.no-such-extension", "no-such-extension"),
        ("..txt", "txt"),
        ("x.html", "html"),
        ("with space.txt", "txt"),
    ] {
        assert_eq!(essence(extension_type(name)), essence(MediaType::from_extension(ext)));
    }
    assert_eq!(essence(extension_type("report.pdf")), Some("application/pdf".to_string()));
    assert_eq!(essence(extension_type("x.html")), Some("text/html".to_string()));
}

#[test]
fn plain_name_without_an_extension_gets_no_type() {
    for name in ["README", "", ".", ".txt", ".bashrc", "name.", "...", "txt"] {
        assert!(extension_type(name).is_none(), "{:?}", name);
    }
    assert!(extension_type("..").is_none());
}

#[test]
fn a_guess_is_read_as_a_media_type() {
    assert!(guessed_type(None).is_none());
    assert!(guessed_type(Some("no type".to_string())).is_none());
    assert_eq!(
        essence(guessed_type(Some("Text/Plain; charset=utf-8".to_string()))),
        Some("text/plain".to_string())
    );
}

#[test]
fn path_with_directories_gets_the_type_of_its_last_segment() {
    for (path, ext) in [
        ("/home/me/report.pdf", "pdf"),
        ("dir.d/archive.tar.gz", "gz"),
        ("./photo.PNG", "PNG"),
        ("/x.html", "html"),
        ("a/./b.txt", "txt"),
        ("a/../b.txt", "txt"),
        ("a/..txt", "txt"),
        ("relative/dir/with space.txt", "txt"),
        ("a/b.no-such-extension", "no-such-extension"),
    ] {
        assert_eq!(essence(extension_type(path)), essence(MediaType::from_extension(ext)), "{:?}", path);
    }
    assert_eq!(essence(extension_type("/home/me/report.pdf")), Some("application/pdf".to_string()));
}

#[test]
fn path_with_directories_and_no_extension_gets_no_type() {
    for path in ["/home/me/README", "dir.d/README", "a.txt/.bashrc", "a.txt/name.", "a.txt/...", "/.txt", "./txt"] {
        assert!(extension_type(path).is_none(), "{:?}", path);
    }
}

#[test]
fn known_extension_decides_whatever_the_content() {
    for sniff in [
        SniffOutcome::NotFound,
        SniffOutcome::Unreadable,
        SniffOutcome::Guess("text/plain".to_string()),
        SniffOutcome::Guess("??".to_string()),
    ] {
        let m = determine_mime("/home/me/report.pdf", &sniff).unwrap();
        assert_eq!(m.essence(), "application/pdf");
    }
}

#[test]
fn unknown_extension_leaves_it_to_the_report() {
    let path = "/home/me/blob.no-such-extension";
    assert_eq!(determine_mime(path, &SniffOutcome::NotFound).unwrap_err(), TypeError::NotFound);
    assert_eq!(determine_mime(path, &SniffOutcome::Unreadable).unwrap_err(), TypeError::IOFailure);
    let m = determine_mime(path, &SniffOutcome::Guess("image/png".to_string())).unwrap();
    assert_eq!(m.essence(), "image/png");
    assert_eq!(
        determine_mime(path, &SniffOutcome::Guess("no type".to_string())).unwrap_err(),
        TypeError::TypeUnparseable
    );
}
