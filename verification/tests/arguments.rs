use file_opener::config::edit_config::{EditConfig, SetError, SetOutcome};
use file_opener::config::utils::ConfigFile;
use file_opener::media_type::MediaType;
use file_opener::mime_helpers::{SniffOutcome, TypeError};
use file_opener::opt::ext_mime_path::{parse_addtype, ArgumentError, ConvertError, ExtMimePath};
use file_opener::opt::subcommand::query::{list_extensions, QueryError, QueryOptions};
use file_opener::opt::subcommand::set::{SetOptions, SetReport};

#[test]
fn a_leading_dot_makes_an_extension() {
    match parse_addtype(".pdf", false).unwrap() {
        ExtMimePath::Extension(e) => assert_eq!(e, "pdf"),
        other => panic!("{:?}", other),
    }
    match parse_addtype(".", true).unwrap() {
        ExtMimePath::Extension(e) => assert_eq!(e, ""),
        other => panic!("{:?}", other),
    }
    match ExtMimePath::try_from(".tar.gz", true).unwrap() {
        ExtMimePath::Extension(e) => assert_eq!(e, "tar.gz"),
        other => panic!("{:?}", other),
    }
}

#[test]
fn a_media_type_is_read_before_a_path() {
    match parse_addtype("text/plain", true).unwrap() {
        ExtMimePath::Mime(m) => assert_eq!(m.essence(), "text/plain"),
        other => panic!("{:?}", other),
    }
}

#[test]
fn anything_else_is_a_path_if_it_exists() {
    match parse_addtype("notes", true).unwrap() {
        ExtMimePath::Path(p) => assert_eq!(p, "notes"),
        other => panic!("{:?}", other),
    }
    assert_eq!(parse_addtype("notes", false).unwrap_err(), ArgumentError::NotExtensionMimeOrPath);
    assert_eq!(parse_addtype("", false).unwrap_err(), ArgumentError::NotExtensionMimeOrPath);
}

#[test]
fn only_a_path_needs_the_content() {
    assert!(ExtMimePath::Path("a".to_string()).needs_sniff());
    assert!(!ExtMimePath::Extension("a".to_string()).needs_sniff());
    assert!(!ExtMimePath::Mime(MediaType::new("a", "b").unwrap()).needs_sniff());
}

#[test]
fn each_kind_converts_to_a_media_type() {
    let sniff = SniffOutcome::Guess("text/x-script".to_string());
    let m = ExtMimePath::Extension("png".to_string()).convert_to_mime(&sniff).unwrap();
    assert_eq!(m.essence(), "image/png");
    assert_eq!(
        ExtMimePath::Extension("no-such-extension".to_string()).convert_to_mime(&sniff).unwrap_err(),
        ConvertError::UnknownExtension
    );
    let m = ExtMimePath::Mime(MediaType::new("a", "b").unwrap()).convert_to_mime(&sniff).unwrap();
    assert_eq!(m.essence(), "a/b");
    let m = ExtMimePath::Path("x.pdf".to_string()).convert_to_mime(&sniff).unwrap();
    assert_eq!(m.essence(), "application/pdf");
    let m = ExtMimePath::Path("x".to_string()).convert_to_mime(&sniff).unwrap();
    assert_eq!(m.essence(), "text/x-script");
    assert_eq!(
        ExtMimePath::Path("x".to_string()).convert_to_mime(&SniffOutcome::NotFound).unwrap_err(),
        ConvertError::Path(TypeError::NotFound)
    );
}

#[test]
fn set_finds_the_type_and_sets_the_command() {
    let mut cfg = EditConfig::from_text("[[open]]\n[[preview]]\n").unwrap();
    let opts = SetOptions {
        ext_mime_path: ExtMimePath::Extension("pdf".to_string()),
        command: "zathura".to_string(),
        preview: false,
    };
    let mut file = ConfigFile::Present("[[open]]\n[[preview]]\n".to_string());
    match opts.run(&mut cfg, &mut file, &SniffOutcome::NotFound) {
        SetReport::Done(m, outcome) => {
            assert_eq!(m.essence(), "application/pdf");
            assert_eq!(outcome, SetOutcome::Inserted(0));
        }
        other => panic!("{:?}", other),
    }
    assert!(matches!(file, ConfigFile::Present(ref s) if *s == cfg.to_string()));
    assert!(matches!(file, ConfigFile::Present(ref s) if s.contains("\"application/pdf\" = \"zathura\"")));
    assert_eq!(cfg.get(false, 0, "application/pdf"), Some("zathura".to_string()));
    assert_eq!(cfg.get(true, 0, "application/pdf"), None);
    let opts = SetOptions {
        ext_mime_path: ExtMimePath::Mime(MediaType::new("application", "pdf").unwrap()),
        command: "zathura".to_string(),
        preview: false,
    };
    let mut file = ConfigFile::Present("untouched".to_string());
    assert!(matches!(
        opts.run(&mut cfg, &mut file, &SniffOutcome::NotFound),
        SetReport::Done(_, SetOutcome::Unchanged)
    ));
    assert!(matches!(file, ConfigFile::Present(ref s) if s == "untouched"));
}

#[test]
fn set_reports_what_went_wrong() {
    let mut cfg = EditConfig::from_text("[[open]]\n").unwrap();
    let opts = SetOptions {
        ext_mime_path: ExtMimePath::Extension("no-such-extension".to_string()),
        command: "x".to_string(),
        preview: false,
    };
    let mut file = ConfigFile::Present("untouched".to_string());
    assert!(matches!(
        opts.run(&mut cfg, &mut file, &SniffOutcome::NotFound),
        SetReport::NoMediaType(ConvertError::UnknownExtension)
    ));
    let opts = SetOptions {
        ext_mime_path: ExtMimePath::Extension("pdf".to_string()),
        command: "x".to_string(),
        preview: true,
    };
    assert!(matches!(
        opts.run(&mut cfg, &mut file, &SniffOutcome::NotFound),
        SetReport::Refused(_, SetError::MissingSection)
    ));
    assert!(matches!(file, ConfigFile::Present(ref s) if s == "untouched"));
    assert_eq!(cfg.to_string(), "[[open]]\n");
}

#[test]
fn extensions_are_listed_with_dots() {
    assert_eq!(list_extensions(&vec!["a".to_string(), "bc".to_string()]), ".a .bc \n");
    assert_eq!(list_extensions(&vec![]), "\n");
}

#[test]
fn query_names_the_media_type() {
    let q = QueryOptions { ext_mime_path: ExtMimePath::Extension("pdf".to_string()) };
    assert_eq!(q.run(&SniffOutcome::NotFound).unwrap(), "application/pdf\n");
    let q = QueryOptions { ext_mime_path: ExtMimePath::Path("x".to_string()) };
    assert_eq!(q.run(&SniffOutcome::Guess("text/plain".to_string())).unwrap(), "text/plain\n");
    let q = QueryOptions { ext_mime_path: ExtMimePath::Path("x".to_string()) };
    assert_eq!(
        q.run(&SniffOutcome::Unreadable).unwrap_err(),
        QueryError::NoMediaType(ConvertError::Path(TypeError::IOFailure))
    );
    let q = QueryOptions { ext_mime_path: ExtMimePath::Extension("no-such-extension".to_string()) };
    assert_eq!(
        q.run(&SniffOutcome::NotFound).unwrap_err(),
        QueryError::NoMediaType(ConvertError::UnknownExtension)
    );
}

#[test]
fn query_lists_the_extensions_of_a_media_type() {
    let q = QueryOptions { ext_mime_path: ExtMimePath::Mime(MediaType::new("application", "pdf").unwrap()) };
    assert_eq!(q.run(&SniffOutcome::NotFound).unwrap(), ".pdf \n");
    let q = QueryOptions { ext_mime_path: ExtMimePath::Mime(MediaType::new("no", "such").unwrap()) };
    assert_eq!(q.run(&SniffOutcome::NotFound).unwrap_err(), QueryError::NoExtensions);
}
