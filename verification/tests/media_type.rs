use file_opener::media_type::MediaType;

fn media(type_: &str, subtype: &str) -> MediaType {
    MediaType::new(type_, subtype).unwrap()
}

#[test]
fn equal_is_false_for_differing_concrete_subtypes() {
    let png = MediaType::parse("image/png").unwrap();
    let jpeg = MediaType::parse("image/jpeg").unwrap();
    assert!(!png.equal(&jpeg));
    assert!(!jpeg.equal(&png));
}

#[test]
fn wildcard_subtype_equals_any_subtype_of_the_type() {
    let any_image = media("image", "*");
    let png = media("image", "png");
    assert!(any_image.equal(&png));
    assert!(png.equal(&any_image));
}

#[test]
fn wildcards_of_different_types_are_not_equal() {
    assert!(!media("image", "*").equal(&media("application", "*")));
    assert!(!media("*", "*").equal(&media("image", "png")));
}

#[test]
fn star_star_equals_itself() {
    let a = MediaType::parse("*/*").unwrap();
    let b = media("*", "*");
    assert!(a.equal(&b));
    assert!(a.same(&b));
}

#[test]
fn equal_media_types_are_equal() {
    assert!(media("text", "plain").equal(&media("text", "plain")));
    assert!(!media("text", "plain").equal(&media("application", "plain")));
}

#[test]
fn same_is_exact() {
    assert!(media("image", "png").same(&media("image", "png")));
    assert!(!media("image", "*").same(&media("image", "png")));
}

#[test]
fn new_refuses_invalid_components() {
    assert!(MediaType::new("", "plain").is_none());
    assert!(MediaType::new("text", "").is_none());
    assert!(MediaType::new("Text", "plain").is_none());
    assert!(MediaType::new("text", "pl ain").is_none());
    assert!(MediaType::new("text", "a/b").is_none());
    assert!(MediaType::new("te\txt", "plain").is_none());
    assert!(MediaType::new("text", "x-c++").is_some());
}

#[test]
fn components_are_kept() {
    let m = media("image", "svg+xml");
    assert_eq!(m.type_(), "image");
    assert_eq!(m.subtype(), "svg+xml");
    assert_eq!(m.essence(), "image/svg+xml");
    let d = m.duplicate();
    assert!(d.same(&m));
}

#[test]
fn from_essence_cuts_at_the_first_slash() {
    let m = MediaType::from_essence("text/plain").unwrap();
    assert_eq!(m.type_(), "text");
    assert_eq!(m.subtype(), "plain");
    assert!(MediaType::from_essence("textplain").is_none());
    assert!(MediaType::from_essence("/plain").is_none());
    assert!(MediaType::from_essence("text/").is_none());
    assert!(MediaType::from_essence("a/b/c").is_none());
    assert!(MediaType::from_essence("").is_none());
}

#[test]
fn essence_round_trip() {
    let m = media("application", "x-tar");
    let back = MediaType::from_essence(&m.essence()).unwrap();
    assert!(back.same(&m));
}

#[test]
fn parse_lowers_case_and_drops_parameters() {
    let m = MediaType::parse("Text/Plain; charset=utf-8").unwrap();
    assert_eq!(m.essence(), "text/plain");
    assert!(m.same(&media("text", "plain")));
}

#[test]
fn parse_refuses_what_is_no_media_type() {
    assert!(MediaType::parse("plain").is_none());
    assert!(MediaType::parse("").is_none());
    assert!(MediaType::parse("text/pl ain").is_none());
    assert!(MediaType::parse("text/").is_none());
    assert!(MediaType::parse("\\.pdf$").is_none());
}

#[test]
fn wildcards_are_recognised() {
    assert!(media("image", "*").is_wildcard());
    assert!(media("*", "*").is_wildcard());
    assert!(media("*", "png").is_wildcard());
    assert!(!media("image", "png").is_wildcard());
    assert!(!media("image", "**").is_wildcard());
    let w = media("image", "png").wildcard();
    assert_eq!(w.essence(), "image/*");
}
