use config_error::ErrorKind;

fn parse(location: &str, detail: &str) -> ErrorKind {
    ErrorKind::ParseError(location.to_string(), detail.to_string())
}

fn file_io(path: &str) -> ErrorKind {
    ErrorKind::FileIOError { path: path.to_string() }
}

fn not_found(path: &str) -> ErrorKind {
    ErrorKind::FileNotFoundError(path.to_string())
}

fn serialization(detail: &str) -> ErrorKind {
    ErrorKind::SerializationError(detail.to_string())
}

#[test]
fn parse_error_message_follows_template() {
    assert_eq!(
        parse("section [x]", "unexpected token").to_string(),
        "Error parsing configuration file at section [x] - unexpected token"
    );
}

#[test]
fn parse_error_message_with_unknown_location() {
    assert_eq!(
        parse("", "invalid type").to_string(),
        "Error parsing configuration file at  - invalid type"
    );
}

#[test]
fn file_io_error_message_follows_template() {
    assert_eq!(
        file_io("/etc/node/server.toml").to_string(),
        "Error loading config file at /etc/node/server.toml"
    );
}

#[test]
fn file_not_found_message_follows_template() {
    assert_eq!(
        not_found("cfg.toml").to_string(),
        "Configuration file not found: cfg.toml"
    );
}

#[test]
fn serialization_error_message_follows_template() {
    assert_eq!(
        serialization("unsupported value").to_string(),
        "Error serializing configuration: unsupported value"
    );
}

#[test]
fn messages_of_empty_texts_are_the_bare_templates() {
    assert_eq!(parse("", "").to_string(), "Error parsing configuration file at  - ");
    assert_eq!(file_io("").to_string(), "Error loading config file at ");
    assert_eq!(not_found("").to_string(), "Configuration file not found: ");
    assert_eq!(serialization("").to_string(), "Error serializing configuration: ");
}

#[test]
fn messages_keep_text_outside_ascii() {
    assert_eq!(
        not_found("données/réseau.toml").to_string(),
        "Configuration file not found: données/réseau.toml"
    );
    assert_eq!(
        parse("节 [x]", "неожиданный токен").to_string(),
        "Error parsing configuration file at 节 [x] - неожиданный токен"
    );
}

#[test]
fn same_variant_with_same_texts_is_equal() {
    assert_eq!(parse("a", "b"), parse("a", "b"));
    assert_eq!(file_io("a"), file_io("a"));
    assert_eq!(not_found("a"), not_found("a"));
    assert_eq!(serialization("a"), serialization("a"));
    assert!(parse("", "") == parse("", ""));
}

#[test]
fn same_variant_with_other_texts_is_not_equal() {
    assert_ne!(parse("a", "b"), parse("a", "c"));
    assert_ne!(parse("a", "b"), parse("c", "b"));
    assert_ne!(parse("a", "b"), parse("b", "a"));
    assert_ne!(file_io("a"), file_io("b"));
    assert_ne!(not_found("a"), not_found("A"));
    assert_ne!(serialization("a"), serialization(""));
}

#[test]
fn different_variants_are_never_equal() {
    let all = [parse("p", "p"), file_io("p"), not_found("p"), serialization("p")];
    for (i, left) in all.iter().enumerate() {
        for (j, right) in all.iter().enumerate() {
            assert_eq!(left == right, i == j);
            assert_eq!(left != right, i != j);
        }
    }
    assert_ne!(file_io(""), not_found(""));
    assert_ne!(not_found(""), serialization(""));
}

#[test]
fn clone_is_equal_to_its_source() {
    for kind in [parse("here", "that"), file_io("p"), not_found("q"), serialization("r")] {
        let copy = kind.clone();
        assert_eq!(copy, kind);
        assert_eq!(copy.to_string(), kind.to_string());
    }
}

#[test]
fn debug_names_the_variant() {
    assert_eq!(format!("{:?}", not_found("cfg.toml")), "FileNotFoundError(\"cfg.toml\")");
    assert_eq!(format!("{:?}", file_io("p")), "FileIOError { path: \"p\" }");
}
