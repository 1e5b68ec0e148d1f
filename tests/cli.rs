use rcli::{
    accept_dir, accept_input_file, format_parser, parse_format, parse_output_format, verify_file,
    verify_input_file, verify_path, Base64Format, FormatError, GenPassOpts, GenerateOpts,
    OutputFormat, SignFormat,
};

#[test]
fn test_verify_input_file() {
    assert_eq!(verify_file("-"), Ok("-".into()));
    assert_eq!(verify_file("src/lib.rs"), Ok("src/lib.rs".into()));
    assert_eq!(verify_file("a.txt"), Err("File does not exists".into()))
}

#[test]
fn input_file_decision() {
    assert_eq!(accept_input_file("-", false), Ok("-".to_string()));
    assert_eq!(accept_input_file("x.txt", true), Ok("x.txt".to_string()));
    assert_eq!(
        accept_input_file("x.txt", false),
        Err("File does not exists".to_string())
    );
}

#[test]
fn input_file_without_stdin() {
    assert_eq!(verify_input_file("src/lib.rs"), Ok("src/lib.rs".to_string()));
    assert!(verify_input_file("-").is_err());
}

#[test]
fn dir_checks() {
    assert_eq!(verify_path("."), Ok(".".to_string()));
    assert_eq!(verify_path("src/lib.rs"), Err("You provided a invalid path!"));
    assert_eq!(verify_path("no/such/dir"), Err("You provided a invalid path!"));
    assert_eq!(accept_dir("d", true, true), Ok("d".to_string()));
    assert!(accept_dir("d", true, false).is_err());
    assert!(accept_dir("d", false, false).is_err());
}

#[test]
fn sign_format_names() {
    assert_eq!(parse_format("blake3"), Ok(SignFormat::Blake3));
    assert_eq!(parse_format("ed25519"), Ok(SignFormat::Ed25519));
    assert_eq!(parse_format("Blake3"), Err(FormatError));
    assert_eq!(parse_format("rsa"), Err(FormatError));
    assert_eq!(parse_format(""), Err(FormatError));
    assert_eq!(SignFormat::Blake3.as_str(), "blake3");
    assert_eq!(SignFormat::Ed25519.as_str(), "ed25519");
}

#[test]
fn base64_format_names() {
    assert_eq!(format_parser("standard"), Ok(Base64Format::Standard));
    assert_eq!(format_parser("urlsafe"), Ok(Base64Format::UrlSafe));
    assert_eq!(format_parser("URLSAFE"), Err(FormatError));
    assert_eq!(Base64Format::UrlSafe.as_str(), "urlsafe");
}

#[test]
fn output_format_names_ignore_case() {
    assert_eq!(parse_output_format("json"), Ok(OutputFormat::Json));
    assert_eq!(parse_output_format("YAML"), Ok(OutputFormat::Yaml));
    assert_eq!(parse_output_format("ToMl"), Ok(OutputFormat::Toml));
    assert_eq!(parse_output_format("xml"), Err(FormatError));
    assert_eq!(parse_output_format("jsonl"), Err(FormatError));
    assert_eq!(OutputFormat::Toml.as_str(), "toml");
}

#[test]
fn key_file_names_follow_scheme() {
    let g = GenerateOpts { format: SignFormat::Blake3, output: ".".to_string() };
    assert_eq!(g.key_file_names(), vec!["blake3.txt"]);
    let g = GenerateOpts { format: SignFormat::Ed25519, output: ".".to_string() };
    assert_eq!(g.key_file_names(), vec!["ed25519.sk", "ed25519.pk"]);
}

#[test]
fn genpass_options_give_scored_password() {
    let opts = GenPassOpts { length: 16, nonumber: false, nolower: false, noupper: false, nosymbol: true };
    let (p, score) = opts.generate().unwrap();
    assert_eq!(p.len(), 16);
    assert!(score <= 4);
    assert!(p.bytes().all(|b| !b"!@#$%^&*_".contains(&b)));
}

#[test]
fn empty_password_scores_zero() {
    let opts = GenPassOpts { length: 0, nonumber: true, nolower: true, noupper: true, nosymbol: true };
    assert_eq!(opts.generate(), Ok((String::new(), 0)));
    let weak = GenPassOpts { length: 4, nonumber: false, nolower: false, noupper: false, nosymbol: false };
    assert_eq!(weak.generate().unwrap().0.len(), 4);
    let too_short = GenPassOpts { length: 3, nonumber: false, nolower: false, noupper: false, nosymbol: false };
    assert_eq!(too_short.generate(), Err(rcli::GenPassError::TooShort));
}
