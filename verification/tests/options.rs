use checksums::algorithm::Algorithm;
use checksums::depth::DepthSetting;
use checksums::error::ConfigError;
use checksums::options::{Arguments, CanonicalPath, Options, ParseError};
use std::path::PathBuf;

fn directory(path: &str) -> Result<CanonicalPath, String> {
    Ok(CanonicalPath { path: PathBuf::from(path), is_file: false })
}

fn file(path: &str) -> Result<CanonicalPath, String> {
    Ok(CanonicalPath { path: PathBuf::from(path), is_file: true })
}

fn missing() -> Result<CanonicalPath, String> {
    Err("No such file or directory (os error 2)".to_string())
}

fn given(directory: &str, algorithm: &str, create: bool, depth: &str) -> Arguments {
    Arguments {
        directory: Some(directory.to_string()),
        algorithm: Some(algorithm.to_string()),
        create,
        depth: Some(depth.to_string()),
    }
}

fn nothing_given() -> Arguments {
    Arguments { directory: None, algorithm: None, create: false, depth: None }
}

fn line(words: &[&str]) -> Vec<String> {
    words.iter().map(|w| w.to_string()).collect()
}

fn parse(words: &[&str]) -> Result<Options, ParseError> {
    Options::parse(&line(words), |d| {
        Ok(CanonicalPath { path: PathBuf::from("/canonical").join(d), is_file: false })
    })
}

#[test]
fn resolve_defaults() {
    let options = Options::resolve(&nothing_given(), directory("/work")).unwrap();
    assert_eq!(
        options,
        Options {
            dir: PathBuf::from("/work"),
            algorithm: Algorithm::SHA1,
            verify: true,
            depth: DepthSetting::LastLevel,
        }
    );
}

#[test]
fn resolve_end_to_end() {
    let options = Options::resolve(&given(".", "SHA1", false, "0"), directory("/home/user")).unwrap();
    assert_eq!(options.dir, PathBuf::from("/home/user"));
    assert_eq!(options.algorithm, Algorithm::SHA1);
    assert!(options.verify);
    assert_eq!(options.depth, DepthSetting::LastLevel);
}

#[test]
fn resolve_every_field() {
    let options = Options::resolve(&given("sub", "crc32", true, "3"), directory("/work/sub")).unwrap();
    assert_eq!(
        options,
        Options {
            dir: PathBuf::from("/work/sub"),
            algorithm: Algorithm::CRC32,
            verify: false,
            depth: DepthSetting::NRemaining(3),
        }
    );
}

#[test]
fn resolve_infinite_depth() {
    let options = Options::resolve(&given(".", "MD5", false, "-1"), directory("/")).unwrap();
    assert_eq!(options.depth, DepthSetting::Infinite);
    let mut depth = options.depth;
    for _ in 0..1000 {
        depth = depth.next_level().unwrap();
    }
    assert_eq!(depth, DepthSetting::Infinite);
}

#[test]
fn resolve_refuses_a_file() {
    let r = Options::resolve(&given("notes.txt", "SHA1", false, "0"), file("/work/notes.txt"));
    assert_eq!(r, Err(ConfigError::InvalidDirectory));
}

#[test]
fn resolve_refuses_a_missing_directory() {
    let r = Options::resolve(&given("nowhere", "SHA1", false, "0"), missing());
    assert_eq!(r, Err(ConfigError::InvalidDirectory));
}

#[test]
fn resolve_refuses_an_unknown_algorithm() {
    let r = Options::resolve(&given(".", "SHA4", false, "0"), directory("/work"));
    assert_eq!(r, Err(ConfigError::UnsupportedAlgorithm));
}

#[test]
fn resolve_refuses_a_malformed_depth() {
    for depth in ["a234", "1231d"] {
        let r = Options::resolve(&given(".", "SHA1", false, depth), directory("/work"));
        assert_eq!(r, Err(ConfigError::MalformedDepth));
    }
}

#[test]
fn resolve_reports_the_first_refused_field() {
    let r = Options::resolve(&given("f", "SHA4", false, "x"), file("/f"));
    assert_eq!(r, Err(ConfigError::InvalidDirectory));
    let r = Options::resolve(&given("f", "SHA4", false, "x"), directory("/f"));
    assert_eq!(r, Err(ConfigError::UnsupportedAlgorithm));
    let r = Options::resolve(&given("f", "SHA3", false, "x"), directory("/f"));
    assert_eq!(r, Err(ConfigError::MalformedDepth));
}

#[test]
fn resolve_mode_follows_create() {
    assert!(Options::resolve(&given(".", "SHA1", false, "0"), directory("/")).unwrap().verify);
    assert!(!Options::resolve(&given(".", "SHA1", true, "0"), directory("/")).unwrap().verify);
}

#[test]
fn defaults_are_filled_in() {
    let raw = nothing_given();
    assert_eq!(raw.directory_or_default(), ".");
    assert_eq!(raw.algorithm_or_default(), "SHA1");
    assert_eq!(raw.depth_or_default(), "0");
    let raw = given("d", "MD5", true, "9");
    assert_eq!(raw.directory_or_default(), "d");
    assert_eq!(raw.algorithm_or_default(), "MD5");
    assert_eq!(raw.depth_or_default(), "9");
}

#[test]
fn validators_accept_and_refuse() {
    assert_eq!(Options::algorithm_validator("SHA1".to_string()), Ok(()));
    assert_eq!(Options::algorithm_validator("blake2".to_string()), Ok(()));
    assert_eq!(
        Options::algorithm_validator("SHA9".to_string()),
        Err(ConfigError::UnsupportedAlgorithm.message())
    );
    assert_eq!(Options::depth_validator("-1".to_string()), Ok(()));
    assert_eq!(Options::depth_validator("12".to_string()), Ok(()));
    assert_eq!(
        Options::depth_validator("a234".to_string()),
        Err(ConfigError::MalformedDepth.message())
    );
    assert_eq!(Options::directory_validator(&directory("/work")), Ok(()));
    assert_eq!(
        Options::directory_validator(&file("/work/a")),
        Err("DIRECTORY cannot be a file.".to_string())
    );
    assert_eq!(
        Options::directory_validator(&missing()),
        Err("No such file or directory (os error 2)".to_string())
    );
}

#[test]
fn messages_name_the_field() {
    assert_eq!(ConfigError::InvalidDirectory.message(), "DIRECTORY must be an existing directory.");
    assert_eq!(
        ConfigError::UnsupportedAlgorithm.message(),
        "algorithm is not one of the supported hashing algorithms."
    );
    assert_eq!(ConfigError::MalformedDepth.message(), "depth is not a base-ten 32-bit integer.");
}

#[test]
fn arguments_of_a_bare_command_line() {
    let raw = Options::arguments(&line(&["checksums"])).unwrap();
    assert_eq!(raw, nothing_given());
}

#[test]
fn arguments_are_matched() {
    let raw = Options::arguments(&line(&["checksums", "some/dir", "-a", "md5", "-c", "-d", "4"])).unwrap();
    assert_eq!(raw, given("some/dir", "md5", true, "4"));
    let raw = Options::arguments(&line(&["checksums", "--algorithm=CRC16", "--depth=-1", "other"])).unwrap();
    assert_eq!(raw, given("other", "CRC16", false, "-1"));
}

#[test]
fn arguments_mode_flags_override_each_other() {
    assert!(!Options::arguments(&line(&["checksums"])).unwrap().create);
    assert!(!Options::arguments(&line(&["checksums", "--verify"])).unwrap().create);
    assert!(Options::arguments(&line(&["checksums", "--create"])).unwrap().create);
    assert!(!Options::arguments(&line(&["checksums", "--create", "--verify"])).unwrap().create);
    assert!(Options::arguments(&line(&["checksums", "--verify", "--create"])).unwrap().create);
    assert!(!Options::arguments(&line(&["checksums", "-c", "-v"])).unwrap().create);
    assert!(Options::arguments(&line(&["checksums", "-v", "-c"])).unwrap().create);
}

#[test]
fn arguments_refuse_what_the_validators_refuse() {
    for words in [
        &["checksums", "-d", "a234"][..],
        &["checksums", "--depth=1231d"][..],
        &["checksums", "-a", "SHA4"][..],
        &["checksums", "--no-such-flag-at-all=1", "--help"][..],
    ] {
        match Options::arguments(&line(words)) {
            Err(ParseError::Usage(_)) => {}
            other => panic!("{:?}", other),
        }
    }
}

#[test]
fn parse_end_to_end() {
    let options = parse(&["checksums", ".", "--algorithm", "SHA1", "--depth", "0"]).unwrap();
    assert_eq!(
        options,
        Options {
            dir: PathBuf::from("/canonical/."),
            algorithm: Algorithm::SHA1,
            verify: true,
            depth: DepthSetting::LastLevel,
        }
    );
    assert_eq!(parse(&["checksums"]).unwrap(), options);
}

#[test]
fn parse_mode() {
    assert!(parse(&["checksums"]).unwrap().verify);
    assert!(!parse(&["checksums", "--create"]).unwrap().verify);
    assert!(parse(&["checksums", "--create", "--verify"]).unwrap().verify);
}

#[test]
fn parse_depth() {
    assert_eq!(parse(&["checksums", "-d", "-1"]).unwrap().depth, DepthSetting::Infinite);
    assert_eq!(parse(&["checksums", "-d", "-100"]).unwrap().depth, DepthSetting::Infinite);
    assert_eq!(parse(&["checksums", "-d", "0"]).unwrap().depth, DepthSetting::LastLevel);
    assert_eq!(parse(&["checksums", "-d", "2"]).unwrap().depth, DepthSetting::NRemaining(2));
    assert_eq!(parse(&["checksums", "--depth=100"]).unwrap().depth, DepthSetting::NRemaining(100));
}

#[test]
fn parse_hands_the_directory_to_the_lookup() {
    let options = parse(&["checksums", "a/b", "-a", "sha3"]).unwrap();
    assert_eq!(options.dir, PathBuf::from("/canonical/a/b"));
    assert_eq!(options.algorithm, Algorithm::SHA3);
}

#[test]
fn parse_refuses_a_file() {
    let r = Options::parse(&line(&["checksums", "notes.txt"]), |d| {
        Ok(CanonicalPath { path: PathBuf::from("/work").join(d), is_file: true })
    });
    match r {
        Err(ParseError::Invalid(ConfigError::InvalidDirectory)) => {}
        other => panic!("{:?}", other),
    }
}

#[test]
fn parse_refuses_a_missing_directory() {
    let r = Options::parse(&line(&["checksums", "nowhere"]), |_| Err("not found".to_string()));
    match r {
        Err(ParseError::Invalid(ConfigError::InvalidDirectory)) => {}
        other => panic!("{:?}", other),
    }
}

#[test]
fn parse_refuses_malformed_values() {
    for words in [&["checksums", "-d", "a234"][..], &["checksums", "-d", "1231d"][..], &["checksums", "-a", "SHA4"][..]] {
        assert!(parse(words).is_err());
    }
}

#[test]
fn clone_keeps_every_field() {
    let options = Options::resolve(&given("sub", "blake", true, "2"), directory("/work/sub")).unwrap();
    let copy = options.clone();
    assert_eq!(copy.dir, PathBuf::from("/work/sub"));
    assert_eq!(copy, options);
    let found = CanonicalPath { path: PathBuf::from("/a/b"), is_file: true };
    assert_eq!(found.clone(), found);
}
