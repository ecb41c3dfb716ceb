//! The validated configuration and how it is resolved from raw argument
//! values.

use crate::algorithm::{lemma_name_round_trip, Algorithm};
use crate::decimal::{digits_value, i32_value, magnitude_part};
use crate::depth::DepthSetting;
use crate::error::ConfigError;
use clap::{App, AppSettings, Arg};
use std::path::PathBuf;
use vstd::prelude::*;

verus! {

/// `std::path::PathBuf`, carried through as an opaque value.
#[verifier::external_type_specification]
#[verifier::external_body]
pub struct ExPathBuf(std::path::PathBuf);

/// `Clone::clone` of `std::path::PathBuf`: the duplicate is the same path.
pub assume_specification[ <PathBuf as Clone>::clone ](path: &PathBuf) -> (r: PathBuf)
    ensures
        r == *path,
;

/// `clap::Error`, carried through as an opaque value: what the argument
/// matcher reports for a command line it refuses, and for a request for
/// help or for the version.
#[verifier::external_type_specification]
#[verifier::external_body]
pub struct ExClapError(clap::Error);

/// What the file system answered for a directory argument: its canonical,
/// absolute path, and whether that path is a regular file.
#[derive(Debug, Clone, Hash, PartialEq, Eq)]
pub struct CanonicalPath {
    pub path: PathBuf,
    pub is_file: bool,
}

/// The argument values as they were given; a field that was not given is
/// `None` and takes its default.
#[derive(Debug, Clone, Hash, PartialEq, Eq)]
pub struct Arguments {
    /// Directory to hash or verify. Default: `"."`
    pub directory: Option<String>,
    /// Name of the hashing algorithm. Default: `"SHA1"`
    pub algorithm: Option<String>,
    /// Whether checksums are to be made rather than verified.
    pub create: bool,
    /// Max recursion depth. Default: `"0"`
    pub depth: Option<String>,
}

/// The argument values as mathematical texts.
pub struct ArgumentTexts {
    pub directory: Option<Seq<char>>,
    pub algorithm: Option<Seq<char>>,
    pub create: bool,
    pub depth: Option<Seq<char>>,
}

/// The text of an optional value.
pub open spec fn text_of(value: Option<String>) -> Option<Seq<char>> {
    match value {
        Some(s) => Some(s@),
        None => None,
    }
}

impl ArgumentTexts {
    /// The directory text, or its default.
    pub open spec fn directory_text(self) -> Seq<char> {
        match self.directory {
            Some(s) => s,
            None => "."@,
        }
    }

    /// The algorithm name, or its default.
    pub open spec fn algorithm_text(self) -> Seq<char> {
        match self.algorithm {
            Some(s) => s,
            None => "SHA1"@,
        }
    }

    /// The depth text, or its default.
    pub open spec fn depth_text(self) -> Seq<char> {
        match self.depth {
            Some(s) => s,
            None => "0"@,
        }
    }
}

impl View for Arguments {
    type V = ArgumentTexts;

    open spec fn view(&self) -> ArgumentTexts {
        ArgumentTexts {
            directory: text_of(self.directory),
            algorithm: text_of(self.algorithm),
            create: self.create,
            depth: text_of(self.depth),
        }
    }
}

impl Arguments {
    /// The directory to look up, with the default filled in.
    pub fn directory_or_default(&self) -> (r: &str)
        ensures
            r@ == self@.directory_text(),
    {
        match &self.directory {
            Some(s) => s.as_str(),
            None => ".",
        }
    }

    /// The algorithm name, with the default filled in.
    pub fn algorithm_or_default(&self) -> (r: &str)
        ensures
            r@ == self@.algorithm_text(),
    {
        match &self.algorithm {
            Some(s) => s.as_str(),
            None => "SHA1",
        }
    }

    /// The depth text, with the default filled in.
    pub fn depth_or_default(&self) -> (r: &str)
        ensures
            r@ == self@.depth_text(),
    {
        match &self.depth {
            Some(s) => s.as_str(),
            None => "0",
        }
    }
}

/// Representation of the application's all configurable values.
#[derive(Debug, Clone, Hash, PartialEq, Eq)]
pub struct Options {
    /// Directory to hash/verify: canonical and absolute. Default: `"."`
    pub dir: PathBuf,
    /// Hashing algorithm to use. Default: `SHA1`
    pub algorithm: Algorithm,
    /// Whether to verify or create checksums. Default: verify
    pub verify: bool,
    /// Max recursion depth. Default: `LastLevel`
    pub depth: DepthSetting,
}

/// Why no configuration was produced.
#[derive(Debug)]
pub enum ParseError {
    /// The command line was not matched: it is malformed, holds a value
    /// that its validator refuses, or asks for help or for the version.
    Usage(clap::Error),
    /// The command line was matched and a field was then refused.
    Invalid(ConfigError),
}

/// What `clap::App::get_matches_from_safe` makes of a command line, whose
/// first entry is the program's name, under this tool's argument table: the
/// values it matched, or `None` where it refuses the command line.
pub uninterp spec fn matched(args: Seq<Seq<char>>) -> Option<ArgumentTexts>;

/// `clap::App::get_matches_from_safe` on this tool's argument table, with
/// the matched values read by `ArgMatches::value_of` and
/// `ArgMatches::is_present`. The contract claims only that the outcome is
/// fixed by the command line: it is `Ok` exactly when `matched` is `Some`,
/// and then holds those values.
#[verifier::external_body]
fn match_arguments(args: &Vec<String>) -> (r: Result<Arguments, clap::Error>)
    ensures
        r is Ok <==> matched(args.deep_view()) is Some,
        r is Ok ==> Some(r->Ok_0@) == matched(args.deep_view()),
{
    let table = [
        Arg::from_usage("[DIRECTORY] 'Directory to hash/verify [default: .]'"),
        Arg::from_usage("--algorithm=[algorithm] -a 'Hashing algorithm to use [default: SHA1]. {n}Supported algorithms: SHA{1,2,3}, BLAKE{,2}, CRC{64,32,16,8}, MD5'").next_line_help(true).validator(Options::algorithm_validator),
        Arg::from_usage("--create -c 'Make checksums'").overrides_with("verify"),
        Arg::from_usage("--verify -v 'Verify checksums (default)'").overrides_with("create"),
        Arg::from_usage("--depth=[depth] -d 'Max recursion depth [default: 0]. `-1` for infinite.'").validator(Options::depth_validator),
    ];
    let app = App::new("checksums").setting(AppSettings::AllowLeadingHyphen).setting(AppSettings::ColoredHelp).version("0.1.0").about("Tool for making/verifying checksums of directory trees").args(&table);
    let m = app.get_matches_from_safe(args)?;
    Ok(Arguments { directory: m.value_of("DIRECTORY").map(String::from), algorithm: m.value_of("algorithm").map(String::from), create: m.is_present("create"), depth: m.value_of("depth").map(String::from) })
}

/// Whether a directory lookup names a usable directory: the path was made
/// canonical and is not a regular file.
pub open spec fn directory_accepted(lookup: Result<CanonicalPath, String>) -> bool {
    lookup is Ok && !lookup->Ok_0.is_file
}

/// The configuration that argument values and a directory lookup resolve to,
/// or the error of the first field refused: the directory, then the
/// algorithm, then the depth.
pub open spec fn resolution(raw: ArgumentTexts, lookup: Result<CanonicalPath, String>) -> Result<
    Options,
    ConfigError,
> {
    if !directory_accepted(lookup) {
        Err(ConfigError::InvalidDirectory)
    } else if Algorithm::of_name(raw.algorithm_text()) is None {
        Err(ConfigError::UnsupportedAlgorithm)
    } else if i32_value(raw.depth_text()) is None {
        Err(ConfigError::MalformedDepth)
    } else {
        Ok(
            Options {
                dir: lookup->Ok_0.path,
                algorithm: Algorithm::of_name(raw.algorithm_text())->Some_0,
                verify: !raw.create,
                depth: DepthSetting::of_int(i32_value(raw.depth_text())->Some_0 as int),
            },
        )
    }
}

/// Resolution is atomic: a configuration is produced exactly when the
/// directory is accepted, the algorithm is known and the depth is well
/// formed; it then holds the canonical path, that algorithm, the mode and a
/// well-formed depth policy.
pub proof fn lemma_resolution_is_atomic(raw: ArgumentTexts, lookup: Result<CanonicalPath, String>)
    ensures
        resolution(raw, lookup) is Ok <==> {
            &&& directory_accepted(lookup)
            &&& Algorithm::of_name(raw.algorithm_text()) is Some
            &&& i32_value(raw.depth_text()) is Some
        },
        resolution(raw, lookup) matches Ok(options) ==> {
            &&& options.dir == lookup->Ok_0.path
            &&& Algorithm::of_name(raw.algorithm_text()) == Some(options.algorithm)
            &&& DepthSetting::of_text(raw.depth_text()) == Ok::<DepthSetting, ConfigError>(
                options.depth,
            )
            &&& options.depth.wf()
        },
{
}

/// A directory that is a regular file, or that was not found, fails
/// resolution as an invalid directory, whatever the other fields hold.
pub proof fn lemma_refused_directory(raw: ArgumentTexts, lookup: Result<CanonicalPath, String>)
    requires
        lookup is Err || lookup->Ok_0.is_file,
    ensures
        resolution(raw, lookup) == Err::<Options, ConfigError>(ConfigError::InvalidDirectory),
{
}

/// An algorithm name outside the supported set fails resolution; with an
/// accepted directory the error is that of the algorithm.
pub proof fn lemma_refused_algorithm(raw: ArgumentTexts, lookup: Result<CanonicalPath, String>)
    requires
        Algorithm::of_name(raw.algorithm_text()) is None,
    ensures
        resolution(raw, lookup) is Err,
        directory_accepted(lookup) ==> resolution(raw, lookup) == Err::<Options, ConfigError>(
            ConfigError::UnsupportedAlgorithm,
        ),
{
}

/// A malformed depth fails resolution; with an accepted directory and a
/// known algorithm the error is that of the depth.
pub proof fn lemma_refused_depth(raw: ArgumentTexts, lookup: Result<CanonicalPath, String>)
    requires
        i32_value(raw.depth_text()) is None,
    ensures
        resolution(raw, lookup) is Err,
        directory_accepted(lookup) && Algorithm::of_name(raw.algorithm_text()) is Some
            ==> resolution(raw, lookup) == Err::<Options, ConfigError>(
            ConfigError::MalformedDepth,
        ),
{
}

/// The mode of a resolved configuration is creation exactly when creation
/// was asked for; otherwise checksums are verified.
pub proof fn lemma_mode_follows_create(raw: ArgumentTexts, lookup: Result<CanonicalPath, String>)
    requires
        resolution(raw, lookup) is Ok,
    ensures
        resolution(raw, lookup)->Ok_0.verify == !raw.create,
{
}

/// With nothing given but an accepted directory, resolution yields the
/// defaults: SHA1, verification, and no recursion.
pub proof fn lemma_defaults(lookup: Result<CanonicalPath, String>)
    requires
        directory_accepted(lookup),
    ensures
        resolution(
            ArgumentTexts { directory: None, algorithm: None, create: false, depth: None },
            lookup,
        ) == Ok::<Options, ConfigError>(
            Options {
                dir: lookup->Ok_0.path,
                algorithm: Algorithm::SHA1,
                verify: true,
                depth: DepthSetting::LastLevel,
            },
        ),
{
    reveal_strlit("SHA1");
    reveal_strlit("0");
    lemma_name_round_trip(Algorithm::SHA1);
    let digits = magnitude_part("0"@);
    assert(digits =~= seq!['0']);
    assert(digits.drop_last() =~= Seq::<char>::empty());
    reveal_with_fuel(digits_value, 2);
}

impl Options {
    /// The message given for a directory that is a regular file.
    pub open spec fn file_message() -> Seq<char> {
        "DIRECTORY cannot be a file."@
    }

    /// Accept an algorithm name exactly when it names a supported algorithm.
    pub fn algorithm_validator(s: String) -> (r: Result<(), String>)
        ensures
            r is Ok <==> Algorithm::of_name(s@) is Some,
            r is Err ==> r->Err_0@ == ConfigError::UnsupportedAlgorithm.spec_message(),
    {
        match Algorithm::from_name(s.as_str()) {
            Some(_) => Ok(()),
            None => Err(ConfigError::UnsupportedAlgorithm.message()),
        }
    }

    /// Accept a directory lookup exactly when it found something other than
    /// a regular file. A failed lookup is refused with its own message.
    pub fn directory_validator(lookup: &Result<CanonicalPath, String>) -> (r: Result<(), String>)
        ensures
            r is Ok <==> directory_accepted(*lookup),
            *lookup is Err ==> r == Err::<(), String>(lookup->Err_0),
            *lookup is Ok && lookup->Ok_0.is_file ==> r is Err && r->Err_0@ == Self::file_message(),
    {
        match lookup {
            Err(reason) => Err(reason.clone()),
            Ok(found) => {
                if found.is_file {
                    Err("DIRECTORY cannot be a file.".to_owned())
                } else {
                    Ok(())
                }
            },
        }
    }

    /// Accept a depth text exactly when it is a base-ten 32-bit integer.
    pub fn depth_validator(s: String) -> (r: Result<(), String>)
        ensures
            r is Ok <==> i32_value(s@) is Some,
            r is Err ==> r->Err_0@ == ConfigError::MalformedDepth.spec_message(),
    {
        match DepthSetting::parse(s.as_str()) {
            Ok(_) => Ok(()),
            Err(e) => Err(e.message()),
        }
    }

    /// Match a command line, whose first entry is the program's name, into
    /// argument values.
    ///
    /// `--create` and `--verify` cancel each other, the later one standing.
    /// A depth may begin with a hyphen.
    pub fn arguments(args: &Vec<String>) -> (r: Result<Arguments, ParseError>)
        ensures
            r is Ok <==> matched(args.deep_view()) is Some,
            r is Ok ==> Some(r->Ok_0@) == matched(args.deep_view()),
            r is Err ==> r->Err_0 is Usage,
    {
        match match_arguments(args) {
            Ok(raw) => Ok(raw),
            Err(e) => Err(ParseError::Usage(e)),
        }
    }

    /// Parse a command line into an `Options` instance.
    ///
    /// The command line is matched, `lookup` is asked once for the canonical
    /// form of the directory that was given, and the fields are resolved as
    /// [`Options::resolve`] does.
    pub fn parse<F: Fn(&str) -> Result<CanonicalPath, String>>(args: &Vec<String>, lookup: F) -> (r:
        Result<Options, ParseError>)
        requires
            forall|d: &str| lookup.requires((d,)),
        ensures
            matched(args.deep_view()) is None ==> r is Err && r->Err_0 is Usage,
            matched(args.deep_view()) matches Some(raw) ==> exists|
                d: &str,
                found: Result<CanonicalPath, String>,
            |
                {
                    &&& d@ == raw.directory_text()
                    &&& lookup.ensures((d,), found)
                    &&& r == Self::outcome(resolution(raw, found))
                },
    {
        let raw = match Self::arguments(args) {
            Ok(raw) => raw,
            Err(e) => {
                return Err(e);
            },
        };
        let d = raw.directory_or_default();
        let found = lookup(d);
        let ghost witness = found;
        let r = match Self::resolve(&raw, found) {
            Ok(options) => Ok(options),
            Err(e) => Err(ParseError::Invalid(e)),
        };
        assert(d@ == raw@.directory_text() && lookup.ensures((d,), witness) && r == Self::outcome(
            resolution(raw@, witness),
        ));
        r
    }

    /// A resolution as the outcome of parsing: a refused field is an
    /// invalid command line.
    pub open spec fn outcome(resolved: Result<Options, ConfigError>) -> Result<Options, ParseError> {
        match resolved {
            Ok(options) => Ok(options),
            Err(e) => Err(ParseError::Invalid(e)),
        }
    }

    /// Resolve argument values and the lookup of their directory into a
    /// configuration.
    ///
    /// Every field is validated; the first refused field, in the order
    /// directory, algorithm, depth, fails the whole resolution. Checksums
    /// are verified unless creation was asked for.
    pub fn resolve(raw: &Arguments, lookup: Result<CanonicalPath, String>) -> (r: Result<
        Options,
        ConfigError,
    >)
        ensures
            r == resolution(raw@, lookup),
            r is Ok ==> r->Ok_0.depth.wf(),
    {
        let found = match lookup {
            Ok(found) => found,
            Err(_) => {
                return Err(ConfigError::InvalidDirectory);
            },
        };
        if found.is_file {
            return Err(ConfigError::InvalidDirectory);
        }
        let algorithm = match Algorithm::from_name(raw.algorithm_or_default()) {
            Some(a) => a,
            None => {
                return Err(ConfigError::UnsupportedAlgorithm);
            },
        };
        let depth = match DepthSetting::parse(raw.depth_or_default()) {
            Ok(d) => d,
            Err(e) => {
                return Err(e);
            },
        };
        Ok(Options { dir: found.path, algorithm, verify: !raw.create, depth })
    }
}

} // verus!
