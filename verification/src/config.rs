//! Where the pressure source is and what has to be written to arm it, as
//! the environment says.
//!
//! Two variables are read, once, before anything is opened:
//! `MEMORY_PRESSURE_WATCH` names the source and `MEMORY_PRESSURE_WRITE`
//! holds, in base64, the bytes that arm it. The library takes the result of
//! both lookups as values, so a caller can also pass a configuration that
//! never was in the environment.

use vstd::prelude::*;
use vstd::string::StrSliceExecFns;
use vstd::string::StringSliceAdditionalSpecFns;
use base64::Engine;
use crate::error::{DecodeError, Error, VarError};

verus! {

/// The variable that names the pressure source.
pub const WATCH_VARIABLE: &'static str = "MEMORY_PRESSURE_WATCH";

/// The variable that holds the arm configuration of a custom source.
pub const WRITE_VARIABLE: &'static str = "MEMORY_PRESSURE_WRITE";

/// The source that is watched when the environment names none.
pub open spec fn default_watch() -> Seq<char> {
    "/proc/pressure/memory"@
}

/// The watch path by which a service supervisor says that pressure
/// monitoring is switched off. The library reads it as "not set".
pub open spec fn disabled_watch() -> Seq<char> {
    "/dev/null"@
}

/// The bytes that arm the default source: the threshold expression
/// `some 20000 2000000`, closed by a zero byte.
pub open spec fn default_arm() -> Seq<u8> {
    "some 20000 2000000\0".spec_bytes()
}

/// The default arm configuration, byte by byte: nineteen bytes, the last
/// of them zero.
pub proof fn lemma_default_arm_bytes()
    ensures
        default_arm() == seq![
            115u8, 111, 109, 101, 32, 50, 48, 48, 48, 48, 32, 50, 48, 48, 48, 48, 48, 48, 0,
        ],
{
    broadcast use vstd::string::is_ascii_spec_bytes;

    reveal_strlit("some 20000 2000000\0");
    let text = "some 20000 2000000\0";
    assert(vstd::string::is_ascii(text));
    assert(text.spec_bytes() =~= seq![
        115u8, 111, 109, 101, 32, 50, 48, 48, 48, 48, 32, 50, 48, 48, 48, 48, 48, 48, 0,
    ]);
}

/// A resolved configuration: the path of the source and the bytes to write
/// to it once it is open.
#[derive(Debug, PartialEq, Eq)]
pub struct MonitorConfig {
    pub path: String,
    pub arm: Vec<u8>,
}

/// The mathematical content of a [`MonitorConfig`].
pub struct ConfigView {
    pub path: Seq<char>,
    pub arm: Seq<u8>,
}

impl View for MonitorConfig {
    type V = ConfigView;

    open spec fn view(&self) -> ConfigView {
        ConfigView { path: self.path@, arm: self.arm@ }
    }
}

/// The configuration of the default source.
pub open spec fn default_config() -> ConfigView {
    ConfigView { path: default_watch(), arm: default_arm() }
}

/// What the standard padded base64 alphabet decodes a text to: the bytes,
/// or the reason why the text is no such encoding.
pub uninterp spec fn base64_standard_decode(text: Seq<char>) -> Result<Seq<u8>, DecodeError>;

/// Calls `decode` of the `base64` crate's `STANDARD` engine on the text.
/// The contract only gives the outcome its name: the bytes, or the failure
/// with the fields the crate reports, are [`base64_standard_decode`] of the
/// text.
#[verifier::external_body]
fn decode_base64(text: &str) -> (r: Result<Vec<u8>, DecodeError>)
    ensures
        match r {
            Ok(bytes) => base64_standard_decode(text@) == Ok::<Seq<u8>, DecodeError>(bytes@),
            Err(e) => base64_standard_decode(text@) == Err::<Seq<u8>, DecodeError>(e),
        },
{
    match base64::prelude::BASE64_STANDARD.decode(text) {
        Ok(bytes) => Ok(bytes),
        Err(base64::DecodeError::InvalidByte(at, byte)) => Err(DecodeError::InvalidByte(at, byte)),
        Err(base64::DecodeError::InvalidLength(len)) => Err(DecodeError::InvalidLength(len)),
        Err(base64::DecodeError::InvalidLastSymbol(at, byte)) => Err(
            DecodeError::InvalidLastSymbol(at, byte),
        ),
        Err(base64::DecodeError::InvalidPadding) => Err(DecodeError::InvalidPadding),
    }
}

/// The source that a lookup of the watch variable selects: `None` for the
/// default source, the path for a custom one.
///
/// A variable that is not set selects the default, and so does the value
/// `/dev/null`. Any other value is a custom path and is taken as given. A
/// value that is not Unicode is an error.
pub open spec fn selected_watch(watch: Result<String, VarError>) -> Result<Option<String>, Error> {
    match watch {
        Ok(path) => if path@ == disabled_watch() {
            Ok(None)
        } else {
            Ok(Some(path))
        },
        Err(VarError::NotPresent) => Ok(None),
        Err(e) => Err(Error::VarError(e)),
    }
}

/// The configuration of a custom source at `path`, given what the write
/// variable decodes to: `None` where the variable is not set.
///
/// A variable that is not set arms with no bytes at all. One that is set
/// must be valid base64, and arms with the decoded bytes.
pub open spec fn custom_config(path: Seq<char>, decoded: Option<Result<Seq<u8>, DecodeError>>) -> Result<
    ConfigView,
    Error,
> {
    match decoded {
        None => Ok(ConfigView { path, arm: Seq::empty() }),
        Some(Ok(bytes)) => Ok(ConfigView { path, arm: bytes }),
        Some(Err(e)) => Err(Error::Base64(e)),
    }
}

/// The configuration that the two lookups resolve to.
///
/// The write variable counts only for a custom source: with the default
/// source it is not looked at, whatever it holds. For a custom source a
/// write variable that is set must be Unicode and valid base64.
pub open spec fn resolved(watch: Result<String, VarError>, write: Result<String, VarError>) -> Result<
    ConfigView,
    Error,
> {
    match selected_watch(watch) {
        Ok(None) => Ok(default_config()),
        Ok(Some(path)) => match write {
            Ok(text) => custom_config(path@, Some(base64_standard_decode(text@))),
            Err(VarError::NotPresent) => custom_config(path@, None),
            Err(e) => Err(Error::VarError(e)),
        },
        Err(e) => Err(e),
    }
}

/// The mathematical content of a decoding handed to [`MonitorConfig::custom`].
pub open spec fn decoded_view(decoded: Option<Result<Vec<u8>, DecodeError>>) -> Option<
    Result<Seq<u8>, DecodeError>,
> {
    match decoded {
        None => None,
        Some(Ok(bytes)) => Some(Ok(bytes@)),
        Some(Err(e)) => Some(Err(e)),
    }
}

impl MonitorConfig {
    /// The default source with its fixed arm configuration.
    pub fn default_source() -> (config: MonitorConfig)
        ensures
            config@ == default_config(),
    {
        MonitorConfig {
            path: "/proc/pressure/memory".to_owned(),
            arm: "some 20000 2000000\0".as_bytes_vec(),
        }
    }

    /// The custom source at `path`, armed with what the write variable
    /// decodes to: see [`custom_config`].
    pub fn custom(path: String, decoded: Option<Result<Vec<u8>, DecodeError>>) -> (r: Result<
        MonitorConfig,
        Error,
    >)
        ensures
            match r {
                Ok(config) => custom_config(path@, decoded_view(decoded)) == Ok::<ConfigView, Error>(
                    config@,
                ),
                Err(e) => custom_config(path@, decoded_view(decoded)) == Err::<ConfigView, Error>(e),
            },
    {
        match decoded {
            None => Ok(MonitorConfig { path, arm: Vec::new() }),
            Some(Ok(bytes)) => Ok(MonitorConfig { path, arm: bytes }),
            Some(Err(e)) => Err(Error::Base64(e)),
        }
    }
}

/// Decides which source the watch variable selects: see [`selected_watch`].
pub fn select_watch(watch: Result<String, VarError>) -> (r: Result<Option<String>, Error>)
    ensures
        r == selected_watch(watch),
{
    match watch {
        Ok(path) => {
            let disabled: String = "/dev/null".to_owned();
            if path == disabled {
                Ok(None)
            } else {
                Ok(Some(path))
            }
        },
        Err(VarError::NotPresent) => Ok(None),
        Err(e) => Err(Error::VarError(e)),
    }
}

/// Resolves the two lookups to a configuration: see [`resolved`].
///
/// `watch` is the lookup of [`WATCH_VARIABLE`], `write` that of
/// [`WRITE_VARIABLE`].
pub fn resolve(watch: Result<String, VarError>, write: Result<String, VarError>) -> (r: Result<
    MonitorConfig,
    Error,
>)
    ensures
        match r {
            Ok(config) => resolved(watch, write) == Ok::<ConfigView, Error>(config@),
            Err(e) => resolved(watch, write) == Err::<ConfigView, Error>(e),
        },
{
    match select_watch(watch) {
        Ok(None) => Ok(MonitorConfig::default_source()),
        Ok(Some(path)) => match write {
            Ok(text) => MonitorConfig::custom(path, Some(decode_base64(text.as_str()))),
            Err(VarError::NotPresent) => MonitorConfig::custom(path, None),
            Err(e) => Err(Error::VarError(e)),
        },
        Err(e) => Err(e),
    }
}

} // verus!
