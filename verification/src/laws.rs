//! What holds of every monitor, proved from the definitions of the other
//! modules.

use vstd::prelude::*;
use crate::config::{
    base64_standard_decode, default_arm, default_watch, disabled_watch, resolved, ConfigView,
};
use crate::error::{DecodeError, Error, VarError};
use crate::setup::{planned, SetupView};
use crate::source::{FileType, SourceKind};
use crate::wait::{drain_result, found_nothing, Engine, Readiness, Wait, WaitAction};

verus! {

/// The setup that the two lookups and the answer of the file system about
/// the resolved path lead to: the configuration is resolved first, and
/// only a configuration that is in order is looked up in the file system.
pub open spec fn construction(
    watch: Result<String, VarError>,
    write: Result<String, VarError>,
    found: Result<FileType, std::io::Error>,
) -> Result<SetupView, Error> {
    match resolved(watch, write) {
        Ok(config) => planned(config, found),
        Err(e) => Err(e),
    }
}

/// A source of a supported type is accepted and classified as what it is:
/// a regular file as `RegularFile`, a named pipe as `NamedPipe`, a socket
/// as `StreamSocket`. Its setup is that of its kind, for the configured
/// path and arm configuration.
pub proof fn lemma_supported_source_is_classified(config: ConfigView, file_type: FileType)
    requires
        file_type.is_file || file_type.is_fifo || file_type.is_socket,
    ensures
        planned(config, Ok(file_type)) matches Ok(setup) && {
            &&& file_type.is_file ==> setup.kind == SourceKind::RegularFile
            &&& !file_type.is_file && file_type.is_fifo ==> setup.kind == SourceKind::NamedPipe
            &&& !file_type.is_file && !file_type.is_fifo ==> setup.kind == SourceKind::StreamSocket
            &&& setup.path == config.path
            &&& setup.arm == config.arm
            &&& setup.remaining == setup.kind.setup_script()
        },
{
}

/// A path that the file system cannot answer for fails the construction
/// with the failure of that query, and nothing is set up.
pub proof fn lemma_missing_source_is_an_io_error(config: ConfigView, failure: std::io::Error)
    ensures
        planned(config, Err(failure)) == Err::<SetupView, Error>(Error::Io(failure)),
{
}

/// A source that is neither a regular file, a named pipe nor a socket is
/// refused as of an unexpected type. No setup comes of it, so not one
/// action is performed on it: nothing is opened, nothing written.
pub proof fn lemma_unsupported_source_is_refused(config: ConfigView, file_type: FileType)
    requires
        !file_type.is_file,
        !file_type.is_fifo,
        !file_type.is_socket,
    ensures
        planned(config, Ok(file_type)) == Err::<SetupView, Error>(Error::UnexpectedFileType),
{
}

/// The setup of every kind of source starts by opening the source, opens
/// it only once, and writes the arm configuration exactly once: with its
/// last action. So a source is armed once, after it was opened, and a
/// setup that is finished has armed it.
pub proof fn lemma_source_is_armed_once(kind: SourceKind)
    ensures
        kind.setup_script().len() >= 2,
        forall|i: int|
            0 <= i < kind.setup_script().len() ==> (#[trigger] kind.setup_script()[i].opens() <==> i
                == 0),
        forall|i: int|
            0 <= i < kind.setup_script().len() ==> (#[trigger] kind.setup_script()[i].writes()
                <==> i == kind.setup_script().len() - 1),
{
}

/// Without a watch variable, or with one that says `/dev/null`, the
/// default source is set up and is armed with the fixed default
/// configuration, whatever the write variable holds: be it not set, not
/// Unicode or not base64.
pub proof fn lemma_default_source_ignores_write(
    watch: Result<String, VarError>,
    write: Result<String, VarError>,
    file_type: FileType,
)
    requires
        watch == Err::<String, VarError>(VarError::NotPresent) || (watch matches Ok(path)
            && path@ == disabled_watch()),
    ensures
        resolved(watch, write) == Ok::<ConfigView, Error>(
            ConfigView { path: default_watch(), arm: default_arm() },
        ),
        file_type.kind() matches Some(kind) ==> construction(watch, write, Ok(file_type)) == Ok::<
            SetupView,
            Error,
        >(
            SetupView {
                kind,
                path: default_watch(),
                arm: default_arm(),
                remaining: kind.setup_script(),
            },
        ),
{
}

/// With a custom watch path and a write variable that holds valid base64,
/// the source at that path is set up and is armed with exactly the decoded
/// bytes.
pub proof fn lemma_custom_source_is_armed_with_decoded_bytes(
    path: String,
    text: String,
    bytes: Seq<u8>,
    file_type: FileType,
)
    requires
        path@ != disabled_watch(),
        base64_standard_decode(text@) == Ok::<Seq<u8>, DecodeError>(bytes),
    ensures
        resolved(Ok(path), Ok(text)) == Ok::<ConfigView, Error>(
            ConfigView { path: path@, arm: bytes },
        ),
        file_type.kind() matches Some(kind) ==> construction(Ok(path), Ok(text), Ok(file_type)) == Ok::<
            SetupView,
            Error,
        >(SetupView { kind, path: path@, arm: bytes, remaining: kind.setup_script() }),
{
}

/// With a custom watch path and no write variable, the source at that path
/// is set up and is armed with no bytes at all.
pub proof fn lemma_custom_source_without_write_is_armed_with_nothing(
    path: String,
    file_type: FileType,
)
    requires
        path@ != disabled_watch(),
    ensures
        resolved(Ok(path), Err(VarError::NotPresent)) == Ok::<ConfigView, Error>(
            ConfigView { path: path@, arm: Seq::empty() },
        ),
        file_type.kind() matches Some(kind) ==> construction(
            Ok(path),
            Err(VarError::NotPresent),
            Ok(file_type),
        ) == Ok::<SetupView, Error>(
            SetupView { kind, path: path@, arm: Seq::empty(), remaining: kind.setup_script() },
        ),
{
}

/// With a custom watch path, a write variable that is set but is not valid
/// base64 is a configuration error, whatever is found at the path: the
/// failure to decode is reported, and nothing is set up.
pub proof fn lemma_malformed_write_is_refused(
    path: String,
    text: String,
    found: Result<FileType, std::io::Error>,
)
    requires
        path@ != disabled_watch(),
        base64_standard_decode(text@) is Err,
    ensures
        resolved(Ok(path), Ok(text)) == Err::<ConfigView, Error>(
            Error::Base64(base64_standard_decode(text@)->Err_0),
        ),
        construction(Ok(path), Ok(text), found) == Err::<SetupView, Error>(
            Error::Base64(base64_standard_decode(text@)->Err_0),
        ),
        Error::Base64(base64_standard_decode(text@)->Err_0).is_configuration(),
{
}

/// A variable that is set but is not Unicode is a configuration error: the
/// watch variable always, the write variable where the source is a custom
/// one.
pub proof fn lemma_non_unicode_variable_is_refused(
    watch: Result<String, VarError>,
    write: Result<String, VarError>,
    raw: Vec<u8>,
)
    requires
        watch == Err::<String, VarError>(VarError::NotUnicode(raw)) || (watch matches Ok(path)
            && path@ != disabled_watch() && write == Err::<String, VarError>(
            VarError::NotUnicode(raw),
        )),
    ensures
        resolved(watch, write) == Err::<ConfigView, Error>(
            Error::VarError(VarError::NotUnicode(raw)),
        ),
        Error::VarError(VarError::NotUnicode(raw)).is_configuration(),
{
}

/// A setup whose actions all succeed performs the script of its kind,
/// action by action, and then vouches for a source of that kind.
pub proof fn lemma_setup_performs_its_script(setup: SetupView, outcomes: Seq<Result<(), Error>>)
    requires
        setup.remaining == setup.kind.setup_script(),
        outcomes.len() >= setup.kind.setup_script().len(),
        forall|i: int| 0 <= i < setup.kind.setup_script().len() ==> (#[trigger] outcomes[i]) is Ok,
    ensures
        setup.trace(outcomes).actions == setup.kind.setup_script(),
        setup.trace(outcomes).result == Some(Ok::<SourceKind, Error>(setup.kind)),
{
    reveal_with_fuel(SetupView::trace, 4);
    let script = setup.kind.setup_script();
    assert(outcomes[0] is Ok);
    assert(outcomes[1] is Ok);
    assert(outcomes.skip(1)[0] == outcomes[1]);
    if script.len() == 3 {
        assert(outcomes[2] is Ok);
        assert(outcomes.skip(1).skip(1)[0] == outcomes[2]);
    }
    assert(setup.trace(outcomes).actions =~= script);
}

/// The first action that fails ends the setup with its failure. The
/// actions before it were performed; none after it is asked for. So a
/// source that could not be opened is never written to, and nothing is
/// tried a second time.
pub proof fn lemma_failed_action_ends_setup(
    setup: SetupView,
    outcomes: Seq<Result<(), Error>>,
    failed: int,
)
    requires
        setup.remaining == setup.kind.setup_script(),
        0 <= failed < setup.kind.setup_script().len(),
        failed < outcomes.len(),
        forall|i: int| 0 <= i < failed ==> (#[trigger] outcomes[i]) is Ok,
        outcomes[failed] is Err,
    ensures
        setup.trace(outcomes).actions == setup.kind.setup_script().take(failed + 1),
        setup.trace(outcomes).result == Some(Err::<SourceKind, Error>(outcomes[failed]->Err_0)),
        failed == 0 ==> forall|i: int|
            0 <= i < setup.trace(outcomes).actions.len() ==> !(
            #[trigger] setup.trace(outcomes).actions[i]).writes(),
{
    reveal_with_fuel(SetupView::trace, 4);
    let script = setup.kind.setup_script();
    if failed >= 1 {
        assert(outcomes[0] is Ok);
        assert(outcomes.skip(1)[0] == outcomes[1]);
    }
    if failed >= 2 {
        assert(outcomes[1] is Ok);
        assert(outcomes.skip(1).skip(1)[0] == outcomes[2]);
    }
    assert(setup.trace(outcomes).actions =~= script.take(failed + 1));
}

/// Every wait starts by awaiting the readiness by which the source signals
/// pressure, and asks for two actions at most. A read is asked for only as
/// the second action, after readiness was reported: a wait that is given
/// up while it awaits readiness has read nothing.
pub proof fn lemma_wait_reads_only_when_ready(
    kind: SourceKind,
    engine: Engine,
    outcomes: Seq<Result<usize, Error>>,
)
    ensures
        1 <= Wait::begun(kind, engine).trace(outcomes).actions.len() <= 2,
        Wait::begun(kind, engine).trace(outcomes).actions[0] == (WaitAction::AwaitReadiness {
            readiness: kind.readiness(),
            clear: engine.clears_readiness(),
        }),
        forall|i: int|
            0 <= i < Wait::begun(kind, engine).trace(outcomes).actions.len() && (
            #[trigger] Wait::begun(kind, engine).trace(outcomes).actions[i]) is Drain ==> i == 1
                && outcomes.len() >= 1 && outcomes[0] is Ok,
{
    reveal_with_fuel(Wait::trace, 3);
}

/// A failure to wait for readiness ends the wait with that failure, before
/// anything is read, whatever the kind of the source.
pub proof fn lemma_failed_readiness_ends_wait(
    kind: SourceKind,
    engine: Engine,
    outcomes: Seq<Result<usize, Error>>,
)
    requires
        outcomes.len() >= 1,
        outcomes[0] is Err,
    ensures
        Wait::begun(kind, engine).trace(outcomes).actions == seq![
            WaitAction::AwaitReadiness {
                readiness: kind.readiness(),
                clear: engine.clears_readiness(),
            },
        ],
        Wait::begun(kind, engine).trace(outcomes).result == Some(
            Err::<(), Error>(outcomes[0]->Err_0),
        ),
{
    reveal_with_fuel(Wait::trace, 3);
}

/// A wait on a regular file consists of one action: it awaits priority
/// readiness. When that ends the wait is over, with success exactly if
/// readiness was reported. No read is asked for.
pub proof fn lemma_regular_file_wait_never_reads(
    engine: Engine,
    outcomes: Seq<Result<usize, Error>>,
)
    requires
        outcomes.len() >= 1,
    ensures
        Wait::begun(SourceKind::RegularFile, engine).trace(outcomes).actions == seq![
            WaitAction::AwaitReadiness {
                readiness: Readiness::Priority,
                clear: engine.clears_readiness(),
            },
        ],
        Wait::begun(SourceKind::RegularFile, engine).trace(outcomes).result == Some(
            match outcomes[0] {
                Ok(_) => Ok::<(), Error>(()),
                Err(e) => Err(e),
            },
        ),
{
    reveal_with_fuel(Wait::trace, 3);
}

/// A wait on a named pipe or a stream socket awaits readability. Once the
/// source is readable the wait asks for exactly one read, into a buffer of
/// at least 512 and at most 1024 bytes, and is over after it, whatever the
/// read comes to. It ends with success if the read gave any number of
/// bytes or found nothing to read, and with the failure of the read
/// otherwise.
pub proof fn lemma_stream_wait_drains_once(
    kind: SourceKind,
    engine: Engine,
    outcomes: Seq<Result<usize, Error>>,
)
    requires
        kind is NamedPipe || kind is StreamSocket,
        outcomes.len() >= 2,
        outcomes[0] is Ok,
    ensures
        Wait::begun(kind, engine).trace(outcomes).actions == seq![
            WaitAction::AwaitReadiness {
                readiness: Readiness::Readable,
                clear: engine.clears_readiness(),
            },
            WaitAction::Drain { len: engine.drain_len() },
        ],
        512 <= engine.drain_len() <= 1024,
        Wait::begun(kind, engine).trace(outcomes).result == Some(
            drain_result(outcomes[1], found_nothing(outcomes[1])),
        ),
        outcomes[1] is Ok || found_nothing(outcomes[1]) ==> Wait::begun(kind, engine).trace(
            outcomes,
        ).result == Some(Ok::<(), Error>(())),
        outcomes[1] is Err && !found_nothing(outcomes[1]) ==> Wait::begun(kind, engine).trace(
            outcomes,
        ).result == Some(Err::<(), Error>(outcomes[1]->Err_0)),
{
    reveal_with_fuel(Wait::trace, 3);
    assert(outcomes.skip(1)[0] == outcomes[1]);
    assert(Wait::begun(kind, engine).trace(outcomes).actions =~= seq![
        WaitAction::AwaitReadiness {
            readiness: Readiness::Readable,
            clear: engine.clears_readiness(),
        },
        WaitAction::Drain { len: engine.drain_len() },
    ]);
}

/// While the source keeps signalling, a wait never fails: if readiness is
/// reported and the drain read, where one is made, gives bytes or finds
/// nothing, the wait ends with success after at most two actions. This
/// holds of every wait, however many came before it, since a wait starts
/// from the kind of the source and the engine alone.
pub proof fn lemma_wait_under_pressure_succeeds(
    kind: SourceKind,
    engine: Engine,
    outcomes: Seq<Result<usize, Error>>,
)
    requires
        outcomes.len() >= 2,
        outcomes[0] is Ok,
        outcomes[1] is Ok || found_nothing(outcomes[1]),
    ensures
        Wait::begun(kind, engine).trace(outcomes).result == Some(Ok::<(), Error>(())),
        Wait::begun(kind, engine).trace(outcomes).actions.len() <= 2,
{
    reveal_with_fuel(Wait::trace, 3);
    assert(outcomes.skip(1)[0] == outcomes[1]);
}

} // verus!
