//! Decisions of the module control loop. The host sends a command word,
//! CBOR-encoded, then the command's arguments; every command but
//! `terminate` is acknowledged with the word `done`. The loop itself, which
//! reads and writes the host channel, runs outside this library.

use vstd::prelude::*;

verus! {

/// The text that serde_cbor reads as a `String` from the CBOR bytes `b`,
/// or `None` when it refuses them.
pub uninterp spec fn cbor_text_of(b: Seq<u8>) -> Option<Seq<char>>;

/// The CBOR bytes that serde_cbor writes for the text `s`.
pub uninterp spec fn cbor_of_text(s: Seq<char>) -> Seq<u8>;

/// Relies on `serde_cbor::from_slice::<String>`: it decodes one CBOR text
/// string, and its result depends on the bytes alone.
#[verifier::external_body]
fn read_text(bytes: &[u8]) -> (r: Option<String>)
    ensures
        r is None <==> cbor_text_of(bytes@) is None,
        r matches Some(s) ==> cbor_text_of(bytes@) == Some(s@),
{
    serde_cbor::from_slice::<String>(bytes).ok()
}

/// Relies on `serde_cbor::to_vec` on a `String`: writing text into a `Vec`
/// never fails, and the bytes depend on the text alone.
#[verifier::external_body]
fn write_text(s: &String) -> (r: Option<Vec<u8>>)
    ensures
        r is Some,
        r matches Some(v) ==> v@ == cbor_of_text(s@),
{
    serde_cbor::to_vec(s).ok()
}

/// The configuration of one module instance, from the host.
pub struct Config {
    /// Kind of the module; one per binary.
    pub kind: String,
    /// Id of this instance in the application.
    pub id: String,
    /// Key of this instance inside its process.
    pub key: crate::ids::InstanceKey,
    /// Arguments given to the module.
    pub args: Vec<u8>,
}

/// A command of the host.
#[derive(PartialEq, Eq, Structural, Debug, Clone, Copy)]
pub enum ControlCommand {
    /// Create a port to a peer.
    Link,
    /// Tear a port down.
    Unlink,
    /// Leave the loop.
    Terminate,
    /// Produce the module's bootstrap handles.
    HandleExport,
    /// Take in a peer's bootstrap handles.
    HandleImport,
    /// Run the module's debug routine.
    Debug,
}

/// The transport of a new port.
#[derive(PartialEq, Eq, Structural, Debug, Clone, Copy)]
pub enum TransportKind {
    DomainSocket,
    Intra,
}

/// Why a control message was refused. Each of these is fatal to the module.
#[derive(PartialEq, Eq, Structural, Debug, Clone, Copy)]
pub enum ControlError {
    /// The bytes are not a CBOR text string.
    Decode,
    /// The word names no command.
    UnknownCommand,
    /// The word names no transport.
    UnknownTransport,
}

/// The command that the word `w` names.
pub open spec fn command_of(w: Seq<char>) -> Option<ControlCommand> {
    if w == "link"@ {
        Some(ControlCommand::Link)
    } else if w == "unlink"@ {
        Some(ControlCommand::Unlink)
    } else if w == "terminate"@ {
        Some(ControlCommand::Terminate)
    } else if w == "handle_export"@ {
        Some(ControlCommand::HandleExport)
    } else if w == "handle_import"@ {
        Some(ControlCommand::HandleImport)
    } else if w == "debug"@ {
        Some(ControlCommand::Debug)
    } else {
        None
    }
}

/// The transport that the word `w` names.
pub open spec fn transport_of(w: Seq<char>) -> Option<TransportKind> {
    if w == "DomainSocket"@ {
        Some(TransportKind::DomainSocket)
    } else if w == "Intra"@ {
        Some(TransportKind::Intra)
    } else {
        None
    }
}

/// Whether `word` is the text `lit`.
fn text_is(word: &String, lit: &str) -> (r: bool)
    ensures
        r == (word@ == lit@),
{
    let owned = lit.to_owned();
    *word == owned
}

/// Whether `word` names a command.
pub fn is_command(word: &String) -> (r: bool)
    ensures
        r == command_of(word@) is Some,
{
    text_is(word, "link") || text_is(word, "unlink") || text_is(word, "terminate") || text_is(word, "handle_export")
        || text_is(word, "handle_import") || text_is(word, "debug")
}

/// Whether `word` names a transport.
pub fn is_transport(word: &String) -> (r: bool)
    ensures
        r == transport_of(word@) is Some,
{
    text_is(word, "DomainSocket") || text_is(word, "Intra")
}

/// The command that `word` names. A word that names no command is a fatal
/// protocol violation and left out: callers test `is_command` first.
pub fn parse_command(word: &String) -> (r: ControlCommand)
    requires
        command_of(word@) is Some,
    ensures
        Some(r) == command_of(word@),
{
    if text_is(word, "link") {
        ControlCommand::Link
    } else if text_is(word, "unlink") {
        ControlCommand::Unlink
    } else if text_is(word, "terminate") {
        ControlCommand::Terminate
    } else if text_is(word, "handle_export") {
        ControlCommand::HandleExport
    } else if text_is(word, "handle_import") {
        ControlCommand::HandleImport
    } else {
        ControlCommand::Debug
    }
}

/// The transport that `word` names. A word that names no transport is a
/// fatal protocol violation and left out: callers test `is_transport` first.
pub fn parse_transport(word: &String) -> (r: TransportKind)
    requires
        transport_of(word@) is Some,
    ensures
        Some(r) == transport_of(word@),
{
    if text_is(word, "DomainSocket") {
        TransportKind::DomainSocket
    } else {
        TransportKind::Intra
    }
}

/// The word in CBOR-encoded bytes from the host, or `None` when the bytes
/// hold no text.
pub fn decode_word(bytes: &[u8]) -> (r: Option<String>)
    ensures
        r is None <==> cbor_text_of(bytes@) is None,
        r matches Some(w) ==> cbor_text_of(bytes@) == Some(w@),
{
    read_text(bytes)
}

/// The command in a CBOR-encoded command word from the host. Bytes that
/// hold no command word are a fatal protocol violation and left out:
/// callers test `check_command` first.
pub fn decode_command(message: &[u8]) -> (r: ControlCommand)
    requires
        cbor_text_of(message@) matches Some(w) && command_of(w) is Some,
    ensures
        Some(r) == command_of(cbor_text_of(message@)->0),
{
    match read_text(message) {
        Some(word) => parse_command(&word),
        None => {
            assert(false);
            ControlCommand::Terminate
        },
    }
}

/// Whether `message` holds a command word, and if not, why.
pub fn check_command(message: &[u8]) -> (r: Result<(), ControlError>)
    ensures
        cbor_text_of(message@) is None ==> r == Err::<(), ControlError>(ControlError::Decode),
        cbor_text_of(message@) matches Some(w) ==> r == if command_of(w) is Some {
            Ok::<(), ControlError>(())
        } else {
            Err(ControlError::UnknownCommand)
        },
{
    match read_text(message) {
        None => Err(ControlError::Decode),
        Some(word) => if is_command(&word) {
            Ok(())
        } else {
            Err(ControlError::UnknownCommand)
        },
    }
}

/// The command in `message`, read after testing it: the bytes must hold a
/// command word, or the host has broken the protocol.
pub fn read_command(message: &[u8]) -> (r: Result<ControlCommand, ControlError>)
    ensures
        cbor_text_of(message@) is None ==> r == Err::<ControlCommand, ControlError>(ControlError::Decode),
        cbor_text_of(message@) matches Some(w) ==> r == match command_of(w) {
            None => Err(ControlError::UnknownCommand),
            Some(c) => Ok(c),
        },
{
    match check_command(message) {
        Err(e) => Err(e),
        Ok(()) => Ok(decode_command(message)),
    }
}

/// The transport in the CBOR-encoded transport word of a link command.
/// Bytes that name no transport are a fatal protocol violation and left
/// out: callers test `check_transport` first.
pub fn decode_transport(ipc_type: &[u8]) -> (r: TransportKind)
    requires
        cbor_text_of(ipc_type@) matches Some(w) && transport_of(w) is Some,
    ensures
        Some(r) == transport_of(cbor_text_of(ipc_type@)->0),
{
    match read_text(ipc_type) {
        Some(word) => parse_transport(&word),
        None => {
            assert(false);
            TransportKind::Intra
        },
    }
}

/// Whether `ipc_type` names a transport, and if not, why.
pub fn check_transport(ipc_type: &[u8]) -> (r: Result<TransportKind, ControlError>)
    ensures
        cbor_text_of(ipc_type@) is None ==> r == Err::<TransportKind, ControlError>(ControlError::Decode),
        cbor_text_of(ipc_type@) matches Some(w) ==> r == match transport_of(w) {
            None => Err(ControlError::UnknownTransport),
            Some(t) => Ok(t),
        },
{
    match read_text(ipc_type) {
        None => Err(ControlError::Decode),
        Some(word) => if is_transport(&word) {
            Ok(decode_transport(ipc_type))
        } else {
            Err(ControlError::UnknownTransport)
        },
    }
}

/// Whether the loop answers `command` with `done`: every command but
/// `terminate` is acknowledged.
pub fn acknowledged(command: ControlCommand) -> (r: bool)
    ensures
        r == (command != ControlCommand::Terminate),
{
    !matches!(command, ControlCommand::Terminate)
}

/// The acknowledgement sent after a command: the word `done`, CBOR-encoded.
pub fn done_message() -> (r: Vec<u8>)
    ensures
        r@ == cbor_of_text("done"@),
{
    let word = "done".to_owned();
    match write_text(&word) {
        Some(v) => v,
        None => {
            assert(false);
            Vec::new()
        },
    }
}

} // verus!
