//! The trusted boundary around the pty: the outside types and the thin
//! wrappers through which the verified session logic reaches the operating
//! system's pseudo-terminal.

use vstd::prelude::*;

verus! {

#[verifier::external_type_specification]
#[verifier::external_body]
pub struct ExPtyPair(portable_pty::PtyPair);

#[verifier::external_type_specification]
#[verifier::external_body]
pub struct ExAnyhowError(anyhow::Error);

#[verifier::external_type_specification]
#[verifier::external_body]
pub struct ExIoError(std::io::Error);

/// The master end of a live pty, kept after the slave end has been handed to
/// the shell and closed. Opaque: `Box<dyn portable_pty::MasterPty + Send>`
/// cannot be declared to the verifier, so this struct holds it unread.
#[verifier::external_body]
pub struct PtyMaster {
    inner: Box<dyn portable_pty::MasterPty + Send>,
}

/// The handle to the shell process spawned into the pty. Opaque:
/// `Box<dyn portable_pty::Child + Send + Sync>` cannot be declared to the
/// verifier, so this struct holds it unread.
#[verifier::external_body]
pub struct ChildHandle {
    inner: Box<dyn portable_pty::Child + Send + Sync>,
}

/// The exclusive write handle onto the pty master; bytes written here become
/// the shell's input. Opaque: `Box<dyn std::io::Write + Send>` cannot be
/// declared to the verifier, so this struct holds it unread.
#[verifier::external_body]
pub struct PtyWriter {
    inner: Box<dyn std::io::Write + Send>,
}

/// A read handle onto the pty master; the shell's output arrives here.
/// Opaque: `Box<dyn std::io::Read + Send>` cannot be declared to the
/// verifier, so this struct holds it unread.
#[verifier::external_body]
pub struct PtyReader {
    inner: Box<dyn std::io::Read + Send>,
}

/// Relies on portable_pty::native_pty_system and PtySystem::openpty: allocates
/// a fresh master/slave pty pair whose kernel window size is rows x cols
/// character cells (pixel dimensions unused, zero).
#[verifier::external_body]
pub(crate) fn open_pty(rows: u16, cols: u16) -> (r: Result<portable_pty::PtyPair, anyhow::Error>) {
    portable_pty::native_pty_system().openpty(portable_pty::PtySize {
        rows,
        cols,
        pixel_width: 0,
        pixel_height: 0,
    })
}

/// Relies on portable_pty::SlavePty::spawn_command (with CommandBuilder::new):
/// launches the interactive shell with the pty's slave end as its controlling
/// terminal and returns the handle of the spawned process.
#[verifier::external_body]
pub(crate) fn spawn_shell(pair: &portable_pty::PtyPair) -> (r: Result<ChildHandle, anyhow::Error>) {
    match pair.slave.spawn_command(portable_pty::CommandBuilder::new("bash")) {
        Ok(child) => Ok(ChildHandle { inner: child }),
        Err(e) => Err(e),
    }
}

/// Relies on portable_pty::MasterPty::try_clone_reader: duplicates a read
/// handle on the master end; the shell's output is readable through it.
#[verifier::external_body]
pub(crate) fn clone_reader(pair: &portable_pty::PtyPair) -> (r: Result<PtyReader, anyhow::Error>) {
    match pair.master.try_clone_reader() {
        Ok(reader) => Ok(PtyReader { inner: reader }),
        Err(e) => Err(e),
    }
}

/// Relies on portable_pty::MasterPty::take_writer: takes the single write
/// handle on the master end (valid at most once per pair); writing to it
/// delivers input to the shell.
#[verifier::external_body]
pub(crate) fn take_writer(pair: &portable_pty::PtyPair) -> (r: Result<PtyWriter, anyhow::Error>) {
    match pair.master.take_writer() {
        Ok(writer) => Ok(PtyWriter { inner: writer }),
        Err(e) => Err(e),
    }
}

/// Keeps the master end of the pair and drops the slave end. Closing the
/// parent's slave handle lets end-of-stream reach the reader once the shell
/// exits and releases its own slave descriptors.
#[verifier::external_body]
pub(crate) fn into_master(pair: portable_pty::PtyPair) -> (r: PtyMaster) {
    PtyMaster { inner: pair.master }
}

/// Relies on portable_pty::MasterPty::resize: updates the kernel's window
/// size for the pty to rows x cols and signals the shell of the change.
#[verifier::external_body]
pub(crate) fn resize_master(master: &PtyMaster, rows: u16, cols: u16) -> (r: Result<
    (),
    anyhow::Error,
>) {
    master.inner.resize(portable_pty::PtySize {
        rows,
        cols,
        pixel_width: 0,
        pixel_height: 0,
    })
}

/// Relies on std::io::Write::write_all: writes the whole buffer to the pty
/// master, or reports the first error.
#[verifier::external_body]
pub(crate) fn write_all_bytes(writer: &mut PtyWriter, data: &[u8]) -> (r: Result<
    (),
    std::io::Error,
>) {
    writer.inner.write_all(data)
}

/// Relies on std::io::Write::flush: forces buffered input out to the shell.
#[verifier::external_body]
pub(crate) fn flush_writer(writer: &mut PtyWriter) -> (r: Result<(), std::io::Error>) {
    writer.inner.flush()
}

/// Relies on std::io::Read::read: blocks for the next chunk of shell output.
/// Per the documentation, at most 4096 bytes are returned, and a successful
/// empty chunk means the stream has reached its end.
#[verifier::external_body]
pub(crate) fn read_chunk(reader: &mut PtyReader) -> (r: Result<Vec<u8>, std::io::Error>)
    ensures
        r matches Ok(chunk) ==> chunk@.len() <= 4096,
{
    let mut buf = vec![0u8; 4096];
    match reader.inner.read(&mut buf) {
        Ok(n) => {
            buf.truncate(n);
            Ok(buf)
        },
        Err(e) => Err(e),
    }
}

} // verus!
