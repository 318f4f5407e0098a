//! The manifest as an entry of a zip archive.

use crate::bundle::{document_bytes, BundleConfig, BundleConfigView};
use crate::decode::{decode_document, hands_on};
use crate::error::{ArchiveError, BundleError, BundleResult, DecodeErrorView};
use crate::ini::parsed_lines;
use crate::laws::comes_back;
use std::io::{Cursor, Read, Write};
use vstd::prelude::*;
use zip::read::ZipArchive;
use zip::result::ZipError;
use zip::write::{FileOptions, ZipWriter};

verus! {

/// `std::io::Cursor`, the reader over a buffer in memory.
#[verifier::external_type_specification]
#[verifier::external_body]
#[verifier::reject_recursive_types(T)]
pub struct ExCursor<T>(Cursor<T>);

/// `zip::read::ZipArchive`, an archive that was opened for reading.
#[verifier::external_type_specification]
#[verifier::external_body]
#[verifier::reject_recursive_types(R)]
pub struct ExZipArchive<R>(ZipArchive<R>);

/// A zip archive in the making, in memory: a `zip::write::ZipWriter` over a
/// buffer. What it holds is spoken of through [`writer_entries`].
#[verifier::external_body]
pub struct ArchiveWriter {
    inner: ZipWriter<Cursor<Vec<u8>>>,
}

/// `zip::result::ZipError`, the error of the zip library.
#[verifier::external_type_specification]
#[verifier::external_body]
pub struct ExZipError(ZipError);

/// The name of the entry that holds the manifest.
pub const MANIFEST_ENTRY: &'static str = "bundle.ini";

/// The name of the entry that holds the manifest.
pub open spec fn manifest_entry() -> Seq<char> {
    "bundle.ini"@
}

/// The entries of an archive in memory that can be read, each under its name
/// with the bytes that reading it gives.
pub uninterp spec fn archive_entries(archive: ZipArchive<Cursor<Vec<u8>>>) -> Map<Seq<char>, Seq<u8>>;

/// The names in the directory of an archive in memory.
pub uninterp spec fn entry_names(archive: ZipArchive<Cursor<Vec<u8>>>) -> Set<Seq<char>>;

/// What the bytes of a zip file hold when they are opened as an archive: the
/// names in its directory and its readable entries, or `None` where the zip
/// library does not take the bytes for an archive.
pub uninterp spec fn zip_contents(data: Seq<u8>) -> Option<
    (Set<Seq<char>>, Map<Seq<char>, Seq<u8>>),
>;

/// The entries that were begun in an archive in the making, in their order,
/// each with its name and the bytes written into it so far.
pub uninterp spec fn writer_entries(writer: ArchiveWriter) -> Seq<(Seq<char>, Seq<u8>)>;

/// What beginning an entry of the name makes of an archive in the making:
/// `Ok` with the archive that has the entry, or `Err` with the archive as the
/// zip library leaves it where it cannot begin the entry.
pub uninterp spec fn begun(writer: ArchiveWriter, name: Seq<char>) -> Result<
    ArchiveWriter,
    ArchiveWriter,
>;

/// What writing the bytes into the entry begun last makes of an archive in
/// the making: `Ok` with the archive that has taken the bytes, or `Err` with
/// the archive as the zip library leaves it where the writing fails.
pub uninterp spec fn filled(writer: ArchiveWriter, data: Seq<u8>) -> Result<
    ArchiveWriter,
    ArchiveWriter,
>;

/// The bytes of the zip file that ending an archive in the making gives, or
/// `None` where the zip library fails to end it.
pub uninterp spec fn finished_bytes(writer: ArchiveWriter) -> Option<Seq<u8>>;

/// Whether an archive in the making takes no more entries: the zip library
/// refuses to begin an entry of any name in it.
pub open spec fn closed(writer: ArchiveWriter) -> bool {
    forall|name: Seq<char>| #[trigger] begun(writer, name) is Err
}

/// Opens the bytes of a zip file with `ZipArchive::new`. The contract names
/// the outcome: the directory and the entries of the archive that came back,
/// or none where the library gave an error. That error is handed on by its
/// variant, and it is never the one for an entry that was not found, which
/// opening does not give.
#[verifier::external_body]
fn open_archive(data: Vec<u8>) -> (r: Result<ZipArchive<Cursor<Vec<u8>>>, ArchiveError>)
    ensures
        match r {
            Ok(archive) => zip_contents(data@) == Some(
                (entry_names(archive), archive_entries(archive)),
            ),
            Err(e) => zip_contents(data@) is None && !(e is EntryNotFound),
        },
{
    match ZipArchive::new(Cursor::new(data)) {
        Ok(archive) => Ok(archive),
        Err(ZipError::Io(e)) => Err(ArchiveError::Io(e)),
        Err(ZipError::UnsupportedArchive(detail)) => Err(ArchiveError::UnsupportedArchive(detail)),
        Err(ZipError::InvalidArchive(detail)) => Err(ArchiveError::InvalidArchive(detail)),
        Err(ZipError::FileNotFound) => Err(ArchiveError::EntryNotFound),
    }
}

/// Looks the entry up with `ZipArchive::by_name_decrypt`, with an empty
/// password, and reads it to its end. The bytes come back where all of that
/// succeeds, and that is what `archive_entries` holds under the name. The
/// library reports that the entry was not found exactly where the directory
/// has no such name; its other errors are handed on by their variants, an
/// entry that wants another password as unsupported. Reading changes neither
/// the directory nor an entry.
#[verifier::external_body]
fn read_entry(archive: &mut ZipArchive<Cursor<Vec<u8>>>, name: &str) -> (r: Result<
    Vec<u8>,
    ArchiveError,
>)
    ensures
        archive_entries(*final(archive)) == archive_entries(*old(archive)),
        entry_names(*final(archive)) == entry_names(*old(archive)),
        match r {
            Ok(data) => {
                &&& entry_names(*old(archive)).contains(name@)
                &&& archive_entries(*old(archive)).contains_key(name@)
                &&& archive_entries(*old(archive))[name@] == data@
            },
            Err(e) => {
                &&& !archive_entries(*old(archive)).contains_key(name@)
                &&& e is EntryNotFound <==> !entry_names(*old(archive)).contains(name@)
            },
        },
{
    let mut data = Vec::new();
    match archive.by_name_decrypt(name, b"") {
        Ok(Ok(mut file)) => file.read_to_end(&mut data).map(|_| data).map_err(ArchiveError::Io),
        Ok(Err(_)) => Err(ArchiveError::UnsupportedArchive(ZipError::PASSWORD_REQUIRED)),
        Err(ZipError::Io(e)) => Err(ArchiveError::Io(e)),
        Err(ZipError::InvalidArchive(detail)) => Err(ArchiveError::InvalidArchive(detail)),
        Err(ZipError::UnsupportedArchive(detail)) => Err(ArchiveError::UnsupportedArchive(detail)),
        Err(ZipError::FileNotFound) => Err(ArchiveError::EntryNotFound),
    }
}

/// Tells the variants of `zip::result::ZipError` apart.
#[verifier::external_body]
fn archive_failure(e: ZipError) -> ArchiveError {
    match e {
        ZipError::Io(e) => ArchiveError::Io(e),
        ZipError::InvalidArchive(detail) => ArchiveError::InvalidArchive(detail),
        ZipError::UnsupportedArchive(detail) => ArchiveError::UnsupportedArchive(detail),
        ZipError::FileNotFound => ArchiveError::EntryNotFound,
    }
}

/// Makes an archive with `ZipWriter::new` over an empty buffer: no entry has
/// been begun in it.
#[verifier::external_body]
fn new_writer() -> (writer: ArchiveWriter)
    ensures
        writer_entries(writer) == Seq::<(Seq<char>, Seq<u8>)>::empty(),
{
    ArchiveWriter { inner: ZipWriter::new(Cursor::new(Vec::new())) }
}

/// Ends the archive with `ZipWriter::finish` and hands out the buffer that it
/// was written into. The contract names the outcome, which the state of the
/// archive decides: the bytes of the zip file, or none where the library gave
/// an error. Where it succeeds the library closes the archive, and then it
/// refuses to begin any entry.
#[verifier::external_body]
fn finish_writer(writer: &mut ArchiveWriter) -> (r: Result<Vec<u8>, ZipError>)
    ensures
        match r {
            Ok(data) => finished_bytes(*old(writer)) == Some(data@) && closed(*final(writer)),
            Err(_) => finished_bytes(*old(writer)) is None,
        },
{
    writer.inner.finish().map(Cursor::into_inner)
}

/// Begins an entry with `ZipWriter::start_file` and the zip library's default
/// options. The contract names the outcome, which the archive and the name
/// decide. Where the library succeeds, the archive has one more entry, of
/// that name and with nothing in it yet.
#[verifier::external_body]
fn start_entry(writer: &mut ArchiveWriter, name: &str) -> (r: Result<(), ZipError>)
    ensures
        match r {
            Ok(_) => {
                &&& begun(*old(writer), name@) == Ok::<ArchiveWriter, ArchiveWriter>(
                    *final(writer),
                )
                &&& writer_entries(*final(writer)) == writer_entries(*old(writer)).push(
                    (name@, Seq::empty()),
                )
            },
            Err(_) => begun(*old(writer), name@) == Err::<ArchiveWriter, ArchiveWriter>(
                *final(writer),
            ),
        },
{
    writer.inner.start_file(name, FileOptions::default())
}

/// Writes the bytes into the entry that was begun last, with `write_all` of
/// the `Write` that `ZipWriter` has. The contract names the outcome, which
/// the archive and the bytes decide. Where the writing succeeds, the bytes
/// stand at the end of that entry and nothing else has changed. An archive
/// without an entry is left out: there `write_all` succeeds on no bytes
/// without an entry to write into.
#[verifier::external_body]
fn write_entry(writer: &mut ArchiveWriter, data: &[u8]) -> (r: Result<(), std::io::Error>)
    requires
        writer_entries(*old(writer)).len() > 0,
    ensures
        match r {
            Ok(_) => {
                &&& filled(*old(writer), data@) == Ok::<ArchiveWriter, ArchiveWriter>(
                    *final(writer),
                )
                &&& writer_entries(*final(writer)) == writer_entries(*old(writer)).drop_last().push(
                    (
                        writer_entries(*old(writer)).last().0,
                        writer_entries(*old(writer)).last().1 + data@,
                    ),
                )
            },
            Err(_) => filled(*old(writer), data@) == Err::<ArchiveWriter, ArchiveWriter>(
                *final(writer),
            ),
        },
{
    writer.inner.write_all(data)
}

/// What reading the manifest from the entries of an archive gives, or `None`
/// where no entry of the manifest's name can be read.
pub open spec fn manifest_of(entries: Map<Seq<char>, Seq<u8>>) -> Option<
    Result<BundleConfigView, DecodeErrorView>,
> {
    if entries.contains_key(manifest_entry()) {
        Some(decode_document(parsed_lines(entries[manifest_entry()])))
    } else {
        None
    }
}

/// Whether the entries of an archive hold, under the manifest's name, the
/// bytes of the manifest.
pub open spec fn holds_manifest(entries: Map<Seq<char>, Seq<u8>>, config: BundleConfigView) -> bool {
    entries.contains_key(manifest_entry()) && entries[manifest_entry()] == document_bytes(config)
}

/// Whether the bytes of a zip file are an archive that holds, under the
/// manifest's name, the bytes of the manifest.
pub open spec fn zip_holds_manifest(data: Seq<u8>, config: BundleConfigView) -> bool {
    match zip_contents(data) {
        Some((_, entries)) => holds_manifest(entries, config),
        None => false,
    }
}

/// Whether `r` hands on what the archive gave for the manifest: what reading
/// it gave, or an error of the archive where there was nothing to read.
pub open spec fn hands_on_entry(
    r: BundleResult<BundleConfig>,
    given: Option<Result<BundleConfigView, DecodeErrorView>>,
) -> bool {
    match given {
        Some(read) => hands_on(r, read),
        None => r matches Err(BundleError::Zip(_)),
    }
}

/// Whether `r` and `after` are how adding an entry with the name and the
/// bytes to the archive `before` ends. Where the entry cannot be begun, the
/// error is one of the archive and the archive is as that attempt left it:
/// nothing is written after it. Where the entry is begun and the bytes cannot
/// be written, the error is one of writing. Where both succeed, so does the
/// adding, and the archive has that one entry more.
pub open spec fn added(
    before: ArchiveWriter,
    name: Seq<char>,
    data: Seq<u8>,
    r: BundleResult<()>,
    after: ArchiveWriter,
) -> bool {
    match begun(before, name) {
        Err(left) => r matches Err(BundleError::Zip(_)) && after == left,
        Ok(open) => match filled(open, data) {
            Err(left) => r matches Err(BundleError::Ser(_)) && after == left,
            Ok(done) => {
                &&& r is Ok
                &&& after == done
                &&& writer_entries(done) == writer_entries(before).push((name, data))
            },
        },
    }
}

impl ArchiveWriter {
    /// An archive without entries.
    pub fn new() -> (writer: ArchiveWriter)
        ensures
            writer_entries(writer) == Seq::<(Seq<char>, Seq<u8>)>::empty(),
    {
        new_writer()
    }

    /// Adds an entry of the given name that holds the given bytes. It
    /// succeeds exactly where the zip library begins the entry and takes the
    /// bytes, and the archive then has that one entry more. A failure to
    /// begin the entry is an error of the archive, and nothing is written
    /// after it; a failure to write is an error of writing.
    pub fn add_entry(&mut self, name: &str, data: &[u8]) -> (r: BundleResult<()>)
        ensures
            added(*old(self), name@, data@, r, *final(self)),
    {
        match start_entry(self, name) {
            Ok(_) => {},
            Err(e) => {
                return Err(BundleError::Zip(archive_failure(e)));
            },
        }
        match write_entry(self, data) {
            Ok(_) => {},
            Err(e) => {
                return Err(BundleError::Ser(e));
            },
        }
        proof {
            let begun = writer_entries(*old(self)).push((name@, Seq::<u8>::empty()));
            assert(begun.drop_last() =~= writer_entries(*old(self)));
            assert(Seq::<u8>::empty() + data@ =~= data@);
        }
        Ok(())
    }

    /// Ends the archive and hands out the bytes of the zip file that it has
    /// become; where the zip library cannot end it, the error is one of the
    /// archive. An archive that was ended takes no more entries.
    pub fn finish(&mut self) -> (r: BundleResult<Vec<u8>>)
        ensures
            match r {
                Ok(data) => finished_bytes(*old(self)) == Some(data@) && closed(*final(self)),
                Err(e) => e is Zip && finished_bytes(*old(self)) is None,
            },
    {
        match finish_writer(self) {
            Ok(data) => Ok(data),
            Err(e) => Err(BundleError::Zip(archive_failure(e))),
        }
    }
}

impl BundleConfig {
    /// Reads the manifest from the entry `bundle.ini` of the archive. Where
    /// the entry can be read, the result is that of [`BundleConfig::from_read`]
    /// on its bytes; where it cannot, the error is one of the archive, and it
    /// says that the entry was not found exactly where the archive has no
    /// entry of that name. So an archive whose entry holds the bytes written
    /// for a manifest gives that manifest back, provided the written values
    /// of the manifest are plain and its tags are faithful.
    pub fn from_archive(archive: &mut ZipArchive<Cursor<Vec<u8>>>) -> (r: BundleResult<BundleConfig>)
        ensures
            archive_entries(*final(archive)) == archive_entries(*old(archive)),
            entry_names(*final(archive)) == entry_names(*old(archive)),
            hands_on_entry(r, manifest_of(archive_entries(*old(archive)))),
            r matches Err(BundleError::Zip(ArchiveError::EntryNotFound)) <==> !entry_names(
                *old(archive),
            ).contains(manifest_entry()),
            forall|config: BundleConfigView|
                comes_back(config) && #[trigger] holds_manifest(
                    archive_entries(*old(archive)),
                    config,
                ) ==> hands_on(r, Ok(config)),
    {
        match read_entry(archive, MANIFEST_ENTRY) {
            Ok(data) => BundleConfig::from_read(data.as_slice()),
            Err(e) => Err(BundleError::Zip(e)),
        }
    }

    /// Reads the manifest from the bytes of a zip file: the bytes are opened
    /// as an archive, and the manifest is read from it as by
    /// [`BundleConfig::from_archive`]. Bytes that are no archive give an
    /// error of the archive, and never the one for an entry that was not
    /// found: that one comes exactly where the bytes are an archive without
    /// an entry of the manifest's name.
    pub fn from_zip(data: Vec<u8>) -> (r: BundleResult<BundleConfig>)
        ensures
            match zip_contents(data@) {
                Some((names, entries)) => {
                    &&& hands_on_entry(r, manifest_of(entries))
                    &&& (r matches Err(BundleError::Zip(ArchiveError::EntryNotFound)))
                        <==> !names.contains(manifest_entry())
                },
                None => r matches Err(BundleError::Zip(e)) && !(e is EntryNotFound),
            },
            forall|config: BundleConfigView|
                comes_back(config) && #[trigger] zip_holds_manifest(data@, config) ==> hands_on(
                    r,
                    Ok(config),
                ),
    {
        match open_archive(data) {
            Ok(archive) => {
                let mut archive = archive;
                BundleConfig::from_archive(&mut archive)
            },
            Err(e) => Err(BundleError::Zip(e)),
        }
    }

    /// Writes the manifest as the entry `bundle.ini` of the archive in the
    /// making, as [`ArchiveWriter::add_entry`] adds the bytes of the manifest
    /// under that name. The manifest itself stays as it is.
    pub fn to_archive(&self, writer: &mut ArchiveWriter) -> (r: BundleResult<()>)
        ensures
            added(*old(writer), manifest_entry(), document_bytes(self@), r, *final(writer)),
    {
        let mut data: Vec<u8> = Vec::new();
        match self.to_write(&mut data) {
            Ok(_) => {},
            Err(e) => {
                return Err(e);
            },
        }
        proof {
            assert(data@ =~= document_bytes(self@));
        }
        writer.add_entry(MANIFEST_ENTRY, data.as_slice())
    }
}

} // verus!
