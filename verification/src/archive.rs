//! The build context as an archive: the files that capabilities contribute
//! and the composed build instructions, packed for the container engine.

use vstd::prelude::*;
use crate::aspects::{ContainerFile, ContainerFileView};
use crate::error::{Error, ErrorView};

verus! {

/// An archive under construction: a `tar::Builder` that writes to memory.
#[verifier::external_body]
pub struct Archive {
    builder: tar::Builder<Vec<u8>>,
}

/// The entries that an archive under construction holds, each with the
/// path as the archive stores it and its bytes, in the order in which they
/// were appended.
pub uninterp spec fn archive_entries(archive: Archive) -> Seq<ContainerFileView>;

/// What `tar::Header::set_path` makes of `path`: the form in which the
/// archive stores the path, which leaves out `.` components and repeated
/// separators, where it takes the path; nothing where it refuses the path.
pub uninterp spec fn archive_stored_path(path: Seq<char>) -> Option<Seq<char>>;

/// The bytes that `tar::Builder::into_inner` hands out for an archive with
/// the given entries.
pub uninterp spec fn archive_bytes(entries: Seq<ContainerFileView>) -> Seq<u8>;

/// Calls `tar::Builder::new` on an empty buffer: an archive without
/// entries.
#[verifier::external_body]
fn new_archive() -> (archive: Archive)
    ensures
        archive_entries(archive) == Seq::<ContainerFileView>::empty(),
{
    Archive { builder: tar::Builder::new(Vec::new()) }
}

/// Calls `tar::Builder::append` with a GNU header made by
/// `tar::Header::new_gnu`, `set_path`, `set_size` and `set_cksum` for the
/// given path and bytes.
///
/// `set_path` decides whether the entry is taken: on its refusal nothing is
/// written and the error is handed back. Where it takes the path, header
/// and bytes are appended to the buffer in memory, which cannot fail, so
/// the entry is the last of the archive afterwards, under the path in the
/// form that `set_path` stored.
#[verifier::external_body]
fn append_entry(archive: &mut Archive, path: &str, contents: &[u8]) -> (r: Result<
    (),
    std::io::Error,
>)
    ensures
        r is Ok <==> archive_stored_path(path@) is Some,
        r is Ok ==> archive_entries(*final(archive)) == archive_entries(*old(archive)).push(
            ContainerFileView {
                container_path: archive_stored_path(path@)->0,
                contents: contents@,
            },
        ),
        r is Err ==> archive_entries(*final(archive)) == archive_entries(*old(archive)),
{
    let mut header = tar::Header::new_gnu();
    header.set_path(path)?;
    header.set_size(contents.len() as u64);
    header.set_cksum();
    archive.builder.append(&header, contents)
}

/// Calls `tar::Builder::into_inner`, which closes the archive and hands
/// out the buffer. Closing appends the end marker to the buffer in memory,
/// which cannot fail. The contract names the bytes.
#[verifier::external_body]
fn finish_archive(archive: Archive) -> (r: Result<Vec<u8>, std::io::Error>)
    ensures
        r is Ok,
        r->Ok_0@ == archive_bytes(archive_entries(archive)),
{
    archive.builder.into_inner()
}

/// Whether the archive builder takes `path` as the path of an entry.
pub open spec fn archive_path_accepted(path: Seq<char>) -> bool {
    archive_stored_path(path) is Some
}

/// Whether the archive builder takes the path of every file.
pub open spec fn all_paths_accepted(files: Seq<ContainerFileView>) -> bool {
    forall|i: int|
        0 <= i < files.len() ==> archive_path_accepted((#[trigger] files[i]).container_path)
}

/// A file as the archive holds it: under its path in the stored form.
pub open spec fn stored_file(file: ContainerFileView) -> ContainerFileView {
    ContainerFileView {
        container_path: archive_stored_path(file.container_path)->0,
        contents: file.contents,
    }
}

/// The files as the archive holds them, in their order.
pub open spec fn stored_files(files: Seq<ContainerFileView>) -> Seq<ContainerFileView> {
    Seq::new(files.len(), |i: int| stored_file(files[i]))
}

/// The archive of the files: its bytes where the archive builder takes the
/// path of every file, else the error of a refused file.
pub open spec fn packed(files: Seq<ContainerFileView>) -> Result<Seq<u8>, ErrorView> {
    if all_paths_accepted(files) {
        Ok(archive_bytes(stored_files(files)))
    } else {
        Err(ErrorView::FailedToAddFileToArchive)
    }
}

/// The view of a result that holds bytes.
pub open spec fn bytes_result_view(r: Result<Vec<u8>, Error>) -> Result<Seq<u8>, ErrorView> {
    match r {
        Ok(bytes) => Ok(bytes@),
        Err(e) => Err(e.deep_view()),
    }
}

/// Packs the files into an archive, in their order.
///
/// Succeeds exactly where the archive builder takes the path of every
/// file, and then gives the bytes of the archive that holds exactly these
/// files, each under its stored path. Fails at the first file whose path
/// the builder refuses.
pub fn pack(files: &Vec<ContainerFile>) -> (r: Result<Vec<u8>, Error>)
    ensures
        bytes_result_view(r) == packed(files.deep_view()),
{
    let ghost fv = files.deep_view();
    let mut archive = new_archive();
    let mut i: usize = 0;
    proof {
        assert(stored_files(fv).take(0) =~= Seq::<ContainerFileView>::empty());
    }
    while i < files.len()
        invariant
            i <= files@.len(),
            fv == files.deep_view(),
            archive_entries(archive) == stored_files(fv).take(i as int),
            all_paths_accepted(fv.take(i as int)),
        decreases files@.len() - i,
    {
        let file = &files[i];
        proof {
            assert(fv[i as int] == files@[i as int].deep_view());
        }
        match append_entry(&mut archive, file.container_path.as_str(), file.contents.as_slice()) {
            Ok(_) => {
                proof {
                    assert(stored_files(fv).take(i + 1) =~= stored_files(fv).take(i as int).push(
                        stored_file(fv[i as int]),
                    ));
                    assert forall|j: int| 0 <= j < i + 1 implies archive_path_accepted(
                        (#[trigger] fv.take(i + 1)[j]).container_path,
                    ) by {
                        if j < i {
                            assert(fv.take(i + 1)[j] == fv.take(i as int)[j]);
                        }
                    }
                }
            },
            Err(e) => {
                proof {
                    assert(!archive_path_accepted(fv[i as int].container_path));
                }
                return Err(Error::FailedToAddFileToArchive { source: e });
            },
        }
        i += 1;
    }
    proof {
        assert(fv.take(fv.len() as int) =~= fv);
        assert(stored_files(fv).take(fv.len() as int) =~= stored_files(fv));
    }
    match finish_archive(archive) {
        Ok(bytes) => Ok(bytes),
        Err(e) => Err(Error::FailedToAddFileToArchive { source: e }),
    }
}

} // verus!
