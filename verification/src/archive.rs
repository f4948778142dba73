//! Unpacking an archive into the files of a site.

use crate::codec::{
    brotli_compress, brotli_decoded, brotli_failure, brotli_writes, entry_content, entry_count,
    entry_header, gzip_compress, gzip_decoded, gzip_stream, open_archive, zip_content, zip_count,
    zip_header, zip_open_error, zip_source,
};
use crate::mime::{extension, media_type};
use crate::site::{FileView, Site};
use std::io::Cursor;
use vstd::prelude::*;
use zip::ZipArchive;

verus! {

/// The buffer that the brotli compressor works with, in bytes.
pub const BROTLI_BUFFER: usize = 4096;

/// The quality that the brotli compressor works at.
pub const BROTLI_QUALITY: u32 = 4;

/// The window of the brotli compressor, as a power of two.
pub const BROTLI_WINDOW: u32 = 22;

/// Whether a stream is a brotli form of a content: one that the compressor may
/// write for it, and that decodes to it.
pub open spec fn is_brotli_form(content: Seq<u8>, stream: Seq<u8>) -> bool {
    &&& brotli_writes(
        content,
        BROTLI_BUFFER as int,
        BROTLI_QUALITY as int,
        BROTLI_WINDOW as int,
        stream,
    )
    &&& brotli_decoded(stream) == Some(content)
}

/// Whether a stream is the gzip form of a content: the one that the compressor
/// writes for it, which decodes to it.
pub open spec fn is_gzip_form(content: Seq<u8>, stream: Seq<u8>) -> bool {
    &&& gzip_stream(content) == Ok::<Seq<u8>, Seq<char>>(stream)
    &&& gzip_decoded(stream) == Some(content)
}

/// Why a compressed form of a content cannot be made, if one cannot.
pub open spec fn packing_failure(content: Seq<u8>) -> Option<Seq<char>> {
    match brotli_failure(
        content,
        BROTLI_BUFFER as int,
        BROTLI_QUALITY as int,
        BROTLI_WINDOW as int,
    ) {
        Some(message) => Some(message),
        None => match gzip_stream(content) {
            Err(message) => Some(message),
            Ok(_) => None,
        },
    }
}

/// Why an entry of the archive cannot be added to the files, if it cannot.
pub open spec fn entry_failure(data: Seq<u8>, index: int) -> Option<Seq<char>> {
    match zip_header(data, index) {
        Err(message) => Some(message),
        Ok((_, false)) => None,
        Ok((_, true)) => match zip_content(data, index) {
            Err(message) => Some(message),
            Ok(content) => packing_failure(content),
        },
    }
}

/// The first failure among the first `count` entries, if there is one.
pub open spec fn entries_failure(data: Seq<u8>, count: nat) -> Option<Seq<char>>
    decreases count,
{
    if count == 0 {
        None
    } else {
        match entries_failure(data, (count - 1) as nat) {
            Some(message) => Some(message),
            None => entry_failure(data, count - 1),
        }
    }
}

/// Why an archive cannot be unpacked, if it cannot: the first failure, of opening
/// it or of an entry.
pub open spec fn unpacking_failure(data: Seq<u8>) -> Option<Seq<char>> {
    match zip_open_error(data) {
        Some(message) => Some(message),
        None => entries_failure(data, zip_count(data)),
    }
}

/// Whether the entry at `index` is a regular file with this path.
pub open spec fn is_file_at(data: Seq<u8>, index: int, path: Seq<char>) -> bool {
    zip_header(data, index) == Ok::<(Seq<char>, bool), Seq<char>>((path, true))
}

/// Whether `file` is what is stored for the entry at `index`, a regular file with
/// this path: the content is what the entry unpacks to, the media type goes by
/// the path, and both compressed forms are there.
pub open spec fn is_entry_file(data: Seq<u8>, index: int, path: Seq<char>, file: FileView) -> bool {
    &&& is_file_at(data, index, path)
    &&& zip_content(data, index) == Ok::<Seq<u8>, Seq<char>>(file.content)
    &&& file.mime == media_type(extension(path))
    &&& file.brotli matches Some(stream) && is_brotli_form(file.content, stream)
    &&& file.gzip matches Some(stream) && is_gzip_form(file.content, stream)
}

/// Whether the entry at `index` is the last of the first `count` that is a
/// regular file with this path.
pub open spec fn is_last_file_at(data: Seq<u8>, count: nat, index: int, path: Seq<char>) -> bool {
    &&& 0 <= index < count
    &&& is_file_at(data, index, path)
    &&& forall|later: int| index < later < count ==> !#[trigger] is_file_at(data, later, path)
}

/// Whether these are the files of the first `count` entries: under every path the
/// last regular file with that name, and no other path.
pub open spec fn holds_entries(
    data: Seq<u8>,
    count: nat,
    files: Map<Seq<char>, FileView>,
) -> bool {
    &&& forall|index: int, path: Seq<char>|
        0 <= index < count && #[trigger] is_file_at(data, index, path) ==> files.contains_key(path)
    &&& forall|path: Seq<char>| #[trigger]
        files.contains_key(path) ==> exists|index: int|
            #![trigger is_last_file_at(data, count, index, path)]
            is_last_file_at(data, count, index, path) && is_entry_file(
                data,
                index,
                path,
                files[path],
            )
}

/// Whether an archive unpacks to these files.
pub open spec fn unpacks_to(data: Seq<u8>, files: Map<Seq<char>, FileView>) -> bool {
    unpacking_failure(data) is None && holds_entries(data, zip_count(data), files)
}

/// Whether one entry of the archive makes these files of those before: it adds
/// nothing if it is no regular file, else the file under its name.
spec fn adds_entry(
    data: Seq<u8>,
    index: int,
    before: Map<Seq<char>, FileView>,
    after: Map<Seq<char>, FileView>,
) -> bool {
    match zip_header(data, index) {
        Ok((name, true)) => {
            &&& is_entry_file(data, index, name, after[name])
            &&& after == before.insert(name, after[name])
        },
        _ => after == before,
    }
}

/// A failure among the first entries is the failure of them all.
proof fn lemma_failure_stays(data: Seq<u8>, count: nat, all: nat)
    requires
        count <= all,
        entries_failure(data, count) is Some,
    ensures
        entries_failure(data, all) == entries_failure(data, count),
    decreases all,
{
    if count < all {
        lemma_failure_stays(data, count, (all - 1) as nat);
    }
}

/// Adding the next entry to the files of the first ones makes the files of one
/// entry more.
proof fn lemma_entry_added(
    data: Seq<u8>,
    count: nat,
    before: Map<Seq<char>, FileView>,
    after: Map<Seq<char>, FileView>,
)
    requires
        holds_entries(data, count, before),
        adds_entry(data, count as int, before, after),
    ensures
        holds_entries(data, count + 1, after),
{
    assert forall|path: Seq<char>| #[trigger] after.contains_key(path) implies exists|index: int|
        #![trigger is_last_file_at(data, count + 1, index, path)]
        is_last_file_at(data, count + 1, index, path) && is_entry_file(
            data,
            index,
            path,
            after[path],
        ) by {
        if is_file_at(data, count as int, path) {
            assert(is_last_file_at(data, count + 1, count as int, path));
        } else {
            assert(before.contains_key(path) && after[path] == before[path]);
            let index = choose|index: int|
                #![trigger is_last_file_at(data, count, index, path)]
                is_last_file_at(data, count, index, path) && is_entry_file(
                    data,
                    index,
                    path,
                    before[path],
                );
            assert(is_last_file_at(data, count + 1, index, path));
        }
    }
}

/// Adds one entry of the archive to the files.
fn add_entry(
    archive: &mut ZipArchive<Cursor<&[u8]>>,
    index: usize,
    files: &mut Site,
) -> (r: Result<(), String>)
    ensures
        zip_source(*final(archive)) == zip_source(*old(archive)),
        match r {
            Ok(_) => {
                &&& entry_failure(zip_source(*old(archive)), index as int) is None
                &&& adds_entry(zip_source(*old(archive)), index as int, old(files)@, final(files)@)
            },
            Err(message) => entry_failure(zip_source(*old(archive)), index as int) == Some(
                message@,
            ),
        },
{
    let (name, is_file): (String, bool) = match entry_header(archive, index) {
        Ok(header) => header,
        Err(message) => {
            return Err(message);
        },
    };
    if !is_file {
        return Ok(());
    }
    let content: Vec<u8> = match entry_content(archive, index) {
        Ok(content) => content,
        Err(message) => {
            return Err(message);
        },
    };
    let brotli: Vec<u8> = match brotli_compress(
        content.as_slice(),
        BROTLI_BUFFER,
        BROTLI_QUALITY,
        BROTLI_WINDOW,
    ) {
        Ok(stream) => stream,
        Err(message) => {
            return Err(message);
        },
    };
    let gzip: Vec<u8> = match gzip_compress(content.as_slice()) {
        Ok(stream) => stream,
        Err(message) => {
            return Err(message);
        },
    };
    files.store_file(name, content, brotli, gzip);
    Ok(())
}

/// Unpacks an archive into the files of a site.
///
/// Every regular file of the archive is stored under its name, the later of two
/// with the same name in place of the earlier, together with its content
/// compressed by brotli and by gzip. The first failure, of opening the archive
/// or of an entry, ends the work with its message.
pub fn extract_zip(zip_data: &[u8]) -> (r: Result<Site, String>)
    ensures
        match r {
            Ok(site) => unpacks_to(zip_data@, site@),
            Err(message) => unpacking_failure(zip_data@) == Some(message@),
        },
{
    let mut archive: ZipArchive<Cursor<&[u8]>> = match open_archive(zip_data) {
        Ok(archive) => archive,
        Err(message) => {
            return Err(message);
        },
    };
    let mut files: Site = Site::new();
    let count: usize = entry_count(&archive);
    for index in 0..count
        invariant
            zip_open_error(zip_data@) is None,
            zip_source(archive) == zip_data@,
            count == zip_count(zip_data@),
            entries_failure(zip_data@, index as nat) is None,
            holds_entries(zip_data@, index as nat, files@),
    {
        let ghost before = files@;
        match add_entry(&mut archive, index, &mut files) {
            Ok(_) => {
                proof {
                    lemma_entry_added(zip_data@, index as nat, before, files@);
                }
            },
            Err(message) => {
                proof {
                    lemma_failure_stays(zip_data@, (index + 1) as nat, count as nat);
                }
                return Err(message);
            },
        }
    }
    Ok(files)
}

/// Every file of an unpacked archive is the last regular file of the archive
/// with that name: its content is what that entry unpacks to, its media type
/// goes by its path, and its compressed forms are forms of its content, each of
/// which decodes to it.
pub proof fn law_files_come_from_archive(
    data: Seq<u8>,
    files: Map<Seq<char>, FileView>,
    path: Seq<char>,
)
    requires
        unpacks_to(data, files),
        files.contains_key(path),
    ensures
        exists|index: int|
            #![trigger is_last_file_at(data, zip_count(data), index, path)]
            is_last_file_at(data, zip_count(data), index, path) && is_entry_file(
                data,
                index,
                path,
                files[path],
            ),
        exists|index: int|
            {
                &&& 0 <= index < zip_count(data)
                &&& #[trigger] zip_header(data, index) == Ok::<(Seq<char>, bool), Seq<char>>(
                    (path, true),
                )
                &&& zip_content(data, index) == Ok::<Seq<u8>, Seq<char>>(files[path].content)
                &&& forall|later: int|
                    index < later < zip_count(data) ==> #[trigger] zip_header(data, later) != Ok::<
                        (Seq<char>, bool),
                        Seq<char>,
                    >((path, true))
            },
        files[path].mime == media_type(extension(path)),
        files[path].brotli is Some,
        brotli_writes(files[path].content, 4096, 4, 22, files[path].brotli->0),
        brotli_decoded(files[path].brotli->0) == Some(files[path].content),
        files[path].gzip is Some,
        gzip_stream(files[path].content) == Ok::<Seq<u8>, Seq<char>>(files[path].gzip->0),
        gzip_decoded(files[path].gzip->0) == Some(files[path].content),
{
    let index = choose|index: int|
        #![trigger is_last_file_at(data, zip_count(data), index, path)]
        is_last_file_at(data, zip_count(data), index, path) && is_entry_file(
            data,
            index,
            path,
            files[path],
        );
    assert(zip_header(data, index) == Ok::<(Seq<char>, bool), Seq<char>>((path, true)));
    assert forall|later: int| index < later < zip_count(data) implies #[trigger] zip_header(
        data,
        later,
    ) != Ok::<(Seq<char>, bool), Seq<char>>((path, true)) by {
        assert(!is_file_at(data, later, path));
    }
}

/// Every regular file of an archive that unpacks is there under its name, and
/// nothing else is.
pub proof fn law_every_file_is_there(
    data: Seq<u8>,
    files: Map<Seq<char>, FileView>,
    path: Seq<char>,
)
    requires
        unpacks_to(data, files),
    ensures
        files.contains_key(path) <==> exists|index: int|
            0 <= index < zip_count(data) && #[trigger] is_file_at(data, index, path),
        files.contains_key(path) <==> exists|index: int|
            0 <= index < zip_count(data) && #[trigger] zip_header(data, index) == Ok::<
                (Seq<char>, bool),
                Seq<char>,
            >((path, true)),
{
    if files.contains_key(path) {
        let index = choose|index: int| is_last_file_at(data, zip_count(data), index, path);
        assert(is_file_at(data, index, path));
        assert(zip_header(data, index) == Ok::<(Seq<char>, bool), Seq<char>>((path, true)));
    }
    if exists|index: int|
        0 <= index < zip_count(data) && #[trigger] zip_header(data, index) == Ok::<
            (Seq<char>, bool),
            Seq<char>,
        >((path, true)) {
        let index = choose|index: int|
            0 <= index < zip_count(data) && #[trigger] zip_header(data, index) == Ok::<
                (Seq<char>, bool),
                Seq<char>,
            >((path, true));
        assert(is_file_at(data, index, path));
    }
}

/// Whatever one archive unpacks to, twice, is the same: the same paths, and under
/// each the same content, media type and gzip form. Only the brotli forms may
/// differ, and they decode to the same content.
pub proof fn law_unpacking_agrees(
    data: Seq<u8>,
    files: Map<Seq<char>, FileView>,
    again: Map<Seq<char>, FileView>,
    path: Seq<char>,
)
    requires
        unpacks_to(data, files),
        unpacks_to(data, again),
    ensures
        files.dom() == again.dom(),
        files.contains_key(path) ==> {
            &&& files[path].content == again[path].content
            &&& files[path].mime == again[path].mime
            &&& files[path].gzip == again[path].gzip
            &&& files[path].brotli is Some && again[path].brotli is Some
            &&& brotli_decoded(files[path].brotli->0) == brotli_decoded(again[path].brotli->0)
        },
{
    assert forall|other: Seq<char>| files.dom().contains(other) == again.dom().contains(other) by {
        law_every_file_is_there(data, files, other);
        law_every_file_is_there(data, again, other);
    }
    assert(files.dom() =~= again.dom());
    if files.contains_key(path) {
        assert(again.dom().contains(path));
        let one = choose|index: int|
            #![trigger is_last_file_at(data, zip_count(data), index, path)]
            is_last_file_at(data, zip_count(data), index, path) && is_entry_file(
                data,
                index,
                path,
                files[path],
            );
        let other = choose|index: int|
            #![trigger is_last_file_at(data, zip_count(data), index, path)]
            is_last_file_at(data, zip_count(data), index, path) && is_entry_file(
                data,
                index,
                path,
                again[path],
            );
        assert(is_file_at(data, one, path) && is_file_at(data, other, path));
        assert(one == other);
    }
}

/// Entries none of which fails have no failure among them, however many they
/// are.
proof fn lemma_no_failure(data: Seq<u8>, count: nat)
    requires
        forall|i: int| 0 <= i < count ==> #[trigger] entry_failure(data, i) is None,
    ensures
        entries_failure(data, count) is None,
    decreases count,
{
    if count > 0 {
        lemma_no_failure(data, (count - 1) as nat);
    }
}

/// An archive fails to unpack for a reason of its own alone: if it opens, the
/// header of every entry can be read, and every regular file can be unpacked and
/// compressed both ways, there is no failure, however many entries there are and
/// whatever they hold.
pub proof fn law_sound_archive_unpacks(data: Seq<u8>)
    requires
        zip_open_error(data) is None,
        forall|i: int|
            0 <= i < zip_count(data) ==> match #[trigger] zip_header(data, i) {
                Err(_) => false,
                Ok((_, regular)) => regular ==> (zip_content(data, i) matches Ok(content)
                    && brotli_failure(content, 4096, 4, 22) is None && gzip_stream(content) is Ok),
            },
    ensures
        unpacking_failure(data) is None,
{
    assert forall|i: int| 0 <= i < zip_count(data) implies #[trigger] entry_failure(
        data,
        i,
    ) is None by {
        assert(zip_header(data, i) is Ok);
    }
    lemma_no_failure(data, zip_count(data));
}

/// An archive that does not open fails for that reason.
pub proof fn law_unopened_archive_fails(data: Seq<u8>)
    requires
        zip_open_error(data) is Some,
    ensures
        unpacking_failure(data) == zip_open_error(data),
{
}

/// An archive that opens fails for the reason of its first bad entry: one whose
/// header cannot be read, or a regular file that cannot be unpacked, or not
/// compressed by brotli, or not by gzip.
pub proof fn law_first_bad_entry_fails_archive(data: Seq<u8>, index: int, message: Seq<char>)
    requires
        zip_open_error(data) is None,
        0 <= index < zip_count(data),
        forall|i: int|
            0 <= i < index ==> match #[trigger] zip_header(data, i) {
                Err(_) => false,
                Ok((_, regular)) => regular ==> (zip_content(data, i) matches Ok(content)
                    && brotli_failure(content, 4096, 4, 22) is None && gzip_stream(content) is Ok),
            },
        match zip_header(data, index) {
            Err(reason) => reason == message,
            Ok((_, regular)) => regular && match zip_content(data, index) {
                Err(reason) => reason == message,
                Ok(content) => match brotli_failure(content, 4096, 4, 22) {
                    Some(reason) => reason == message,
                    None => gzip_stream(content) == Err::<Seq<u8>, Seq<char>>(message),
                },
            },
        },
    ensures
        unpacking_failure(data) == Some(message),
{
    assert forall|i: int| 0 <= i < index implies #[trigger] entry_failure(data, i) is None by {
        assert(zip_header(data, i) is Ok);
    }
    lemma_no_failure(data, index as nat);
    assert(entry_failure(data, index) == Some(message));
    assert(entries_failure(data, (index + 1) as nat) == Some(message));
    lemma_failure_stays(data, (index + 1) as nat, zip_count(data));
}

} // verus!
