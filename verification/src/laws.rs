//! What holds of the host as a whole.

use crate::archive::{
    is_entry_file, is_file_at, is_last_file_at, law_every_file_is_there,
    law_files_come_from_archive, unpacks_to,
};
use crate::codec::{brotli_decoded, gzip_decoded, zip_content, zip_count};
use crate::mime::{extension, media_type};
use crate::serve::{law_content_by_default, law_headers_tell_the_body, not_found, served};
use crate::site::{FileView, INDEX_PAGE};
use crate::update::{
    after_failure, after_files, extraction_failure, Failure, Phase, RunView, StepView, MAX_ATTEMPTS,
};
use vstd::prelude::*;

verus! {

/// A host that has just started finds nothing, whatever is asked for.
pub proof fn law_new_host_finds_nothing(path: Seq<char>, accepted: Option<Seq<char>>)
    ensures
        served(Map::<Seq<char>, FileView>::empty(), path, accepted) == not_found(),
{
}

/// What unpacking an archive makes of an update: files to be put in place, if
/// and only if the archive unpacks to files with an index page; and then the
/// index page is found among them, whatever the client accepts.
pub proof fn law_published_files_have_index_page(
    run: RunView,
    result: Result<Map<Seq<char>, FileView>, Seq<char>>,
    accepted: Option<Seq<char>>,
)
    requires
        run.phase == Phase::Fetching,
        1 <= run.attempt <= MAX_ATTEMPTS,
    ensures
        ({
            let step = match extraction_failure(result) {
                Some(failure) => after_failure(run, failure).1,
                None => after_files(run, result->Ok_0).1,
            };
            &&& step is Publish <==> (result matches Ok(files) && files.contains_key(INDEX_PAGE@))
            &&& step matches StepView::Publish { files, .. } ==> {
                &&& result == Ok::<Map<Seq<char>, FileView>, Seq<char>>(files)
                &&& served(files, INDEX_PAGE@, accepted).status == 200
            }
        }),
{
}

/// What a body decodes to by the encoding that a reply names, if it is whole.
pub open spec fn decoded(encoding: Option<Seq<char>>, body: Seq<u8>) -> Option<Seq<u8>> {
    match encoding {
        None => Some(body),
        Some(name) => if name == "br"@ {
            brotli_decoded(body)
        } else if name == "gzip"@ {
            gzip_decoded(body)
        } else {
            None
        },
    }
}

/// From the archive to the client: every regular file of an archive that unpacks
/// is found under its name, with the media type that goes by its name; and what
/// is sent decodes, by the encoding that the reply names, to the content of the
/// last such file in the archive.
pub proof fn law_archived_file_is_served(
    data: Seq<u8>,
    files: Map<Seq<char>, FileView>,
    index: int,
    path: Seq<char>,
    accepted: Option<Seq<char>>,
)
    requires
        unpacks_to(data, files),
        is_last_file_at(data, zip_count(data), index, path),
    ensures
        ({
            let reply = served(files, path, accepted);
            &&& reply.status == 200
            &&& reply.content_type == Some(media_type(extension(path)))
            &&& zip_content(data, index) is Ok
            &&& decoded(reply.content_encoding, reply.body) == Some(zip_content(data, index)->Ok_0)
        }),
{
    assert(is_file_at(data, index, path));
    law_every_file_is_there(data, files, path);
    law_files_come_from_archive(data, files, path);
    law_headers_tell_the_body(files, path, accepted);
    let origin = choose|origin: int|
        #![trigger is_last_file_at(data, zip_count(data), origin, path)]
        is_last_file_at(data, zip_count(data), origin, path) && is_entry_file(
            data,
            origin,
            path,
            files[path],
        );
    assert(is_file_at(data, origin, path));
    assert(origin == index);
}

/// What a client accepts changes the encoding of a file, never the content: two
/// replies with the same file of an archive have the same status and media type,
/// and their bodies decode to one and the same content, that of the file.
pub proof fn law_encoding_keeps_content(
    data: Seq<u8>,
    files: Map<Seq<char>, FileView>,
    path: Seq<char>,
    accepted: Option<Seq<char>>,
    otherwise: Option<Seq<char>>,
)
    requires
        unpacks_to(data, files),
        files.contains_key(path),
    ensures
        ({
            let one = served(files, path, accepted);
            let other = served(files, path, otherwise);
            &&& one.status == 200 && other.status == 200
            &&& one.content_type == other.content_type
            &&& decoded(one.content_encoding, one.body) == Some(files[path].content)
            &&& decoded(other.content_encoding, other.body) == Some(files[path].content)
        }),
{
    law_files_come_from_archive(data, files, path);
    law_headers_tell_the_body(files, path, accepted);
    law_headers_tell_the_body(files, path, otherwise);
}

/// What an attempt of an update came to: the archive was not fetched, or it was
/// and unpacked to this.
#[verifier::ext_equal]
pub enum Attempt {
    NotFetched(Seq<char>),
    Unpacked(Result<Map<Seq<char>, FileView>, Seq<char>>),
}

/// What to do next after an attempt of an update.
pub open spec fn attempt_step(run: RunView, attempt: Attempt) -> StepView {
    match attempt {
        Attempt::NotFetched(reason) => after_failure(run, Failure::NotFetched(reason)).1,
        Attempt::Unpacked(result) => match extraction_failure(result) {
            Some(failure) => after_failure(run, failure).1,
            None => after_files(run, result->Ok_0).1,
        },
    }
}

/// The files of the site after a step of an update was carried out: those to be
/// put in place, if it says so, else the ones that were there.
pub open spec fn site_after(
    site: Map<Seq<char>, FileView>,
    step: StepView,
) -> Map<Seq<char>, FileView> {
    match step {
        StepView::Publish { files, .. } => files,
        _ => site,
    }
}

/// From an update to the client: an archive that unpacks to files with an index
/// page has exactly those files put in place, whatever the site held before. From
/// then on a path is found if and only if a regular file of the archive has that
/// name; a client that names no encoding gets the content of the last such file,
/// with the media type that goes by the path, and any other path, one that the
/// site held before too, is not found.
pub proof fn law_update_replaces_site(
    site: Map<Seq<char>, FileView>,
    run: RunView,
    data: Seq<u8>,
    files: Map<Seq<char>, FileView>,
    path: Seq<char>,
)
    requires
        run.phase == Phase::Fetching,
        1 <= run.attempt <= MAX_ATTEMPTS,
        unpacks_to(data, files),
        files.contains_key(INDEX_PAGE@),
    ensures
        ({
            let step = attempt_step(run, Attempt::Unpacked(Ok(files)));
            let reply = served(site_after(site, step), path, None);
            let found = exists|index: int|
                0 <= index < zip_count(data) && #[trigger] is_file_at(data, index, path);
            &&& step matches StepView::Publish { files: new_files, .. } && new_files == files
            &&& found <==> reply.status == 200
            &&& found <==> files.contains_key(path)
            &&& found ==> {
                &&& reply.content_type == Some(media_type(extension(path)))
                &&& reply.content_encoding is None
                &&& reply.body == files[path].content
                &&& exists|index: int|
                    #![trigger is_last_file_at(data, zip_count(data), index, path)]
                    is_last_file_at(data, zip_count(data), index, path) && zip_content(data, index)
                        == Ok::<Seq<u8>, Seq<char>>(reply.body)
            }
            &&& !found ==> reply == not_found()
        }),
{
    law_every_file_is_there(data, files, path);
    if files.contains_key(path) {
        law_files_come_from_archive(data, files, path);
        law_content_by_default(files, path, None);
    }
}

/// An attempt that comes to anything but files with an index page leaves the
/// files of the site as they were.
pub proof fn law_failed_attempt_keeps_site(
    site: Map<Seq<char>, FileView>,
    run: RunView,
    attempt: Attempt,
)
    requires
        run.phase == Phase::Fetching,
        1 <= run.attempt <= MAX_ATTEMPTS,
        !(attempt matches Attempt::Unpacked(Ok(files)) && files.contains_key(INDEX_PAGE@)),
    ensures
        site_after(site, attempt_step(run, attempt)) == site,
{
}

/// The files of the site after a series of attempts, each of them with where its
/// update stood.
pub open spec fn site_after_all(
    site: Map<Seq<char>, FileView>,
    attempts: Seq<(RunView, Attempt)>,
) -> Map<Seq<char>, FileView>
    decreases attempts.len(),
{
    if attempts.len() == 0 {
        site
    } else {
        let (run, attempt) = attempts.last();
        site_after(site_after_all(site, attempts.drop_last()), attempt_step(run, attempt))
    }
}

/// Once the site has an index page, no series of attempts takes it away, of
/// whatever updates they are: it is found ever after, whatever the client accepts.
pub proof fn law_index_page_stays(
    site: Map<Seq<char>, FileView>,
    attempts: Seq<(RunView, Attempt)>,
    accepted: Option<Seq<char>>,
)
    requires
        site.contains_key(INDEX_PAGE@),
    ensures
        site_after_all(site, attempts).contains_key(INDEX_PAGE@),
        served(site_after_all(site, attempts), INDEX_PAGE@, accepted).status == 200,
    decreases attempts.len(),
{
    if attempts.len() > 0 {
        law_index_page_stays(site, attempts.drop_last(), accepted);
    }
}

} // verus!
