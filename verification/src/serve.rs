//! Serving a file of the site.

use crate::clock::LocalTime;
use crate::reply::{bare, bare_reply, optional_slice, read_optional_header, Reply, ReplyView};
use crate::site::{FileView, Site, StoredFile};
use crate::text::{
    contains_text, law_occurrence_parts_text, law_occurs_between, occurs_in, optional_header_text,
    optional_text,
};
use crate::visits::{optional_stats, visited, VisitCounter, VisitStats};
use vstd::prelude::*;
use vstd::utf8::encode_utf8;

verus! {

/// Whether the brotli form of a file is the one to send: the client names it
/// and it is there.
pub open spec fn sends_brotli(file: FileView, accepted: Option<Seq<char>>) -> bool {
    accepted matches Some(text) && occurs_in(text, "br"@) && file.brotli is Some
}

/// Whether the gzip form of a file is the one to send: the brotli form is not,
/// the client names it and it is there.
pub open spec fn sends_gzip(file: FileView, accepted: Option<Seq<char>>) -> bool {
    !sends_brotli(file, accepted) && (accepted matches Some(text) && occurs_in(text, "gzip"@)
        && file.gzip is Some)
}

/// The reply with a file, in the form that is the one to send.
pub open spec fn file_reply(file: FileView, accepted: Option<Seq<char>>) -> ReplyView {
    ReplyView {
        status: 200,
        content_type: Some(file.mime),
        content_encoding: if sends_brotli(file, accepted) {
            Some("br"@)
        } else if sends_gzip(file, accepted) {
            Some("gzip"@)
        } else {
            None
        },
        location: None,
        body: if sends_brotli(file, accepted) {
            file.brotli->0
        } else if sends_gzip(file, accepted) {
            file.gzip->0
        } else {
            file.content
        },
    }
}

/// The reply to a request for a path that has no file.
pub open spec fn not_found() -> ReplyView {
    bare_reply(404, "File not found"@)
}

/// The reply to a request for a path.
pub open spec fn served(
    files: Map<Seq<char>, FileView>,
    path: Seq<char>,
    accepted: Option<Seq<char>>,
) -> ReplyView {
    if files.contains_key(path) {
        file_reply(files[path], accepted)
    } else {
        not_found()
    }
}

/// Makes the reply with a body of a file.
fn file_with(mime: &String, encoding: Option<String>, body: &Vec<u8>) -> (r: Reply)
    ensures
        r@ == (ReplyView {
            status: 200,
            content_type: Some(mime@),
            content_encoding: optional_text(encoding),
            location: None,
            body: body@,
        }),
{
    let r: Reply = Reply {
        status: 200,
        content_type: Some(mime.clone()),
        content_encoding: encoding,
        location: None,
        body: body.clone(),
    };
    assert(r.body@ =~= body@);
    r
}

/// Finds the file for a path and makes the reply with it, given the value of the
/// header by which the client says what encodings it accepts.
pub fn find_file(files: &Site, path: &str, accept_encoding: Option<&[u8]>) -> (r: Reply)
    ensures
        r@ == served(
            files@,
            path@,
            optional_header_text(optional_slice(accept_encoding)),
        ),
{
    let file: &StoredFile = match files.get(path) {
        Some(file) => file,
        None => {
            return bare(404, "File not found");
        },
    };
    if let Some(accepted) = read_optional_header(accept_encoding) {
        if contains_text(&accepted, "br") {
            if let Some(body) = &file.brotli {
                return file_with(&file.mime, Some("br".to_string()), body);
            }
        }
        if contains_text(&accepted, "gzip") {
            if let Some(body) = &file.gzip {
                return file_with(&file.mime, Some("gzip".to_string()), body);
            }
        }
    }
    file_with(&file.mime, None, &file.content)
}

/// Answers a request for a path and counts the visit, whether or not there is a
/// file; with the reply come the statistics that the visit closes, if any.
pub fn serve_file(
    files: &Site,
    visits: &mut VisitCounter,
    path: &str,
    now: LocalTime,
    accept_encoding: Option<&[u8]>,
) -> (r: (Reply, Option<VisitStats>))
    requires
        old(visits)@.total_visits < u64::MAX,
    ensures
        r.0@ == served(
            files@,
            path@,
            optional_header_text(optional_slice(accept_encoding)),
        ),
        (final(visits)@, optional_stats(r.1)) == visited(old(visits)@, path@, now),
{
    let closed: Option<VisitStats> = visits.record(path, now);
    (find_file(files, path, accept_encoding), closed)
}

/// A path is found if and only if it has a file.
pub proof fn law_found_or_not(
    files: Map<Seq<char>, FileView>,
    path: Seq<char>,
    accepted: Option<Seq<char>>,
)
    ensures
        served(files, path, accepted).status == (if files.contains_key(path) {
            200int
        } else {
            404int
        }),
{
}

/// What is sent with a file is what the headers say: its media type, and the
/// form of its content that the encoding names, which is one that the client
/// named; without an encoding it is the content itself.
pub proof fn law_headers_tell_the_body(
    files: Map<Seq<char>, FileView>,
    path: Seq<char>,
    accepted: Option<Seq<char>>,
)
    requires
        files.contains_key(path),
    ensures
        ({
            let file = files[path];
            let reply = served(files, path, accepted);
            &&& reply.content_type == Some(file.mime)
            &&& match reply.content_encoding {
                None => reply.body == file.content,
                Some(encoding) => {
                    &&& accepted is Some
                    &&& occurs_in(accepted->0, encoding)
                    &&& encoding == "br"@ ==> file.brotli == Some(reply.body)
                    &&& encoding == "gzip"@ ==> file.gzip == Some(reply.body)
                    &&& encoding == "br"@ || encoding == "gzip"@
                },
            }
        }),
{
    reveal_strlit("br");
    reveal_strlit("gzip");
    assert("br"@.len() != "gzip"@.len());
}

/// A client that names no encoding gets the content itself.
pub proof fn law_content_by_default(
    files: Map<Seq<char>, FileView>,
    path: Seq<char>,
    accepted: Option<Seq<char>>,
)
    requires
        files.contains_key(path),
        accepted matches Some(text) ==> !occurs_in(text, "br"@) && !occurs_in(text, "gzip"@),
    ensures
        served(files, path, accepted).content_encoding is None,
        served(files, path, accepted).body == files[path].content,
{
}

/// A client that names brotli gets it, whatever else it names, if the file has
/// that form.
pub proof fn law_brotli_goes_first(
    files: Map<Seq<char>, FileView>,
    path: Seq<char>,
    accepted: Seq<char>,
)
    requires
        files.contains_key(path),
        files[path].brotli is Some,
        occurs_in(accepted, "br"@),
    ensures
        served(files, path, Some(accepted)).content_encoding == Some("br"@),
        served(files, path, Some(accepted)).body == files[path].brotli->0,
{
}

/// A path without a file is answered so, whatever the client accepts.
pub proof fn law_missing_path_is_answered(
    files: Map<Seq<char>, FileView>,
    path: Seq<char>,
    accepted: Option<Seq<char>>,
)
    requires
        !files.contains_key(path),
    ensures
        served(files, path, accepted).status == 404,
        served(files, path, accepted).body == encode_utf8("File not found"@),
        served(files, path, accepted).content_type is None,
        served(files, path, accepted).content_encoding is None,
        served(files, path, accepted).location is None,
{
}

/// A client that names brotli anywhere in what it accepts gets that form of any
/// file that has it, as it is stored.
pub proof fn law_named_brotli_is_sent(
    files: Map<Seq<char>, FileView>,
    path: Seq<char>,
    before: Seq<char>,
    after: Seq<char>,
)
    requires
        files.contains_key(path),
        files[path].brotli is Some,
    ensures
        ({
            let reply = served(files, path, Some(before + "br"@ + after));
            &&& reply.status == 200
            &&& reply.content_type == Some(files[path].mime)
            &&& reply.content_encoding == Some("br"@)
            &&& reply.location is None
            &&& reply.body == files[path].brotli->0
        }),
{
    law_occurs_between(before, "br"@, after);
}

/// A client that names gzip anywhere in what it accepts, and not brotli, gets
/// that form of any file that has it, as it is stored; and so does one that names
/// both, of a file without a brotli form.
pub proof fn law_named_gzip_is_sent(
    files: Map<Seq<char>, FileView>,
    path: Seq<char>,
    before: Seq<char>,
    after: Seq<char>,
)
    requires
        files.contains_key(path),
        files[path].gzip is Some,
        files[path].brotli is None || forall|front: Seq<char>, back: Seq<char>|
            before + "gzip"@ + after != #[trigger] (front + "br"@ + back),
    ensures
        ({
            let reply = served(files, path, Some(before + "gzip"@ + after));
            &&& reply.status == 200
            &&& reply.content_type == Some(files[path].mime)
            &&& reply.content_encoding == Some("gzip"@)
            &&& reply.location is None
            &&& reply.body == files[path].gzip->0
        }),
{
    let accepted = before + "gzip"@ + after;
    law_occurs_between(before, "gzip"@, after);
    if occurs_in(accepted, "br"@) {
        law_occurrence_parts_text(accepted, "br"@);
    }
}

/// A file is sent as it is where no compressed form is both named by the client
/// and there: to a client that says nothing of encodings, names neither, or names
/// one that the file does not have.
pub proof fn law_plain_content_is_sent(
    files: Map<Seq<char>, FileView>,
    path: Seq<char>,
    accepted: Option<Seq<char>>,
)
    requires
        files.contains_key(path),
        files[path].brotli is None || (accepted matches Some(text) ==> forall|
            front: Seq<char>,
            back: Seq<char>,
        | text != #[trigger] (front + "br"@ + back)),
        files[path].gzip is None || (accepted matches Some(text) ==> forall|
            front: Seq<char>,
            back: Seq<char>,
        | text != #[trigger] (front + "gzip"@ + back)),
    ensures
        ({
            let reply = served(files, path, accepted);
            &&& reply.status == 200
            &&& reply.content_type == Some(files[path].mime)
            &&& reply.content_encoding is None
            &&& reply.location is None
            &&& reply.body == files[path].content
        }),
{
    if let Some(text) = accepted {
        if occurs_in(text, "br"@) {
            law_occurrence_parts_text(text, "br"@);
        }
        if occurs_in(text, "gzip"@) {
            law_occurrence_parts_text(text, "gzip"@);
        }
    }
}

} // verus!
