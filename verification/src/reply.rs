//! Replies to requests, and those that do not depend on the site: to a request
//! without the right key, to one over plain HTTP, and to one that failed.

use crate::text::{
    law_other_bytes_are_no_text, law_visible_bytes_are_text, optional_header_text, optional_text,
    read_header, same_text, spells,
};
use vstd::prelude::*;
use vstd::string::{StrSliceExecFns, StringExecFns};
use vstd::utf8::encode_utf8;

verus! {

/// A reply: its status, the headers that are set on it, and its body.
pub struct Reply {
    pub status: u16,
    pub content_type: Option<String>,
    pub content_encoding: Option<String>,
    pub location: Option<String>,
    pub body: Vec<u8>,
}

/// What a reply says.
#[verifier::ext_equal]
pub struct ReplyView {
    pub status: int,
    pub content_type: Option<Seq<char>>,
    pub content_encoding: Option<Seq<char>>,
    pub location: Option<Seq<char>>,
    pub body: Seq<u8>,
}

impl View for Reply {
    type V = ReplyView;

    open spec fn view(&self) -> ReplyView {
        ReplyView {
            status: self.status as int,
            content_type: optional_text(self.content_type),
            content_encoding: optional_text(self.content_encoding),
            location: optional_text(self.location),
            body: self.body@,
        }
    }
}

/// A reply with a text and no headers.
pub open spec fn bare_reply(status: int, text: Seq<char>) -> ReplyView {
    ReplyView {
        status,
        content_type: None,
        content_encoding: None,
        location: None,
        body: encode_utf8(text),
    }
}

/// Makes a reply with a text and no headers.
pub fn bare(status: u16, text: &str) -> (r: Reply)
    ensures
        r@ == bare_reply(status as int, text@),
{
    Reply {
        status,
        content_type: None,
        content_encoding: None,
        location: None,
        body: text.as_bytes_vec(),
    }
}

/// The bytes of an optional slice.
pub open spec fn optional_slice(value: Option<&[u8]>) -> Option<Seq<u8>> {
    match value {
        Some(bytes) => Some(bytes@),
        None => None,
    }
}

/// Reads an optional header value as text.
pub fn read_optional_header(value: Option<&[u8]>) -> (r: Option<Vec<char>>)
    ensures
        match r {
            Some(text) => optional_header_text(optional_slice(value)) == Some(text@),
            None => optional_header_text(optional_slice(value)) is None,
        },
{
    match value {
        Some(bytes) => read_header(bytes),
        None => None,
    }
}

/// The reply to a request that does not show the key.
pub open spec fn unauthorized() -> ReplyView {
    bare_reply(401, "Invalid or missing API Key"@)
}

/// Judges a request by the value of its key header: the reply that refuses it,
/// or none if the header spells the key, and the request goes on.
pub fn api_key_middleware(header: Option<&[u8]>, api_key: &str) -> (r: Option<Reply>)
    ensures
        r is None <==> optional_header_text(optional_slice(header)) == Some(api_key@),
        r matches Some(reply) ==> reply@ == unauthorized(),
        (forall|i: int| 0 <= i < api_key@.len() ==> 32 <= #[trigger] api_key@[i] as int <= 126) ==> (
        r is None <==> (header matches Some(bytes) && bytes@.len() == api_key@.len() && forall|i: int|
            0 <= i < api_key@.len() ==> #[trigger] api_key@[i] as int == bytes@[i] as int)),
        r matches Some(reply) ==> reply.status == 401 && reply.body@ == encode_utf8(
            "Invalid or missing API Key"@,
        ) && reply.content_type is None && reply.content_encoding is None && reply.location is None,
{
    proof {
        if header is Some && forall|i: int|
            0 <= i < api_key@.len() ==> 32 <= #[trigger] api_key@[i] as int <= 126 {
            law_only_key_spells_key(api_key@, header->0@);
        }
    }
    match read_optional_header(header) {
        Some(key) => {
            if spells(&key, api_key) {
                None
            } else {
                Some(bare(401, "Invalid or missing API Key"))
            }
        },
        None => Some(bare(401, "Invalid or missing API Key")),
    }
}

/// The path and query of a redirect: as in the request, with a slash for an
/// empty path.
pub open spec fn full_path(path_and_query: Seq<char>) -> Seq<char> {
    if path_and_query.len() == 0 || path_and_query[0] == '?' {
        "/"@ + path_and_query
    } else {
        path_and_query
    }
}

/// The reply that sends a request over to HTTPS.
pub open spec fn https_redirect(path_and_query: Seq<char>) -> ReplyView {
    ReplyView {
        status: 308,
        content_type: None,
        content_encoding: None,
        location: Some("https://localhost:8443"@ + full_path(path_and_query)),
        body: Seq::empty(),
    }
}

/// Judges a request by the scheme of its address: one over plain HTTP is sent
/// over to HTTPS with the same path and query; any other goes on.
pub fn redirect_to_https(scheme: Option<&str>, path_and_query: &str) -> (r: Option<Reply>)
    ensures
        r is Some <==> (scheme matches Some(name) && name@ == "http"@),
        r matches Some(reply) ==> reply@ == https_redirect(path_and_query@),
        r matches Some(reply) ==> reply.status == 308 && reply.location is Some
            && reply.body@.len() == 0,
        r matches Some(reply) ==> (path_and_query@.len() > 0 && path_and_query@[0] != '?'
            ==> reply.location->0@ == "https://localhost:8443"@ + path_and_query@),
{
    match scheme {
        Some(name) => {
            if !same_text(name, "http") {
                return None;
            }
        },
        None => {
            return None;
        },
    }
    let mut location: String = "https://localhost:8443".to_string();
    if path_and_query.unicode_len() == 0 || path_and_query.get_char(0) == '?' {
        location.append("/");
    }
    location.append(path_and_query);
    assert(location@ =~= "https://localhost:8443"@ + full_path(path_and_query@));
    let reply: Reply = Reply {
        status: 308,
        content_type: None,
        content_encoding: None,
        location: Some(location),
        body: Vec::new(),
    };
    assert(reply@ =~= https_redirect(path_and_query@));
    Some(reply)
}

/// A reply of plain text.
pub struct TextReply {
    pub status: u16,
    pub text: String,
}

/// Makes the reply to a request that failed, from the description of the
/// failure.
pub fn error_reply(failure: &str) -> (r: TextReply)
    ensures
        r.status == 500,
        r.text@ == "Error: "@ + failure@,
{
    let mut text: String = "Error: ".to_string();
    text.append(failure);
    TextReply { status: 500, text }
}

/// What a reply says is what its fields hold.
pub proof fn law_reply_says_its_fields(reply: Reply)
    ensures
        reply@.status == reply.status,
        reply@.content_type is Some <==> reply.content_type is Some,
        reply.content_type is Some ==> reply@.content_type->0 == reply.content_type->0@,
        reply@.content_encoding is Some <==> reply.content_encoding is Some,
        reply.content_encoding is Some ==> reply@.content_encoding->0
            == reply.content_encoding->0@,
        reply@.location is Some <==> reply.location is Some,
        reply.location is Some ==> reply@.location->0 == reply.location->0@,
        reply@.body == reply.body@,
{
}

/// A reply with a text has that status and that text, and no headers.
pub proof fn law_bare_reply(status: int, text: Seq<char>)
    ensures
        bare_reply(status, text).status == status,
        bare_reply(status, text).body == encode_utf8(text),
        bare_reply(status, text).content_type is None,
        bare_reply(status, text).content_encoding is None,
        bare_reply(status, text).location is None,
{
}

/// The bytes of a header value that is there are its bytes.
pub proof fn law_optional_slice(value: Option<&[u8]>)
    ensures
        optional_slice(value) is Some <==> value is Some,
        value is Some ==> optional_slice(value)->0 == value->0@,
{
}

/// A header that holds the key, byte for byte, spells it, for every key of
/// printable ASCII characters, however long; no other header spells it.
pub proof fn law_only_key_spells_key(key: Seq<char>, value: Seq<u8>)
    requires
        forall|i: int| 0 <= i < key.len() ==> 32 <= #[trigger] key[i] as int <= 126,
    ensures
        optional_header_text(Some(value)) == Some(key) <==> {
            &&& value.len() == key.len()
            &&& forall|i: int| 0 <= i < key.len() ==> #[trigger] key[i] as int == value[i] as int
        },
        optional_header_text(None) != Some(key),
{
    let same = value.len() == key.len() && forall|i: int|
        0 <= i < key.len() ==> #[trigger] key[i] as int == value[i] as int;
    if same {
        assert forall|i: int| 0 <= i < value.len() implies 32 <= #[trigger] value[i] <= 126
            || value[i] == 9 by {
            assert(key[i] as int == value[i] as int);
        }
        law_visible_bytes_are_text(value);
        assert(optional_header_text(Some(value))->0 =~= key);
    }
    if optional_header_text(Some(value)) == Some(key) {
        assert forall|i: int| 0 <= i < value.len() implies 32 <= #[trigger] value[i] <= 126
            || value[i] == 9 by {
            if !(32 <= value[i] <= 126 || value[i] == 9) {
                law_other_bytes_are_no_text(value, i);
            }
        }
        law_visible_bytes_are_text(value);
    }
}

/// A redirect keeps the path and the query as they are, behind the address of
/// the secure host; only a path that is empty is written as a slash.
pub proof fn law_redirect_keeps_path(path_and_query: Seq<char>)
    ensures
        https_redirect(path_and_query).status == 308,
        https_redirect(path_and_query).content_type is None,
        https_redirect(path_and_query).content_encoding is None,
        https_redirect(path_and_query).body.len() == 0,
        https_redirect(path_and_query).location is Some,
        path_and_query.len() > 0 && path_and_query[0] != '?' ==> https_redirect(
            path_and_query,
        ).location->0 == "https://localhost:8443"@ + path_and_query,
        path_and_query.len() == 0 || path_and_query[0] == '?' ==> https_redirect(
            path_and_query,
        ).location->0 == "https://localhost:8443/"@ + path_and_query,
{
    reveal_strlit("https://localhost:8443/");
    reveal_strlit("https://localhost:8443");
    reveal_strlit("/");
    assert("https://localhost:8443/"@ =~= "https://localhost:8443"@ + "/"@);
    assert("https://localhost:8443/"@ + path_and_query =~= "https://localhost:8443"@ + ("/"@
        + path_and_query));
}

} // verus!
