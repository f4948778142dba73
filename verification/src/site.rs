//! The files that the host serves.

use crate::mime::{extension, media_type, media_type_of};
use vstd::hash_map::StringHashMap;
use vstd::prelude::*;

verus! {

/// The path of the page that stands for the whole site.
pub const INDEX_PAGE: &'static str = "index.html";

/// A file that is ready to be served: its content, its media type, and the
/// content compressed ahead of time.
pub struct StoredFile {
    pub content: Vec<u8>,
    pub mime: String,
    pub brotli: Option<Vec<u8>>,
    pub gzip: Option<Vec<u8>>,
}

/// What a stored file holds.
#[verifier::ext_equal]
pub struct FileView {
    pub content: Seq<u8>,
    pub mime: Seq<char>,
    pub brotli: Option<Seq<u8>>,
    pub gzip: Option<Seq<u8>>,
}

/// The bytes of an optional vector.
pub open spec fn optional_bytes(bytes: Option<Vec<u8>>) -> Option<Seq<u8>> {
    match bytes {
        Some(bytes) => Some(bytes@),
        None => None,
    }
}

impl View for StoredFile {
    type V = FileView;

    open spec fn view(&self) -> FileView {
        FileView {
            content: self.content@,
            mime: self.mime@,
            brotli: optional_bytes(self.brotli),
            gzip: optional_bytes(self.gzip),
        }
    }
}

/// What is stored under `path` for a file of a site: the media type goes by the
/// extension of the path, and both compressed forms are there.
pub open spec fn file_for(
    path: Seq<char>,
    content: Seq<u8>,
    brotli: Seq<u8>,
    gzip: Seq<u8>,
) -> FileView {
    FileView {
        content,
        mime: media_type(extension(path)),
        brotli: Some(brotli),
        gzip: Some(gzip),
    }
}

/// The files of a site by their paths.
pub struct Site {
    files: StringHashMap<StoredFile>,
}

impl View for Site {
    type V = Map<Seq<char>, FileView>;

    closed spec fn view(&self) -> Map<Seq<char>, FileView> {
        self.files@.map_values(|file: StoredFile| file@)
    }
}

impl Site {
    /// A site without files.
    pub fn new() -> (r: Site)
        ensures
            r@ == Map::<Seq<char>, FileView>::empty(),
    {
        let r: Site = Site { files: StringHashMap::new() };
        assert(r@ =~= Map::<Seq<char>, FileView>::empty());
        r
    }

    /// Puts a file under a path, in place of what was there.
    pub fn insert(&mut self, path: String, file: StoredFile)
        ensures
            final(self)@ == old(self)@.insert(path@, file@),
    {
        self.files.insert(path, file);
        assert(self@ =~= old(self)@.insert(path@, file@));
    }

    /// The file under a path, if there is one.
    pub fn get(&self, path: &str) -> (r: Option<&StoredFile>)
        ensures
            match r {
                Some(file) => self@.contains_key(path@) && self@[path@] == file@,
                None => !self@.contains_key(path@),
            },
    {
        self.files.get(path)
    }

    /// Whether there is a file under a path.
    pub fn contains_key(&self, path: &str) -> (r: bool)
        ensures
            r == self@.contains_key(path@),
    {
        self.files.contains_key(path)
    }

    /// Puts a file under a path, with the media type that goes by the path.
    pub fn store_file(&mut self, path: String, content: Vec<u8>, brotli: Vec<u8>, gzip: Vec<u8>)
        ensures
            final(self)@ == old(self)@.insert(
                path@,
                file_for(path@, content@, brotli@, gzip@),
            ),
    {
        let mime: String = media_type_of(path.as_str());
        self.insert(
            path,
            StoredFile { content, mime, brotli: Some(brotli), gzip: Some(gzip) },
        );
    }
}

/// What a stored file says is what its fields hold.
pub proof fn law_stored_file_says_its_fields(file: StoredFile)
    ensures
        file@.content == file.content@,
        file@.mime == file.mime@,
        file@.brotli is Some <==> file.brotli is Some,
        file.brotli is Some ==> file@.brotli->0 == file.brotli->0@,
        file@.gzip is Some <==> file.gzip is Some,
        file.gzip is Some ==> file@.gzip->0 == file.gzip->0@,
{
}

/// What is stored for a file holds the content and both forms as they were
/// given, whatever they are.
pub proof fn law_file_is_stored_as_given(
    path: Seq<char>,
    content: Seq<u8>,
    brotli: Seq<u8>,
    gzip: Seq<u8>,
)
    ensures
        file_for(path, content, brotli, gzip).content == content,
        file_for(path, content, brotli, gzip).mime == media_type(extension(path)),
        file_for(path, content, brotli, gzip).brotli == Some(brotli),
        file_for(path, content, brotli, gzip).gzip == Some(gzip),
{
}

} // verus!
