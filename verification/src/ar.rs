//! Fetching a folder of files: a manifest names them, and each is fetched by its
//! own identifier.

use crate::gateway::{address, address_of};
use crate::json::{
    as_members, as_text, json_member, json_of, json_parsed, json_text, law_order_is_strict,
    lists, member, members_of, parse, sorts_before, Json,
};
use crate::mime::{folder_media_type, folder_media_type_of};
use crate::text::optional_text;
use serde_json::Value;
use vstd::hash_map::StringHashMap;
use vstd::prelude::*;

verus! {

/// The files of a folder by their paths: content and media type.
pub struct Folder {
    files: StringHashMap<(Vec<u8>, String)>,
}

impl View for Folder {
    type V = Map<Seq<char>, (Seq<u8>, Seq<char>)>;

    closed spec fn view(&self) -> Map<Seq<char>, (Seq<u8>, Seq<char>)> {
        self.files@.map_values(|file: (Vec<u8>, String)| (file.0@, file.1@))
    }
}

impl Folder {
    /// A folder without files.
    pub fn new() -> (r: Folder)
        ensures
            r@ == Map::<Seq<char>, (Seq<u8>, Seq<char>)>::empty(),
    {
        let r: Folder = Folder { files: StringHashMap::new() };
        assert(r@ =~= Map::<Seq<char>, (Seq<u8>, Seq<char>)>::empty());
        r
    }

    /// Puts a file under a path, in place of what was there, with the media type
    /// that goes by the path.
    pub fn store_file(&mut self, path: String, content: Vec<u8>)
        ensures
            final(self)@ == old(self)@.insert(path@, (content@, folder_media_type(path@))),
    {
        let mime: String = folder_media_type_of(path.as_str());
        self.files.insert(path, (content, mime));
        assert(self@ =~= old(self)@.insert(path@, (content@, folder_media_type(path@))));
    }

    /// The content and the media type of the file under a path, if there is one.
    pub fn get(&self, path: &str) -> (r: Option<&(Vec<u8>, String)>)
        ensures
            match r {
                Some(file) => self@.contains_key(path@) && self@[path@] == (file.0@, file.1@),
                None => !self@.contains_key(path@),
            },
    {
        self.files.get(path)
    }
}

/// Why a folder cannot be fetched: the manifest is no JSON, it has no object of
/// paths, or a path has no identifier.
#[derive(Clone, Copy, Debug, PartialEq, Eq, Structural)]
pub enum FolderError {
    NotJson,
    InvalidManifest,
    InvalidTxid,
}

impl FolderError {
    /// What is reported of the failure.
    pub fn message(&self) -> (r: String)
        ensures
            r@ == (match *self {
                FolderError::NotJson => "error decoding response body"@,
                FolderError::InvalidManifest => "Invalid manifest"@,
                FolderError::InvalidTxid => "Invalid txid"@,
            }),
    {
        match *self {
            FolderError::NotJson => "error decoding response body".to_string(),
            FolderError::InvalidManifest => "Invalid manifest".to_string(),
            FolderError::InvalidTxid => "Invalid txid".to_string(),
        }
    }
}

/// The paths that a manifest names, each with its identifier if that is a text;
/// none if the manifest has no object of paths.
pub open spec fn manifest_paths(manifest: Json) -> Option<Map<Seq<char>, Option<Seq<char>>>> {
    match json_member(manifest, "paths"@) {
        Json::Object(members) => Some(
            members.map_values(|info: Json| json_text(json_member(info, "id"@))),
        ),
        _ => None,
    }
}

/// A folder that is being fetched: what is to be fetched, how much of that was,
/// and the files so far.
pub struct FolderFetch {
    entries: Vec<(String, Option<String>)>,
    next: usize,
    files: Folder,
}

/// Where the fetching of a folder stands.
#[verifier::ext_equal]
pub struct FetchView {
    pub entries: Seq<(Seq<char>, Option<Seq<char>>)>,
    pub next: int,
    pub files: Map<Seq<char>, (Seq<u8>, Seq<char>)>,
}

/// What an entry says.
pub open spec fn entry_view(entry: (String, Option<String>)) -> (Seq<char>, Option<Seq<char>>) {
    (entry.0@, optional_text(entry.1))
}

impl View for FolderFetch {
    type V = FetchView;

    closed spec fn view(&self) -> FetchView {
        FetchView {
            entries: self.entries@.map_values(
                |entry: (String, Option<String>)| entry_view(entry),
            ),
            next: self.next as int,
            files: self.files@,
        }
    }
}

/// What to do next for a folder.
pub enum FolderStep {
    /// Fetch the file at this address.
    Fetch { url: String },
    /// All files are there.
    Done,
    /// Give up.
    Fail { error: FolderError },
}

/// What a step says.
pub enum FolderStepView {
    Fetch { url: Seq<char> },
    Done,
    Fail { error: FolderError },
}

impl View for FolderStep {
    type V = FolderStepView;

    open spec fn view(&self) -> FolderStepView {
        match *self {
            FolderStep::Fetch { url } => FolderStepView::Fetch { url: url@ },
            FolderStep::Done => FolderStepView::Done,
            FolderStep::Fail { error } => FolderStepView::Fail { error },
        }
    }
}

/// What to do next: fetch the next file, unless it has no identifier or there is
/// none.
pub open spec fn folder_step(fetch: FetchView) -> FolderStepView {
    if fetch.next >= fetch.entries.len() {
        FolderStepView::Done
    } else {
        match fetch.entries[fetch.next].1 {
            Some(id) => FolderStepView::Fetch { url: address(id) },
            None => FolderStepView::Fail { error: FolderError::InvalidTxid },
        }
    }
}

/// What the content of the next file makes of the fetching.
pub open spec fn with_file(fetch: FetchView, content: Seq<u8>) -> FetchView {
    let path = fetch.entries[fetch.next].0;
    FetchView {
        entries: fetch.entries,
        next: fetch.next + 1,
        files: fetch.files.insert(path, (content, folder_media_type(path))),
    }
}

/// Whether the fetching of the paths that a manifest names is at its start: they
/// are to be fetched in the order of the paths, and nothing was fetched yet.
pub open spec fn begins(
    paths: Map<Seq<char>, Option<Seq<char>>>,
    fetch: FetchView,
) -> bool {
    &&& lists(paths, fetch.entries)
    &&& fetch.next == 0
    &&& fetch.files == Map::<Seq<char>, (Seq<u8>, Seq<char>)>::empty()
}

impl FolderFetch {
    /// Begins to fetch the folder of a manifest, given the manifest's bytes.
    pub fn start(manifest: &[u8]) -> (r: Result<FolderFetch, FolderError>)
        ensures
            match json_parsed(manifest@) {
                None => r == Err::<FolderFetch, FolderError>(FolderError::NotJson),
                Some(json) => match manifest_paths(json) {
                    None => r == Err::<FolderFetch, FolderError>(FolderError::InvalidManifest),
                    Some(paths) => r matches Ok(fetch) && begins(paths, fetch@),
                },
            },
    {
        match parse(manifest) {
            Some(value) => FolderFetch::from_manifest(&value),
            None => Err(FolderError::NotJson),
        }
    }

    /// Begins to fetch the folder of a manifest.
    pub fn from_manifest(manifest: &Value) -> (r: Result<FolderFetch, FolderError>)
        ensures
            match manifest_paths(json_of(*manifest)) {
                None => r == Err::<FolderFetch, FolderError>(FolderError::InvalidManifest),
                Some(paths) => r matches Ok(fetch) && begins(paths, fetch@),
            },
    {
        let members: Vec<(String, &Value)> = match as_members(member(manifest, "paths")) {
            Some(members) => members,
            None => {
                return Err(FolderError::InvalidManifest);
            },
        };
        let ghost listed = members_of(members@);
        let mut entries: Vec<(String, Option<String>)> = Vec::new();
        for i in 0..members.len()
            invariant
                listed == members_of(members@),
                entries@.len() == i,
                forall|j: int|
                    0 <= j < i ==> entry_view(#[trigger] entries@[j]) == (
                        listed[j].0,
                        json_text(json_member(listed[j].1, "id"@)),
                    ),
        {
            let path: String = members[i].0.clone();
            let id: Option<String> = match as_text(member(members[i].1, "id")) {
                Some(text) => Some(text.to_string()),
                None => None,
            };
            entries.push((path, id));
        }
        let fetch: FolderFetch = FolderFetch { entries, next: 0, files: Folder::new() };
        proof {
            let paths = manifest_paths(json_of(*manifest))->0;
            let list = fetch@.entries;
            assert(list.len() == listed.len());
            assert forall|i: int| 0 <= i < list.len() implies #[trigger] list[i] == (
                listed[i].0,
                json_text(json_member(listed[i].1, "id"@)),
            ) by {
                assert(entry_view(entries@[i]) == list[i]);
            }
            assert forall|key: Seq<char>| #[trigger] paths.contains_key(key) implies exists|i: int|
                0 <= i < list.len() && list[i].0 == key by {
                let i = choose|i: int| 0 <= i < listed.len() && listed[i].0 == key;
                assert(list[i].0 == key);
            }
            assert(lists(paths, list));
        }
        Ok(fetch)
    }

    /// What to do next.
    pub fn next_step(&self) -> (r: FolderStep)
        ensures
            r@ == folder_step(self@),
    {
        if self.next >= self.entries.len() {
            return FolderStep::Done;
        }
        match &self.entries[self.next].1 {
            Some(id) => FolderStep::Fetch { url: address_of(id.as_str()) },
            None => FolderStep::Fail { error: FolderError::InvalidTxid },
        }
    }

    /// Takes the content of the file that was to be fetched next.
    pub fn receive(&mut self, content: Vec<u8>)
        requires
            folder_step(old(self)@) is Fetch,
        ensures
            final(self)@ == with_file(old(self)@, content@),
    {
        assert(self.next < self.entries.len());
        let path: String = self.entries[self.next].0.clone();
        self.files.store_file(path, content);
        self.next = self.next + 1;
    }

    /// The files that were fetched.
    pub fn into_files(self) -> (r: Folder)
        ensures
            r@ == self@.files,
    {
        self.files
    }
}

/// A path that sorts before another is not that other.
proof fn lemma_sorted_apart(a: Seq<char>, b: Seq<char>)
    requires
        sorts_before(a, b),
    ensures
        a != b,
{
    law_order_is_strict(a, b);
}

/// The fetching after some more files have come in.
pub open spec fn with_files(fetch: FetchView, contents: Seq<Seq<u8>>) -> FetchView
    decreases contents.len(),
{
    if contents.len() == 0 {
        fetch
    } else {
        with_file(with_files(fetch, contents.drop_last()), contents.last())
    }
}

/// The files that have come in so far are those of the first paths, each with
/// the content that came for it and the media type that goes by its path.
proof fn lemma_files_so_far(
    paths: Map<Seq<char>, Option<Seq<char>>>,
    fetch: FetchView,
    contents: Seq<Seq<u8>>,
)
    requires
        begins(paths, fetch),
        contents.len() <= fetch.entries.len(),
    ensures
        with_files(fetch, contents).entries == fetch.entries,
        with_files(fetch, contents).next == contents.len(),
        forall|i: int|
            0 <= i < contents.len() ==> with_files(fetch, contents).files.contains_pair(
                (#[trigger] fetch.entries[i]).0,
                (contents[i], folder_media_type(fetch.entries[i].0)),
            ),
        forall|path: Seq<char>| #[trigger]
            with_files(fetch, contents).files.contains_key(path) ==> exists|i: int|
                0 <= i < contents.len() && (#[trigger] fetch.entries[i]).0 == path,
    decreases contents.len(),
{
    if contents.len() > 0 {
        let fewer = contents.drop_last();
        let last = contents.len() - 1;
        lemma_files_so_far(paths, fetch, fewer);
        let before = with_files(fetch, fewer);
        let after = with_files(fetch, contents);
        assert forall|i: int| 0 <= i < contents.len() implies after.files.contains_pair(
            (#[trigger] fetch.entries[i]).0,
            (contents[i], folder_media_type(fetch.entries[i].0)),
        ) by {
            if i < last {
                assert(fewer[i] == contents[i]);
                assert(before.files.contains_pair(
                    fetch.entries[i].0,
                    (fewer[i], folder_media_type(fetch.entries[i].0)),
                ));
                lemma_sorted_apart(fetch.entries[i].0, fetch.entries[last].0);
            }
        }
        assert forall|path: Seq<char>| #[trigger] after.files.contains_key(path) implies exists|
            i: int,
        | 0 <= i < contents.len() && (#[trigger] fetch.entries[i]).0 == path by {
            if path == fetch.entries[last].0 {
            } else {
                assert(before.files.contains_key(path));
                let i = choose|i: int| 0 <= i < fewer.len() && (#[trigger] fetch.entries[i]).0 == path;
                assert(fetch.entries[i].0 == path);
            }
        }
    }
}

/// A folder whose files have all come in holds exactly the paths of the
/// manifest, each with the content that came for it and the media type that
/// goes by the path, and nothing more is to be fetched.
pub proof fn law_whole_folder(
    paths: Map<Seq<char>, Option<Seq<char>>>,
    fetch: FetchView,
    contents: Seq<Seq<u8>>,
)
    requires
        begins(paths, fetch),
        contents.len() == fetch.entries.len(),
    ensures
        folder_step(with_files(fetch, contents)) == FolderStepView::Done,
        with_files(fetch, contents).files.dom() == paths.dom(),
        forall|i: int|
            0 <= i < contents.len() ==> with_files(fetch, contents).files[(
            #[trigger] fetch.entries[i]).0] == (
                contents[i],
                folder_media_type(fetch.entries[i].0),
            ),
{
    lemma_files_so_far(paths, fetch, contents);
    let files = with_files(fetch, contents).files;
    assert forall|path: Seq<char>| files.dom().contains(path) == paths.dom().contains(path) by {
        if files.contains_key(path) {
            let i = choose|i: int| 0 <= i < contents.len() && (#[trigger] fetch.entries[i]).0 == path;
            assert(paths.contains_key(fetch.entries[i].0));
        }
        if paths.contains_key(path) {
            let i = choose|i: int| 0 <= i < fetch.entries.len() && fetch.entries[i].0 == path;
            assert(files.contains_pair(
                fetch.entries[i].0,
                (contents[i], folder_media_type(fetch.entries[i].0)),
            ));
        }
    }
    assert(files.dom() =~= paths.dom());
    assert forall|i: int| 0 <= i < contents.len() implies files[(#[trigger] fetch.entries[i]).0] == (
        contents[i],
        folder_media_type(fetch.entries[i].0),
    ) by {
        assert(files.contains_pair(
            fetch.entries[i].0,
            (contents[i], folder_media_type(fetch.entries[i].0)),
        ));
    }
}

/// The files are asked for one by one, in the order of their paths, each at the
/// address of its identifier; a path without one ends the fetching, whatever
/// came in before.
pub proof fn law_requests_in_order(
    paths: Map<Seq<char>, Option<Seq<char>>>,
    fetch: FetchView,
    contents: Seq<Seq<u8>>,
)
    requires
        begins(paths, fetch),
        contents.len() < fetch.entries.len(),
    ensures
        folder_step(with_files(fetch, contents)) == (match paths[fetch.entries[contents.len() as int].0] {
            Some(id) => FolderStepView::Fetch { url: "https://arweave.net/"@ + id },
            None => FolderStepView::Fail { error: FolderError::InvalidTxid },
        }),
{
    lemma_files_so_far(paths, fetch, contents);
    assert(paths.contains_key(fetch.entries[contents.len() as int].0));
}

/// The paths of a manifest are the keys of its object of paths, however many
/// and whatever else the manifest holds; the identifier of each is the text under
/// its own key, where there is one.
pub proof fn law_paths_of_manifest(
    members: Map<Seq<char>, Json>,
    paths: Map<Seq<char>, Json>,
    path: Seq<char>,
)
    requires
        members.contains_key("paths"@),
        members["paths"@] == Json::Object(paths),
    ensures
        manifest_paths(Json::Object(members)) is Some,
        manifest_paths(Json::Object(members))->0.dom() == paths.dom(),
        paths.contains_key(path) ==> manifest_paths(Json::Object(members))->0[path] == (
        match paths[path] {
            Json::Object(info) => if info.contains_key("id"@) {
                match info["id"@] {
                    Json::Text(id) => Some(id),
                    _ => None,
                }
            } else {
                None
            },
            _ => None,
        }),
{
    assert(manifest_paths(Json::Object(members))->0.dom() =~= paths.dom());
}

/// A manifest that is no object, or has no object of paths, names none.
pub proof fn law_manifest_without_paths(manifest: Json)
    requires
        manifest matches Json::Object(members) ==> !members.contains_key("paths"@)
            || !(members["paths"@] is Object),
    ensures
        manifest_paths(manifest) is None,
{
}

/// The next file is asked for at the gateway under its identifier as it is; a
/// path without one ends the fetching, and so does the end of the list.
pub proof fn law_next_request(fetch: FetchView)
    ensures
        0 <= fetch.next < fetch.entries.len() && fetch.entries[fetch.next].1 is Some
            ==> folder_step(fetch) == (FolderStepView::Fetch {
            url: "https://arweave.net/"@ + fetch.entries[fetch.next].1->0,
        }),
        0 <= fetch.next < fetch.entries.len() && fetch.entries[fetch.next].1 is None
            ==> folder_step(fetch) == (FolderStepView::Fail { error: FolderError::InvalidTxid }),
        fetch.next >= fetch.entries.len() ==> folder_step(fetch) == FolderStepView::Done,
{
}

/// A file that comes in is kept as it came, whatever it holds, with the media
/// type that goes by its path; the other files stay, and it is the next one's
/// turn.
pub proof fn law_file_is_kept(fetch: FetchView, content: Seq<u8>, other: Seq<char>)
    requires
        0 <= fetch.next < fetch.entries.len(),
    ensures
        ({
            let path = fetch.entries[fetch.next].0;
            let after = with_file(fetch, content);
            &&& after.files.contains_key(path)
            &&& after.files[path].0 == content
            &&& after.files[path].1 == folder_media_type(path)
            &&& other != path ==> (after.files.contains_key(other) <==> fetch.files.contains_key(
                other,
            ))
            &&& other != path && fetch.files.contains_key(other) ==> after.files[other]
                == fetch.files[other]
            &&& after.entries == fetch.entries
            &&& after.next == fetch.next + 1
        }),
{
}

/// The fetching begins with every path of the manifest on its list, once, with
/// its identifier, in the order of the paths, and with no files.
pub proof fn law_fetching_begins_with_all_paths(
    paths: Map<Seq<char>, Option<Seq<char>>>,
    fetch: FetchView,
    path: Seq<char>,
)
    requires
        begins(paths, fetch),
    ensures
        fetch.next == 0,
        forall|key: Seq<char>| !#[trigger] fetch.files.contains_key(key),
        paths.contains_key(path) <==> exists|i: int|
            0 <= i < fetch.entries.len() && (#[trigger] fetch.entries[i]).0 == path,
        forall|i: int|
            0 <= i < fetch.entries.len() ==> (#[trigger] fetch.entries[i]).1
                == paths[fetch.entries[i].0],
        forall|i: int, j: int|
            0 <= i < j < fetch.entries.len() ==> (#[trigger] fetch.entries[i]).0 != (
            #[trigger] fetch.entries[j]).0 && !sorts_before(
                fetch.entries[j].0,
                fetch.entries[i].0,
            ),
{
    if paths.contains_key(path) {
        let i = choose|i: int| 0 <= i < fetch.entries.len() && fetch.entries[i].0 == path;
        assert(fetch.entries[i].0 == path);
    }
    assert forall|i: int| 0 <= i < fetch.entries.len() implies paths.contains_key(
        (#[trigger] fetch.entries[i]).0,
    ) && fetch.entries[i].1 == paths[fetch.entries[i].0] by {
        assert(paths.contains_key(fetch.entries[i].0));
    }
    assert forall|i: int, j: int| 0 <= i < j < fetch.entries.len() implies (
    #[trigger] fetch.entries[i]).0 != (#[trigger] fetch.entries[j]).0 && !sorts_before(
        fetch.entries[j].0,
        fetch.entries[i].0,
    ) by {
        law_order_is_strict(fetch.entries[i].0, fetch.entries[j].0);
    }
}

/// What a step says is what it holds, and an entry says its path and identifier.
pub proof fn law_folder_step_says_what_it_holds(
    step: FolderStep,
    entry: (String, Option<String>),
)
    ensures
        match step {
            FolderStep::Fetch { url } => step@ == (FolderStepView::Fetch { url: url@ }),
            FolderStep::Done => step@ == FolderStepView::Done,
            FolderStep::Fail { error } => step@ == (FolderStepView::Fail { error }),
        },
        entry_view(entry).0 == entry.0@,
        entry_view(entry).1 is Some <==> entry.1 is Some,
        entry.1 is Some ==> entry_view(entry).1->0 == entry.1->0@,
{
}

} // verus!
