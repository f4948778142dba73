//! The media type of a file, by the extension of its path.

use crate::text::{
    after_last, chars_of, last_position, lemma_last_position, lemma_last_position_is, slice_of, spells,
};
use vstd::prelude::*;

verus! {

/// The last component of a `/`-separated path, if that is an ordinary name.
///
/// Empty components and `.` are passed over, as in `a//b/.`; a path that ends
/// in `..`, or that is nothing but `.` and separators, has no file name.
pub open spec fn file_name(path: Seq<char>) -> Option<Seq<char>>
    decreases path.len(),
{
    let start = last_position(path, '/') + 1;
    let name = path.skip(start);
    if name == seq!['.', '.'] {
        None
    } else if name.len() > 0 && name != seq!['.'] {
        Some(name)
    } else if 0 < start <= path.len() {
        file_name(path.take(start - 1))
    } else {
        None
    }
}

/// The part of the file name behind its last dot, unless the file name has no
/// dot or only one at its very start.
pub open spec fn extension(path: Seq<char>) -> Option<Seq<char>> {
    match file_name(path) {
        Some(name) if last_position(name, '.') > 0 => Some(
            name.skip(last_position(name, '.') + 1),
        ),
        _ => None,
    }
}

/// In whatever directory a file lies, what stands behind the last dot of its
/// name is its extension, if something stands before that dot.
pub proof fn law_extension_of_file(directory: Seq<char>, stem: Seq<char>, ext: Seq<char>)
    requires
        directory.len() == 0 || directory.last() == '/',
        stem.len() > 0,
        !stem.contains('/'),
        !ext.contains('/'),
        !ext.contains('.'),
        stem != seq!['.'] || ext.len() > 0,
    ensures
        extension(directory + stem + seq!['.'] + ext) == Some(ext),
{
    let name = stem + seq!['.'] + ext;
    let path = directory + stem + seq!['.'] + ext;
    assert(path =~= directory + name);
    assert forall|i: int| 0 <= i < name.len() implies name[i] != '/' by {
        if i < stem.len() {
            assert(stem.contains(stem[i]));
        } else if i > stem.len() {
            assert(ext.contains(ext[i - stem.len() - 1]));
        }
    }
    lemma_last_position(path, '/');
    let cut = last_position(path, '/');
    assert(cut + 1 == directory.len()) by {
        if directory.len() > 0 {
            assert(path[directory.len() - 1] == '/');
        }
        if cut >= directory.len() {
            assert(path[cut] == name[cut - directory.len()]);
        }
    }
    assert(path.skip(cut + 1) =~= name);
    assert(name != seq!['.']);
    assert(name != seq!['.', '.']) by {
        if name == seq!['.', '.'] {
            assert(stem.len() == 1 && ext.len() == 0);
            assert(stem[0] == name[0]);
            assert(stem =~= seq!['.']);
        }
    }
    assert(file_name(path) == Some(name));
    assert forall|i: int| stem.len() < i < name.len() implies name[i] != '.' by {
        assert(ext.contains(ext[i - stem.len() - 1]));
    }
    lemma_last_position_is(name, '.', stem.len() as int);
    assert(name.skip(stem.len() as int + 1) =~= ext);
}

/// The media type that goes with an extension.
pub open spec fn media_type(ext: Option<Seq<char>>) -> Seq<char> {
    if ext == Some("html"@) {
        "text/html"@
    } else if ext == Some("css"@) {
        "text/css"@
    } else if ext == Some("js"@) {
        "application/javascript"@
    } else if ext == Some("png"@) {
        "image/png"@
    } else if ext == Some("jpg"@) || ext == Some("jpeg"@) {
        "image/jpeg"@
    } else if ext == Some("svg"@) {
        "image/svg+xml"@
    } else if ext == Some("ico"@) {
        "image/x-icon"@
    } else {
        "application/octet-stream"@
    }
}

/// The extension of a path, as characters.
pub fn path_extension(path: &str) -> (r: Option<Vec<char>>)
    ensures
        match r {
            Some(ext) => extension(path@) == Some(ext@),
            None => extension(path@) is None,
        },
{
    let chars: Vec<char> = chars_of(path);
    let mut end: usize = chars.len();
    assert(chars@.take(end as int) == path@);
    loop
        invariant
            end <= chars@.len(),
            file_name(chars@.take(end as int)) == file_name(path@),
        decreases end,
    {
        let start: usize = after_last(&chars, end, '/');
        let ghost name = chars@.subrange(start as int, end as int);
        assert(chars@.take(end as int).skip(start as int) == name);
        let len: usize = end - start;
        if len == 2 && chars[start] == '.' && chars[start + 1] == '.' {
            assert(name == seq!['.', '.']);
            return None;
        }
        if len > 0 && !(len == 1 && chars[start] == '.') {
            assert(name != seq!['.', '.']) by {
                if name == seq!['.', '.'] {
                    assert(name[0] == '.' && name[1] == '.');
                }
            }
            assert(name != seq!['.']) by {
                if name == seq!['.'] {
                    assert(name[0] == '.');
                }
            }
            let file: Vec<char> = slice_of(&chars, start, end);
            assert(file@.take(file@.len() as int) == file@);
            let dot: usize = after_last(&file, file.len(), '.');
            if dot <= 1 {
                return None;
            }
            let ext: Vec<char> = slice_of(&file, dot, file.len());
            assert(ext@ == file@.skip(dot as int));
            return Some(ext);
        }
        assert(len == 1 ==> name == seq!['.']);
        assert(name != seq!['.', '.']);
        if start == 0 {
            return None;
        }
        assert(chars@.take(end as int).take(start - 1) == chars@.take(start - 1));
        end = start - 1;
    }
}

/// The media type of a file of a site, by the extension of its path.
pub fn media_type_of(path: &str) -> (r: String)
    ensures
        r@ == media_type(extension(path@)),
{
    let ext: Vec<char> = match path_extension(path) {
        Some(ext) => ext,
        None => {
            return "application/octet-stream".to_string();
        },
    };
    let name: &str = if spells(&ext, "html") {
        "text/html"
    } else if spells(&ext, "css") {
        "text/css"
    } else if spells(&ext, "js") {
        "application/javascript"
    } else if spells(&ext, "png") {
        "image/png"
    } else if spells(&ext, "jpg") || spells(&ext, "jpeg") {
        "image/jpeg"
    } else if spells(&ext, "svg") {
        "image/svg+xml"
    } else if spells(&ext, "ico") {
        "image/x-icon"
    } else {
        "application/octet-stream"
    };
    name.to_string()
}

/// What stands behind the last dot of a path, the whole path where it has none.
pub open spec fn dotted_tail(path: Seq<char>) -> Seq<char> {
    path.skip(last_position(path, '.') + 1)
}

/// The media type of a file of a folder, by what stands behind the last dot of
/// its path.
pub open spec fn folder_media_type(path: Seq<char>) -> Seq<char> {
    if dotted_tail(path) == "html"@ {
        "text/html"@
    } else if dotted_tail(path) == "js"@ {
        "application/javascript"@
    } else if dotted_tail(path) == "css"@ {
        "text/css"@
    } else {
        "application/octet-stream"@
    }
}

/// The media type of a file of a folder, by what stands behind the last dot of
/// its path.
pub fn folder_media_type_of(path: &str) -> (r: String)
    ensures
        r@ == folder_media_type(path@),
{
    let chars: Vec<char> = chars_of(path);
    assert(chars@.take(chars@.len() as int) == path@);
    let start: usize = after_last(&chars, chars.len(), '.');
    let tail: Vec<char> = slice_of(&chars, start, chars.len());
    assert(tail@ == dotted_tail(path@));
    let name: &str = if spells(&tail, "html") {
        "text/html"
    } else if spells(&tail, "js") {
        "application/javascript"
    } else if spells(&tail, "css") {
        "text/css"
    } else {
        "application/octet-stream"
    };
    name.to_string()
}

/// A separator at the end of a path, or one and a dot, change nothing.
pub proof fn law_extension_passes_over_end(path: Seq<char>)
    ensures
        extension(path + seq!['/']) == extension(path),
        extension(path + seq!['/', '.']) == extension(path),
{
    let slash = path + seq!['/'];
    lemma_last_position_is(slash, '/', path.len() as int);
    assert(slash.skip(path.len() as int + 1) =~= Seq::<char>::empty());
    assert(slash.take(path.len() as int) =~= path);
    assert(file_name(slash) == file_name(path));
    let dot = path + seq!['/', '.'];
    lemma_last_position_is(dot, '/', path.len() as int);
    assert(dot.skip(path.len() as int + 1) =~= seq!['.']);
    assert(dot.take(path.len() as int) =~= path);
    assert(file_name(dot) == file_name(path));
}

/// In whatever directory it lies, a file whose name has no dot, or one at its
/// very start alone, has no extension and is taken for mere bytes; and so is the
/// parent of a directory, and an empty path.
pub proof fn law_no_extension(directory: Seq<char>, name: Seq<char>)
    requires
        directory.len() == 0 || directory.last() == '/',
        !name.contains('/'),
        name == seq!['.', '.'] || (name != seq!['.'] && name.len() > 0 && forall|i: int|
            0 < i < name.len() ==> name[i] != '.') || (directory.len() == 0 && (name == seq!['.']
            || name.len() == 0)),
    ensures
        extension(directory + name) is None,
        media_type(extension(directory + name)) == "application/octet-stream"@,
{
    let path = directory + name;
    lemma_last_position(path, '/');
    let cut = last_position(path, '/');
    assert(cut + 1 == directory.len()) by {
        if directory.len() > 0 {
            assert(path[directory.len() - 1] == '/');
        }
        if cut >= directory.len() {
            assert(path[cut] == name[cut - directory.len()]);
            assert(name.contains(name[cut - directory.len()]));
        }
    }
    assert(path.skip(cut + 1) =~= name);
    lemma_last_position(name, '.');
}

/// In whatever directory a file of a site lies, the extension of its name says
/// what it is: one of these, or mere bytes.
pub proof fn law_site_media_types(directory: Seq<char>, stem: Seq<char>, ext: Seq<char>)
    requires
        directory.len() == 0 || directory.last() == '/',
        stem.len() > 0,
        !stem.contains('/'),
        !ext.contains('/'),
        !ext.contains('.'),
        stem != seq!['.'] || ext.len() > 0,
    ensures
        ({
            let mime = media_type(extension(directory + stem + seq!['.'] + ext));
            &&& ext == "html"@ ==> mime == "text/html"@
            &&& ext == "css"@ ==> mime == "text/css"@
            &&& ext == "js"@ ==> mime == "application/javascript"@
            &&& ext == "png"@ ==> mime == "image/png"@
            &&& ext == "jpg"@ || ext == "jpeg"@ ==> mime == "image/jpeg"@
            &&& ext == "svg"@ ==> mime == "image/svg+xml"@
            &&& ext == "ico"@ ==> mime == "image/x-icon"@
            &&& ext != "html"@ && ext != "css"@ && ext != "js"@ && ext != "png"@ && ext != "jpg"@
                && ext != "jpeg"@ && ext != "svg"@ && ext != "ico"@ ==> mime
                == "application/octet-stream"@
        }),
{
    law_extension_of_file(directory, stem, ext);
    reveal_strlit("html");
    reveal_strlit("css");
    reveal_strlit("js");
    reveal_strlit("png");
    reveal_strlit("jpg");
    reveal_strlit("jpeg");
    reveal_strlit("svg");
    reveal_strlit("ico");
    assert("css"@[0] == 'c' && "png"@[0] == 'p' && "jpg"@[0] == 'j' && "svg"@[0] == 's'
        && "ico"@[0] == 'i');
    assert("html"@[0] == 'h' && "jpeg"@[0] == 'j');
}

/// Whatever stands before the last dot of a path of a folder, slashes and dots
/// with it, what stands behind says what the file is: one of these, or mere
/// bytes.
pub proof fn law_folder_media_types(stem: Seq<char>, ext: Seq<char>)
    requires
        !ext.contains('.'),
    ensures
        ({
            let mime = folder_media_type(stem + seq!['.'] + ext);
            &&& ext == "html"@ ==> mime == "text/html"@
            &&& ext == "js"@ ==> mime == "application/javascript"@
            &&& ext == "css"@ ==> mime == "text/css"@
            &&& ext != "html"@ && ext != "js"@ && ext != "css"@ ==> mime
                == "application/octet-stream"@
        }),
{
    let path = stem + seq!['.'] + ext;
    assert forall|i: int| stem.len() < i < path.len() implies path[i] != '.' by {
        assert(ext.contains(ext[i - stem.len() - 1]));
    }
    lemma_last_position_is(path, '.', stem.len() as int);
    assert(path.skip(stem.len() as int + 1) =~= ext);
    reveal_strlit("html");
    reveal_strlit("js");
    reveal_strlit("css");
}

/// A path of a folder without a dot is taken as a whole for what would stand
/// behind one.
pub proof fn law_folder_media_type_without_dot(path: Seq<char>)
    requires
        !path.contains('.'),
    ensures
        path == "html"@ ==> folder_media_type(path) == "text/html"@,
        path == "js"@ ==> folder_media_type(path) == "application/javascript"@,
        path == "css"@ ==> folder_media_type(path) == "text/css"@,
        path != "html"@ && path != "js"@ && path != "css"@ ==> folder_media_type(path)
            == "application/octet-stream"@,
{
    lemma_last_position(path, '.');
    assert(last_position(path, '.') == -1) by {
        if last_position(path, '.') >= 0 {
            assert(path.contains(path[last_position(path, '.')]));
        }
    }
    assert(path.skip(0) =~= path);
    reveal_strlit("html");
    reveal_strlit("js");
    reveal_strlit("css");
}

} // verus!
