//! Content classification: a file's extension decides how it is delivered.

use vstd::prelude::*;

verus! {

/// How an attachment is delivered to the chat endpoint.
#[derive(Clone, Copy, Debug, PartialEq, Eq, Structural)]
pub enum Category {
    Photo,
    Video,
    Document,
}

/// The extensions delivered as photos. The match is case-sensitive.
pub open spec fn is_photo_extension(ext: Seq<char>) -> bool {
    ext == "png"@ || ext == "jpg"@ || ext == "jpeg"@
}

/// The extensions delivered as videos. The match is case-sensitive.
pub open spec fn is_video_extension(ext: Seq<char>) -> bool {
    ext == "mp4"@ || ext == "gif"@ || ext == "mkv"@
}

/// The category of a file with the given extension (written without its dot),
/// or with none at all.
pub open spec fn category_of(ext: Option<Seq<char>>) -> Category {
    match ext {
        Some(e) => if is_photo_extension(e) {
            Category::Photo
        } else if is_video_extension(e) {
            Category::Video
        } else {
            Category::Document
        },
        None => Category::Document,
    }
}

/// `ext`, preceded by a dot, occurs in `path`, and `ext` itself holds no dot.
pub open spec fn names_extension(path: Seq<char>, ext: Seq<char>) -> bool {
    &&& !ext.contains('.')
    &&& exists|i: int|
        0 <= i && i + 1 + ext.len() <= path.len() && path[i] == '.' && #[trigger] path.subrange(
            i + 1,
            i + 1 + ext.len(),
        ) == ext
}

/// Whether two pieces of text hold the same characters.
pub fn same_text(a: &str, b: &str) -> (same: bool)
    ensures
        same == (a@ == b@),
{
    let n = a.unicode_len();
    if n != b.unicode_len() {
        return false;
    }
    let mut i: usize = 0;
    while i < n
        invariant
            n == a@.len(),
            n == b@.len(),
            i <= n,
            a@.subrange(0, i as int) == b@.subrange(0, i as int),
        decreases n - i,
    {
        if a.get_char(i) != b.get_char(i) {
            assert(a@[i as int] != b@[i as int]);
            return false;
        }
        assert(a@.subrange(0, i + 1) =~= a@.subrange(0, i as int).push(a@[i as int]));
        assert(b@.subrange(0, i + 1) =~= b@.subrange(0, i as int).push(b@[i as int]));
        i += 1;
    }
    assert(a@ =~= a@.subrange(0, n as int));
    assert(b@ =~= b@.subrange(0, n as int));
    true
}

/// Classifies a file by its extension, given without the dot; `None` is a file
/// that has no extension. Never fails: whatever is not in the table is a
/// document.
pub fn classify_extension(ext: Option<&str>) -> (category: Category)
    ensures
        category == category_of(
            match ext {
                Some(e) => Some(e@),
                None => None,
            },
        ),
{
    match ext {
        Some(e) => {
            if same_text(e, "png") || same_text(e, "jpg") || same_text(e, "jpeg") {
                Category::Photo
            } else if same_text(e, "mp4") || same_text(e, "gif") || same_text(e, "mkv") {
                Category::Video
            } else {
                Category::Document
            }
        },
        None => Category::Document,
    }
}

/// No character of `name` separates the components of a path or marks a path
/// prefix on any platform: it holds no slash, no backslash and no colon. Such a
/// path has no directory part; all of it is one component.
pub open spec fn is_plain_name(name: Seq<char>) -> bool {
    !name.contains('/') && !name.contains('\\') && !name.contains(':')
}

/// The place of the final dot of `name`, or -1 where it holds none.
pub open spec fn final_dot(name: Seq<char>) -> int
    decreases name.len(),
{
    if name.len() == 0 {
        -1
    } else if name.last() == '.' {
        name.len() - 1
    } else {
        final_dot(name.drop_last())
    }
}

/// The extension of a file called `name`: what follows its final dot. There is
/// none where `name` holds no dot, where its only dot is its first character,
/// and where it is `..`, which names no file.
pub open spec fn extension_of_name(name: Seq<char>) -> Option<Seq<char>> {
    if name == ".."@ || final_dot(name) <= 0 {
        None
    } else {
        Some(name.subrange(final_dot(name) + 1, name.len() as int))
    }
}

/// Calls `std::path::Path::extension` on `path`. The standard library documents
/// the extension as the portion of the file name after its final dot, and none
/// where there is no file name, where the file name holds no dot, and where it
/// begins with its only dot. So a returned extension holds no dot and stands in
/// the path right after one. Which part of a path is its file name depends on
/// the platform's separators and prefixes; only of a path that holds none of
/// them, and so is its own file name unless it is `..`, is the extension
/// claimed exactly.
#[verifier::external_body]
fn path_extension(path: &str) -> (ext: Option<String>)
    ensures
        ext matches Some(e) ==> names_extension(path@, e@),
        is_plain_name(path@) ==> ext.deep_view() == extension_of_name(path@),
{
    std::path::Path::new(path).extension().map(|ext| ext.to_string_lossy().into_owned())
}

/// Classifies the file at `path` by the extension that the platform's path
/// rules find in it. A path without a directory part is classified by what
/// follows its final dot; in any path, only an extension that stands in it
/// after a dot can make it a photo or a video.
pub fn classify(path: &str) -> (category: Category)
    ensures
        is_plain_name(path@) ==> category == category_of(extension_of_name(path@)),
        category != Category::Document ==> exists|ext: Seq<char>|
            #[trigger] names_extension(path@, ext) && category == category_of(Some(ext)),
        !path@.contains('.') ==> category == Category::Document,
{
    match path_extension(path) {
        Some(ext) => {
            let category = classify_extension(Some(ext.as_str()));
            proof {
                if !path@.contains('.') {
                    let i = choose|i: int|
                        0 <= i && i + 1 + ext@.len() <= path@.len() && path@[i] == '.'
                            && #[trigger] path@.subrange(i + 1, i + 1 + ext@.len()) == ext@;
                    assert(path@.contains(path@[i]));
                }
            }
            category
        },
        None => classify_extension(None),
    }
}

/// The table is exhaustive and unambiguous: an extension of the photo list is a
/// photo, one of the video list is a video, and every other extension, like a
/// missing one, is a document.
pub proof fn categories_follow_the_table(ext: Option<Seq<char>>)
    ensures
        category_of(ext) == Category::Photo <==> ext is Some && is_photo_extension(ext->0),
        category_of(ext) == Category::Video <==> ext is Some && is_video_extension(ext->0),
        category_of(ext) == Category::Document <==> ext is None || !(is_photo_extension(ext->0)
            || is_video_extension(ext->0)),
{
    reveal_strlit("png");
    reveal_strlit("jpg");
    reveal_strlit("jpeg");
    reveal_strlit("mp4");
    reveal_strlit("gif");
    reveal_strlit("mkv");
    if let Some(e) = ext {
        if is_video_extension(e) {
            assert(e.len() == 3);
            assert(e[0] != 'p' && e[0] != 'j');
            assert("png"@[0] == 'p' && "jpg"@[0] == 'j');
            assert(!is_photo_extension(e));
        }
    }
}

} // verus!
