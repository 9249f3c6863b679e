use vstd::prelude::*;

verus! {

/// What `std::path::Path::extension` gives for a path, as text.
pub uninterp spec fn extension_of(path: Seq<char>) -> Option<Seq<char>>;

/// The extensions of the image files that can be applied.
pub open spec fn accepted_extension(e: Seq<char>) -> bool {
    e == seq!['p', 'n', 'g'] || e == seq!['j', 'p', 'g'] || e == seq!['j', 'p', 'e', 'g']
}

/// Why a file name was turned away.
#[derive(Debug, Clone, Copy, PartialEq, Eq, Structural)]
pub enum ExtensionError {
    /// The name has no extension.
    Missing,
    /// The extension is not one of an image that can be applied.
    Unsupported,
}

pub open spec fn extension_verdict(ext: Option<Seq<char>>) -> Result<(), ExtensionError> {
    match ext {
        None => Err(ExtensionError::Missing),
        Some(e) => if accepted_extension(e) {
            Ok(())
        } else {
            Err(ExtensionError::Unsupported)
        },
    }
}

/// A path that the image filter lets through.
pub open spec fn accepted_path(path: Seq<char>) -> bool {
    extension_verdict(extension_of(path)) is Ok
}

/// Relies on `Path::extension` (with `OsStr::to_str`): the extension of the
/// path's file name, which depends on the path's text alone.
#[verifier::external_body]
fn path_extension(path: &str) -> (r: Option<String>)
    ensures
        extension_of(path@) == match r {
            Some(e) => Some(e@),
            None => None::<Seq<char>>,
        },
{
    std::path::Path::new(path).extension().and_then(|e| e.to_str()).map(|e| e.to_string())
}

/// Whether `ext` is the extension of an image that can be applied.
pub fn is_image_extension(ext: &str) -> (r: bool)
    ensures
        r == accepted_extension(ext@),
{
    let n = ext.unicode_len();
    if n == 3 {
        let a = ext.get_char(0);
        let b = ext.get_char(1);
        let c = ext.get_char(2);
        if a == 'p' && b == 'n' && c == 'g' {
            assert(ext@ =~= seq!['p', 'n', 'g']);
            true
        } else if a == 'j' && b == 'p' && c == 'g' {
            assert(ext@ =~= seq!['j', 'p', 'g']);
            true
        } else {
            assert(ext@[0] == a && ext@[1] == b && ext@[2] == c);
            false
        }
    } else if n == 4 {
        let a = ext.get_char(0);
        let b = ext.get_char(1);
        let c = ext.get_char(2);
        let d = ext.get_char(3);
        if a == 'j' && b == 'p' && c == 'e' && d == 'g' {
            assert(ext@ =~= seq!['j', 'p', 'e', 'g']);
            true
        } else {
            assert(ext@[0] == a && ext@[1] == b && ext@[2] == c && ext@[3] == d);
            false
        }
    } else {
        false
    }
}

/// Judges an extension as the path layer reported it.
pub fn check_extension(ext: Option<&str>) -> (r: Result<(), ExtensionError>)
    ensures
        r == extension_verdict(
            match ext {
                Some(e) => Some(e@),
                None => None::<Seq<char>>,
            },
        ),
{
    match ext {
        None => Err(ExtensionError::Missing),
        Some(e) => if is_image_extension(e) {
            Ok(())
        } else {
            Err(ExtensionError::Unsupported)
        },
    }
}

/// Judges the extension of a file's path.
pub fn check_image_file(path: &str) -> (r: Result<(), ExtensionError>)
    ensures
        r == extension_verdict(extension_of(path@)),
{
    let ext = path_extension(path);
    match ext {
        Some(e) => check_extension(Some(e.as_str())),
        None => check_extension(None),
    }
}

/// Whether a directory entry is an image that can be applied.
pub fn is_valid_image(path: &str) -> (r: bool)
    ensures
        r == accepted_path(path@),
{
    check_image_file(path).is_ok()
}

/// The text of each string.
pub open spec fn views(s: Seq<String>) -> Seq<Seq<char>> {
    s.map_values(|x: String| x@)
}

/// The accepted paths of a listing, in the listing's order.
pub open spec fn accepted_images(s: Seq<Seq<char>>) -> Seq<Seq<char>>
    decreases s.len(),
{
    if s.len() == 0 {
        Seq::empty()
    } else {
        let rest = accepted_images(s.drop_last());
        if accepted_path(s.last()) {
            rest.push(s.last())
        } else {
            rest
        }
    }
}

/// Keeps the entries of a listing that are images, in order.
pub fn filter_images(entries: &Vec<String>) -> (r: Vec<String>)
    ensures
        views(r@) == accepted_images(views(entries@)),
{
    let mut out: Vec<String> = Vec::new();
    let mut i: usize = 0;
    while i < entries.len()
        invariant
            i <= entries.len(),
            views(out@) == accepted_images(views(entries@).subrange(0, i as int)),
        decreases entries.len() - i,
    {
        let e = &entries[i];
        let keep = is_valid_image(e.as_str());
        let ghost before = out@;
        if keep {
            out.push(e.clone());
            assert(views(out@) =~= views(before).push(e@));
        }
        assert(views(entries@).subrange(0, i + 1).drop_last() =~= views(entries@).subrange(
            0,
            i as int,
        ));
        i = i + 1;
    }
    assert(views(entries@).subrange(0, entries.len() as int) =~= views(entries@));
    out
}

} // verus!
