use vstd::prelude::*;
use vstd::string::*;

use crate::errors::ImageError;
use crate::paths::{
    eq_ignore_ascii_case, extension_of, file_name_of, join_path, lemma_join_keeps_file_name,
    lemma_last_index_of, parent_of, spec_extension, spec_file_name, spec_join,
    spec_last_index_of, spec_lower, spec_parent,
};

verus! {

/// The bounding box a thumbnail must fit into. Aspect ratio is preserved by
/// the codec, so one axis of the output may fall short of the box.
#[derive(Debug, Clone, Copy)]
pub struct ThumbnailSpec {
    pub max_width: u32,
    pub max_height: u32,
}

impl ThumbnailSpec {
    /// A box is usable only when both axes leave room for at least one pixel.
    pub open spec fn well_formed(&self) -> bool {
        self.max_width >= 1 && self.max_height >= 1
    }

    /// Builds a bounding box of the given dimensions.
    pub fn new(max_width: u32, max_height: u32) -> (r: ThumbnailSpec)
        requires
            max_width >= 1,
            max_height >= 1,
        ensures
            r.max_width == max_width,
            r.max_height == max_height,
            r.well_formed(),
    {
        ThumbnailSpec { max_width, max_height }
    }
}

impl Default for ThumbnailSpec {
    /// The canonical deployment box of 128 by 128 pixels.
    fn default() -> (r: ThumbnailSpec)
        ensures
            r.max_width == 128,
            r.max_height == 128,
            r.well_formed(),
    {
        ThumbnailSpec { max_width: 128, max_height: 128 }
    }
}

/// What the caller observed of the filesystem for one candidate path:
/// whether the path exists, whether it names a regular file, and whether
/// the directory part computed by `spec_parent` exists.
#[derive(Debug, Clone, Copy)]
pub struct PathFacts {
    pub exists: bool,
    pub is_file: bool,
    pub parent_exists: bool,
}

/// The views of a list of allowed extensions.
pub open spec fn views_of(allowed: Seq<String>) -> Seq<Seq<char>> {
    allowed.map_values(|s: String| s@)
}

/// Whether `ext` matches some member of `allowed`, up to ASCII case.
pub open spec fn spec_ext_allowed(ext: Seq<char>, allowed: Seq<Seq<char>>) -> bool {
    exists|i: int| 0 <= i < allowed.len() && spec_lower(ext) == spec_lower(#[trigger] allowed[i])
}

/// The extensions a default deployment accepts.
pub fn default_allowed_extensions() -> (r: Vec<String>)
    ensures
        views_of(r@) =~= seq!["jpg"@, "jpeg"@, "png"@, "gif"@],
{
    let mut v: Vec<String> = Vec::new();
    v.push(String::from_str("jpg"));
    v.push(String::from_str("jpeg"));
    v.push(String::from_str("png"));
    v.push(String::from_str("gif"));
    v
}

/// The outcome of validating one candidate source path against the observed
/// filesystem facts and the allowed extensions: the path must exist, name a
/// regular file, carry an extension, that extension must be allowed, and
/// the path must end in a non-empty file name; the first check to fail
/// names the error.
pub open spec fn spec_validate(
    path: Seq<char>,
    exists_on_disk: bool,
    is_file: bool,
    allowed: Seq<Seq<char>>,
) -> Result<(), ImageError> {
    if !exists_on_disk {
        Err(ImageError::NotFound)
    } else if !is_file {
        Err(ImageError::NotAFile)
    } else if spec_extension(path) is None {
        Err(ImageError::NoFileExtension)
    } else if !spec_ext_allowed(spec_extension(path)->Some_0, allowed) {
        Err(ImageError::UnsupportedExtension)
    } else if spec_file_name(path) is None {
        Err(ImageError::NoFileName)
    } else {
        Ok(())
    }
}

/// The outcome of resolving the thumbnail directory for one source path:
/// the sibling directory `thumbnails` next to the source, or the error that
/// a missing parent earns.
pub open spec fn spec_resolve(path: Seq<char>, parent_exists: bool) -> Result<
    Seq<char>,
    ImageError,
> {
    match spec_parent(path) {
        None => Err(ImageError::NoParentPath),
        Some(parent) => {
            if !parent_exists {
                Err(ImageError::ParentPathDoesNotExist)
            } else {
                Ok(spec_join(parent, "thumbnails"@))
            }
        },
    }
}

/// The full planning outcome for one candidate: validation, then
/// resolution, then the destination `<thumbnail dir>/<source file name>`.
/// On success the pair holds the thumbnail directory and the destination.
pub open spec fn spec_plan(
    path: Seq<char>,
    facts: PathFacts,
    allowed: Seq<Seq<char>>,
) -> Result<(Seq<char>, Seq<char>), ImageError> {
    match spec_validate(path, facts.exists, facts.is_file, allowed) {
        Err(e) => Err(e),
        Ok(_) => match spec_resolve(path, facts.parent_exists) {
            Err(e) => Err(e),
            Ok(dir) => Ok((dir, spec_join(dir, spec_file_name(path)->Some_0))),
        },
    }
}

/// A planned thumbnail for one validated source path: where the thumbnail
/// directory lies, where the thumbnail file goes, and the source's file
/// name and extension.
#[derive(Debug, Clone)]
pub struct ThumbnailPlan {
    pub thumb_dir: String,
    pub dest_path: String,
    pub file_name: String,
    pub extension: String,
}

impl ThumbnailPlan {
    /// How a plan relates to the source path it was made from.
    pub open spec fn matches(&self, path: Seq<char>, facts: PathFacts, allowed: Seq<Seq<char>>) -> bool {
        &&& spec_plan(path, facts, allowed) matches Ok(p)
        &&& self.thumb_dir@ == p.0
        &&& self.dest_path@ == p.1
        &&& Some(self.file_name@) == spec_file_name(path)
        &&& Some(self.extension@) == spec_extension(path)
    }
}

/// A successful plan places the thumbnail in the `thumbnails` subdirectory
/// of the source's parent, under the source's own file name, so the
/// destination keeps the source's file name and extension unchanged.
pub proof fn lemma_plan_dest_shape(path: Seq<char>, facts: PathFacts, allowed: Seq<Seq<char>>)
    requires
        spec_plan(path, facts, allowed) is Ok,
    ensures
        spec_plan(path, facts, allowed)->Ok_0.0 == spec_join(
            spec_parent(path)->Some_0,
            "thumbnails"@,
        ),
        spec_plan(path, facts, allowed)->Ok_0.1 == spec_join(
            spec_plan(path, facts, allowed)->Ok_0.0,
            spec_file_name(path)->Some_0,
        ),
        spec_file_name(spec_plan(path, facts, allowed)->Ok_0.1) == spec_file_name(path),
        spec_extension(spec_plan(path, facts, allowed)->Ok_0.1) == spec_extension(path),
{
    let dir = spec_plan(path, facts, allowed)->Ok_0.0;
    let name = spec_file_name(path)->Some_0;
    let i = spec_last_index_of(path, '/');
    lemma_last_index_of(path, '/');
    assert forall|j: int| 0 <= j < name.len() implies name[j] != '/' by {
        assert(name[j] == path[i + 1 + j]);
    }
    lemma_join_keeps_file_name(dir, name);
}

/// Generation is idempotent in where it writes: two invocations on the same
/// source path that both plan successfully plan the same thumbnail
/// directory and the same destination, whatever filesystem state and
/// configuration each one observed.
pub proof fn lemma_plan_idempotent(
    path: Seq<char>,
    f1: PathFacts,
    f2: PathFacts,
    a1: Seq<Seq<char>>,
    a2: Seq<Seq<char>>,
)
    requires
        spec_plan(path, f1, a1) is Ok,
        spec_plan(path, f2, a2) is Ok,
    ensures
        spec_plan(path, f1, a1)->Ok_0.0 == spec_plan(path, f2, a2)->Ok_0.0,
        spec_plan(path, f1, a1)->Ok_0.1 == spec_plan(path, f2, a2)->Ok_0.1,
{
}

/// Sources that share a parent directory share one thumbnail directory, so
/// a batch over them contends only on the idempotent creation of that one
/// directory.
pub proof fn lemma_shared_parent_shares_thumb_dir(
    p1: Seq<char>,
    p2: Seq<char>,
    f1: PathFacts,
    f2: PathFacts,
    a1: Seq<Seq<char>>,
    a2: Seq<Seq<char>>,
)
    requires
        spec_parent(p1) == spec_parent(p2),
        spec_plan(p1, f1, a1) is Ok,
        spec_plan(p2, f2, a2) is Ok,
    ensures
        spec_plan(p1, f1, a1)->Ok_0.0 == spec_plan(p2, f2, a2)->Ok_0.0,
{
}

/// Decides whether `ext` is one of the allowed extensions, up to ASCII case.
pub fn ext_allowed(ext: &str, allowed: &Vec<String>) -> (r: bool)
    ensures
        r == spec_ext_allowed(ext@, views_of(allowed@)),
{
    let n = allowed.len();
    let mut i: usize = 0;
    while i < n
        invariant
            i <= n,
            n == allowed@.len(),
            forall|j: int| 0 <= j < i ==> spec_lower(ext@) != spec_lower(views_of(allowed@)[j]),
        decreases n - i,
    {
        if eq_ignore_ascii_case(ext, allowed[i].as_str()) {
            proof {
                assert(spec_lower(ext@) == spec_lower(views_of(allowed@)[i as int]));
            }
            return true;
        }
        i = i + 1;
    }
    false
}

/// Resolves the thumbnail directory for `path`: its parent joined with
/// `thumbnails`. The caller reports whether that parent exists on disk;
/// creating the directory is the caller's to do, idempotently.
pub fn resolve_thumbnail_dir(path: &str, parent_exists: bool) -> (r: Result<String, ImageError>)
    ensures
        spec_resolve(path@, parent_exists) matches Ok(d) ==> (r matches Ok(s) && s@ == d),
        spec_resolve(path@, parent_exists) matches Err(e) ==> r == Err::<String, ImageError>(e),
{
    match parent_of(path) {
        None => Err(ImageError::NoParentPath),
        Some(parent) => {
            if !parent_exists {
                Err(ImageError::ParentPathDoesNotExist)
            } else {
                Ok(join_path(parent.as_str(), "thumbnails"))
            }
        },
    }
}

/// Validates one candidate source path, as `spec_validate` describes it.
pub fn validate_source(path: &str, exists_on_disk: bool, is_file: bool, allowed: &Vec<String>) -> (r:
    Result<(), ImageError>)
    ensures
        r == spec_validate(path@, exists_on_disk, is_file, views_of(allowed@)),
{
    if !exists_on_disk {
        return Err(ImageError::NotFound);
    }
    if !is_file {
        return Err(ImageError::NotAFile);
    }
    let ext = match extension_of(path) {
        None => {
            return Err(ImageError::NoFileExtension);
        },
        Some(e) => e,
    };
    if !ext_allowed(ext.as_str(), allowed) {
        return Err(ImageError::UnsupportedExtension);
    }
    match file_name_of(path) {
        None => Err(ImageError::NoFileName),
        Some(_) => Ok(()),
    }
}

/// Plans the thumbnail for one candidate source path: validates it against
/// the observed facts and the allowed extensions, resolves the thumbnail
/// directory, and derives the destination path, keeping the source's file
/// name and extension.
pub fn plan_thumbnail(path: &str, facts: PathFacts, allowed: &Vec<String>) -> (r: Result<
    ThumbnailPlan,
    ImageError,
>)
    ensures
        spec_plan(path@, facts, views_of(allowed@)) matches Ok(_) ==> (r matches Ok(p)
            && p.matches(path@, facts, views_of(allowed@))),
        spec_plan(path@, facts, views_of(allowed@)) matches Err(e) ==> r == Err::<
            ThumbnailPlan,
            ImageError,
        >(e),
{
    match validate_source(path, facts.exists, facts.is_file, allowed) {
        Err(e) => Err(e),
        Ok(_) => {
            let dir = match resolve_thumbnail_dir(path, facts.parent_exists) {
                Err(e) => {
                    return Err(e);
                },
                Ok(d) => d,
            };
            let name = match file_name_of(path) {
                None => {
                    return Err(ImageError::NoFileName);
                },
                Some(n) => n,
            };
            let ext = match extension_of(path) {
                None => {
                    return Err(ImageError::NoFileExtension);
                },
                Some(e) => e,
            };
            let dest = join_path(dir.as_str(), name.as_str());
            Ok(ThumbnailPlan { thumb_dir: dir, dest_path: dest, file_name: name, extension: ext })
        },
    }
}

} // verus!
