//! Names inside the cover cache: two tiers of cached cover images, found
//! by the hash of the image.

use vstd::prelude::*;
use std::path::PathBuf;

verus! {

/// `std::path::PathBuf`, carried through as it is: nothing is claimed of
/// what a path holds.
#[verifier::external_type_specification]
#[verifier::external_body]
pub struct ExPathBuf(std::path::PathBuf);

/// The lower-case hexadecimal SHA-256 digest of a sequence of bytes.
pub uninterp spec fn sha256_hex_of(data: Seq<u8>) -> Seq<char>;

/// A lower-case hexadecimal digit.
pub open spec fn is_hex_digit(c: char) -> bool {
    ('0' <= c && c <= '9') || ('a' <= c && c <= 'f')
}

/// Length of a SHA-256 digest in hexadecimal digits.
pub const SHA256_HEX_LEN: usize = 64;

/// The path that `part` is joined to `base` as.
pub uninterp spec fn joined_path(base: PathBuf, part: Seq<char>) -> PathBuf;

/// `std::path::Path::join`: the path with `part` adjoined.
#[verifier::external_body]
fn path_join(base: &PathBuf, part: &str) -> (path: PathBuf)
    ensures
        path == joined_path(*base, part@),
{
    base.join(part)
}

/// The tier of a cached cover.
#[derive(Debug, Clone, Copy, PartialEq, Eq, Structural)]
pub enum CoverSize {
    /// The 300 by 300 thumbnail for lists.
    Mid,
    /// The image as it was found.
    Original,
}

/// The cover cache, rooted at a directory.
pub struct CoverCache {
    cache_dir: PathBuf,
}

/// Counts of the files in the cache.
#[derive(Debug, Clone, Copy, PartialEq, Eq, Default)]
pub struct CacheStats {
    pub file_count: usize,
    pub total_size: u64,
}

/// The file extensions under which a cover may be cached, in the order in
/// which they are tried.
pub open spec fn extension_at(i: int) -> Seq<char> {
    if i == 0 {
        "jpg"@
    } else if i == 1 {
        "png"@
    } else if i == 2 {
        "webp"@
    } else {
        "gif"@
    }
}

/// The name of the directory of a tier.
pub open spec fn size_dir_name_of(size: CoverSize) -> Seq<char> {
    match size {
        CoverSize::Mid => "mid"@,
        CoverSize::Original => "orig"@,
    }
}

/// The extension under which the original of a cover is stored.
pub open spec fn extension_of(mime_type: Option<Seq<char>>) -> Seq<char> {
    if mime_type == Some("image/png"@) {
        "png"@
    } else if mime_type == Some("image/gif"@) {
        "gif"@
    } else if mime_type == Some("image/webp"@) {
        "webp"@
    } else {
        "jpg"@
    }
}

/// What is stored for a new cover, and under which names.
#[derive(Debug, Clone, PartialEq, Eq)]
pub struct SavePlan {
    /// The hash by which the cover is found again.
    pub hash: String,
    /// The directory below a tier's directory: the first two digits of
    /// the hash.
    pub prefix: String,
    /// The file of the thumbnail, always a JPEG.
    pub mid_file: String,
    /// The file of the original, with the extension of its type.
    pub original_file: String,
}

/// The first two characters of a hash, or all of a shorter one.
pub open spec fn prefix_of(hash: Seq<char>) -> Seq<char> {
    if hash.len() <= 2 {
        hash
    } else {
        hash.subrange(0, 2)
    }
}

impl CoverCache {
    /// `sha2::Sha256` over `data`, printed with the digest's `LowerHex`:
    /// 64 hexadecimal digits that depend on the bytes alone.
    #[verifier::external_body]
    pub fn hash_cover(data: &[u8]) -> (hash: String)
        ensures
            hash@ == sha256_hex_of(data@),
            hash@.len() == SHA256_HEX_LEN,
            forall|i: int| 0 <= i < hash@.len() ==> is_hex_digit(#[trigger] hash@[i]),
    {
        format!("{:x}", <sha2::Sha256 as sha2::Digest>::digest(data))
    }

    /// The directory of a cover below its tier's directory.
    pub fn cover_prefix(hash: &str) -> (prefix: &str)
        ensures
            prefix@ == prefix_of(hash@),
    {
        let n = hash.unicode_len();
        if n <= 2 {
            proof {
                assert(hash@.subrange(0, n as int) =~= hash@);
            }
            hash.substring_char(0, n)
        } else {
            hash.substring_char(0, 2)
        }
    }

    /// The extension under which the original of a cover of the given
    /// MIME type is stored: that of PNG, GIF and WebP images, `jpg` for
    /// everything else.
    pub fn original_extension(mime_type: Option<&str>) -> (ext: &'static str)
        ensures
            ext@ == extension_of(
                match mime_type {
                    Some(mime) => Some(mime@),
                    None => None,
                },
            ),
    {
        match mime_type {
            Some(mime) => {
                if str_equal(mime, "image/png") {
                    "png"
                } else if str_equal(mime, "image/gif") {
                    "gif"
                } else if str_equal(mime, "image/webp") {
                    "webp"
                } else {
                    "jpg"
                }
            },
            None => "jpg",
        }
    }

    /// Decides under which hash and names a new cover is stored.
    pub fn plan_save(data: &[u8], mime_type: Option<&str>) -> (plan: SavePlan)
        ensures
            plan.hash@ == sha256_hex_of(data@),
            plan.prefix@ == sha256_hex_of(data@).subrange(0, 2),
            plan.mid_file@ == sha256_hex_of(data@) + ".jpg"@,
            plan.original_file@ == sha256_hex_of(data@) + "."@ + extension_of(
                match mime_type {
                    Some(mime) => Some(mime@),
                    None => None,
                },
            ),
    {
        let hash = CoverCache::hash_cover(data);
        let prefix = String::from_str(CoverCache::cover_prefix(hash.as_str()));
        let mid_file = CoverCache::file_name(hash.as_str(), "jpg");
        let original_file = CoverCache::file_name(
            hash.as_str(),
            CoverCache::original_extension(mime_type),
        );
        proof {
            reveal_strlit(".jpg");
            reveal_strlit(".");
            reveal_strlit("jpg");
            assert(mid_file@ =~= hash@ + ".jpg"@);
        }
        SavePlan { hash, prefix, mid_file, original_file }
    }

    /// The directory the cache is rooted at.
    pub closed spec fn dir(&self) -> PathBuf {
        self.cache_dir
    }

    /// A cache rooted at `cache_dir`.
    pub fn new(cache_dir: PathBuf) -> (cache: CoverCache)
        ensures
            cache.dir() == cache_dir,
    {
        CoverCache { cache_dir }
    }

    /// The directory the cache is rooted at.
    pub fn cache_dir(&self) -> (dir: &PathBuf)
        ensures
            *dir == self.dir(),
    {
        &self.cache_dir
    }

    /// The name of the directory of a tier, below the root.
    pub fn size_dir_name(size: CoverSize) -> (name: &'static str)
        ensures
            name@ == size_dir_name_of(size),
    {
        match size {
            CoverSize::Mid => "mid",
            CoverSize::Original => "orig",
        }
    }

    /// The name of a cover's file: its hash, a dot and the extension.
    pub fn file_name(hash: &str, ext: &str) -> (name: String)
        ensures
            name@ == hash@ + "."@ + ext@,
    {
        let mut name = String::from_str(hash);
        name.append(".");
        name.append(ext);
        name
    }

    /// The extension tried at place `i` of a lookup.
    pub fn lookup_extension(i: usize) -> (ext: &'static str)
        requires
            i < 4,
        ensures
            ext@ == extension_at(i as int),
    {
        if i == 0 {
            "jpg"
        } else if i == 1 {
            "png"
        } else if i == 2 {
            "webp"
        } else {
            "gif"
        }
    }

    /// The directory of a tier.
    pub open spec fn size_dir_of(&self, size: CoverSize) -> PathBuf {
        joined_path(self.dir(), size_dir_name_of(size))
    }

    /// The path of a cover of a tier, by hash and extension: below the
    /// tier's directory, in the directory named by the first two digits of
    /// the hash, the file named by the hash and the extension.
    pub open spec fn cover_path_of(
        &self,
        hash: Seq<char>,
        size: CoverSize,
        ext: Seq<char>,
    ) -> PathBuf {
        joined_path(joined_path(self.size_dir_of(size), prefix_of(hash)), hash + "."@ + ext)
    }

    /// The directory of a tier.
    pub fn size_dir(&self, size: CoverSize) -> (dir: PathBuf)
        ensures
            dir == self.size_dir_of(size),
    {
        path_join(&self.cache_dir, CoverCache::size_dir_name(size))
    }

    /// The path of a cover of a tier, by hash and extension.
    pub fn cover_path(&self, hash: &str, size: CoverSize, ext: &str) -> (path: PathBuf)
        ensures
            path == self.cover_path_of(hash@, size, ext@),
    {
        let tier = self.size_dir(size);
        let directory = path_join(&tier, CoverCache::cover_prefix(hash));
        let name = CoverCache::file_name(hash, ext);
        path_join(&directory, name.as_str())
    }

    /// Looks a cover up: the path under the first of the extensions `jpg`,
    /// `png`, `webp` and `gif`, in this order, for which `is_there` says that
    /// the file is there, and nothing where it says so for none.
    pub fn get_cover_path(
        &self,
        hash: &str,
        size: CoverSize,
        is_there: impl Fn(&PathBuf) -> bool,
    ) -> (found: Option<PathBuf>)
        requires
            forall|path: &PathBuf| call_requires(is_there, (path,)),
        ensures
            match found {
                Some(path) => exists|i: int|
                    {
                        &&& 0 <= i < 4
                        &&& path == #[trigger] self.cover_path_of(hash@, size, extension_at(i))
                        &&& call_ensures(is_there, (&path,), true)
                        &&& forall|j: int|
                            0 <= j < i ==> call_ensures(
                                is_there,
                                (&#[trigger] self.cover_path_of(hash@, size, extension_at(j)),),
                                false,
                            )
                    },
                None => forall|j: int|
                    0 <= j < 4 ==> call_ensures(
                        is_there,
                        (&#[trigger] self.cover_path_of(hash@, size, extension_at(j)),),
                        false,
                    ),
            },
    {
        let mut i: usize = 0;
        while i < 4
            invariant
                i <= 4,
                forall|path: &PathBuf| call_requires(is_there, (path,)),
                forall|j: int|
                    0 <= j < i ==> call_ensures(
                        is_there,
                        (&#[trigger] self.cover_path_of(hash@, size, extension_at(j)),),
                        false,
                    ),
            decreases 4 - i,
        {
            let path = self.cover_path(hash, size, CoverCache::lookup_extension(i));
            if is_there(&path) {
                proof {
                    assert(path == self.cover_path_of(hash@, size, extension_at(i as int)));
                }
                return Some(path);
            }
            i += 1;
        }
        None
    }

    /// Tells whether a thumbnail of the cover is cached.
    pub fn has_cover(&self, hash: &str, is_there: impl Fn(&PathBuf) -> bool) -> (cached: bool)
        requires
            forall|path: &PathBuf| call_requires(is_there, (path,)),
        ensures
            cached ==> exists|i: int|
                0 <= i < 4 && call_ensures(
                    is_there,
                    (&#[trigger] self.cover_path_of(hash@, CoverSize::Mid, extension_at(i)),),
                    true,
                ),
            !cached ==> forall|j: int|
                0 <= j < 4 ==> call_ensures(
                    is_there,
                    (&#[trigger] self.cover_path_of(hash@, CoverSize::Mid, extension_at(j)),),
                    false,
                ),
    {
        self.get_cover_path(hash, CoverSize::Mid, is_there).is_some()
    }
}

/// Tells whether two texts are the same.
pub fn str_equal(a: &str, b: &str) -> (same: bool)
    ensures
        same == (a@ == b@),
{
    let n = a.unicode_len();
    if n != b.unicode_len() {
        return false;
    }
    let mut i: usize = 0;
    while i < n
        invariant
            i <= n,
            n == a@.len(),
            n == b@.len(),
            a@.subrange(0, i as int) == b@.subrange(0, i as int),
        decreases n - i,
    {
        if a.get_char(i) != b.get_char(i) {
            return false;
        }
        proof {
            assert(a@.subrange(0, i + 1) =~= a@.subrange(0, i as int).push(a@[i as int]));
            assert(b@.subrange(0, i + 1) =~= b@.subrange(0, i as int).push(b@[i as int]));
        }
        i += 1;
    }
    proof {
        assert(a@.subrange(0, n as int) =~= a@);
        assert(b@.subrange(0, n as int) =~= b@);
    }
    true
}

} // verus!
