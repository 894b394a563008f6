//! The normalized post record, its nested parts, and the transform that
//! builds it from a raw catalog item.

use vstd::prelude::*;
use vstd::string::*;
use crate::stamp::Timestamp;
use crate::text::{decimal, push_decimal};

verus! {

/// Whether two texts hold the same characters.
fn same_text(a: &str, b: &str) -> (r: bool)
    ensures
        r == (a@ == b@),
{
    let x = String::from_str(a);
    let y = String::from_str(b);
    x == y
}

/// The file kinds the catalog knows. The set is closed.
#[derive(Debug, Clone, Copy, PartialEq, Eq, Structural)]
pub enum ScrapedPostFileExtension {
    Jpeg,
    Png,
    Gif,
    Swf,
    Webm,
}

impl ScrapedPostFileExtension {
    /// The short code of the kind, as it stands in file names and in the
    /// stored metadata.
    pub open spec fn code_spec(self) -> Seq<char> {
        match self {
            ScrapedPostFileExtension::Jpeg => seq!['j', 'p', 'g'],
            ScrapedPostFileExtension::Png => seq!['p', 'n', 'g'],
            ScrapedPostFileExtension::Gif => seq!['g', 'i', 'f'],
            ScrapedPostFileExtension::Swf => seq!['s', 'w', 'f'],
            ScrapedPostFileExtension::Webm => seq!['w', 'e', 'b', 'm'],
        }
    }

    /// The kind that a code stands for; `None` for any other text.
    pub open spec fn parse_spec(code: Seq<char>) -> Option<ScrapedPostFileExtension> {
        if code == ScrapedPostFileExtension::Jpeg.code_spec() {
            Some(ScrapedPostFileExtension::Jpeg)
        } else if code == ScrapedPostFileExtension::Png.code_spec() {
            Some(ScrapedPostFileExtension::Png)
        } else if code == ScrapedPostFileExtension::Gif.code_spec() {
            Some(ScrapedPostFileExtension::Gif)
        } else if code == ScrapedPostFileExtension::Swf.code_spec() {
            Some(ScrapedPostFileExtension::Swf)
        } else if code == ScrapedPostFileExtension::Webm.code_spec() {
            Some(ScrapedPostFileExtension::Webm)
        } else {
            None
        }
    }

    pub fn code(&self) -> (r: &'static str)
        ensures
            r@ == self.code_spec(),
    {
        proof {
            reveal_strlit("jpg");
            reveal_strlit("png");
            reveal_strlit("gif");
            reveal_strlit("swf");
            reveal_strlit("webm");
        }
        let r: &'static str = match self {
            ScrapedPostFileExtension::Jpeg => "jpg",
            ScrapedPostFileExtension::Png => "png",
            ScrapedPostFileExtension::Gif => "gif",
            ScrapedPostFileExtension::Swf => "swf",
            ScrapedPostFileExtension::Webm => "webm",
        };
        assert(r@ =~= self.code_spec());
        r
    }

    /// The code as an owned string.
    pub fn to_string(&self) -> (r: String)
        ensures
            r@ == self.code_spec(),
    {
        String::from_str(self.code())
    }

    /// Reads a code. An unknown code is refused, never replaced by a
    /// default.
    pub fn from_code(code: &str) -> (r: Option<ScrapedPostFileExtension>)
        ensures
            r == ScrapedPostFileExtension::parse_spec(code@),
    {
        if same_text(code, ScrapedPostFileExtension::Jpeg.code()) {
            Some(ScrapedPostFileExtension::Jpeg)
        } else if same_text(code, ScrapedPostFileExtension::Png.code()) {
            Some(ScrapedPostFileExtension::Png)
        } else if same_text(code, ScrapedPostFileExtension::Gif.code()) {
            Some(ScrapedPostFileExtension::Gif)
        } else if same_text(code, ScrapedPostFileExtension::Swf.code()) {
            Some(ScrapedPostFileExtension::Swf)
        } else if same_text(code, ScrapedPostFileExtension::Webm.code()) {
            Some(ScrapedPostFileExtension::Webm)
        } else {
            None
        }
    }
}

/// The content ratings the catalog knows. The set is closed.
#[derive(Debug, Clone, Copy, PartialEq, Eq, Structural)]
pub enum ScrapedPostRating {
    Safe,
    Questionable,
    Explicit,
}

impl ScrapedPostRating {
    /// The one-letter code of the rating.
    pub open spec fn code_spec(self) -> Seq<char> {
        match self {
            ScrapedPostRating::Safe => seq!['s'],
            ScrapedPostRating::Questionable => seq!['q'],
            ScrapedPostRating::Explicit => seq!['e'],
        }
    }

    /// The rating that a code stands for; `None` for any other text.
    pub open spec fn parse_spec(code: Seq<char>) -> Option<ScrapedPostRating> {
        if code == ScrapedPostRating::Safe.code_spec() {
            Some(ScrapedPostRating::Safe)
        } else if code == ScrapedPostRating::Questionable.code_spec() {
            Some(ScrapedPostRating::Questionable)
        } else if code == ScrapedPostRating::Explicit.code_spec() {
            Some(ScrapedPostRating::Explicit)
        } else {
            None
        }
    }

    pub fn code(&self) -> (r: &'static str)
        ensures
            r@ == self.code_spec(),
    {
        proof {
            reveal_strlit("s");
            reveal_strlit("q");
            reveal_strlit("e");
        }
        let r: &'static str = match self {
            ScrapedPostRating::Safe => "s",
            ScrapedPostRating::Questionable => "q",
            ScrapedPostRating::Explicit => "e",
        };
        assert(r@ =~= self.code_spec());
        r
    }

    /// Reads a code. An unknown code is refused, never replaced by a
    /// default.
    pub fn from_code(code: &str) -> (r: Option<ScrapedPostRating>)
        ensures
            r == ScrapedPostRating::parse_spec(code@),
    {
        if same_text(code, ScrapedPostRating::Safe.code()) {
            Some(ScrapedPostRating::Safe)
        } else if same_text(code, ScrapedPostRating::Questionable.code()) {
            Some(ScrapedPostRating::Questionable)
        } else if same_text(code, ScrapedPostRating::Explicit.code()) {
            Some(ScrapedPostRating::Explicit)
        } else {
            None
        }
    }
}

/// Writing a file kind's code and reading it back gives the kind again.
pub proof fn extension_code_round_trip(e: ScrapedPostFileExtension)
    ensures
        ScrapedPostFileExtension::parse_spec(e.code_spec()) == Some(e),
{
    assert(ScrapedPostFileExtension::Jpeg.code_spec()[0] == 'j');
    assert(ScrapedPostFileExtension::Png.code_spec()[0] == 'p');
    assert(ScrapedPostFileExtension::Gif.code_spec()[0] == 'g');
    assert(ScrapedPostFileExtension::Swf.code_spec()[0] == 's');
    assert(ScrapedPostFileExtension::Webm.code_spec()[0] == 'w');
}

/// Writing a rating's code and reading it back gives the rating again.
pub proof fn rating_code_round_trip(r: ScrapedPostRating)
    ensures
        ScrapedPostRating::parse_spec(r.code_spec()) == Some(r),
{
    assert(ScrapedPostRating::Safe.code_spec()[0] == 's');
    assert(ScrapedPostRating::Questionable.code_spec()[0] == 'q');
    assert(ScrapedPostRating::Explicit.code_spec()[0] == 'e');
}

/// A code that is read as a file kind is that kind's own code.
pub proof fn extension_parse_is_exact(code: Seq<char>)
    ensures
        ScrapedPostFileExtension::parse_spec(code) matches Some(e) ==> e.code_spec() == code,
{
}

/// A code that is read as a rating is that rating's own code.
pub proof fn rating_parse_is_exact(code: Seq<char>)
    ensures
        ScrapedPostRating::parse_spec(code) matches Some(r) ==> r.code_spec() == code,
{
}

/// Votes on a post.
#[derive(Debug, Clone, Copy, PartialEq, Eq, Structural)]
pub struct ScrapedPostScore {
    pub up: i64,
    pub down: i64,
    pub total: i64,
}

/// The tags of a post, one list per category.
#[derive(Debug, Clone, PartialEq, Eq)]
pub struct ScrapedPostTags {
    pub general: Vec<String>,
    pub species: Vec<String>,
    pub character: Vec<String>,
    pub artist: Vec<String>,
    pub invalid: Vec<String>,
    pub lore: Vec<String>,
    pub meta: Vec<String>,
}

/// How a post stands to its parent and its children.
#[derive(Debug, Clone, PartialEq, Eq)]
pub struct ScrapedPostRelationships {
    pub parent_id: Option<u64>,
    pub has_children: bool,
    pub children: Vec<u64>,
}

/// The file of a post. `url` is absent where the catalog no longer offers
/// the file.
#[derive(Debug, Clone, PartialEq, Eq)]
pub struct ScrapedPostFile {
    pub width: u64,
    pub height: u64,
    pub extension: ScrapedPostFileExtension,
    pub size: u64,
    pub md5: String,
    pub url: Option<String>,
}

/// One catalog item as kept in a chunk's metadata.
#[derive(Debug, Clone, PartialEq, Eq)]
pub struct ScrapedPost {
    pub id: u64,
    pub created_at: Timestamp,
    pub updated_at: Option<Timestamp>,
    pub file: ScrapedPostFile,
    pub score: ScrapedPostScore,
    pub tags: ScrapedPostTags,
    pub locked_tags: Vec<String>,
    pub rating: ScrapedPostRating,
    pub fav_count: u64,
    pub sources: Vec<String>,
    pub pools: Vec<u64>,
    pub relationships: ScrapedPostRelationships,
    pub approver_id: Option<u64>,
    pub uploader_id: u64,
    pub description: String,
    pub comment_count: u64,
}

/// The file of a catalog item as the catalog gives it: the kind is still
/// a code.
#[derive(Debug, Clone, PartialEq, Eq)]
pub struct RawPostFile {
    pub width: u64,
    pub height: u64,
    pub ext: String,
    pub size: u64,
    pub md5: String,
    pub url: Option<String>,
}

/// A catalog item as the catalog gives it: file kind and rating are still
/// codes.
#[derive(Debug, Clone, PartialEq, Eq)]
pub struct RawPost {
    pub id: u64,
    pub created_at: Timestamp,
    pub updated_at: Option<Timestamp>,
    pub file: RawPostFile,
    pub score: ScrapedPostScore,
    pub tags: ScrapedPostTags,
    pub locked_tags: Vec<String>,
    pub rating: String,
    pub fav_count: u64,
    pub sources: Vec<String>,
    pub pools: Vec<u64>,
    pub relationships: ScrapedPostRelationships,
    pub approver_id: Option<u64>,
    pub uploader_id: u64,
    pub description: String,
    pub comment_count: u64,
}

/// Why a raw item could not be normalized.
#[derive(Debug, Clone, Copy, PartialEq, Eq, Structural)]
pub enum TransformError {
    /// The file kind's code is none of the known ones.
    UnknownExtension,
    /// The rating's code is none of the known ones.
    UnknownRating,
}

impl ScrapedPostFile {
    /// The normalized form of a raw file: every field as it is, the kind
    /// read from its code.
    pub open spec fn normalized(raw: RawPostFile) -> Result<ScrapedPostFile, TransformError> {
        match ScrapedPostFileExtension::parse_spec(raw.ext@) {
            Some(extension) => Ok(
                ScrapedPostFile {
                    width: raw.width,
                    height: raw.height,
                    extension,
                    size: raw.size,
                    md5: raw.md5,
                    url: raw.url,
                },
            ),
            None => Err(TransformError::UnknownExtension),
        }
    }

    /// Normalizes a raw file.
    pub fn from_raw(raw: RawPostFile) -> (r: Result<ScrapedPostFile, TransformError>)
        ensures
            r == ScrapedPostFile::normalized(raw),
    {
        match ScrapedPostFileExtension::from_code(raw.ext.as_str()) {
            Some(extension) => Ok(
                ScrapedPostFile {
                    width: raw.width,
                    height: raw.height,
                    extension,
                    size: raw.size,
                    md5: raw.md5,
                    url: raw.url,
                },
            ),
            None => Err(TransformError::UnknownExtension),
        }
    }
}

/// Where to fetch a post's file from and where to put it.
#[derive(Debug, Clone, PartialEq, Eq)]
pub struct AssetRequest {
    pub url: String,
    pub path: String,
}

impl ScrapedPost {
    /// The normalized form of a raw item: every field goes to the field of
    /// the same name, the two codes are read. A bad file kind is reported
    /// before a bad rating.
    pub open spec fn normalized(raw: RawPost) -> Result<ScrapedPost, TransformError> {
        match ScrapedPostFile::normalized(raw.file) {
            Err(e) => Err(e),
            Ok(file) => match ScrapedPostRating::parse_spec(raw.rating@) {
                None => Err(TransformError::UnknownRating),
                Some(rating) => Ok(
                    ScrapedPost {
                        id: raw.id,
                        created_at: raw.created_at,
                        updated_at: raw.updated_at,
                        file,
                        score: raw.score,
                        tags: raw.tags,
                        locked_tags: raw.locked_tags,
                        rating,
                        fav_count: raw.fav_count,
                        sources: raw.sources,
                        pools: raw.pools,
                        relationships: raw.relationships,
                        approver_id: raw.approver_id,
                        uploader_id: raw.uploader_id,
                        description: raw.description,
                        comment_count: raw.comment_count,
                    },
                ),
            },
        }
    }

    /// Normalizes a raw item.
    pub fn from_raw(raw: RawPost) -> (r: Result<ScrapedPost, TransformError>)
        ensures
            r == ScrapedPost::normalized(raw),
    {
        let file = match ScrapedPostFile::from_raw(raw.file) {
            Ok(file) => file,
            Err(e) => {
                return Err(e);
            },
        };
        let rating = match ScrapedPostRating::from_code(raw.rating.as_str()) {
            Some(rating) => rating,
            None => {
                return Err(TransformError::UnknownRating);
            },
        };
        Ok(
            ScrapedPost {
                id: raw.id,
                created_at: raw.created_at,
                updated_at: raw.updated_at,
                file,
                score: raw.score,
                tags: raw.tags,
                locked_tags: raw.locked_tags,
                rating,
                fav_count: raw.fav_count,
                sources: raw.sources,
                pools: raw.pools,
                relationships: raw.relationships,
                approver_id: raw.approver_id,
                uploader_id: raw.uploader_id,
                description: raw.description,
                comment_count: raw.comment_count,
            },
        )
    }

    /// The path of the post's file inside the chunk directory `dir`:
    /// the directory, a slash, the identifier in decimal, a dot, the
    /// file kind's code.
    pub open spec fn asset_path(self, dir: Seq<char>) -> Seq<char> {
        dir + seq!['/'] + decimal(self.id as nat) + seq!['.'] + self.file.extension.code_spec()
    }

    /// Whether the file of this post is to be fetched: exactly when the
    /// catalog gave a URL for it.
    pub open spec fn wants_asset(self) -> bool {
        self.file.url.is_some()
    }

    /// The download to attempt for this post, if any. A post without a
    /// URL gets none; it stays in the metadata all the same.
    pub fn asset_request(&self, dir: &str) -> (r: Option<AssetRequest>)
        ensures
            r.is_some() == self.wants_asset(),
            r matches Some(a) ==> a.url@ == self.file.url.unwrap()@ && a.path@ == self.asset_path(
                dir@,
            ),
    {
        match &self.file.url {
            None => None,
            Some(url) => {
                proof {
                    reveal_strlit("/");
                    reveal_strlit(".");
                }
                let mut path = String::from_str(dir);
                path.append("/");
                push_decimal(&mut path, self.id);
                path.append(".");
                path.append(self.file.extension.code());
                assert(path@ =~= self.asset_path(dir@));
                Some(AssetRequest { url: url.clone(), path })
            },
        }
    }
}

impl RawPost {
    /// Whether this raw item is `post` written out: every field as it is,
    /// the file kind and the rating as their codes.
    pub open spec fn encodes(self, post: ScrapedPost) -> bool {
        &&& self.id == post.id
        &&& self.created_at == post.created_at
        &&& self.updated_at == post.updated_at
        &&& self.file.width == post.file.width
        &&& self.file.height == post.file.height
        &&& self.file.ext@ == post.file.extension.code_spec()
        &&& self.file.size == post.file.size
        &&& self.file.md5 == post.file.md5
        &&& self.file.url == post.file.url
        &&& self.score == post.score
        &&& self.tags == post.tags
        &&& self.locked_tags == post.locked_tags
        &&& self.rating@ == post.rating.code_spec()
        &&& self.fav_count == post.fav_count
        &&& self.sources == post.sources
        &&& self.pools == post.pools
        &&& self.relationships == post.relationships
        &&& self.approver_id == post.approver_id
        &&& self.uploader_id == post.uploader_id
        &&& self.description == post.description
        &&& self.comment_count == post.comment_count
    }
}

/// A record written out with its two enumerations as codes is read back
/// as the same record, equal in every field, nested ones included. And
/// nothing else is read back as that record: what normalizes to a record
/// is that record written out.
pub proof fn record_round_trip(post: ScrapedPost, raw: RawPost)
    ensures
        raw.encodes(post) <==> ScrapedPost::normalized(raw) == Ok::<ScrapedPost, TransformError>(
            post,
        ),
{
    extension_code_round_trip(post.file.extension);
    rating_code_round_trip(post.rating);
    extension_parse_is_exact(raw.file.ext@);
    rating_parse_is_exact(raw.rating@);
}

/// The raw items among what the catalog handed over: the ones that could
/// not be retrieved fall away, the others keep their order.
pub open spec fn retrieved<E>(items: Seq<Result<RawPost, E>>) -> Seq<RawPost>
    decreases items.len(),
{
    if items.len() == 0 {
        Seq::empty()
    } else {
        let rest = retrieved(items.drop_last());
        match items.last() {
            Ok(raw) => rest.push(raw),
            Err(_) => rest,
        }
    }
}

/// Drops what the catalog could not retrieve and keeps the rest in order.
pub fn keep_retrieved<E>(items: Vec<Result<RawPost, E>>) -> (r: Vec<RawPost>)
    ensures
        r@ == retrieved(items@),
{
    let mut out: Vec<RawPost> = Vec::new();
    let ghost all = items@;
    for item in it: items.into_iter()
        invariant
            it.seq() == all,
            out@ == retrieved(all.take(it.index() as int)),
    {
        proof {
            let k = it.index() as int;
            assert(all.take(k + 1).drop_last() =~= all.take(k));
        }
        match item {
            Ok(raw) => {
                out.push(raw);
            },
            Err(_) => {},
        }
    }
    proof {
        assert(all.take(all.len() as int) =~= all);
    }
    out
}

/// Normalizes a batch in order. The batch fails with the first item that
/// fails; otherwise every item has its record, at its place.
pub fn normalize_all(raws: Vec<RawPost>) -> (r: Result<Vec<ScrapedPost>, TransformError>)
    ensures
        match r {
            Ok(posts) => posts@.len() == raws@.len() && forall|i: int|
                0 <= i < raws@.len() ==> ScrapedPost::normalized(raws@[i]) == Ok::<
                    ScrapedPost,
                    TransformError,
                >(#[trigger] posts@[i]),
            Err(e) => exists|i: int|
                0 <= i < raws@.len() && #[trigger] ScrapedPost::normalized(raws@[i]) == Err::<
                    ScrapedPost,
                    TransformError,
                >(e) && forall|j: int| 0 <= j < i ==> ScrapedPost::normalized(#[trigger] raws@[j]).is_ok(),
        },
{
    let mut out: Vec<ScrapedPost> = Vec::new();
    let ghost all = raws@;
    for raw in it: raws.into_iter()
        invariant
            it.seq() == all,
            out@.len() == it.index(),
            forall|i: int|
                0 <= i < it.index() ==> ScrapedPost::normalized(all[i]) == Ok::<
                    ScrapedPost,
                    TransformError,
                >(#[trigger] out@[i]),
    {
        let ghost k = it.index() as int;
        match ScrapedPost::from_raw(raw) {
            Ok(post) => {
                out.push(post);
            },
            Err(e) => {
                proof {
                    assert(ScrapedPost::normalized(all[k]) == Err::<ScrapedPost, TransformError>(e));
                    assert forall|j: int| 0 <= j < k implies ScrapedPost::normalized(
                        #[trigger] all[j],
                    ).is_ok() by {
                        assert(ScrapedPost::normalized(all[j]) == Ok::<ScrapedPost, TransformError>(
                            out@[j],
                        ));
                    }
                }
                return Err(e);
            },
        }
    }
    Ok(out)
}

} // verus!
