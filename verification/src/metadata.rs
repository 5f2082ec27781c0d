use vstd::prelude::*;

verus! {

/// A required field of a directory entry.
#[derive(Clone, Copy, Debug, PartialEq, Eq, Structural)]
pub enum FieldName {
    Semantic,
    Mime,
    Length,
}

/// One element of the container's `Directory` array, reduced to the three
/// scalar fields resolution reads. A field the metadata tree does not hold
/// is `None`.
pub struct DirectoryItem {
    pub semantic: Option<String>,
    pub mime: Option<String>,
    pub length: Option<i64>,
}

/// The mathematical image of a directory entry.
pub struct DirectoryItemModel {
    pub semantic: Option<Seq<char>>,
    pub mime: Option<Seq<char>>,
    pub length: Option<int>,
}

impl View for DirectoryItem {
    type V = DirectoryItemModel;

    open spec fn view(&self) -> DirectoryItemModel {
        DirectoryItemModel {
            semantic: match self.semantic {
                Option::Some(s) => Option::Some(s@),
                Option::None => Option::None,
            },
            mime: match self.mime {
                Option::Some(s) => Option::Some(s@),
                Option::None => Option::None,
            },
            length: match self.length {
                Option::Some(n) => Option::Some(n as int),
                Option::None => Option::None,
            },
        }
    }
}

/// The container's metadata reduced to what resolution reads: the entries of
/// the `Directory` array, in array order. An absent `Directory` array and an
/// empty one are alike: no entries.
pub struct MetadataTree {
    pub directory: Vec<DirectoryItem>,
}

impl View for MetadataTree {
    type V = Seq<DirectoryItemModel>;

    open spec fn view(&self) -> Seq<DirectoryItemModel> {
        self.directory@.map_values(|item: DirectoryItem| item@)
    }
}

/// Why resolution failed.
#[derive(Debug)]
pub enum MetadataError {
    /// The container has no parseable metadata payload at all.
    MissingMetadata,
    /// The `Directory` array is absent or empty, or no entry's `Semantic` is
    /// `MotionPhoto`.
    DirectoryItemNotFound,
    /// The directory entry at `index` (1-based, in array order) lacks the
    /// required `field`.
    MissingField { index: usize, field: FieldName },
    /// The first `MotionPhoto` entry carries `mime` in place of `video/mp4`.
    UnsupportedMimeType { mime: String },
}

/// The mathematical image of a resolution failure.
pub enum MetadataErrorModel {
    MissingMetadata,
    DirectoryItemNotFound,
    MissingField { index: int, field: FieldName },
    UnsupportedMimeType { mime: Seq<char> },
}

impl View for MetadataError {
    type V = MetadataErrorModel;

    open spec fn view(&self) -> MetadataErrorModel {
        match self {
            MetadataError::MissingMetadata => MetadataErrorModel::MissingMetadata,
            MetadataError::DirectoryItemNotFound => MetadataErrorModel::DirectoryItemNotFound,
            MetadataError::MissingField { index, field } => MetadataErrorModel::MissingField {
                index: *index as int,
                field: *field,
            },
            MetadataError::UnsupportedMimeType { mime } => MetadataErrorModel::UnsupportedMimeType {
                mime: mime@,
            },
        }
    }
}

/// The `Semantic` tag of the entry describing the motion-video payload.
pub open spec fn motion_photo() -> Seq<char> {
    "MotionPhoto"@
}

/// The one mime type accepted on a `MotionPhoto` entry.
pub open spec fn video_mp4() -> Seq<char> {
    "video/mp4"@
}

/// What resolution returns once the entries before `i` have been passed
/// over: the first entry from `i` on whose `Semantic` is `MotionPhoto`
/// decides — its `Mime` must be exactly `video/mp4` and its `Length` is the
/// result. An entry with another `Semantic` is skipped; an entry missing a
/// required field is a hard error naming the entry's 1-based index and the
/// field; exhausting the entries is `DirectoryItemNotFound`.
pub open spec fn spec_resolve_from(items: Seq<DirectoryItemModel>, i: int) -> Result<
    int,
    MetadataErrorModel,
>
    decreases items.len() - i,
{
    if i < 0 || i >= items.len() {
        Err(MetadataErrorModel::DirectoryItemNotFound)
    } else {
        match items[i].semantic {
            Option::None => Err(
                MetadataErrorModel::MissingField { index: i + 1, field: FieldName::Semantic },
            ),
            Option::Some(sem) => if sem != motion_photo() {
                spec_resolve_from(items, i + 1)
            } else {
                match items[i].mime {
                    Option::None => Err(
                        MetadataErrorModel::MissingField { index: i + 1, field: FieldName::Mime },
                    ),
                    Option::Some(mime) => if mime != video_mp4() {
                        Err(MetadataErrorModel::UnsupportedMimeType { mime })
                    } else {
                        match items[i].length {
                            Option::None => Err(
                                MetadataErrorModel::MissingField {
                                    index: i + 1,
                                    field: FieldName::Length,
                                },
                            ),
                            Option::Some(len) => Ok(len),
                        }
                    },
                }
            },
        }
    }
}

/// What resolution returns for a directory with the given entries.
pub open spec fn spec_resolve(items: Seq<DirectoryItemModel>) -> Result<int, MetadataErrorModel> {
    spec_resolve_from(items, 0)
}

/// The mathematical image of an executable resolution result.
pub open spec fn result_view(r: Result<i64, MetadataError>) -> Result<int, MetadataErrorModel> {
    match r {
        Ok(n) => Ok(n as int),
        Err(e) => Err(e@),
    }
}

/// True exactly when `s` is the string `MotionPhoto`.
fn is_motion_photo(s: &String) -> (r: bool)
    ensures
        r == (s@ == motion_photo()),
{
    let tag: String = "MotionPhoto".to_owned();
    *s == tag
}

/// True exactly when `s` is the string `video/mp4`.
fn is_video_mp4(s: &String) -> (r: bool)
    ensures
        r == (s@ == video_mp4()),
{
    let tag: String = "video/mp4".to_owned();
    *s == tag
}

/// Resolves the byte length of the embedded motion-video payload from the
/// container's directory. Entries are visited in array order; the first
/// whose `Semantic` is `MotionPhoto` decides. Its `Mime` must be exactly
/// `video/mp4` — a mismatch is a hard failure, not a reason to scan on — and
/// its `Length` is returned. An entry with another `Semantic` is skipped; an
/// entry missing a required field fails with that entry's 1-based index and
/// the field's name; a directory with no `MotionPhoto` entry fails with
/// `DirectoryItemNotFound`.
pub fn resolve(tree: &MetadataTree) -> (r: Result<i64, MetadataError>)
    ensures
        result_view(r) == spec_resolve(tree@),
{
    let items = &tree.directory;
    let n: usize = items.len();
    let mut i: usize = 0;
    while i < n
        invariant
            n == items@.len(),
            tree@ == items@.map_values(|item: DirectoryItem| item@),
            i <= n,
            spec_resolve(tree@) == spec_resolve_from(tree@, i as int),
        decreases n - i,
    {
        let item = &items[i];
        match &item.semantic {
            Option::None => {
                return Err(MetadataError::MissingField { index: i + 1, field: FieldName::Semantic });
            },
            Option::Some(sem) => {
                if is_motion_photo(sem) {
                    match &item.mime {
                        Option::None => {
                            return Err(
                                MetadataError::MissingField { index: i + 1, field: FieldName::Mime },
                            );
                        },
                        Option::Some(mime) => {
                            if !is_video_mp4(mime) {
                                return Err(
                                    MetadataError::UnsupportedMimeType { mime: mime.clone() },
                                );
                            }
                            match item.length {
                                Option::None => {
                                    return Err(
                                        MetadataError::MissingField {
                                            index: i + 1,
                                            field: FieldName::Length,
                                        },
                                    );
                                },
                                Option::Some(len) => {
                                    return Ok(len);
                                },
                            }
                        },
                    }
                }
            },
        }
        i = i + 1;
    }
    Err(MetadataError::DirectoryItemNotFound)
}

/// Resolves the payload length for a whole container: one with no parseable
/// metadata fails with `MissingMetadata`; otherwise its directory decides as
/// in `resolve`.
pub fn resolve_container(meta: Option<&MetadataTree>) -> (r: Result<i64, MetadataError>)
    ensures
        result_view(r) == (match meta {
            Option::Some(tree) => spec_resolve(tree@),
            Option::None => Err::<int, MetadataErrorModel>(MetadataErrorModel::MissingMetadata),
        }),
{
    match meta {
        Option::Some(tree) => resolve(tree),
        Option::None => Err(MetadataError::MissingMetadata),
    }
}

/// True of an entry whose `Semantic` is present and is not `MotionPhoto`:
/// the one kind of entry resolution passes over.
pub open spec fn is_skipped(item: DirectoryItemModel) -> bool {
    item.semantic matches Some(sem) && sem != motion_photo()
}

/// An entry whose `Semantic` is present and is not `MotionPhoto` only moves
/// resolution to the next entry: passing over a whole prefix of such entries
/// changes nothing.
proof fn lemma_resolve_skips_prefix(items: Seq<DirectoryItemModel>, i: int)
    requires
        0 <= i <= items.len(),
        forall|k: int|
            0 <= k < i ==> is_skipped(#[trigger] items[k]),
    ensures
        spec_resolve(items) == spec_resolve_from(items, i),
    decreases i,
{
    if i > 0 {
        lemma_resolve_skips_prefix(items, i - 1);
    }
}

/// First match wins: where every entry before `i` carries a `Semantic` other
/// than `MotionPhoto`, and entry `i` is a `MotionPhoto` entry with mime
/// `video/mp4` and a length, resolution returns entry `i`'s length —
/// whatever entries follow it, in particular any later `MotionPhoto` entry
/// with another length.
pub proof fn lemma_first_match_wins(items: Seq<DirectoryItemModel>, i: int, len: int)
    requires
        0 <= i < items.len(),
        forall|k: int|
            0 <= k < i ==> is_skipped(#[trigger] items[k]),
        items[i].semantic == Some(motion_photo()),
        items[i].mime == Some(video_mp4()),
        items[i].length == Some(len),
    ensures
        spec_resolve(items) == Ok::<int, MetadataErrorModel>(len),
{
    lemma_resolve_skips_prefix(items, i);
}

/// Entries whose `Semantic` is present but not `MotionPhoto` are skipped,
/// not errors: a directory of such entries followed by one valid
/// `MotionPhoto` entry resolves to that entry's length.
pub proof fn lemma_non_motion_entries_skipped(items: Seq<DirectoryItemModel>, len: int)
    requires
        items.len() >= 1,
        forall|k: int|
            0 <= k < items.len() - 1 ==> is_skipped(#[trigger] items[k]),
        items[items.len() - 1].semantic == Some(motion_photo()),
        items[items.len() - 1].mime == Some(video_mp4()),
        items[items.len() - 1].length == Some(len),
    ensures
        spec_resolve(items) == Ok::<int, MetadataErrorModel>(len),
{
    lemma_first_match_wins(items, items.len() - 1, len);
}

/// A mime mismatch on the matched entry is fatal, not skip-and-continue:
/// where entry `i` is the first `MotionPhoto` entry and its `Mime` is
/// present but not `video/mp4`, resolution fails with `UnsupportedMimeType`
/// carrying that mime — even if a later, correctly typed `MotionPhoto` entry
/// exists.
pub proof fn lemma_mime_mismatch_fatal(items: Seq<DirectoryItemModel>, i: int, mime: Seq<char>)
    requires
        0 <= i < items.len(),
        forall|k: int|
            0 <= k < i ==> is_skipped(#[trigger] items[k]),
        items[i].semantic == Some(motion_photo()),
        items[i].mime == Some(mime),
        mime != video_mp4(),
    ensures
        spec_resolve(items) == Err::<int, MetadataErrorModel>(
            MetadataErrorModel::UnsupportedMimeType { mime },
        ),
{
    lemma_resolve_skips_prefix(items, i);
}

/// A directory with no entries — the `Directory` array absent or
/// zero-length — and likewise one whose entries all carry a `Semantic` other
/// than `MotionPhoto`, resolves to `DirectoryItemNotFound`.
pub proof fn lemma_no_motion_entry_not_found(items: Seq<DirectoryItemModel>)
    requires
        forall|k: int|
            0 <= k < items.len() ==> is_skipped(#[trigger] items[k]),
    ensures
        spec_resolve(items) == Err::<int, MetadataErrorModel>(
            MetadataErrorModel::DirectoryItemNotFound,
        ),
{
    lemma_resolve_skips_prefix(items, items.len() as int);
}

} // verus!
