//! Post and feed types, and the rules for creating a post.
use vstd::prelude::*;
use base64::Engine;
use crate::models::common::DefaultResponse;
use crate::text::{is_ascii_alnum, is_ascii_alnum_char, text_eq};

verus! {

/// Content type of a post.
#[derive(Debug, Clone, Copy, PartialEq, Eq, Structural)]
pub enum ContentType {
    Image,
    Video,
    Audio,
    Text,
}

impl ContentType {
    /// The GraphQL name of the type.
    pub fn as_str(&self) -> (r: &'static str)
        ensures
            r@ == match *self {
                ContentType::Image => "IMAGE"@,
                ContentType::Video => "VIDEO"@,
                ContentType::Audio => "AUDIO"@,
                ContentType::Text => "TEXT"@,
            },
    {
        match self {
            ContentType::Image => "IMAGE",
            ContentType::Video => "VIDEO",
            ContentType::Audio => "AUDIO",
            ContentType::Text => "TEXT",
        }
    }
}

/// Post filter types for the `filterBy` parameter.
#[derive(Debug, Clone, Copy, PartialEq, Eq, Hash, Structural)]
pub enum PostFilterType {
    Image,
    Video,
    Audio,
    Text,
    Followed,
    Follower,
    Friends,
    Viewed,
}

impl PostFilterType {
    /// The GraphQL name of the filter.
    pub fn as_str(&self) -> (r: &'static str)
        ensures
            r@ == match *self {
                PostFilterType::Image => "IMAGE"@,
                PostFilterType::Video => "VIDEO"@,
                PostFilterType::Audio => "AUDIO"@,
                PostFilterType::Text => "TEXT"@,
                PostFilterType::Followed => "FOLLOWED"@,
                PostFilterType::Follower => "FOLLOWER"@,
                PostFilterType::Friends => "FRIENDS"@,
                PostFilterType::Viewed => "VIEWED"@,
            },
    {
        match self {
            PostFilterType::Image => "IMAGE",
            PostFilterType::Video => "VIDEO",
            PostFilterType::Audio => "AUDIO",
            PostFilterType::Text => "TEXT",
            PostFilterType::Followed => "FOLLOWED",
            PostFilterType::Follower => "FOLLOWER",
            PostFilterType::Friends => "FRIENDS",
            PostFilterType::Viewed => "VIEWED",
        }
    }
}

/// Post sort options for the `sortBy` parameter.
#[derive(Debug, Clone, Copy, PartialEq, Eq, Structural)]
pub enum PostSortType {
    Newest,
    Trending,
    Likes,
    Dislikes,
    Views,
    Comments,
    ForMe,
    Oldest,
    Follower,
    Followed,
    Relevant,
    Friends,
}

impl Default for PostSortType {
    fn default() -> (r: Self)
        ensures
            r == PostSortType::Newest,
    {
        PostSortType::Newest
    }
}

impl PostSortType {
    /// The GraphQL name of the sort order.
    pub fn as_str(&self) -> (r: &'static str)
        ensures
            r@ == match *self {
                PostSortType::Newest => "NEWEST"@,
                PostSortType::Trending => "TRENDING"@,
                PostSortType::Likes => "LIKES"@,
                PostSortType::Dislikes => "DISLIKES"@,
                PostSortType::Views => "VIEWS"@,
                PostSortType::Comments => "COMMENTS"@,
                PostSortType::ForMe => "FOR_ME"@,
                PostSortType::Oldest => "OLDEST"@,
                PostSortType::Follower => "FOLLOWER"@,
                PostSortType::Followed => "FOLLOWED"@,
                PostSortType::Relevant => "RELEVANT"@,
                PostSortType::Friends => "FRIENDS"@,
            },
    {
        match self {
            PostSortType::Newest => "NEWEST",
            PostSortType::Trending => "TRENDING",
            PostSortType::Likes => "LIKES",
            PostSortType::Dislikes => "DISLIKES",
            PostSortType::Views => "VIEWS",
            PostSortType::Comments => "COMMENTS",
            PostSortType::ForMe => "FOR_ME",
            PostSortType::Oldest => "OLDEST",
            PostSortType::Follower => "FOLLOWER",
            PostSortType::Followed => "FOLLOWED",
            PostSortType::Relevant => "RELEVANT",
            PostSortType::Friends => "FRIENDS",
        }
    }
}

/// Content filtering severity level.
#[derive(Debug, Clone, Copy, PartialEq, Eq, Structural)]
pub enum ContentFilterType {
    /// Stricter: hides flagged content.
    Mygrandmalikes,
    /// Relaxed: shows more content.
    Mygrandmahates,
}

/// Block list filtering option.
#[derive(Debug, Clone, Copy, PartialEq, Eq, Structural)]
pub enum IgnoreOption {
    Yes,
    No,
}

/// Post action types for the `resolvePostAction` mutation.
#[derive(Debug, Clone, Copy, PartialEq, Eq, Structural)]
pub enum PostActionType {
    View,
    Like,
    Dislike,
    Save,
    Report,
    Unlike,
    Undislike,
    Unsave,
}

/// Simplified user embedded in posts.
#[derive(Debug, Clone)]
pub struct PostUser {
    pub id: String,
    pub username: String,
    pub slug: String,
    pub img: Option<String>,
    pub isfollowed: bool,
    pub isfollowing: bool,
    pub isfriend: bool,
}

/// Post data from the API.
#[derive(Debug, Clone)]
pub struct Post {
    pub id: String,
    pub contenttype: ContentType,
    pub title: String,
    pub media: Option<String>,
    pub cover: Option<String>,
    pub mediadescription: Option<String>,
    pub createdat: String,
    pub amountlikes: i32,
    pub amountviews: i32,
    pub amountcomments: i32,
    pub amountdislikes: i32,
    pub amounttrending: Option<i32>,
    pub isliked: bool,
    pub isviewed: bool,
    pub isdisliked: bool,
    pub issaved: bool,
    pub isreported: bool,
    pub tags: Option<Vec<String>>,
    pub has_active_reports: Option<bool>,
    pub visibility_status: Option<String>,
    pub is_hidden_for_users: Option<bool>,
    pub user: PostUser,
}

/// Advertisement metadata attached to promoted posts.
#[derive(Debug, Clone)]
pub struct AdvertisementInfo {
    pub advertisementid: String,
    pub advertisementtype: String,
    pub startdate: String,
    pub enddate: String,
}

/// Advertisement post wrapper (from `listAdvertisementPosts`).
#[derive(Debug, Clone)]
pub struct AdvertisementPost {
    pub post: Post,
    pub advertisement: AdvertisementInfo,
}

/// List posts response.
#[derive(Debug, Clone)]
pub struct PostListResponse {
    pub meta: DefaultResponse,
    pub counter: i32,
    pub affected_rows: Vec<Post>,
}

impl PostListResponse {
    /// The meta status is exactly `success`.
    pub fn is_success(&self) -> (r: bool)
        ensures
            r == (self.meta.status@ == "success"@),
    {
        text_eq(self.meta.status.as_str(), "success")
    }
}

/// Advertisement list response.
#[derive(Debug, Clone)]
pub struct AdListResponse {
    pub meta: DefaultResponse,
    pub counter: i32,
    pub affected_rows: Vec<AdvertisementPost>,
}

/// User search result.
#[derive(Debug, Clone)]
pub struct UserSearchResult {
    pub id: String,
    pub username: String,
    pub slug: String,
    pub img: Option<String>,
    pub biography: Option<String>,
}

/// User search response.
#[derive(Debug, Clone)]
pub struct UserSearchResponse {
    pub meta: DefaultResponse,
    pub counter: i32,
    pub affected_rows: Vec<UserSearchResult>,
}

/// Post action response.
#[derive(Debug, Clone)]
pub struct PostActionResponse {
    pub meta: DefaultResponse,
}

/// Unified feed item for rendering (regular post or ad).
#[derive(Debug, Clone)]
pub enum FeedItem {
    Post(Post),
    Ad { post: Post, ad_info: AdvertisementInfo },
}

impl FeedItem {
    /// The post this item shows.
    pub open spec fn spec_post(&self) -> Post {
        match *self {
            FeedItem::Post(p) => p,
            FeedItem::Ad { post, .. } => post,
        }
    }

    /// Get a reference to the underlying post.
    pub fn post(&self) -> (r: &Post)
        ensures
            *r == self.spec_post(),
    {
        match self {
            FeedItem::Post(p) => p,
            FeedItem::Ad { post, .. } => post,
        }
    }

    /// Check if this is an ad.
    pub fn is_ad(&self) -> (r: bool)
        ensures
            r == (*self is Ad),
    {
        matches!(self, FeedItem::Ad { .. })
    }

    /// Get the post ID.
    pub fn id(&self) -> (r: &str)
        ensures
            r@ == self.spec_post().id@,
    {
        self.post().id.as_str()
    }
}

/// Content type for post creation (lowercase on the wire).
#[derive(Debug, Clone, Copy, PartialEq, Eq, Structural)]
pub enum CreateContentType {
    Text,
    Image,
    Audio,
    Video,
}

impl Default for CreateContentType {
    fn default() -> (r: Self)
        ensures
            r == CreateContentType::Text,
    {
        CreateContentType::Text
    }
}

/// Maximum number of media files of each content type.
pub open spec fn spec_max_media(t: CreateContentType) -> usize {
    match t {
        CreateContentType::Image => 5,
        CreateContentType::Video => 2,
        CreateContentType::Audio => 1,
        CreateContentType::Text => 1,
    }
}

/// The UI name of each content type.
pub open spec fn spec_display_name(t: CreateContentType) -> Seq<char> {
    match t {
        CreateContentType::Text => "Text Post"@,
        CreateContentType::Image => "Image Post"@,
        CreateContentType::Audio => "Audio Post"@,
        CreateContentType::Video => "Video Post"@,
    }
}

impl CreateContentType {
    /// The wire name of the type.
    pub fn as_str(&self) -> (r: &'static str)
        ensures
            r@ == match *self {
                CreateContentType::Text => "text"@,
                CreateContentType::Image => "image"@,
                CreateContentType::Audio => "audio"@,
                CreateContentType::Video => "video"@,
            },
    {
        match self {
            CreateContentType::Text => "text",
            CreateContentType::Image => "image",
            CreateContentType::Audio => "audio",
            CreateContentType::Video => "video",
        }
    }

    /// Get the display name for UI.
    pub fn display_name(&self) -> (r: &'static str)
        ensures
            r@ == spec_display_name(*self),
    {
        match self {
            CreateContentType::Text => "Text Post",
            CreateContentType::Image => "Image Post",
            CreateContentType::Audio => "Audio Post",
            CreateContentType::Video => "Video Post",
        }
    }

    /// Get the icon class for this content type.
    pub fn icon_class(&self) -> (r: &'static str)
        ensures
            r@ == match *self {
                CreateContentType::Text => "peer-icon-text"@,
                CreateContentType::Image => "peer-icon-image"@,
                CreateContentType::Audio => "peer-icon-audio"@,
                CreateContentType::Video => "peer-icon-video"@,
            },
    {
        match self {
            CreateContentType::Text => "peer-icon-text",
            CreateContentType::Image => "peer-icon-image",
            CreateContentType::Audio => "peer-icon-audio",
            CreateContentType::Video => "peer-icon-video",
        }
    }

    /// Maximum number of media files allowed.
    pub fn max_media(&self) -> (r: usize)
        ensures
            r == spec_max_media(*self),
            r >= 1,
    {
        match self {
            CreateContentType::Image => 5,
            CreateContentType::Video => 2,
            CreateContentType::Audio => 1,
            CreateContentType::Text => 1,
        }
    }

    /// Check if this content type requires media upload.
    pub fn requires_media(&self) -> (r: bool)
        ensures
            r == (*self != CreateContentType::Text),
    {
        !matches!(self, CreateContentType::Text)
    }
}

/// Input for creating a new post.
#[derive(Debug, Clone)]
pub struct CreatePostInput {
    pub title: String,
    pub mediadescription: Option<String>,
    pub contenttype: CreateContentType,
    pub media: Option<Vec<String>>,
    pub cover: Option<Vec<String>>,
    pub tags: Option<Vec<String>>,
    pub uploaded_files: Option<String>,
}

/// A tag name: 2 to 53 characters, each an ASCII letters, digits and underscores.
pub open spec fn spec_is_valid_tag(tag: Seq<char>) -> bool {
    &&& 2 <= tag.len() <= 53
    &&& forall|i: int| 0 <= i < tag.len() ==> is_ascii_alnum(#[trigger] tag[i]) || tag[i] == '_'
}

/// `i` is the first invalid tag of `tags`.
pub open spec fn first_invalid_tag(tags: Seq<String>, i: int) -> bool {
    &&& 0 <= i < tags.len()
    &&& !spec_is_valid_tag(tags[i]@)
    &&& forall|k: int| 0 <= k < i ==> spec_is_valid_tag(#[trigger] tags[k]@)
}

/// The first rule a post input breaks, as the message shown for it;
/// `None` when the input is valid.
pub open spec fn post_input_error(input: CreatePostInput) -> Option<Seq<char>> {
    if input.title@.len() == 0 {
        Some("Title is required"@)
    } else if input.title@.len() > 63 {
        Some("Title must be 63 characters or less"@)
    } else if input.mediadescription matches Some(d) && d@.len() > 500 {
        Some("Description must be 500 characters or less"@)
    } else if input.tags matches Some(t) && t@.len() > 10 {
        Some("Maximum 10 tags allowed"@)
    } else if input.tags matches Some(t) && exists|i: int| first_invalid_tag(t@, i) {
        let t = input.tags->0@;
        let i = choose|i: int| first_invalid_tag(t, i);
        Some("Invalid tag format: "@ + t[i]@)
    } else {
        None
    }
}

impl CreatePostInput {
    /// Validate the input fields: title 1-63 characters, description at
    /// most 500 characters, at most 10 tags, each a valid tag.
    pub fn validate(&self) -> (r: Result<(), String>)
        ensures
            match r {
                Ok(()) => post_input_error(*self) is None,
                Err(m) => post_input_error(*self) == Some(m@),
            },
    {
        if self.title.as_str().is_empty() {
            return Err("Title is required".to_owned());
        }
        if self.title.as_str().unicode_len() > 63 {
            return Err("Title must be 63 characters or less".to_owned());
        }
        if let Some(desc) = &self.mediadescription {
            if desc.as_str().unicode_len() > 500 {
                return Err("Description must be 500 characters or less".to_owned());
            }
        }
        if let Some(tags) = &self.tags {
            if tags.len() > 10 {
                return Err("Maximum 10 tags allowed".to_owned());
            }
            let mut i: usize = 0;
            while i < tags.len()
                invariant
                    self.tags == Some(*tags),
                    tags@.len() <= 10,
                    self.title@.len() > 0,
                    self.title@.len() <= 63,
                    !(self.mediadescription matches Some(d) && d@.len() > 500),
                    i <= tags.len(),
                    forall|k: int| 0 <= k < i ==> spec_is_valid_tag(#[trigger] tags@[k]@),
                decreases tags.len() - i,
            {
                if !is_valid_tag(tags[i].as_str()) {
                    proof {
                        assert(first_invalid_tag(tags@, i as int));
                        let j = choose|j: int| first_invalid_tag(tags@, j);
                        if j < i {
                            assert(spec_is_valid_tag(tags@[j]@));
                        }
                        if i < j {
                            assert(spec_is_valid_tag(tags@[i as int]@));
                        }
                    }
                    let mut msg = "Invalid tag format: ".to_owned();
                    msg.append(tags[i].as_str());
                    return Err(msg);
                }
                i = i + 1;
            }
            assert forall|j: int| !first_invalid_tag(tags@, j) by {
                if first_invalid_tag(tags@, j) {
                    assert(spec_is_valid_tag(tags@[j]@));
                }
            }
        }
        Ok(())
    }
}

/// Check if a tag name is valid (alphanumeric or underscores, 2-53 characters).
pub fn is_valid_tag(tag: &str) -> (r: bool)
    ensures
        r == spec_is_valid_tag(tag@),
{
    let n = tag.unicode_len();
    if n < 2 || n > 53 {
        return false;
    }
    let mut i: usize = 0;
    while i < n
        invariant
            n == tag@.len(),
            2 <= tag@.len() <= 53,
            i <= n,
            forall|k: int| 0 <= k < i ==> is_ascii_alnum(#[trigger] tag@[k]) || tag@[k] == '_',
        decreases n - i,
    {
        let c = tag.get_char(i);
        if !(is_ascii_alnum_char(c) || c == '_') {
            return false;
        }
        i = i + 1;
    }
    true
}

/// Post eligibility response.
#[derive(Debug, Clone)]
pub struct PostEligibilityResponse {
    pub meta: DefaultResponse,
    pub eligibility_token: Option<String>,
}

/// The view of an optional string.
pub open spec fn opt_view(o: Option<String>) -> Option<Seq<char>> {
    match o {
        Some(s) => Some(s@),
        None => None,
    }
}

/// The view of an optional string slice.
pub open spec fn opt_str_view(o: Option<&str>) -> Option<Seq<char>> {
    match o {
        Some(s) => Some(s@),
        None => None,
    }
}

fn as_opt_str(o: &Option<String>) -> (r: Option<&str>)
    ensures
        opt_str_view(r) == opt_view(*o),
{
    match o {
        Some(s) => Some(s.as_str()),
        None => None,
    }
}

impl PostEligibilityResponse {
    /// Eligibility was granted: status `success` and a token present.
    pub fn is_eligible(&self) -> (r: bool)
        ensures
            r == (self.meta.status@ == "success"@ && self.eligibility_token.is_some()),
    {
        text_eq(self.meta.status.as_str(), "success") && self.eligibility_token.is_some()
    }

    /// Get the eligibility token if available.
    pub fn token(&self) -> (r: Option<&str>)
        ensures
            opt_str_view(r) == opt_view(self.eligibility_token),
    {
        as_opt_str(&self.eligibility_token)
    }
}

/// Upload response from `/upload-post`.
#[derive(Debug, Clone)]
pub struct UploadPostResponse {
    pub status: String,
    pub response_code: String,
    pub affected_rows: Option<UploadAffectedRows>,
}

/// Affected rows from the upload response.
#[derive(Debug, Clone)]
pub struct UploadAffectedRows {
    pub uploaded_files: String,
}

impl UploadPostResponse {
    /// Status `success` and response code `11515`.
    pub fn is_success(&self) -> (r: bool)
        ensures
            r == (self.status@ == "success"@ && self.response_code@ == "11515"@),
    {
        text_eq(self.status.as_str(), "success") && text_eq(self.response_code.as_str(), "11515")
    }

    /// Get the uploaded file names.
    pub fn uploaded_files(&self) -> (r: Option<&str>)
        ensures
            opt_str_view(r) == match self.affected_rows {
                Some(a) => Some(a.uploaded_files@),
                None => None,
            },
    {
        match &self.affected_rows {
            Some(a) => Some(a.uploaded_files.as_str()),
            None => None,
        }
    }
}

/// Response from the createPost mutation.
#[derive(Debug, Clone)]
pub struct CreatePostResponse {
    pub meta: DefaultResponse,
    pub affected_rows: Option<CreatedPost>,
}

/// Created post data.
#[derive(Debug, Clone)]
pub struct CreatedPost {
    pub id: String,
    pub contenttype: String,
    pub title: String,
}

impl CreatePostResponse {
    /// The meta status is exactly `success`.
    pub fn is_success(&self) -> (r: bool)
        ensures
            r == (self.meta.status@ == "success"@),
    {
        text_eq(self.meta.status.as_str(), "success")
    }

    /// Get the created post ID.
    pub fn post_id(&self) -> (r: Option<&str>)
        ensures
            opt_str_view(r) == match self.affected_rows {
                Some(p) => Some(p.id@),
                None => None,
            },
    {
        match &self.affected_rows {
            Some(p) => Some(p.id.as_str()),
            None => None,
        }
    }
}

/// Tag from search results.
#[derive(Debug, Clone)]
pub struct Tag {
    pub name: String,
}

/// Tag search response.
#[derive(Debug, Clone)]
pub struct TagSearchResponse {
    pub meta: DefaultResponse,
    pub counter: i32,
    pub affected_rows: Vec<Tag>,
}

impl TagSearchResponse {
    /// The meta status is exactly `success`.
    pub fn is_success(&self) -> (r: bool)
        ensures
            r == (self.meta.status@ == "success"@),
    {
        text_eq(self.meta.status.as_str(), "success")
    }

    /// The tag names, in order.
    pub fn tag_names(&self) -> (r: Vec<String>)
        ensures
            r@.len() == self.affected_rows@.len(),
            forall|i: int| 0 <= i < r@.len() ==> #[trigger] r@[i]@ == self.affected_rows@[i].name@,
    {
        let mut r: Vec<String> = Vec::new();
        let mut i: usize = 0;
        while i < self.affected_rows.len()
            invariant
                i <= self.affected_rows@.len(),
                r@.len() == i,
                forall|k: int| 0 <= k < i ==> #[trigger] r@[k]@ == self.affected_rows@[k].name@,
            decreases self.affected_rows@.len() - i,
        {
            r.push(self.affected_rows[i].name.clone());
            i = i + 1;
        }
        r
    }
}

/// A media file chosen for upload.
#[derive(Debug, Clone)]
pub struct MediaFile {
    /// File name.
    pub name: String,
    /// MIME type.
    pub mime_type: String,
    /// File data as bytes.
    pub data: Vec<u8>,
    /// Preview URL (for displaying in UI).
    pub preview_url: Option<String>,
}

/// The character of the standard base64 alphabet for `v < 64`:
/// `A-Z`, `a-z`, `0-9`, `+`, `/`.
pub open spec fn base64_char(v: int) -> char {
    if v < 26 {
        (65 + v) as char
    } else if v < 52 {
        (97 + v - 26) as char
    } else if v < 62 {
        (48 + v - 52) as char
    } else if v == 62 {
        '+'
    } else {
        '/'
    }
}

/// The standard base64 encoding (RFC 4648, with `=` padding) of `bytes`:
/// each group of three bytes becomes four characters of six bits each; a
/// last group of one or two bytes is padded with `=`.
pub open spec fn base64_standard(b: Seq<u8>) -> Seq<char>
    decreases b.len(),
{
    if b.len() == 0 {
        Seq::empty()
    } else {
        let x = b[0] as int;
        let y = if b.len() > 1 { b[1] as int } else { 0 };
        let z = if b.len() > 2 { b[2] as int } else { 0 };
        let c0 = base64_char(x / 4);
        let c1 = base64_char((x % 4) * 16 + y / 16);
        let c2 = base64_char((y % 16) * 4 + z / 64);
        let c3 = base64_char(z % 64);
        if b.len() == 1 {
            seq![c0, c1, '=', '=']
        } else if b.len() == 2 {
            seq![c0, c1, c2, '=']
        } else {
            seq![c0, c1, c2, c3] + base64_standard(b.skip(3))
        }
    }
}

/// Whether the base64 output length for `n` input bytes fits in `usize`.
pub open spec fn base64_len_fits(n: nat) -> bool {
    n / 3 * 4 + (if n % 3 > 0 { 4int } else { 0int }) <= usize::MAX
}

/// `base64::engine::general_purpose::STANDARD.encode`: the padded
/// standard base64 encoding of `data`. It panics when the output length
/// overflows `usize`, which `requires` rules out.
#[verifier::external_body]
fn base64_encode(data: &[u8]) -> (r: String)
    requires
        base64_len_fits(data@.len()),
    ensures
        r@ == base64_standard(data@),
{
    base64::engine::general_purpose::STANDARD.encode(data)
}

impl MediaFile {
    /// Create a new media file without a preview.
    pub fn new(name: String, mime_type: String, data: Vec<u8>) -> (r: Self)
        ensures
            r.name == name,
            r.mime_type == mime_type,
            r.data == data,
            r.preview_url is None,
    {
        MediaFile { name, mime_type, data, preview_url: None }
    }

    /// The same file with a preview URL.
    pub fn with_preview(self, url: String) -> (r: Self)
        ensures
            r.name == self.name,
            r.mime_type == self.mime_type,
            r.data == self.data,
            r.preview_url == Some(url),
    {
        MediaFile { preview_url: Some(url), ..self }
    }

    /// Get file size in bytes.
    pub fn size(&self) -> (r: usize)
        ensures
            r == self.data@.len(),
    {
        self.data.len()
    }

    /// The `data:` URL of the file: `data:<mime>;base64,<encoded data>`.
    pub fn to_data_url(&self) -> (r: String)
        requires
            base64_len_fits(self.data@.len()),
        ensures
            r@ == "data:"@ + self.mime_type@ + ";base64,"@ + base64_standard(self.data@),
    {
        let encoded = base64_encode(self.data.as_slice());
        let mut r = "data:".to_owned();
        r.append(self.mime_type.as_str());
        r.append(";base64,");
        r.append(encoded.as_str());
        r
    }
}

} // verus!
