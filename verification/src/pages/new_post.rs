//! The post being written on the new-post page: its media, tags, and the
//! checks made before it is sent.
use vstd::prelude::*;
use crate::models::post::{
    spec_display_name, spec_max_media, CreateContentType, CreatePostInput, MediaFile,
};
use crate::text::{clone_strings, text_eq, to_lowercase, unicode_lowercase};

verus! {

/// Everything the new-post form holds.
#[derive(Debug, Clone)]
pub struct NewPostContext {
    pub content_type: CreateContentType,
    pub title: String,
    pub description: String,
    pub tags: Vec<String>,
    pub media_files: Vec<MediaFile>,
    pub cover_file: Option<MediaFile>,
    pub is_submitting: bool,
    pub error: Option<String>,
    pub show_preview: bool,
    pub current_media_index: usize,
}

/// The tag names of a tag list.
pub open spec fn tag_views(tags: Seq<String>) -> Seq<Seq<char>> {
    tags.map_values(|t: String| t@)
}

/// At most ten tags, no two alike.
pub open spec fn tags_ok(tags: Seq<String>) -> bool {
    &&& tags.len() <= 10
    &&& forall|i: int, j: int| 0 <= i < j < tags.len() ==> tags[i]@ != tags[j]@
}

/// A tag list after adding `t`: it goes at the end when fewer than ten
/// tags are set and it is not one of them.
pub open spec fn with_tag(tags: Seq<Seq<char>>, t: Seq<char>) -> Seq<Seq<char>> {
    if tags.len() < 10 && !tags.contains(t) {
        tags.push(t)
    } else {
        tags
    }
}

/// A tag list after removing every tag equal to `t`.
pub open spec fn without_tag(tags: Seq<Seq<char>>, t: Seq<char>) -> Seq<Seq<char>> {
    tags.filter(|x: Seq<char>| x != t)
}

/// The form fields that are cleared by a reset.
pub open spec fn is_cleared(c: NewPostContext) -> bool {
    &&& c.title@.len() == 0
    &&& c.description@.len() == 0
    &&& c.tags@.len() == 0
    &&& c.media_files@.len() == 0
    &&& c.cover_file is None
    &&& c.error is None
    &&& !c.show_preview
    &&& c.current_media_index == 0
}

/// The first rule the form breaks, as the message shown for it; `None`
/// when it may be sent.
pub open spec fn draft_error(c: NewPostContext) -> Option<Seq<char>> {
    if c.title@.len() == 0 {
        Some("Title is required"@)
    } else if c.title@.len() > 63 {
        Some("Title must be 63 characters or less"@)
    } else if c.description@.len() > 500 {
        Some("Description must be 500 characters or less"@)
    } else if c.content_type != CreateContentType::Text && c.media_files@.len() == 0 {
        Some(spec_display_name(c.content_type) + " requires at least one media file"@)
    } else {
        None
    }
}

impl NewPostContext {
    /// An empty text post.
    pub fn new() -> (r: Self)
        ensures
            is_cleared(r),
            r.content_type == CreateContentType::Text,
            !r.is_submitting,
    {
        NewPostContext {
            content_type: CreateContentType::Text,
            title: String::new(),
            description: String::new(),
            tags: Vec::new(),
            media_files: Vec::new(),
            cover_file: None,
            is_submitting: false,
            error: None,
            show_preview: false,
            current_media_index: 0,
        }
    }

    /// Clear the form; the content type and the submitting flag stay.
    pub fn reset(&mut self)
        ensures
            is_cleared(*final(self)),
            final(self).content_type == old(self).content_type,
            final(self).is_submitting == old(self).is_submitting,
    {
        self.title = String::new();
        self.description = String::new();
        self.tags = Vec::new();
        self.media_files = Vec::new();
        self.cover_file = None;
        self.error = None;
        self.show_preview = false;
        self.current_media_index = 0;
    }

    /// Add a media file unless the content type's limit is reached.
    pub fn add_media(&mut self, file: MediaFile)
        ensures
            final(self).media_files@ == if old(self).media_files@.len() < spec_max_media(
                old(self).content_type,
            ) {
                old(self).media_files@.push(file)
            } else {
                old(self).media_files@
            },
            final(self).content_type == old(self).content_type,
            final(self).tags == old(self).tags,
            final(self).current_media_index == old(self).current_media_index,
    {
        let max = self.content_type.max_media();
        if self.media_files.len() < max {
            self.media_files.push(file);
        }
    }

    /// Remove the media file at `index` (if there is one); the shown
    /// index moves to the last file when it fell off the end.
    pub fn remove_media(&mut self, index: usize)
        ensures
            final(self).media_files@ == if index < old(self).media_files@.len() {
                old(self).media_files@.remove(index as int)
            } else {
                old(self).media_files@
            },
            final(self).current_media_index == if old(self).current_media_index
                >= final(self).media_files@.len() && final(self).media_files@.len() > 0 {
                (final(self).media_files@.len() - 1) as usize
            } else {
                old(self).current_media_index
            },
            final(self).media_files@.len() > 0 ==> final(self).current_media_index
                < final(self).media_files@.len() || old(self).current_media_index
                < final(self).media_files@.len(),
            final(self).content_type == old(self).content_type,
            final(self).tags == old(self).tags,
    {
        if index < self.media_files.len() {
            self.media_files.remove(index);
        }
        let current = self.current_media_index;
        let len = self.media_files.len();
        if current >= len && len > 0 {
            self.current_media_index = len - 1;
        }
    }

    /// Add a tag, lowercased, unless ten tags are set or it is already
    /// there.
    pub fn add_tag(&mut self, tag: &str)
        ensures
            ({
                let t = unicode_lowercase(tag@);
                let fits = old(self).tags@.len() < 10 && !tag_views(old(self).tags@).contains(t);
                &&& fits ==> final(self).tags@.len() == old(self).tags@.len() + 1
                    && final(self).tags@.drop_last() == old(self).tags@ && final(self).tags@.last()@
                    == t
                &&& !fits ==> final(self).tags@ == old(self).tags@
            }),
            tag_views(final(self).tags@) == with_tag(tag_views(old(self).tags@), unicode_lowercase(tag@)),
            tags_ok(old(self).tags@) ==> tags_ok(final(self).tags@),
            final(self).media_files == old(self).media_files,
            final(self).content_type == old(self).content_type,
    {
        let t = to_lowercase(tag);
        let mut present = false;
        let mut i: usize = 0;
        while i < self.tags.len()
            invariant
                i <= self.tags@.len(),
                present == exists|k: int| 0 <= k < i && self.tags@[k]@ == t@,
            decreases self.tags@.len() - i,
        {
            if text_eq(self.tags[i].as_str(), t.as_str()) {
                present = true;
            }
            i = i + 1;
        }
        proof {
            assert(present == tag_views(self.tags@).contains(t@)) by {
                if present {
                    let k = choose|k: int| 0 <= k < i && self.tags@[k]@ == t@;
                    assert(tag_views(self.tags@)[k] == t@);
                }
                if tag_views(self.tags@).contains(t@) {
                    let k = choose|k: int| 0 <= k < tag_views(self.tags@).len() && tag_views(self.tags@)[k] == t@;
                    assert(self.tags@[k]@ == t@);
                }
            }
        }
        let ghost before = self.tags@;
        if self.tags.len() < 10 && !present {
            self.tags.push(t);
            assert(self.tags@.drop_last() =~= before);
            proof {
                assert forall|a: int, b: int| 0 <= a < b < self.tags@.len() && tags_ok(before) implies self.tags@[a]@ != self.tags@[b]@ by {
                    if b == before.len() {
                        assert(tag_views(before)[a] == before[a]@);
                    }
                }
            }
        }
    }

    /// Remove every tag equal to `tag`; the others keep their order.
    pub fn remove_tag(&mut self, tag: &str)
        ensures
            tag_views(final(self).tags@) == without_tag(tag_views(old(self).tags@), tag@),
            tags_ok(old(self).tags@) ==> tags_ok(final(self).tags@),
            final(self).media_files == old(self).media_files,
            final(self).content_type == old(self).content_type,
    {
        let ghost before = self.tags@;
        let mut kept: Vec<String> = Vec::new();
        let mut i: usize = 0;
        while i < self.tags.len()
            invariant
                self.tags@ == before,
                i <= before.len(),
                tag_views(kept@) == tag_views(before.take(i as int)).filter(
                    |t: Seq<char>| t != tag@,
                ),
                forall|a: int| 0 <= a < kept@.len() ==> exists|b: int| 0 <= b < i && #[trigger] kept@[a]@ == before[b]@,
                kept@.len() <= i,
                tags_ok(before) ==> forall|a: int, b: int| 0 <= a < b < kept@.len() ==> kept@[a]@ != kept@[b]@,
            decreases before.len() - i,
        {
            let ghost prev = kept@;
            if !text_eq(self.tags[i].as_str(), tag) {
                kept.push(self.tags[i].clone());
            }
            proof {
                let f = |t: Seq<char>| t != tag@;
                assert(tag_views(before.take(i + 1)) =~= tag_views(before.take(i as int)).push(
                    before[i as int]@,
                ));
                reveal_with_fuel(Seq::<Seq<char>>::filter, 1);
                assert(tag_views(before.take(i + 1)).drop_last() =~= tag_views(before.take(i as int)));
                assert(tag_views(kept@) =~= tag_views(before.take(i + 1)).filter(f)) by {
                    if before[i as int]@ != tag@ {
                        assert(tag_views(kept@) =~= tag_views(prev).push(before[i as int]@));
                    } else {
                        assert(kept@ == prev);
                    }
                }
                assert forall|a: int| 0 <= a < kept@.len() implies exists|b: int| 0 <= b < i + 1 && #[trigger] kept@[a]@ == before[b]@ by {
                    if a < prev.len() {
                        assert(kept@[a] == prev[a]);
                        let b = choose|b: int| 0 <= b < i && prev[a]@ == before[b]@;
                        assert(kept@[a]@ == before[b]@);
                    } else {
                        assert(kept@[a]@ == before[i as int]@);
                    }
                }
                if tags_ok(before) {
                    assert forall|a: int, b: int| 0 <= a < b < kept@.len() implies kept@[a]@ != kept@[b]@ by {
                        if b >= prev.len() {
                            assert(kept@[a] == prev[a]);
                            let c = choose|c: int| 0 <= c < i && prev[a]@ == before[c]@;
                            assert(before[c]@ != before[i as int]@);
                        } else {
                            assert(kept@[a] == prev[a]);
                            assert(kept@[b] == prev[b]);
                        }
                    }
                }
            }
            i = i + 1;
        }
        assert(before.take(before.len() as int) =~= before);
        self.tags = kept;
    }

    /// The mutation input built from the form: the description and tags
    /// are left out when empty; media are set after the upload.
    pub fn build_input(&self) -> (r: CreatePostInput)
        ensures
            r.title@ == self.title@,
            r.mediadescription == if self.description@.len() == 0 {
                None
            } else {
                Some(self.description)
            },
            r.contenttype == self.content_type,
            r.media is None,
            r.cover is None,
            r.tags is None <==> self.tags@.len() == 0,
            r.tags matches Some(t) ==> t@ == self.tags@,
            r.uploaded_files is None,
    {
        CreatePostInput {
            title: self.title.clone(),
            mediadescription: if self.description.as_str().is_empty() {
                None
            } else {
                Some(self.description.clone())
            },
            contenttype: self.content_type,
            media: None,
            cover: None,
            tags: if self.tags.len() == 0 {
                None
            } else {
                Some(clone_strings(&self.tags))
            },
            uploaded_files: None,
        }
    }

    /// Check the form before sending it: title 1-63 characters,
    /// description at most 500 characters, and at least one media file for non-text posts.
    pub fn validate(&self) -> (r: Result<(), String>)
        ensures
            match r {
                Ok(()) => draft_error(*self) is None,
                Err(m) => draft_error(*self) == Some(m@),
            },
    {
        if self.title.as_str().is_empty() {
            return Err("Title is required".to_owned());
        }
        if self.title.as_str().unicode_len() > 63 {
            return Err("Title must be 63 characters or less".to_owned());
        }
        if self.description.as_str().unicode_len() > 500 {
            return Err("Description must be 500 characters or less".to_owned());
        }
        if self.content_type.requires_media() && self.media_files.len() == 0 {
            let mut m = self.content_type.display_name().to_owned();
            m.append(" requires at least one media file");
            return Err(m);
        }
        Ok(())
    }
}

/// Removing a tag that adding put on the list gives back the list as it
/// was before the tag was added.
pub proof fn lemma_remove_tag_undoes_add(tags: Seq<Seq<char>>, t: Seq<char>)
    requires
        !tags.contains(t),
    ensures
        without_tag(with_tag(tags, t), t) == tags,
{
    reveal_with_fuel(Seq::<Seq<char>>::filter, 1);
    lemma_without_absent_tag(tags, t);
    if tags.len() < 10 {
        let added = tags.push(t);
        assert(added.drop_last() =~= tags);
        assert(without_tag(added, t) == without_tag(added.drop_last(), t));
    }
}

proof fn lemma_without_absent_tag(tags: Seq<Seq<char>>, t: Seq<char>)
    requires
        !tags.contains(t),
    ensures
        without_tag(tags, t) == tags,
    decreases tags.len(),
{
    reveal_with_fuel(Seq::<Seq<char>>::filter, 1);
    if tags.len() > 0 {
        let rest = tags.drop_last();
        assert(!rest.contains(t)) by {
            if rest.contains(t) {
                let k = choose|k: int| 0 <= k < rest.len() && rest[k] == t;
                assert(tags[k] == t);
            }
        }
        lemma_without_absent_tag(rest, t);
        assert(tags.last() != t) by {
            assert(tags[tags.len() - 1] == tags.last());
        }
        assert(without_tag(tags, t) == without_tag(rest, t).push(tags.last()));
        assert(rest.push(tags.last()) =~= tags);
    }
}

/// A post of any kind but text needs media: with a title of 1 to 63
/// characters and a description of at most 500, a non-text post without
/// media files is refused with "<kind> requires at least one media file",
/// and a form that passes is a text post or has a media file.
pub proof fn lemma_media_required(c: NewPostContext)
    ensures
        c.content_type != CreateContentType::Text && c.media_files@.len() == 0 && 0
            < c.title@.len() <= 63 && c.description@.len() <= 500 ==> draft_error(c) == Some(
            spec_display_name(c.content_type) + " requires at least one media file"@,
        ),
        draft_error(c) is None ==> c.content_type == CreateContentType::Text
            || c.media_files@.len() > 0,
        draft_error(c) is None ==> 0 < c.title@.len() <= 63 && c.description@.len() <= 500,
{
}

} // verus!
