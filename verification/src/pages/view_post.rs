//! The single-post page: which request loads the post, when a view is
//! recorded, and the page's share metadata.
use vstd::prelude::*;
use crate::models::post::Post;

verus! {

/// How the page loads its post.
#[derive(Debug, Clone, Copy, PartialEq, Eq, Structural)]
pub enum PostRequest {
    /// No id in the URL: the page shows "No post ID provided".
    MissingId,
    /// Signed in: the full post query.
    Authenticated,
    /// Not signed in: the guest post query.
    Guest,
}

/// The request for post `id`.
pub fn post_request(id: &str, is_authenticated: bool) -> (r: PostRequest)
    ensures
        r == if id@.len() == 0 {
            PostRequest::MissingId
        } else if is_authenticated {
            PostRequest::Authenticated
        } else {
            PostRequest::Guest
        },
{
    if id.unicode_len() == 0 {
        PostRequest::MissingId
    } else if is_authenticated {
        PostRequest::Authenticated
    } else {
        PostRequest::Guest
    }
}

/// A view is recorded once, for a signed-in user, when the post loaded
/// and its id is known.
pub fn records_view(is_authenticated: bool, post_loaded: bool, id: &str) -> (r: bool)
    ensures
        r == (is_authenticated && post_loaded && id@.len() > 0),
{
    is_authenticated && post_loaded && id.unicode_len() > 0
}

/// The share metadata of a post page.
#[derive(Debug, Clone)]
pub struct PostSeo {
    pub title: String,
    pub description: String,
    pub image: String,
    pub url: String,
}

/// Title `<title> - Peer Network`; description from the post's text or
/// its title; image from the cover, the media, or the default card; URL
/// `<base>/post/<id>`.
pub fn post_seo(post: &Post, base_url: &str) -> (r: PostSeo)
    ensures
        r.title@ == post.title@ + " - Peer Network"@,
        r.description@ == match post.mediadescription {
            Some(d) => d@,
            None => post.title@,
        },
        r.image@ == match post.cover {
            Some(c) => c@,
            None => match post.media {
                Some(m) => m@,
                None => "/svg/og-default.svg"@,
            },
        },
        r.url@ == base_url@ + "/post/"@ + post.id@,
{
    let mut title = post.title.clone();
    title.append(" - Peer Network");
    let description = match &post.mediadescription {
        Some(d) => d.clone(),
        None => post.title.clone(),
    };
    let image = match &post.cover {
        Some(c) => c.clone(),
        None => match &post.media {
            Some(m) => m.clone(),
            None => "/svg/og-default.svg".to_owned(),
        },
    };
    let mut url = base_url.to_owned();
    url.append("/post/");
    url.append(post.id.as_str());
    PostSeo { title, description, image, url }
}

} // verus!
