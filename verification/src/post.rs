//! Posts: per-folder content turned into a renderable entity.
//!
//! A post is built from a markdown file, the folder's name (its slug) and an
//! optional, best-effort metadata file.  The markdown is rendered to an HTML
//! fragment by an outside renderer with raw-HTML passthrough and footnote
//! support enabled; the title falls back in three tiers: explicit metadata
//! title, first `<h1>` heading of the rendered HTML, slug.

use vstd::prelude::*;
use crate::text::{find_from, find_from_spec};

verus! {

/// Largest timestamp (seconds since the epoch) that the date renderer
/// accepts; beyond this the calendar range of the date library ends.
pub const MAX_TIMESTAMP: u64 = 8_000_000_000_000;

/// Why a content folder could not be turned into a post.
#[derive(Debug)]
pub enum PostError {
    /// The metadata file exists but is not valid for the expected schema.
    InvalidPostMeta,
    /// The content file exists but could not be used.
    InvalidPostFile,
    /// A required file could not be read.
    CantReadFile,
    /// No slug could be derived from the folder path.
    CantReadPath,
}

impl PostError {
    /// A short human-readable name for the error.
    pub fn message(&self) -> (s: &'static str)
        ensures
            s@ == match self {
                PostError::InvalidPostMeta => "InvalidPostMeta"@,
                PostError::InvalidPostFile => "InvalidPostFile"@,
                PostError::CantReadFile => "CantReadFile"@,
                PostError::CantReadPath => "CantReadPath"@,
            },
    {
        match self {
            PostError::InvalidPostMeta => "InvalidPostMeta",
            PostError::InvalidPostFile => "InvalidPostFile",
            PostError::CantReadFile => "CantReadFile",
            PostError::CantReadPath => "CantReadPath",
        }
    }
}

/// Sparse, optional metadata attached to a post.  Absence of the metadata
/// file is equivalent to every field being absent.
#[derive(Debug, Clone)]
pub struct PostMeta {
    /// Explicit title, taking precedence over any derived one.
    pub title: Option<String>,
    /// Publication time in seconds since the epoch.
    pub timestamp: Option<u64>,
    /// Tags, order-preserving.
    pub tags: Option<Vec<String>>,
    /// Short description of the post.
    pub description: Option<String>,
    /// Keywords, informational only.
    pub keywords: Option<Vec<String>>,
    /// Reference to the post's main image.
    pub main_image: Option<String>,
    /// Draft flag, informational only: drafts are built like any other post.
    pub draft: Option<bool>,
}

/// Every metadata field is absent.
pub open spec fn meta_is_empty(m: PostMeta) -> bool {
    &&& m.title is None
    &&& m.timestamp is None
    &&& m.tags is None
    &&& m.description is None
    &&& m.keywords is None
    &&& m.main_image is None
    &&& m.draft is None
}

impl Default for PostMeta {
    /// The all-fields-absent metadata.
    fn default() -> (m: PostMeta)
        ensures
            meta_is_empty(m),
    {
        PostMeta {
            title: None,
            timestamp: None,
            tags: None,
            description: None,
            keywords: None,
            main_image: None,
            draft: None,
        }
    }
}

/// A post, immutable after construction.
#[derive(Debug, Clone)]
pub struct Post {
    /// The content folder's base name, used as URL segment and output folder.
    pub slug: String,
    /// The post's title, derived on construction.
    pub title: String,
    /// The rendered HTML body.
    pub html: String,
    /// The source folder path, for asset discovery.
    pub dir: String,
    /// The post's metadata.
    pub meta: PostMeta,
}

/// What comrak's `markdown_to_html` returns for the given markdown text,
/// with raw-HTML passthrough and footnotes enabled: a pure function of the
/// text.
pub uninterp spec fn rendered_markdown(md: Seq<char>) -> Seq<char>;

/// What chrono renders, through the `%Y-%m-%d` format, for the given
/// timestamp in seconds since the epoch: a pure function of the timestamp.
pub uninterp spec fn date_display(t: u64) -> Seq<char>;

/// Relies on `comrak::markdown_to_html`: renders markdown to an HTML
/// fragment, a pure function of the input text and the options, which are
/// fixed here to raw-HTML passthrough plus footnote support.
#[verifier::external_body]
fn comrak_render(md: &str) -> (r: String)
    ensures
        r@ == rendered_markdown(md@),
{
    let mut options = comrak::Options::default();
    options.extension.footnotes = true;
    options.render.unsafe_ = true;
    comrak::markdown_to_html(md, &options)
}

/// Relies on `chrono::DateTime::from_timestamp` and chrono's `%Y-%m-%d`
/// formatting: the result is a pure function of the timestamp, `None` only
/// beyond chrono's calendar range, which `MAX_TIMESTAMP` stays inside.
#[verifier::external_body]
fn chrono_format_date(t: u64) -> (r: Option<String>)
    ensures
        r matches Some(s) ==> s@ == date_display(t),
        t <= MAX_TIMESTAMP ==> r is Some,
{
    match chrono::DateTime::from_timestamp(t as i64, 0) {
        Some(d) => Some(d.format("%Y-%m-%d").to_string()),
        None => None,
    }
}

/// The `YYYY-MM-DD` rendering of a timestamp inside the calendar range.
pub(crate) fn format_date(t: u64) -> (r: String)
    requires
        t <= MAX_TIMESTAMP,
    ensures
        r@ == date_display(t),
{
    match chrono_format_date(t) {
        Some(s) => s,
        None => String::new(),
    }
}

/// The view of an optional string.
pub open spec fn opt_string_view(o: Option<String>) -> Option<Seq<char>> {
    match o {
        Some(s) => Some(s@),
        None => None,
    }
}

/// The text between the first `<h1>` of the HTML fragment and the next
/// `</h1>` after it, if both are present.
pub open spec fn first_heading(html: Seq<char>) -> Option<Seq<char>> {
    match find_from_spec(html, "<h1>"@, 0) {
        None => None,
        Some(i) => match find_from_spec(html, "</h1>"@, i + "<h1>"@.len()) {
            None => None,
            Some(j) => Some(html.subrange(i + "<h1>"@.len(), j)),
        },
    }
}

/// Three-tier title derivation: the explicit metadata title if present,
/// else the first heading of the rendered HTML, else the slug.
pub open spec fn derived_title(
    meta_title: Option<Seq<char>>,
    html: Seq<char>,
    slug: Seq<char>,
) -> Seq<char> {
    match meta_title {
        Some(t) => t,
        None => match first_heading(html) {
            Some(h) => h,
            None => slug,
        },
    }
}

/// The first `<h1>`-delimited heading of an HTML fragment.
pub fn extract_first_heading(html: &str) -> (r: Option<String>)
    ensures
        opt_string_view(r) == first_heading(html@),
{
    let n = html.unicode_len();
    proof {
        reveal_strlit("<h1>");
        reveal_strlit("</h1>");
        assert(html@.len() == n as nat);
    }
    match find_from(html, "<h1>", 0) {
        None => None,
        Some(i) => match find_from(html, "</h1>", i + 4) {
            None => None,
            Some(j) => Some(html.substring_char(i + 4, j).to_owned()),
        },
    }
}

impl Post {
    /// Assemble a post from its parts, deriving the title.
    pub fn new(slug: String, html: String, dir: String, meta: PostMeta) -> (p: Post)
        ensures
            p.slug == slug,
            p.html == html,
            p.dir == dir,
            p.meta == meta,
            p.title@ == derived_title(opt_string_view(meta.title), html@, slug@),
    {
        let title: String = match &meta.title {
            Some(t) => t.clone(),
            None => match extract_first_heading(html.as_str()) {
                Some(h) => h,
                None => slug.clone(),
            },
        };
        Post { title, html, dir, slug, meta }
    }

    /// The post's date rendered as `YYYY-MM-DD`, or the empty string for a
    /// post without a timestamp.
    pub fn render_date(&self) -> (r: String)
        requires
            self.meta.timestamp matches Some(t) ==> t <= MAX_TIMESTAMP,
        ensures
            r@ == render_date_spec(*self),
    {
        match self.meta.timestamp {
            Some(t) => format_date(t),
            None => String::new(),
        }
    }

    /// An HTML link to the post: its slug as an absolute path, its title as
    /// the link text.
    pub fn render_link(&self) -> (r: String)
        ensures
            r@ == render_link_spec(*self),
    {
        let mut out: String = "<a href=\"/".to_owned();
        out.append(self.slug.as_str());
        out.append("\">");
        out.append(self.title.as_str());
        out.append("</a>");
        out
    }

    /// Build a post from what its content folder held: the folder's base
    /// name, the folder path, the markdown text, and the metadata if a valid
    /// metadata file was present.  A missing or invalid metadata file is not
    /// a failure: the post gets the all-fields-absent metadata.
    pub fn from_sources(slug: String, dir: String, markdown: &str, meta: Option<PostMeta>) -> (p:
        Post)
        ensures
            p.slug == slug,
            p.dir == dir,
            p.html@ == rendered_markdown(markdown@),
            p.meta == match meta {
                Some(m) => m,
                None => p.meta,
            },
            meta is None ==> meta_is_empty(p.meta),
            p.title@ == derived_title(
                opt_string_view(
                    match meta {
                        Some(m) => m.title,
                        None => None,
                    },
                ),
                rendered_markdown(markdown@),
                slug@,
            ),
    {
        let html = comrak_render(markdown);
        let m = match meta {
            Some(m) => m,
            None => PostMeta::default(),
        };
        Post::new(slug, html, dir, m)
    }
}

/// Title derivation always yields a non-empty title, as long as the slug is
/// non-empty and neither an explicit title nor an extracted heading is the
/// empty string.  Derivation is a pure function of its inputs, so identical
/// inputs always yield the identical title.
pub proof fn lemma_derived_title_nonempty(
    meta_title: Option<Seq<char>>,
    html: Seq<char>,
    slug: Seq<char>,
)
    requires
        slug.len() > 0,
        meta_title matches Some(t) ==> t.len() > 0,
        first_heading(html) matches Some(h) ==> h.len() > 0,
    ensures
        derived_title(meta_title, html, slug).len() > 0,
{
}

/// The rendered date of a post: `YYYY-MM-DD` for a timestamped post, the
/// empty string otherwise.
pub open spec fn render_date_spec(p: Post) -> Seq<char> {
    match p.meta.timestamp {
        Some(t) => date_display(t),
        None => Seq::<char>::empty(),
    }
}

/// The rendered link of a post.
pub open spec fn render_link_spec(p: Post) -> Seq<char> {
    "<a href=\"/"@ + p.slug@ + "\">"@ + p.title@ + "</a>"@
}

} // verus!
