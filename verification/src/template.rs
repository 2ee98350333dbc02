//! The template engine: a page skeleton with literal placeholder tokens,
//! each substituted by one piece of page-specific content.
//!
//! Substitution is naive find-and-replace in a fixed order: content, then —
//! if metadata is supplied — description, timestamp (rendered as a
//! `YYYY-MM-DD` date), main image, and title last.  A placeholder whose
//! source value is absent is left untouched.  If the substituted values
//! themselves contain a token string they are substituted again by a later
//! pass; tokens must be chosen by the site author to avoid collision.

use vstd::prelude::*;
use crate::config::Config;
use crate::post::{date_display, PostMeta, MAX_TIMESTAMP};
use crate::text::{replace_all, replace_spec};

verus! {

/// Why a template could not be loaded.
#[derive(Debug)]
pub enum TemplateError {
    /// The template file could not be read.
    CantReadTemplateFile,
}

impl TemplateError {
    /// A short human-readable name for the error.
    pub fn message(&self) -> (s: &'static str)
        ensures
            s@ == "CantReadTemplateFile"@,
    {
        match self {
            TemplateError::CantReadTemplateFile => "CantReadTemplateFile",
        }
    }
}

/// A page skeleton, immutable once loaded.
pub struct Template {
    html: String,
}

impl View for Template {
    type V = Seq<char>;

    closed spec fn view(&self) -> Seq<char> {
        self.html@
    }
}

/// A finished page: the skeleton with the content substituted first, then —
/// when metadata is given — each present metadata field, and the title last.
pub open spec fn build_page_spec(
    tpl: Seq<char>,
    config: Config,
    content: Seq<char>,
    title: Seq<char>,
    meta: Option<PostMeta>,
) -> Seq<char> {
    let s = replace_spec(tpl, config.selector_content@, content);
    let s = match meta {
        Some(m) => {
            let s = match m.description {
                Some(d) => replace_spec(s, config.selector_description@, d@),
                None => s,
            };
            let s = match m.timestamp {
                Some(t) => replace_spec(s, config.selector_timestamp@, date_display(t)),
                None => s,
            };
            match m.main_image {
                Some(img) => replace_spec(s, config.selector_main_image@, img@),
                None => s,
            }
        },
        None => s,
    };
    replace_spec(s, config.selector_title@, title)
}

impl Template {
    /// A template from its skeleton text.
    pub fn new(html: String) -> (t: Template)
        ensures
            t@ == html@,
    {
        Template { html }
    }

    /// Substitute the page's values into the skeleton, in the fixed order:
    /// content, description, timestamp, main image, title.
    pub fn build_page(
        &self,
        config: &Config,
        content: &str,
        title: &str,
        meta: Option<&PostMeta>,
    ) -> (r: String)
        requires
            (match meta {
                Some(m) => m.timestamp matches Some(t) ==> t <= MAX_TIMESTAMP,
                None => true,
            }),
        ensures
            r@ == build_page_spec(
                self@,
                *config,
                content@,
                title@,
                match meta {
                    Some(m) => Some(*m),
                    None => None,
                },
            ),
    {
        let s = replace_all(self.html.as_str(), config.selector_content.as_str(), content);
        let s = match meta {
            Some(m) => {
                let s = match &m.description {
                    Some(d) => replace_all(
                        s.as_str(),
                        config.selector_description.as_str(),
                        d.as_str(),
                    ),
                    None => s,
                };
                let s = match m.timestamp {
                    Some(t) => {
                        let date = crate::post::format_date(t);
                        replace_all(s.as_str(), config.selector_timestamp.as_str(), date.as_str())
                    },
                    None => s,
                };
                match &m.main_image {
                    Some(img) => replace_all(
                        s.as_str(),
                        config.selector_main_image.as_str(),
                        img.as_str(),
                    ),
                    None => s,
                }
            },
            None => s,
        };
        replace_all(s.as_str(), config.selector_title.as_str(), title)
    }
}

} // verus!
