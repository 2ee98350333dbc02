//! The site build plan: the full, ordered list of filesystem actions that
//! materialises a site from its sorted posts, static pages, template and
//! configuration.
//!
//! Every run regenerates the destination from scratch: the plan starts by
//! clearing the destination, copies the shared assets, materialises each
//! post and each static page (folder, image assets, rendered page), then
//! the tag pages, and the front page last.  The plan is a pure function of
//! its inputs; executing it against a filesystem happens outside the
//! library.

use vstd::prelude::*;
use crate::config::Config;
use crate::post::{render_date_spec, render_link_spec, Post, MAX_TIMESTAMP};
use crate::tags::{build_tag_index, bucket_tags, ints_of, lemma_tagged_range, tag_keys, tagged_indices};
use crate::template::{build_page_spec, Template};
use crate::text::match_at_exec;

verus! {

/// One filesystem action of the build.
pub enum Action {
    /// Delete the directory if it exists, then create it empty.
    ClearDest { path: String },
    /// Create a directory.
    MakeDir { path: String },
    /// Copy every file of `from` into `to`.
    CopyAll { from: String, to: String },
    /// Copy the image files of `from` into `to`.
    CopyImages { from: String, to: String },
    /// Write a finished HTML page.
    WritePage { path: String, html: String },
}

/// The mathematical value of an [`Action`].
pub ghost enum ActionV {
    ClearDest { path: Seq<char> },
    MakeDir { path: Seq<char> },
    CopyAll { from: Seq<char>, to: Seq<char> },
    CopyImages { from: Seq<char>, to: Seq<char> },
    WritePage { path: Seq<char>, html: Seq<char> },
}

impl View for Action {
    type V = ActionV;

    open spec fn view(&self) -> ActionV {
        match self {
            Action::ClearDest { path } => ActionV::ClearDest { path: path@ },
            Action::MakeDir { path } => ActionV::MakeDir { path: path@ },
            Action::CopyAll { from, to } => ActionV::CopyAll { from: from@, to: to@ },
            Action::CopyImages { from, to } => ActionV::CopyImages { from: from@, to: to@ },
            Action::WritePage { path, html } => ActionV::WritePage { path: path@, html: html@ },
        }
    }
}

/// The values of a whole plan.
pub open spec fn plan_view(plan: Seq<Action>) -> Seq<ActionV> {
    plan.map_values(|a: Action| a@)
}

/// `a` and `b` joined by a path separator.
pub open spec fn joined(a: Seq<char>, b: Seq<char>) -> Seq<char> {
    a + "/"@ + b
}

/// Join two path fragments.
pub fn join_path(a: &str, b: &str) -> (r: String)
    ensures
        r@ == joined(a@, b@),
{
    let mut out = a.to_owned();
    out.append("/");
    out.append(b);
    out
}

/// Every post can be date-rendered: any timestamp is within the calendar
/// range.
pub open spec fn posts_renderable(s: Seq<Post>) -> bool {
    forall|i: int|
        0 <= i < s.len() ==> ((#[trigger] s[i]).meta.timestamp matches Some(t) ==> t
            <= MAX_TIMESTAMP)
}

/// The file name carries an image extension.
pub open spec fn is_image_name_spec(name: Seq<char>) -> bool {
    ||| (name.len() >= 5 && name.subrange(name.len() - 4, name.len() as int) == ".png"@)
    ||| (name.len() >= 5 && name.subrange(name.len() - 4, name.len() as int) == ".jpg"@)
    ||| (name.len() >= 6 && name.subrange(name.len() - 5, name.len() as int) == ".jpeg"@)
}

/// Whether a file name carries an image extension (`.png`, `.jpg`,
/// `.jpeg`), so that it is copied along with its post.
pub fn is_image_name(name: &str) -> (r: bool)
    ensures
        r == is_image_name_spec(name@),
{
    let n = name.unicode_len();
    proof {
        reveal_strlit(".png");
        reveal_strlit(".jpg");
        reveal_strlit(".jpeg");
    }
    if n >= 5 {
        if match_at_exec(name, ".png", n - 4) || match_at_exec(name, ".jpg", n - 4) {
            return true;
        }
    }
    if n >= 6 {
        if match_at_exec(name, ".jpeg", n - 5) {
            return true;
        }
    }
    false
}

/// One list entry of an index or tag page: date and link.
pub open spec fn list_entry_spec(p: Post) -> Seq<char> {
    "<li><small>"@ + render_date_spec(p) + "</small> "@ + render_link_spec(p) + "</li>\n"@
}

/// The list entries of the given posts, in order.
pub open spec fn list_entries_spec(posts: Seq<Post>) -> Seq<char>
    decreases posts.len(),
{
    if posts.len() == 0 {
        Seq::<char>::empty()
    } else {
        list_entries_spec(posts.drop_last()) + list_entry_spec(posts.last())
    }
}

/// The posts selected by a sequence of indices.
pub open spec fn posts_at(posts: Seq<Post>, ids: Seq<int>) -> Seq<Post> {
    ids.map_values(|i: int| posts[i])
}

/// The body of a tag page: a heading naming the tag and the list of the
/// posts carrying it.
pub open spec fn tag_page_body_spec(t: Seq<char>, entries: Seq<Post>) -> Seq<char> {
    "<h1>All posts tagged with "@ + t + "</h1>\n"@ + "<ul>\n"@ + list_entries_spec(entries)
        + "</ul>\n"@
}

/// The body of the front page: the list of all posts, in order.
pub open spec fn index_body_spec(posts: Seq<Post>) -> Seq<char> {
    "<h2>Posts</h2>\n"@ + "<ul class=\"posts\">\n"@ + list_entries_spec(posts) + "</ul>\n"@
}

/// The actions that materialise one page: its folder, its image assets,
/// its rendered page.
pub open spec fn materialize_spec(dest: Seq<char>, tpl: Seq<char>, config: Config, p: Post) -> Seq<
    ActionV,
> {
    let folder = joined(dest, p.slug@);
    seq![
        ActionV::MakeDir { path: folder },
        ActionV::CopyImages { from: p.dir@, to: folder },
        ActionV::WritePage {
            path: joined(folder, "index.html"@),
            html: build_page_spec(tpl, config, p.html@, p.title@, Some(p.meta)),
        },
    ]
}

/// The materialisation actions of a list of pages, in order.
pub open spec fn pages_spec(dest: Seq<char>, tpl: Seq<char>, config: Config, pages: Seq<Post>) -> Seq<
    ActionV,
>
    decreases pages.len(),
{
    if pages.len() == 0 {
        Seq::<ActionV>::empty()
    } else {
        pages_spec(dest, tpl, config, pages.drop_last()) + materialize_spec(
            dest,
            tpl,
            config,
            pages.last(),
        )
    }
}

/// The actions of one tag page.
pub open spec fn tag_page_spec(
    dest: Seq<char>,
    tpl: Seq<char>,
    config: Config,
    posts: Seq<Post>,
    t: Seq<char>,
) -> Seq<ActionV> {
    let folder = joined(joined(dest, "tags"@), t);
    let body = tag_page_body_spec(t, posts_at(posts, tagged_indices(posts, t)));
    seq![
        ActionV::MakeDir { path: folder },
        ActionV::WritePage {
            path: joined(folder, "index.html"@),
            html: build_page_spec(tpl, config, body, t, None),
        },
    ]
}

/// The actions of the tag pages for the given keys, in order.
pub open spec fn tags_spec(
    dest: Seq<char>,
    tpl: Seq<char>,
    config: Config,
    posts: Seq<Post>,
    keys: Seq<Seq<char>>,
) -> Seq<ActionV>
    decreases keys.len(),
{
    if keys.len() == 0 {
        Seq::<ActionV>::empty()
    } else {
        tags_spec(dest, tpl, config, posts, keys.drop_last()) + tag_page_spec(
            dest,
            tpl,
            config,
            posts,
            keys.last(),
        )
    }
}

/// The whole build: clear the destination, copy the shared assets,
/// materialise every post and static page, write the tag pages, and the
/// front page last.
pub open spec fn site_plan_spec(
    src: Seq<char>,
    config: Config,
    tpl: Seq<char>,
    posts: Seq<Post>,
    statics: Seq<Post>,
) -> Seq<ActionV> {
    let dest = config.dest@;
    seq![
        ActionV::ClearDest { path: dest },
        ActionV::MakeDir { path: joined(dest, "assets"@) },
        ActionV::CopyAll { from: joined(src, "assets"@), to: joined(dest, "assets"@) },
    ] + pages_spec(dest, tpl, config, posts) + pages_spec(dest, tpl, config, statics) + seq![
        ActionV::MakeDir { path: joined(dest, "tags"@) },
    ] + tags_spec(dest, tpl, config, posts, tag_keys(posts)) + seq![
        ActionV::WritePage {
            path: joined(dest, "index.html"@),
            html: build_page_spec(tpl, config, index_body_spec(posts), config.title@, None),
        },
    ]
}

/// Regeneration is fully destructive: the very first action of every build
/// plan clears the destination directory, so nothing of an earlier build
/// survives into the new one; whatever the plan writes is created after it.
pub proof fn lemma_plan_is_destructive(
    src: Seq<char>,
    config: Config,
    tpl: Seq<char>,
    posts: Seq<Post>,
    statics: Seq<Post>,
)
    ensures
        site_plan_spec(src, config, tpl, posts, statics).len() > 0,
        site_plan_spec(src, config, tpl, posts, statics)[0] == (ActionV::ClearDest {
            path: config.dest@,
        }),
{
    let dest = config.dest@;
    let head = seq![
        ActionV::ClearDest { path: dest },
        ActionV::MakeDir { path: joined(dest, "assets"@) },
        ActionV::CopyAll { from: joined(src, "assets"@), to: joined(dest, "assets"@) },
    ];
    assert(head[0] == (ActionV::ClearDest { path: dest }));
    assert(site_plan_spec(src, config, tpl, posts, statics)[0] == head[0]);
}

/// The list entries of the posts selected by `ids`, in order.
fn render_entries_selected(posts: &Vec<Post>, ids: &Vec<usize>) -> (r: String)
    requires
        posts_renderable(posts@),
        forall|k: int| 0 <= k < ids@.len() ==> #[trigger] ids@[k] < posts@.len(),
    ensures
        r@ == list_entries_spec(posts_at(posts@, ints_of(ids@))),
{
    let mut out = String::new();
    proof {
        assert(ints_of(ids@).take(0) =~= Seq::<int>::empty());
        assert(posts_at(posts@, ints_of(ids@).take(0)) =~= Seq::<Post>::empty());
    }
    let mut k: usize = 0;
    while k < ids.len()
        invariant
            0 <= k <= ids@.len(),
            posts_renderable(posts@),
            forall|k2: int| 0 <= k2 < ids@.len() ==> #[trigger] ids@[k2] < posts@.len(),
            out@ == list_entries_spec(posts_at(posts@, ints_of(ids@).take(k as int))),
        decreases ids@.len() - k,
    {
        let p = ids[k];
        let date = posts[p].render_date();
        let link = posts[p].render_link();
        out.append("<li><small>");
        out.append(date.as_str());
        out.append("</small> ");
        out.append(link.as_str());
        out.append("</li>\n");
        proof {
            let sel = posts_at(posts@, ints_of(ids@).take(k as int));
            let sel1 = posts_at(posts@, ints_of(ids@).take(k as int + 1));
            assert(sel1.drop_last() =~= sel);
            assert(sel1.last() == posts@[ids@[k as int] as int]);
            assert(list_entries_spec(sel1) == list_entries_spec(sel) + list_entry_spec(
                posts@[ids@[k as int] as int],
            ));
        }
        k = k + 1;
    }
    proof {
        assert(ints_of(ids@).take(ids@.len() as int) =~= ints_of(ids@));
    }
    out
}

/// The list entries of all posts, in order.
fn render_entries_all(posts: &Vec<Post>) -> (r: String)
    requires
        posts_renderable(posts@),
    ensures
        r@ == list_entries_spec(posts@),
{
    let mut out = String::new();
    proof {
        assert(posts@.take(0) =~= Seq::<Post>::empty());
    }
    let mut k: usize = 0;
    while k < posts.len()
        invariant
            0 <= k <= posts@.len(),
            posts_renderable(posts@),
            out@ == list_entries_spec(posts@.take(k as int)),
        decreases posts@.len() - k,
    {
        let date = posts[k].render_date();
        let link = posts[k].render_link();
        out.append("<li><small>");
        out.append(date.as_str());
        out.append("</small> ");
        out.append(link.as_str());
        out.append("</li>\n");
        proof {
            assert(posts@.take(k as int + 1).drop_last() =~= posts@.take(k as int));
            assert(posts@.take(k as int + 1).last() == posts@[k as int]);
        }
        k = k + 1;
    }
    proof {
        assert(posts@.take(posts@.len() as int) =~= posts@);
    }
    out
}

/// Compute the full, ordered action plan of one site build.
pub fn build_site_plan(
    src_dir: &str,
    config: &Config,
    template: &Template,
    posts: &Vec<Post>,
    static_pages: &Vec<Post>,
) -> (plan: Vec<Action>)
    requires
        posts_renderable(posts@),
        posts_renderable(static_pages@),
    ensures
        plan_view(plan@) == site_plan_spec(src_dir@, *config, template@, posts@, static_pages@),
{
    let mut plan: Vec<Action> = Vec::new();
    let ghost dest = config.dest@;
    let ghost tpl = template@;
    let ghost cfg = *config;

    plan.push(Action::ClearDest { path: config.dest.clone() });
    let assets_dest = join_path(config.dest.as_str(), "assets");
    plan.push(Action::MakeDir { path: assets_dest.clone() });
    let assets_src = join_path(src_dir, "assets");
    plan.push(Action::CopyAll { from: assets_src, to: assets_dest });
    let ghost head1 = seq![
        ActionV::ClearDest { path: dest },
        ActionV::MakeDir { path: joined(dest, "assets"@) },
        ActionV::CopyAll { from: joined(src_dir@, "assets"@), to: joined(dest, "assets"@) },
    ];
    proof {
        assert(plan_view(plan@) =~= head1);
        assert(pages_spec(dest, tpl, cfg, posts@.take(0)) == Seq::<ActionV>::empty());
        assert(posts@.take(0) =~= Seq::<Post>::empty());
        assert(plan_view(plan@) =~= head1 + pages_spec(dest, tpl, cfg, posts@.take(0)));
    }

    let mut i: usize = 0;
    while i < posts.len()
        invariant
            0 <= i <= posts@.len(),
            posts_renderable(posts@),
            dest == config.dest@,
            tpl == template@,
            cfg == *config,
            plan_view(plan@) == head1 + pages_spec(dest, tpl, cfg, posts@.take(i as int)),
        decreases posts@.len() - i,
    {
        let ghost before = plan@;
        let folder = join_path(config.dest.as_str(), posts[i].slug.as_str());
        plan.push(Action::MakeDir { path: folder.clone() });
        plan.push(Action::CopyImages { from: posts[i].dir.clone(), to: folder.clone() });
        let page = template.build_page(
            config,
            posts[i].html.as_str(),
            posts[i].title.as_str(),
            Some(&posts[i].meta),
        );
        let page_path = join_path(folder.as_str(), "index.html");
        plan.push(Action::WritePage { path: page_path, html: page });
        proof {
            assert(plan_view(plan@) =~= plan_view(before) + materialize_spec(
                dest,
                tpl,
                cfg,
                posts@[i as int],
            ));
            assert(posts@.take(i as int + 1).drop_last() =~= posts@.take(i as int));
            assert(posts@.take(i as int + 1).last() == posts@[i as int]);
            assert(pages_spec(dest, tpl, cfg, posts@.take(i as int + 1)) == pages_spec(
                dest,
                tpl,
                cfg,
                posts@.take(i as int),
            ) + materialize_spec(dest, tpl, cfg, posts@[i as int]));
            assert(plan_view(plan@) =~= head1 + pages_spec(
                dest,
                tpl,
                cfg,
                posts@.take(i as int + 1),
            ));
        }
        i = i + 1;
    }
    proof {
        assert(posts@.take(posts@.len() as int) =~= posts@);
    }
    let ghost head2 = head1 + pages_spec(dest, tpl, cfg, posts@);
    proof {
        assert(static_pages@.take(0) =~= Seq::<Post>::empty());
        assert(plan_view(plan@) =~= head2 + pages_spec(dest, tpl, cfg, static_pages@.take(0)));
    }

    let mut i: usize = 0;
    while i < static_pages.len()
        invariant
            0 <= i <= static_pages@.len(),
            posts_renderable(static_pages@),
            dest == config.dest@,
            tpl == template@,
            cfg == *config,
            plan_view(plan@) == head2 + pages_spec(dest, tpl, cfg, static_pages@.take(i as int)),
        decreases static_pages@.len() - i,
    {
        let ghost before = plan@;
        let folder = join_path(config.dest.as_str(), static_pages[i].slug.as_str());
        plan.push(Action::MakeDir { path: folder.clone() });
        plan.push(Action::CopyImages { from: static_pages[i].dir.clone(), to: folder.clone() });
        let page = template.build_page(
            config,
            static_pages[i].html.as_str(),
            static_pages[i].title.as_str(),
            Some(&static_pages[i].meta),
        );
        let page_path = join_path(folder.as_str(), "index.html");
        plan.push(Action::WritePage { path: page_path, html: page });
        proof {
            assert(plan_view(plan@) =~= plan_view(before) + materialize_spec(
                dest,
                tpl,
                cfg,
                static_pages@[i as int],
            ));
            assert(static_pages@.take(i as int + 1).drop_last() =~= static_pages@.take(i as int));
            assert(static_pages@.take(i as int + 1).last() == static_pages@[i as int]);
            assert(pages_spec(dest, tpl, cfg, static_pages@.take(i as int + 1)) == pages_spec(
                dest,
                tpl,
                cfg,
                static_pages@.take(i as int),
            ) + materialize_spec(dest, tpl, cfg, static_pages@[i as int]));
            assert(plan_view(plan@) =~= head2 + pages_spec(
                dest,
                tpl,
                cfg,
                static_pages@.take(i as int + 1),
            ));
        }
        i = i + 1;
    }
    proof {
        assert(static_pages@.take(static_pages@.len() as int) =~= static_pages@);
    }

    let tags_dir = join_path(config.dest.as_str(), "tags");
    plan.push(Action::MakeDir { path: tags_dir.clone() });
    let ghost head3 = head2 + pages_spec(dest, tpl, cfg, static_pages@) + seq![
        ActionV::MakeDir { path: joined(dest, "tags"@) },
    ];
    proof {
        assert(plan_view(plan@) =~= head3);
        assert(tag_keys(posts@).take(0) =~= Seq::<Seq<char>>::empty());
        assert(plan_view(plan@) =~= head3 + tags_spec(
            dest,
            tpl,
            cfg,
            posts@,
            tag_keys(posts@).take(0),
        ));
    }

    let idx = build_tag_index(posts);
    let mut b: usize = 0;
    while b < idx.len()
        invariant
            0 <= b <= idx@.len(),
            posts_renderable(posts@),
            dest == config.dest@,
            tpl == template@,
            cfg == *config,
            tags_dir@ == joined(dest, "tags"@),
            bucket_tags(idx@) == tag_keys(posts@),
            forall|j: int|
                0 <= j < idx@.len() ==> ints_of(#[trigger] idx@[j].posts@) == tagged_indices(
                    posts@,
                    idx@[j].tag@,
                ),
            plan_view(plan@) == head3 + tags_spec(
                dest,
                tpl,
                cfg,
                posts@,
                tag_keys(posts@).take(b as int),
            ),
        decreases idx@.len() - b,
    {
        let ghost before = plan@;
        let ghost t_spec = idx@[b as int].tag@;
        proof {
            assert(bucket_tags(idx@)[b as int] == t_spec);
            assert(tag_keys(posts@)[b as int] == t_spec);
            lemma_tagged_range(posts@, t_spec);
            assert(ints_of(idx@[b as int].posts@) == tagged_indices(posts@, t_spec));
            assert forall|k: int| 0 <= k < idx@[b as int].posts@.len() implies #[trigger] idx@[
                b as int
            ].posts@[k] < posts@.len() by {
                assert(ints_of(idx@[b as int].posts@)[k] == idx@[b as int].posts@[k] as int);
            }
        }
        let folder = join_path(tags_dir.as_str(), idx[b].tag.as_str());
        plan.push(Action::MakeDir { path: folder.clone() });
        let mut body: String = "<h1>All posts tagged with ".to_owned();
        body.append(idx[b].tag.as_str());
        body.append("</h1>\n");
        body.append("<ul>\n");
        let entries = render_entries_selected(posts, &idx[b].posts);
        body.append(entries.as_str());
        body.append("</ul>\n");
        proof {
            assert(posts_at(posts@, ints_of(idx@[b as int].posts@)) == posts_at(
                posts@,
                tagged_indices(posts@, t_spec),
            ));
            assert(body@ =~= tag_page_body_spec(
                t_spec,
                posts_at(posts@, tagged_indices(posts@, t_spec)),
            ));
        }
        let page = template.build_page(config, body.as_str(), idx[b].tag.as_str(), None);
        let page_path = join_path(folder.as_str(), "index.html");
        plan.push(Action::WritePage { path: page_path, html: page });
        proof {
            assert(joined(joined(dest, "tags"@), t_spec) =~= folder@);
            assert(plan_view(plan@) =~= plan_view(before) + tag_page_spec(
                dest,
                tpl,
                cfg,
                posts@,
                t_spec,
            ));
            assert(tag_keys(posts@).take(b as int + 1).drop_last() =~= tag_keys(posts@).take(
                b as int,
            ));
            assert(tag_keys(posts@).take(b as int + 1).last() == t_spec);
            assert(tags_spec(dest, tpl, cfg, posts@, tag_keys(posts@).take(b as int + 1))
                == tags_spec(dest, tpl, cfg, posts@, tag_keys(posts@).take(b as int))
                + tag_page_spec(dest, tpl, cfg, posts@, t_spec));
            assert(plan_view(plan@) =~= head3 + tags_spec(
                dest,
                tpl,
                cfg,
                posts@,
                tag_keys(posts@).take(b as int + 1),
            ));
        }
        b = b + 1;
    }
    proof {
        assert(tag_keys(posts@).take(tag_keys(posts@).len() as int) =~= tag_keys(posts@));
    }

    let index_entries = render_entries_all(posts);
    let mut body: String = "<h2>Posts</h2>\n".to_owned();
    body.append("<ul class=\"posts\">\n");
    body.append(index_entries.as_str());
    body.append("</ul>\n");
    proof {
        assert(body@ =~= index_body_spec(posts@));
    }
    let page = template.build_page(config, body.as_str(), config.title.as_str(), None);
    let index_path = join_path(config.dest.as_str(), "index.html");
    plan.push(Action::WritePage { path: index_path, html: page });
    proof {
        assert(plan_view(plan@) =~= head3 + tags_spec(dest, tpl, cfg, posts@, tag_keys(posts@))
            + seq![
            ActionV::WritePage {
                path: joined(dest, "index.html"@),
                html: build_page_spec(tpl, cfg, index_body_spec(posts@), cfg.title@, None),
            },
        ]);
        assert(plan_view(plan@) =~= site_plan_spec(src_dir@, cfg, tpl, posts@, static_pages@));
    }
    plan
}

} // verus!
