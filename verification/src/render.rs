//! Per-document rendering and cross-document aggregation: each document's
//! body becomes HTML, is merged with its metadata into the page template, and
//! yields an index entry; the entries are collected, in document order, into
//! the section listing, and the home page and section page are rendered last.

use vstd::prelude::*;
use vstd::string::StringExecFns;

use crate::BuildError;
use crate::RequiredField;
use crate::front_matter::parse;
use crate::front_matter::parse_ok;
use crate::front_matter::scan_ok;
use crate::front_matter::slug_of;
use crate::front_matter::title_of;

verus! {

#[verifier::external_type_specification]
#[verifier::external_body]
pub struct ExTera(tera::Tera);

#[verifier::external_type_specification]
#[verifier::external_body]
pub struct ExContext(tera::Context);

/// What the markdown converter returns for a markup text, under
/// GitHub-flavored-markdown options. The result depends on the text alone.
pub uninterp spec fn html_of(s: Seq<char>) -> Seq<char>;

/// The string-valued entries a template context holds, by key.
pub uninterp spec fn ctx_strings(c: tera::Context) -> Map<Seq<char>, Seq<char>>;

/// The page-list entries a template context holds: each key goes to a
/// sequence of (title, permalink) pairs.
pub uninterp spec fn ctx_pages(c: tera::Context) -> Map<Seq<char>, Seq<(Seq<char>, Seq<char>)>>;

/// Relies on `markdown::to_html_with_options` with `markdown::Options::gfm`:
/// its documentation says conversion cannot fail without MDX options, and
/// the result is a function of the markup text alone.
#[verifier::external_body]
fn markdown_to_html(text: &str) -> (r: String)
    ensures
        r@ == html_of(text@),
{
    markdown::to_html_with_options(text, &markdown::Options::gfm()).unwrap()
}

/// Whether a template context holds nothing at all.
pub open spec fn ctx_is_empty(c: tera::Context) -> bool {
    &&& ctx_strings(c) == Map::<Seq<char>, Seq<char>>::empty()
    &&& ctx_pages(c) == Map::<Seq<char>, Seq<(Seq<char>, Seq<char>)>>::empty()
}

/// Relies on `tera::Context::new`: a fresh context holds nothing.
#[verifier::external_body]
fn context_new() -> (r: tera::Context)
    ensures
        ctx_is_empty(r),
{
    tera::Context::new()
}

/// Relies on `tera::Context::insert`: the value is stored under the key,
/// replacing whatever the key held before.
#[verifier::external_body]
fn context_insert_str(c: &mut tera::Context, key: &str, value: &str)
    ensures
        ctx_strings(*final(c)) == ctx_strings(*old(c)).insert(key@, value@),
        ctx_pages(*final(c)) == ctx_pages(*old(c)).remove(key@),
{
    c.insert(key.to_string(), value);
}

/// Relies on `tera::Context::insert`: the entries are stored under the key
/// as an array of objects with `title` and `permalink` fields, replacing
/// whatever the key held before.
#[verifier::external_body]
fn context_insert_pages(c: &mut tera::Context, key: &str, pages: &Vec<Page>)
    ensures
        ctx_pages(*final(c)) == ctx_pages(*old(c)).insert(
            key@,
            pages@.map_values(|p: Page| (p.title@, p.permalink@)),
        ),
        ctx_strings(*final(c)) == ctx_strings(*old(c)).remove(key@),
{
    let mut items: Vec<std::collections::BTreeMap<String, String>> = Vec::new();
    for p in pages.iter() {
        let mut entry = std::collections::BTreeMap::new();
        entry.insert("title".to_string(), p.title.clone());
        entry.insert("permalink".to_string(), p.permalink.clone());
        items.push(entry);
    }
    c.insert(key.to_string(), &items);
}

/// Relies on `tera::Tera::render`: which HTML comes back depends on the
/// template set that was loaded from disk (and a template may call
/// time-dependent functions), so nothing is said of the text.
#[verifier::external_body]
fn render_template(t: &tera::Tera, name: &str, c: &tera::Context) -> (r: Result<String, String>) {
    match t.render(name, c) {
        Ok(html) => Ok(html),
        Err(e) => Err(e.to_string()),
    }
}

/// An index entry for the section listing: a page's title and permalink.
pub struct Page {
    pub title: String,
    pub permalink: String,
}

/// One file the build wants written: a path relative to the output root and
/// the text to store there.
pub struct OutputFile {
    pub path: String,
    pub contents: String,
}

/// The section listing: the index entries of every rendered page, in the
/// order the documents were processed.
pub struct Section {
    pub title: String,
    pub pages: Vec<Page>,
}

/// Static site-wide values, applied to the home page only. Filled once at
/// startup and never derived from documents.
pub struct SiteConfig {
    pub title: String,
    pub homepage_title: String,
    pub homepage_subtitle: String,
}

/// What a whole build produced: the files to write, in write order; the
/// section aggregate; and the error that stopped the build, if one did. On
/// an error, `outputs` holds exactly the files of the documents that were
/// fully processed before the failure point.
pub struct SiteBuild {
    pub outputs: Vec<OutputFile>,
    pub section: Section,
    pub error: Option<BuildError>,
}

/// Where a page with this slug is written, relative to the output root.
pub open spec fn page_path_of(slug: Seq<char>) -> Seq<char> {
    "blog/"@ + slug + "/index.html"@
}

/// The permalink of a page with this slug.
pub open spec fn permalink_of(slug: Seq<char>) -> Seq<char> {
    "/blog/"@ + slug
}

/// The first `k` index entries stand for the first `k` documents, in order:
/// each document parsed, and its entry carries its title and its permalink.
pub open spec fn pages_match(pages: Seq<Page>, docs: Seq<String>, k: int) -> bool {
    &&& pages.len() == k
    &&& forall|i: int|
        0 <= i < k ==> {
            &&& parse_ok((#[trigger] docs[i])@)
            &&& pages[i].title@ == title_of(docs[i]@).unwrap()
            &&& pages[i].permalink@ == permalink_of(slug_of(docs[i]@).unwrap())
        }
}

/// The first `k` output files stand for the first `k` documents, in order,
/// each at the path its slug derives.
pub open spec fn doc_outputs_match(outs: Seq<OutputFile>, docs: Seq<String>, k: int) -> bool {
    forall|i: int| 0 <= i < k ==> (#[trigger] outs[i]).path@ == page_path_of(slug_of(docs[i]@).unwrap())
}

/// A finished build over these documents: one output per document, in
/// document order, then the home page, then the section page.
pub open spec fn build_complete(b: SiteBuild, docs: Seq<String>) -> bool {
    let n = docs.len() as int;
    &&& b.section.title@ == "posts"@
    &&& pages_match(b.section.pages@, docs, n)
    &&& doc_outputs_match(b.outputs@, docs, n)
    &&& b.outputs@.len() == n + 2
    &&& b.outputs@[n].path@ == "index.html"@
    &&& b.outputs@[n + 1].path@ == "blog/index.html"@
}

/// Renders one document: parses its front matter, converts the body to HTML,
/// merges title, date and content into the `page.html` template, and derives
/// the output path and the permalink from the slug. A missing `date` renders
/// as the empty string: the field is optional everywhere.
pub fn render_page(template: &tera::Tera, raw: &str) -> (r: Result<(OutputFile, Page), BuildError>)
    ensures
        match r {
            Ok(pair) => {
                &&& parse_ok(raw@)
                &&& pair.0.path@ == page_path_of(slug_of(raw@).unwrap())
                &&& pair.1.title@ == title_of(raw@).unwrap()
                &&& pair.1.permalink@ == permalink_of(slug_of(raw@).unwrap())
            },
            Err(e) => match e {
                BuildError::FrontMatterSyntaxError => !scan_ok(raw@),
                BuildError::MissingRequiredField(RequiredField::Title) => scan_ok(raw@)
                    && title_of(raw@) is None,
                BuildError::MissingRequiredField(RequiredField::TitleSlug) => scan_ok(raw@)
                    && title_of(raw@) is Some && slug_of(raw@) is None,
                BuildError::RenderError(_) => parse_ok(raw@),
                _ => false,
            },
        },
{
    let (info, body) = match parse(raw) {
        Ok(pair) => pair,
        Err(e) => {
            return Err(e);
        },
    };
    let content = markdown_to_html(body.as_str());
    let mut ctx = context_new();
    context_insert_str(&mut ctx, "title", info.title.as_str());
    match &info.date {
        Some(d) => context_insert_str(&mut ctx, "date", d.as_str()),
        None => context_insert_str(&mut ctx, "date", ""),
    }
    context_insert_str(&mut ctx, "content", content.as_str());
    let html = match render_template(template, "page.html", &ctx) {
        Ok(h) => h,
        Err(message) => {
            return Err(BuildError::RenderError(message));
        },
    };
    let path = "blog/".to_owned().concat(info.title_slug.as_str()).concat("/index.html");
    let permalink = "/blog/".to_owned().concat(info.title_slug.as_str());
    Ok((OutputFile { path, contents: html }, Page { title: info.title, permalink }))
}

/// Runs the whole pipeline over the documents, in their enumeration order:
/// renders each document, collects its index entry, then renders the home
/// page and the section page. The section's page list keeps the documents'
/// order. The build stops at the first failure; the outputs then hold
/// exactly the files of what was fully processed before it.
pub fn render_site(template: &tera::Tera, documents: &Vec<String>, site: &SiteConfig) -> (r:
    SiteBuild)
    ensures
        ({
            let docs = documents@;
            let n = docs.len() as int;
            let k = r.section.pages@.len() as int;
            &&& r.section.title@ == "posts"@
            &&& 0 <= k <= n
            &&& pages_match(r.section.pages@, docs, k)
            &&& doc_outputs_match(r.outputs@, docs, k)
            &&& match r.error {
                None => k == n && build_complete(r, docs),
                Some(e) => {
                    &&& (r.outputs@.len() == k || (k == n && r.outputs@.len() == n + 1))
                    &&& (r.outputs@.len() == n + 1 ==> r.outputs@[n].path@ == "index.html"@)
                    &&& match e {
                        BuildError::FrontMatterSyntaxError => k < n && !scan_ok(docs[k]@),
                        BuildError::MissingRequiredField(RequiredField::Title) => k < n && scan_ok(
                            docs[k]@,
                        ) && title_of(docs[k]@) is None,
                        BuildError::MissingRequiredField(RequiredField::TitleSlug) => k < n
                            && scan_ok(docs[k]@) && title_of(docs[k]@) is Some && slug_of(
                            docs[k]@,
                        ) is None,
                        BuildError::RenderError(_) => k < n ==> parse_ok(docs[k]@),
                        _ => false,
                    }
                },
            }
        }),
{
    let mut outputs: Vec<OutputFile> = Vec::new();
    let mut pages: Vec<Page> = Vec::new();
    let mut idx: usize = 0;
    while idx < documents.len()
        invariant
            0 <= idx <= documents@.len(),
            outputs@.len() == idx,
            pages_match(pages@, documents@, idx as int),
            doc_outputs_match(outputs@, documents@, idx as int),
        decreases documents@.len() - idx,
    {
        match render_page(template, documents[idx].as_str()) {
            Ok((file, page)) => {
                outputs.push(file);
                pages.push(page);
            },
            Err(e) => {
                return SiteBuild {
                    outputs,
                    section: Section { title: "posts".to_owned(), pages },
                    error: Some(e),
                };
            },
        }
        idx += 1;
    }
    let mut home_ctx = context_new();
    context_insert_str(&mut home_ctx, "title", site.title.as_str());
    context_insert_str(&mut home_ctx, "homepage_title", site.homepage_title.as_str());
    context_insert_str(&mut home_ctx, "homepage_subtitle", site.homepage_subtitle.as_str());
    match render_template(template, "index.html", &home_ctx) {
        Ok(html) => outputs.push(OutputFile { path: "index.html".to_owned(), contents: html }),
        Err(message) => {
            return SiteBuild {
                outputs,
                section: Section { title: "posts".to_owned(), pages },
                error: Some(BuildError::RenderError(message)),
            };
        },
    }
    let mut section_ctx = context_new();
    context_insert_str(&mut section_ctx, "title", "posts");
    context_insert_pages(&mut section_ctx, "pages", &pages);
    match render_template(template, "section.html", &section_ctx) {
        Ok(html) => outputs.push(
            OutputFile { path: "blog/index.html".to_owned(), contents: html },
        ),
        Err(message) => {
            return SiteBuild {
                outputs,
                section: Section { title: "posts".to_owned(), pages },
                error: Some(BuildError::RenderError(message)),
            };
        },
    }
    SiteBuild { outputs, section: Section { title: "posts".to_owned(), pages }, error: None }
}

} // verus!
