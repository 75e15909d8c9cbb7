use std::collections::HashMap;

use boringblog::BuildError;
use boringblog::RequiredField;
use boringblog::render::SiteConfig;
use boringblog::render::render_page;
use boringblog::render::render_site;

fn full_templates() -> tera::Tera {
    let mut t = tera::Tera::new();
    t.add_raw_template(
        "page.html",
        "<html><h2>{{ title }}</h2><p>{{ date }}</p>{{ content | safe }}</html>",
    )
    .unwrap();
    t.add_raw_template(
        "index.html",
        "<html>{{ title }} | {{ homepage_title }} | {{ homepage_subtitle }}</html>",
    )
    .unwrap();
    t.add_raw_template(
        "section.html",
        "<h1>{{ title }}</h1><ul>{% for page in pages %}<li><a href=\"{{ page.permalink }}\">{{ page.title }}</a></li>{% endfor %}</ul>",
    )
    .unwrap();
    t
}

fn site_config() -> SiteConfig {
    SiteConfig {
        title: "A Site".to_string(),
        homepage_title: "somewhere.example".to_string(),
        homepage_subtitle: "hello from the home page".to_string(),
    }
}

#[test]
fn single_document_pipeline() {
    let tera = full_templates();
    let doc = "---\ntitle: Hello\ntitleSlug: hello\ndate: 2024-01-01\n---\n# Hi".to_string();
    let build = render_site(&tera, &vec![doc], &site_config());
    assert!(build.error.is_none());
    assert_eq!(build.outputs.len(), 3);
    assert_eq!(build.outputs[0].path, "blog/hello/index.html");
    assert!(build.outputs[0].contents.contains("<h1>Hi</h1>"));
    assert!(!build.outputs[0].contents.contains("# Hi"));
    assert!(build.outputs[0].contents.contains("<h2>Hello</h2>"));
    assert!(build.outputs[0].contents.contains("2024-01-01"));
    assert_eq!(build.section.title, "posts");
    assert_eq!(build.section.pages.len(), 1);
    assert_eq!(build.section.pages[0].title, "Hello");
    assert_eq!(build.section.pages[0].permalink, "/blog/hello");
    assert_eq!(build.outputs[1].path, "index.html");
    assert_eq!(build.outputs[2].path, "blog/index.html");
    assert!(build.outputs[2].contents.contains("/blog/hello"));
    assert!(build.outputs[2].contents.contains("Hello"));
}

#[test]
fn empty_content_root_still_builds() {
    let tera = full_templates();
    let build = render_site(&tera, &vec![], &site_config());
    assert!(build.error.is_none());
    assert_eq!(build.outputs.len(), 2);
    assert_eq!(build.outputs[0].path, "index.html");
    assert_eq!(build.outputs[1].path, "blog/index.html");
    assert!(build.outputs[0].contents.contains("somewhere.example"));
    assert!(build.section.pages.is_empty());
    assert!(!build.outputs[1].contents.contains("<li>"));
}

#[test]
fn section_order_follows_document_order() {
    let tera = full_templates();
    let docs = vec![
        "---\ntitle: Zebra\ntitleSlug: zebra\n---\nz".to_string(),
        "---\ntitle: Apple\ntitleSlug: apple\n---\na".to_string(),
        "---\ntitle: Mango\ntitleSlug: mango\n---\nm".to_string(),
    ];
    let build = render_site(&tera, &docs, &site_config());
    assert!(build.error.is_none());
    let titles: Vec<&str> = build
        .section
        .pages
        .iter()
        .map(|p| p.title.as_str())
        .collect();
    assert_eq!(titles, vec!["Zebra", "Apple", "Mango"]);
    assert_eq!(build.outputs[0].path, "blog/zebra/index.html");
    assert_eq!(build.outputs[1].path, "blog/apple/index.html");
    assert_eq!(build.outputs[2].path, "blog/mango/index.html");
    let section_html = &build.outputs[4].contents;
    let z = section_html.find("Zebra").unwrap();
    let a = section_html.find("Apple").unwrap();
    let m = section_html.find("Mango").unwrap();
    assert!(z < a && a < m);
}

#[test]
fn slug_collision_last_write_wins() {
    let tera = full_templates();
    let docs = vec![
        "---\ntitle: First\ntitleSlug: dup\n---\n# One".to_string(),
        "---\ntitle: Second\ntitleSlug: dup\n---\n# Two".to_string(),
    ];
    let build = render_site(&tera, &docs, &site_config());
    assert!(build.error.is_none());
    assert_eq!(build.outputs[0].path, build.outputs[1].path);
    assert_ne!(build.outputs[0].contents, build.outputs[1].contents);
    let mut disk: HashMap<String, String> = HashMap::new();
    for file in &build.outputs {
        disk.insert(file.path.clone(), file.contents.clone());
    }
    let survivor = disk.get("blog/dup/index.html").unwrap();
    assert_eq!(survivor, &build.outputs[1].contents);
    assert!(survivor.contains("<h1>Two</h1>"));
}

#[test]
fn failure_keeps_only_earlier_outputs() {
    let tera = full_templates();
    let docs = vec![
        "---\ntitle: Good\ntitleSlug: good\n---\nok".to_string(),
        "---\ntitleSlug: nameless\n---\nbad".to_string(),
        "---\ntitle: Later\ntitleSlug: later\n---\nnever rendered".to_string(),
    ];
    let build = render_site(&tera, &docs, &site_config());
    assert!(matches!(
        build.error,
        Some(BuildError::MissingRequiredField(RequiredField::Title))
    ));
    assert_eq!(build.outputs.len(), 1);
    assert_eq!(build.outputs[0].path, "blog/good/index.html");
    assert_eq!(build.section.pages.len(), 1);
    assert_eq!(build.section.pages[0].title, "Good");
}

#[test]
fn missing_page_template_is_a_render_error() {
    let mut tera = tera::Tera::new();
    tera.add_raw_template("index.html", "home").unwrap();
    tera.add_raw_template("section.html", "section").unwrap();
    let docs = vec!["---\ntitle: T\ntitleSlug: t\n---\nbody".to_string()];
    let build = render_site(&tera, &docs, &site_config());
    assert!(matches!(build.error, Some(BuildError::RenderError(_))));
    assert!(build.outputs.is_empty());
    assert!(build.section.pages.is_empty());
}

#[test]
fn missing_home_template_keeps_page_outputs() {
    let mut tera = tera::Tera::new();
    tera.add_raw_template("page.html", "{{ title }}").unwrap();
    tera.add_raw_template("section.html", "section").unwrap();
    let docs = vec!["---\ntitle: T\ntitleSlug: t\n---\nbody".to_string()];
    let build = render_site(&tera, &docs, &site_config());
    assert!(matches!(build.error, Some(BuildError::RenderError(_))));
    assert_eq!(build.outputs.len(), 1);
    assert_eq!(build.outputs[0].path, "blog/t/index.html");
    assert_eq!(build.section.pages.len(), 1);
}

#[test]
fn rebuild_on_unchanged_input_is_byte_identical() {
    let docs = vec![
        "---\ntitle: One\ntitleSlug: one\ndate: 2024-01-01\n---\n# A".to_string(),
        "---\ntitle: Two\ntitleSlug: two\ndate: 2024-01-02\n---\n# B".to_string(),
    ];
    let first = render_site(&full_templates(), &docs, &site_config());
    let second = render_site(&full_templates(), &docs, &site_config());
    assert!(first.error.is_none());
    assert!(second.error.is_none());
    assert_eq!(first.outputs.len(), second.outputs.len());
    for (a, b) in first.outputs.iter().zip(second.outputs.iter()) {
        assert_eq!(a.path, b.path);
        assert_eq!(a.contents, b.contents);
    }
}

#[test]
fn render_page_derives_locations_and_tolerates_missing_date() {
    let tera = full_templates();
    let doc = "---\ntitle: NoDate\ntitleSlug: no-date\n---\ntext";
    let (file, page) = render_page(&tera, doc).unwrap();
    assert_eq!(file.path, "blog/no-date/index.html");
    assert_eq!(page.permalink, "/blog/no-date");
    assert_eq!(page.title, "NoDate");
    assert!(file.contents.contains("<p></p>"));
}
