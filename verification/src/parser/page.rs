//! The content parser for standalone pages.
//!
//! Page files are dispatched by extension: a markdown page splits and
//! decodes like a post (with the page's own header shape), a JSON page is
//! decoded whole with its `content` taken as final HTML, and any other
//! extension is an unsupported format.

use vstd::prelude::*;
use vstd::string::*;
use crate::json::{json_field_present_of, json_str_field, json_str_field_of, json_value_field};
use crate::markdown::{html_of, markdown_to_html};
use crate::models::{Page, TemplateKind};
use crate::parser::{spec_body, spec_header, spec_split3, split3, ParseError};
use crate::yaml::{yaml_field_present_of, yaml_json_field, yaml_str_field, yaml_str_field_of};

verus! {

/// The template selector a string names, or `None` outside the closed set.
/// An absent selector string and the name `default` both mean the default
/// template.
pub open spec fn spec_template_kind(t: Seq<char>) -> Option<TemplateKind> {
    if t == "default"@ || t.len() == 0 {
        Some(TemplateKind::Default)
    } else if t == "contact"@ {
        Some(TemplateKind::Contact)
    } else if t == "about"@ {
        Some(TemplateKind::About)
    } else {
        None
    }
}

fn template_kind(t: &String) -> (r: Option<TemplateKind>)
    ensures
        r == spec_template_kind(t@),
{
    if *t == String::from_str("default") || t.as_str().is_empty() {
        Some(TemplateKind::Default)
    } else if *t == String::from_str("contact") {
        Some(TemplateKind::Contact)
    } else if *t == String::from_str("about") {
        Some(TemplateKind::About)
    } else {
        None
    }
}

/// Whether a page header decodes into the page's field shapes.
pub open spec fn page_header_ok(h: Seq<char>) -> bool {
    &&& yaml_str_field_of(h, "title"@) is Some
    &&& yaml_str_field_of(h, "slug"@) is Some
    &&& yaml_str_field_of(h, "template"@) is Some
}

/// When a markdown page file parses.
pub open spec fn spec_md_page_ok(s: Seq<char>) -> bool {
    &&& spec_split3(s) is Some
    &&& page_header_ok(spec_header(s))
    &&& spec_template_kind(yaml_str_field_of(spec_header(s), "template"@)->0) is Some
}

/// Which error a failing markdown page file draws.
pub open spec fn spec_md_page_err(s: Seq<char>) -> ParseError {
    if spec_split3(s) is None {
        ParseError::Frontmatter
    } else if !page_header_ok(spec_header(s)) {
        ParseError::Header
    } else {
        ParseError::UnknownTemplate
    }
}

/// How a parsed markdown page's fields relate to its header and body.
pub open spec fn md_page_matches(p: Page, h: Seq<char>, body: Seq<char>) -> bool {
    &&& p.title@ == yaml_str_field_of(h, "title"@)->0
    &&& p.slug@ == yaml_str_field_of(h, "slug"@)->0
    &&& Some(p.template) == spec_template_kind(yaml_str_field_of(h, "template"@)->0)
    &&& p.content@ == html_of(body)
    &&& (p.custom_data is Some ==> yaml_field_present_of(h, "custom_data"@))
}

/// When a JSON page file parses.
pub open spec fn spec_json_page_ok(s: Seq<char>) -> bool {
    &&& json_str_field_of(s, "title"@) is Some
    &&& json_str_field_of(s, "slug"@) is Some
    &&& json_str_field_of(s, "content"@) is Some
    &&& json_str_field_of(s, "template"@) is Some
    &&& spec_template_kind(json_str_field_of(s, "template"@)->0) is Some
}

/// Which error a failing JSON page file draws.
pub open spec fn spec_json_page_err(s: Seq<char>) -> ParseError {
    if json_str_field_of(s, "title"@) is Some && json_str_field_of(s, "slug"@) is Some
        && json_str_field_of(s, "content"@) is Some && json_str_field_of(s, "template"@) is Some {
        ParseError::UnknownTemplate
    } else {
        ParseError::Header
    }
}

/// How a parsed JSON page's fields relate to the document: `content` is
/// taken verbatim as final HTML, with no markdown pass.
pub open spec fn json_page_matches(p: Page, s: Seq<char>) -> bool {
    &&& p.title@ == json_str_field_of(s, "title"@)->0
    &&& p.slug@ == json_str_field_of(s, "slug"@)->0
    &&& p.content@ == json_str_field_of(s, "content"@)->0
    &&& Some(p.template) == spec_template_kind(json_str_field_of(s, "template"@)->0)
    &&& (p.custom_data is Some <==> json_field_present_of(s, "custom_data"@))
}

/// Parse a markdown page file: split off the header, decode the page
/// fields, resolve the template selector, and render the body to HTML.
pub fn parse_markdown_page(content: &str) -> (r: Result<Page, ParseError>)
    ensures
        r is Ok <==> spec_md_page_ok(content@),
        r is Ok ==> md_page_matches(r->Ok_0, spec_header(content@), spec_body(content@)),
        r is Err ==> r->Err_0 == spec_md_page_err(content@),
{
    let (header, body) = match split3(content) {
        Some(p) => p,
        None => {
            return Err(ParseError::Frontmatter);
        },
    };
    let title = match yaml_str_field(header, "title") {
        Some(t) => t,
        None => {
            return Err(ParseError::Header);
        },
    };
    let slug = match yaml_str_field(header, "slug") {
        Some(s) => s,
        None => {
            return Err(ParseError::Header);
        },
    };
    let template_name = match yaml_str_field(header, "template") {
        Some(t) => t,
        None => {
            return Err(ParseError::Header);
        },
    };
    let template = match template_kind(&template_name) {
        Some(t) => t,
        None => {
            return Err(ParseError::UnknownTemplate);
        },
    };
    let custom_data = yaml_json_field(header, "custom_data");
    let content_html = markdown_to_html(body);
    Ok(Page { title, slug, content: content_html, template, custom_data })
}

/// Parse a JSON page file: the whole document decodes into the page shape,
/// and `content` is already final HTML.
pub fn parse_json_page(content: &str) -> (r: Result<Page, ParseError>)
    ensures
        r is Ok <==> spec_json_page_ok(content@),
        r is Ok ==> json_page_matches(r->Ok_0, content@),
        r is Err ==> r->Err_0 == spec_json_page_err(content@),
{
    let title = match json_str_field(content, "title") {
        Some(t) => t,
        None => {
            return Err(ParseError::Header);
        },
    };
    let slug = match json_str_field(content, "slug") {
        Some(s) => s,
        None => {
            return Err(ParseError::Header);
        },
    };
    let body = match json_str_field(content, "content") {
        Some(c) => c,
        None => {
            return Err(ParseError::Header);
        },
    };
    let template_name = match json_str_field(content, "template") {
        Some(t) => t,
        None => {
            return Err(ParseError::Header);
        },
    };
    let template = match template_kind(&template_name) {
        Some(t) => t,
        None => {
            return Err(ParseError::UnknownTemplate);
        },
    };
    let custom_data = json_value_field(content, "custom_data");
    Ok(Page { title, slug, content: body, template, custom_data })
}

/// Parse a page file, dispatched by its extension: `md` and `json` are the
/// supported formats.
pub fn parse_page(extension: &str, content: &str) -> (r: Result<Page, ParseError>)
    ensures
        extension@ == "md"@ ==> {
            &&& r is Ok <==> spec_md_page_ok(content@)
            &&& (r is Ok ==> md_page_matches(r->Ok_0, spec_header(content@), spec_body(content@)))
            &&& (r is Err ==> r->Err_0 == spec_md_page_err(content@))
        },
        extension@ == "json"@ ==> {
            &&& r is Ok <==> spec_json_page_ok(content@)
            &&& (r is Ok ==> json_page_matches(r->Ok_0, content@))
            &&& (r is Err ==> r->Err_0 == spec_json_page_err(content@))
        },
        extension@ != "md"@ && extension@ != "json"@ ==> (r matches Err(e) && e
            == ParseError::UnsupportedFormat),
{
    proof {
        reveal_strlit("md");
        reveal_strlit("json");
        assert("md"@.len() == 2);
        assert("json"@.len() == 4);
    }
    let ext = String::from_str(extension);
    if ext == String::from_str("md") {
        parse_markdown_page(content)
    } else if ext == String::from_str("json") {
        parse_json_page(content)
    } else {
        Err(ParseError::UnsupportedFormat)
    }
}

} // verus!
