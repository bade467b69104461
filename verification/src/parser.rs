//! The content parser for posts: a raw markdown-with-header file becomes a
//! typed `Post`, or a structural parse failure.
//!
//! A post file splits into exactly three segments at the first and second
//! occurrence of the `---` delimiter: what stands before the header (it is
//! discarded), the YAML header, and the markdown body. Fewer segments is a
//! structural failure. The header decodes into the frontmatter fields with
//! their documented defaults, the date must be a real `YYYY-MM-DD` day, and
//! the body is rendered to HTML.

pub mod page;

use vstd::prelude::*;
use vstd::string::*;
use crate::date::{parse_date, spec_parse_date};
use crate::markdown::{html_of, markdown_to_html};
use crate::models::{Frontmatter, Post};
use crate::yaml::{
    yaml_bool_field, yaml_bool_field_of, yaml_field_present, yaml_field_present_of, yaml_seq_len,
    yaml_seq_len_of, yaml_seq_str, yaml_seq_str_of, yaml_str_field, yaml_str_field_of,
};

verus! {

/// Why a content file failed to parse. Every failure is fatal for the build.
#[derive(Debug, Clone, Copy, PartialEq, Eq, Structural)]
pub enum ParseError {
    /// The file does not hold the two `---` delimiters that set off the header.
    Frontmatter,
    /// The header does not decode into the expected field shapes.
    Header,
    /// The date field is not a `YYYY-MM-DD` calendar day.
    Date,
    /// A page file has an extension the pipeline does not support.
    UnsupportedFormat,
    /// A page names a template outside the closed set.
    UnknownTemplate,
}

pub open spec fn delim() -> Seq<char> {
    seq!['-', '-', '-']
}

pub open spec fn delim_at(s: Seq<char>, i: int) -> bool {
    0 <= i && i + 3 <= s.len() && s.subrange(i, i + 3) == delim()
}

/// The first position at or after `i` where the delimiter occurs.
pub open spec fn first_delim_from(s: Seq<char>, i: int) -> Option<int>
    decreases s.len() - i when 0 <= i
{
    if i + 3 > s.len() {
        None
    } else if s.subrange(i, i + 3) == delim() {
        Some(i)
    } else {
        first_delim_from(s, i + 1)
    }
}

/// The three segments of a content file, split at the first and second
/// delimiter occurrence, or `None` where the file has fewer than three
/// segments.
pub open spec fn spec_split3(s: Seq<char>) -> Option<(Seq<char>, Seq<char>, Seq<char>)> {
    match first_delim_from(s, 0) {
        Some(i) => match first_delim_from(s, i + 3) {
            Some(j) => Some(
                (s.subrange(0, i), s.subrange(i + 3, j), s.subrange(j + 3, s.len() as int)),
            ),
            None => None,
        },
        None => None,
    }
}

/// The header segment, where the split succeeds.
pub open spec fn spec_header(s: Seq<char>) -> Seq<char> {
    (spec_split3(s)->0).1
}

/// The body segment, where the split succeeds.
pub open spec fn spec_body(s: Seq<char>) -> Seq<char> {
    (spec_split3(s)->0).2
}

#[verifier::loop_isolation(false)]
fn find_delim_from(s: &str, start: usize) -> (r: Option<usize>)
    requires
        start <= s@.len(),
    ensures
        r is Some <==> first_delim_from(s@, start as int) is Some,
        r is Some ==> {
            &&& r->0 == first_delim_from(s@, start as int)->0
            &&& start <= r->0
            &&& r->0 + 3 <= s@.len()
            &&& s@.len() <= usize::MAX
        },
{
    let n = s.unicode_len();
    if n < 3 || start > n - 3 {
        return None;
    }
    let mut i = start;
    while i <= n - 3
        invariant
            start <= i <= n - 2,
            first_delim_from(s@, start as int) == first_delim_from(s@, i as int),
        decreases n - i,
    {
        let c0 = s.get_char(i);
        let c1 = s.get_char(i + 1);
        let c2 = s.get_char(i + 2);
        if c0 == '-' && c1 == '-' && c2 == '-' {
            proof {
                assert(s@.subrange(i as int, i as int + 3) =~= delim());
            }
            return Some(i);
        }
        proof {
            let sub = s@.subrange(i as int, i as int + 3);
            assert(sub[0] == s@[i as int] && sub[1] == s@[i as int + 1] && sub[2] == s@[i as int
                + 2]);
            assert(sub != delim());
        }
        i += 1;
    }
    None
}

/// Split a content file at the first two delimiter occurrences, handing back
/// the header and body segments.
pub(crate) fn split3<'a>(s: &'a str) -> (r: Option<(&'a str, &'a str)>)
    ensures
        r is Some <==> spec_split3(s@) is Some,
        r is Some ==> ((r->0).0@ == spec_header(s@) && (r->0).1@ == spec_body(s@)),
{
    let i = match find_delim_from(s, 0) {
        Some(i) => i,
        None => {
            return None;
        },
    };
    let j = match find_delim_from(s, i + 3) {
        Some(j) => j,
        None => {
            return None;
        },
    };
    let n = s.unicode_len();
    let header = s.substring_char(i + 3, j);
    let body = s.substring_char(j + 3, n);
    Some((header, body))
}

/// Whether the header decodes into the post frontmatter's field shapes.
pub open spec fn post_header_ok(h: Seq<char>) -> bool {
    &&& yaml_str_field_of(h, "title"@) is Some
    &&& yaml_str_field_of(h, "date"@) is Some
    &&& yaml_str_field_of(h, "slug"@) is Some
    &&& (yaml_field_present_of(h, "draft"@) ==> yaml_bool_field_of(h, "draft"@) is Some)
    &&& (yaml_field_present_of(h, "summary"@) ==> yaml_str_field_of(h, "summary"@) is Some)
    &&& (yaml_field_present_of(h, "category"@) ==> yaml_str_field_of(h, "category"@) is Some)
    &&& (yaml_field_present_of(h, "tags"@) ==> post_tags_ok(h))
}

pub open spec fn post_tags_ok(h: Seq<char>) -> bool {
    &&& yaml_seq_len_of(h, "tags"@) is Some
    &&& forall|k: int|
        0 <= k < yaml_seq_len_of(h, "tags"@)->0 ==> yaml_seq_str_of(h, "tags"@, k) is Some
}

/// How many tags the header carries: the sequence's length, or none at all.
pub open spec fn spec_post_tags_len(h: Seq<char>) -> int {
    if yaml_field_present_of(h, "tags"@) {
        yaml_seq_len_of(h, "tags"@)->0
    } else {
        0
    }
}

/// When a post file parses: it splits, its header decodes, and its date
/// names a real day.
pub open spec fn spec_post_ok(s: Seq<char>) -> bool {
    &&& spec_split3(s) is Some
    &&& post_header_ok(spec_header(s))
    &&& spec_parse_date(yaml_str_field_of(spec_header(s), "date"@)->0) is Some
}

/// Which error a failing post file draws.
pub open spec fn spec_post_err(s: Seq<char>) -> ParseError {
    if spec_split3(s) is None {
        ParseError::Frontmatter
    } else if !post_header_ok(spec_header(s)) {
        ParseError::Header
    } else {
        ParseError::Date
    }
}

/// How a parsed post's fields relate to its header and body segments.
pub open spec fn post_matches(p: Post, h: Seq<char>, body: Seq<char>) -> bool {
    &&& p.frontmatter.title@ == yaml_str_field_of(h, "title"@)->0
    &&& p.frontmatter.date@ == yaml_str_field_of(h, "date"@)->0
    &&& p.frontmatter.slug@ == yaml_str_field_of(h, "slug"@)->0
    &&& p.frontmatter.draft == if yaml_field_present_of(h, "draft"@) {
        yaml_bool_field_of(h, "draft"@)->0
    } else {
        false
    }
    &&& p.frontmatter.summary@ == if yaml_field_present_of(h, "summary"@) {
        yaml_str_field_of(h, "summary"@)->0
    } else {
        Seq::<char>::empty()
    }
    &&& p.frontmatter.category@ == if yaml_field_present_of(h, "category"@) {
        yaml_str_field_of(h, "category"@)->0
    } else {
        Seq::<char>::empty()
    }
    &&& p.frontmatter.tags@.len() == spec_post_tags_len(h)
    &&& (forall|k: int|
        0 <= k < p.frontmatter.tags@.len() ==> p.frontmatter.tags@[k]@ == yaml_seq_str_of(
            h,
            "tags"@,
            k,
        )->0)
    &&& Some(p.pub_date) == spec_parse_date(p.frontmatter.date@)
    &&& p.content@ == html_of(body)
}

/// Parse a post file: split off the header, decode the frontmatter with its
/// defaults, parse the date, and render the body to HTML.
#[verifier::loop_isolation(false)]
pub fn parse_markdown(content: &str) -> (r: Result<Post, ParseError>)
    ensures
        r is Ok <==> spec_post_ok(content@),
        r is Ok ==> post_matches(r->Ok_0, spec_header(content@), spec_body(content@)),
        r is Err ==> r->Err_0 == spec_post_err(content@),
{
    let (header, body) = match split3(content) {
        Some(p) => p,
        None => {
            return Err(ParseError::Frontmatter);
        },
    };
    let title = match yaml_str_field(header, "title") {
        Some(t) => t,
        None => {
            return Err(ParseError::Header);
        },
    };
    let date = match yaml_str_field(header, "date") {
        Some(d) => d,
        None => {
            return Err(ParseError::Header);
        },
    };
    let slug = match yaml_str_field(header, "slug") {
        Some(s) => s,
        None => {
            return Err(ParseError::Header);
        },
    };
    let draft = if yaml_field_present(header, "draft") {
        match yaml_bool_field(header, "draft") {
            Some(b) => b,
            None => {
                return Err(ParseError::Header);
            },
        }
    } else {
        false
    };
    let summary = if yaml_field_present(header, "summary") {
        match yaml_str_field(header, "summary") {
            Some(x) => x,
            None => {
                return Err(ParseError::Header);
            },
        }
    } else {
        String::new()
    };
    let category = if yaml_field_present(header, "category") {
        match yaml_str_field(header, "category") {
            Some(x) => x,
            None => {
                return Err(ParseError::Header);
            },
        }
    } else {
        String::new()
    };
    let tags = if yaml_field_present(header, "tags") {
        let count = match yaml_seq_len(header, "tags") {
            Some(n) => n,
            None => {
                return Err(ParseError::Header);
            },
        };
        let mut tags: Vec<String> = Vec::new();
        let mut k: usize = 0;
        while k < count
            invariant
                k <= count,
                tags@.len() == k,
                forall|kk: int|
                    0 <= kk < k ==> (#[trigger] yaml_seq_str_of(header@, "tags"@, kk)) is Some,
                forall|kk: int|
                    0 <= kk < k ==> #[trigger] tags@[kk]@ == yaml_seq_str_of(header@, "tags"@, kk)->0,
            decreases count - k,
        {
            let t = match yaml_seq_str(header, "tags", k) {
                Some(t) => t,
                None => {
                    return Err(ParseError::Header);
                },
            };
            let ghost tags_before = tags@;
            tags.push(t);
            k += 1;
            proof {
                assert(tags@ == tags_before.push(t));
                assert forall|kk: int| 0 <= kk < k implies #[trigger] tags@[kk]@ == yaml_seq_str_of(
                    header@,
                    "tags"@,
                    kk,
                )->0 by {
                    if kk == k - 1 {
                        assert(tags@[kk] == t);
                    } else {
                        assert(tags@[kk] == tags_before[kk]);
                    }
                }
            }
        }
        proof {
            assert(post_tags_ok(header@));
            assert(post_tags_ok(spec_header(content@)));
        }
        tags
    } else {
        Vec::new()
    };
    let pub_date = match parse_date(date.as_str()) {
        Some(d) => d,
        None => {
            return Err(ParseError::Date);
        },
    };
    let content_html = markdown_to_html(body);
    Ok(
        Post {
            frontmatter: Frontmatter { title, date, slug, draft, summary, tags, category },
            content: content_html,
            pub_date,
        },
    )
}

} // verus!
