//! Pieces of a front-matter document: `key: value` lines between two `---`
//! delimiter lines, followed by a free-text body.

use vstd::prelude::*;

use crate::projects::{Author, Maturity};
use crate::text::{
    bool_text, decimal, join, lemma_join_push, push_bool, push_decimal, string_views,
};

verus! {

/// The text of an optional string, when there is one.
pub open spec fn text_of(o: Option<String>) -> Option<Seq<char>> {
    match o {
        Some(s) => Some(s@),
        None => None,
    }
}

/// One metadata line.
pub open spec fn field(key: Seq<char>, value: Seq<char>) -> Seq<char> {
    key + ": "@ + value + "\n"@
}

/// A metadata line that stands only where the value is present.
pub open spec fn optional_field(key: Seq<char>, value: Option<Seq<char>>) -> Seq<char> {
    match value {
        Some(v) => field(key, v),
        None => Seq::empty(),
    }
}

/// A metadata line with its value in double quotes, only where it is present.
pub open spec fn optional_quoted_field(key: Seq<char>, value: Option<Seq<char>>) -> Seq<char> {
    match value {
        Some(v) => field(key, "\""@ + v + "\""@),
        None => Seq::empty(),
    }
}

/// A metadata line with a number, only where it is present.
pub open spec fn optional_number_field(key: Seq<char>, value: Option<i32>) -> Seq<char> {
    match value {
        Some(n) => field(key, decimal(n as int)),
        None => Seq::empty(),
    }
}

/// How an author is credited: the name, a space, and the Matrix ID, which is
/// empty when unknown.
pub open spec fn author_text(a: Author) -> Seq<char> {
    a.name@ + " "@ + match a.matrix_id {
        Some(m) => m@,
        None => Seq::empty(),
    }
}

/// The credits of each author, in order.
pub open spec fn author_texts(authors: Seq<Author>) -> Seq<Seq<char>> {
    authors.map_values(|a: Author| author_text(a))
}

/// The credits of all authors, separated by commas.
pub open spec fn author_list(authors: Seq<Author>) -> Seq<char> {
    join(author_texts(authors), ", "@)
}

/// A block of indented list items, one line each.
pub open spec fn bullets(items: Seq<Seq<char>>) -> Seq<char>
    decreases items.len(),
{
    if items.len() == 0 {
        Seq::empty()
    } else {
        bullets(items.drop_last()) + "    - "@ + items.last() + "\n"@
    }
}

/// The opening of a page: the delimiter, then layout, title, slug where
/// present, category, description, authors, maturity, language and license.
pub open spec fn head(
    layout: Seq<char>,
    title: Seq<char>,
    slug: Option<Seq<char>>,
    category: Seq<char>,
    description: Seq<char>,
    authors: Seq<Author>,
    maturity: Maturity,
    language: Seq<char>,
    license: Seq<char>,
) -> Seq<char> {
    "---\n"@ + field("layout"@, layout) + field("title"@, title) + optional_field("slug"@, slug)
        + "categories:\n - "@ + category + "\n"@ + field("description"@, description) + field(
        "author"@,
        author_list(authors),
    ) + field("maturity"@, maturity.spec_name()) + field("language"@, language) + field(
        "license"@,
        license,
    )
}

/// The close of a page: whether it is featured, the optional links and
/// hints in their fixed order, the closing delimiter and the body.
pub open spec fn tail(
    featured: bool,
    repository: Option<Seq<char>>,
    home: Option<Seq<char>>,
    screenshot: Option<Seq<char>>,
    icon: Option<Seq<char>>,
    room: Option<Seq<char>>,
    sort_order: Option<i32>,
    body: Seq<char>,
) -> Seq<char> {
    field("featured"@, bool_text(featured)) + optional_field("repo"@, repository) + optional_field(
        "home"@,
        home,
    ) + optional_field("screenshot"@, screenshot) + optional_field("thumbnail"@, icon)
        + optional_quoted_field("room"@, room) + optional_number_field("sort_order"@, sort_order)
        + "---\n"@ + body + "\n"@
}

/// Absent optional fields leave no line behind, not even a blank one: where
/// none is present, the featured line is followed directly by the closing
/// delimiter and the body; each present one adds exactly its own line, in the
/// fixed order repo, home, screenshot, thumbnail, room, sort_order.
pub proof fn lemma_optional_fields_in_order(
    featured: bool,
    repository: Option<Seq<char>>,
    home: Option<Seq<char>>,
    screenshot: Option<Seq<char>>,
    icon: Option<Seq<char>>,
    room: Option<Seq<char>>,
    sort_order: Option<i32>,
    body: Seq<char>,
)
    ensures
        tail(featured, None, None, None, None, None, None, body) == field(
            "featured"@,
            bool_text(featured),
        ) + "---\n"@ + body + "\n"@,
        tail(featured, repository, home, screenshot, icon, room, sort_order, body) == field(
            "featured"@,
            bool_text(featured),
        ) + optional_field("repo"@, repository) + optional_field("home"@, home) + optional_field(
            "screenshot"@,
            screenshot,
        ) + optional_field("thumbnail"@, icon) + optional_quoted_field("room"@, room)
            + optional_number_field("sort_order"@, sort_order) + "---\n"@ + body + "\n"@,
        optional_field("repo"@, None) == Seq::<char>::empty(),
{
    assert(tail(featured, None, None, None, None, None, None, body) =~= field(
        "featured"@,
        bool_text(featured),
    ) + "---\n"@ + body + "\n"@);
}

/// The layout of a page for a project whose data does not name one.
pub open spec fn derived_layout(icon: Option<Seq<char>>) -> Seq<char> {
    if icon is Some {
        "projectimage"@
    } else {
        "project"@
    }
}

/// The layout of a page for a project with or without an icon.
pub fn layout_for(icon: &Option<String>) -> (r: &'static str)
    ensures
        r@ == derived_layout(text_of(*icon)),
{
    match icon {
        Some(_) => "projectimage",
        None => "project",
    }
}

/// Appends one metadata line.
pub fn push_field(out: &mut String, key: &str, value: &str)
    ensures
        final(out)@ == old(out)@ + field(key@, value@),
{
    out.append(key);
    out.append(": ");
    out.append(value);
    out.append("\n");
    assert(out@ =~= old(out)@ + field(key@, value@));
}

/// Appends a metadata line where the value is present.
pub fn push_optional_field(out: &mut String, key: &str, value: &Option<String>)
    ensures
        final(out)@ == old(out)@ + optional_field(key@, text_of(*value)),
{
    match value {
        Some(v) => push_field(out, key, v.as_str()),
        None => {
            assert(out@ =~= old(out)@ + optional_field(key@, text_of(*value)));
        },
    }
}

/// Appends a quoted metadata line where the value is present.
pub fn push_optional_quoted_field(out: &mut String, key: &str, value: &Option<String>)
    ensures
        final(out)@ == old(out)@ + optional_quoted_field(key@, text_of(*value)),
{
    match value {
        Some(v) => {
            out.append(key);
            out.append(": ");
            out.append("\"");
            out.append(v.as_str());
            out.append("\"");
            out.append("\n");
            assert(out@ =~= old(out)@ + optional_quoted_field(key@, text_of(*value)));
        },
        None => {
            assert(out@ =~= old(out)@ + optional_quoted_field(key@, text_of(*value)));
        },
    }
}

/// Appends a numeric metadata line where the value is present.
pub fn push_optional_number_field(out: &mut String, key: &str, value: Option<i32>)
    ensures
        final(out)@ == old(out)@ + optional_number_field(key@, value),
{
    match value {
        Some(n) => {
            out.append(key);
            out.append(": ");
            push_decimal(out, n);
            out.append("\n");
            assert(out@ =~= old(out)@ + optional_number_field(key@, value));
        },
        None => {
            assert(out@ =~= old(out)@ + optional_number_field(key@, value));
        },
    }
}

/// Appends the credits of all authors, separated by commas.
pub fn push_author_list(out: &mut String, authors: &Vec<Author>)
    ensures
        final(out)@ == old(out)@ + author_list(authors@),
{
    let mut i: usize = 0;
    while i < authors.len()
        invariant
            i <= authors@.len(),
            out@ == old(out)@ + join(author_texts(authors@.take(i as int)), ", "@),
        decreases authors@.len() - i,
    {
        let author = &authors[i];
        proof {
            assert(author_texts(authors@.take(i + 1)) =~= author_texts(
                authors@.take(i as int),
            ).push(author_text(*author)));
            lemma_join_push(author_texts(authors@.take(i as int)), author_text(*author), ", "@);
        }
        if i > 0 {
            out.append(", ");
        }
        out.append(author.name.as_str());
        out.append(" ");
        match &author.matrix_id {
            Some(m) => out.append(m.as_str()),
            None => {},
        }
        i = i + 1;
        assert(out@ =~= old(out)@ + join(author_texts(authors@.take(i as int)), ", "@));
    }
    assert(authors@.take(i as int) =~= authors@);
}

/// Appends one indented list line per item.
pub fn push_bullets(out: &mut String, items: &Vec<String>)
    ensures
        final(out)@ == old(out)@ + bullets(string_views(items@)),
{
    let mut i: usize = 0;
    while i < items.len()
        invariant
            i <= items@.len(),
            out@ == old(out)@ + bullets(string_views(items@.take(i as int))),
        decreases items@.len() - i,
    {
        proof {
            assert(string_views(items@.take(i + 1)).drop_last()
                =~= string_views(items@.take(i as int)));
        }
        out.append("    - ");
        out.append(items[i].as_str());
        out.append("\n");
        i = i + 1;
        assert(out@ =~= old(out)@ + bullets(string_views(items@.take(i as int))));
    }
    assert(items@.take(i as int) =~= items@);
}

/// Appends the opening of a page.
pub fn push_head(
    out: &mut String,
    layout: &str,
    title: &String,
    slug: &Option<String>,
    category: &str,
    description: &String,
    authors: &Vec<Author>,
    maturity: Maturity,
    language: &String,
    license: &String,
)
    ensures
        final(out)@ == old(out)@ + head(
            layout@,
            title@,
            text_of(*slug),
            category@,
            description@,
            authors@,
            maturity,
            language@,
            license@,
        ),
{
    out.append("---\n");
    push_field(out, "layout", layout);
    push_field(out, "title", title.as_str());
    push_optional_field(out, "slug", slug);
    out.append("categories:\n - ");
    out.append(category);
    out.append("\n");
    push_field(out, "description", description.as_str());
    out.append("author");
    out.append(": ");
    push_author_list(out, authors);
    out.append("\n");
    push_field(out, "maturity", maturity.name());
    push_field(out, "language", language.as_str());
    push_field(out, "license", license.as_str());
    assert(out@ =~= old(out)@ + head(
        layout@,
        title@,
        text_of(*slug),
        category@,
        description@,
        authors@,
        maturity,
        language@,
        license@,
    ));
}

/// Appends the close of a page.
pub fn push_tail(
    out: &mut String,
    featured: bool,
    repository: &Option<String>,
    home: &Option<String>,
    screenshot: &Option<String>,
    icon: &Option<String>,
    room: &Option<String>,
    sort_order: Option<i32>,
    body: &String,
)
    ensures
        final(out)@ == old(out)@ + tail(
            featured,
            text_of(*repository),
            text_of(*home),
            text_of(*screenshot),
            text_of(*icon),
            text_of(*room),
            sort_order,
            body@,
        ),
{
    out.append("featured");
    out.append(": ");
    push_bool(out, featured);
    out.append("\n");
    push_optional_field(out, "repo", repository);
    push_optional_field(out, "home", home);
    push_optional_field(out, "screenshot", screenshot);
    push_optional_field(out, "thumbnail", icon);
    push_optional_quoted_field(out, "room", room);
    push_optional_number_field(out, "sort_order", sort_order);
    out.append("---\n");
    out.append(body.as_str());
    out.append("\n");
    assert(out@ =~= old(out)@ + tail(
        featured,
        text_of(*repository),
        text_of(*home),
        text_of(*screenshot),
        text_of(*icon),
        text_of(*room),
        sort_order,
        body@,
    ));
}

} // verus!
