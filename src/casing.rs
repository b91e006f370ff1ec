//! Case folding of titles and identifiers into file and type names.

use convert_case::{Case, Casing};
use vstd::prelude::*;

use crate::text::push_char;

verus! {

/// The kebab-case form that convert_case gives a text.
pub uninterp spec fn kebab_of(s: Seq<char>) -> Seq<char>;

/// The upper-camel-case form that convert_case gives a text.
pub uninterp spec fn upper_camel_of(s: Seq<char>) -> Seq<char>;

/// Relies on convert_case's `Casing::to_case` with `Case::Kebab`: the words of
/// the text, lowercased and joined by hyphens; the result depends on the text alone.
#[verifier::external_body]
pub(crate) fn kebab_case(s: &str) -> (r: String)
    ensures
        r@ == kebab_of(s@),
{
    s.to_case(Case::Kebab)
}

/// Relies on convert_case's `Casing::to_case` with `Case::UpperCamel`: the words
/// of the text, capitalised and joined; the result depends on the text alone.
#[verifier::external_body]
fn upper_camel_case(s: &str) -> (r: String)
    ensures
        r@ == upper_camel_of(s@),
{
    s.to_case(Case::UpperCamel)
}

/// Whether `c` separates path segments, or, with `dots`, also name parts.
pub open spec fn is_separator(c: char, dots: bool) -> bool {
    c == '/' || c == '\\' || (dots && c == '.')
}

/// The text with every separator replaced by a hyphen.
pub open spec fn dashed(s: Seq<char>, dots: bool) -> Seq<char> {
    s.map_values(|c: char| if is_separator(c, dots) { '-' } else { c })
}

/// Replaces every slash and backslash, and with `dots` every dot, by a hyphen.
pub fn dash_separators(s: &str, dots: bool) -> (r: String)
    ensures
        r@ == dashed(s@, dots),
{
    let n = s.unicode_len();
    let mut out = String::new();
    let mut i: usize = 0;
    while i < n
        invariant
            n == s@.len(),
            i <= n,
            out@ == dashed(s@.take(i as int), dots),
        decreases n - i,
    {
        let c = s.get_char(i);
        if c == '/' || c == '\\' || (dots && c == '.') {
            push_char(&mut out, '-');
        } else {
            push_char(&mut out, c);
        }
        assert(dashed(s@.take(i + 1), dots) =~= dashed(s@.take(i as int), dots).push(
            if is_separator(c, dots) { '-' } else { c },
        ));
        i = i + 1;
    }
    assert(s@.take(n as int) =~= s@);
    out
}

/// The file name of a project page: the title with its slashes and
/// backslashes made hyphens, in kebab case, with the `.mdx` extension.
pub open spec fn page_filename_of(title: Seq<char>) -> Seq<char> {
    kebab_of(dashed(title, false)) + ".mdx"@
}

/// The file name of a page, given the kebab-case stem.
pub fn mdx_filename(stem: String) -> (r: String)
    ensures
        r@ == stem@ + ".mdx"@,
{
    let mut name = stem;
    name.append(".mdx");
    name
}

/// The file name of the page for a project with this title.
pub fn page_filename(title: &str) -> (r: String)
    ensures
        r@ == page_filename_of(title@),
{
    let safe = dash_separators(title, false);
    mdx_filename(kebab_case(safe.as_str()))
}

/// The class name for a client identifier: slashes, backslashes and dots made
/// hyphens, then upper camel case.
pub open spec fn class_name_of(id: Seq<char>) -> Seq<char> {
    upper_camel_of(dashed(id, true))
}

/// The class name derived from a client identifier.
pub fn class_name(id: &str) -> (r: String)
    ensures
        r@ == class_name_of(id@),
{
    let safe = dash_separators(id, true);
    upper_camel_case(safe.as_str())
}

} // verus!
