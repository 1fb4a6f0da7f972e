//! Helper for building regular expressions that capture HTML content.
//!
//! An [`HtmlPattern`] describes an element, an optional attribute it must
//! carry, and an optional nested child element. [`create_pattern`] turns the
//! description into a pattern that captures the innerHTML of the deepest
//! child element.

use vstd::prelude::*;

verus! {

/// A recursive description of an HTML element to match.
pub struct HtmlPattern<'a> {
    pub tag_name: &'a str,
    pub essential_attribute: Option<&'a str>,
    pub child_html: Box<Option<HtmlPattern<'a>>>,
}

/// The pattern fragment for a nested element: its opening tag, then either
/// the fragment of its own child followed by its closing tag, or a capture
/// of its innerHTML before the closing tag.
pub open spec fn nested_chars(pattern: HtmlPattern) -> Seq<char>
    decreases pattern,
{
    "<"@ + pattern.tag_name@ + "[^<>]*"@ + (match pattern.essential_attribute {
        Some(attribute) => attribute@ + "[^<>]*>"@,
        None => ">"@,
    }) + (match *pattern.child_html {
        Some(child) => nested_chars(child) + ".*</"@ + pattern.tag_name@ + ">"@,
        None => "(.*)</"@ + pattern.tag_name@ + ">"@,
    })
}

/// The full pattern for a top-level element with at least one nested child:
/// its opening tag, anything up to the child, the child's fragment, and the
/// closing tag.
pub open spec fn pattern_chars(pattern: HtmlPattern) -> Seq<char> {
    "<"@ + pattern.tag_name@ + "[^<>]*"@ + (match pattern.essential_attribute {
        Some(attribute) => attribute@ + "[^<>]*>.*"@,
        None => ">.*"@,
    }) + (match *pattern.child_html {
        Some(child) => nested_chars(child) + ".*</"@ + pattern.tag_name@ + ">"@,
        None => Seq::<char>::empty(),
    })
}

/// Appends the pattern fragment of a nested element to `some_ref` and
/// returns a copy of the extended string.
pub fn recursive_pattern(some_ref: &mut String, pattern: HtmlPattern<'_>) -> (result: String)
    ensures
        final(some_ref)@ == old(some_ref)@ + nested_chars(pattern),
        result@ == final(some_ref)@,
    decreases pattern,
{
    some_ref.append("<");
    some_ref.append(pattern.tag_name);
    some_ref.append("[^<>]*");
    match pattern.essential_attribute {
        Some(attribute) => {
            some_ref.append(attribute);
            some_ref.append("[^<>]*>");
        },
        None => {
            some_ref.append(">");
        },
    }
    match *pattern.child_html {
        Some(child) => {
            recursive_pattern(some_ref, child);
            some_ref.append(".*</");
            some_ref.append(pattern.tag_name);
            some_ref.append(">");
        },
        None => {
            some_ref.append("(.*)</");
            some_ref.append(pattern.tag_name);
            some_ref.append(">");
        },
    }
    proof {
        assert(some_ref@ =~= old(some_ref)@ + nested_chars(pattern));
    }
    some_ref.clone()
}

/// Builds a pattern that captures the innerHTML of the deepest child of
/// `pattern`, which must have at least one nested element.
pub fn create_pattern(pattern: HtmlPattern<'_>) -> (result: String)
    requires
        (*pattern.child_html) is Some,
    ensures
        result@ == pattern_chars(pattern),
{
    let mut html_pattern = String::new();
    html_pattern.append("<");
    html_pattern.append(pattern.tag_name);
    html_pattern.append("[^<>]*");
    match pattern.essential_attribute {
        Some(attribute) => {
            html_pattern.append(attribute);
            html_pattern.append("[^<>]*>.*");
        },
        None => {
            html_pattern.append(">.*");
        },
    }
    match *pattern.child_html {
        Some(child) => {
            recursive_pattern(&mut html_pattern, child);
            html_pattern.append(".*</");
            html_pattern.append(pattern.tag_name);
            html_pattern.append(">");
            proof {
                assert(html_pattern@ =~= pattern_chars(pattern));
            }
        },
        None => {
            proof {
                assert(false);
            }
        },
    }
    html_pattern
}

} // verus!
