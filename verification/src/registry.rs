//! Reads the Vulkan registry: finds its root element, reads its formats section, and skips the
//! sections that are not read.

use crate::format_parser::ParsedFormat;
use crate::xml_parser::parser::{
    initial_parser, lemma_next_depth, remaining_work, spec_next, spec_skip, Item, SpecItem,
    SpecParsedXml,
};
use crate::xml_parser::tokeniser::{failure_view, text_read, token_stream, TokenisedXml};
use crate::xml_parser::IoError;
use crate::xml_parser::parser::ParsedXml as XmlReader;
use vstd::prelude::*;

verus! {

/// What was read of the registry.
#[derive(Clone, Debug, Eq, PartialEq)]
pub struct ParsedXml {
    pub formats: Vec<ParsedFormat>,
}

/// Skipping an element uses up reading work, or leaves it as it was.
pub proof fn lemma_skip_work(p: SpecParsedXml, d: int)
    ensures
        remaining_work(spec_skip(p, d).0) <= remaining_work(p),
    decreases p.tokens.len(),
{
    lemma_next_depth(p);
    let (q, o) = spec_next(p);
    match o {
        Some(Ok(i)) => {
            if d + crate::xml_parser::parser::depth_change(i) != 0 {
                lemma_skip_work(q, d + crate::xml_parser::parser::depth_change(i));
            }
        },
        _ => {},
    }
}

/// Reading up to the root element `registry`, over any text before it: the reader just after
/// the root element's opening, or `None` when something else comes first.
pub open spec fn find_registry(p: SpecParsedXml) -> Option<SpecParsedXml>
    decreases remaining_work(p),
{
    proof {
        lemma_next_depth(p);
    }
    let (q, o) = spec_next(p);
    match o {
        Some(Ok(SpecItem::Text(_))) => find_registry(q),
        Some(Ok(SpecItem::Element { name, .. })) => if name == "registry"@ {
            Some(q)
        } else {
            None
        },
        _ => None,
    }
}

/// Reading the formats section up to its end, over text: the reader just after its end, or
/// `None` when an element, an error or the end of the XML comes first. A format's element is
/// not read.
pub open spec fn formats_end(p: SpecParsedXml) -> Option<SpecParsedXml>
    decreases remaining_work(p),
{
    proof {
        lemma_next_depth(p);
    }
    let (q, o) = spec_next(p);
    match o {
        Some(Ok(SpecItem::Text(_))) => formats_end(q),
        Some(Ok(SpecItem::EndCurrentElement)) => Some(q),
        _ => None,
    }
}

/// Reading the formats section up to its end uses up reading work.
pub proof fn lemma_formats_end_work(p: SpecParsedXml)
    ensures
        formats_end(p) matches Some(q) ==> remaining_work(q) < remaining_work(p),
    decreases remaining_work(p),
{
    lemma_next_depth(p);
    let (q, o) = spec_next(p);
    if o matches Some(Ok(SpecItem::Text(_))) {
        lemma_formats_end_work(q);
    }
}

/// Reading the inside of the root element up to its end: the formats section is read, other
/// elements are skipped, and text is passed over. The reader just after the root element's end,
/// or `None` when a section cannot be read or skipped, or the XML ends first.
pub open spec fn registry_end(p: SpecParsedXml) -> Option<SpecParsedXml>
    decreases remaining_work(p),
{
    proof {
        lemma_next_depth(p);
    }
    let (q, o) = spec_next(p);
    match o {
        Some(Ok(SpecItem::Element { name, .. })) => if name == "formats"@ {
            proof {
                lemma_formats_end_work(q);
            }
            match formats_end(q) {
                Some(r) => registry_end(r),
                None => None,
            }
        } else {
            proof {
                lemma_skip_work(q, 1);
            }
            match spec_skip(q, 1) {
                (r, Ok(())) => registry_end(r),
                _ => None,
            }
        },
        Some(Ok(SpecItem::Text(_))) => registry_end(q),
        Some(Ok(SpecItem::EndCurrentElement)) => Some(q),
        _ => None,
    }
}

/// Reading the whole registry: up to the root element, then its inside.
pub open spec fn registry_read(p: SpecParsedXml) -> Option<SpecParsedXml> {
    match find_registry(p) {
        Some(q) => registry_end(q),
        None => None,
    }
}

/// Whether a name is the given text.
fn name_is(name: &String, text: &str) -> (r: bool)
    ensures
        r == (name@ == text@),
{
    let text = text.to_owned();
    *name == text
}

/// Reads the formats section, from just after its opening up to its end; false where it cannot
/// be read.
fn read_formats_section(xml: &mut XmlReader) -> (read: bool)
    ensures
        read == formats_end(old(xml)@) is Some,
        read ==> final(xml)@ == formats_end(old(xml)@)->0,
{
    loop
        invariant
            formats_end(xml@) == formats_end(old(xml)@),
        decreases remaining_work(xml@),
    {
        let ghost before = xml@;
        proof {
            lemma_next_depth(before);
        }
        match xml.next() {
            Some(Ok(Item::Text(_))) => {},
            Some(Ok(Item::EndCurrentElement)) => {
                return true;
            },
            _ => {
                return false;
            },
        }
    }
}

/// Reads the formats section of the registry, from just after its opening up to its end. The
/// section must hold only text.
pub fn parse_formats(xml: &mut XmlReader, vec: &mut Vec<ParsedFormat>)
    requires
        formats_end(old(xml)@) is Some,
    ensures
        final(xml)@ == formats_end(old(xml)@)->0,
        final(vec)@ == old(vec)@,
{
    let read = read_formats_section(xml);
    assert(read);
}

/// Reads the registry: `None` where it is not in a form that can be read, and otherwise what was
/// read of it.
fn read_registry(xml: &mut XmlReader) -> (r: Option<ParsedXml>)
    ensures
        r is Some == registry_read(old(xml)@) is Some,
        r matches Some(parsed) ==> parsed.formats@.len() == 0 && final(xml)@ == registry_read(
            old(xml)@,
        )->0,
{
    loop
        invariant_except_break
            find_registry(xml@) == find_registry(old(xml)@),
        ensures
            find_registry(old(xml)@) == Some(xml@),
        decreases remaining_work(xml@),
    {
        let ghost before = xml@;
        proof {
            lemma_next_depth(before);
        }
        match xml.next() {
            Some(Ok(Item::Text(_))) => {},
            Some(Ok(Item::Element { name, .. })) => {
                if name_is(&name, "registry") {
                    break ;
                }
                return None;
            },
            _ => {
                return None;
            },
        }
    }
    let ghost inside = xml@;
    let mut formats: Vec<ParsedFormat> = Vec::new();
    loop
        invariant_except_break
            registry_end(xml@) == registry_end(inside),
            find_registry(old(xml)@) == Some(inside),
            formats@.len() == 0,
        ensures
            registry_end(inside) is Some,
            xml@ == registry_end(inside)->0,
            formats@.len() == 0,
        decreases remaining_work(xml@),
    {
        let ghost before = xml@;
        proof {
            lemma_next_depth(before);
        }
        match xml.next() {
            Some(Ok(Item::Element { name, .. })) => {
                let ghost after = xml@;
                if name_is(&name, "formats") {
                    proof {
                        lemma_formats_end_work(after);
                    }
                    if !read_formats_section(xml) {
                        return None;
                    }
                } else {
                    proof {
                        lemma_skip_work(after, 1);
                    }
                    match xml.skip_current_element() {
                        Ok(()) => {},
                        Err(_) => {
                            return None;
                        },
                    }
                }
            },
            Some(Ok(Item::Text(_))) => {},
            Some(Ok(Item::EndCurrentElement)) => {
                break ;
            },
            _ => {
                return None;
            },
        }
    }
    Some(ParsedXml { formats })
}

/// Reads the registry from an XML reader that has read nothing yet. The registry must be in a
/// form that can be read: text, then the root element `registry`, whose formats section holds
/// only text and whose other sections are whole elements.
pub fn parse_xml(xml: &mut XmlReader) -> (parsed: ParsedXml)
    requires
        registry_read(old(xml)@) is Some,
    ensures
        parsed.formats@.len() == 0,
        final(xml)@ == registry_read(old(xml)@)->0,
{
    match read_registry(xml) {
        Some(parsed) => parsed,
        None => ParsedXml { formats: Vec::new() },
    }
}

/// Whether the registry held in a text can be read by [`parse_xml`]: the text is what was read,
/// and the failure the one that stopped reading, if any, as a reader is made from them.
pub fn registry_readable(text: &str, read_failure: Option<IoError>) -> (readable: bool)
    ensures
        readable == registry_read(
            initial_parser(
                token_stream(
                    text_read(text@, read_failure is Some),
                    0,
                    failure_view(read_failure),
                ),
            ),
        ) is Some,
{
    let mut xml = XmlReader::new(TokenisedXml::new(text, read_failure));
    read_registry(&mut xml).is_some()
}

} // verus!

