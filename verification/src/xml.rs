//! The XML serialization sink.
//!
//! Attributes are written onto a `quick_xml` start tag. The tag is
//! modelled by the list of name/value pairs pushed onto it; the one
//! trusted call appends a pair.

use quick_xml::events::BytesStart;
use vstd::prelude::*;

verus! {

#[verifier::external_type_specification]
#[verifier::external_body]
pub struct ExBytesStart<'a>(BytesStart<'a>);

/// The name/value pairs pushed onto a start tag so far, in order.
pub uninterp spec fn tag_attrs(e: BytesStart) -> Seq<(Seq<char>, Seq<char>)>;

/// Whether a value contains none of the characters XML escaping rewrites.
pub open spec fn xml_value_plain(s: Seq<char>) -> bool {
    forall|i: int|
        0 <= i < s.len() ==> (#[trigger] s[i]) != '&' && s[i] != '<' && s[i] != '>' && s[i] != '"'
            && s[i] != '\''
}

/// Whether `s` is a plain attribute name: nonempty and free of the
/// delimiters that would let the raw tag text read as anything but one
/// name (quick_xml writes the name unescaped).
pub open spec fn xml_name_plain(s: Seq<char>) -> bool {
    s.len() > 0 && forall|i: int|
        0 <= i < s.len() ==> (#[trigger] s[i]) != '&' && s[i] != '<' && s[i] != '>' && s[i] != '"'
            && s[i] != '\'' && s[i] != '=' && s[i] != '/' && s[i] != ' ' && s[i] != '\t' && s[i]
            != '\n' && s[i] != '\r'
}

/// The attribute names the serializer writes are plain names.
pub proof fn lemma_attr_names_plain()
    ensures
        xml_name_plain("flex-direction"@),
        xml_name_plain("flex-wrap"@),
        xml_name_plain("grid-auto-flow"@),
        xml_name_plain("grid-row-start"@),
        xml_name_plain("grid-row-span"@),
        xml_name_plain("grid-row-end"@),
        xml_name_plain("grid-column-start"@),
        xml_name_plain("grid-column-span"@),
        xml_name_plain("grid-column-end"@),
        xml_name_plain("line-break"@),
{
    reveal_strlit("flex-direction");
    reveal_strlit("flex-wrap");
    reveal_strlit("grid-auto-flow");
    reveal_strlit("grid-row-start");
    reveal_strlit("grid-row-span");
    reveal_strlit("grid-row-end");
    reveal_strlit("grid-column-start");
    reveal_strlit("grid-column-span");
    reveal_strlit("grid-column-end");
    reveal_strlit("line-break");
}

/// Decimal renderings of integers contain no character XML escaping
/// rewrites.
pub proof fn lemma_render_int_plain(n: int)
    requires
        n > i64::MIN,
    ensures
        xml_value_plain(crate::text::render_int(n)),
{
    let m: nat = if n < 0 {
        (-n) as nat
    } else {
        n as nat
    };
    crate::text::lemma_num_of_dec_digits(m);
    let d = crate::text::dec_digits(m);
    assert forall|i: int| 0 <= i < d.len() implies (#[trigger] d[i]) != '&' && d[i] != '<' && d[i]
        != '>' && d[i] != '"' && d[i] != '\'' by {
        assert(crate::text::is_digit_char(d[i]));
    }
    if n < 0 {
        let s = seq!['-'] + d;
        assert forall|i: int| 0 <= i < s.len() implies (#[trigger] s[i]) != '&' && s[i] != '<'
            && s[i] != '>' && s[i] != '"' && s[i] != '\'' by {
            if i == 0 {
            } else {
                assert(s[i] == d[i - 1]);
            }
        }
    }
}

/// The enumeration literals the serializer writes contain no character
/// XML escaping rewrites.
pub proof fn lemma_vocab_plain()
    ensures
        xml_value_plain("row"@),
        xml_value_plain("column"@),
        xml_value_plain("row-reverse"@),
        xml_value_plain("column-reverse"@),
        xml_value_plain("nowrap"@),
        xml_value_plain("wrap"@),
        xml_value_plain("wrap-reverse"@),
        xml_value_plain("row-dense"@),
        xml_value_plain("column-dense"@),
        xml_value_plain("word"@),
        xml_value_plain("char"@),
{
    reveal_strlit("row");
    reveal_strlit("column");
    reveal_strlit("row-reverse");
    reveal_strlit("column-reverse");
    reveal_strlit("nowrap");
    reveal_strlit("wrap");
    reveal_strlit("wrap-reverse");
    reveal_strlit("row-dense");
    reveal_strlit("column-dense");
    reveal_strlit("word");
    reveal_strlit("char");
}

/// Relies on quick_xml's `BytesStart::push_attribute`: appends the pair to
/// the tag's attribute list. The value is escaped on the way in, so a
/// value free of special characters is stored as written; the name is
/// written into the raw tag text unescaped, so only a plain name is
/// admitted — a name holding a quote, a space or `=` would decode as
/// something other than one pair.
#[verifier::external_body]
pub(crate) fn push_attribute<'a>(elem: &mut BytesStart<'a>, name: &str, value: &str)
    requires
        xml_name_plain(name@),
        xml_value_plain(value@),
    ensures
        tag_attrs(*final(elem)) == tag_attrs(*old(elem)).push((name@, value@)),
{
    elem.push_attribute((name, value));
}

} // verus!
