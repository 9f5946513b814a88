//! Escaping of text placed between HTML tags.
use vstd::prelude::*;

verus! {

/// What one character becomes in HTML text: `&`, `<` and `>` turn into their
/// entities, any other character stays.
pub open spec fn html_escape_char(c: char) -> Seq<char> {
    if c == '&' {
        seq!['&', 'a', 'm', 'p', ';']
    } else if c == '<' {
        seq!['&', 'l', 't', ';']
    } else if c == '>' {
        seq!['&', 'g', 't', ';']
    } else {
        seq![c]
    }
}

/// The HTML-text form of a character sequence.
pub open spec fn html_text(s: Seq<char>) -> Seq<char>
    decreases s.len(),
{
    if s.len() == 0 {
        Seq::empty()
    } else {
        html_text(s.drop_last()) + html_escape_char(s.last())
    }
}

/// Encodes `s` for use as HTML text.
///
/// Calls `html_escape::encode_text`, whose documentation and source escape
/// exactly `&` as `&amp;`, `<` as `&lt;` and `>` as `&gt;` and copy every
/// other character.
#[verifier::external_body]
pub(crate) fn encode_html_text(s: &str) -> (res: String)
    ensures
        res@ == html_text(s@),
{
    html_escape::encode_text(s).into_owned()
}

/// Law: encoded HTML text holds no `<` and no `>`, so it cannot open or close
/// a tag.
pub proof fn law_html_text_has_no_angle_brackets(s: Seq<char>)
    ensures
        forall|i: int| 0 <= i < html_text(s).len() ==> #[trigger] html_text(s)[i] != '<' && html_text(s)[i] != '>',
    decreases s.len(),
{
    if s.len() > 0 {
        law_html_text_has_no_angle_brackets(s.drop_last());
        let prev = html_text(s.drop_last());
        let tail = html_escape_char(s.last());
        assert forall|i: int| 0 <= i < (prev + tail).len() implies #[trigger] (prev + tail)[i] != '<'
            && (prev + tail)[i] != '>' by {
            if i < prev.len() {
                assert((prev + tail)[i] == prev[i]);
            } else {
                assert((prev + tail)[i] == tail[i - prev.len()]);
            }
        }
    }
}

/// Law: text without `&`, `<` and `>` is left as it is.
pub proof fn law_html_text_plain(s: Seq<char>)
    requires
        forall|i: int| 0 <= i < s.len() ==> #[trigger] s[i] != '&' && s[i] != '<' && s[i] != '>',
    ensures
        html_text(s) == s,
    decreases s.len(),
{
    if s.len() > 0 {
        assert forall|i: int| 0 <= i < s.drop_last().len() implies #[trigger] s.drop_last()[i] != '&'
            && s.drop_last()[i] != '<' && s.drop_last()[i] != '>' by {
            assert(s.drop_last()[i] == s[i]);
        }
        law_html_text_plain(s.drop_last());
        assert(s[s.len() - 1] != '&');
        assert(s.drop_last() + seq![s.last()] =~= s);
    }
}

} // verus!
