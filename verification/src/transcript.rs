//! The pieces of transcript handling that are plain data and logic: the
//! tool-result shapes and the HTML escaping that keeps transcript text
//! from being interpreted as markup.  Reading transcript files and
//! rendering full pages stays with the binary around the library.

use vstd::prelude::*;
use vstd::string::{StrSliceExecFns, StringExecFns};

verus! {

/// One item of a structured tool result.
pub struct ToolResultItem {
    pub item_type: String,
    pub text: Option<String>,
}

/// A tool result: either plain text or a list of items.
pub enum ToolResultContent {
    String(String),
    Array(Vec<ToolResultItem>),
}

impl Default for ToolResultContent {
    fn default() -> (r: Self)
        ensures
            r matches ToolResultContent::String(s) && s@ == Seq::<char>::empty(),
    {
        ToolResultContent::String(String::new())
    }
}

/// How one character appears in escaped HTML text: the five delimiter
/// characters become entities, everything else stands as it is.
pub open spec fn html_escape_char(c: char) -> Seq<char> {
    if c == '&' {
        seq!['&', 'a', 'm', 'p', ';']
    } else if c == '<' {
        seq!['&', 'l', 't', ';']
    } else if c == '>' {
        seq!['&', 'g', 't', ';']
    } else if c == '"' {
        seq!['&', 'q', 'u', 'o', 't', ';']
    } else if c == '\'' {
        seq!['&', '#', '3', '9', ';']
    } else {
        seq![c]
    }
}

/// A whole string with every delimiter escaped.
pub open spec fn spec_html_escape(s: Seq<char>) -> Seq<char>
    decreases s.len(),
{
    if s.len() == 0 {
        Seq::<char>::empty()
    } else {
        spec_html_escape(s.drop_last()) + html_escape_char(s.last())
    }
}

/// Escapes `text` for inclusion in HTML.
pub fn html_escape(text: &str) -> (r: String)
    ensures
        r@ == spec_html_escape(text@),
{
    let n = text.unicode_len();
    let mut out = String::new();
    let mut i: usize = 0;
    while i < n
        invariant
            i <= n,
            n == text@.len(),
            out@ == spec_html_escape(text@.take(i as int)),
        decreases n - i,
    {
        let c = text.get_char(i);
        if c == '&' {
            proof {
                reveal_strlit("&amp;");
            }
            out.append("&amp;");
        } else if c == '<' {
            proof {
                reveal_strlit("&lt;");
            }
            out.append("&lt;");
        } else if c == '>' {
            proof {
                reveal_strlit("&gt;");
            }
            out.append("&gt;");
        } else if c == '"' {
            proof {
                reveal_strlit("&quot;");
            }
            out.append("&quot;");
        } else if c == '\'' {
            proof {
                reveal_strlit("&#39;");
            }
            out.append("&#39;");
        } else {
            let piece = text.substring_char(i, i + 1);
            out.append(piece);
        }
        proof {
            assert(text@.take(i + 1).drop_last() =~= text@.take(i as int));
            assert(text@.take(i + 1).last() == text@[i as int]);
            assert(out@ =~= spec_html_escape(text@.take(i as int)) + html_escape_char(
                text@[i as int],
            ));
        }
        i = i + 1;
    }
    proof {
        assert(text@.take(n as int) =~= text@);
    }
    out
}

} // verus!
