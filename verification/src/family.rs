//! Font family selection.
//!
//! A text-font call names a family either by one of five generic
//! keywords or by a literal title; the font service resolves the result
//! to a concrete font.  Failure to find or load a font is fatal at the
//! call site — there is no fallback chain — so nothing here models
//! recovery.

use vstd::prelude::*;
use vstd::string::StringExecFns;

verus! {

/// A font family request: one of the five generic keywords, or a
/// literal family title.
#[derive(Clone, Debug)]
pub enum FontFamily {
    Serif,
    SansSerif,
    Monospace,
    Cursive,
    Fantasy,
    Title(String),
}

/// Parse a family name: exactly the five generic keywords map to their
/// generic family, and anything else is a literal title, carried
/// through unchanged.
pub fn parse_family(name: &str) -> (r: FontFamily)
    ensures
        r is Serif <==> name@ == "serif"@,
        r is SansSerif <==> name@ == "sans-serif"@,
        r is Monospace <==> name@ == "monospace"@,
        r is Cursive <==> name@ == "cursive"@,
        r is Fantasy <==> name@ == "fantasy"@,
        r matches FontFamily::Title(t) ==> t@ == name@,
{
    proof {
        reveal_strlit("serif");
        reveal_strlit("sans-serif");
        reveal_strlit("monospace");
        reveal_strlit("cursive");
        reveal_strlit("fantasy");
        assert("cursive"@[0] == 'c' && "fantasy"@[0] == 'f');
        assert("serif"@.len() == 5);
        assert("sans-serif"@.len() == 10);
        assert("monospace"@.len() == 9);
        assert("cursive"@.len() == 7);
        assert("fantasy"@.len() == 7);
    }
    let owned = String::from_str(name);
    if owned.eq(&String::from_str("serif")) {
        FontFamily::Serif
    } else if owned.eq(&String::from_str("sans-serif")) {
        FontFamily::SansSerif
    } else if owned.eq(&String::from_str("monospace")) {
        FontFamily::Monospace
    } else if owned.eq(&String::from_str("cursive")) {
        FontFamily::Cursive
    } else if owned.eq(&String::from_str("fantasy")) {
        FontFamily::Fantasy
    } else {
        FontFamily::Title(owned)
    }
}

} // verus!
