//! Text encodings that a streamed extraction can be decoded with.

use vstd::prelude::*;

verus! {

/// The encodings the parsing engine accepts for a streamed result.
#[derive(Debug, Clone, Copy, PartialEq, Eq, Hash, Structural)]
#[allow(non_camel_case_types)]
pub enum CharSet {
    UTF_8,
    US_ASCII,
    UTF_16BE,
}

impl Default for CharSet {
    fn default() -> (charset: Self)
        ensures
            charset == CharSet::UTF_8,
    {
        CharSet::UTF_8
    }
}

impl CharSet {
    /// The name under which the encoding is handed to the engine.
    pub open spec fn spec_name(self) -> Seq<char> {
        match self {
            CharSet::UTF_8 => "UTF_8"@,
            CharSet::US_ASCII => "US_ASCII"@,
            CharSet::UTF_16BE => "UTF_16BE"@,
        }
    }

    /// Returns the encoding's name.
    pub fn name(&self) -> (name: &'static str)
        ensures
            name@ == self.spec_name(),
    {
        match self {
            CharSet::UTF_8 => "UTF_8",
            CharSet::US_ASCII => "US_ASCII",
            CharSet::UTF_16BE => "UTF_16BE",
        }
    }

    /// Returns the encoding's name as an owned string.
    pub fn to_string(&self) -> (name: String)
        ensures
            name@ == self.spec_name(),
    {
        self.name().to_owned()
    }

    /// Finds the encoding with the given name; names are case-sensitive.
    pub fn from_name(name: &str) -> (found: Option<CharSet>)
        ensures
            match found {
                Some(charset) => charset.spec_name() == name@,
                None => forall|charset: CharSet| charset.spec_name() != name@,
            },
    {
        let given = name.to_owned();
        if given == CharSet::UTF_8.to_string() {
            Some(CharSet::UTF_8)
        } else if given == CharSet::US_ASCII.to_string() {
            Some(CharSet::US_ASCII)
        } else if given == CharSet::UTF_16BE.to_string() {
            Some(CharSet::UTF_16BE)
        } else {
            None
        }
    }
}

/// Distinct encodings have distinct names, so a name identifies its encoding.
pub proof fn charset_names_distinct(a: CharSet, b: CharSet)
    requires
        a.spec_name() == b.spec_name(),
    ensures
        a == b,
{
    reveal_strlit("UTF_8");
    reveal_strlit("US_ASCII");
    reveal_strlit("UTF_16BE");
    assert("UTF_8"@.len() == 5 && "US_ASCII"@.len() == 8 && "UTF_16BE"@.len() == 8);
    assert("US_ASCII"@[1] == 'S' && "UTF_16BE"@[1] == 'T');
}

} // verus!
