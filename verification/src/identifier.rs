//! Identifiers: the names that may stand in generated SQL text.
//!
//! Table and column names are written into statements as they are, never
//! quoted and never bound as parameters, so every name is checked here first.

use vstd::prelude::*;
use vstd::string::*;
use crate::error::{VibeError, VibeResult};
use crate::guard::SchemaGuard;
use crate::text::{
    ascii_digit, ascii_letter, ascii_upper_text, chars_of, is_ascii_digit, is_ascii_letter,
    to_ascii_upper,
};

verus! {

/// The longest identifier, in characters.
pub const MAX_IDENTIFIER_LENGTH: usize = 128;

/// `c` may open an identifier: an ASCII letter or an underscore.
pub open spec fn is_identifier_start(c: char) -> bool {
    is_ascii_letter(c) || c == '_'
}

/// `c` may stand inside an identifier: an ASCII letter, a digit or an underscore.
pub open spec fn is_identifier_part(c: char) -> bool {
    is_ascii_letter(c) || is_ascii_digit(c) || c == '_'
}

/// `s` is a letter or underscore followed by letters, digits and underscores.
pub open spec fn has_identifier_shape(s: Seq<char>) -> bool {
    &&& s.len() > 0
    &&& is_identifier_start(s[0])
    &&& forall|i: int| 1 <= i < s.len() ==> is_identifier_part(#[trigger] s[i])
}

/// `word`, written in upper case, is an SQL keyword.
pub open spec fn is_keyword(word: Seq<char>) -> bool {
    ||| word == "SELECT"@
    ||| word == "FROM"@
    ||| word == "WHERE"@
    ||| word == "INSERT"@
    ||| word == "UPDATE"@
    ||| word == "DELETE"@
    ||| word == "CREATE"@
    ||| word == "TABLE"@
    ||| word == "DROP"@
    ||| word == "ALTER"@
    ||| word == "INDEX"@
    ||| word == "AND"@
    ||| word == "OR"@
    ||| word == "NOT"@
    ||| word == "NULL"@
    ||| word == "TRUE"@
    ||| word == "FALSE"@
    ||| word == "PRIMARY"@
    ||| word == "KEY"@
    ||| word == "FOREIGN"@
    ||| word == "REFERENCES"@
    ||| word == "UNIQUE"@
    ||| word == "CHECK"@
    ||| word == "DEFAULT"@
    ||| word == "AS"@
    ||| word == "ORDER"@
    ||| word == "BY"@
    ||| word == "GROUP"@
    ||| word == "HAVING"@
    ||| word == "LIMIT"@
    ||| word == "OFFSET"@
    ||| word == "JOIN"@
    ||| word == "LEFT"@
    ||| word == "RIGHT"@
    ||| word == "INNER"@
    ||| word == "OUTER"@
    ||| word == "ON"@
    ||| word == "CASE"@
    ||| word == "WHEN"@
    ||| word == "THEN"@
    ||| word == "ELSE"@
    ||| word == "END"@
    ||| word == "UNION"@
    ||| word == "ALL"@
    ||| word == "DISTINCT"@
    ||| word == "VALUES"@
    ||| word == "SET"@
    ||| word == "IN"@
    ||| word == "BETWEEN"@
    ||| word == "LIKE"@
    ||| word == "IS"@
    ||| word == "EXISTS"@
    ||| word == "EXCEPT"@
    ||| word == "INTERSECT"@
}

/// `s` is an SQL keyword, in any mix of upper and lower case.
pub open spec fn is_reserved(s: Seq<char>) -> bool {
    is_keyword(ascii_upper_text(s))
}

/// `s` may stand in generated SQL text as a table or column name.
pub open spec fn is_valid_identifier(s: Seq<char>) -> bool {
    &&& 1 <= s.len() <= MAX_IDENTIFIER_LENGTH
    &&& has_identifier_shape(s)
    &&& !is_reserved(s)
}

/// The text of the error that rejects `s`: the first rule that `s` breaks,
/// of length, shape and keyword, in that order.
pub open spec fn identifier_fault(s: Seq<char>) -> Seq<char> {
    if s.len() == 0 || s.len() > MAX_IDENTIFIER_LENGTH {
        "Identifier '"@ + s + "' must be 1-128 characters"@
    } else if !has_identifier_shape(s) {
        "Identifier '"@ + s
            + "' contains invalid characters. Use only alphanumeric and underscores, starting with a letter or underscore"@
    } else {
        "Identifier '"@ + s + "' is a SQL reserved keyword"@
    }
}

/// What sanitizing makes of `s`: its first 128 characters, each one that may
/// not stand at its place replaced by an underscore.
pub open spec fn sanitized(s: Seq<char>) -> Seq<char> {
    Seq::new(
        if s.len() <= MAX_IDENTIFIER_LENGTH {
            s.len()
        } else {
            MAX_IDENTIFIER_LENGTH as nat
        },
        |i: int|
            if i == 0 {
                if is_identifier_start(s[i]) {
                    s[i]
                } else {
                    '_'
                }
            } else if is_identifier_part(s[i]) {
                s[i]
            } else {
                '_'
            },
    )
}

fn identifier_start(c: char) -> (b: bool)
    ensures
        b == is_identifier_start(c),
{
    ascii_letter(c) || c == '_'
}

fn identifier_part(c: char) -> (b: bool)
    ensures
        b == is_identifier_part(c),
{
    ascii_letter(c) || ascii_digit(c) || c == '_'
}

/// Tells whether `chars` has the shape of an identifier.
fn check_shape(chars: &Vec<char>) -> (b: bool)
    ensures
        b == has_identifier_shape(chars@),
{
    if chars.len() == 0 {
        return false;
    }
    if !identifier_start(chars[0]) {
        return false;
    }
    let mut i: usize = 1;
    while i < chars.len()
        invariant
            1 <= i <= chars@.len(),
            forall|j: int| 1 <= j < i ==> is_identifier_part(#[trigger] chars@[j]),
        decreases chars@.len() - i,
    {
        if !identifier_part(chars[i]) {
            return false;
        }
        i = i + 1;
    }
    true
}

/// `chars` in upper case.
fn upper_case(chars: &Vec<char>) -> (r: String)
    ensures
        r@ == ascii_upper_text(chars@),
{
    let mut out = String::new();
    let mut i: usize = 0;
    while i < chars.len()
        invariant
            0 <= i <= chars@.len(),
            out@ == ascii_upper_text(chars@.take(i as int)),
        decreases chars@.len() - i,
    {
        out.push(to_ascii_upper(chars[i]));
        proof {
            assert(ascii_upper_text(chars@.take(i + 1)) =~= ascii_upper_text(
                chars@.take(i as int),
            ).push(crate::text::ascii_upper(chars@[i as int])));
        }
        i = i + 1;
    }
    proof {
        assert(chars@.take(i as int) =~= chars@);
    }
    out
}

/// Tells whether `word` is one of the SQL keywords.
fn keyword(word: &str) -> (b: bool)
    ensures
        b == is_keyword(word@),
{
    *word == *"SELECT" || *word == *"FROM" || *word == *"WHERE" || *word == *"INSERT" || *word
        == *"UPDATE" || *word == *"DELETE" || *word == *"CREATE" || *word == *"TABLE" || *word
        == *"DROP" || *word == *"ALTER" || *word == *"INDEX" || *word == *"AND" || *word == *"OR"
        || *word == *"NOT" || *word == *"NULL" || *word == *"TRUE" || *word == *"FALSE" || *word
        == *"PRIMARY" || *word == *"KEY" || *word == *"FOREIGN" || *word == *"REFERENCES" || *word
        == *"UNIQUE" || *word == *"CHECK" || *word == *"DEFAULT" || *word == *"AS" || *word
        == *"ORDER" || *word == *"BY" || *word == *"GROUP" || *word == *"HAVING" || *word
        == *"LIMIT" || *word == *"OFFSET" || *word == *"JOIN" || *word == *"LEFT" || *word
        == *"RIGHT" || *word == *"INNER" || *word == *"OUTER" || *word == *"ON" || *word == *"CASE"
        || *word == *"WHEN" || *word == *"THEN" || *word == *"ELSE" || *word == *"END" || *word
        == *"UNION" || *word == *"ALL" || *word == *"DISTINCT" || *word == *"VALUES" || *word
        == *"SET" || *word == *"IN" || *word == *"BETWEEN" || *word == *"LIKE" || *word == *"IS"
        || *word == *"EXISTS" || *word == *"EXCEPT" || *word == *"INTERSECT"
}

impl SchemaGuard {
    /// Validates that a name is safe to use as a table or column name.
    ///
    /// It is accepted exactly when it has 1 to 128 characters, is a letter or
    /// underscore followed by letters, digits and underscores, and is no SQL
    /// keyword in any case. The error names the first rule that it breaks.
    pub fn validate_identifier(name: &str) -> (r: VibeResult<()>)
        ensures
            match r {
                Ok(_) => is_valid_identifier(name@),
                Err(e) => !is_valid_identifier(name@) && (e matches VibeError::InvalidIdentifier(m)
                    && m@ == identifier_fault(name@)),
            },
    {
        let chars = chars_of(name);
        if chars.len() == 0 || chars.len() > MAX_IDENTIFIER_LENGTH {
            let message = String::from_str("Identifier '").concat(name).concat(
                "' must be 1-128 characters",
            );
            return Err(VibeError::InvalidIdentifier(message));
        }
        if !check_shape(&chars) {
            let message = String::from_str("Identifier '").concat(name).concat(
                "' contains invalid characters. Use only alphanumeric and underscores, starting with a letter or underscore",
            );
            return Err(VibeError::InvalidIdentifier(message));
        }
        let upper = upper_case(&chars);
        if keyword(upper.as_str()) {
            let message = String::from_str("Identifier '").concat(name).concat(
                "' is a SQL reserved keyword",
            );
            return Err(VibeError::InvalidIdentifier(message));
        }
        Ok(())
    }

    /// Rewrites any text into the shape of an identifier: every character that
    /// may not stand at its place becomes an underscore, and the result is cut
    /// to 128 characters.
    pub fn sanitize_identifier(name: &str) -> (r: String)
        ensures
            r@ == sanitized(name@),
    {
        let chars = chars_of(name);
        let mut out = String::new();
        let mut i: usize = 0;
        while i < chars.len() && i < MAX_IDENTIFIER_LENGTH
            invariant
                0 <= i <= chars@.len(),
                i <= MAX_IDENTIFIER_LENGTH,
                chars@ == name@,
                out@ == sanitized(name@).take(i as int),
            decreases chars@.len() - i,
        {
            let c = chars[i];
            let kept = if i == 0 {
                if identifier_start(c) {
                    c
                } else {
                    '_'
                }
            } else if identifier_part(c) {
                c
            } else {
                '_'
            };
            out.push(kept);
            proof {
                assert(sanitized(name@).take(i + 1) =~= sanitized(name@).take(i as int).push(kept));
            }
            i = i + 1;
        }
        proof {
            assert(sanitized(name@).take(i as int) =~= sanitized(name@));
        }
        out
    }
}

/// Sanitizing is idempotent: a sanitized text is left as it is.
pub proof fn lemma_sanitize_idempotent(s: Seq<char>)
    ensures
        sanitized(sanitized(s)) == sanitized(s),
{
    assert(sanitized(sanitized(s)) =~= sanitized(s));
}

/// A sanitized text is at most 128 characters long and, unless it is empty,
/// has the shape of an identifier; so it is a valid identifier exactly when
/// it is neither empty nor a keyword.
pub proof fn lemma_sanitized_shape(s: Seq<char>)
    ensures
        sanitized(s).len() <= MAX_IDENTIFIER_LENGTH,
        sanitized(s).len() == 0 <==> s.len() == 0,
        s.len() > 0 ==> has_identifier_shape(sanitized(s)),
        is_valid_identifier(sanitized(s)) <==> s.len() > 0 && !is_reserved(sanitized(s)),
{
}

/// A valid identifier is left as it is by sanitizing.
pub proof fn lemma_sanitize_keeps_valid(s: Seq<char>)
    requires
        is_valid_identifier(s),
    ensures
        sanitized(s) == s,
{
    assert(sanitized(s) =~= s);
}

/// A valid identifier holds nothing but ASCII letters, digits and underscores.
pub proof fn lemma_valid_identifier_is_plain(s: Seq<char>)
    requires
        is_valid_identifier(s),
    ensures
        forall|i: int| 0 <= i < s.len() ==> is_identifier_part(#[trigger] s[i]),
{
    assert forall|i: int| 0 <= i < s.len() implies is_identifier_part(#[trigger] s[i]) by {
        if i == 0 {
        }
    }
}

} // verus!
