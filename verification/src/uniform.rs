//! Uniforms that members wear to gigs, and the format of their colors.

use crate::error::GreaseError;
use crate::text::{concat3, decimal, int_decimal, owned};
use vstd::prelude::*;

verus! {

/// A uniform that members wear to events.
#[derive(Debug)]
pub struct Uniform {
    /// The ID of the uniform.
    pub id: i32,
    /// The name of the uniform.
    pub name: String,
    /// The uniform's color, as `#XXX` or `#XXXXXX`.
    pub color: Option<String>,
    /// What to wear.
    pub description: Option<String>,
}

/// A new uniform, or the new values of one.
#[derive(Debug)]
pub struct NewUniform {
    /// The name of the uniform.
    pub name: String,
    /// The uniform's color, as `#XXX` or `#XXXXXX`.
    pub color: Option<String>,
    /// What to wear.
    pub description: Option<String>,
}

/// Whether a character is an ASCII hexadecimal digit.
pub open spec fn is_hex_digit(c: char) -> bool {
    ('0' <= c && c <= '9') || ('a' <= c && c <= 'f') || ('A' <= c && c <= 'F')
}

/// A color written as `#` and three or six hexadecimal digits.
pub open spec fn is_hex_color(color: Seq<char>) -> bool {
    &&& (color.len() == 4 || color.len() == 7)
    &&& color[0] == '#'
    &&& forall|i: int| 1 <= i < color.len() ==> is_hex_digit(#[trigger] color[i])
}

/// Checks a color against the uniform color pattern.
///
/// Calls the regex library: `Regex::new(r"^#([0-9a-fA-F]{3}|[0-9a-fA-F]{6})$")`,
/// then `is_match`. The anchors match only at the ends of the text, so the
/// pattern matches exactly a `#` followed by three or six hexadecimal
/// digits.
#[verifier::external_body]
fn color_matches(color: &str) -> (matches: bool)
    ensures
        matches == is_hex_color(color@),
{
    regex::Regex::new(r"^#([0-9a-fA-F]{3}|[0-9a-fA-F]{6})$").unwrap().is_match(color)
}

/// The message for a color that does not match the pattern.
pub open spec fn bad_color_message() -> Seq<char> {
    "uniform colors must be in the format '#XXX' or '#XXXXXX', where X is a hexadecimal number"@
}

impl Uniform {
    /// Refuses a color that is not a `#` followed by three or six
    /// hexadecimal digits; no color is fine.
    pub fn validate_color(color: &Option<String>) -> (result: Result<(), GreaseError>)
        ensures
            match color {
                Some(c) => if is_hex_color(c@) {
                    result is Ok
                } else {
                    result matches Err(GreaseError::BadRequest(m)) && m@ == bad_color_message()
                },
                None => result is Ok,
            },
    {
        match color {
            Some(c) => {
                if color_matches(c.as_str()) {
                    Ok(())
                } else {
                    Err(
                        GreaseError::BadRequest(
                            owned(
                                "uniform colors must be in the format '#XXX' or '#XXXXXX', where X is a hexadecimal number",
                            ),
                        ),
                    )
                }
            },
            None => Ok(()),
        }
    }

    /// The uniform found for `uniform_id`, or the error for a missing one.
    pub fn load(uniform_id: i32, found: Option<Uniform>) -> (result: Result<Uniform, GreaseError>)
        ensures
            found matches Some(u) ==> result == Ok::<Uniform, GreaseError>(u),
            found is None ==> (result matches Err(GreaseError::BadRequest(m)) && m@ == "No uniform with id "@
                + int_decimal(uniform_id as int) + "."@),
    {
        match found {
            Some(u) => Ok(u),
            None => {
                let id_text = decimal(uniform_id as i64);
                Err(GreaseError::BadRequest(concat3("No uniform with id ", id_text.as_str(), ".")))
            },
        }
    }

    /// The default uniform: the first by name (`first_by_name`); a server
    /// error when there is none.
    pub fn load_default(first_by_name: Option<Uniform>) -> (result: Result<Uniform, GreaseError>)
        ensures
            first_by_name matches Some(u) ==> result == Ok::<Uniform, GreaseError>(u),
            first_by_name is None ==> (result matches Err(GreaseError::ServerError(m)) && m@
                == "There are currently no uniforms."@),
    {
        match first_by_name {
            Some(u) => Ok(u),
            None => Err(GreaseError::ServerError(owned("There are currently no uniforms."))),
        }
    }
}

} // verus!
