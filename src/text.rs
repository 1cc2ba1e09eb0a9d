//! Text at the boundary: arguments arrive as bytes and must be UTF-8; results
//! leave as NUL-terminated strings and so must hold no NUL.
use vstd::prelude::*;
use vstd::std_specs::iter::IteratorSpec;
use vstd::string::*;
use vstd::utf8::*;

use crate::error::FsError;

verus! {

/// Whether `s` holds a NUL character.
pub open spec fn has_nul(s: Seq<char>) -> bool {
    exists|i: int| 0 <= i < s.len() && s[i] == '\0'
}

/// Whether a result or error text can be handed to the caller.
pub open spec fn encodable(r: Result<String, FsError>) -> bool {
    match r {
        Ok(s) => !has_nul(s@),
        Err(e) => match e.spec_message() {
            Some(m) => !has_nul(m),
            None => true,
        },
    }
}

/// The characters of `s`, one element each.
pub(crate) fn chars_of(s: &str) -> (r: Vec<char>)
    ensures
        r@ == s@,
{
    let mut r: Vec<char> = Vec::new();
    for c in it: s.chars()
        invariant
            r@ == it.seq().take(it.index() as int),
    {
        r.push(c);
    }
    assert(r@ =~= s@);
    r
}

/// Relies on `std::str::from_utf8`: it accepts exactly the valid UTF-8
/// sequences, and then the text is their decoding.
#[verifier::external_body]
fn utf8_to_string(bytes: &[u8]) -> (r: Option<String>)
    ensures
        r is Some <==> valid_utf8(bytes@),
        r matches Some(s) ==> s@ == decode_utf8(bytes@),
{
    std::str::from_utf8(bytes).ok().map(str::to_owned)
}

/// Whether `s` holds a NUL character.
pub fn contains_nul(s: &str) -> (r: bool)
    ensures
        r == has_nul(s@),
{
    let cs = chars_of(s);
    let mut i: usize = 0;
    while i < cs.len()
        invariant
            cs@ == s@,
            i <= cs@.len(),
            forall|k: int| 0 <= k < i ==> cs@[k] != '\0',
        decreases cs@.len() - i,
    {
        if cs[i] == '\0' {
            return true;
        }
        i = i + 1;
    }
    false
}

/// The text of an argument named `name`, given as raw bytes (`None` when it
/// is absent): an `InvalidInput` error when it is absent or not UTF-8.
pub fn decode_argument(raw: Option<&[u8]>, name: &str) -> (r: Result<String, FsError>)
    ensures
        match raw {
            None => r matches Err(FsError::InvalidInput(m)) && m@ == name@ + " is null"@,
            Some(b) => if valid_utf8(b@) {
                r matches Ok(s) && s@ == decode_utf8(b@)
            } else {
                r matches Err(FsError::InvalidInput(m)) && m@ == "UTF-8 validation failed in "@
                    + name@
            },
        },
{
    match raw {
        None => {
            let mut m = String::from_str(name);
            m.append(" is null");
            Err(FsError::InvalidInput(m))
        },
        Some(b) => match utf8_to_string(b) {
            Some(s) => Ok(s),
            None => {
                let mut m = String::from_str("UTF-8 validation failed in ");
                m.append(name);
                Err(FsError::InvalidInput(m))
            },
        },
    }
}

/// A result made ready for the caller: unchanged when its text holds no NUL,
/// otherwise an `Encoding` failure, which carries no text.
pub fn encode_result(r: Result<String, FsError>) -> (e: Result<String, FsError>)
    ensures
        encodable(r) ==> e == r,
        !encodable(r) ==> e == Err::<String, FsError>(FsError::Encoding),
{
    let bad = match &r {
        Ok(s) => contains_nul(s.as_str()),
        Err(FsError::InvalidInput(m)) => contains_nul(m.as_str()),
        Err(FsError::Io(m)) => contains_nul(m.as_str()),
        Err(FsError::AlreadyExists(m)) => contains_nul(m.as_str()),
        Err(FsError::Encoding) => false,
    };
    if bad {
        Err(FsError::Encoding)
    } else {
        r
    }
}

/// The two arguments of a directory copy, given as raw bytes (`None` when
/// absent). Absence of either is reported first, with one message for both;
/// then the source's text is checked, then the destination's.
pub fn decode_copy_arguments(source_dir: Option<&[u8]>, destination_dir: Option<&[u8]>) -> (r:
    Result<(String, String), FsError>)
    ensures
        match (source_dir, destination_dir) {
            (Some(s), Some(d)) => if !valid_utf8(s@) {
                r matches Err(FsError::InvalidInput(m)) && m@ == "UTF-8 validation failed in "@
                    + "source_dir"@
            } else if !valid_utf8(d@) {
                r matches Err(FsError::InvalidInput(m)) && m@ == "UTF-8 validation failed in "@
                    + "destination_dir"@
            } else {
                r matches Ok((a, b)) && a@ == decode_utf8(s@) && b@ == decode_utf8(d@)
            },
            _ => r matches Err(FsError::InvalidInput(m)) && m@
                == "source_dir or destination_dir is null"@,
        },
{
    match (source_dir, destination_dir) {
        (Some(s), Some(d)) => {
            let a = decode_argument(Some(s), "source_dir")?;
            let b = decode_argument(Some(d), "destination_dir")?;
            Ok((a, b))
        },
        _ => Err(FsError::InvalidInput(String::from_str("source_dir or destination_dir is null"))),
    }
}

} // verus!
