//! Device names as the platform writes them: sixteen-bit units closed by a
//! zero unit, to be read as UTF-16.

use vstd::prelude::*;
use vstd::string::*;
use widestring::U16CString;
use crate::error::Error;

verus! {

/// A wide string that ends in a zero unit and holds no other, as the
/// `widestring` crate keeps it.
#[verifier::external_body]
pub struct WideName {
    inner: U16CString,
}

/// The units that a terminated wide string holds, without its terminator.
pub uninterp spec fn wide_units(s: WideName) -> Seq<u16>;

/// The text that `U16CStr::to_string` reads from the units, or `None` where it
/// refuses them as ill-formed UTF-16.
pub uninterp spec fn utf16_text(units: Seq<u16>) -> Option<Seq<char>>;

/// The text that `U16CStr::to_string_lossy` reads from the units, with a
/// replacement character for each ill-formed sequence.
pub uninterp spec fn utf16_text_lossy(units: Seq<u16>) -> Seq<char>;

/// The first zero unit of `buffer` is at index `n`.
pub open spec fn terminated_at(buffer: Seq<u16>, n: int) -> bool {
    &&& 0 <= n < buffer.len()
    &&& buffer[n] == 0
    &&& forall|i: int| 0 <= i < n ==> buffer[i] != 0
}

/// `U16CString::from_vec_with_nul`: looks for the first zero unit. Without one
/// there is no string. With one, the string holds the units before it, and
/// what follows it is dropped.
#[verifier::external_body]
fn terminated(buffer: Vec<u16>) -> (r: Option<WideName>)
    ensures
        r is Some <==> buffer@.contains(0u16),
        r matches Some(s) ==> terminated_at(buffer@, wide_units(s).len() as int) && wide_units(s)
            == buffer@.take(wide_units(s).len() as int),
{
    match U16CString::from_vec_with_nul(buffer) {
        Ok(inner) => Some(WideName { inner }),
        Err(_) => None,
    }
}

/// `U16CStr::to_string`: the units read as UTF-16, or nothing where they are
/// ill-formed. The result is `utf16_text` of the units.
#[verifier::external_body]
fn strict_text(s: &WideName) -> (r: Option<String>)
    ensures
        r is Some <==> utf16_text(wide_units(*s)) is Some,
        r matches Some(t) ==> utf16_text(wide_units(*s)) == Some(t@),
{
    match s.inner.to_string() {
        Ok(t) => Some(t),
        Err(_) => None,
    }
}

/// `U16CStr::to_string_lossy`: the units read as UTF-16, ill-formed sequences
/// replaced. The result is `utf16_text_lossy` of the units.
#[verifier::external_body]
fn lossy_text(s: &WideName) -> (r: String)
    ensures
        r@ == utf16_text_lossy(wide_units(*s)),
{
    s.inner.to_string_lossy()
}

/// Where the name in `buffer` ends: the index of its first zero unit.
pub open spec fn name_end(buffer: Seq<u16>) -> int {
    choose|n: int| terminated_at(buffer, n)
}

/// What the units are read as: every unit sequence has a lossy reading, not
/// every one a strict reading.
pub open spec fn reading(units: Seq<u16>, lossy: bool) -> Option<Seq<char>> {
    if lossy {
        Some(utf16_text_lossy(units))
    } else {
        utf16_text(units)
    }
}

/// The text a reading is accepted as: a reading that exists and has at most
/// `limit` characters.
pub open spec fn accepted(text: Option<Seq<char>>, limit: nat) -> Result<Seq<char>, Error> {
    match text {
        Some(t) => if t.len() <= limit {
            Ok(t)
        } else {
            Err(Error::ResolverFailure)
        },
        None => Err(Error::ResolverFailure),
    }
}

/// The name that a buffer of units holds: the reading of the units before the
/// first zero unit, if there is a zero unit, if the units can be read, and if
/// the reading is no longer than the buffer.
pub open spec fn decoded_name(buffer: Seq<u16>, lossy: bool) -> Result<Seq<char>, Error> {
    if buffer.contains(0u16) {
        accepted(reading(buffer.take(name_end(buffer)), lossy), buffer.len())
    } else {
        Err(Error::ResolverFailure)
    }
}

/// Takes a reading of a name for the name itself only if there is one and it
/// has at most `limit` characters. A code point takes one unit or two, so a
/// reading longer than the units it was read from is no reading of them.
pub fn accept_text(text: Option<String>, limit: usize) -> (name: Result<String, Error>)
    ensures
        name == (match text {
            Some(t) => if t@.len() <= limit {
                Ok::<String, Error>(t)
            } else {
                Err(Error::ResolverFailure)
            },
            None => Err(Error::ResolverFailure),
        }),
{
    match text {
        Some(t) => {
            if t.as_str().unicode_len() <= limit {
                Ok(t)
            } else {
                Err(Error::ResolverFailure)
            }
        },
        None => Err(Error::ResolverFailure),
    }
}

/// Reads the name that the platform wrote into `buffer`. The name ends at the
/// first zero unit; a buffer without one holds no name. With `lossy` unset,
/// units that are not well-formed UTF-16 are refused; with it set, each
/// ill-formed sequence is replaced, which is meant for display only.
pub fn decode_name(buffer: Vec<u16>, lossy: bool) -> (name: Result<String, Error>)
    ensures
        match decoded_name(buffer@, lossy) {
            Ok(t) => name matches Ok(s) && s@ == t,
            Err(e) => name == Err::<String, Error>(e),
        },
        name matches Ok(s) ==> s@.len() <= buffer@.len(),
{
    let limit = buffer.len();
    let ghost units = buffer@;
    match terminated(buffer) {
        Some(wide) => {
            proof {
                lemma_name_end_is_unique(units, wide_units(wide).len() as int);
            }
            let text = if lossy {
                Some(lossy_text(&wide))
            } else {
                strict_text(&wide)
            };
            accept_text(text, limit)
        },
        None => Err(Error::ResolverFailure),
    }
}

/// A buffer has one first zero unit at most.
pub proof fn lemma_name_end_is_unique(buffer: Seq<u16>, n: int)
    requires
        terminated_at(buffer, n),
    ensures
        name_end(buffer) == n,
        buffer.contains(0u16),
{
    let m = name_end(buffer);
    assert(terminated_at(buffer, m));
    if m < n {
        assert(buffer[m] != 0);
    }
    if n < m {
        assert(buffer[n] != 0);
    }
}

} // verus!
