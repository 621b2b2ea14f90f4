use vstd::prelude::*;

verus! {

/// `String::push` from std, whose documentation says that it appends the
/// given `char` to the end of the string. The contract claims exactly that of
/// the string's characters.
pub assume_specification[ String::push ](s: &mut String, ch: char)
    ensures
        final(s)@ == old(s)@.push(ch),
;

/// `String::pop` from std, whose documentation says that it removes the last
/// character and returns it, or returns `None` when the string is empty. The
/// contract claims exactly that of the string's characters.
pub assume_specification[ String::pop ](s: &mut String) -> (r: Option<char>)
    ensures
        old(s)@.len() == 0 ==> r is None && final(s)@ == old(s)@,
        old(s)@.len() > 0 ==> r == Some(old(s)@.last()) && final(s)@ == old(s)@.drop_last(),
;

/// `String::with_capacity` from std, whose documentation says that it
/// creates a new empty string. The contract claims that the string holds no
/// character; what it says of the capacity is left unsaid.
pub assume_specification[ String::with_capacity ](capacity: usize) -> (s: String)
    ensures
        s@ == Seq::<char>::empty(),
;

/// The character of an ASCII code.
pub open spec fn ascii_char(b: u8) -> char {
    b as char
}

/// The character of an ASCII code, computed.
pub fn char_of(b: u8) -> (c: char)
    requires
        b < 128,
    ensures
        c == ascii_char(b),
{
    b as char
}

} // verus!
