//! The logic of a content pipeline. Documents are split into preamble,
//! title, summary and body; markup bodies are rendered into a canonical
//! form or into plain text; and the resources of a site are carried from
//! their sources through the records of a cache to the pages of the
//! site.

use vstd::prelude::*;

pub mod cache;
pub mod feed;
pub mod markdown;
pub mod resource_type;
pub mod source;
pub mod text;
pub mod zola;

verus! {

/// A resource of any stage.
pub trait Resource {
    type Id;

    /// What tells the resource from the others of its kind.
    fn id(&self) -> &Self::Id;
}

/// A set of resources of any stage.
pub trait ResourceSet: IntoIterator {

}

/// The hexadecimal digit for `d`, where `d` is below sixteen.
pub open spec fn hex_digit(d: nat) -> char {
    if d < 10 {
        crate::text::digit(d)
    } else if d == 10 {
        'a'
    } else if d == 11 {
        'b'
    } else if d == 12 {
        'c'
    } else if d == 13 {
        'd'
    } else if d == 14 {
        'e'
    } else {
        'f'
    }
}

/// The bytes of `buffer` in hexadecimal, two lower-case digits each.
pub open spec fn hex(buffer: Seq<u8>) -> Seq<char>
    decreases buffer.len(),
{
    if buffer.len() == 0 {
        Seq::empty()
    } else {
        hex(buffer.drop_last()).push(hex_digit((buffer.last() / 16) as nat)).push(
            hex_digit((buffer.last() % 16) as nat),
        )
    }
}

/// The hexadecimal digit for `d`.
fn hex_char(d: u8) -> (c: char)
    requires
        d < 16,
    ensures
        c == hex_digit(d as nat),
{
    if d < 10 {
        crate::text::digit_char(d as u64)
    } else if d == 10 {
        'a'
    } else if d == 11 {
        'b'
    } else if d == 12 {
        'c'
    } else if d == 13 {
        'd'
    } else if d == 14 {
        'e'
    } else {
        'f'
    }
}

/// The bytes of `buffer` in hexadecimal, two lower-case digits each.
pub fn to_hex(buffer: &[u8]) -> (text: String)
    ensures
        text@ == hex(buffer@),
{
    let mut s: Vec<char> = Vec::new();
    let mut i: usize = 0;
    while i < buffer.len()
        invariant
            i <= buffer@.len(),
            s@ == hex(buffer@.take(i as int)),
        decreases buffer.len() - i,
    {
        let b = buffer[i];
        assert(b >> 4 == b / 16 && b & 0xf == b % 16 && b >> 4 < 16 && b & 0xf < 16) by (bit_vector);
        s.push(hex_char(b >> 4));
        s.push(hex_char(b & 0xf));
        proof {
            let next = buffer@.take(i + 1);
            assert(next.drop_last() =~= buffer@.take(i as int));
            assert(next.last() == b);
        }
        i += 1;
    }
    assert(buffer@.take(buffer@.len() as int) =~= buffer@);
    crate::text::string_of(&s)
}

} // verus!
