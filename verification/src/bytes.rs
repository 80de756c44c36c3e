//! Byte strings and lists of them, with copies that keep the contents.

use vstd::prelude::*;
use vstd::string::*;

verus! {

/// The contents of each byte string of a list.
pub open spec fn byte_views(list: Seq<Vec<u8>>) -> Seq<Seq<u8>> {
    list.map_values(|item: Vec<u8>| item@)
}

/// The contents of each text of a list.
pub open spec fn text_views(list: Seq<String>) -> Seq<Seq<char>> {
    list.map_values(|item: String| item@)
}

/// A copy of a byte string.
pub(crate) fn copy_bytes(source: &Vec<u8>) -> (copy: Vec<u8>)
    ensures
        copy@ == source@,
{
    let mut copy: Vec<u8> = Vec::with_capacity(source.len());
    let mut i: usize = 0;
    while i < source.len()
        invariant
            i <= source.len(),
            copy@ == source@.take(i as int),
        decreases source.len() - i,
    {
        copy.push(source[i]);
        i = i + 1;
    }
    copy
}

/// A copy of a list of byte strings.
pub(crate) fn copy_byte_list(source: &Vec<Vec<u8>>) -> (copy: Vec<Vec<u8>>)
    ensures
        byte_views(copy@) == byte_views(source@),
{
    let mut copy: Vec<Vec<u8>> = Vec::with_capacity(source.len());
    let mut i: usize = 0;
    while i < source.len()
        invariant
            i <= source.len(),
            byte_views(copy@) == byte_views(source@).take(i as int),
        decreases source.len() - i,
    {
        let item = copy_bytes(&source[i]);
        copy.push(item);
        assert(byte_views(source@).take(i + 1) =~= byte_views(source@).take(i as int).push(
            source@[i as int]@,
        ));
        i = i + 1;
    }
    copy
}

/// A copy of a list of texts.
pub(crate) fn copy_text_list(source: &Vec<String>) -> (copy: Vec<String>)
    ensures
        text_views(copy@) == text_views(source@),
{
    let mut copy: Vec<String> = Vec::with_capacity(source.len());
    let mut i: usize = 0;
    while i < source.len()
        invariant
            i <= source.len(),
            text_views(copy@) == text_views(source@).take(i as int),
        decreases source.len() - i,
    {
        let item = source[i].clone();
        copy.push(item);
        assert(text_views(source@).take(i + 1) =~= text_views(source@).take(i as int).push(
            source@[i as int]@,
        ));
        i = i + 1;
    }
    copy
}

} // verus!
