//! The names of Vulkan extensions, as the application asks for them.

use vstd::prelude::*;

verus! {

/// What the buffer holds after the names were written into it: the names, a zero that ends them,
/// and what was there before.
pub open spec fn filled(extensions: Seq<u8>, buffer: Seq<u8>) -> Seq<u8> {
    extensions + seq![0u8] + buffer.skip((extensions.len() + 1) as int)
}

/// Writes the names of the extensions and a zero that ends them into the buffer, if they fit, and
/// returns how many bytes that takes. An application without a buffer passes an empty one.
pub fn fill_vk_extensions_buffer(extensions: &[u8], buffer: &mut [u8]) -> (needed: u32)
    requires
        extensions@.len() < u32::MAX,
    ensures
        needed == extensions@.len() + 1,
        old(buffer)@.len() >= needed ==> final(buffer)@ == filled(extensions@, old(buffer)@),
        old(buffer)@.len() < needed ==> final(buffer)@ == old(buffer)@,
{
    let len: usize = extensions.len();
    if buffer.len() > len {
        let mut i: usize = 0;
        while i < len
            invariant
                i <= len,
                len == extensions@.len(),
                len < old(buffer)@.len(),
                buffer@ == extensions@.take(i as int) + old(buffer)@.skip(i as int),
            decreases len - i,
        {
            buffer[i] = extensions[i];
            i = i + 1;
        }
        buffer[len] = 0;
    }
    len as u32 + 1
}

/// The way an application gets the names: it asks for the size without a buffer, and a buffer of
/// that size or larger then holds the names, ended by a zero. What lies behind them stays.
pub proof fn law_size_query_then_fill(extensions: Seq<u8>, buffer: Seq<u8>)
    requires
        buffer.len() >= extensions.len() + 1,
    ensures
        filled(extensions, buffer).len() == buffer.len(),
        filled(extensions, buffer).take(extensions.len() as int) == extensions,
        filled(extensions, buffer)[extensions.len() as int] == 0,
        filled(extensions, buffer).skip((extensions.len() + 1) as int) == buffer.skip((extensions.len() + 1) as int),
{
}

/// Filling a buffer again with the same names changes nothing.
pub proof fn law_filling_again_changes_nothing(extensions: Seq<u8>, buffer: Seq<u8>)
    requires
        buffer.len() >= extensions.len() + 1,
    ensures
        filled(extensions, filled(extensions, buffer)) == filled(extensions, buffer),
{
}

} // verus!
