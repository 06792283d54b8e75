//! The limits that a WASI string array (the argument list or the environment
//! of a WASI context) puts on what is pushed into it.

use vstd::prelude::*;
use vstd::utf8::encode_utf8;

verus! {

/// Why a string could not be pushed into a WASI string array.
#[derive(Clone, Copy, Debug, PartialEq, Eq, Structural)]
pub enum StringArrayLimit {
    /// The array would hold 2^32 - 1 strings or more.
    NumberElements,
    /// The string, with its terminating NUL, would take 2^32 bytes or more.
    ElementSize,
    /// All strings, with their terminating NULs, would take more than
    /// 2^32 - 1 bytes.
    CumulativeSize,
}

/// The number of bytes of a string in UTF-8.
pub open spec fn byte_len(s: Seq<char>) -> nat {
    encode_utf8(s).len()
}

/// The bytes that the strings of an array take, each with a terminating NUL.
pub open spec fn cumulative_size(elems: Seq<Seq<char>>) -> nat
    decreases elems.len(),
{
    if elems.len() == 0 {
        0
    } else {
        cumulative_size(elems.drop_last()) + byte_len(elems.last()) + 1
    }
}

/// The limit, if any, that pushing `elem` onto `elems` would break, checked in
/// the order the array checks them. The array keeps its cumulative size as a
/// 32-bit number.
pub open spec fn push_limit(elems: Seq<Seq<char>>, elem: Seq<char>) -> Option<StringArrayLimit> {
    if elems.len() + 1 > u32::MAX {
        Some(StringArrayLimit::NumberElements)
    } else if byte_len(elem) + 1 > u32::MAX {
        Some(StringArrayLimit::ElementSize)
    } else if (cumulative_size(elems) % 0x1_0000_0000) + byte_len(elem) + 1 > u32::MAX {
        Some(StringArrayLimit::CumulativeSize)
    } else {
        None
    }
}

/// Pushing `new` onto `elems` one string after the other: the array that
/// results, or the limit that the first string that does not fit breaks.
pub open spec fn push_all(elems: Seq<Seq<char>>, new: Seq<Seq<char>>) -> Result<Seq<Seq<char>>, StringArrayLimit>
    decreases new.len(),
{
    if new.len() == 0 {
        Ok(elems)
    } else {
        match push_all(elems, new.drop_last()) {
            Err(l) => Err(l),
            Ok(pushed) => match push_limit(pushed, new.last()) {
                Some(l) => Err(l),
                None => Ok(pushed.push(new.last())),
            },
        }
    }
}

/// The message of the error that a limit raises.
pub open spec fn limit_text(limit: StringArrayLimit) -> Seq<char> {
    match limit {
        StringArrayLimit::NumberElements => "Number of elements exceeds 2^32"@,
        StringArrayLimit::ElementSize => "Element size exceeds 2^32"@,
        StringArrayLimit::CumulativeSize => "Cumulative size exceeds 2^32"@,
    }
}

/// Strings within the limits go into an array unchanged and in order: pushing
/// fewer than 2^32 - 1 strings whose cumulative size stays within 2^32 - 1
/// bytes onto an empty array gives exactly those strings.
pub proof fn lemma_push_all_within_limits(new: Seq<Seq<char>>)
    requires
        new.len() < u32::MAX,
        cumulative_size(new) <= u32::MAX,
    ensures
        push_all(Seq::empty(), new) == Ok::<Seq<Seq<char>>, StringArrayLimit>(new),
    decreases new.len(),
{
    if new.len() == 0 {
        assert(new =~= Seq::<Seq<char>>::empty());
    } else {
        let prefix = new.drop_last();
        assert(cumulative_size(new) == cumulative_size(prefix) + byte_len(new.last()) + 1);
        lemma_push_all_within_limits(prefix);
        assert(cumulative_size(prefix) % 0x1_0000_0000 == cumulative_size(prefix));
        assert(push_limit(prefix, new.last()) is None);
        assert(prefix.push(new.last()) =~= new);
    }
}

} // verus!
