use vstd::prelude::*;

verus! {

/// The bytes that `u8::is_ascii_whitespace` accepts: space, tab, line feed,
/// form feed and carriage return.
pub open spec fn is_ascii_ws(b: u8) -> bool {
    b == 0x20u8 || b == 0x09u8 || b == 0x0Au8 || b == 0x0Cu8 || b == 0x0Du8
}

/// Length of `s` once its trailing ASCII whitespace is cut off.
pub open spec fn trimmed_len(s: Seq<u8>) -> nat
    decreases s.len(),
{
    if s.len() == 0 {
        0
    } else if is_ascii_ws(s.last()) {
        trimmed_len(s.drop_last())
    } else {
        s.len()
    }
}

/// `buf` without its trailing ASCII whitespace.
pub fn trim_whitespace(buf: &[u8]) -> (r: &[u8])
    ensures
        r@ == buf@.subrange(0, trimmed_len(buf@) as int),
{
    let mut len: usize = buf.len();
    assert(buf@.subrange(0, len as int) =~= buf@);
    while len > 0 && (buf[len - 1] == 0x20u8 || buf[len - 1] == 0x09u8 || buf[len - 1] == 0x0Au8
        || buf[len - 1] == 0x0Cu8 || buf[len - 1] == 0x0Du8)
        invariant
            len <= buf@.len(),
            trimmed_len(buf@) == trimmed_len(buf@.subrange(0, len as int)),
        decreases len,
    {
        assert(buf@.subrange(0, len as int).drop_last() =~= buf@.subrange(0, len - 1));
        len = len - 1;
    }
    vstd::slice::slice_subrange(buf, 0, len)
}

} // verus!
