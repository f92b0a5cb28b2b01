use vstd::prelude::*;

verus! {

/// `len` copies of `value`.
pub open spec fn filled_frame(value: u8, len: nat) -> Seq<u8> {
    Seq::new(len, |_i: int| value)
}

/// A frame of `len` bytes, all equal to `value`.
pub fn filled(value: u8, len: usize) -> (frame: Vec<u8>)
    ensures
        frame@ == filled_frame(value, len as nat),
{
    let frame = vec![value; len];
    assert(frame@ =~= filled_frame(value, len as nat));
    frame
}

} // verus!
