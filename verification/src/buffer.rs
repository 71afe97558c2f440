use vstd::prelude::*;

verus! {

/// The first `n` bytes of `text`, followed by zero bytes up to length `n`.
/// This is how a piece of text is held in a record of fixed width.
pub open spec fn null_padded(text: Seq<u8>, n: nat) -> Seq<u8> {
    Seq::new(n, |i: int| if i < text.len() { text[i] } else { 0u8 })
}

/// Copies `text` into a fixed buffer of `N` bytes: what does not fit is cut
/// off, what is left over is zero.
pub fn fixed_bytes<const N: usize>(text: &[u8]) -> (out: [u8; N])
    ensures
        out@ == null_padded(text@, N as nat),
{
    let mut out = [0u8; N];
    let mut i: usize = 0;
    while i < N && i < text.len()
        invariant
            i <= N,
            i <= text.len(),
            forall|j: int| 0 <= j < i ==> out[j] == text[j],
            forall|j: int| i <= j < N ==> out[j] == 0u8,
        decreases N - i,
    {
        out[i] = text[i];
        i += 1;
    }
    assert(out@ =~= null_padded(text@, N as nat));
    out
}

/// A text that fits is recovered from its buffer: the buffer starts with it.
pub proof fn lemma_padding_keeps_prefix(text: Seq<u8>, n: nat)
    requires
        text.len() <= n,
    ensures
        null_padded(text, n).subrange(0, text.len() as int) == text,
        forall|i: int| text.len() <= i < n ==> null_padded(text, n)[i] == 0u8,
{
    assert(null_padded(text, n).subrange(0, text.len() as int) =~= text);
}

} // verus!
