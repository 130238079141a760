//! Memo wrapping: a memo cut into fixed-width lines and closed by a separator.
use vstd::prelude::*;
use crate::text::{chars_of, string_of, push_range};

verus! {

/// The separator that closes every wrapped memo.
pub open spec fn memo_separator() -> Seq<char> {
    seq![';', ' ', '\n']
}

/// `m` cut into chunks of `width` characters; every full chunk is followed by a newline,
/// a shorter last chunk is not.
pub open spec fn wrap_chunks(m: Seq<char>, width: nat) -> Seq<char>
    decreases m.len(),
{
    if width == 0 || m.len() < width {
        m
    } else {
        m.take(width as int) + seq!['\n'] + wrap_chunks(m.skip(width as int), width)
    }
}

/// A memo as it stands in a report cell: wrapped at `width`, then the separator.
pub open spec fn wrap_memo(m: Seq<char>, width: nat) -> Seq<char> {
    wrap_chunks(m, width) + memo_separator()
}

/// Wraps a memo for a report cell: each full chunk of `char_width` characters is followed
/// by a newline, and the separator "; \\n" closes the text.
/// Chunks are cut on character boundaries, so text outside ASCII is never split inside a character.
pub fn format_memo(entry_memo: String, char_width: usize) -> (r: String)
    requires
        char_width > 0,
    ensures
        r@ == wrap_memo(entry_memo@, char_width as nat),
{
    let chars = chars_of(entry_memo.as_str());
    let n = chars.len();
    let w = char_width;
    let mut out: Vec<char> = Vec::new();
    let mut i: usize = 0;
    assert(chars@.skip(0) =~= chars@);
    assert(out@ + wrap_chunks(chars@, w as nat) =~= wrap_chunks(chars@, w as nat));
    while n - i >= w
        invariant
            n == chars@.len(),
            w > 0,
            0 <= i <= n,
            out@ + wrap_chunks(chars@.skip(i as int), w as nat) == wrap_chunks(chars@, w as nat),
        decreases n - i,
    {
        let ghost rest = chars@.skip(i as int);
        assert(rest.take(w as int) =~= chars@.subrange(i as int, i + w));
        assert(rest.skip(w as int) =~= chars@.skip(i + w));
        push_range(&mut out, &chars, i, i + w);
        out.push('\n');
        i = i + w;
        assert(out@ + wrap_chunks(chars@.skip(i as int), w as nat) =~= wrap_chunks(
            chars@,
            w as nat,
        ));
    }
    assert(chars@.skip(i as int) =~= chars@.subrange(i as int, n as int));
    push_range(&mut out, &chars, i, n);
    out.push(';');
    out.push(' ');
    out.push('\n');
    assert(out@ =~= wrap_memo(entry_memo@, w as nat));
    string_of(&out)
}

/// A memo of exactly `width` characters is one full chunk, a newline, then the separator.
pub proof fn lemma_full_width_memo(m: Seq<char>, width: nat)
    requires
        width > 0,
        m.len() == width,
    ensures
        wrap_memo(m, width) == m + seq!['\n'] + memo_separator(),
{
    assert(m.take(width as int) =~= m);
    assert(wrap_chunks(m.skip(width as int), width) =~= Seq::<char>::empty());
    assert(wrap_memo(m, width) =~= m + seq!['\n'] + memo_separator());
}

} // verus!
