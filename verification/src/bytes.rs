//! Whitespace tokenization of raw bytes.
//!
//! Both external text formats of the tool are whitespace-delimited: the
//! supervisor's one-line handshake and the persisted session file.  This
//! module defines the token sequence of a byte string, an executable
//! tokenizer proved against it, and the lemmas that reconstruct the token
//! sequence of text assembled from tokens and separators.

use vstd::prelude::*;

verus! {

/// An ASCII whitespace byte: space, newline, carriage return or tab.
pub open spec fn is_ws(b: u8) -> bool {
    b == 32 || b == 10 || b == 13 || b == 9
}

/// No byte of `t` is whitespace.
pub open spec fn ws_free(t: Seq<u8>) -> bool {
    forall|i: int| 0 <= i < t.len() ==> !is_ws(t[i])
}

/// The maximal whitespace-free runs of `s`, in order.  Defined from the
/// right: a whitespace byte closes the current run, a non-whitespace byte
/// opens a new token after whitespace (or at the start) and otherwise
/// extends the last token.
pub open spec fn tokens_of(s: Seq<u8>) -> Seq<Seq<u8>>
    decreases s.len(),
{
    if s.len() == 0 {
        Seq::empty()
    } else {
        let prev = tokens_of(s.drop_last());
        let b = s.last();
        if is_ws(b) {
            prev
        } else if s.len() == 1 || is_ws(s[s.len() - 2]) {
            prev.push(seq![b])
        } else {
            prev.update(prev.len() - 1, prev.last().push(b))
        }
    }
}

/// When text ends in a non-whitespace byte there is a current token.
pub proof fn lemma_tokens_last_nonws(s: Seq<u8>)
    requires
        s.len() > 0,
        !is_ws(s.last()),
    ensures
        tokens_of(s).len() > 0,
        tokens_of(s).last().len() > 0,
    decreases s.len(),
{
    if s.len() > 1 && !is_ws(s[s.len() - 2]) {
        lemma_tokens_last_nonws(s.drop_last());
    }
}

/// Trailing whitespace adds no token.
pub proof fn lemma_tokens_append_ws(s: Seq<u8>, w: u8)
    requires
        is_ws(w),
    ensures
        tokens_of(s.push(w)) == tokens_of(s),
{
    assert(s.push(w).drop_last() =~= s);
}

/// Appending a non-empty whitespace-free token to text that is empty or
/// ends in whitespace appends exactly that token.
pub proof fn lemma_tokens_append_token(s: Seq<u8>, t: Seq<u8>)
    requires
        t.len() > 0,
        ws_free(t),
        s.len() == 0 || is_ws(s.last()),
    ensures
        tokens_of(s + t) == tokens_of(s).push(t),
    decreases t.len(),
{
    let st = s + t;
    let b = t.last();
    assert(!is_ws(b));
    if t.len() == 1 {
        assert(st.drop_last() =~= s);
        assert(st.last() == b);
        if s.len() == 0 {
            assert(st.len() == 1);
            assert(seq![b] =~= t);
        } else {
            assert(st[st.len() - 2] == s.last());
            assert(seq![b] =~= t);
        }
    } else {
        let t0 = t.drop_last();
        assert(ws_free(t0));
        lemma_tokens_append_token(s, t0);
        lemma_tokens_last_nonws(s + t0);
        assert(st.drop_last() =~= s + t0);
        assert(st[st.len() - 2] == t0.last());
        assert(!is_ws(t0.last()));
        let prev = tokens_of(s + t0);
        assert(prev == tokens_of(s).push(t0));
        assert(prev.last() == t0);
        assert(tokens_of(st) == prev.update(prev.len() - 1, t0.push(b)));
        assert(t0.push(b) =~= t);
        assert(prev.update(prev.len() - 1, t) =~= tokens_of(s).push(t));
    }
}

/// One writing step of a token followed by a single whitespace separator:
/// the token sequence grows by that token, and the text again ends in
/// whitespace.
pub proof fn lemma_tokens_step(s: Seq<u8>, t: Seq<u8>, w: u8)
    requires
        t.len() > 0,
        ws_free(t),
        is_ws(w),
        s.len() == 0 || is_ws(s.last()),
    ensures
        tokens_of(s + t + seq![w]) == tokens_of(s).push(t),
        (s + t + seq![w]).len() > 0,
        is_ws((s + t + seq![w]).last()),
{
    lemma_tokens_append_token(s, t);
    lemma_tokens_append_ws(s + t, w);
    assert(s + t + seq![w] =~= (s + t).push(w));
}

/// Tokenize a byte string, exactly as [`tokens_of`] describes.
pub fn tokenize(s: &Vec<u8>) -> (r: Vec<Vec<u8>>)
    ensures
        r.deep_view() == tokens_of(s@),
{
    let mut out: Vec<Vec<u8>> = Vec::new();
    let mut i: usize = 0;
    while i < s.len()
        invariant
            i <= s@.len(),
            out.deep_view() == tokens_of(s@.take(i as int)),
        decreases s@.len() - i,
    {
        let b: u8 = s[i];
        let ghost pre = s@.take(i as int);
        let ghost pre1 = s@.take(i + 1);
        proof {
            assert(pre1.drop_last() =~= pre);
            assert(pre1.last() == s@[i as int]);
        }
        if b == 32 || b == 10 || b == 13 || b == 9 {
            // a whitespace byte closes any current token
            proof {
                assert(tokens_of(pre1) == tokens_of(pre));
            }
        } else if i == 0 || {
            let p: u8 = s[i - 1];
            p == 32 || p == 10 || p == 13 || p == 9
        } {
            // a token starts here
            let mut t: Vec<u8> = Vec::new();
            t.push(b);
            out.push(t);
            proof {
                assert(pre1.len() == 1 || is_ws(pre1[pre1.len() - 2]));
                assert(tokens_of(pre1) == tokens_of(pre).push(seq![b]));
                assert(t@ =~= seq![b]);
                assert(out.deep_view() =~~= tokens_of(pre).push(seq![b]));
            }
        } else {
            // the current token continues
            proof {
                assert(pre.len() > 0 && !is_ws(pre.last()));
                lemma_tokens_last_nonws(pre);
            }
            let mut t: Vec<u8> = match out.pop() {
                Some(t) => t,
                None => Vec::new(),
            };
            t.push(b);
            out.push(t);
            proof {
                let prev = tokens_of(pre);
                assert(pre1.len() >= 2 && !is_ws(pre1[pre1.len() - 2]));
                assert(out.deep_view() =~~= prev.update(prev.len() - 1, prev.last().push(b)));
                assert(tokens_of(pre1) == prev.update(prev.len() - 1, prev.last().push(b)));
            }
        }
        i = i + 1;
    }
    proof {
        assert(s@.take(i as int) =~= s@);
    }
    out
}

/// Byte-for-byte equality of two byte vectors.
pub fn bytes_eq(a: &Vec<u8>, b: &Vec<u8>) -> (r: bool)
    ensures
        r == (a@ == b@),
{
    if a.len() != b.len() {
        return false;
    }
    let mut i: usize = 0;
    while i < a.len()
        invariant
            a@.len() == b@.len(),
            i <= a@.len(),
            forall|j: int| 0 <= j < i ==> a@[j] == b@[j],
        decreases a@.len() - i,
    {
        if a[i] != b[i] {
            return false;
        }
        i = i + 1;
    }
    proof {
        assert(a@ =~= b@);
    }
    true
}

} // verus!
