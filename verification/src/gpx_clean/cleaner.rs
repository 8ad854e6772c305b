//! Cleaning of serialized GPX output: the option enums of the cleaning
//! step and the conversion of serialized bytes to plain ASCII.

use vstd::prelude::*;

verus! {

/// The encoding the cleaned output file is written in.
#[derive(Clone, Copy, Debug, PartialEq, Eq, Structural)]
pub enum EncodingOption {
    Utf8,
    Ascii,
}

/// How bytes outside the ASCII range are dealt with.
#[derive(Clone, Copy, Debug, PartialEq, Eq, Structural)]
pub enum AsciiErrorStrategy {
    /// Drops non-ASCII bytes.
    Ignore,
    /// Replaces each non-ASCII byte with a question mark.
    Replace,
}

/// Which GPX format version the cleaned file declares.
#[derive(Clone, Copy, Debug, PartialEq, Eq, Structural)]
pub enum VersionOption {
    V11,
    V10,
}

/// The question-mark byte that replaces non-ASCII bytes.
pub const REPLACEMENT_BYTE: u8 = 63;

/// Whether a byte is in the ASCII range.
pub open spec fn is_ascii_byte(c: u8) -> bool {
    c < 128
}

/// `text` with every non-ASCII byte dropped.
pub open spec fn ascii_dropped(text: Seq<u8>) -> Seq<u8> {
    text.filter(|c: u8| is_ascii_byte(c))
}

/// `text` with every non-ASCII byte replaced by a question mark.
pub open spec fn ascii_replaced(text: Seq<u8>) -> Seq<u8> {
    text.map_values(
        |c: u8|
            if is_ascii_byte(c) {
                c
            } else {
                REPLACEMENT_BYTE
            },
    )
}

proof fn lemma_filter_step(s: Seq<u8>, pred: spec_fn(u8) -> bool, i: int)
    requires
        0 <= i < s.len(),
    ensures
        s.take(i + 1).filter(pred) == if pred(s[i]) {
            s.take(i).filter(pred).push(s[i])
        } else {
            s.take(i).filter(pred)
        },
{
    reveal_with_fuel(Seq::<_>::filter, 2);
    assert(s.take(i + 1).drop_last() =~= s.take(i));
    assert(s.take(i + 1).last() == s[i]);
}

/// Restricts `text` to ASCII in place, following `strategy`: either every
/// non-ASCII byte is dropped, or every non-ASCII byte becomes a question
/// mark.
pub fn remove_non_ascii_chars(text: &mut Vec<u8>, strategy: AsciiErrorStrategy)
    ensures
        strategy == AsciiErrorStrategy::Ignore ==> final(text)@ == ascii_dropped(old(text)@),
        strategy == AsciiErrorStrategy::Replace ==> final(text)@ == ascii_replaced(old(text)@),
{
    let ghost orig = text@;
    let mut out: Vec<u8> = Vec::new();
    let mut i: usize = 0;
    let n = text.len();
    match strategy {
        AsciiErrorStrategy::Ignore => {
            proof {
                reveal_with_fuel(Seq::<_>::filter, 1);
                assert(orig.take(0) =~= Seq::<u8>::empty());
            }
            while i < n
                invariant
                    0 <= i <= n,
                    n == orig.len(),
                    text@ == orig,
                    out@ == ascii_dropped(orig.take(i as int)),
                decreases n - i,
            {
                let c = text[i];
                proof {
                    lemma_filter_step(orig, |b: u8| is_ascii_byte(b), i as int);
                }
                if c < 128 {
                    out.push(c);
                }
                i = i + 1;
            }
            proof {
                assert(orig.take(orig.len() as int) =~= orig);
            }
        },
        AsciiErrorStrategy::Replace => {
            while i < n
                invariant
                    0 <= i <= n,
                    n == orig.len(),
                    text@ == orig,
                    out@ =~= ascii_replaced(orig.take(i as int)),
                decreases n - i,
            {
                let c = text[i];
                if c < 128 {
                    out.push(c);
                } else {
                    out.push(REPLACEMENT_BYTE);
                }
                proof {
                    assert(orig.take(i + 1).drop_last() =~= orig.take(i as int));
                    assert(out@ =~= ascii_replaced(orig.take(i + 1)));
                }
                i = i + 1;
            }
            proof {
                assert(orig.take(orig.len() as int) =~= orig);
            }
        },
    }
    *text = out;
}

} // verus!
