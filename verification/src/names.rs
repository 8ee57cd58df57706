//! Identity names: words joined by underscores.

use vstd::prelude::*;
use vstd::string::StrSliceExecFns;
use vstd::string::StringExecFns;

verus! {

/// Whether `c` is white space: a blank, a tab, a line break or one of the
/// other characters that Unicode lists as white space.
pub open spec fn is_whitespace(c: char) -> bool {
    let code = c as u32;
    ||| 0x09 <= code <= 0x0d
    ||| code == 0x20
    ||| code == 0x85
    ||| code == 0xa0
    ||| code == 0x1680
    ||| 0x2000 <= code <= 0x200a
    ||| code == 0x2028
    ||| code == 0x2029
    ||| code == 0x202f
    ||| code == 0x205f
    ||| code == 0x3000
}

/// Decides [`is_whitespace`].
pub fn is_space(c: char) -> (b: bool)
    ensures
        b == is_whitespace(c),
{
    let code: u32 = c as u32;
    (0x09 <= code && code <= 0x0d) || code == 0x20 || code == 0x85 || code == 0xa0 || code
        == 0x1680 || (0x2000 <= code && code <= 0x200a) || code == 0x2028 || code == 0x2029
        || code == 0x202f || code == 0x205f || code == 0x3000
}

/// The words of `s` with one underscore between each word and the next.
///
/// A word is a longest run of characters that are not white space. White
/// space in front of the first word and behind the last leaves no trace, and a
/// run of white space between two words becomes a single underscore.
pub open spec fn joined_words(s: Seq<char>) -> Seq<char>
    decreases s.len(),
{
    if s.len() == 0 {
        Seq::empty()
    } else {
        let before = joined_words(s.drop_last());
        let c = s.last();
        if is_whitespace(c) {
            before
        } else if before.len() > 0 && is_whitespace(s[s.len() - 2]) {
            before + seq!['_', c]
        } else {
            before.push(c)
        }
    }
}

/// Joined words hold no white space.
pub proof fn lemma_joined_words_no_whitespace(s: Seq<char>)
    ensures
        forall|i: int|
            0 <= i < joined_words(s).len() ==> !is_whitespace(#[trigger] joined_words(s)[i]),
    decreases s.len(),
{
    if s.len() > 0 {
        lemma_joined_words_no_whitespace(s.drop_last());
        let before = joined_words(s.drop_last());
        let joined = joined_words(s);
        assert(!is_whitespace('_'));
        assert forall|i: int| 0 <= i < joined.len() implies !is_whitespace(#[trigger] joined[i]) by {
            if i < before.len() {
                assert(joined[i] == before[i]);
            }
        }
    }
}

/// A text without white space is its own only word.
pub proof fn lemma_joined_words_of_word(s: Seq<char>)
    requires
        forall|i: int| 0 <= i < s.len() ==> !is_whitespace(#[trigger] s[i]),
    ensures
        joined_words(s) == s,
    decreases s.len(),
{
    if s.len() > 0 {
        lemma_joined_words_of_word(s.drop_last());
        assert(s.drop_last().push(s.last()) =~= s);
    }
}

/// Joined words are empty only where the text holds nothing but white space.
pub proof fn lemma_joined_words_empty(s: Seq<char>)
    ensures
        joined_words(s).len() == 0 <==> forall|i: int|
            0 <= i < s.len() ==> is_whitespace(#[trigger] s[i]),
    decreases s.len(),
{
    if s.len() > 0 {
        lemma_joined_words_empty(s.drop_last());
        let front = s.drop_last();
        if is_whitespace(s.last()) {
            if joined_words(s).len() == 0 {
                assert forall|i: int| 0 <= i < s.len() implies is_whitespace(#[trigger] s[i]) by {
                    if i < s.len() - 1 {
                        assert(s[i] == front[i]);
                    }
                }
            } else {
                let i = choose|i: int| 0 <= i < front.len() && !is_whitespace(#[trigger] front[i]);
                assert(!is_whitespace(s[i]));
            }
        } else {
            assert(!is_whitespace(s[s.len() - 1]));
        }
    }
}

/// Returns the words of `s` joined by underscores.
pub fn join_words(s: &str) -> (out: String)
    ensures
        out@ == joined_words(s@),
{
    let n = s.unicode_len();
    let mut out = String::new();
    let mut i: usize = 0;
    proof {
        reveal_strlit("_");
        assert(s@.subrange(0, 0) =~= Seq::<char>::empty());
    }
    while i < n
        invariant
            i <= n,
            n == s@.len(),
            out@ == joined_words(s@.subrange(0, i as int)),
            "_"@ == seq!['_'],
        decreases n - i,
    {
        let c = s.get_char(i);
        let ghost upto = s@.subrange(0, i + 1);
        proof {
            assert(upto.drop_last() =~= s@.subrange(0, i as int));
            assert(upto.last() == c);
        }
        if !is_space(c) {
            if !out.as_str().is_empty() && is_space(s.get_char(i - 1)) {
                out.append("_");
            }
            out.append(s.substring_char(i, i + 1));
            proof {
                assert(s@.subrange(i as int, i + 1) =~= seq![c]);
                if i > 0 {
                    assert(upto[upto.len() - 2] == s@[i - 1]);
                }
                assert(out@ =~= joined_words(upto));
            }
        }
        i = i + 1;
    }
    assert(s@.subrange(0, n as int) =~= s@);
    out
}

} // verus!
