//! The text transformation: every character whose default presentation is an
//! emoji is removed, every other character is kept in order.
use vstd::prelude::*;
use vstd::utf8::encode_utf8;

verus! {

/// Whether `c` has the Unicode property `Emoji_Presentation`, as the regex
/// crate's Unicode tables classify it.
pub uninterp spec fn emoji_presentation(c: char) -> bool;

/// A character that the transformation keeps.
pub open spec fn is_kept(c: char) -> bool {
    !emoji_presentation(c)
}

/// The text `s` with every emoji-presentation character removed.
pub open spec fn stripped(s: Seq<char>) -> Seq<char> {
    s.filter(|c: char| is_kept(c))
}

/// The number of bytes of the UTF-8 encoding of `s`.
pub open spec fn byte_len(s: Seq<char>) -> nat {
    encode_utf8(s).len()
}

/// `a` is `b` with some characters left out: the positions `idx` in `b` of
/// the characters of `a` are strictly increasing.
pub open spec fn subsequence_at(a: Seq<char>, b: Seq<char>, idx: Seq<int>) -> bool {
    &&& idx.len() == a.len()
    &&& forall|k: int| 0 <= k < idx.len() ==> 0 <= #[trigger] idx[k] < b.len() && b[idx[k]] == a[k]
    &&& forall|k: int, l: int| 0 <= k < l < idx.len() ==> idx[k] < idx[l]
}

/// `a` is a subsequence of `b`.
pub open spec fn is_subsequence(a: Seq<char>, b: Seq<char>) -> bool {
    exists|idx: Seq<int>| subsequence_at(a, b, idx)
}

proof fn stripped_step(s: Seq<char>)
    requires
        s.len() > 0,
    ensures
        stripped(s) == if is_kept(s.last()) {
            stripped(s.drop_last()).push(s.last())
        } else {
            stripped(s.drop_last())
        },
{
    reveal(Seq::filter);
}

proof fn positions_of_kept(s: Seq<char>) -> (idx: Seq<int>)
    ensures
        subsequence_at(stripped(s), s, idx),
        forall|k: int| 0 <= k < idx.len() ==> #[trigger] idx[k] < s.len(),
    decreases s.len(),
{
    reveal(Seq::filter);
    if s.len() == 0 {
        Seq::empty()
    } else {
        let d = s.drop_last();
        let prev = positions_of_kept(d);
        stripped_step(s);
        if is_kept(s.last()) {
            let idx = prev.push(s.len() - 1);
            assert forall|k: int| 0 <= k < idx.len() implies 0 <= #[trigger] idx[k] < s.len()
                && s[idx[k]] == stripped(s)[k] by {
                if k < prev.len() {
                    assert(idx[k] == prev[k]);
                }
            }
            idx
        } else {
            prev
        }
    }
}

/// Every character of the output occurs in the input, in the same relative
/// order: nothing is added, duplicated or reordered.
pub proof fn lemma_stripped_is_subsequence(s: Seq<char>)
    ensures
        is_subsequence(stripped(s), s),
{
    let idx = positions_of_kept(s);
    assert(subsequence_at(stripped(s), s, idx));
}

/// Text that holds no emoji-presentation character is left as it is.
pub proof fn lemma_no_emoji_unchanged(s: Seq<char>)
    requires
        forall|i: int| 0 <= i < s.len() ==> !emoji_presentation(#[trigger] s[i]),
    ensures
        stripped(s) == s,
    decreases s.len(),
{
    if s.len() > 0 {
        let d = s.drop_last();
        assert forall|i: int| 0 <= i < d.len() implies !emoji_presentation(#[trigger] d[i]) by {
            assert(d[i] == s[i]);
        }
        lemma_no_emoji_unchanged(d);
        stripped_step(s);
        assert(d.push(s.last()) == s);
    }
}

/// Removing emoji a second time changes nothing.
pub proof fn lemma_strip_idempotent(s: Seq<char>)
    ensures
        stripped(stripped(s)) == stripped(s),
{
    let t = stripped(s);
    assert forall|i: int| 0 <= i < t.len() implies !emoji_presentation(#[trigger] t[i]) by {
        s.lemma_filter_pred(|c: char| is_kept(c), i);
    }
    lemma_no_emoji_unchanged(t);
}

proof fn lemma_encode_concat(a: Seq<char>, b: Seq<char>)
    ensures
        encode_utf8(a + b) == encode_utf8(a) + encode_utf8(b),
    decreases a.len(),
{
    if a.len() == 0 {
        assert(a + b == b);
    } else {
        lemma_encode_concat(a.drop_first(), b);
        assert((a + b).drop_first() == a.drop_first() + b);
        assert((a + b)[0] == a[0]);
    }
}

/// The output never takes more bytes than the input.
pub proof fn lemma_strip_byte_len(s: Seq<char>)
    ensures
        byte_len(stripped(s)) <= byte_len(s),
    decreases s.len(),
{
    if s.len() > 0 {
        let d = s.drop_last();
        let x = seq![s.last()];
        lemma_strip_byte_len(d);
        stripped_step(s);
        assert(d + x == s);
        lemma_encode_concat(d, x);
        if is_kept(s.last()) {
            assert(stripped(d) + x == stripped(d).push(s.last()));
            lemma_encode_concat(stripped(d), x);
        }
    }
}

#[verifier::external_type_specification]
#[verifier::external_body]
pub struct ExRegex(regex::Regex);

/// The classification of characters into removable (emoji) and kept ones.
pub(crate) struct EmojiRule {
    pattern: regex::Regex,
}

impl EmojiRule {
    /// Relies on regex::Regex::new: the pattern `\p{Emoji_Presentation}` is
    /// valid and small, so compiling it succeeds and the unwrap never panics.
    #[verifier::external_body]
    pub(crate) fn new() -> (r: EmojiRule) {
        EmojiRule { pattern: regex::Regex::new(r"\p{Emoji_Presentation}").unwrap() }
    }

    /// Relies on regex::Regex::is_match on the one-character text `c`: the
    /// pattern held is always the class `\p{Emoji_Presentation}` (`new` is the
    /// only constructor), which matches exactly one character of that class.
    #[verifier::external_body]
    pub(crate) fn is_removable(&self, c: char) -> (r: bool)
        ensures
            r == emoji_presentation(c),
    {
        let mut buf = [0u8; 4];
        self.pattern.is_match(c.encode_utf8(&mut buf))
    }
}

/// Relies on String::push: appends `c` at the end.
#[verifier::external_body]
fn push_char(s: &mut String, c: char)
    ensures
        final(s)@ == old(s)@.push(c),
{
    s.push(c)
}

/// Removes every character that `rule` classifies as emoji.
pub(crate) fn strip_with(rule: &EmojiRule, content: &str) -> (r: String)
    ensures
        r@ == stripped(content@),
{
    broadcast use vstd::string::group_string_axioms;
    let mut out = String::new();
    for c in it: content.chars()
        invariant
            it.seq() == content@,
            out@ == stripped(content@.take(it.index() as int)),
    {
        let ghost i = it.index() as int;
        proof {
            reveal(Seq::filter);
            assert(c == content@[i]);
            assert(content@.take(i + 1).drop_last() == content@.take(i));
            assert(content@.take(i + 1).last() == c);
        }
        if !rule.is_removable(c) {
            push_char(&mut out, c);
        }
    }
    proof {
        assert(content@.take(content@.len() as int) == content@);
    }
    out
}

/// The text `content` with every emoji-presentation character removed.
pub fn remove_emojis(content: &str) -> (r: String)
    ensures
        r@ == stripped(content@),
        byte_len(r@) <= byte_len(content@),
        r@.len() <= content@.len(),
{
    proof {
        lemma_strip_byte_len(content@);
        content@.lemma_filter_len(|c: char| is_kept(c));
    }
    let rule = EmojiRule::new();
    strip_with(&rule, content)
}

} // verus!
