//! Keeping the access credential out of the text that is shown or logged.

use vstd::prelude::*;
use vstd::string::StrSliceExecFns;

verus! {

/// The contract of std's `String::push`, which appends the given character
/// to the end of the string.
pub assume_specification[ String::push ](text: &mut String, c: char)
    ensures
        final(text)@ == old(text)@.push(c),
;

/// `needle` stands in `text` at place `at`.
pub open spec fn occurs_at(needle: Seq<char>, text: Seq<char>, at: int) -> bool {
    0 <= at && at + needle.len() <= text.len() && text.subrange(at, at + needle.len()) == needle
}

/// `needle` stands somewhere in `text`.
pub open spec fn occurs_in(needle: Seq<char>, text: Seq<char>) -> bool {
    exists|at: int| occurs_at(needle, text, at)
}

/// `text` ends in `tail`.
pub open spec fn ends_with(text: Seq<char>, tail: Seq<char>) -> bool {
    tail.len() <= text.len() && text.subrange(text.len() - tail.len(), text.len() as int) == tail
}

/// `text` without `secret`: the characters are taken up one by one, and
/// whenever what is kept ends in `secret`, that end is dropped. An empty
/// `secret` drops nothing.
pub open spec fn scrubbed(text: Seq<char>, secret: Seq<char>) -> Seq<char>
    decreases text.len(),
{
    if text.len() == 0 {
        text
    } else {
        let kept = scrubbed(text.drop_last(), secret).push(text.last());
        if secret.len() > 0 && ends_with(kept, secret) {
            kept.take(kept.len() - secret.len())
        } else {
            kept
        }
    }
}

/// A secret that is not empty occurs nowhere in the scrubbed text.
pub proof fn lemma_scrubbed_is_clean(text: Seq<char>, secret: Seq<char>)
    requires
        secret.len() > 0,
    ensures
        !occurs_in(secret, scrubbed(text, secret)),
    decreases text.len(),
{
    let clean = scrubbed(text, secret);
    if text.len() == 0 {
        assert forall|at: int| !occurs_at(secret, clean, at) by {}
    } else {
        let before = scrubbed(text.drop_last(), secret);
        lemma_scrubbed_is_clean(text.drop_last(), secret);
        let kept = before.push(text.last());
        assert forall|at: int| !occurs_at(secret, clean, at) by {
            if occurs_at(secret, clean, at) {
                if at + secret.len() <= before.len() {
                    assert(before.subrange(at, at + secret.len()) =~= clean.subrange(
                        at,
                        at + secret.len(),
                    ));
                    assert(occurs_at(secret, before, at));
                } else {
                    assert(clean == kept);
                    assert(at + secret.len() == kept.len());
                    assert(ends_with(kept, secret));
                }
            }
        }
    }
}

/// A text in which the secret does not occur is left as it is, and so is
/// every text where the secret is empty.
pub proof fn lemma_clean_text_is_kept(text: Seq<char>, secret: Seq<char>)
    requires
        secret.len() == 0 || !occurs_in(secret, text),
    ensures
        scrubbed(text, secret) == text,
    decreases text.len(),
{
    if text.len() > 0 {
        let shorter = text.drop_last();
        if secret.len() > 0 {
            assert forall|at: int| !occurs_at(secret, shorter, at) by {
                if occurs_at(secret, shorter, at) {
                    assert(text.subrange(at, at + secret.len()) =~= shorter.subrange(
                        at,
                        at + secret.len(),
                    ));
                    assert(occurs_at(secret, text, at));
                }
            }
        }
        lemma_clean_text_is_kept(shorter, secret);
        let kept = shorter.push(text.last());
        assert(kept =~= text);
        if secret.len() > 0 && ends_with(kept, secret) {
            assert(occurs_at(secret, text, text.len() - secret.len()));
        }
    }
}

/// The characters of a text.
fn chars_of(text: &str) -> (chars: Vec<char>)
    ensures
        chars@ == text@,
{
    let len = text.unicode_len();
    let mut chars: Vec<char> = Vec::new();
    let mut i: usize = 0;
    while i < len
        invariant
            i <= len,
            len == text@.len(),
            chars@ =~= text@.take(i as int),
        decreases len - i,
    {
        chars.push(text.get_char(i));
        i += 1;
    }
    assert(text@.take(len as int) =~= text@);
    chars
}

/// Whether `kept` ends in `tail`.
fn ends_in(kept: &Vec<char>, tail: &Vec<char>) -> (found: bool)
    ensures
        found == ends_with(kept@, tail@),
{
    if tail.len() > kept.len() {
        return false;
    }
    let start = kept.len() - tail.len();
    let ghost end = kept@.subrange(start as int, kept@.len() as int);
    let mut j: usize = 0;
    while j < tail.len()
        invariant
            j <= tail.len(),
            start + tail.len() == kept.len(),
            end == kept@.subrange(start as int, kept@.len() as int),
            forall|k: int| 0 <= k < j ==> end[k] == tail@[k],
        decreases tail.len() - j,
    {
        if kept[start + j] != tail[j] {
            assert(end[j as int] != tail@[j as int]);
            return false;
        }
        j += 1;
    }
    assert(end =~= tail@);
    true
}

/// Removes `secret` from `text`, so that it can be shown or logged.
pub fn scrub(text: &str, secret: &str) -> (clean: String)
    ensures
        clean@ == scrubbed(text@, secret@),
        secret@.len() > 0 ==> !occurs_in(secret@, clean@),
{
    proof {
        if secret@.len() > 0 {
            lemma_scrubbed_is_clean(text@, secret@);
        }
    }
    let source = chars_of(text);
    let hidden = chars_of(secret);
    let mut kept: Vec<char> = Vec::new();
    let mut i: usize = 0;
    assert(source@.take(0) =~= Seq::<char>::empty());
    while i < source.len()
        invariant
            i <= source.len(),
            kept@ == scrubbed(source@.take(i as int), hidden@),
        decreases source.len() - i,
    {
        proof {
            let next = source@.take(i as int + 1);
            assert(next.drop_last() =~= source@.take(i as int));
            assert(next.last() == source@[i as int]);
        }
        kept.push(source[i]);
        if hidden.len() > 0 && ends_in(&kept, &hidden) {
            kept.truncate(kept.len() - hidden.len());
        }
        i += 1;
    }
    assert(source@.take(i as int) =~= source@);
    let mut clean = String::new();
    let mut j: usize = 0;
    while j < kept.len()
        invariant
            j <= kept.len(),
            clean@ =~= kept@.take(j as int),
        decreases kept.len() - j,
    {
        clean.push(kept[j]);
        j += 1;
    }
    assert(kept@.take(j as int) =~= kept@);
    clean
}

} // verus!
