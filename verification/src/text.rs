//! Text as a sequence of characters: the few operations the library needs
//! on top of what `String` offers to verified code.

use vstd::prelude::*;

verus! {

/// `String::push`: appends one character.
pub assume_specification[ String::push ](s: &mut String, ch: char)
    ensures
        final(s)@ == old(s)@.push(ch),
;

/// Whether `c` is white space, as Unicode's `White_Space` property has it:
/// the controls from tab to carriage return, the space, next line, the
/// no-break space, the Ogham space mark, the spaces from en quad to hair
/// space, the line and the paragraph separator, the narrow no-break
/// space, the medium mathematical space and the ideographic space.
pub open spec fn is_whitespace(c: char) -> bool {
    let code = c as u32;
    ||| 0x09 <= code <= 0x0D
    ||| code == 0x20
    ||| code == 0x85
    ||| code == 0xA0
    ||| code == 0x1680
    ||| 0x2000 <= code <= 0x200A
    ||| code == 0x2028
    ||| code == 0x2029
    ||| code == 0x202F
    ||| code == 0x205F
    ||| code == 0x3000
}

/// Whether `c` is white space.
pub fn is_white_space(c: char) -> (b: bool)
    ensures
        b == is_whitespace(c),
{
    let code = c as u32;
    (0x09 <= code && code <= 0x0D) || code == 0x20 || code == 0x85 || code == 0xA0 || code
        == 0x1680 || (0x2000 <= code && code <= 0x200A) || code == 0x2028 || code == 0x2029
        || code == 0x202F || code == 0x205F || code == 0x3000
}

/// `text` without the white space that it starts with.
pub open spec fn trim_start_of(text: Seq<char>) -> Seq<char>
    decreases text.len(),
{
    if text.len() > 0 && is_whitespace(text[0]) {
        trim_start_of(text.skip(1))
    } else {
        text
    }
}

/// The characters of `s`, one by one.
pub fn chars_of(s: &str) -> (chars: Vec<char>)
    ensures
        chars@ == s@,
{
    let mut chars: Vec<char> = Vec::new();
    for c in it: s.chars()
        invariant
            it.seq() == s@,
            chars@ == s@.take(it.index()),
    {
        chars.push(c);
    }
    chars
}

/// The text made of `chars[from..to]`.
pub fn text_of(chars: &Vec<char>, from: usize, to: usize) -> (s: String)
    requires
        from <= to <= chars.len(),
    ensures
        s@ == chars@.subrange(from as int, to as int),
{
    let mut s = String::new();
    let mut i: usize = from;
    while i < to
        invariant
            from <= i <= to <= chars.len(),
            s@ == chars@.subrange(from as int, i as int),
        decreases to - i,
    {
        s.push(chars[i]);
        i += 1;
    }
    s
}

/// `line` without the white space that it starts with.
pub fn trimmed_start(line: &str) -> (s: String)
    ensures
        s@ == trim_start_of(line@),
{
    let chars = chars_of(line);
    let mut k: usize = 0;
    proof {
        assert(line@.skip(0) == line@);
    }
    while k < chars.len() && is_white_space(chars[k])
        invariant
            chars@ == line@,
            k <= chars.len(),
            trim_start_of(line@) == trim_start_of(line@.skip(k as int)),
        decreases chars.len() - k,
    {
        proof {
            assert(line@.skip(k as int).skip(1) == line@.skip(k + 1));
        }
        k += 1;
    }
    proof {
        assert(line@.skip(k as int) == line@.subrange(k as int, line@.len() as int));
    }
    text_of(&chars, k, chars.len())
}

/// Whether `text` ends in `suffix`.
pub open spec fn ends_with(text: Seq<char>, suffix: Seq<char>) -> bool {
    suffix.len() <= text.len() && text.skip(text.len() - suffix.len()) == suffix
}

/// What follows the last `mark` in `text`; all of `text` where it holds no
/// `mark`.
pub open spec fn after_last(text: Seq<char>, mark: char) -> Seq<char>
    decreases text.len(),
{
    if text.len() == 0 {
        text
    } else if text.last() == mark {
        Seq::empty()
    } else {
        after_last(text.drop_last(), mark).push(text.last())
    }
}

/// Whether `chars` end in `suffix`.
pub fn has_suffix(chars: &Vec<char>, suffix: &str) -> (b: bool)
    ensures
        b == ends_with(chars@, suffix@),
{
    let tail = chars_of(suffix);
    if tail.len() > chars.len() {
        return false;
    }
    let start = chars.len() - tail.len();
    let mut i: usize = 0;
    while i < tail.len()
        invariant
            tail@ == suffix@,
            tail.len() <= chars.len(),
            start == chars.len() - tail.len(),
            i <= tail.len(),
            forall|j: int| 0 <= j < i ==> chars@[start + j] == tail@[j],
        decreases tail.len() - i,
    {
        if chars[start + i] != tail[i] {
            assert(chars@.skip(start as int)[i as int] != suffix@[i as int]);
            return false;
        }
        i += 1;
    }
    assert(chars@.skip(start as int) =~= suffix@);
    true
}

/// What follows the last `mark` in `chars`, as a text.
pub fn text_after_last(chars: &Vec<char>, mark: char) -> (s: String)
    ensures
        s@ == after_last(chars@, mark),
{
    let mut k: usize = chars.len();
    proof {
        assert(chars@.take(k as int) == chars@);
        assert(after_last(chars@, mark) + chars@.subrange(k as int, chars@.len() as int)
            == after_last(chars@, mark));
    }
    while k > 0 && chars[k - 1] != mark
        invariant
            k <= chars.len(),
            after_last(chars@, mark) == after_last(chars@.take(k as int), mark) + chars@.subrange(
                k as int,
                chars@.len() as int,
            ),
        decreases k,
    {
        proof {
            let head = chars@.take(k as int);
            assert(head.drop_last() == chars@.take(k - 1));
            assert(after_last(head, mark) == after_last(chars@.take(k - 1), mark).push(
                chars@[k - 1],
            ));
            assert(after_last(chars@.take(k - 1), mark).push(chars@[k - 1]) + chars@.subrange(
                k as int,
                chars@.len() as int,
            ) == after_last(chars@.take(k - 1), mark) + chars@.subrange(
                k - 1,
                chars@.len() as int,
            ));
        }
        k -= 1;
    }
    proof {
        let head = chars@.take(k as int);
        assert(after_last(head, mark) == Seq::<char>::empty());
        assert(Seq::<char>::empty() + chars@.subrange(k as int, chars@.len() as int)
            == chars@.subrange(k as int, chars@.len() as int));
    }
    text_of(chars, k, chars.len())
}

} // verus!
