//! Plain text helpers: comparing and trimming.
use vstd::prelude::*;

verus! {

broadcast use vstd::string::group_string_axioms;

/// The characters with the Unicode property `White_Space`.
pub open spec fn white_space(c: char) -> bool {
    let code = c as u32;
    ||| 0x09 <= code <= 0x0d
    ||| code == 0x20
    ||| code == 0x85
    ||| code == 0xa0
    ||| code == 0x1680
    ||| 0x2000 <= code <= 0x200a
    ||| code == 0x2028
    ||| code == 0x2029
    ||| code == 0x202f
    ||| code == 0x205f
    ||| code == 0x3000
}

/// `s` without the white space at its beginning.
pub open spec fn trimmed_start(s: Seq<char>) -> Seq<char>
    decreases s.len(),
{
    if s.len() > 0 && white_space(s.first()) {
        trimmed_start(s.drop_first())
    } else {
        s
    }
}

/// `s` without the white space at its end.
pub open spec fn trimmed_end(s: Seq<char>) -> Seq<char>
    decreases s.len(),
{
    if s.len() > 0 && white_space(s.last()) {
        trimmed_end(s.drop_last())
    } else {
        s
    }
}

/// `s` without the white space at its two ends.
pub open spec fn trimmed(s: Seq<char>) -> Seq<char> {
    trimmed_end(trimmed_start(s))
}

/// Tells whether a character has the Unicode property `White_Space`.
pub fn is_white_space(c: char) -> (b: bool)
    ensures
        b == white_space(c),
{
    let code: u32 = c as u32;
    (0x09 <= code && code <= 0x0d) || code == 0x20 || code == 0x85 || code == 0xa0 || code == 0x1680
        || (0x2000 <= code && code <= 0x200a) || code == 0x2028 || code == 0x2029 || code == 0x202f
        || code == 0x205f || code == 0x3000
}

/// Where the first `n` characters are white space, dropping them changes nothing for
/// [`trimmed_start`].
proof fn lemma_trimmed_start_skips(s: Seq<char>, n: int)
    requires
        0 <= n <= s.len(),
        forall|i: int| 0 <= i < n ==> white_space(s[i]),
        n < s.len() ==> !white_space(s[n]),
    ensures
        trimmed_start(s) == s.skip(n),
    decreases n,
{
    if n > 0 {
        lemma_trimmed_start_skips(s.drop_first(), n - 1);
        assert(s.drop_first().skip(n - 1) =~= s.skip(n));
    } else {
        assert(s.skip(0) =~= s);
    }
}

/// Where everything from position `n` on is white space, [`trimmed_end`] drops all of it.
proof fn lemma_trimmed_end_takes(s: Seq<char>, n: int)
    requires
        0 <= n <= s.len(),
        forall|i: int| n <= i < s.len() ==> white_space(s[i]),
        n > 0 ==> !white_space(s[n - 1]),
    ensures
        trimmed_end(s) == s.take(n),
    decreases s.len() - n,
{
    if n < s.len() {
        lemma_trimmed_end_takes(s.drop_last(), n);
        assert(s.drop_last().take(n) =~= s.take(n));
    } else {
        assert(s.take(n) =~= s);
    }
}

/// Returns `s` without leading and trailing white space.
pub fn trim<'a>(s: &'a str) -> (r: &'a str)
    ensures
        r@ == trimmed(s@),
{
    let mut chars = s.chars();
    // The number of characters read, the position of the first one that is no white space, and
    // the position behind the last one that is none.
    let mut read: usize = 0;
    let mut start: usize = 0;
    let mut end: usize = 0;
    let len: usize = s.unicode_len();
    while read < len
        invariant
            len == s@.len(),
            read <= len,
            vstd::std_specs::iter::IteratorSpec::obeys_prophetic_iter_laws(&chars),
            vstd::std_specs::iter::IteratorSpec::remaining(&chars) == s@.skip(read as int),
            start <= read,
            end <= read,
            start == read ==> end == 0,
            forall|i: int| 0 <= i < start ==> white_space(s@[i]),
            start < read ==> start < end && !white_space(s@[start as int]) && !white_space(s@[end - 1]),
            forall|i: int| end <= i < read && start < read ==> white_space(s@[i]),
        decreases len - read,
    {
        assert(s@.skip(read as int).drop_first() =~= s@.skip(read + 1));
        match chars.next() {
            Some(c) => {
                if !is_white_space(c) {
                    end = read + 1;
                } else if start == read {
                    start = read + 1;
                }
                read = read + 1;
            },
            None => {
                assert(false);
            },
        }
    }
    proof {
        lemma_trimmed_start_skips(s@, start as int);
        let rest = s@.skip(start as int);
        let kept: int = if start < len { end - start } else { 0 };
        lemma_trimmed_end_takes(rest, kept);
        assert(start < len ==> rest.take(kept) =~= s@.subrange(start as int, end as int));
        assert(start == len ==> rest.take(kept) =~= s@.subrange(0, 0));
    }
    if start < len {
        s.substring_char(start, end)
    } else {
        s.substring_char(0, 0)
    }
}

/// Trimming removes nothing but white space, and all of it: what is left is a piece of the text
/// that neither begins nor ends with white space, and everything around it is white space.
pub proof fn trimmed_is_the_core(s: Seq<char>) -> (at: int)
    ensures
        0 <= at <= at + trimmed(s).len() <= s.len(),
        trimmed(s) == s.subrange(at, at + trimmed(s).len()),
        forall|i: int| 0 <= i < at ==> white_space(s[i]),
        forall|i: int| at + trimmed(s).len() <= i < s.len() ==> white_space(s[i]),
        trimmed(s).len() > 0 ==> !white_space(trimmed(s).first()) && !white_space(trimmed(s).last()),
{
    let at = lemma_trimmed_start_shape(s);
    let mid = trimmed_start(s);
    lemma_trimmed_end_shape(mid);
    let out = trimmed(s);
    assert(out =~= s.subrange(at, at + out.len()));
    assert forall|i: int| at + out.len() <= i < s.len() implies white_space(s[i]) by {
        assert(s[i] == mid[i - at]);
    }
    if out.len() > 0 {
        assert(out.first() == mid.first());
    }
    at
}

proof fn lemma_trimmed_start_shape(s: Seq<char>) -> (at: int)
    ensures
        0 <= at <= s.len(),
        trimmed_start(s) == s.skip(at),
        forall|i: int| 0 <= i < at ==> white_space(s[i]),
        trimmed_start(s).len() > 0 ==> !white_space(trimmed_start(s).first()),
    decreases s.len(),
{
    if s.len() > 0 && white_space(s.first()) {
        let rest = s.drop_first();
        let n = lemma_trimmed_start_shape(rest);
        assert(rest.skip(n) =~= s.skip(n + 1));
        assert forall|i: int| 0 <= i < n + 1 implies white_space(s[i]) by {
            if i > 0 {
                assert(s[i] == rest[i - 1]);
            }
        }
        n + 1
    } else {
        assert(s.skip(0) =~= s);
        0
    }
}

proof fn lemma_trimmed_end_shape(s: Seq<char>)
    ensures
        trimmed_end(s).len() <= s.len(),
        trimmed_end(s) == s.take(trimmed_end(s).len() as int),
        forall|i: int| trimmed_end(s).len() <= i < s.len() ==> white_space(s[i]),
        trimmed_end(s).len() > 0 ==> !white_space(trimmed_end(s).last()),
    decreases s.len(),
{
    if s.len() > 0 && white_space(s.last()) {
        let rest = s.drop_last();
        lemma_trimmed_end_shape(rest);
        let out = trimmed_end(rest);
        assert(out =~= s.take(out.len() as int));
        assert forall|i: int| out.len() <= i < s.len() implies white_space(s[i]) by {
            if i < s.len() - 1 {
                assert(s[i] == rest[i]);
            }
        }
    } else {
        assert(s.take(s.len() as int) =~= s);
    }
}

/// Trimming text that is trimmed already changes nothing.
pub proof fn trimming_twice_is_trimming_once(s: Seq<char>)
    ensures
        trimmed(trimmed(s)) == trimmed(s),
{
    trimmed_is_the_core(s);
}

/// White space around a text makes no difference to what is left of it after trimming.
pub proof fn surrounding_white_space_is_ignored(before: Seq<char>, text: Seq<char>, after: Seq<char>)
    requires
        forall|i: int| 0 <= i < before.len() ==> white_space(before[i]),
        forall|i: int| 0 <= i < after.len() ==> white_space(after[i]),
    ensures
        trimmed(before + text + after) == trimmed(text),
{
    let whole = before + text + after;
    let at = trimmed_is_the_core(text);
    let core = trimmed(text);
    let start: int = if core.len() > 0 { before.len() + at } else { whole.len() as int };
    assert forall|i: int| 0 <= i < whole.len() && !(start <= i < start + core.len()) implies white_space(
        whole[i],
    ) by {
        if i < before.len() {
            assert(whole[i] == before[i]);
        } else if i < before.len() + text.len() {
            assert(whole[i] == text[i - before.len()]);
        } else {
            assert(whole[i] == after[i - before.len() - text.len()]);
        }
    }
    if core.len() > 0 {
        assert(whole[start] == core.first());
        assert(whole[start + core.len() - 1] == core.last());
    }
    lemma_trimmed_start_skips(whole, start);
    let rest = whole.skip(start);
    lemma_trimmed_end_takes(rest, core.len() as int);
    assert(rest.take(core.len() as int) =~= core);
}

/// Tells whether two byte strings are the same.
pub fn bytes_equal(a: &[u8], b: &[u8]) -> (r: bool)
    ensures
        r == (a@ == b@),
{
    if a.len() != b.len() {
        return false;
    }
    let mut i: usize = 0;
    while i < a.len()
        invariant
            a.len() == b.len(),
            i <= a.len(),
            a@.take(i as int) =~= b@.take(i as int),
        decreases a.len() - i,
    {
        if a[i] != b[i] {
            return false;
        }
        assert(a@.take(i + 1) =~= a@.take(i as int).push(a@[i as int]));
        assert(b@.take(i + 1) =~= b@.take(i as int).push(b@[i as int]));
        i = i + 1;
    }
    assert(a@.take(a@.len() as int) =~= a@);
    assert(b@.take(b@.len() as int) =~= b@);
    true
}

/// Tells whether two strings are the same.
pub fn text_equal(a: &str, b: &str) -> (r: bool)
    ensures
        r == (a@ == b@),
{
    proof {
        vstd::utf8::encode_utf8_decode_utf8(a@);
        vstd::utf8::encode_utf8_decode_utf8(b@);
    }
    bytes_equal(a.as_bytes(), b.as_bytes())
}

/// Two texts are found to be the same exactly if they have the same length and the same character at
/// every position.
pub proof fn same_text_means_the_same_characters(a: &str, b: &str, same: bool)
    requires
        call_ensures(text_equal, (a, b), same),
    ensures
        same <==> a@.len() == b@.len() && forall|i: int| 0 <= i < a@.len() ==> a@[i] == b@[i],
{
    if a@.len() == b@.len() && forall|i: int| 0 <= i < a@.len() ==> a@[i] == b@[i] {
        assert(a@ =~= b@);
    }
}

/// Two byte strings are found to be the same exactly if they have the same length and the same byte at
/// every position.
pub proof fn same_bytes_means_the_same_bytes(a: &[u8], b: &[u8], same: bool)
    requires
        call_ensures(bytes_equal, (a, b), same),
    ensures
        same <==> a@.len() == b@.len() && forall|i: int| 0 <= i < a@.len() ==> a@[i] == b@[i],
{
    if a@.len() == b@.len() && forall|i: int| 0 <= i < a@.len() ==> a@[i] == b@[i] {
        assert(a@ =~= b@);
    }
}

/// Trimming a text gives the piece of it from the first to the last character that is no white space.
pub proof fn trimming_leaves_the_middle(text: &str, r: &str) -> (at: int)
    requires
        call_ensures(trim, (text,), r),
    ensures
        0 <= at <= at + r@.len() <= text@.len(),
        forall|i: int| 0 <= i < r@.len() ==> r@[i] == text@[at + i],
        forall|i: int| 0 <= i < at ==> white_space(text@[i]),
        forall|i: int| at + r@.len() <= i < text@.len() ==> white_space(text@[i]),
        r@.len() > 0 ==> !white_space(r@[0]) && !white_space(r@[r@.len() - 1]),
{
    trimmed_is_the_core(text@)
}

/// White space is the tab, the line feed, the vertical tab, the form feed, the carriage return, the
/// space, the next line, the no-break space, the Ogham space mark, the spaces of the general
/// punctuation, the line and the paragraph separator, and the ideographic space; and nothing else is.
pub proof fn white_space_is_what_unicode_says(c: char, b: bool)
    requires
        call_ensures(is_white_space, (c,), b),
    ensures
        b <==> {
            ||| c == '\t'
            ||| c == '\n'
            ||| c == '\u{b}'
            ||| c == '\u{c}'
            ||| c == '\r'
            ||| c == ' '
            ||| c == '\u{85}'
            ||| c == '\u{a0}'
            ||| c == '\u{1680}'
            ||| c == '\u{2000}'
            ||| c == '\u{2001}'
            ||| c == '\u{2002}'
            ||| c == '\u{2003}'
            ||| c == '\u{2004}'
            ||| c == '\u{2005}'
            ||| c == '\u{2006}'
            ||| c == '\u{2007}'
            ||| c == '\u{2008}'
            ||| c == '\u{2009}'
            ||| c == '\u{200a}'
            ||| c == '\u{2028}'
            ||| c == '\u{2029}'
            ||| c == '\u{202f}'
            ||| c == '\u{205f}'
            ||| c == '\u{3000}'
        },
        b <==> white_space(c),
{
}

} // verus!
