//! Machine-readable error codes: finding one in a message, and keeping a
//! list of them sorted and free of duplicates.

use vstd::prelude::*;
use vstd::string::*;
use crate::analyzer::metrics::texts_of;
use crate::analyzer::text::to_chars;

verus! {

/// The characters that a code is made of after its `E_`.
pub open spec fn is_code_char(c: char) -> bool {
    ('A' <= c && c <= 'Z') || ('0' <= c && c <= '9') || c == '_'
}

/// The characters that may not stand right before a code.
pub open spec fn is_word_char(c: char) -> bool {
    is_code_char(c) || ('a' <= c && c <= 'z')
}

/// A code starts at `at`: `E_` and at least one code character, not
/// preceded by a word character.
pub open spec fn code_starts_at(s: Seq<char>, at: int) -> bool {
    &&& 0 <= at
    &&& at + 2 < s.len()
    &&& s[at] == 'E'
    &&& s[at + 1] == '_'
    &&& is_code_char(s[at + 2])
    &&& (at == 0 || !is_word_char(s[at - 1]))
}

/// Where the first code at or after `from` starts, or -1.
pub open spec fn first_code_start(s: Seq<char>, from: int) -> int
    decreases s.len() - from,
{
    if from < 0 || from >= s.len() {
        -1
    } else if code_starts_at(s, from) {
        from
    } else {
        first_code_start(s, from + 1)
    }
}

/// The end of the run of code characters that begins at `from`.
pub open spec fn code_end(s: Seq<char>, from: int) -> int
    decreases s.len() - from,
{
    if from < 0 || from >= s.len() || !is_code_char(s[from]) {
        from
    } else {
        code_end(s, from + 1)
    }
}

/// The first code in a message: `E_` and the longest run of upper-case
/// letters, digits and underscores after it.
pub open spec fn code_in(message: Seq<char>) -> Option<Seq<char>> {
    let start = first_code_start(message, 0);
    if start < 0 {
        None
    } else {
        Some(message.subrange(start, code_end(message, start + 2)))
    }
}

/// The code of a failure: the one in its message, or the fallback of the
/// operation that failed.
pub open spec fn failure_code(message: Seq<char>, fallback: Seq<char>) -> Seq<char> {
    match code_in(message) {
        Some(code) => code,
        None => fallback,
    }
}

fn is_code(c: char) -> (b: bool)
    ensures
        b == is_code_char(c),
{
    ('A' <= c && c <= 'Z') || ('0' <= c && c <= '9') || c == '_'
}

fn is_word(c: char) -> (b: bool)
    ensures
        b == is_word_char(c),
{
    is_code(c) || ('a' <= c && c <= 'z')
}

/// The first error code in `message`, if it holds one.
pub fn extract_error_code(message: &str) -> (code: Option<String>)
    ensures
        crate::analyzer::metrics::text_of(code) == code_in(message@),
{
    let chars = to_chars(message);
    let mut at: usize = 0;
    while at < chars.len()
        invariant
            at <= chars.len(),
            chars@ == message@,
            first_code_start(chars@, 0) == first_code_start(chars@, at as int),
        decreases chars.len() - at,
    {
        let starts = chars.len() - at > 2 && chars[at] == 'E' && chars[at + 1] == '_' && is_code(
            chars[at + 2],
        ) && (at == 0 || !is_word(chars[at - 1]));
        if starts {
            let mut end: usize = at + 2;
            while end < chars.len() && is_code(chars[end])
                invariant
                    at + 2 <= end <= chars.len(),
                    code_end(chars@, at + 2) == code_end(chars@, end as int),
                decreases chars.len() - end,
            {
                end = end + 1;
            }
            let code = message.substring_char(at, end).to_owned();
            return Some(code);
        }
        at = at + 1;
    }
    None
}

/// The code for a failed operation.
pub fn code_of_failure(message: &str, fallback: &str) -> (code: String)
    ensures
        code@ == failure_code(message@, fallback@),
{
    match extract_error_code(message) {
        Some(code) => code,
        None => fallback.to_owned(),
    }
}

/// `a` comes before `b`: at the first place where they differ `a` has the
/// smaller character, or `a` ends there and `b` goes on.
pub open spec fn text_less(a: Seq<char>, b: Seq<char>) -> bool
    decreases a.len(),
{
    if b.len() == 0 {
        false
    } else if a.len() == 0 {
        true
    } else if a[0] != b[0] {
        a[0] < b[0]
    } else {
        text_less(a.drop_first(), b.drop_first())
    }
}

/// Of two different texts one comes before the other, and never both ways;
/// no text comes before itself.
pub proof fn lemma_text_order_total(a: Seq<char>, b: Seq<char>)
    ensures
        a == b ==> !text_less(a, b),
        a != b ==> (text_less(a, b) <==> !text_less(b, a)),
    decreases a.len(),
{
    if a.len() > 0 && b.len() > 0 {
        if a[0] == b[0] {
            lemma_text_order_total(a.drop_first(), b.drop_first());
            if a.drop_first() == b.drop_first() {
                assert(a =~= seq![a[0]] + a.drop_first());
                assert(b =~= seq![b[0]] + b.drop_first());
            }
        }
    } else if a.len() == 0 && b.len() == 0 {
        assert(a =~= b);
    }
}

/// The order of texts is transitive.
pub proof fn lemma_text_order_transitive(a: Seq<char>, b: Seq<char>, c: Seq<char>)
    requires
        text_less(a, b),
        text_less(b, c),
    ensures
        text_less(a, c),
    decreases a.len(),
{
    if a.len() > 0 && b.len() > 0 && c.len() > 0 {
        if a[0] == b[0] && b[0] == c[0] {
            lemma_text_order_transitive(a.drop_first(), b.drop_first(), c.drop_first());
        }
    }
}

/// Each text comes before the next one.
pub open spec fn ascending(list: Seq<Seq<char>>) -> bool {
    forall|i: int| 0 <= i < list.len() - 1 ==> text_less(#[trigger] list[i], list[i + 1])
}

/// In an ascending list every text comes before all later ones, so none
/// occurs twice.
pub proof fn lemma_ascending_pairs(list: Seq<Seq<char>>, i: int, j: int)
    requires
        ascending(list),
        0 <= i < j < list.len(),
    ensures
        text_less(list[i], list[j]),
        list[i] != list[j],
    decreases j - i,
{
    if j > i + 1 {
        lemma_ascending_pairs(list, i, j - 1);
        assert(text_less(list[j - 1], list[j - 1 + 1]));
        lemma_text_order_transitive(list[i], list[j - 1], list[j]);
    } else {
        assert(text_less(list[i], list[i + 1]));
    }
    lemma_text_order_total(list[i], list[j]);
}

/// How two texts stand to each other.
#[derive(Debug, Clone, Copy, PartialEq, Eq, Structural)]
pub enum TextOrder {
    Before,
    Same,
    After,
}

/// Compares two texts character by character.
pub fn compare_texts(a: &Vec<char>, b: &Vec<char>) -> (order: TextOrder)
    ensures
        order == TextOrder::Before <==> text_less(a@, b@),
        order == TextOrder::Same <==> a@ == b@,
        order == TextOrder::After <==> text_less(b@, a@),
{
    let mut i: usize = 0;
    proof {
        lemma_text_order_total(a@, b@);
        assert(a@.skip(0) == a@);
        assert(b@.skip(0) == b@);
    }
    while i < a.len() && i < b.len()
        invariant
            i <= a.len(),
            i <= b.len(),
            a@.take(i as int) == b@.take(i as int),
            text_less(a@, b@) == text_less(a@.skip(i as int), b@.skip(i as int)),
            text_less(b@, a@) == text_less(b@.skip(i as int), a@.skip(i as int)),
        decreases a.len() - i,
    {
        if a[i] != b[i] {
            assert(a@.take(i + 1)[i as int] != b@.take(i + 1)[i as int]);
            if a[i] < b[i] {
                return TextOrder::Before;
            } else {
                return TextOrder::After;
            }
        }
        proof {
            assert(a@.skip(i as int).drop_first() == a@.skip(i + 1));
            assert(b@.skip(i as int).drop_first() == b@.skip(i + 1));
            assert(a@.take(i + 1) =~= a@.take(i as int).push(a@[i as int]));
            assert(b@.take(i + 1) =~= b@.take(i as int).push(b@[i as int]));
        }
        i = i + 1;
    }
    if i < b.len() {
        assert(a@.take(i as int) == a@);
        TextOrder::Before
    } else if i < a.len() {
        assert(b@.take(i as int) == b@);
        TextOrder::After
    } else {
        assert(a@.take(i as int) == a@);
        assert(b@.take(i as int) == b@);
        TextOrder::Same
    }
}

/// Puts `code` at its place in an ascending list, unless the list has it.
pub fn insert_code(codes: &mut Vec<String>, code: String)
    requires
        ascending(texts_of(old(codes)@)),
    ensures
        ascending(texts_of(final(codes)@)),
        forall|t: Seq<char>|
            texts_of(final(codes)@).contains(t) <==> (texts_of(old(codes)@).contains(t) || t
                == code@),
{
    let ghost before = texts_of(codes@);
    let wanted = to_chars(code.as_str());
    let mut at: usize = 0;
    let mut found_place: bool = false;
    while at < codes.len() && !found_place
        invariant
            at <= codes.len(),
            codes@ == old(codes)@,
            before == texts_of(codes@),
            ascending(before),
            wanted@ == code@,
            forall|k: int| 0 <= k < at ==> text_less(#[trigger] before[k], code@),
            found_place ==> at < codes.len() && text_less(code@, before[at as int]),
        decreases codes.len() - at + (if found_place { 0int } else { 1int }),
    {
        let here = to_chars(codes[at].as_str());
        assert(here@ == before[at as int]);
        match compare_texts(&here, &wanted) {
            TextOrder::Before => {
                at = at + 1;
            },
            TextOrder::Same => {
                assert(before.contains(code@));
                return ;
            },
            TextOrder::After => {
                found_place = true;
            },
        }
    }
    codes.insert(at, code);
    proof {
        let after = texts_of(codes@);
        assert(after =~= before.insert(at as int, code@));
        assert forall|i: int| 0 <= i < after.len() - 1 implies text_less(
            #[trigger] after[i],
            after[i + 1],
        ) by {
            if i + 1 < at {
                assert(text_less(before[i], before[i + 1]));
            } else if i + 1 == at {
            } else if i == at {
            } else {
                assert(text_less(before[i - 1], before[i - 1 + 1]));
            }
        }
        assert forall|t: Seq<char>| after.contains(t) <==> (before.contains(t) || t == code@) by {
            if after.contains(t) {
                let i = choose|i: int| 0 <= i < after.len() && after[i] == t;
                if i < at {
                    assert(before[i] == t);
                } else if i > at {
                    assert(before[i - 1] == t);
                }
            }
            if before.contains(t) {
                let i = choose|i: int| 0 <= i < before.len() && before[i] == t;
                if i < at {
                    assert(after[i] == t);
                } else {
                    assert(after[i + 1] == t);
                }
            }
            if t == code@ {
                assert(after[at as int] == t);
            }
        }
    }
}

} // verus!
