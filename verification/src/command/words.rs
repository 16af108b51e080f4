//! Cutting a line of input into its command name and its arguments.

use vstd::prelude::*;
use vstd::string::{StrSliceExecFns, StringExecFns};

verus! {

/// Whether a character is white space: the characters with the Unicode
/// property `White_Space`.
pub open spec fn is_whitespace(c: char) -> bool {
    let u = c as u32;
    (0x09 <= u <= 0x0d) || u == 0x20 || u == 0x85 || u == 0xa0 || u == 0x1680 || (0x2000 <= u
        <= 0x200a) || u == 0x2028 || u == 0x2029 || u == 0x202f || u == 0x205f || u == 0x3000
}

/// `s` without the white space it begins with.
pub open spec fn trim_start(s: Seq<char>) -> Seq<char>
    decreases s.len(),
{
    if s.len() > 0 && is_whitespace(s[0]) {
        trim_start(s.drop_first())
    } else {
        s
    }
}

/// `s` without the white space it ends with.
pub open spec fn trim_end(s: Seq<char>) -> Seq<char>
    decreases s.len(),
{
    if s.len() > 0 && is_whitespace(s.last()) {
        trim_end(s.drop_last())
    } else {
        s
    }
}

/// `s` without the white space around it.
pub open spec fn trim(s: Seq<char>) -> Seq<char> {
    trim_end(trim_start(s))
}

/// The words of `s`, read from a state of the scan: whether a quotation is
/// open, and the part of the current word already read.
///
/// A double quote opens or closes a quotation and belongs to no word. A
/// space outside a quotation ends the current word. Every other character,
/// and a space inside a quotation, joins the current word.
pub open spec fn words_from(s: Seq<char>, quoted: bool, word: Seq<char>) -> Seq<Seq<char>>
    decreases s.len(),
{
    if s.len() == 0 {
        seq![word]
    } else if s[0] == '"' {
        words_from(s.drop_first(), !quoted, word)
    } else if s[0] == ' ' && !quoted {
        seq![word] + words_from(s.drop_first(), false, Seq::empty())
    } else {
        words_from(s.drop_first(), quoted, word.push(s[0]))
    }
}

/// The words of a text: its parts between single spaces, where double
/// quotes keep a part with spaces together and belong to no word.
///
/// There is always at least one word; two spaces in a row enclose an empty
/// one.
pub open spec fn words(s: Seq<char>) -> Seq<Seq<char>> {
    words_from(s, false, Seq::empty())
}

/// The place of the first space of `s`; the length of `s` where it has
/// none.
pub open spec fn first_space(s: Seq<char>) -> nat
    decreases s.len(),
{
    if s.len() == 0 || s[0] == ' ' {
        0
    } else {
        1 + first_space(s.drop_first())
    }
}

/// The command name of a line: the line up to its first space, as typed. A
/// double quote is a character like any other here.
pub open spec fn command_name(line: Seq<char>) -> Seq<char> {
    line.take(first_space(line) as int)
}

/// The arguments of a line: the words of what follows its first space; none
/// where the line has no space. Quotation is for the arguments alone.
pub open spec fn arguments(line: Seq<char>) -> Seq<Seq<char>> {
    if first_space(line) < line.len() {
        words(line.skip(first_space(line) as int + 1))
    } else {
        Seq::empty()
    }
}

/// The first space of a line lies within the line or at its end, and no
/// space comes before it.
pub proof fn lemma_first_space(s: Seq<char>)
    ensures
        first_space(s) <= s.len(),
        first_space(s) < s.len() ==> s[first_space(s) as int] == ' ',
        forall|i: int| 0 <= i < first_space(s) ==> s[i] != ' ',
    decreases s.len(),
{
    if s.len() > 0 && s[0] != ' ' {
        lemma_first_space(s.drop_first());
        assert forall|i: int| 0 <= i < first_space(s) implies s[i] != ' ' by {
            if i > 0 {
                assert(s.drop_first()[i - 1] == s[i]);
            }
        }
    }
}

/// The texts of a list of strings.
pub open spec fn texts(v: Seq<String>) -> Seq<Seq<char>> {
    v.map_values(|s: String| s@)
}

/// Whether a character is white space.
pub fn is_whitespace_char(c: char) -> (b: bool)
    ensures
        b == is_whitespace(c),
{
    let u: u32 = c as u32;
    (0x09 <= u && u <= 0x0d) || u == 0x20 || u == 0x85 || u == 0xa0 || u == 0x1680 || (0x2000
        <= u && u <= 0x200a) || u == 0x2028 || u == 0x2029 || u == 0x202f || u == 0x205f || u
        == 0x3000
}

/// The part of `input` between its leading and trailing white space.
pub fn trimmed(input: &str) -> (r: &str)
    ensures
        r@ == trim(input@),
{
    let n = input.unicode_len();
    let mut start: usize = 0;
    assert(input@ =~= input@.subrange(0, n as int));
    while start < n && is_whitespace_char(input.get_char(start))
        invariant
            n == input@.len(),
            start <= n,
            trim_start(input@) == trim_start(input@.subrange(start as int, n as int)),
        decreases n - start,
    {
        assert(input@.subrange(start as int, n as int).drop_first() =~= input@.subrange(
            start + 1,
            n as int,
        ));
        start += 1;
    }
    let ghost body = input@.subrange(start as int, n as int);
    assert(trim_start(input@) == body);
    let mut end: usize = n;
    while end > start && is_whitespace_char(input.get_char(end - 1))
        invariant
            n == input@.len(),
            start <= end <= n,
            body == input@.subrange(start as int, n as int),
            trim_end(body) == trim_end(input@.subrange(start as int, end as int)),
        decreases end - start,
    {
        assert(input@.subrange(start as int, end as int).drop_last() =~= input@.subrange(
            start as int,
            end - 1,
        ));
        end -= 1;
    }
    input.substring_char(start, end)
}

/// Cuts a line into its words.
pub fn split_words(input: &str) -> (out: Vec<String>)
    ensures
        texts(out@) == words(input@),
        out.len() >= 1,
{
    let n = input.unicode_len();
    let mut out: Vec<String> = Vec::new();
    let mut word = String::new();
    let mut quoted = false;
    let mut i: usize = 0;
    assert(input@ =~= input@.subrange(0, n as int));
    assert(texts(out@) =~= Seq::<Seq<char>>::empty());
    while i < n
        invariant
            n == input@.len(),
            i <= n,
            words(input@) == texts(out@) + words_from(
                input@.subrange(i as int, n as int),
                quoted,
                word@,
            ),
        decreases n - i,
    {
        let c = input.get_char(i);
        let ghost rest = input@.subrange(i as int, n as int);
        assert(rest.drop_first() =~= input@.subrange(i + 1, n as int));
        assert(rest[0] == c);
        if c == '"' {
            quoted = !quoted;
        } else if c == ' ' && !quoted {
            let ghost before = texts(out@);
            let ghost done = word@;
            out.push(word);
            word = String::new();
            assert(texts(out@) =~= before.push(done));
            assert(before + (seq![done] + words_from(rest.drop_first(), false, Seq::empty()))
                =~= before.push(done) + words_from(rest.drop_first(), false, Seq::empty()));
        } else {
            let one = input.substring_char(i, i + 1);
            assert(one@ =~= seq![c]);
            let ghost before = word@;
            word.append(one);
            assert(word@ =~= before.push(c));
        }
        i += 1;
    }
    let ghost before = texts(out@);
    let ghost done = word@;
    out.push(word);
    assert(texts(out@) =~= before.push(done));
    assert(before + seq![done] =~= before.push(done));
    out
}

/// Cuts a line into its command name and its arguments.
pub fn split_line(line: &str) -> (parts: (&str, Vec<String>))
    ensures
        parts.0@ == command_name(line@),
        texts(parts.1@) == arguments(line@),
{
    let n = line.unicode_len();
    let mut i: usize = 0;
    assert(line@ =~= line@.subrange(0, n as int));
    while i < n && line.get_char(i) != ' '
        invariant
            n == line@.len(),
            i <= n,
            first_space(line@) == i + first_space(line@.subrange(i as int, n as int)),
        decreases n - i,
    {
        assert(line@.subrange(i as int, n as int).drop_first() =~= line@.subrange(
            i + 1,
            n as int,
        ));
        i += 1;
    }
    assert(first_space(line@) == i) by {
        if i < n {
            assert(line@.subrange(i as int, n as int)[0] == ' ');
        }
    }
    let name = line.substring_char(0, i);
    assert(name@ =~= line@.take(i as int));
    if i < n {
        let rest = line.substring_char(i + 1, n);
        assert(rest@ =~= line@.skip(i + 1));
        (name, split_words(rest))
    } else {
        let none: Vec<String> = Vec::new();
        assert(texts(none@) =~= Seq::<Seq<char>>::empty());
        (name, none)
    }
}

} // verus!
