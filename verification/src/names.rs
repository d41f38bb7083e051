//! Speaker names occurring in a script.
//!
//! Characters are drawn for the speakers a story names, so the resource
//! loader asks up front which names occur: the part before the colon of
//! every line that holds exactly one colon, each name once, in order of
//! first occurrence.

use vstd::prelude::*;

verus! {

/// The least position `>= i` where `c` stands in `s`, or `-1` if there is
/// none.
pub open spec fn first_char_from(s: Seq<char>, c: char, i: int) -> int
    decreases s.len() - i,
{
    if i < 0 {
        -1
    } else if i >= s.len() {
        -1
    } else if s[i] == c {
        i
    } else {
        first_char_from(s, c, i + 1)
    }
}

proof fn lemma_first_char_from_props(s: Seq<char>, c: char, i: int)
    requires
        0 <= i,
    ensures
        first_char_from(s, c, i) == -1 || first_char_from(s, c, i) >= i,
        first_char_from(s, c, i) == -1 ==> forall|j: int| i <= j < s.len() ==> s[j] != c,
        first_char_from(s, c, i) >= 0 ==> first_char_from(s, c, i) < s.len() && s[first_char_from(
            s,
            c,
            i,
        )] == c && (forall|j: int| i <= j < first_char_from(s, c, i) ==> s[j] != c),
    decreases s.len() - i,
{
    if i >= s.len() {
    } else if s[i] == c {
    } else {
        lemma_first_char_from_props(s, c, i + 1);
    }
}

/// `first_char_from` finds exactly the least position of `c` at or after 0.
proof fn lemma_first_char_is(s: Seq<char>, c: char, k: int)
    requires
        0 <= k < s.len(),
        s[k] == c,
        forall|j: int| 0 <= j < k ==> s[j] != c,
    ensures
        first_char_from(s, c, 0) == k,
{
    lemma_first_char_from_props(s, c, 0);
    let m = first_char_from(s, c, 0);
    if m == -1 {
        assert(s[k] != c);
        assert(false);
    } else if m < k {
        assert(s[m] != c);
        assert(false);
    } else if k < m {
        assert(s[k] != c);
        assert(false);
    }
}

proof fn lemma_first_char_none(s: Seq<char>, c: char)
    requires
        forall|j: int| 0 <= j < s.len() ==> s[j] != c,
    ensures
        first_char_from(s, c, 0) == -1,
{
    lemma_first_char_from_props(s, c, 0);
    if first_char_from(s, c, 0) >= 0 {
        assert(s[first_char_from(s, c, 0)] != c);
        assert(false);
    }
}

/// The number of colons in `l`.
pub open spec fn colon_count(l: Seq<char>) -> nat
    decreases l.len(),
{
    if l.len() == 0 {
        0
    } else if l.last() == ':' {
        colon_count(l.drop_last()) + 1
    } else {
        colon_count(l.drop_last())
    }
}

/// The part of `l` before its first colon; all of `l` when it has none.
pub open spec fn colon_prefix(l: Seq<char>) -> Seq<char> {
    if first_char_from(l, ':', 0) >= 0 {
        l.subrange(0, first_char_from(l, ':', 0))
    } else {
        l
    }
}

/// A line as the script scanner sees it: without its newline, and without
/// one carriage return before that newline, if any.
pub open spec fn strip_cr(l: Seq<char>) -> Seq<char> {
    if l.len() > 0 && l.last() == '\r' {
        l.drop_last()
    } else {
        l
    }
}

/// The lines of `s`: the pieces between newlines, each stripped of one
/// trailing carriage return; a trailing newline opens no further line.
pub open spec fn spec_lines(s: Seq<char>) -> Seq<Seq<char>>
    decreases s.len(),
{
    if s.len() == 0 {
        Seq::<Seq<char>>::empty()
    } else if 0 <= first_char_from(s, '\n', 0) && first_char_from(s, '\n', 0) < s.len() {
        seq![strip_cr(s.subrange(0, first_char_from(s, '\n', 0)))] + spec_lines(
            s.subrange(first_char_from(s, '\n', 0) + 1, s.len() as int),
        )
    } else {
        seq![strip_cr(s)]
    }
}

/// The speaker names of a line sequence: the colon prefix of every line
/// with exactly one colon, each name once, in order of first occurrence.
pub open spec fn spec_speakers(ls: Seq<Seq<char>>) -> Seq<Seq<char>>
    decreases ls.len(),
{
    if ls.len() == 0 {
        Seq::<Seq<char>>::empty()
    } else {
        let prev = spec_speakers(ls.drop_last());
        let l = ls.last();
        if colon_count(l) == 1 && !prev.contains(colon_prefix(l)) {
            prev.push(colon_prefix(l))
        } else {
            prev
        }
    }
}

/// Whether some entry of `v` spells `s`.
fn contains_string(v: &Vec<String>, s: &str) -> (r: bool)
    ensures
        r == v.deep_view().contains(s@),
{
    let wanted = String::from_str(s);
    let n = v.len();
    let mut i: usize = 0;
    while i < n
        invariant
            n == v@.len(),
            i <= n,
            wanted@ == s@,
            forall|j: int| 0 <= j < i ==> v.deep_view()[j] != s@,
        decreases n - i,
    {
        if v[i] == wanted {
            proof {
                assert(v.deep_view()[i as int] == s@);
            }
            return true;
        }
        proof {
            assert(v.deep_view()[i as int] == v@[i as int]@);
        }
        i = i + 1;
    }
    proof {
        if v.deep_view().contains(s@) {
            let j = choose|j: int| 0 <= j < v.deep_view().len() && v.deep_view()[j] == s@;
            assert(v.deep_view()[j] != s@);
        }
    }
    false
}

/// The speaker names that occur in the script text: the part before the
/// colon of every line with exactly one colon, each name once, in order of
/// first occurrence.
pub fn get_characters(content: &str) -> (r: Vec<String>)
    ensures
        r.deep_view() == spec_speakers(spec_lines(content@)),
{
    let n: usize = content.unicode_len();
    let mut result: Vec<String> = Vec::new();
    let mut start: usize = 0;
    let ghost whole = content@;
    let ghost mut processed = Seq::<Seq<char>>::empty();
    proof {
        assert(result.deep_view() =~= Seq::<Seq<char>>::empty());
        assert(whole.subrange(0, n as int) =~= whole);
        assert(spec_lines(whole) =~= processed + spec_lines(whole.subrange(0, n as int)));
    }
    while start < n
        invariant
            n == whole.len(),
            whole == content@,
            start <= n,
            spec_lines(whole) == processed + spec_lines(whole.subrange(start as int, n as int)),
            result.deep_view() == spec_speakers(processed),
        decreases n - start,
    {
        let ghost suffix = whole.subrange(start as int, n as int);

        // Find the end of this line: the next newline, or the end of the
        // text.
        let mut k: usize = start;
        let mut found_nl: bool = false;
        while !found_nl && k < n
            invariant
                n == whole.len(),
                whole == content@,
                start <= k <= n,
                forall|j: int| start <= j < k ==> whole[j] != '\n',
                found_nl ==> k < n && whole[k as int] == '\n',
            decreases n - k + (if found_nl {
                0int
            } else {
                1int
            }),
        {
            if content.get_char(k) == '\n' {
                found_nl = true;
            } else {
                k = k + 1;
            }
        }
        let line_end: usize = k;
        let next: usize = if found_nl {
            k + 1
        } else {
            n
        };
        proof {
            assert forall|j: int| 0 <= j < line_end - start implies suffix[j] != '\n' by {
                assert(suffix[j] == whole[start + j]);
            }
            if found_nl {
                assert(suffix[line_end - start] == '\n');
                lemma_first_char_is(suffix, '\n', line_end - start);
            } else {
                lemma_first_char_none(suffix, '\n');
            }
        }

        // Strip one carriage return before the newline.
        let seg_end: usize = if line_end > start && content.get_char(line_end - 1) == '\r' {
            line_end - 1
        } else {
            line_end
        };
        let ghost line = strip_cr(suffix.subrange(0, line_end - start));
        proof {
            if first_char_from(suffix, '\n', 0) >= 0 {
                assert(suffix.subrange(0, line_end - start) =~= whole.subrange(
                    start as int,
                    line_end as int,
                ));
                assert(suffix.subrange(first_char_from(suffix, '\n', 0) + 1, suffix.len() as int)
                    =~= whole.subrange(next as int, n as int));
                assert(spec_lines(suffix) == seq![line] + spec_lines(
                    whole.subrange(next as int, n as int),
                ));
            } else {
                assert(suffix.subrange(0, line_end - start) =~= suffix);
                assert(spec_lines(suffix) =~= seq![line] + spec_lines(
                    whole.subrange(next as int, n as int),
                ));
            }
            assert(line =~= whole.subrange(start as int, seg_end as int));
        }

        // Count the colons of the line and remember where the first one
        // stands.
        let mut j: usize = start;
        let mut colons: usize = 0;
        let mut first_colon: usize = start;
        while j < seg_end
            invariant
                n == whole.len(),
                whole == content@,
                start <= j <= seg_end <= n,
                line == whole.subrange(start as int, seg_end as int),
                colons == colon_count(line.subrange(0, j - start)),
                colons <= j - start,
                colons > 0 ==> start <= first_colon < j && whole[first_colon as int] == ':' && (
                forall|m: int| start <= m < first_colon ==> whole[m] != ':'),
                colons == 0 ==> forall|m: int| start <= m < j ==> whole[m] != ':',
            decreases seg_end - j,
        {
            let c = content.get_char(j);
            proof {
                assert(line.subrange(0, j + 1 - start).drop_last() =~= line.subrange(
                    0,
                    j - start,
                ));
                assert(line.subrange(0, j + 1 - start).last() == whole[j as int]);
            }
            if c == ':' {
                if colons == 0 {
                    first_colon = j;
                }
                colons = colons + 1;
            }
            j = j + 1;
        }
        proof {
            assert(line.subrange(0, seg_end - start) =~= line);
        }

        let ghost prev_processed = processed;
        if colons == 1 {
            proof {
                assert forall|m: int| 0 <= m < first_colon - start implies line[m] != ':' by {
                    assert(line[m] == whole[start + m]);
                }
                assert(line[first_colon - start] == ':');
                lemma_first_char_is(line, ':', first_colon - start);
            }
            let prefix = content.substring_char(start, first_colon);
            proof {
                assert(prefix@ =~= colon_prefix(line));
            }
            if !contains_string(&result, prefix) {
                result.push(String::from_str(prefix));
                proof {
                    assert(result.deep_view() =~= spec_speakers(prev_processed).push(
                        colon_prefix(line),
                    ));
                }
            }
        }
        proof {
            processed = prev_processed.push(line);
            assert(processed.drop_last() =~= prev_processed);
            assert(processed.last() == line);
            assert(spec_lines(whole) == prev_processed + spec_lines(suffix));
            assert(prev_processed + (seq![line] + spec_lines(
                whole.subrange(next as int, n as int),
            )) =~= processed + spec_lines(whole.subrange(next as int, n as int)));
        }
        start = next;
    }
    proof {
        assert(spec_lines(whole.subrange(start as int, n as int)) =~= Seq::<Seq<char>>::empty());
        assert(spec_lines(whole) =~= processed);
    }
    result
}

} // verus!
