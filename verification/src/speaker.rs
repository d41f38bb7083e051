//! Line parsing and speaker state.
//!
//! One raw script line may begin with a speaker prefix, `"Name: "`. The
//! parser splits the line at the first `": "` separator: everything before it
//! becomes the speaker's name, everything after it the displayed content.
//! A line without the separator has no speaker and is displayed verbatim.
//! The narrative interpreter terminates every emitted line with a newline,
//! so the parser removes exactly one trailing character from the content.
//! The first stage-direction tag attached to the line, if any, names the
//! animation clip to play.

use vstd::prelude::*;

verus! {

/// A 2D point in whole screen pixels.
#[derive(Clone, Copy, Debug, PartialEq, Eq, Structural)]
pub struct ScreenPoint {
    pub x: i64,
    pub y: i64,
}

/// An RGBA colour with 8-bit channels.
#[derive(Clone, Copy, Debug, PartialEq, Eq, Structural)]
pub struct Rgba {
    pub r: u8,
    pub g: u8,
    pub b: u8,
    pub a: u8,
}

/// One raw line as the narrative interpreter emitted it: the text and the
/// stage-direction tags attached to it.
#[derive(Clone, Debug)]
pub struct RawLine {
    pub text: String,
    pub tags: Vec<String>,
}

/// Mathematical model of a [`RawLine`].
pub struct RawLineView {
    pub text: Seq<char>,
    pub tags: Seq<Seq<char>>,
}

impl View for RawLine {
    type V = RawLineView;

    open spec fn view(&self) -> RawLineView {
        RawLineView { text: self.text@, tags: self.tags.deep_view() }
    }
}

impl DeepView for RawLine {
    type V = RawLineView;

    open spec fn deep_view(&self) -> RawLineView {
        self.view()
    }
}

/// What the most recently consumed line said: who speaks, the displayed
/// content, and the derived directives. Overwritten wholesale each time a
/// line is consumed, never merged. An empty `content` means "nothing to
/// display".
#[derive(Clone, Debug)]
pub struct SpeakerState {
    pub name: Option<String>,
    pub content: String,
    pub animation: Option<String>,
    pub position: Option<ScreenPoint>,
    pub color: Option<Rgba>,
}

/// Mathematical model of a [`SpeakerState`].
pub struct SpeakerView {
    pub name: Option<Seq<char>>,
    pub content: Seq<char>,
    pub animation: Option<Seq<char>>,
    pub position: Option<ScreenPoint>,
    pub color: Option<Rgba>,
}

impl View for SpeakerState {
    type V = SpeakerView;

    open spec fn view(&self) -> SpeakerView {
        SpeakerView {
            name: match self.name {
                Some(n) => Some(n@),
                None => None,
            },
            content: self.content@,
            animation: match self.animation {
                Some(a) => Some(a@),
                None => None,
            },
            position: self.position,
            color: self.color,
        }
    }
}

/// The speaker separator `": "` stands at position `i` of `s`.
pub open spec fn sep_at(s: Seq<char>, i: int) -> bool {
    &&& 0 <= i
    &&& i + 2 <= s.len()
    &&& s[i] == ':'
    &&& s[i + 1] == ' '
}

/// The least position `>= i` where the separator stands, or `-1` if there is
/// none.
pub open spec fn first_sep_from(s: Seq<char>, i: int) -> int
    decreases s.len() - i,
{
    if i < 0 {
        -1
    } else if i + 2 > s.len() {
        -1
    } else if s[i] == ':' && s[i + 1] == ' ' {
        i
    } else {
        first_sep_from(s, i + 1)
    }
}

/// The least position where the separator stands in `s`, or `-1`.
pub open spec fn first_sep(s: Seq<char>) -> int {
    first_sep_from(s, 0)
}

/// The speaker name of a raw line: the part before the first separator, or
/// nothing when the line has no separator.
pub open spec fn parsed_name(s: Seq<char>) -> Option<Seq<char>> {
    if first_sep(s) >= 0 {
        Some(s.subrange(0, first_sep(s)))
    } else {
        None
    }
}

/// The part of a raw line that remains once the speaker prefix (name and
/// separator) is removed; the whole line when there is no separator.
pub open spec fn line_rest(s: Seq<char>) -> Seq<char> {
    if first_sep(s) >= 0 {
        s.subrange(first_sep(s) + 2, s.len() as int)
    } else {
        s
    }
}

/// The displayed content of a raw line: the rest of the line with exactly
/// one trailing character (the interpreter's newline) removed, when there is
/// one to remove.
pub open spec fn parsed_content(s: Seq<char>) -> Seq<char> {
    if line_rest(s).len() > 0 {
        line_rest(s).drop_last()
    } else {
        line_rest(s)
    }
}

/// The full parse of one raw line with its tags.
pub open spec fn spec_parse_line(text: Seq<char>, tags: Seq<Seq<char>>) -> SpeakerView {
    SpeakerView {
        name: parsed_name(text),
        content: parsed_content(text),
        animation: if tags.len() > 0 {
            Some(tags[0])
        } else {
            None
        },
        position: None,
        color: None,
    }
}

/// The parse of one [`RawLine`] model.
pub open spec fn spec_parse(l: RawLineView) -> SpeakerView {
    spec_parse_line(l.text, l.tags)
}

proof fn lemma_first_sep_from_props(s: Seq<char>, i: int)
    requires
        0 <= i,
    ensures
        first_sep_from(s, i) == -1 || first_sep_from(s, i) >= i,
        first_sep_from(s, i) == -1 ==> forall|j: int| i <= j ==> !sep_at(s, j),
        first_sep_from(s, i) >= 0 ==> i <= first_sep_from(s, i) && sep_at(s, first_sep_from(s, i))
            && (forall|j: int| i <= j < first_sep_from(s, i) ==> !sep_at(s, j)),
    decreases s.len() - i,
{
    if i + 2 > s.len() {
        assert(forall|j: int| i <= j ==> !sep_at(s, j));
    } else if s[i] == ':' && s[i + 1] == ' ' {
    } else {
        lemma_first_sep_from_props(s, i + 1);
        assert(!sep_at(s, i));
    }
}

/// `first_sep` finds exactly the least separator position.
proof fn lemma_first_sep_is(s: Seq<char>, k: int)
    requires
        sep_at(s, k),
        forall|j: int| 0 <= j < k ==> !sep_at(s, j),
    ensures
        first_sep(s) == k,
{
    lemma_first_sep_from_props(s, 0);
    let m = first_sep(s);
    if m == -1 {
        assert(!sep_at(s, k));
        assert(false);
    } else if m < k {
        assert(sep_at(s, m));
        assert(0 <= m < k);
        assert(!sep_at(s, m));
        assert(false);
    } else if k < m {
        assert(0 <= k < m);
        assert(!sep_at(s, k));
        assert(false);
    }
}

/// A line with no separator anywhere has `first_sep == -1`.
proof fn lemma_first_sep_none(s: Seq<char>)
    requires
        forall|j: int| !sep_at(s, j),
    ensures
        first_sep(s) == -1,
{
    lemma_first_sep_from_props(s, 0);
    if first_sep(s) >= 0 {
        assert(sep_at(s, first_sep(s)));
        assert(false);
    }
}

/// Law: for every line of the form `name + ": " + rest + "\n"` whose name
/// part holds no `": "` separator, the parse attributes the line to that
/// speaker and displays exactly `rest`.
pub proof fn lemma_parse_speaker_line(x: Seq<char>, rest: Seq<char>)
    requires
        forall|j: int| !sep_at(x, j),
    ensures
        parsed_name(x + seq![':', ' '] + rest + seq!['\n']) == Some(x),
        parsed_content(x + seq![':', ' '] + rest + seq!['\n']) == rest,
{
    let s = x + seq![':', ' '] + rest + seq!['\n'];
    let n = x.len() as int;
    assert(s.len() == x.len() + 2 + rest.len() + 1);
    assert(s[n] == ':');
    assert(s[n + 1] == ' ');
    assert(sep_at(s, n));
    assert forall|j: int| 0 <= j < n implies !sep_at(s, j) by {
        if j < n - 1 {
            assert(s[j] == x[j]);
            assert(s[j + 1] == x[j + 1]);
            assert(!sep_at(x, j));
        } else {
            assert(j == n - 1);
            assert(s[j + 1] == ':');
        }
    }
    lemma_first_sep_is(s, n);
    assert(s.subrange(0, n) =~= x);
    let tail = s.subrange(n + 2, s.len() as int);
    assert(tail =~= rest + seq!['\n']);
    assert(tail.len() > 0);
    assert(tail.drop_last() =~= rest);
}

/// Law: a line holding no `": "` separator parses to no speaker, and its
/// content is the line itself with its last character removed (when the line
/// is non-empty).
pub proof fn lemma_parse_plain_line(s: Seq<char>)
    requires
        forall|j: int| !sep_at(s, j),
    ensures
        parsed_name(s) is None,
        s.len() > 0 ==> parsed_content(s) == s.drop_last(),
        s.len() == 0 ==> parsed_content(s) == s,
{
    lemma_first_sep_none(s);
}

impl SpeakerState {
    /// An empty speaker state: nobody speaks and nothing is displayed.
    pub fn new() -> (r: SpeakerState)
        ensures
            r@ == (SpeakerView {
                name: None,
                content: Seq::<char>::empty(),
                animation: None,
                position: None,
                color: None,
            }),
    {
        let r = SpeakerState {
            name: None,
            content: String::new(),
            animation: None,
            position: None,
            color: None,
        };
        proof {
            assert(r@.content =~= Seq::<char>::empty());
        }
        r
    }

    /// Parses one raw line with its stage-direction tags: the part before
    /// the first `": "` separator names the speaker, the part after it (less
    /// one trailing character) is the content, and the first tag names the
    /// animation clip.
    pub fn parse(line: &str, tags: &Vec<String>) -> (r: SpeakerState)
        ensures
            r@ == spec_parse_line(line@, tags.deep_view()),
    {
        let n: usize = line.unicode_len();
        let mut i: usize = 0;
        let mut found: bool = false;
        while !found && n - i > 1
            invariant
                n == line@.len(),
                i <= n,
                forall|j: int| 0 <= j < i ==> !sep_at(line@, j),
                found ==> sep_at(line@, i as int),
            decreases n - i + (if found { 0int } else { 1int }),
        {
            if line.get_char(i) == ':' && line.get_char(i + 1) == ' ' {
                found = true;
            } else {
                proof {
                    assert(!sep_at(line@, i as int));
                }
                i = i + 1;
            }
        }

        let animation: Option<String> = if tags.len() > 0 {
            Some(tags[0].clone())
        } else {
            None
        };

        if found {
            proof {
                assert(sep_at(line@, i as int));
                lemma_first_sep_is(line@, i as int);
            }
            let name_part = line.substring_char(0, i);
            let content_to: usize = if n - (i + 2) > 0 {
                n - 1
            } else {
                i + 2
            };
            let content_part = line.substring_char(i + 2, content_to);
            let r = SpeakerState {
                name: Some(String::from_str(name_part)),
                content: String::from_str(content_part),
                animation,
                position: None,
                color: None,
            };
            proof {
                let s = line@;
                if s.len() - (i + 2) > 0 {
                    assert(line_rest(s).drop_last() =~= s.subrange(
                        i + 2,
                        s.len() as int,
                    ).drop_last());
                    assert(s.subrange(i + 2, s.len() as int).drop_last() =~= s.subrange(
                        i + 2,
                        s.len() - 1,
                    ));
                } else {
                    assert(line_rest(s) =~= s.subrange(i + 2, i + 2 as int));
                }
            }
            r
        } else {
            proof {
                assert forall|j: int| !sep_at(line@, j) by {
                    if 0 <= j && j + 2 <= n {
                        assert(j <= n - 2);
                        assert(i >= n - 1);
                        assert(j < i);
                    }
                }
                lemma_first_sep_none(line@);
            }
            let content_to: usize = if n > 0 {
                n - 1
            } else {
                0
            };
            let content_part = line.substring_char(0, content_to);
            let r = SpeakerState {
                name: None,
                content: String::from_str(content_part),
                animation,
                position: None,
                color: None,
            };
            proof {
                let s = line@;
                if s.len() > 0 {
                    assert(s.drop_last() =~= s.subrange(0, s.len() - 1));
                } else {
                    assert(s =~= s.subrange(0, 0));
                }
            }
            r
        }
    }

    /// Parses one raw line that carries no tags.
    pub fn parser_line_content(line: String) -> (r: SpeakerState)
        ensures
            r@ == spec_parse_line(line@, Seq::<Seq<char>>::empty()),
    {
        let tags: Vec<String> = Vec::new();
        proof {
            assert(tags.deep_view() =~= Seq::<Seq<char>>::empty());
        }
        SpeakerState::parse(line.as_str(), &tags)
    }
}

} // verus!
