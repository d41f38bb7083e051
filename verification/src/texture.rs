//! The texture manager.
//!
//! Background and UI textures are loaded by the rendering layer; the
//! manager records which asset was registered under which key and decides,
//! from a path's extension, how the asset must be brought in: formats the
//! engine decodes itself are loaded directly, formats it does not handle
//! are decoded by the image library first, and anything else is refused.
//! The extension comparison ignores ASCII case, as the loader always did.

use vstd::prelude::*;

use crate::errors::RegistrationError;

verus! {

/// How an image asset is brought in.
#[derive(Clone, Copy, Debug, PartialEq, Eq, Structural)]
pub enum TextureKind {
    /// The engine decodes the file itself (png, bmp, tga, gif).
    Direct,
    /// The image library decodes the file into raw pixels first (jpg, jpeg,
    /// webp).
    Decoded,
}

/// One registered texture: the path it was loaded from and how it was
/// brought in.
#[derive(Clone, Debug)]
pub struct TextureEntry {
    pub path: String,
    pub kind: TextureKind,
}

/// The ASCII-lowercased counterpart of one character.
pub open spec fn lower_char(c: char) -> char {
    if ('A' as u32) <= (c as u32) && (c as u32) <= ('Z' as u32) {
        (((c as u32) + 32) as char)
    } else {
        c
    }
}

/// The ASCII-lowercased counterpart of a character sequence.
pub open spec fn seq_lower(s: Seq<char>) -> Seq<char> {
    s.map_values(|c: char| lower_char(c))
}

/// The position of the last `'.'` in `s`, or `-1` if there is none.
pub open spec fn last_dot(s: Seq<char>) -> int
    decreases s.len(),
{
    if s.len() == 0 {
        -1
    } else if s[s.len() - 1] == '.' {
        s.len() - 1
    } else {
        last_dot(s.drop_last())
    }
}

/// The extension of a path: what follows the last `'.'`, or the whole path
/// when it holds no dot (as splitting on `'.'` and taking the last piece
/// gives).
pub open spec fn extension_of(s: Seq<char>) -> Seq<char> {
    if last_dot(s) >= 0 {
        s.subrange(last_dot(s) + 1, s.len() as int)
    } else {
        s
    }
}

/// How the asset at `path` must be brought in, judged by its extension
/// ignoring ASCII case; nothing for an extension the loader does not
/// handle.
pub open spec fn spec_texture_kind(path: Seq<char>) -> Option<TextureKind> {
    let e = seq_lower(extension_of(path));
    if e == "png"@ || e == "bmp"@ || e == "tga"@ || e == "gif"@ {
        Some(TextureKind::Direct)
    } else if e == "jpg"@ || e == "jpeg"@ || e == "webp"@ {
        Some(TextureKind::Decoded)
    } else {
        None
    }
}

proof fn lemma_last_dot_props(s: Seq<char>)
    ensures
        last_dot(s) == -1 || (0 <= last_dot(s) < s.len()),
        last_dot(s) == -1 ==> forall|j: int| 0 <= j < s.len() ==> s[j] != '.',
        last_dot(s) >= 0 ==> s[last_dot(s)] == '.' && (forall|j: int|
            last_dot(s) < j < s.len() ==> s[j] != '.'),
    decreases s.len(),
{
    if s.len() == 0 {
    } else if s[s.len() - 1] == '.' {
    } else {
        lemma_last_dot_props(s.drop_last());
        let t = s.drop_last();
        assert(forall|j: int| 0 <= j < t.len() ==> t[j] == s[j]);
        if last_dot(s) == -1 {
            assert forall|j: int| 0 <= j < s.len() implies s[j] != '.' by {
                if j < s.len() - 1 {
                    assert(t[j] != '.');
                }
            }
        }
    }
}

proof fn lemma_last_dot_is(s: Seq<char>, k: int)
    requires
        0 <= k < s.len(),
        s[k] == '.',
        forall|j: int| k < j < s.len() ==> s[j] != '.',
    ensures
        last_dot(s) == k,
{
    lemma_last_dot_props(s);
    let m = last_dot(s);
    if m == -1 {
        assert(s[k] != '.');
        assert(false);
    } else if m < k {
        assert(s[k] != '.');
        assert(false);
    } else if k < m {
        assert(s[m] != '.');
        assert(false);
    }
}

proof fn lemma_last_dot_none(s: Seq<char>)
    requires
        forall|j: int| 0 <= j < s.len() ==> s[j] != '.',
    ensures
        last_dot(s) == -1,
{
    lemma_last_dot_props(s);
    if last_dot(s) >= 0 {
        assert(s[last_dot(s)] != '.');
        assert(false);
    }
}

/// Whether the slice of `s` from `lo` to its end, lowercased, spells `lit`.
fn tail_matches_lower(s: &str, lo: usize, lit: &str) -> (r: bool)
    requires
        lo <= s@.len(),
    ensures
        r == (seq_lower(s@.subrange(lo as int, s@.len() as int)) == lit@),
    {
    let n: usize = s.unicode_len();
    let m: usize = lit.unicode_len();
    if n - lo != m {
        proof {
            assert(seq_lower(s@.subrange(lo as int, n as int)).len() == n - lo);
        }
        return false;
    }
    let mut j: usize = 0;
    while j < m
        invariant
            n == s@.len(),
            m == lit@.len(),
            lo + m == n,
            j <= m,
            forall|k: int|
                0 <= k < j ==> lower_char(s@.subrange(lo as int, n as int)[k]) == lit@[k],
        decreases m - j,
    {
        let c = s.get_char(lo + j);
        let t = lit.get_char(j);
        let cu: u32 = c as u32;
        let cl: u32 = if ('A' as u32) <= cu && cu <= ('Z' as u32) {
            cu + 32
        } else {
            cu
        };
        if cl != t as u32 {
            proof {
                let sub = s@.subrange(lo as int, n as int);
                assert(sub[j as int] == c);
                assert(lower_char(c) as u32 == cl);
                assert(seq_lower(sub)[j as int] == lower_char(c));
                assert(seq_lower(sub)[j as int] != lit@[j as int]);
            }
            return false;
        }
        proof {
            let sub = s@.subrange(lo as int, n as int);
            assert(sub[j as int] == c);
            assert(lower_char(c) as u32 == cl);
            assert(lower_char(c) == t);
        }
        j = j + 1;
    }
    proof {
        assert(seq_lower(s@.subrange(lo as int, n as int)) =~= lit@);
    }
    true
}

/// Decides, from the path's extension ignoring ASCII case, how the asset
/// must be brought in; nothing for an unhandled extension.
pub fn classify_path(path: &str) -> (r: Option<TextureKind>)
    ensures
        r == spec_texture_kind(path@),
{
    let n: usize = path.unicode_len();
    let mut i: usize = n;
    let mut dot: usize = 0;
    let mut has_dot: bool = false;
    while i > 0 && !has_dot
        invariant
            n == path@.len(),
            i <= n,
            !has_dot ==> forall|j: int| i <= j < n ==> path@[j] != '.',
            has_dot ==> dot < n && path@[dot as int] == '.' && (forall|j: int|
                dot < j < n ==> path@[j] != '.'),
        decreases i,
    {
        let c = path.get_char(i - 1);
        if c == '.' {
            dot = i - 1;
            has_dot = true;
        }
        i = i - 1;
    }
    let lo: usize = if has_dot {
        proof {
            lemma_last_dot_is(path@, dot as int);
        }
        dot + 1
    } else {
        proof {
            lemma_last_dot_none(path@);
        }
        0
    };
    proof {
        assert(extension_of(path@) =~= path@.subrange(lo as int, n as int));
    }
    if tail_matches_lower(path, lo, "png") || tail_matches_lower(path, lo, "bmp")
        || tail_matches_lower(path, lo, "tga") || tail_matches_lower(path, lo, "gif") {
        Some(TextureKind::Direct)
    } else if tail_matches_lower(path, lo, "jpg") || tail_matches_lower(path, lo, "jpeg")
        || tail_matches_lower(path, lo, "webp") {
        Some(TextureKind::Decoded)
    } else {
        None
    }
}

/// Some entry of `s` is keyed by `id`.
pub open spec fn has_texture(s: Seq<(String, TextureEntry)>, id: Seq<char>) -> bool {
    exists|i: int| 0 <= i < s.len() && s[i].0@ == id
}

/// `post` is `pre` with the asset at `path` recorded under `key` as `kind`:
/// the entry under `key` is replaced when one exists, appended otherwise,
/// and every other entry stands unmodified.
pub open spec fn texture_recorded(
    pre: Seq<(String, TextureEntry)>,
    post: Seq<(String, TextureEntry)>,
    key: Seq<char>,
    path: Seq<char>,
    kind: TextureKind,
) -> bool {
    if has_texture(pre, key) {
        exists|i: int|
            0 <= i < pre.len() && pre[i].0@ == key && post.len() == pre.len() && (forall|j: int|
                0 <= j < pre.len() && j != i ==> post[j] == pre[j]) && post[i].0@ == key
                && post[i].1.path@ == path && post[i].1.kind == kind
    } else {
        &&& post.len() == pre.len() + 1
        &&& (forall|j: int| 0 <= j < pre.len() ==> post[j] == pre[j])
        &&& post[pre.len() as int].0@ == key
        &&& post[pre.len() as int].1.path@ == path
        &&& post[pre.len() as int].1.kind == kind
    }
}

/// The registry of textures, keyed by the name they were registered under
/// (the path itself when no name was given).
#[derive(Clone, Debug)]
pub struct TextureManager {
    pub textures: Vec<(String, TextureEntry)>,
}

impl TextureManager {
    /// No two entries share a key.
    pub open spec fn wf(self) -> bool {
        forall|i: int, j: int|
            0 <= i < j < self.textures@.len() ==> self.textures@[i].0@ != self.textures@[j].0@
    }

    /// An empty texture registry.
    pub fn new() -> (r: TextureManager)
        ensures
            r.textures@ == Seq::<(String, TextureEntry)>::empty(),
            r.wf(),
    {
        let r = TextureManager { textures: Vec::new() };
        proof {
            assert(r.textures@ =~= Seq::<(String, TextureEntry)>::empty());
        }
        r
    }

    /// The index of the entry keyed by `key`, if any.
    fn find_index(&self, key: &str) -> (r: Option<usize>)
        ensures
            match r {
                Some(i) => i < self.textures@.len() && self.textures@[i as int].0@ == key@,
                None => !has_texture(self.textures@, key@),
            },
    {
        let wanted = String::from_str(key);
        let n = self.textures.len();
        let mut i: usize = 0;
        while i < n
            invariant
                n == self.textures@.len(),
                i <= n,
                wanted@ == key@,
                forall|j: int| 0 <= j < i ==> self.textures@[j].0@ != key@,
            decreases n - i,
        {
            if self.textures[i].0 == wanted {
                return Some(i);
            }
            i = i + 1;
        }
        None
    }

    /// The entry registered under `key`, if any.
    pub fn get(&self, key: &str) -> (r: Option<&TextureEntry>)
        ensures
            match r {
                Some(e) => exists|i: int|
                    0 <= i < self.textures@.len() && self.textures@[i].0@ == key@ && *e
                        == self.textures@[i].1,
                None => !has_texture(self.textures@, key@),
            },
    {
        match self.find_index(key) {
            Some(i) => Some(&self.textures[i].1),
            None => None,
        }
    }

    /// Records the asset at `path` under `texture_name` (or under the path
    /// itself when no name is given), deciding from the extension how the
    /// asset must be brought in. An unhandled extension is refused and
    /// changes nothing; re-registering a key replaces its entry. The
    /// returned kind tells the caller how to load the file.
    pub fn record_texture(&mut self, path: &str, texture_name: Option<&str>) -> (r: Result<
        TextureKind,
        RegistrationError,
    >)
        requires
            old(self).wf(),
        ensures
            final(self).wf(),
            r is Ok <==> spec_texture_kind(path@) is Some,
            r matches Ok(k) ==> Some(k) == spec_texture_kind(path@),
            r is Err ==> final(self).textures@ == old(self).textures@ && r == Err::<
                TextureKind,
                RegistrationError,
            >(RegistrationError::UnsupportedFormat),
            r matches Ok(k) ==> texture_recorded(
                old(self).textures@,
                final(self).textures@,
                match texture_name {
                    Some(t) => t@,
                    None => path@,
                },
                path@,
                k,
            ),
    {
        let ghost pre = self.textures@;
        match classify_path(path) {
            None => Err(RegistrationError::UnsupportedFormat),
            Some(kind) => {
                let key: String = match texture_name {
                    Some(t) => String::from_str(t),
                    None => String::from_str(path),
                };
                let entry = TextureEntry { path: String::from_str(path), kind };
                let ghost newpair = (key, entry);
                match self.find_index(key.as_str()) {
                    Some(i) => {
                        let _replaced = self.textures.remove(i);
                        self.textures.insert(i, (key, entry));
                        proof {
                            assert(self.textures@ =~= pre.update(i as int, newpair));
                            assert(texture_recorded(
                                pre,
                                self.textures@,
                                newpair.0@,
                                path@,
                                kind,
                            ));
                            assert forall|p: int, q: int|
                                0 <= p < q < self.textures@.len() implies self.textures@[p].0@
                                != self.textures@[q].0@ by {
                                assert(self.textures@[p].0@ == pre[p].0@);
                                assert(self.textures@[q].0@ == pre[q].0@);
                            }
                        }
                    },
                    None => {
                        self.textures.push((key, entry));
                        proof {
                            assert(texture_recorded(
                                pre,
                                self.textures@,
                                newpair.0@,
                                path@,
                                kind,
                            ));
                            assert forall|p: int, q: int|
                                0 <= p < q < self.textures@.len() implies self.textures@[p].0@
                                != self.textures@[q].0@ by {
                                if q < pre.len() {
                                } else {
                                    assert(self.textures@[q].0@ == newpair.0@);
                                    assert(self.textures@[p].0@ == pre[p].0@);
                                }
                            }
                        }
                    },
                }
                Ok(kind)
            },
        }
    }
}

} // verus!
