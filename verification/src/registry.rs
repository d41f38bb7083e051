//! The character registry.
//!
//! Speakers are drawn as animated sprites. The registry keeps, per speaker
//! identifier, the descriptor of the skeletal-animation resource, the
//! requested animation clip, and the animation clock. Geometry is computed
//! by the animation runtime outside the library; the registry is the
//! bookkeeping the frame loop consults, and an operation on an identifier
//! nobody registered reports a lookup error instead of touching anything.

use vstd::prelude::*;

use crate::errors::LookupError;
use crate::errors::RegistrationError;

verus! {

/// Where a skeleton description lives: a JSON or a binary skeleton file.
#[derive(Clone, Debug)]
pub enum SkeletonPath {
    Json(String),
    Binary(String),
}

/// The descriptor of one skeletal-animation resource: its atlas file, its
/// skeleton file, and the animation clip to start with.
#[derive(Clone, Debug)]
pub struct SpineDemo {
    pub atlas_path: String,
    pub skeleton_path: SkeletonPath,
    pub animation: String,
}

impl SpineDemo {
    /// Bundles the paths and the starting animation clip.
    pub fn new(atlas: String, skel: SkeletonPath, ani: String) -> (r: SpineDemo)
        ensures
            r.atlas_path == atlas,
            r.skeleton_path == skel,
            r.animation == ani,
    {
        SpineDemo { atlas_path: atlas, skeleton_path: skel, animation: ani }
    }
}

/// One registered character: its name, the descriptor of its resource, the
/// animation clip currently requested, and the accumulated animation clock
/// in milliseconds.
#[derive(Clone, Debug)]
pub struct Character {
    pub name: String,
    pub descriptor: SpineDemo,
    pub animation: Option<String>,
    pub clock_ms: u64,
}

/// `a + b`, stopping at the largest `u64` value.
pub open spec fn sat_add(a: u64, b: u64) -> u64 {
    if a + b > u64::MAX {
        u64::MAX
    } else {
        (a + b) as u64
    }
}

/// The entry that registering `name` with `descriptor` creates.
pub open spec fn spec_new_character(name: String, descriptor: SpineDemo) -> Character {
    Character {
        name: name,
        descriptor: descriptor,
        animation: Some(descriptor.animation),
        clock_ms: 0,
    }
}

/// The entry after its clock advanced by `delta_ms`.
pub open spec fn spec_ticked_character(c: Character, delta_ms: u64) -> Character {
    Character { clock_ms: sat_add(c.clock_ms, delta_ms), ..c }
}

impl Character {
    /// Advances this character's animation clock by `delta_ms` milliseconds,
    /// saturating at the largest representable clock.
    pub fn update(&mut self, delta_ms: u64)
        ensures
            *final(self) == spec_ticked_character(*old(self), delta_ms),
    {
        if self.clock_ms <= u64::MAX - delta_ms {
            self.clock_ms = self.clock_ms + delta_ms;
        } else {
            self.clock_ms = u64::MAX;
        }
    }
}

/// Some entry of `s` is keyed by `id`.
pub open spec fn has_character(s: Seq<(String, Character)>, id: Seq<char>) -> bool {
    exists|i: int| 0 <= i < s.len() && s[i].0@ == id
}

/// `post` is `pre` with entry `i` switched to the animation clip
/// `animation` and nothing else changed.
pub open spec fn retargeted_at(
    pre: Seq<(String, Character)>,
    post: Seq<(String, Character)>,
    i: int,
    animation: Seq<char>,
) -> bool {
    &&& post.len() == pre.len()
    &&& (forall|j: int| 0 <= j < pre.len() && j != i ==> post[j] == pre[j])
    &&& post[i].0 == pre[i].0
    &&& post[i].1.name == pre[i].1.name
    &&& post[i].1.descriptor == pre[i].1.descriptor
    &&& post[i].1.clock_ms == pre[i].1.clock_ms
    &&& (post[i].1.animation matches Some(a) && a@ == animation)
}

/// No two entries of `s` share a key.
pub open spec fn distinct_keys(s: Seq<(String, Character)>) -> bool {
    forall|i: int, j: int| 0 <= i < j < s.len() ==> s[i].0@ != s[j].0@
}

/// The registry of characters, keyed by speaker identifier.
#[derive(Clone, Debug)]
pub struct CharacterManager {
    pub characters: Vec<(String, Character)>,
}

impl CharacterManager {
    /// No two entries share a key.
    pub open spec fn wf(self) -> bool {
        distinct_keys(self.characters@)
    }

    /// An empty registry.
    pub fn new() -> (r: CharacterManager)
        ensures
            r.characters@ == Seq::<(String, Character)>::empty(),
            r.wf(),
    {
        let r = CharacterManager { characters: Vec::new() };
        proof {
            assert(r.characters@ =~= Seq::<(String, Character)>::empty());
        }
        r
    }

    /// The index of the entry keyed by `name`, if any.
    fn find_index(&self, name: &str) -> (r: Option<usize>)
        ensures
            match r {
                Some(i) => i < self.characters@.len() && self.characters@[i as int].0@ == name@,
                None => !has_character(self.characters@, name@),
            },
    {
        let key = String::from_str(name);
        let n = self.characters.len();
        let mut i: usize = 0;
        while i < n
            invariant
                n == self.characters@.len(),
                i <= n,
                key@ == name@,
                forall|j: int| 0 <= j < i ==> self.characters@[j].0@ != name@,
            decreases n - i,
        {
            if self.characters[i].0 == key {
                return Some(i);
            }
            i = i + 1;
        }
        None
    }

    /// Registers (or re-registers) the character `name` with the given
    /// resource descriptor: a fresh entry with a zeroed clock and the
    /// descriptor's starting animation replaces any entry under that key, or
    /// joins the registry. Loading the resource itself is the caller's work;
    /// a failed load is reported by the caller as
    /// [`RegistrationError::LoadFailed`] and never reaches the registry.
    pub fn register(&mut self, name: String, spinedemo: SpineDemo) -> (r: Result<
        (),
        RegistrationError,
    >)
        requires
            old(self).wf(),
        ensures
            r is Ok,
            final(self).wf(),
            has_character(old(self).characters@, name@) ==> exists|i: int|
                0 <= i < old(self).characters@.len() && old(self).characters@[i].0@ == name@
                    && final(self).characters@ == old(self).characters@.update(
                    i,
                    (name, spec_new_character(name, spinedemo)),
                ),
            !has_character(old(self).characters@, name@) ==> final(self).characters@ == old(
                self,
            ).characters@.push((name, spec_new_character(name, spinedemo))),
    {
        let ghost pre = self.characters@;
        let ani = spinedemo.animation.clone();
        let ch = Character {
            name: name.clone(),
            descriptor: spinedemo,
            animation: Some(ani),
            clock_ms: 0,
        };
        match self.find_index(name.as_str()) {
            Some(i) => {
                let _replaced = self.characters.remove(i);
                self.characters.insert(i, (name, ch));
                proof {
                    assert(self.characters@ =~= pre.update(i as int, (name, ch)));
                    assert forall|p: int, q: int|
                        0 <= p < q < self.characters@.len() implies self.characters@[p].0@
                        != self.characters@[q].0@ by {
                        assert(self.characters@[p].0@ == pre[p].0@);
                        assert(self.characters@[q].0@ == pre[q].0@);
                    }
                }
            },
            None => {
                self.characters.push((name, ch));
                proof {
                    assert forall|p: int, q: int|
                        0 <= p < q < self.characters@.len() implies self.characters@[p].0@
                        != self.characters@[q].0@ by {
                        if q < pre.len() {
                        } else {
                            assert(self.characters@[q].0@ == name@);
                            assert(self.characters@[p].0@ == pre[p].0@);
                        }
                    }
                }
            },
        }
        Ok(())
    }

    /// Advances the animation clock of the character `name` by `delta_ms`
    /// milliseconds. An unregistered `name` is reported as a lookup error
    /// and leaves every entry unmodified.
    pub fn update(&mut self, name: &str, delta_ms: u64) -> (r: Result<(), LookupError>)
        requires
            old(self).wf(),
        ensures
            final(self).wf(),
            r is Ok <==> has_character(old(self).characters@, name@),
            r is Err ==> final(self).characters@ == old(self).characters@ && r == Err::<
                (),
                LookupError,
            >(LookupError::NotRegistered),
            r is Ok ==> exists|i: int|
                0 <= i < old(self).characters@.len() && old(self).characters@[i].0@ == name@
                    && final(self).characters@ == old(self).characters@.update(
                    i,
                    (
                        old(self).characters@[i].0,
                        spec_ticked_character(old(self).characters@[i].1, delta_ms),
                    ),
                ),
    {
        let ghost pre = self.characters@;
        match self.find_index(name) {
            None => Err(LookupError::NotRegistered),
            Some(i) => {
                let (key, mut ch) = self.characters.remove(i);
                ch.update(delta_ms);
                self.characters.insert(i, (key, ch));
                proof {
                    assert(self.characters@ =~= pre.update(
                        i as int,
                        (pre[i as int].0, spec_ticked_character(pre[i as int].1, delta_ms)),
                    ));
                    assert forall|p: int, q: int|
                        0 <= p < q < self.characters@.len() implies self.characters@[p].0@
                        != self.characters@[q].0@ by {
                        assert(self.characters@[p].0@ == pre[p].0@);
                        assert(self.characters@[q].0@ == pre[q].0@);
                    }
                }
                Ok(())
            },
        }
    }

    /// Requests the animation clip `animation` for the character `name`;
    /// reports a lookup error (and changes nothing) when `name` was never
    /// registered. Whether the resource knows the clip is for the animation
    /// runtime to decide when it reads the request.
    pub fn set_animation(&mut self, name: &str, animation: &str) -> (r: Result<(), LookupError>)
        requires
            old(self).wf(),
        ensures
            final(self).wf(),
            r is Ok <==> has_character(old(self).characters@, name@),
            r is Err ==> final(self).characters@ == old(self).characters@ && r == Err::<
                (),
                LookupError,
            >(LookupError::NotRegistered),
            r is Ok ==> exists|i: int|
                0 <= i < old(self).characters@.len() && old(self).characters@[i].0@ == name@
                    && retargeted_at(
                    old(self).characters@,
                    final(self).characters@,
                    i,
                    animation@,
                ),
    {
        let ghost pre = self.characters@;
        match self.find_index(name) {
            None => Err(LookupError::NotRegistered),
            Some(i) => {
                let (key, mut ch) = self.characters.remove(i);
                ch.animation = Some(String::from_str(animation));
                let ghost newch = ch;
                self.characters.insert(i, (key, ch));
                proof {
                    assert(self.characters@ =~= pre.update(i as int, (pre[i as int].0, newch)));
                    assert(retargeted_at(pre, self.characters@, i as int, animation@));
                    assert forall|p: int, q: int|
                        0 <= p < q < self.characters@.len() implies self.characters@[p].0@
                        != self.characters@[q].0@ by {
                        assert(self.characters@[p].0@ == pre[p].0@);
                        assert(self.characters@[q].0@ == pre[q].0@);
                    }
                }
                Ok(())
            },
        }
    }

    /// The registered character `name`, if any.
    pub fn get_character(&self, name: &str) -> (r: Option<&Character>)
        ensures
            match r {
                Some(c) => exists|i: int|
                    0 <= i < self.characters@.len() && self.characters@[i].0@ == name@ && *c
                        == self.characters@[i].1,
                None => !has_character(self.characters@, name@),
            },
    {
        match self.find_index(name) {
            Some(i) => Some(&self.characters[i].1),
            None => None,
        }
    }

    /// The stored name of the registered character `name`.
    pub fn get_decrible(&self, name: &str) -> (r: String)
        requires
            has_character(self.characters@, name@),
        ensures
            exists|i: int|
                0 <= i < self.characters@.len() && self.characters@[i].0@ == name@ && r
                    == self.characters@[i].1.name,
    {
        match self.find_index(name) {
            Some(i) => self.characters[i].1.name.clone(),
            None => {
                proof {
                    assert(false);
                }
                String::new()
            },
        }
    }
}

} // verus!
