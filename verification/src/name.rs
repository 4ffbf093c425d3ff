//! The name assembler: an ordered sequence of syllables, its character
//! length, and the coda-suppression rule applied between adjacent syllables.

use vstd::prelude::*;

use crate::render::opt_deref;
use crate::render::render_syllable;
use crate::render::renderable;
use crate::syllable::Coda;
use crate::syllable::Onset;
use crate::syllable::Syllable;
use crate::Script;

verus! {

/// The left neighbor of the syllable at position `i`.
pub open spec fn prev_of(s: Seq<Syllable>, i: int) -> Option<Syllable> {
    if i <= 0 {
        None
    } else {
        Some(s[i - 1])
    }
}

/// The right neighbor of the syllable at position `i`.
pub open spec fn next_of(s: Seq<Syllable>, i: int) -> Option<Syllable> {
    if i + 1 >= s.len() {
        None
    } else {
        Some(s[i + 1])
    }
}

/// The rendering of the syllables from position `i` on, each given its
/// final neighbors.
pub open spec fn render_name_from(s: Seq<Syllable>, script: Script, i: int) -> Seq<char>
    decreases s.len() - i,
{
    if i < 0 || i >= s.len() {
        Seq::empty()
    } else {
        render_syllable(s[i], script, prev_of(s, i), next_of(s, i)) + render_name_from(
            s,
            script,
            i + 1,
        )
    }
}

/// The full rendering of a syllable sequence in a script.
pub open spec fn render_name(s: Seq<Syllable>, script: Script) -> Seq<char> {
    render_name_from(s, script, 0)
}

/// Rendering is deterministic: a pure function of the syllable sequence and
/// the script, so equal sequences always render to equal text.
pub proof fn lemma_render_deterministic(a: Seq<Syllable>, b: Seq<Syllable>, script: Script)
    requires
        a == b,
    ensures
        render_name(a, script) == render_name(b, script),
{
}

/// A well-formed name can be rendered by every script: the sampler's own
/// constraints keep every syllable inside each script's glyph tables.
pub proof fn lemma_wf_name_renderable(n: &Name, script: Script)
    requires
        n.wf(),
    ensures
        forall|k: int|
            0 <= k < n.syllables@.len() ==> renderable(#[trigger] n.syllables@[k], script),
{
}

/// Relies on String's FromIterator impl over char, through
/// Iterator::collect: the collected string holds exactly the characters of
/// the vector, in order.
#[verifier::external_body]
fn chars_to_string(v: &Vec<char>) -> (s: String)
    ensures
        s@ == v@,
{
    v.iter().collect()
}

/// An ordered sequence of syllables; the order determines pronunciation and
/// all cross-syllable rendering rules.
#[derive(Debug)]
pub struct Name {
    pub syllables: Vec<Syllable>,
}

/// No syllable with a nasal coda N is immediately followed by a syllable
/// whose onset is M or N: the sampler retroactively clears the earlier coda
/// to prevent an ambiguous nasal cluster.
pub open spec fn no_nasal_collision(s: Seq<Syllable>) -> bool {
    forall|i: int|
        0 <= i && i + 1 < s.len() && (#[trigger] s[i].coda) == Coda::N ==> s[i + 1].onset != Onset::M
            && s[i + 1].onset != Onset::N
}

/// Total character length of a syllable sequence.
pub open spec fn name_len(s: Seq<Syllable>) -> int
    decreases s.len(),
{
    if s.len() == 0 {
        0
    } else {
        name_len(s.drop_last()) + s.last().len_spec()
    }
}

/// Every syllable contributes between one and four characters to the length
/// budget, so a name's character length is bounded by its syllable count on
/// both sides.
pub proof fn lemma_name_len_bounds(s: Seq<Syllable>)
    ensures
        s.len() <= name_len(s) <= 4 * s.len(),
    decreases s.len(),
{
    if s.len() > 0 {
        lemma_name_len_bounds(s.drop_last());
    }
}

impl Name {
    /// Every syllable respects the nucleus exclusion rules, and no nasal
    /// coda collides with a following nasal onset.
    pub open spec fn wf(self) -> bool {
        &&& forall|i: int|
            0 <= i < self.syllables@.len() ==> (#[trigger] self.syllables@[i]).wf()
        &&& no_nasal_collision(self.syllables@)
    }

    /// Builds `count` syllables in order. When a drawn syllable has a nasal
    /// onset M or N, the preceding syllable's coda is cleared, so the
    /// finished name carries no nasal collision. Only the first syllable may
    /// draw the null onset.
    #[verifier::rlimit(60)]
    pub fn random(rng: &mut rand::rngs::SmallRng, count: u64) -> (n: Name)
        ensures
            n.wf(),
            n.syllables@.len() == count,
            forall|j: int|
                1 <= j < n.syllables@.len() ==> (#[trigger] n.syllables@[j]).onset != Onset::Null,
    {
        let mut syllables: Vec<Syllable> = Vec::new();
        let mut i: u64 = 0;
        while i < count
            invariant
                i <= count,
                syllables@.len() == i,
                forall|j: int| 0 <= j < syllables@.len() ==> (#[trigger] syllables@[j]).wf(),
                forall|j: int|
                    1 <= j < syllables@.len() ==> (#[trigger] syllables@[j]).onset != Onset::Null,
                no_nasal_collision(syllables@),
            decreases count - i,
        {
            let ghost pre = syllables@;
            let s = Syllable::new(rng, i == 0);
            if syllables.len() > 0 && (s.onset == Onset::M || s.onset == Onset::N) {
                let mut prev = syllables.pop().unwrap();
                prev.coda = Coda::Null;
                syllables.push(prev);
                proof {
                    assert(syllables@ =~= pre.update(pre.len() - 1, prev));
                    assert forall|j: int|
                        0 <= j && j + 1 < syllables@.len() && (#[trigger] syllables@[j].coda)
                            == Coda::N implies syllables@[j + 1].onset != Onset::M && syllables@[j
                        + 1].onset != Onset::N by {
                        let l = pre.len() as int;
                        if j + 1 < l - 1 {
                            assert(syllables@[j] == pre[j]);
                            assert(syllables@[j + 1] == pre[j + 1]);
                        } else {
                            assert(j + 1 == l - 1);
                            assert(syllables@[j] == pre[j]);
                            assert(syllables@[j + 1].onset == pre[j + 1].onset);
                        }
                    }
                    assert(syllables@[syllables@.len() - 1].coda == Coda::Null);
                }
            }
            let ghost mid = syllables@;
            syllables.push(s);
            proof {
                assert forall|j: int|
                    0 <= j && j + 1 < syllables@.len() && (#[trigger] syllables@[j].coda)
                        == Coda::N implies syllables@[j + 1].onset != Onset::M && syllables@[j
                    + 1].onset != Onset::N by {
                    let l = mid.len() as int;
                    if j + 1 < l {
                        assert(syllables@[j] == mid[j]);
                        assert(syllables@[j + 1] == mid[j + 1]);
                    } else {
                        assert(j == l - 1);
                        assert(syllables@[j] == mid[j]);
                        assert(syllables@[j + 1] == s);
                        if s.onset == Onset::M || s.onset == Onset::N {
                            assert(mid[l - 1].coda == Coda::Null);
                        }
                    }
                }
            }
            i = i + 1;
        }
        Name { syllables }
    }

    /// Total character length of the name: the sum of its syllables'
    /// character-length budgets.
    pub fn len(&self) -> (r: u64)
        requires
            4 * self.syllables@.len() <= u64::MAX,
        ensures
            r == name_len(self.syllables@),
    {
        let mut total: u64 = 0;
        let count = self.syllables.len();
        let mut i: usize = 0;
        while i < count
            invariant
                i <= count,
                count == self.syllables@.len(),
                4 * count <= u64::MAX,
                total == name_len(self.syllables@.subrange(0, i as int)),
                total <= 4 * i,
            decreases count - i,
        {
            let ghost prefix = self.syllables@.subrange(0, i as int);
            let s = self.syllables[i];
            proof {
                assert(self.syllables@.subrange(0, i + 1).drop_last() =~= prefix);
                assert(self.syllables@.subrange(0, i + 1).last() == self.syllables@[i as int]);
            }
            let s_len = s.len();
            assert(s_len <= 4);
            total = total + s_len as u64;
            i = i + 1;
        }
        proof {
            assert(self.syllables@.subrange(0, count as int) =~= self.syllables@);
        }
        total
    }

    /// Renders the whole name: each syllable in order, given its final left
    /// and right neighbors.
    pub fn write(&self, script: Script) -> (out: String)
        requires
            forall|k: int|
                0 <= k < self.syllables@.len() ==> renderable(
                    #[trigger] self.syllables@[k],
                    script,
                ),
        ensures
            out@ == render_name(self.syllables@, script),
    {
        let mut buf: Vec<char> = Vec::new();
        let count = self.syllables.len();
        let mut i: usize = 0;
        while i < count
            invariant
                i <= count,
                count == self.syllables@.len(),
                forall|k: int|
                    0 <= k < self.syllables@.len() ==> renderable(
                        #[trigger] self.syllables@[k],
                        script,
                    ),
                render_name(self.syllables@, script) == buf@ + render_name_from(
                    self.syllables@,
                    script,
                    i as int,
                ),
            decreases count - i,
        {
            let prev: Option<&Syllable> = if i == 0 {
                None
            } else {
                Some(&self.syllables[i - 1])
            };
            let next: Option<&Syllable> = if i + 1 == count {
                None
            } else {
                Some(&self.syllables[i + 1])
            };
            let ghost pre = buf@;
            self.syllables[i].write(&mut buf, script, prev, next);
            proof {
                assert(opt_deref(prev) == prev_of(self.syllables@, i as int));
                assert(opt_deref(next) == next_of(self.syllables@, i as int));
                assert(buf@ + render_name_from(self.syllables@, script, i as int + 1) =~= pre
                    + render_name_from(self.syllables@, script, i as int));
            }
            i = i + 1;
        }
        proof {
            assert(buf@ + render_name_from(self.syllables@, script, count as int) =~= buf@);
        }
        chars_to_string(&buf)
    }
}

} // verus!
