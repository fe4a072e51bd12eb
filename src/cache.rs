use vstd::prelude::*;
use crate::ids::{program_key, program_key_of, Attributes, EffectMaterialId, GeometryId};
use crate::lines::{uses_vertex_colors, BaseLines, DrawCall, DrawPlan, IndexBuffer, LinesError};

verus! {

/// The keys of a cache after one draw that presents `key`: unchanged on a
/// hit, `key` appended on a miss.
pub open spec fn cache_step(keys: Seq<u32>, key: u32) -> Seq<u32> {
    if keys.contains(key) {
        keys
    } else {
        keys.push(key)
    }
}

/// The keys of a cache after `n` draws that all present `key`.
pub open spec fn repeated_draws(keys: Seq<u32>, key: u32, n: nat) -> Seq<u32>
    decreases n,
{
    if n == 0 {
        keys
    } else {
        cache_step(repeated_draws(keys, key, (n - 1) as nat), key)
    }
}

/// Compiled programs, each stored under the identity key it was built for.
/// Entries are never evicted; each key is held at most once.
pub struct ProgramCache<P> {
    keys: Vec<u32>,
    programs: Vec<P>,
}

impl<P> View for ProgramCache<P> {
    type V = Seq<u32>;

    /// The keys, in the order their programs were compiled.
    closed spec fn view(&self) -> Seq<u32> {
        self.keys@
    }
}

impl<P> ProgramCache<P> {
    pub closed spec fn wf(&self) -> bool {
        &&& self.keys@.len() == self.programs@.len()
        &&& self.keys@.no_duplicates()
    }

    /// The program stored in `slot`.
    pub closed spec fn program_at(&self, slot: int) -> P {
        self.programs@[slot]
    }

    pub fn new() -> (r: ProgramCache<P>)
        ensures
            r.wf(),
            r@ == Seq::<u32>::empty(),
    {
        ProgramCache { keys: Vec::new(), programs: Vec::new() }
    }

    /// How many programs have been compiled into this cache.
    pub fn compiled_count(&self) -> (r: usize)
        requires
            self.wf(),
        ensures
            r == self@.len(),
    {
        self.keys.len()
    }

    /// The slot that holds the program for `key`, if it was compiled.
    pub fn find(&self, key: u32) -> (r: Option<usize>)
        requires
            self.wf(),
        ensures
            r is Some == self@.contains(key),
            r matches Some(i) ==> i < self@.len() && self@[i as int] == key,
    {
        let mut i: usize = 0;
        while i < self.keys.len()
            invariant
                i <= self.keys@.len(),
                forall|j: int| 0 <= j < i ==> self.keys@[j] != key,
            decreases self.keys@.len() - i,
        {
            if self.keys[i] == key {
                return Some(i);
            }
            i = i + 1;
        }
        None
    }

    /// The program in `slot`.
    pub fn program(&self, slot: usize) -> (r: &P)
        requires
            self.wf(),
            slot < self@.len(),
        ensures
            *r == self.program_at(slot as int),
    {
        &self.programs[slot]
    }

    /// The slot of the program for `key`. On a hit nothing is compiled and
    /// the cache is unchanged. On a miss `compile` runs once; a program it
    /// returns is stored under `key`, a failure is handed back and the cache
    /// is unchanged.
    pub fn fetch_or_compile<E, F: FnOnce() -> Result<P, E>>(&mut self, key: u32, compile: F) -> (r: Result<usize, E>)
        requires
            old(self).wf(),
            !old(self)@.contains(key) ==> compile.requires(()),
        ensures
            final(self).wf(),
            old(self)@.contains(key) ==> {
                &&& r matches Ok(i) && old(self)@[i as int] == key
                &&& final(self)@ == old(self)@
                &&& forall|j: int| 0 <= j < old(self)@.len() ==> final(self).program_at(j) == old(self).program_at(j)
            },
            !old(self)@.contains(key) ==> match r {
                Ok(i) => {
                    &&& i == old(self)@.len()
                    &&& final(self)@ == old(self)@.push(key)
                    &&& compile.ensures((), Ok::<P, E>(final(self).program_at(i as int)))
                    &&& forall|j: int| 0 <= j < old(self)@.len() ==> final(self).program_at(j) == old(self).program_at(j)
                },
                Err(e) => {
                    &&& final(self)@ == old(self)@
                    &&& compile.ensures((), Err::<P, E>(e))
                    &&& forall|j: int| 0 <= j < old(self)@.len() ==> final(self).program_at(j) == old(self).program_at(j)
                },
            },
            r is Ok ==> final(self)@ == cache_step(old(self)@, key),
            r matches Ok(i) ==> i < final(self)@.len() && final(self)@[i as int] == key,
    {
        match self.find(key) {
            Some(i) => Ok(i),
            None => {
                match compile() {
                    Ok(program) => {
                        let slot = self.keys.len();
                        self.keys.push(key);
                        self.programs.push(program);
                        proof {
                            assert forall|a: int, b: int|
                                0 <= a < b < self.keys@.len() implies self.keys@[a] != self.keys@[b] by {
                                if b == slot as int {
                                    assert(old(self).keys@.contains(key) == false);
                                    assert(self.keys@[a] == old(self).keys@[a]);
                                }
                            }
                        }
                        Ok(slot)
                    },
                    Err(e) => Err(e),
                }
            },
        }
    }
}

/// A cache hit changes nothing: a second draw under the same key right after
/// the first leaves the cache as the first left it.
pub proof fn lemma_cache_step_idempotent(keys: Seq<u32>, key: u32)
    ensures
        cache_step(cache_step(keys, key), key) == cache_step(keys, key),
{
    if !keys.contains(key) {
        assert(keys.push(key)[keys.len() as int] == key);
    }
}

/// Any number of draws presenting one key compile at most once: after `n >= 1`
/// of them the cache holds exactly what it held after the first, one entry
/// more than before if the key was new, none otherwise.
pub proof fn lemma_repeated_draws_compile_once(keys: Seq<u32>, key: u32, n: nat)
    requires
        n >= 1,
    ensures
        repeated_draws(keys, key, n) == cache_step(keys, key),
        repeated_draws(keys, key, n).len() == keys.len() + (if keys.contains(key) { 0int } else { 1int }),
    decreases n,
{
    if n > 1 {
        lemma_repeated_draws_compile_once(keys, key, (n - 1) as nat);
        lemma_cache_step_idempotent(keys, key);
    } else {
        assert(repeated_draws(keys, key, 0) == keys);
    }
    assert(repeated_draws(keys, key, n) == cache_step(repeated_draws(keys, key, (n - 1) as nat), key));
}

/// Why a draw could not be issued.
#[derive(Debug)]
pub enum RenderError<E> {
    /// The program for the draw's key failed to compile.
    Compile { key: u32, error: E },
    /// The geometry cannot be drawn.
    Lines(LinesError),
}

/// A draw that went through: the cache slot of its program and what to bind
/// and issue.
#[derive(Clone, Copy, Debug, PartialEq, Eq, Structural)]
pub struct Drawn {
    pub slot: usize,
    pub key: u32,
    pub plan: DrawPlan,
}

/// Draws a line set with a material or effect: resolves the program key from
/// both identities, fetches the program or has `compile` build it, then
/// plans the draw. The program declares a color attribute exactly when its
/// vertex stage uses vertex colors.
pub fn render_lines<P, E, F: FnOnce() -> Result<P, E>>(
    cache: &mut ProgramCache<P>,
    lines: &BaseLines,
    required: Attributes,
    effect: &EffectMaterialId,
    compile: F,
) -> (r: Result<Drawn, RenderError<E>>)
    requires
        old(cache).wf(),
        !old(cache)@.contains(
            program_key_of(GeometryId::Lines { colors: uses_vertex_colors(*lines, required) }, *effect)
                as u32,
        ) ==> compile.requires(()),
    ensures
        final(cache).wf(),
        ({
            let key = program_key_of(GeometryId::Lines { colors: uses_vertex_colors(*lines, required) }, *effect) as u32;
            &&& final(cache)@ == old(cache)@ || final(cache)@ == cache_step(old(cache)@, key)
            &&& old(cache)@.contains(key) ==> final(cache)@ == old(cache)@
            &&& (old(cache)@.contains(key) && lines.vertex_count % 2 == 0) ==> r is Ok
            &&& r matches Err(RenderError::Compile { key: k, error: e }) ==> k == key && !old(cache)@.contains(key)
                && compile.ensures((), Err::<P, E>(e)) && final(cache)@ == old(cache)@
            &&& r matches Err(RenderError::Lines(err)) ==> lines.vertex_count % 2 == 1 && err
                == (LinesError::OddVertexCount { vertex_count: lines.vertex_count })
                && final(cache)@ == cache_step(old(cache)@, key)
            &&& r matches Ok(d) ==> {
                &&& d.key == key
                &&& final(cache)@ == cache_step(old(cache)@, key)
                &&& d.slot < final(cache)@.len() && final(cache)@[d.slot as int] == key
                &&& lines.vertex_count % 2 == 0
                &&& d.plan.attributes.position
                &&& d.plan.attributes.color == uses_vertex_colors(*lines, required)
                &&& d.plan.call == match lines.indices {
                    IndexBuffer::Unindexed => DrawCall::Arrays { vertex_count: lines.vertex_count },
                    IndexBuffer::Indexed { index_type, count } => DrawCall::Elements { index_type, count },
                }
            }
        }),
{
    let geometry = lines.id(required);
    let key = program_key(&geometry, effect);
    let slot = match cache.fetch_or_compile(key, compile) {
        Ok(slot) => slot,
        Err(error) => {
            return Err(RenderError::Compile { key, error });
        },
    };
    let program_requires_color = geometry == (GeometryId::Lines { colors: true });
    match lines.draw(program_requires_color) {
        Ok(plan) => Ok(Drawn { slot, key, plan }),
        Err(e) => Err(RenderError::Lines(e)),
    }
}

} // verus!
