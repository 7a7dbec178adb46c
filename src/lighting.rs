use vstd::prelude::*;

verus! {

/// The number of slots in the packed light array on the GPU.
pub const MAX_LIGHTS: usize = 10;

/// Bytes of one light record: position, pad, color, pad, view-projection.
pub const LIGHT_RECORD_SIZE: u64 = 96;

/// Bytes of the active-count value at the head of the light bindings.
pub const LIGHT_COUNT_SIZE: u64 = 4;

/// Why a light could not be added.
#[derive(Clone, Copy, Debug, PartialEq, Eq, Structural)]
pub enum LightingError {
    /// The registry already holds `MAX_LIGHTS - 1` lights.
    CapacityExhausted,
}

/// Where a newly added light goes on the GPU: its record is copied to
/// `record_offset` in the packed array, and `active_count` is written to the
/// count buffer.
#[derive(Clone, Copy, Debug, PartialEq, Eq, Structural)]
pub struct LightUpload {
    pub index: usize,
    pub record_offset: u64,
    pub record_size: u64,
    pub active_count: u32,
}

/// Whether one more light can be added to a registry holding `names`.
/// One slot of the array is kept free, so at most `MAX_LIGHTS - 1` lights
/// are held.
pub open spec fn has_room(names: Seq<Seq<char>>) -> bool {
    names.len() < MAX_LIGHTS - 1
}

/// The names after adding a light called `name`: a new name goes last, a
/// name already held keeps its slot, and a full registry stays as it is.
pub open spec fn names_after_add(names: Seq<Seq<char>>, name: Seq<char>) -> Seq<Seq<char>> {
    if !has_room(names) || names.contains(name) {
        names
    } else {
        names.push(name)
    }
}

/// The slot that a light called `name` takes when added to `names`.
pub open spec fn slot_for(names: Seq<Seq<char>>, name: Seq<char>) -> int {
    if names.contains(name) {
        names.index_of(name)
    } else {
        names.len() as int
    }
}

/// The GPU upload that goes with putting a light in `slot` of a registry
/// that then holds `count` lights.
pub open spec fn upload_for(slot: int, count: int) -> LightUpload {
    LightUpload {
        index: slot as usize,
        record_offset: (slot * LIGHT_RECORD_SIZE) as u64,
        record_size: LIGHT_RECORD_SIZE,
        active_count: count as u32,
    }
}

/// The byte offset of the record in slot `index` of the packed light array.
pub fn record_offset(index: usize) -> (r: u64)
    requires
        index < MAX_LIGHTS,
    ensures
        r == index * LIGHT_RECORD_SIZE,
{
    index as u64 * LIGHT_RECORD_SIZE
}

/// The result of adding a light called `name` to a registry holding `names`.
pub open spec fn add_outcome(names: Seq<Seq<char>>, name: Seq<char>) -> Result<
    LightUpload,
    LightingError,
> {
    if !has_room(names) {
        Err(LightingError::CapacityExhausted)
    } else {
        Ok(upload_for(slot_for(names, name), names_after_add(names, name).len() as int))
    }
}

/// The names after adding lights under each of `adds` in turn.
pub open spec fn names_after_adds(names: Seq<Seq<char>>, adds: Seq<Seq<char>>) -> Seq<Seq<char>>
    decreases adds.len(),
{
    if adds.len() == 0 {
        names
    } else {
        names_after_add(names_after_adds(names, adds.drop_last()), adds.last())
    }
}

proof fn lemma_distinct_adds_fill(adds: Seq<Seq<char>>, i: int)
    requires
        adds.no_duplicates(),
        0 <= i < MAX_LIGHTS,
        i <= adds.len(),
    ensures
        names_after_adds(Seq::empty(), adds.take(i)) == adds.take(i),
    decreases i,
{
    if i > 0 {
        lemma_distinct_adds_fill(adds, i - 1);
        let prefix = adds.take(i - 1);
        assert(adds.take(i).drop_last() == prefix);
        assert(adds.take(i).last() == adds[i - 1]);
        assert(!prefix.contains(adds[i - 1]));
        assert(prefix.push(adds[i - 1]) == adds.take(i));
    }
}

/// Starting from an empty registry and adding lights under `MAX_LIGHTS`
/// distinct names, the first `MAX_LIGHTS - 1` additions succeed, each taking
/// the next slot, and the last one fails for lack of room, leaving
/// `MAX_LIGHTS - 1` lights held.
pub proof fn lemma_capacity(adds: Seq<Seq<char>>)
    requires
        adds.len() == MAX_LIGHTS,
        adds.no_duplicates(),
    ensures
        forall|i: int|
            0 <= i < MAX_LIGHTS - 1 ==> add_outcome(
                #[trigger] names_after_adds(Seq::empty(), adds.take(i)),
                adds[i],
            ) == Ok::<LightUpload, LightingError>(upload_for(i, i + 1)),
        add_outcome(names_after_adds(Seq::empty(), adds.take(MAX_LIGHTS - 1)), adds.last())
            == Err::<LightUpload, LightingError>(LightingError::CapacityExhausted),
        names_after_adds(Seq::empty(), adds).len() == MAX_LIGHTS - 1,
{
    assert forall|i: int| 0 <= i < MAX_LIGHTS - 1 implies add_outcome(
        #[trigger] names_after_adds(Seq::empty(), adds.take(i)),
        adds[i],
    ) == Ok::<LightUpload, LightingError>(upload_for(i, i + 1)) by {
        lemma_distinct_adds_fill(adds, i);
        let prefix = adds.take(i);
        assert(!prefix.contains(adds[i]));
        assert(names_after_add(prefix, adds[i]).len() == i + 1);
    }
    lemma_distinct_adds_fill(adds, MAX_LIGHTS - 1);
    assert(adds.drop_last() == adds.take(MAX_LIGHTS - 1));
}

/// Whether two strings hold the same characters.
pub fn same_name(a: &str, b: &str) -> (r: bool)
    ensures
        r == (a@ == b@),
{
    let n = a.unicode_len();
    if n != b.unicode_len() {
        return false;
    }
    let mut i: usize = 0;
    while i < n
        invariant
            n == a@.len(),
            n == b@.len(),
            i <= n,
            a@.subrange(0, i as int) == b@.subrange(0, i as int),
        decreases n - i,
    {
        if a.get_char(i) != b.get_char(i) {
            assert(a@[i as int] != b@[i as int]);
            return false;
        }
        assert(a@.subrange(0, i + 1) == a@.subrange(0, i as int).push(a@[i as int]));
        assert(b@.subrange(0, i + 1) == b@.subrange(0, i as int).push(b@[i as int]));
        i = i + 1;
    }
    assert(a@ == a@.subrange(0, n as int));
    assert(b@ == b@.subrange(0, n as int));
    true
}

/// A bounded collection of named lights. The index of a light is its slot in
/// the packed GPU array, given in order of first insertion.
pub struct Lighting<L> {
    names: Vec<String>,
    lights: Vec<L>,
}

impl<L> Lighting<L> {
    /// The names held, by slot.
    pub closed spec fn names(&self) -> Seq<Seq<char>> {
        self.names@.map_values(|s: String| s@)
    }

    /// The lights held, by slot.
    pub closed spec fn lights(&self) -> Seq<L> {
        self.lights@
    }

    /// One light per name, names distinct, and one slot kept free.
    pub open spec fn wf(&self) -> bool {
        &&& self.names().len() == self.lights().len()
        &&& self.names().len() < MAX_LIGHTS
        &&& has_room(self.names()) || self.names().len() == MAX_LIGHTS - 1
        &&& self.names().no_duplicates()
    }

    /// An empty registry.
    pub fn new() -> (r: Self)
        ensures
            r.wf(),
            r.names() == Seq::<Seq<char>>::empty(),
            r.lights() == Seq::<L>::empty(),
    {
        let r = Lighting { names: Vec::new(), lights: Vec::new() };
        assert(r.names() =~= Seq::<Seq<char>>::empty());
        r
    }

    /// The number of lights held.
    pub fn len(&self) -> (r: usize)
        requires
            self.wf(),
        ensures
            r == self.names().len(),
    {
        self.names.len()
    }

    /// The slot of the light called `name`, if one is held.
    pub fn position(&self, name: &str) -> (r: Option<usize>)
        requires
            self.wf(),
        ensures
            r is None <==> !self.names().contains(name@),
            r matches Some(i) ==> i < self.names().len() && self.names()[i as int] == name@,
    {
        let mut i: usize = 0;
        while i < self.names.len()
            invariant
                self.wf(),
                i <= self.names@.len(),
                forall|j: int| 0 <= j < i ==> self.names()[j] != name@,
            decreases self.names@.len() - i,
        {
            if same_name(self.names[i].as_str(), name) {
                assert(self.names()[i as int] == name@);
                return Some(i);
            }
            i = i + 1;
        }
        None
    }

    /// Adds `light` under `name` and says where its record goes on the GPU.
    /// A name already held keeps its slot and its light is replaced; the
    /// replaced light is dropped. Fails, changing nothing, when the registry
    /// already holds `MAX_LIGHTS - 1` lights.
    pub fn add_spotlight(&mut self, name: String, light: L) -> (r: Result<LightUpload, LightingError>)
        requires
            old(self).wf(),
        ensures
            final(self).wf(),
            r == add_outcome(old(self).names(), name@),
            final(self).names() == names_after_add(old(self).names(), name@),
            r is Err ==> final(self).lights() == old(self).lights(),
            r is Ok ==> final(self).lights() == if old(self).names().contains(name@) {
                old(self).lights().update(slot_for(old(self).names(), name@), light)
            } else {
                old(self).lights().push(light)
            },
    {
        let ghost old_names = self.names();
        if self.names.len() == MAX_LIGHTS - 1 {
            return Err(LightingError::CapacityExhausted);
        }
        let slot = self.position(name.as_str());
        match slot {
            Some(i) => {
                self.lights.set(i, light);
                proof {
                    assert(old_names.contains(name@));
                    let k = old_names.index_of(name@);
                    assert(old_names[k] == name@);
                    assert(k == i);
                }
                let count = self.names.len();
                Ok(LightUpload {
                    index: i,
                    record_offset: record_offset(i),
                    record_size: LIGHT_RECORD_SIZE,
                    active_count: count as u32,
                })
            },
            None => {
                let i = self.names.len();
                self.names.push(name);
                self.lights.push(light);
                proof {
                    assert(self.names() =~= old_names.push(name@));
                    assert forall|a: int, b: int|
                        0 <= a < self.names().len() && 0 <= b < self.names().len() && a != b
                        implies self.names()[a] != self.names()[b] by {
                        if a < old_names.len() && b < old_names.len() {
                        } else if a == old_names.len() {
                            assert(old_names[b] != name@);
                        } else {
                            assert(old_names[a] != name@);
                        }
                    }
                }
                Ok(LightUpload {
                    index: i,
                    record_offset: record_offset(i),
                    record_size: LIGHT_RECORD_SIZE,
                    active_count: (i + 1) as u32,
                })
            },
        }
    }

    /// The light called `name`, if one is held.
    pub fn get(&self, name: &str) -> (r: Option<&L>)
        requires
            self.wf(),
        ensures
            r is None <==> !self.names().contains(name@),
            r matches Some(l) ==> *l == self.lights()[self.names().index_of(name@)],
    {
        match self.position(name) {
            Some(i) => Some(&self.lights[i]),
            None => None,
        }
    }

    /// The light called `name`, if one is held, to change in place.
    pub fn get_mut(&mut self, name: &str) -> (r: Option<&mut L>)
        requires
            old(self).wf(),
        ensures
            final(self).wf(),
            final(self).names() == old(self).names(),
            r is None <==> !old(self).names().contains(name@),
            r is None ==> final(self).lights() == old(self).lights(),
            r matches Some(l) ==> {
                let k = old(self).names().index_of(name@);
                &&& *l == old(self).lights()[k]
                &&& final(self).lights() == old(self).lights().update(k, *final(l))
            },
    {
        match self.position(name) {
            Some(i) => Some(&mut self.lights[i]),
            None => None,
        }
    }

    /// The names held, by slot.
    pub fn keys(&self) -> (r: &Vec<String>)
        requires
            self.wf(),
        ensures
            r@.map_values(|s: String| s@) == self.names(),
    {
        &self.names
    }

    /// The lights held, by slot: the order in which they are baked and drawn.
    pub fn values(&self) -> (r: &Vec<L>)
        requires
            self.wf(),
        ensures
            r@ == self.lights(),
    {
        &self.lights
    }
}

} // verus!
