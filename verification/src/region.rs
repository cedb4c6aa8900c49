//! Processing of one region's decoded chunk data into the compact
//! intermediate representation: per-chunk layer arrays with region-local
//! biome interning.

use vstd::prelude::*;
use indexmap::IndexSet;
use crate::coords::CHUNKS_PER_REGION_SQUARED;

verus! {

/// Identifier of a biome, as reported by the chunk decoder
pub type Biome = u32;

/// Number of block columns in one chunk
pub const BLOCKS_PER_CHUNK_SQUARED: usize = 256;

#[verifier::external_type_specification]
#[verifier::external_body]
#[verifier::reject_recursive_types(T)]
#[verifier::reject_recursive_types(S)]
pub struct ExIndexSet<T, S>(IndexSet<T, S>);

/// The elements an insertion-ordered deduplicated biome set holds, in order
pub uninterp spec fn biome_list_elems(s: IndexSet<Biome>) -> Seq<Biome>;

/// Relies on `indexmap::IndexSet::new`: creates an empty set.
#[verifier::external_body]
fn biome_list_new() -> (r: IndexSet<Biome>)
    ensures
        biome_list_elems(r) == Seq::<Biome>::empty(),
{
    IndexSet::new()
}

/// Relies on `indexmap::IndexSet::insert_full`: if an equal element exists,
/// returns its index and `false` without any change; otherwise appends the
/// element at the end and returns its index and `true`.
#[verifier::external_body]
fn biome_list_insert_full(s: &mut IndexSet<Biome>, value: Biome) -> (r: (usize, bool))
    ensures
        r.1 == !biome_list_elems(*old(s)).contains(value),
        r.1 ==> biome_list_elems(*final (s)) == biome_list_elems(*old(s)).push(value) && r.0
            == biome_list_elems(*old(s)).len(),
        !r.1 ==> biome_list_elems(*final (s)) == biome_list_elems(*old(s)) && r.0
            < biome_list_elems(*old(s)).len() && biome_list_elems(*old(s))[r.0 as int] == value,
{
    s.insert_full(value)
}

/// Relies on `indexmap::IndexSet::get_index`: returns the element at the
/// given insertion-order index, or `None` when the index is out of range.
#[verifier::external_body]
pub fn biome_list_get(s: &IndexSet<Biome>, index: usize) -> (r: Option<Biome>)
    ensures
        match r {
            Some(b) => index < biome_list_elems(*s).len() && b == biome_list_elems(*s)[index as int],
            None => index >= biome_list_elems(*s).len(),
        },
{
    s.get_index(index).copied()
}

/// Relies on `indexmap::IndexSet::len`: returns the number of elements.
#[verifier::external_body]
pub fn biome_list_len(s: &IndexSet<Biome>) -> (r: usize)
    ensures
        r == biome_list_elems(*s).len(),
{
    s.len()
}

/// Decoded layer data of one chunk, as handed over by the chunk decoder
pub struct DecodedChunk {
    /// Block type of each block column
    pub blocks: Vec<u16>,
    /// Biome identifier of each block column
    pub biomes: Vec<Biome>,
    /// Height or depth value of each block column
    pub depths: Vec<u16>,
}

impl DecodedChunk {
    /// All three layers cover exactly the chunk's block columns
    pub open spec fn wf(self) -> bool {
        self.blocks@.len() == BLOCKS_PER_CHUNK_SQUARED && self.biomes@.len()
            == BLOCKS_PER_CHUNK_SQUARED && self.depths@.len() == BLOCKS_PER_CHUNK_SQUARED
    }
}

/// What the decoder reported for one chunk slot of a region
pub enum DecodedSlot {
    /// No chunk data exists at this slot (unloaded or ungenerated)
    Absent,
    /// The slot's data failed to decode; it is treated as absent
    Corrupt,
    /// The slot holds decoded layer data
    Present(DecodedChunk),
}

/// Data structure for storing chunk data between processing and rendering steps
pub struct ProcessedChunk {
    /// Block type data
    pub blocks: Vec<u16>,
    /// Biome data, as indices into the owning region's biome list
    pub biomes: Vec<u32>,
    /// Block height/depth data
    pub depths: Vec<u16>,
}

impl ProcessedChunk {
    /// All three layers cover exactly the chunk's block columns
    pub open spec fn wf(self) -> bool {
        self.blocks@.len() == BLOCKS_PER_CHUNK_SQUARED && self.biomes@.len()
            == BLOCKS_PER_CHUNK_SQUARED && self.depths@.len() == BLOCKS_PER_CHUNK_SQUARED
    }
}

/// Data structure for storing region data between processing and rendering steps
pub struct ProcessedRegion {
    /// List of biomes used in the region, indexed by chunk biome data
    pub biome_list: IndexSet<Biome>,
    /// Processed chunk data, one optional entry per chunk slot
    pub chunks: Vec<Option<ProcessedChunk>>,
}

impl ProcessedRegion {
    /// The region covers every chunk slot, every chunk is well-formed, and
    /// every stored biome index points into the region's biome list
    pub open spec fn wf(self) -> bool {
        &&& self.chunks@.len() == CHUNKS_PER_REGION_SQUARED
        &&& forall|i: int|
            0 <= i < self.chunks@.len() && self.chunks@[i] is Some ==> {
                let chunk = self.chunks@[i]->Some_0;
                &&& chunk.wf()
                &&& forall|j: int|
                    0 <= j < chunk.biomes@.len() ==> #[trigger] chunk.biomes@[j]
                        < biome_list_elems(self.biome_list).len()
            }
    }
}

/// Interns a biome into the region-local list and returns its index
///
/// The list only ever grows by appending never-seen biomes at the end, so
/// indices handed out earlier stay valid and keep their meaning.
fn intern_biome(list: &mut IndexSet<Biome>, value: Biome) -> (idx: usize)
    ensures
        idx < biome_list_elems(*final (list)).len(),
        biome_list_elems(*final (list))[idx as int] == value,
        biome_list_elems(*old(list)).contains(value) ==> biome_list_elems(*final (list))
            == biome_list_elems(*old(list)),
        !biome_list_elems(*old(list)).contains(value) ==> biome_list_elems(*final (list))
            == biome_list_elems(*old(list)).push(value),
        biome_list_elems(*old(list)).is_prefix_of(biome_list_elems(*final (list))),
        biome_list_elems(*final (list)).len() <= biome_list_elems(*old(list)).len() + 1,
{
    let (idx, _inserted) = biome_list_insert_full(list, value);
    idx
}

/// The biome list after scanning one chunk's biome layer in column order:
/// every never-seen biome is appended at its first occurrence
pub open spec fn spec_intern_chunk(acc: Seq<Biome>, biomes: Seq<Biome>) -> Seq<Biome>
    decreases biomes.len(),
{
    if biomes.len() == 0 {
        acc
    } else {
        let prev = spec_intern_chunk(acc, biomes.drop_last());
        if prev.contains(biomes.last()) {
            prev
        } else {
            prev.push(biomes.last())
        }
    }
}

/// The biome list a region's decoded slots produce: the slots scanned in
/// slot order, each present chunk's biome layer in column order, every
/// never-seen biome appended at its first occurrence
pub open spec fn spec_region_biome_list(slots: Seq<DecodedSlot>) -> Seq<Biome>
    decreases slots.len(),
{
    if slots.len() == 0 {
        Seq::empty()
    } else {
        let prev = spec_region_biome_list(slots.drop_last());
        if slots.last() is Present {
            spec_intern_chunk(prev, slots.last()->Present_0.biomes@)
        } else {
            prev
        }
    }
}

/// No biome appears twice in the list
pub open spec fn distinct_biomes(elems: Seq<Biome>) -> bool {
    forall|k1: int, k2: int| 0 <= k1 < k2 < elems.len() ==> elems[k1] != elems[k2]
}

/// Translates one decoded chunk's biome layer into region-local indices
fn process_chunk(chunk: &DecodedChunk, list: &mut IndexSet<Biome>) -> (r: ProcessedChunk)
    requires
        chunk.wf(),
        biome_list_elems(*old(list)).len() + BLOCKS_PER_CHUNK_SQUARED < 0x100000000,
    ensures
        r.wf(),
        r.blocks@ == chunk.blocks@,
        r.depths@ == chunk.depths@,
        forall|j: int|
            0 <= j < r.biomes@.len() ==> #[trigger] r.biomes@[j] < biome_list_elems(
                *final (list),
            ).len() && biome_list_elems(*final (list))[r.biomes@[j] as int] == chunk.biomes@[j],
        biome_list_elems(*old(list)).is_prefix_of(biome_list_elems(*final (list))),
        biome_list_elems(*final (list)).len() <= biome_list_elems(*old(list)).len()
            + BLOCKS_PER_CHUNK_SQUARED,
        forall|k: int|
            biome_list_elems(*old(list)).len() <= k < biome_list_elems(*final (list)).len()
                ==> chunk.biomes@.contains(#[trigger] biome_list_elems(*final (list))[k]),
        biome_list_elems(*final (list)) == spec_intern_chunk(
            biome_list_elems(*old(list)),
            chunk.biomes@,
        ),
        distinct_biomes(biome_list_elems(*old(list))) ==> distinct_biomes(
            biome_list_elems(*final (list)),
        ),
{
    let mut biomes: Vec<u32> = Vec::new();
    let mut j: usize = 0;
    while j < BLOCKS_PER_CHUNK_SQUARED
        invariant
            chunk.wf(),
            j <= BLOCKS_PER_CHUNK_SQUARED,
            biomes@.len() == j,
            biome_list_elems(*old(list)).is_prefix_of(biome_list_elems(*list)),
            biome_list_elems(*list).len() <= biome_list_elems(*old(list)).len() + j,
            biome_list_elems(*old(list)).len() + BLOCKS_PER_CHUNK_SQUARED < 0x100000000,
            forall|k: int|
                0 <= k < j ==> #[trigger] biomes@[k] < biome_list_elems(*list).len()
                    && biome_list_elems(*list)[biomes@[k] as int] == chunk.biomes@[k],
            forall|k: int|
                biome_list_elems(*old(list)).len() <= k < biome_list_elems(*list).len()
                    ==> chunk.biomes@.contains(#[trigger] biome_list_elems(*list)[k]),
            biome_list_elems(*list) == spec_intern_chunk(
                biome_list_elems(*old(list)),
                chunk.biomes@.take(j as int),
            ),
            distinct_biomes(biome_list_elems(*old(list))) ==> distinct_biomes(
                biome_list_elems(*list),
            ),
        decreases BLOCKS_PER_CHUNK_SQUARED - j,
    {
        let ghost elems_before = biome_list_elems(*list);
        let idx = intern_biome(list, chunk.biomes[j]);
        proof {
            assert(elems_before.is_prefix_of(biome_list_elems(*list)));
            assert(chunk.biomes@.take(j + 1).drop_last() =~= chunk.biomes@.take(j as int));
            assert(chunk.biomes@.take(j + 1).last() == chunk.biomes@[j as int]);
            assert(biome_list_elems(*list) == spec_intern_chunk(
                biome_list_elems(*old(list)),
                chunk.biomes@.take(j + 1),
            ));
            if distinct_biomes(elems_before) && !elems_before.contains(chunk.biomes@[j as int]) {
                let b = chunk.biomes@[j as int];
                assert forall|k1: int, k2: int|
                    0 <= k1 < k2 < biome_list_elems(*list).len() implies biome_list_elems(
                    *list,
                )[k1] != biome_list_elems(*list)[k2] by {
                    if k2 < elems_before.len() {
                        assert(biome_list_elems(*list)[k1] == elems_before[k1]);
                        assert(biome_list_elems(*list)[k2] == elems_before[k2]);
                    } else {
                        assert(biome_list_elems(*list)[k2] == b);
                        assert(biome_list_elems(*list)[k1] == elems_before[k1]);
                        if elems_before[k1] == b {
                            assert(elems_before.contains(b));
                        }
                    }
                }
            }
            assert forall|k: int|
                biome_list_elems(*old(list)).len() <= k < biome_list_elems(*list).len() implies
                chunk.biomes@.contains(#[trigger] biome_list_elems(*list)[k]) by {
                if k < elems_before.len() {
                    assert(biome_list_elems(*list)[k] == elems_before[k]);
                } else {
                    assert(biome_list_elems(*list)[k] == chunk.biomes@[j as int]);
                    assert(chunk.biomes@.contains(chunk.biomes@[j as int]));
                }
            }
            assert forall|k: int| 0 <= k < j implies #[trigger] biomes@[k] < biome_list_elems(
                *list,
            ).len() && biome_list_elems(*list)[biomes@[k] as int] == chunk.biomes@[k] by {
                assert(biomes@[k] < elems_before.len());
                assert(elems_before[biomes@[k] as int] == chunk.biomes@[k]);
            }
        }
        biomes.push(idx as u32);
        j += 1;
    }
    proof {
        assert(chunk.biomes@.take(chunk.biomes@.len() as int) =~= chunk.biomes@);
    }
    ProcessedChunk { blocks: clone_u16_vec(&chunk.blocks), biomes, depths: clone_u16_vec(&chunk.depths) }
}

/// Copies a layer array
fn clone_u16_vec(v: &Vec<u16>) -> (r: Vec<u16>)
    ensures
        r@ == v@,
{
    let mut r: Vec<u16> = Vec::new();
    let mut i: usize = 0;
    while i < v.len()
        invariant
            i <= v@.len(),
            r@ == v@.take(i as int),
        decreases v@.len() - i,
    {
        r.push(v[i]);
        proof {
            assert(v@.take(i + 1) =~= v@.take(i as int).push(v@[i as int]));
        }
        i += 1;
    }
    proof {
        assert(v@.take(v@.len() as int) =~= v@);
    }
    r
}

/// Every entry of a region's biome list was reported by the decoder for
/// some present chunk slot
pub open spec fn biomes_sourced(slots: Seq<DecodedSlot>, elems: Seq<Biome>) -> bool {
    forall|k: int| #![trigger elems[k]]
        0 <= k < elems.len() ==> exists|s: int|
            0 <= s < slots.len() && (#[trigger] slots[s]) is Present && slots[s]->Present_0.biomes@.contains(
                elems[k],
            )
}

/// Builds a region's intermediate representation from its decoded chunk slots
///
/// Every chunk slot the decoder reported as present yields a processed chunk
/// at the same slot; absent and corrupt slots stay empty, and a corrupt slot
/// never aborts the region. Each processed chunk's biome layer holds indices
/// into the region's biome list, and looking an index up again yields
/// exactly the biome identifier the decoder reported. The biome list is
/// duplicate-free and ordered by first occurrence over the fixed scan of the
/// slots: it equals `spec_region_biome_list` of the input.
pub fn process_region(slots: &Vec<DecodedSlot>) -> (r: ProcessedRegion)
    requires
        slots@.len() == CHUNKS_PER_REGION_SQUARED,
        forall|i: int|
            0 <= i < slots@.len() && slots@[i] is Present ==> (#[trigger] slots@[i])->Present_0.wf(),
    ensures
        r.wf(),
        forall|i: int|
            0 <= i < slots@.len() ==> (#[trigger] r.chunks@[i] is Some <==> slots@[i] is Present),
        forall|i: int|
            0 <= i < slots@.len() && slots@[i] is Present ==> {
                let chunk = (#[trigger] r.chunks@[i])->Some_0;
                let decoded = slots@[i]->Present_0;
                &&& chunk.blocks@ == decoded.blocks@
                &&& chunk.depths@ == decoded.depths@
                &&& forall|j: int|
                    0 <= j < chunk.biomes@.len() ==> biome_list_elems(
                        r.biome_list,
                    )[#[trigger] chunk.biomes@[j] as int] == decoded.biomes@[j]
            },
        biomes_sourced(slots@, biome_list_elems(r.biome_list)),
        biome_list_elems(r.biome_list) == spec_region_biome_list(slots@),
        distinct_biomes(biome_list_elems(r.biome_list)),
{
    let mut biome_list = biome_list_new();
    let mut chunks: Vec<Option<ProcessedChunk>> = Vec::new();
    let mut i: usize = 0;
    while i < CHUNKS_PER_REGION_SQUARED
        invariant
            slots@.len() == CHUNKS_PER_REGION_SQUARED,
            forall|k: int|
                0 <= k < slots@.len() && slots@[k] is Present ==> (#[trigger] slots@[k])->Present_0.wf(),
            i <= CHUNKS_PER_REGION_SQUARED,
            chunks@.len() == i,
            biome_list_elems(biome_list).len() <= i * BLOCKS_PER_CHUNK_SQUARED,
            forall|k: int|
                0 <= k < i ==> (#[trigger] chunks@[k] is Some <==> slots@[k] is Present),
            forall|k: int|
                0 <= k < i && slots@[k] is Present ==> {
                    let chunk = (#[trigger] chunks@[k])->Some_0;
                    let decoded = slots@[k]->Present_0;
                    &&& chunk.wf()
                    &&& chunk.blocks@ == decoded.blocks@
                    &&& chunk.depths@ == decoded.depths@
                    &&& forall|j: int|
                        0 <= j < chunk.biomes@.len() ==> #[trigger] chunk.biomes@[j]
                            < biome_list_elems(biome_list).len() && biome_list_elems(
                            biome_list,
                        )[chunk.biomes@[j] as int] == decoded.biomes@[j]
                },
            biomes_sourced(slots@, biome_list_elems(biome_list)),
            biome_list_elems(biome_list) == spec_region_biome_list(slots@.take(i as int)),
            distinct_biomes(biome_list_elems(biome_list)),
        decreases CHUNKS_PER_REGION_SQUARED - i,
    {
        let ghost elems_before = biome_list_elems(biome_list);
        let entry: Option<ProcessedChunk> = match &slots[i] {
            DecodedSlot::Present(chunk) => Some(process_chunk(chunk, &mut biome_list)),
            DecodedSlot::Absent => None,
            DecodedSlot::Corrupt => None,
        };
        proof {
            assert(elems_before.is_prefix_of(biome_list_elems(biome_list)));
            assert(slots@.take(i + 1).drop_last() =~= slots@.take(i as int));
            assert(slots@.take(i + 1).last() == slots@[i as int]);
            assert(biome_list_elems(biome_list) == spec_region_biome_list(slots@.take(i + 1)));
            assert forall|k: int| #![trigger biome_list_elems(biome_list)[k]]
                0 <= k < biome_list_elems(biome_list).len() implies exists|s: int|
                0 <= s < slots@.len() && (#[trigger] slots@[s]) is Present && slots@[s]->Present_0.biomes@.contains(
                    biome_list_elems(biome_list)[k],
                ) by {
                if k < elems_before.len() {
                    assert(biome_list_elems(biome_list)[k] == elems_before[k]);
                    let s = choose|s: int|
                        0 <= s < slots@.len() && (#[trigger] slots@[s]) is Present && slots@[s]->Present_0.biomes@.contains(
                            elems_before[k],
                        );
                    assert(slots@[s] is Present && slots@[s]->Present_0.biomes@.contains(
                        biome_list_elems(biome_list)[k],
                    ));
                } else {
                    assert(slots@[i as int] is Present);
                    assert(slots@[i as int]->Present_0.biomes@.contains(
                        biome_list_elems(biome_list)[k],
                    ));
                }
            }
            assert(biomes_sourced(slots@, biome_list_elems(biome_list)));
            assert forall|k: int| 0 <= k < i && slots@[k] is Present implies {
                let chunk = (#[trigger] chunks@[k])->Some_0;
                let decoded = slots@[k]->Present_0;
                forall|j: int|
                    0 <= j < chunk.biomes@.len() ==> #[trigger] chunk.biomes@[j]
                        < biome_list_elems(biome_list).len() && biome_list_elems(
                        biome_list,
                    )[chunk.biomes@[j] as int] == decoded.biomes@[j]
            } by {
                let chunk = chunks@[k]->Some_0;
                let decoded = slots@[k]->Present_0;
                assert forall|j: int| 0 <= j < chunk.biomes@.len() implies #[trigger] chunk.biomes@[j]
                    < biome_list_elems(biome_list).len() && biome_list_elems(
                    biome_list,
                )[chunk.biomes@[j] as int] == decoded.biomes@[j] by {
                    assert(chunk.biomes@[j] < elems_before.len());
                    assert(elems_before[chunk.biomes@[j] as int] == decoded.biomes@[j]);
                }
            }
        }
        chunks.push(entry);
        i += 1;
    }
    proof {
        assert(slots@.take(slots@.len() as int) =~= slots@);
    }
    ProcessedRegion { biome_list, chunks }
}

} // verus!
