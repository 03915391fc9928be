//! A fixed-size cubic grid of voxels, stored flat.

use vstd::prelude::*;

verus! {

/// The material of a solid voxel.
#[derive(Clone, Copy, Debug, PartialEq, Eq, Structural)]
pub struct BlockType(pub u8);

/// One cell of a chunk.
#[derive(Clone, Copy, Debug, PartialEq, Eq, Structural)]
pub enum Voxel {
    /// A solid cell of the given material.
    Block(BlockType),
    /// An empty cell.
    Empty,
}

/// Edge length of a chunk, in voxels.
pub const CHUNK_SIZE: u32 = 32;

/// Number of voxels in one layer of a chunk.
pub const CHUNK_SIZE_SQUARED: u32 = 1024;

/// Number of voxels in a chunk.
pub const CHUNK_SIZE_CUBED: u32 = 32768;

/// The place in the flat storage of the voxel at `(i, j, k)`: `i` runs
/// fastest, `k` slowest.
pub open spec fn index_of(i: int, j: int, k: int) -> int {
    i + j * 32 + k * 1024
}

/// The grid coordinates of the voxel stored at `index`.
pub open spec fn coords_of(index: int) -> (int, int, int) {
    (index % 32, (index / 32) % 32, index / 1024)
}

/// Whether `(i, j, k)` lies inside a chunk.
pub open spec fn in_chunk(i: int, j: int, k: int) -> bool {
    0 <= i < 32 && 0 <= j < 32 && 0 <= k < 32
}

/// Flattens grid coordinates into a storage index.
pub fn to_index(i: u32, j: u32, k: u32) -> (index: u32)
    requires
        in_chunk(i as int, j as int, k as int),
    ensures
        index == index_of(i as int, j as int, k as int),
        index < CHUNK_SIZE_CUBED,
{
    i + j * CHUNK_SIZE + k * CHUNK_SIZE_SQUARED
}

/// Recovers grid coordinates from a storage index.
pub fn to_coords(index: u32) -> (coords: (u32, u32, u32))
    requires
        index < CHUNK_SIZE_CUBED,
    ensures
        (coords.0 as int, coords.1 as int, coords.2 as int) == coords_of(index as int),
        in_chunk(coords.0 as int, coords.1 as int, coords.2 as int),
{
    let i = index % CHUNK_SIZE;
    let j = (index / CHUNK_SIZE) % CHUNK_SIZE;
    let k = index / CHUNK_SIZE_SQUARED;
    (i, j, k)
}

/// Flattening coordinates and recovering them gives the coordinates back.
pub proof fn lemma_coords_of_index(i: int, j: int, k: int)
    requires
        in_chunk(i, j, k),
    ensures
        0 <= index_of(i, j, k) < 32768,
        coords_of(index_of(i, j, k)) == (i, j, k),
{
}

/// Recovering coordinates from an index and flattening them gives the index
/// back, and the coordinates lie inside the chunk.
pub proof fn lemma_index_of_coords(index: int)
    requires
        0 <= index < 32768,
    ensures
        ({
            let (i, j, k) = coords_of(index);
            in_chunk(i, j, k) && index_of(i, j, k) == index
        }),
{
}

/// A checkerboard along the storage order: empty at even indices, a block of
/// material zero at odd ones.
pub open spec fn parity_voxel(index: u32) -> Voxel {
    if index % 2 == 0 {
        Voxel::Empty
    } else {
        Voxel::Block(BlockType(0))
    }
}

/// The voxel of the checkerboard pattern at `index`.
pub fn from_index(index: u32) -> (voxel: Voxel)
    ensures
        voxel == parity_voxel(index),
{
    match index % 2 {
        0 => Voxel::Empty,
        _ => Voxel::Block(BlockType(0)),
    }
}

/// A cube of `CHUNK_SIZE` voxels along each edge.
pub struct Chunk {
    data: [Voxel; 32768],
}

impl View for Chunk {
    type V = Seq<Voxel>;

    /// The voxels in storage order.
    closed spec fn view(&self) -> Seq<Voxel> {
        self.data@
    }
}

impl Chunk {
    /// The voxel at `(i, j, k)`.
    pub open spec fn spec_voxel(&self, i: int, j: int, k: int) -> Voxel {
        self@[index_of(i, j, k)]
    }

    /// A chunk with every voxel empty.
    pub fn new() -> (chunk: Self)
        ensures
            chunk@.len() == CHUNK_SIZE_CUBED,
            forall|index: int| 0 <= index < CHUNK_SIZE_CUBED ==> chunk@[index] == Voxel::Empty,
    {
        let chunk = Chunk { data: [Voxel::Empty;32768] };
        proof {
            broadcast use vstd::array::group_array_axioms;

        }
        chunk
    }

    /// The voxel at `(i, j, k)`.
    pub fn voxel(&self, i: u32, j: u32, k: u32) -> (voxel: Voxel)
        requires
            in_chunk(i as int, j as int, k as int),
        ensures
            voxel == self.spec_voxel(i as int, j as int, k as int),
    {
        self.data[to_index(i, j, k) as usize]
    }

    /// Number of voxels, which is the same for every chunk.
    pub fn len(&self) -> (len: usize)
        ensures
            len == CHUNK_SIZE_CUBED,
            len == self@.len(),
    {
        proof {
            broadcast use vstd::array::group_array_axioms;

        }
        32768
    }

    /// The voxel stored at `index`.
    pub fn get(&self, index: u32) -> (voxel: Voxel)
        requires
            index < CHUNK_SIZE_CUBED,
        ensures
            voxel == self@[index as int],
    {
        self.data[index as usize]
    }

    /// The voxels in storage order.
    pub fn as_slice(&self) -> (voxels: &[Voxel])
        ensures
            voxels@ == self@,
    {
        self.data.as_slice()
    }

    /// Overwrites this chunk with the voxels of `chunk`.
    pub fn copy(&mut self, chunk: &Chunk)
        ensures
            final(self)@ == chunk@,
    {
        self.data = chunk.data;
    }

    /// Fills the chunk with what `generate` gives for each storage index.
    pub fn generate_from_index<F>(&mut self, generate: F) where F: Fn(u32) -> Voxel
        requires
            forall|index: u32| index < CHUNK_SIZE_CUBED ==> call_requires(generate, (index,)),
        ensures
            final(self)@.len() == CHUNK_SIZE_CUBED,
            forall|index: u32|
                index < CHUNK_SIZE_CUBED ==> call_ensures(
                    generate,
                    (index,),
                    #[trigger] final(self)@[index as int],
                ),
    {
        let mut index: u32 = 0;
        while index < CHUNK_SIZE_CUBED
            invariant
                index <= CHUNK_SIZE_CUBED,
                self.data@.len() == CHUNK_SIZE_CUBED,
                forall|index: u32| index < CHUNK_SIZE_CUBED ==> call_requires(generate, (index,)),
                forall|done: u32|
                    done < index ==> call_ensures(
                        generate,
                        (done,),
                        #[trigger] self.data@[done as int],
                    ),
            decreases CHUNK_SIZE_CUBED - index,
        {
            let voxel = generate(index);
            self.data[index as usize] = voxel;
            index = index + 1;
        }
    }

    /// Fills the chunk with what `generate` gives for the coordinates of each
    /// voxel.
    pub fn generate_from_coords<F>(&mut self, generate: F) where F: Fn(u32, u32, u32) -> Voxel
        requires
            forall|i: u32, j: u32, k: u32|
                in_chunk(i as int, j as int, k as int) ==> call_requires(generate, (i, j, k)),
        ensures
            final(self)@.len() == CHUNK_SIZE_CUBED,
            forall|i: u32, j: u32, k: u32|
                in_chunk(i as int, j as int, k as int) ==> call_ensures(
                    generate,
                    (i, j, k),
                    #[trigger] final(self).spec_voxel(i as int, j as int, k as int),
                ),
    {
        let mut index: u32 = 0;
        while index < CHUNK_SIZE_CUBED
            invariant
                index <= CHUNK_SIZE_CUBED,
                self.data@.len() == CHUNK_SIZE_CUBED,
                forall|i: u32, j: u32, k: u32|
                    in_chunk(i as int, j as int, k as int) ==> call_requires(generate, (i, j, k)),
                forall|i: u32, j: u32, k: u32|
                    in_chunk(i as int, j as int, k as int) && index_of(
                        i as int,
                        j as int,
                        k as int,
                    ) < index ==> call_ensures(
                        generate,
                        (i, j, k),
                        #[trigger] self.spec_voxel(i as int, j as int, k as int),
                    ),
            decreases CHUNK_SIZE_CUBED - index,
        {
            let (i, j, k) = to_coords(index);
            let voxel = generate(i, j, k);
            let ghost before = *self;
            self.data[index as usize] = voxel;
            proof {
                assert forall|a: u32, b: u32, c: u32|
                    in_chunk(a as int, b as int, c as int) && index_of(
                        a as int,
                        b as int,
                        c as int,
                    ) < index + 1 implies call_ensures(
                    generate,
                    (a, b, c),
                    #[trigger] self.spec_voxel(a as int, b as int, c as int),
                ) by {
                    let at = index_of(a as int, b as int, c as int);
                    lemma_coords_of_index(a as int, b as int, c as int);
                    if at < index {
                        assert(self.spec_voxel(a as int, b as int, c as int) == before.spec_voxel(
                            a as int,
                            b as int,
                            c as int,
                        ));
                    } else {
                        assert(a == i && b == j && c == k);
                        assert(self.spec_voxel(a as int, b as int, c as int) == voxel);
                    }
                }
            }
            index = index + 1;
        }
    }
}

} // verus!
