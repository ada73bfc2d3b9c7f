//! The arena: one block of memory, and the cursor that carves it up.

use crate::arena_box::ArenaBox;
use crate::arena_box::Raw;
use crate::backing::aligned_alloc;
use crate::backing::AllocError;
use crate::backing::BlockRequest;
use crate::backing::ProviderReply;
use crate::unique::Unique;
use vstd::arithmetic::power2::is_pow2;
use vstd::layout::align_of;
use vstd::layout::layout_for_type_is_valid;
use vstd::layout::size_of;
use vstd::prelude::*;

verus! {

/// The least multiple of `alignment` that is not below `address`.
pub open spec fn round_up(address: int, alignment: int) -> int {
    if address % alignment == 0 {
        address
    } else {
        address + (alignment - address % alignment)
    }
}

/// What an arena is to its callers: the address of its block, the number of
/// bytes in the block, and how many of them are taken.
pub struct ArenaModel {
    pub base: int,
    pub capacity: int,
    pub used: int,
}

impl ArenaModel {
    /// The address at which the next value with this alignment would start.
    pub open spec fn next_address(self, alignment: int) -> int {
        round_up(self.base + self.used, alignment)
    }

    /// The bytes skipped in front of the next value with this alignment.
    pub open spec fn padding(self, alignment: int) -> int {
        self.next_address(alignment) - (self.base + self.used)
    }

    /// Whether `size` bytes with this alignment still fit into the block.
    pub open spec fn fits(self, size: int, alignment: int) -> bool {
        self.used + self.padding(alignment) + size <= self.capacity
    }

    /// The arena after `size` bytes with this alignment were taken.
    pub open spec fn place(self, size: int, alignment: int) -> ArenaModel {
        ArenaModel { used: self.used + self.padding(alignment) + size, ..self }
    }

    /// The arena after the first `n` of `requests`, each a pair of size and
    /// alignment, were taken one after the other.
    pub open spec fn place_first(self, requests: Seq<(int, int)>, n: int) -> ArenaModel
        decreases n,
    {
        if n <= 0 {
            self
        } else {
            self.place_first(requests, n - 1).place(requests[n - 1].0, requests[n - 1].1)
        }
    }

    /// Whether a value of type `T` can be placed: one without size always,
    /// any other where its bytes fit.
    pub open spec fn holds<T>(self) -> bool {
        size_of::<T>() == 0 || self.fits(size_of::<T>() as int, align_of::<T>() as int)
    }

    /// The address that a value of type `T` is given: for one without size
    /// its alignment, which is no place in the block.
    pub open spec fn address_for<T>(self) -> int {
        if size_of::<T>() == 0 {
            align_of::<T>() as int
        } else {
            self.next_address(align_of::<T>() as int)
        }
    }

    /// The arena after a value of type `T` was placed: unchanged by one
    /// without size.
    pub open spec fn place_value<T>(self) -> ArenaModel {
        if size_of::<T>() == 0 {
            self
        } else {
            self.place(size_of::<T>() as int, align_of::<T>() as int)
        }
    }

    /// The address at which request `i` of `requests` is placed.
    pub open spec fn address_of(self, requests: Seq<(int, int)>, i: int) -> int {
        self.place_first(requests, i).next_address(requests[i].1)
    }

    /// Whether each of `requests` fits when its turn comes.
    pub open spec fn all_fit(self, requests: Seq<(int, int)>) -> bool {
        forall|k: int|
            0 <= k < requests.len() ==> #[trigger] self.place_first(requests, k).fits(
                requests[k].0,
                requests[k].1,
            )
    }

    /// A block that starts at a positive address, with a cursor inside it.
    /// Every arena is such a one.
    pub open spec fn valid(self) -> bool {
        0 < self.base && 0 <= self.used <= self.capacity
    }

    /// Requests with sizes that are not negative and alignments that are
    /// positive.
    pub open spec fn sound(requests: Seq<(int, int)>) -> bool {
        forall|k: int|
            0 <= k < requests.len() ==> 0 <= (#[trigger] requests[k]).0 && 0 < requests[k].1
    }
}

/// A fixed block of memory from which byte ranges are taken one after the
/// other, each behind the last, and given back only all at once.
pub struct Arena {
    size: usize,
    used: usize,
    mem: usize,
}

/// What is to be done after `Arena::new`: the arena is there, or a block is
/// to be asked for first.
pub enum Construction {
    /// The arena needs no block and is ready.
    Ready(Arena),
    /// The block to obtain from the provider; `Arena::from_reply` takes the
    /// provider's answer.
    Acquire(BlockRequest),
}

impl View for Arena {
    type V = ArenaModel;

    closed spec fn view(&self) -> ArenaModel {
        ArenaModel { base: self.mem as int, capacity: self.size as int, used: self.used as int }
    }
}

impl Arena {
    #[verifier::type_invariant]
    spec fn well_formed(self) -> bool {
        &&& self.used <= self.size
        &&& self.mem != 0
        &&& self.mem + self.size <= usize::MAX
    }

    /// Begins an arena of `size` bytes whose block starts on a multiple of
    /// `alignment`. An arena of zero bytes has no block and is ready at once,
    /// with a base that is not zero and is never read through. For any other
    /// size the block is to be asked for.
    pub fn new(alignment: usize, size: usize) -> (r: Construction)
        requires
            is_pow2(alignment as int),
        ensures
            size == 0 ==> (r matches Construction::Ready(a) && a@ == (ArenaModel {
                base: 1,
                capacity: 0,
                used: 0,
            })),
            size != 0 ==> (r matches Construction::Acquire(request) && request == (BlockRequest {
                size,
                alignment,
            })),
    {
        match aligned_alloc(size, alignment) {
            Err(_) => Construction::Ready(Arena { size: 0, used: 0, mem: 1 }),
            Ok(request) => Construction::Acquire(request),
        }
    }

    /// Completes an arena with the provider's answer to `request`, which is
    /// the request that `new` gave: an empty arena over the block that the
    /// provider handed over, or its refusal as an error.
    pub fn from_reply(request: BlockRequest, reply: ProviderReply) -> (r: Result<Arena, AllocError>)
        requires
            request.size != 0,
            reply.honours(&request),
        ensures
            reply.errno != 0 ==> r == Err::<Arena, AllocError>(AllocError::Errno(reply.errno)),
            reply.errno == 0 ==> (r matches Ok(a) && a@ == (ArenaModel {
                base: reply.address as int,
                capacity: request.size as int,
                used: 0,
            }) && a@.base % (request.alignment as int) == 0),
    {
        match request.granted(&reply) {
            Err(e) => Err(e),
            Ok(mem) => Ok(Arena { size: request.size, used: 0, mem }),
        }
    }

    /// The number of bytes in the block.
    pub fn capacity(&self) -> (r: usize)
        ensures
            r == self@.capacity,
            self@.valid(),
            self@.base + self@.capacity <= usize::MAX,
    {
        proof {
            use_type_invariant(self);
        }
        self.size
    }

    /// The number of bytes taken so far, padding included.
    pub fn used(&self) -> (r: usize)
        ensures
            r == self@.used,
            self@.valid(),
    {
        proof {
            use_type_invariant(self);
        }
        self.used
    }

    /// The address of the block.
    pub fn base(&self) -> (r: usize)
        ensures
            r == self@.base,
            self@.valid(),
    {
        proof {
            use_type_invariant(self);
        }
        self.mem
    }

    /// Takes `size` bytes that start on a multiple of `alignment`, and
    /// returns their address. Where they do not fit behind what is taken
    /// already, nothing is taken.
    pub fn aligned_alloc(&mut self, size: usize, alignment: usize) -> (r: Option<usize>)
        requires
            is_pow2(alignment as int),
        ensures
            old(self)@.fits(size as int, alignment as int) ==> r == Some(
                old(self)@.next_address(alignment as int) as usize,
            ) && final(self)@ == old(self)@.place(size as int, alignment as int),
            !old(self)@.fits(size as int, alignment as int) ==> r.is_none() && final(self)@ == old(
                self,
            )@,
            (r matches Some(p) ==> {
                &&& p == old(self)@.next_address(alignment as int)
                &&& p != 0
                &&& p % alignment == 0
                &&& old(self)@.base + old(self)@.used <= p
                &&& p + size == final(self)@.base + final(self)@.used
                &&& p + size <= final(self)@.base + final(self)@.capacity
            }),
    {
        proof {
            use_type_invariant(&*self);
            reveal(is_pow2);
            lemma_round_up((self.mem + self.used) as int, alignment as int);
        }
        let unaligned_p: usize = self.mem + self.used;
        let rest: usize = unaligned_p % alignment;
        let offset: usize = if rest == 0 {
            0
        } else {
            alignment - rest
        };
        let room: usize = self.size - self.used;
        if offset > room || size > room - offset {
            return None;
        }
        self.used = self.used + offset + size;
        Some(unaligned_p + offset)
    }

    /// Takes the bytes for one value of type `T` and returns their address.
    /// A type without size takes no bytes and is given its alignment for an
    /// address.
    pub fn alloc_typed<T>(&mut self) -> (r: Option<usize>)
        ensures
            old(self)@.holds::<T>() ==> r == Some(old(self)@.address_for::<T>() as usize)
                && final(self)@ == old(self)@.place_value::<T>(),
            !old(self)@.holds::<T>() ==> r.is_none() && final(self)@ == old(self)@,
            (r matches Some(p) ==> p != 0 && p == old(self)@.address_for::<T>() && (p as int) % (
            align_of::<T>() as int) == 0),
    {
        layout_for_type_is_valid::<T>();
        let size: usize = core::mem::size_of::<T>();
        let alignment: usize = core::mem::align_of::<T>();
        if size == 0 {
            return Some(alignment);
        }
        self.aligned_alloc(size, alignment)
    }

    /// Places `x` in the arena and returns the handle that owns it. Where
    /// its bytes do not fit, the arena stays as it was and `x` comes back
    /// as the error.
    pub fn new_box<T>(&mut self, x: T) -> (r: Result<ArenaBox<T>, T>)
        ensures
            old(self)@.holds::<T>() ==> (r matches Ok(b) && b@ == x && b.address() == old(
                self,
            )@.address_for::<T>()) && final(self)@ == old(self)@.place_value::<T>(),
            !old(self)@.holds::<T>() ==> r == Err::<ArenaBox<T>, T>(x) && final(self)@ == old(
                self,
            )@,
            size_of::<T>() == 0 ==> r.is_ok() && final(self)@ == old(self)@,
    {
        match self.alloc_typed::<T>() {
            None => Err(x),
            Some(p) => Ok(ArenaBox::from_raw(Raw::new(Unique::new_unchecked(p), x))),
        }
    }

    /// Ends the arena and says which block is to go back to the provider:
    /// the arena's own, or none where it never had one.
    pub fn release(self) -> (r: Option<usize>)
        ensures
            self@.capacity == 0 ==> r.is_none(),
            self@.capacity != 0 ==> r == Some(self@.base as usize),
    {
        if self.size == 0 {
            None
        } else {
            Some(self.mem)
        }
    }
}

/// `round_up` gives a multiple of the alignment, not below the address and
/// less than one alignment above it.
pub proof fn lemma_round_up(address: int, alignment: int)
    requires
        0 <= address,
        0 < alignment,
    ensures
        round_up(address, alignment) % alignment == 0,
        address <= round_up(address, alignment) < address + alignment,
{
    let r = round_up(address, alignment);
    assert(r % alignment == 0 && address <= r < address + alignment) by (nonlinear_arith)
        requires
            0 <= address,
            0 < alignment,
            r == if address % alignment == 0 {
                address
            } else {
                address + (alignment - address % alignment)
            },
    ;
}

/// No multiple of the alignment lies between the address and `round_up` of
/// it: `round_up` gives the least one.
pub proof fn lemma_round_up_least(address: int, alignment: int, multiple: int)
    requires
        0 <= address,
        0 < alignment,
        address <= multiple,
        multiple % alignment == 0,
    ensures
        round_up(address, alignment) <= multiple,
{
    lemma_round_up(address, alignment);
    let r = round_up(address, alignment);
    assert(r <= multiple) by (nonlinear_arith)
        requires
            address <= multiple,
            multiple % alignment == 0,
            r % alignment == 0,
            r < address + alignment,
            0 < alignment,
    ;
}

/// Placing moves the cursor forward only, and leaves the block where it is.
pub proof fn lemma_cursor_advances(arena: ArenaModel, requests: Seq<(int, int)>, m: int, n: int)
    requires
        arena.valid(),
        ArenaModel::sound(requests),
        0 <= m <= n <= requests.len(),
    ensures
        arena.place_first(requests, m).used <= arena.place_first(requests, n).used,
        arena.place_first(requests, n).base == arena.base,
        arena.place_first(requests, n).capacity == arena.capacity,
        0 <= arena.place_first(requests, m).used,
    decreases n,
{
    if n > 0 {
        let before = arena.place_first(requests, n - 1);
        lemma_cursor_advances(arena, requests, if m < n { m } else { n - 1 }, n - 1);
        lemma_round_up(before.base + before.used, requests[n - 1].1);
    }
}

/// Ranges placed one after the other do not overlap, and each starts on a
/// multiple of its alignment: of any two, the earlier one ends at or before
/// the address at which the later one starts.
pub proof fn lemma_placements_disjoint(
    arena: ArenaModel,
    requests: Seq<(int, int)>,
    i: int,
    j: int,
)
    requires
        arena.valid(),
        ArenaModel::sound(requests),
        0 <= i < j < requests.len(),
    ensures
        arena.address_of(requests, i) % requests[i].1 == 0,
        arena.address_of(requests, j) % requests[j].1 == 0,
        arena.address_of(requests, i) + requests[i].0 <= arena.address_of(requests, j),
{
    let at_i = arena.place_first(requests, i);
    let at_j = arena.place_first(requests, j);
    lemma_cursor_advances(arena, requests, i, i);
    lemma_cursor_advances(arena, requests, i + 1, j);
    lemma_round_up(at_i.base + at_i.used, requests[i].1);
    lemma_round_up(at_j.base + at_j.used, requests[j].1);
    assert(arena.place_first(requests, i + 1) == at_i.place(requests[i].0, requests[i].1));
}

/// Ranges placed one after the other, each of which fitted when its turn
/// came, lie inside the block, behind what was taken before the first.
pub proof fn lemma_placements_in_block(arena: ArenaModel, requests: Seq<(int, int)>, i: int)
    requires
        arena.valid(),
        ArenaModel::sound(requests),
        arena.all_fit(requests),
        0 <= i < requests.len(),
    ensures
        arena.base + arena.used <= arena.address_of(requests, i),
        arena.address_of(requests, i) + requests[i].0 <= arena.base + arena.capacity,
{
    let at_i = arena.place_first(requests, i);
    lemma_cursor_advances(arena, requests, 0, i);
    lemma_round_up(at_i.base + at_i.used, requests[i].1);
    assert(at_i.fits(requests[i].0, requests[i].1));
}

} // verus!
