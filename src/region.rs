//! A window of physical memory, and the little-endian reads and tag-chain walk over it.

use vstd::prelude::*;

verus! {

/// The 16-bit little-endian value of the bytes `s[i]` and `s[i + 1]`.
pub open spec fn le_u16(s: Seq<u8>, i: int) -> int {
    s[i] as int + 256 * (s[i + 1] as int)
}

/// The 32-bit little-endian value of the four bytes from `s[i]`.
pub open spec fn le_u32(s: Seq<u8>, i: int) -> int {
    le_u16(s, i) + 0x1_0000 * le_u16(s, i + 2)
}

/// The 64-bit little-endian value of the eight bytes from `s[i]`.
pub open spec fn le_u64(s: Seq<u8>, i: int) -> int {
    le_u32(s, i) + 0x1_0000_0000 * le_u32(s, i + 4)
}

/// A slice never holds more than `usize::MAX` elements.
pub proof fn lemma_slice_len_fits(bytes: &[u8])
    ensures
        bytes@.len() <= usize::MAX,
{
    assert(bytes.len() == bytes@.len());
}

/// Reads the little-endian `u16` at offset `i` of `bytes`.
pub fn read_le_u16(bytes: &[u8], i: usize) -> (r: u16)
    requires
        i + 2 <= bytes@.len(),
    ensures
        r == le_u16(bytes@, i as int),
{
    let lo = bytes[i] as u16;
    let hi = bytes[i + 1] as u16;
    lo + 256 * hi
}

/// Reads the little-endian `u32` at offset `i` of `bytes`.
pub fn read_le_u32(bytes: &[u8], i: usize) -> (r: u32)
    requires
        i + 4 <= bytes@.len(),
    ensures
        r == le_u32(bytes@, i as int),
{
    proof {
        lemma_slice_len_fits(bytes);
    }
    let lo = read_le_u16(bytes, i) as u32;
    let hi = read_le_u16(bytes, i + 2) as u32;
    lo + 0x1_0000 * hi
}

/// Reads the little-endian `u64` at offset `i` of `bytes`.
pub fn read_le_u64(bytes: &[u8], i: usize) -> (r: u64)
    requires
        i + 8 <= bytes@.len(),
    ensures
        r == le_u64(bytes@, i as int),
{
    proof {
        lemma_slice_len_fits(bytes);
    }
    let lo = read_le_u32(bytes, i) as u64;
    let hi = read_le_u32(bytes, i + 4) as u64;
    lo + 0x1_0000_0000 * hi
}

/// The two little-endian bytes of `x`.
pub open spec fn le_bytes_u16(x: u16) -> Seq<u8> {
    seq![(x % 256) as u8, (x / 256) as u8]
}

/// The eight little-endian bytes of `x`.
pub open spec fn le_bytes_u64(x: u64) -> Seq<u8> {
    Seq::new(8, |i: int| ((x as int / pow256(i)) % 256) as u8)
}

/// 256 to the power `i`.
pub open spec fn pow256(i: int) -> int
    decreases i,
{
    if i <= 0 {
        1
    } else {
        256 * pow256(i - 1)
    }
}

/// Appends the two little-endian bytes of `x` to `out`.
pub fn push_le_u16(out: &mut Vec<u8>, x: u16)
    ensures
        final(out)@ == old(out)@ + le_bytes_u16(x),
{
    out.push((x % 256) as u8);
    out.push((x / 256) as u8);
    assert(final(out)@ =~= old(out)@ + le_bytes_u16(x));
}

/// Appends the eight little-endian bytes of `x` to `out`.
pub fn push_le_u64(out: &mut Vec<u8>, x: u64)
    ensures
        final(out)@ == old(out)@ + le_bytes_u64(x),
{
    let ghost start = out@;
    let mut rest: u64 = x;
    let mut i: usize = 0;
    while i < 8
        invariant
            0 <= i <= 8,
            out@.len() == start.len() + i,
            out@.subrange(0, start.len() as int) == start,
            rest == x as int / pow256(i as int),
            forall|j: int| 0 <= j < i ==> out@[start.len() + j] == le_bytes_u64(x)[j],
        decreases 8 - i,
    {
        proof {
            lemma_pow256_step(x, i as int);
        }
        out.push((rest % 256) as u8);
        rest = rest / 256;
        i += 1;
    }
    assert(out@ =~= start + le_bytes_u64(x));
}

/// Dividing by 256 once more moves to the next power.
proof fn lemma_pow256_step(x: u64, i: int)
    requires
        0 <= i,
    ensures
        pow256(i) > 0,
        (x as int / pow256(i)) / 256 == x as int / pow256(i + 1),
    decreases i,
{
    if i > 0 {
        lemma_pow256_step(x, i - 1);
    }
    assert(pow256(i + 1) == 256 * pow256(i));
    let p = pow256(i);
    assert((x as int / p) / 256 == x as int / (p * 256)) by (nonlinear_arith)
        requires
            p > 0,
            x >= 0,
    ;
}

/// Bytes of memory, `bytes[i]` standing at physical address `base + i`.
///
/// The boot information lives in memory that the loader filled and that stays
/// mapped for the kernel's whole run; a `BootRegion` is the kernel's view of it.
#[derive(Clone, Copy)]
pub struct BootRegion<'a> {
    pub base: u64,
    pub bytes: &'a [u8],
}

impl<'a> BootRegion<'a> {
    /// Creates the view of `bytes`, the first of which lies at address `base`.
    pub fn new(base: u64, bytes: &'a [u8]) -> (r: BootRegion<'a>)
        ensures
            r.base == base,
            r.bytes@ == bytes@,
    {
        BootRegion { base, bytes }
    }

    /// Whether the `len` bytes from address `addr` all lie in the region.
    pub open spec fn holds(&self, addr: int, len: int) -> bool {
        &&& 0 <= len
        &&& self.base <= addr
        &&& addr + len <= self.base + self.bytes@.len()
        &&& addr + len <= u64::MAX
    }

    /// The byte at address `addr`.
    pub open spec fn byte_at(&self, addr: int) -> u8 {
        self.bytes@[addr - self.base]
    }

    /// The little-endian `u16` at address `addr`.
    pub open spec fn u16_at(&self, addr: int) -> u16 {
        le_u16(self.bytes@, addr - self.base) as u16
    }

    /// The little-endian `u32` at address `addr`.
    pub open spec fn u32_at(&self, addr: int) -> u32 {
        le_u32(self.bytes@, addr - self.base) as u32
    }

    /// The little-endian `u64` at address `addr`.
    pub open spec fn u64_at(&self, addr: int) -> u64 {
        le_u64(self.bytes@, addr - self.base) as u64
    }

    /// The `len` bytes from address `addr`.
    pub open spec fn bytes_at(&self, addr: int, len: int) -> Seq<u8> {
        self.bytes@.subrange(addr - self.base, addr - self.base + len)
    }

    /// Reads the byte at `addr`.
    pub fn read_u8(&self, addr: u64) -> (r: u8)
        requires
            self.holds(addr as int, 1),
        ensures
            r == self.byte_at(addr as int),
    {
        proof {
            lemma_slice_len_fits(self.bytes);
        }
        self.bytes[(addr - self.base) as usize]
    }

    /// Reads the little-endian `u16` at `addr`.
    pub fn read_u16(&self, addr: u64) -> (r: u16)
        requires
            self.holds(addr as int, 2),
        ensures
            r == self.u16_at(addr as int),
    {
        proof {
            lemma_slice_len_fits(self.bytes);
        }
        read_le_u16(self.bytes, (addr - self.base) as usize)
    }

    /// Reads the little-endian `u32` at `addr`.
    pub fn read_u32(&self, addr: u64) -> (r: u32)
        requires
            self.holds(addr as int, 4),
        ensures
            r == self.u32_at(addr as int),
    {
        proof {
            lemma_slice_len_fits(self.bytes);
        }
        read_le_u32(self.bytes, (addr - self.base) as usize)
    }

    /// Reads the little-endian `u64` at `addr`.
    pub fn read_u64(&self, addr: u64) -> (r: u64)
        requires
            self.holds(addr as int, 8),
        ensures
            r == self.u64_at(addr as int),
    {
        proof {
            lemma_slice_len_fits(self.bytes);
        }
        read_le_u64(self.bytes, (addr - self.base) as usize)
    }

    /// Borrows the `len` bytes from `addr`, without copying them.
    pub fn slice_at(&self, addr: u64, len: u64) -> (r: &'a [u8])
        requires
            self.holds(addr as int, len as int),
        ensures
            r@ == self.bytes_at(addr as int, len as int),
    {
        proof {
            lemma_slice_len_fits(self.bytes);
        }
        let start = (addr - self.base) as usize;
        let end = start + len as usize;
        &self.bytes[start..end]
    }
}

/// Every tag starts with a header of two 64-bit words: its identifier, then the
/// address of the next tag (zero after the last one).
pub const TAG_HEADER_SIZE: u64 = 16;

impl<'a> BootRegion<'a> {
    /// The identifier of the tag at `addr`.
    pub open spec fn tag_id(&self, addr: u64) -> u64 {
        self.u64_at(addr as int)
    }

    /// The `next` address stored in the tag at `addr`.
    pub open spec fn tag_next(&self, addr: u64) -> u64 {
        self.u64_at(addr + 8)
    }

    /// The address of the tag at position `k` of the chain that starts at `first`
    /// (position 0 is `first` itself); zero once the chain has ended.
    pub open spec fn nth_tag(&self, first: u64, k: nat) -> u64
        decreases k,
    {
        if k == 0 {
            first
        } else {
            let prev = self.nth_tag(first, (k - 1) as nat);
            if prev == 0 {
                0
            } else {
                self.tag_next(prev)
            }
        }
    }

    /// The chain from `first` holds exactly `n` tags, each header inside the region,
    /// and the `next` of the last one is zero.
    pub open spec fn chain_of_len(&self, first: u64, n: nat) -> bool {
        &&& self.nth_tag(first, n) == 0
        &&& forall|k: nat|
            k < n ==> #[trigger] self.nth_tag(first, k) != 0 && self.holds(
                self.nth_tag(first, k) as int,
                TAG_HEADER_SIZE as int,
            )
    }

    /// The chain from `first` is finite, ends in a zero pointer, and lies in the region.
    pub open spec fn chain_ends(&self, first: u64) -> bool {
        exists|n: nat| self.chain_of_len(first, n)
    }

    /// The number of tags in the chain from `first`.
    pub open spec fn chain_len(&self, first: u64) -> nat {
        choose|n: nat| self.chain_of_len(first, n)
    }

    /// Walks the chain from `addr`, looking at no more than `fuel` tags: the address
    /// of the first tag whose identifier is `id` (if any), and how many tags the walk
    /// examined before it stopped.
    pub open spec fn scan(&self, addr: u64, id: u64, fuel: nat) -> (Option<u64>, nat)
        decreases fuel,
    {
        if fuel == 0 || addr == 0 {
            (None, 0)
        } else if self.tag_id(addr) == id {
            (Some(addr), 1)
        } else {
            let rest = self.scan(self.tag_next(addr), id, (fuel - 1) as nat);
            (rest.0, rest.1 + 1)
        }
    }

    /// The result of looking `id` up in the chain from `first`: the address of the
    /// first tag that carries it, or `None`.
    pub open spec fn lookup(&self, first: u64, id: u64) -> Option<u64> {
        self.scan(first, id, self.chain_len(first)).0
    }

    /// The tag at position `k` of the chain from `first` is the first one with `id`.
    pub open spec fn first_with_id_at(&self, first: u64, id: u64, k: nat) -> bool {
        &&& self.nth_tag(first, k) != 0
        &&& self.tag_id(self.nth_tag(first, k)) == id
        &&& forall|j: nat| j < k ==> self.tag_id(#[trigger] self.nth_tag(first, j)) != id
    }

    /// Walks the tag chain from `first` and returns the address of the first tag
    /// whose identifier is `identifier`, or `None` when no tag of the chain has it.
    pub fn find_tag(&self, first: u64, identifier: u64) -> (r: Option<u64>)
        requires
            self.chain_ends(first),
        ensures
            r == self.lookup(first, identifier),
            r matches Some(a) ==> a != 0 && self.tag_id(a) == identifier && self.holds(
                a as int,
                TAG_HEADER_SIZE as int,
            ),
    {
        let ghost n = self.chain_len(first);
        let mut current = first;
        let ghost mut i: nat = 0;
        while current != 0
            invariant
                self.chain_of_len(first, n),
                i <= n,
                current == self.nth_tag(first, i),
                self.scan(first, identifier, n).0 == self.scan(current, identifier, (n - i) as nat).0,
            decreases n - i,
        {
            assert(i < n);
            assert(self.nth_tag(first, i) != 0);
            let id = self.read_u64(current);
            if id == identifier {
                return Some(current);
            }
            let next = self.read_u64(current + 8);
            proof {
                assert(self.nth_tag(first, i + 1) == next);
                i = i + 1;
            }
            current = next;
        }
        None
    }
}

impl<'a> BootRegion<'a> {
    /// The chain from `first` has a tag with `id`, and the first such tag's `size`
    /// bytes lie in the region.
    pub open spec fn has_tag(&self, first: u64, id: u64, size: u64) -> bool {
        &&& self.lookup(first, id) is Some
        &&& self.holds(self.lookup(first, id)->0 as int, size as int)
    }

    /// Looks `identifier` up in the chain from `first`, and returns the tag's address
    /// when the tag's `size` bytes lie in the region.
    pub fn find_sized_tag(&self, first: u64, identifier: u64, size: u64) -> (r: Option<u64>)
        requires
            self.chain_ends(first),
        ensures
            r is Some <==> self.has_tag(first, identifier, size),
            r is Some ==> r == self.lookup(first, identifier),
    {
        match self.find_tag(first, identifier) {
            Some(addr) => {
                if self.fits(addr, size) {
                    Some(addr)
                } else {
                    None
                }
            },
            None => None,
        }
    }

    /// The first tag with `id` in the chain from `first` has its `prefix` bytes in the
    /// region, followed by an array, also in the region, of as many `elem`-byte records
    /// as the 64-bit count at offset `count_at` of the tag says.
    pub open spec fn has_array_tag(
        &self,
        first: u64,
        id: u64,
        prefix: u64,
        count_at: u64,
        elem: u64,
    ) -> bool {
        &&& self.has_tag(first, id, prefix)
        &&& self.holds(
            self.lookup(first, id)->0 + prefix,
            self.u64_at(self.lookup(first, id)->0 + count_at) * elem,
        )
    }

    /// Looks `identifier` up in the chain from `first`, and returns the tag's address
    /// when the tag and its trailing array lie in the region (see `has_array_tag`).
    pub fn find_array_tag(
        &self,
        first: u64,
        identifier: u64,
        prefix: u64,
        count_at: u64,
        elem: u64,
    ) -> (r: Option<u64>)
        requires
            self.chain_ends(first),
            count_at + 8 <= prefix,
            0 < elem,
        ensures
            r is Some <==> self.has_array_tag(first, identifier, prefix, count_at, elem),
            r is Some ==> r == self.lookup(first, identifier),
    {
        match self.find_sized_tag(first, identifier, prefix) {
            Some(addr) => {
                let count = self.read_u64(addr + count_at);
                if count > u64::MAX / elem {
                    proof {
                        assert(count * elem > u64::MAX) by (nonlinear_arith)
                            requires
                                count > u64::MAX / elem,
                                0 < elem,
                        ;
                    }
                    None
                } else {
                    proof {
                        assert(count * elem <= u64::MAX) by (nonlinear_arith)
                            requires
                                count <= u64::MAX / elem,
                                0 < elem,
                        ;
                    }
                    if self.fits(addr + prefix, count * elem) {
                        Some(addr)
                    } else {
                        None
                    }
                }
            },
            None => None,
        }
    }

    /// Whether the `len` bytes from `addr` lie in the region.
    pub fn fits(&self, addr: u64, len: u64) -> (r: bool)
        ensures
            r == self.holds(addr as int, len as int),
    {
        let n = self.bytes.len() as u64;
        addr >= self.base && len <= u64::MAX - addr && addr - self.base <= n && len <= n - (addr
            - self.base)
    }
}

/// Looking up an identifier in a chain of `n` tags examines the tags one by one:
/// when the first tag with that identifier stands at position `k`, the walk returns
/// its address after examining exactly `k + 1` tags; when no tag carries it, the walk
/// examines all `n` tags and finds nothing.
pub proof fn lemma_lookup_cost(region: BootRegion, first: u64, id: u64, n: nat)
    requires
        region.chain_of_len(first, n),
    ensures
        region.chain_len(first) == n,
        forall|k: nat|
            #[trigger] region.first_with_id_at(first, id, k) ==> k < n && region.scan(first, id, n)
                == (Some(region.nth_tag(first, k)), k + 1) && region.lookup(first, id) == Some(
                region.nth_tag(first, k),
            ),
        (forall|k: nat| k < n ==> region.tag_id(#[trigger] region.nth_tag(first, k)) != id)
            ==> region.scan(first, id, n) == (None::<u64>, n) && region.lookup(first, id) is None,
{
    lemma_chain_len_unique(region, first, n);
    assert forall|k: nat| #[trigger] region.first_with_id_at(first, id, k) implies k < n
        && region.scan(first, id, n) == (Some(region.nth_tag(first, k)), k + 1) by {
        if k >= n {
            lemma_nth_after_end(region, first, n, k);
        }
        lemma_scan_from(region, first, id, n, 0, k);
    }
    if forall|k: nat| k < n ==> region.tag_id(#[trigger] region.nth_tag(first, k)) != id {
        lemma_scan_absent(region, first, id, n, 0);
    }
}

/// Once the chain has ended it stays ended.
proof fn lemma_nth_after_end(region: BootRegion, first: u64, n: nat, k: nat)
    requires
        region.nth_tag(first, n) == 0,
        n <= k,
    ensures
        region.nth_tag(first, k) == 0,
    decreases k - n,
{
    if k > n {
        lemma_nth_after_end(region, first, n, (k - 1) as nat);
    }
}

/// A chain has one length.
proof fn lemma_chain_len_unique(region: BootRegion, first: u64, n: nat)
    requires
        region.chain_of_len(first, n),
    ensures
        region.chain_len(first) == n,
{
    let m = region.chain_len(first);
    assert(region.chain_of_len(first, m));
    if m < n {
        assert(region.nth_tag(first, m) != 0);
    } else if n < m {
        assert(region.nth_tag(first, n) != 0);
    }
}

/// Scanning from position `i` of a chain of `n` tags with the first match at `k`.
proof fn lemma_scan_from(region: BootRegion, first: u64, id: u64, n: nat, i: nat, k: nat)
    requires
        region.chain_of_len(first, n),
        region.first_with_id_at(first, id, k),
        i <= k,
        k < n,
    ensures
        region.scan(region.nth_tag(first, i), id, (n - i) as nat) == (
            Some(region.nth_tag(first, k)),
            (k - i + 1) as nat,
        ),
    decreases k - i,
{
    if i < k {
        assert(region.nth_tag(first, i) != 0);
        assert(region.tag_id(region.nth_tag(first, i)) != id);
        assert(region.nth_tag(first, i + 1) == region.tag_next(region.nth_tag(first, i)));
        lemma_scan_from(region, first, id, n, i + 1, k);
    }
}

/// Scanning from position `i` of a chain of `n` tags none of which has `id`.
proof fn lemma_scan_absent(region: BootRegion, first: u64, id: u64, n: nat, i: nat)
    requires
        region.chain_of_len(first, n),
        forall|k: nat| k < n ==> region.tag_id(#[trigger] region.nth_tag(first, k)) != id,
        i <= n,
    ensures
        region.scan(region.nth_tag(first, i), id, (n - i) as nat) == (None::<u64>, (n - i) as nat),
    decreases n - i,
{
    if i < n {
        assert(region.nth_tag(first, i) != 0);
        assert(region.nth_tag(first, i + 1) == region.tag_next(region.nth_tag(first, i)));
        lemma_scan_absent(region, first, id, n, i + 1);
    }
}

} // verus!
