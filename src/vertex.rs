//! The vertex buffer as the host writes it: each body's position as three
//! 32-bit words (the bit patterns of its coordinates), little-endian, twelve
//! bytes per body. The buffer is rebuilt only when the number of bodies
//! changes and is overwritten in place on every other frame.
use vstd::prelude::*;

verus! {

/// What a sync did to the buffer.
#[derive(Clone, Copy, Debug, PartialEq, Eq, Structural)]
pub enum SyncKind {
    /// The number of bodies changed: a new buffer was made.
    Reallocated,
    /// The number of bodies stayed: the buffer was overwritten in place.
    Updated,
}

/// The bytes in one vertex.
pub const VERTEX_BYTES: usize = 12;

/// `256` to the power `k`, for a byte index `k` of a 32-bit word.
pub open spec fn byte_weight(k: int) -> int {
    if k == 0 {
        1
    } else if k == 1 {
        256
    } else if k == 2 {
        65536
    } else {
        16777216
    }
}

/// Byte `k` of a word, least significant first.
pub open spec fn byte_of(w: u32, k: int) -> u8 {
    ((w as int / byte_weight(k)) % 256) as u8
}

/// The buffer contents for a sequence of positions.
pub open spec fn vertex_bytes(p: Seq<[u32; 3]>) -> Seq<u8> {
    Seq::new(
        (12 * p.len()) as nat,
        |b: int| byte_of(p[b / 12]@[(b % 12) / 4], b % 4),
    )
}

/// The buffer contents after a sync with `p`: they depend on `p` alone, never
/// on what the buffer held before.
pub open spec fn after_sync(before: Seq<u8>, p: Seq<[u32; 3]>) -> Seq<u8> {
    vertex_bytes(p)
}

/// Whether a sync with `p` overwrites a buffer holding `before` in place or
/// makes a new one.
pub open spec fn sync_kind(before: Seq<u8>, p: Seq<[u32; 3]>) -> SyncKind {
    if before.len() == 12 * p.len() {
        SyncKind::Updated
    } else {
        SyncKind::Reallocated
    }
}

/// The host copy of the vertex buffer.
pub struct VertexSync {
    bytes: Vec<u8>,
}

impl View for VertexSync {
    type V = Seq<u8>;

    closed spec fn view(&self) -> Seq<u8> {
        self.bytes@
    }
}

fn byte_at(positions: &Vec<[u32; 3]>, b: usize) -> (r: u8)
    requires
        b < 12 * positions.len(),
    ensures
        r == vertex_bytes(positions@)[b as int],
{
    let v = b / VERTEX_BYTES;
    let c = (b % VERTEX_BYTES) / 4;
    let k = b % 4;
    proof {
        assert(v < positions.len()) by (nonlinear_arith)
            requires
                b < 12 * positions.len(),
                v == b / 12,
        ;
    }
    let w = positions[v][c];
    let d: u32 = if k == 0 {
        1
    } else if k == 1 {
        256
    } else if k == 2 {
        65536
    } else {
        16777216
    };
    ((w / d) % 256) as u8
}

impl VertexSync {
    /// The whole numbers of vertices: the length is a multiple of twelve.
    pub open spec fn wf(&self) -> bool {
        self@.len() % 12 == 0
    }

    /// An empty buffer.
    pub fn new() -> (r: VertexSync)
        ensures
            r.wf(),
            r@ == Seq::<u8>::empty(),
    {
        VertexSync { bytes: Vec::new() }
    }

    /// The number of vertices held.
    pub fn vertex_count(&self) -> (r: usize)
        requires
            self.wf(),
        ensures
            12 * r == self@.len(),
    {
        self.bytes.len() / VERTEX_BYTES
    }

    /// The bytes held.
    pub fn as_bytes(&self) -> (r: &[u8])
        ensures
            r@ == self@,
    {
        self.bytes.as_slice()
    }

    /// Brings the buffer up to date with `positions`: it makes a new buffer
    /// where the number of vertices changed, and otherwise overwrites the
    /// bytes in place.
    pub fn sync(&mut self, positions: &Vec<[u32; 3]>) -> (r: SyncKind)
        requires
            old(self).wf(),
            12 * positions.len() <= usize::MAX,
        ensures
            final(self).wf(),
            final(self)@ == after_sync(old(self)@, positions@),
            r == sync_kind(old(self)@, positions@),
    {
        let n = VERTEX_BYTES * positions.len();
        if self.bytes.len() == n {
            let mut b: usize = 0;
            while b < n
                invariant
                    n == 12 * positions.len(),
                    b <= n,
                    self.bytes@.len() == n,
                    forall|i: int| 0 <= i < b ==> self.bytes@[i] == #[trigger] vertex_bytes(
                        positions@,
                    )[i],
                decreases n - b,
            {
                let v = byte_at(positions, b);
                self.bytes.set(b, v);
                b += 1;
            }
            assert(self@ =~= vertex_bytes(positions@));
            SyncKind::Updated
        } else {
            let mut fresh: Vec<u8> = Vec::with_capacity(n);
            let mut b: usize = 0;
            while b < n
                invariant
                    n == 12 * positions.len(),
                    b <= n,
                    fresh@ =~= vertex_bytes(positions@).take(b as int),
                decreases n - b,
            {
                let v = byte_at(positions, b);
                fresh.push(v);
                b += 1;
            }
            self.bytes = fresh;
            assert(self@ =~= vertex_bytes(positions@));
            SyncKind::Reallocated
        }
    }
}

/// Syncing twice with the same positions leaves a byte-identical buffer, and
/// the second sync overwrites in place instead of making a new buffer.
pub proof fn lemma_sync_idempotent(before: Seq<u8>, p: Seq<[u32; 3]>)
    ensures
        after_sync(after_sync(before, p), p) == after_sync(before, p),
        sync_kind(after_sync(before, p), p) == SyncKind::Updated,
{
}

} // verus!
