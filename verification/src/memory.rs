use vstd::prelude::*;

verus! {

/// The capacity of a byte vector: how many bytes its allocation can hold.
///
/// `vstd` views a `Vec` as the sequence of its initialized elements only, so
/// the capacity is named here as an opaque function of the vector value
/// itself. Two vectors holding equal bytes may well differ in capacity;
/// nothing below assumes otherwise.
pub uninterp spec fn cap_of(v: Vec<u8>) -> nat;

/// Relies on `Vec::capacity`: it reports the size of the allocation, which is
/// never smaller than the number of initialized bytes.
#[verifier::external_body]
fn vec_capacity(v: &Vec<u8>) -> (c: usize)
    ensures
        c as nat == cap_of(*v),
        v@.len() <= c as nat,
{
    v.capacity()
}

/// Relies on `Vec::with_capacity`: it returns an empty vector whose
/// allocation holds at least `n` bytes.
#[verifier::external_body]
fn vec_with_capacity(n: usize) -> (v: Vec<u8>)
    ensures
        v@ == Seq::<u8>::empty(),
        n as nat <= cap_of(v),
{
    Vec::with_capacity(n)
}

/// A byte buffer prepared for hand-off across an ownership boundary.
///
/// The buffer is a transfer token: building one takes ownership of the
/// backing bytes away from the caller, and the one way to get them back --
/// and with them the duty to free the allocation -- is `consume`, which takes
/// the token by value. A token is therefore consumed at most once, and its
/// bytes may be read any number of times before that.
pub struct Buffer {
    data: Vec<u8>,
    cap: usize,
}

impl View for Buffer {
    type V = Seq<u8>;

    /// The initialized bytes the buffer carries.
    closed spec fn view(&self) -> Seq<u8> {
        self.data@
    }
}

impl Buffer {
    /// The recorded capacity matches the backing allocation exactly, and the
    /// initialized bytes fit in it.
    #[verifier::type_invariant]
    spec fn inv(self) -> bool {
        self.cap as nat == cap_of(self.data) && self.data@.len() <= self.cap as nat
    }

    /// The capacity the buffer reports, and threads back verbatim on release.
    pub closed spec fn spec_capacity(&self) -> nat {
        self.cap as nat
    }

    /// Takes ownership of the bytes and allocation of `v`, recording its
    /// length and exact capacity. No bytes are copied: the buffer keeps the
    /// very allocation that `v` owned.
    pub fn from_vec(v: Vec<u8>) -> (buf: Buffer)
        ensures
            buf@ == v@,
            buf.spec_capacity() == cap_of(v),
            v@.len() <= buf.spec_capacity(),
    {
        let cap: usize = vec_capacity(&v);
        Buffer { data: v, cap }
    }

    /// Builds a zero-length buffer over a fresh allocation of at least
    /// `capacity` bytes, for the other side to fill and report a length back.
    pub fn with_capacity(capacity: usize) -> (buf: Buffer)
        ensures
            buf@ == Seq::<u8>::empty(),
            capacity as nat <= buf.spec_capacity(),
    {
        Buffer::from_vec(vec_with_capacity(capacity))
    }

    /// The number of initialized, readable bytes.
    pub fn len(&self) -> (n: usize)
        ensures
            n == self@.len(),
    {
        self.data.len()
    }

    /// The size of the backing allocation, as recorded at construction.
    pub fn capacity(&self) -> (c: usize)
        ensures
            c as nat == self.spec_capacity(),
    {
        self.cap
    }

    /// A read-only view of the initialized bytes, or `None` when there are
    /// none. An empty buffer reads as absence, never as an empty slice,
    /// whatever capacity stands behind it: with nothing initialized there is
    /// nothing that may be dereferenced.
    pub fn read(&self) -> (r: Option<&[u8]>)
        ensures
            match r {
                Some(bytes) => self@.len() > 0 && bytes@ == self@,
                None => self@.len() == 0,
            },
    {
        if self.data.len() == 0 {
            None
        } else {
            Some(self.data.as_slice())
        }
    }

    /// Gives the bytes back, together with the duty to free them: dropping
    /// the returned vector releases the allocation through the path that made
    /// it. The token goes in by value, so no buffer is consumed twice, and
    /// the recorded capacity is threaded back verbatim.
    pub fn consume(self) -> (v: Vec<u8>)
        ensures
            v@ == self@,
            cap_of(v) == self.spec_capacity(),
    {
        proof {
            use_type_invariant(&self);
        }
        let Buffer { data, cap: _ } = self;
        data
    }
}

/// Round trip: building a buffer from an owned vector and consuming it hands
/// back exactly the bytes and exactly the capacity that went in, for every
/// vector, the empty one and one with spare capacity included. The hypotheses
/// are what `from_vec` ensures of `buf` and what `consume` ensures of `out`.
pub proof fn lemma_round_trip(v: Vec<u8>, buf: Buffer, out: Vec<u8>)
    requires
        buf@ == v@,
        buf.spec_capacity() == cap_of(v),
        out@ == buf@,
        cap_of(out) == buf.spec_capacity(),
    ensures
        out@ == v@,
        cap_of(out) == cap_of(v),
{
}

/// Reading never depends on capacity: a buffer carrying no bytes reads as
/// absence, however large its allocation, and one carrying bytes reads as
/// exactly those bytes, in order. The hypotheses are what `from_vec` ensures
/// of `buf` and what `read` ensures of its result `r`.
pub proof fn lemma_read_follows_contents(v: Vec<u8>, buf: Buffer, r: Option<Seq<u8>>)
    requires
        buf@ == v@,
        match r {
            Some(bytes) => buf@.len() > 0 && bytes == buf@,
            None => buf@.len() == 0,
        },
    ensures
        v@.len() == 0 <==> r is None,
        r matches Some(bytes) ==> bytes == v@,
{
}

} // verus!
