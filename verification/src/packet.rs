//! The byte payload of a CEC command, backed by `arrayvec`'s
//! fixed-capacity vector, the container the bus layer carries payloads in.
use vstd::prelude::*;

verus! {

use arrayvec::ArrayVec;

/// Declares `arrayvec::ArrayVec` so that it can stand in fields and
/// signatures; its values are opaque to the verifier.
#[verifier::external_type_specification]
#[verifier::external_body]
#[verifier::reject_recursive_types(T)]
pub struct ExArrayVec<T, const CAP: usize>(ArrayVec<T, CAP>);

/// The bytes that a payload vector holds, in order.
pub uninterp spec fn byte_vec_model(v: ArrayVec<u8, 64>) -> Seq<u8>;

/// Relies on arrayvec::ArrayVec::new: a freshly made vector is empty.
#[verifier::external_body]
fn byte_vec_new() -> (r: ArrayVec<u8, 64>)
    ensures
        byte_vec_model(r) == Seq::<u8>::empty(),
{
    ArrayVec::new()
}

/// Relies on arrayvec::ArrayVec::push: appends one element at the end;
/// below 64 elements its capacity check cannot fail.
#[verifier::external_body]
fn byte_vec_push(v: &mut ArrayVec<u8, 64>, b: u8)
    requires
        byte_vec_model(*old(v)).len() < 64,
    ensures
        byte_vec_model(*final(v)) == byte_vec_model(*old(v)).push(b),
{
    v.push(b)
}

/// Relies on arrayvec::ArrayVec::len: the number of elements held.
#[verifier::external_body]
fn byte_vec_len(v: &ArrayVec<u8, 64>) -> (r: usize)
    ensures
        r == byte_vec_model(*v).len(),
{
    v.len()
}

/// Relies on arrayvec::ArrayVec::as_slice: the elements in order, so
/// indexing it in bounds reads the element at that position.
#[verifier::external_body]
fn byte_vec_get(v: &ArrayVec<u8, 64>, i: usize) -> (r: u8)
    requires
        i < byte_vec_model(*v).len(),
    ensures
        r == byte_vec_model(*v)[i as int],
{
    v.as_slice()[i]
}

/// Relies on arrayvec::ArrayVec::as_slice: the elements in order.
#[verifier::external_body]
fn byte_vec_to_vec(v: &ArrayVec<u8, 64>) -> (r: Vec<u8>)
    ensures
        r@ == byte_vec_model(*v),
{
    v.as_slice().to_vec()
}

/// A CEC payload: a sequence of at most 64 bytes in transmission order.
pub struct Datapacket {
    data: ArrayVec<u8, 64>,
}

impl View for Datapacket {
    type V = Seq<u8>;

    closed spec fn view(&self) -> Seq<u8> {
        byte_vec_model(self.data)
    }
}

impl Datapacket {
    /// An empty payload.
    pub fn new() -> (r: Datapacket)
        ensures
            r@ == Seq::<u8>::empty(),
    {
        Datapacket { data: byte_vec_new() }
    }

    /// Appends one byte; the payload of a CEC command never exceeds
    /// 64 bytes, so a full packet takes no more.
    pub fn push(&mut self, b: u8)
        requires
            old(self)@.len() < 64,
        ensures
            final(self)@ == old(self)@.push(b),
    {
        byte_vec_push(&mut self.data, b)
    }

    pub fn len(&self) -> (r: usize)
        ensures
            r == self@.len(),
    {
        byte_vec_len(&self.data)
    }

    pub fn is_empty(&self) -> (r: bool)
        ensures
            r == (self@.len() == 0),
    {
        self.len() == 0
    }

    /// The byte at position `i`.
    pub fn byte_at(&self, i: usize) -> (r: u8)
        requires
            i < self@.len(),
        ensures
            r == self@[i as int],
    {
        byte_vec_get(&self.data, i)
    }

    /// The payload as a plain vector of bytes.
    pub fn to_vec(&self) -> (r: Vec<u8>)
        ensures
            r@ == self@,
    {
        byte_vec_to_vec(&self.data)
    }
}

} // verus!
