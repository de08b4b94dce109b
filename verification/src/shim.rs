//! The memory shim: scratch buffers that the host reserves inside the module,
//! fills with command text, and releases again.
//!
//! The shim owns every buffer from its reservation to its release and never
//! reads or writes one. It knows a buffer by its address and the size it was
//! reserved with, and releases only what it holds under exactly that pair.

use vstd::prelude::*;
use vstd::multiset::Multiset;
use crate::violation::Violation;

verus! {

/// A live buffer as the host knows it: where it begins and the size it was
/// reserved with.
#[derive(Clone, Copy, Debug, PartialEq, Eq, Structural)]
pub struct Reservation {
    pub address: usize,
    pub size: usize,
}

struct Buffer {
    at: Reservation,
    storage: Vec<u8>,
}

/// The buffers that are reserved and not yet released.
pub struct Shim {
    buffers: Vec<Buffer>,
}

spec fn reservations(buffers: Seq<Buffer>) -> Seq<Reservation> {
    buffers.map_values(|buffer: Buffer| buffer.at)
}

/// One call of the host on the shim, with the address that it returned or was
/// given.
pub enum ShimCall {
    Reserve(Reservation),
    Release(Reservation),
}

/// The live reservations after one call: a reservation joins them, and a
/// release takes its reservation away where it is live and changes nothing
/// where it is not.
pub open spec fn after_call(live: Multiset<Reservation>, call: ShimCall) -> Multiset<Reservation> {
    match call {
        ShimCall::Reserve(reservation) => live.insert(reservation),
        ShimCall::Release(reservation) => if live.contains(reservation) {
            live.remove(reservation)
        } else {
            live
        },
    }
}

/// The live reservations after a sequence of calls, first call first.
pub open spec fn after_calls(live: Multiset<Reservation>, calls: Seq<ShimCall>) -> Multiset<
    Reservation,
>
    decreases calls.len(),
{
    if calls.len() == 0 {
        live
    } else {
        after_call(after_calls(live, calls.drop_last()), calls.last())
    }
}

/// Whether every release in `calls` names, with its address and size, a
/// reservation that is live when the release is made.
pub open spec fn paired(live: Multiset<Reservation>, calls: Seq<ShimCall>) -> bool
    decreases calls.len(),
{
    calls.len() == 0 || {
        &&& paired(live, calls.drop_last())
        &&& calls.last() matches ShimCall::Release(reservation) ==> after_calls(
            live,
            calls.drop_last(),
        ).contains(reservation)
    }
}

/// How often `calls` reserves `reservation`.
pub open spec fn times_reserved(calls: Seq<ShimCall>, reservation: Reservation) -> nat
    decreases calls.len(),
{
    if calls.len() == 0 {
        0
    } else {
        times_reserved(calls.drop_last(), reservation) + if calls.last() == ShimCall::Reserve(
            reservation,
        ) {
            1nat
        } else {
            0nat
        }
    }
}

/// How often `calls` releases `reservation`.
pub open spec fn times_released(calls: Seq<ShimCall>, reservation: Reservation) -> nat
    decreases calls.len(),
{
    if calls.len() == 0 {
        0
    } else {
        times_released(calls.drop_last(), reservation) + if calls.last() == ShimCall::Release(
            reservation,
        ) {
            1nat
        } else {
            0nat
        }
    }
}

/// The address at which a buffer's storage begins.
///
/// Trusted: calls `Vec::as_mut_ptr` and turns the pointer into an integer.
/// The call leaves the vector as it was, and the address is not null: a
/// vector's pointer never is, also where the vector has allocated nothing.
/// Nothing else is claimed of the address, which is the allocator's choice.
#[verifier::external_body]
fn buffer_address(storage: &mut Vec<u8>) -> (address: usize)
    ensures
        *final(storage) == *old(storage),
        address != 0,
{
    storage.as_mut_ptr() as usize
}

impl Shim {
    /// The live reservations. One pair of address and size can be live more
    /// than once: an empty buffer needs no storage of its own.
    pub closed spec fn view(&self) -> Multiset<Reservation> {
        reservations(self.buffers@).to_multiset()
    }

    /// A shim with no buffer reserved.
    pub fn new() -> (shim: Shim)
        ensures
            shim@ == Multiset::<Reservation>::empty(),
    {
        let shim = Shim { buffers: Vec::new() };
        proof {
            reservations(shim.buffers@).to_multiset_ensures();
            vstd::multiset::lemma_multiset_empty_len(shim@);
        }
        shim
    }

    /// Whether a buffer with this address and size is live.
    pub fn holds(&self, address: usize, size: usize) -> (held: bool)
        ensures
            held == self@.contains(Reservation { address, size }),
    {
        let found = self.position(address, size);
        proof {
            let live = reservations(self.buffers@);
            live.to_multiset_ensures();
            if let Some(index) = found {
                assert(live[index as int] == Reservation { address, size });
            }
        }
        found.is_some()
    }

    /// The number of live buffers.
    pub fn count(&self) -> (count: usize)
        ensures
            count == self@.len(),
    {
        proof {
            reservations(self.buffers@).to_multiset_ensures();
        }
        self.buffers.len()
    }

    fn position(&self, address: usize, size: usize) -> (found: Option<usize>)
        ensures
            match found {
                Some(index) => index < self.buffers.len() && self.buffers[index as int].at
                    == (Reservation { address, size }),
                None => !self@.contains(Reservation { address, size }),
            },
    {
        let wanted = Reservation { address, size };
        let mut index: usize = 0;
        while index < self.buffers.len()
            invariant
                index <= self.buffers.len(),
                wanted == (Reservation { address, size }),
                forall|i: int| 0 <= i < index ==> self.buffers[i].at != wanted,
            decreases self.buffers.len() - index,
        {
            if self.buffers[index].at.address == address && self.buffers[index].at.size == size {
                return Some(index);
            }
            index += 1;
        }
        proof {
            let live = reservations(self.buffers@);
            live.to_multiset_ensures();
            assert(!live.contains(wanted));
        }
        None
    }
}

/// Reserves a buffer of `size` bytes and returns its address, which is never
/// null. The buffer's contents are unspecified, and it stays reserved until it
/// is released under this address and this size.
pub fn reserve(shim: &mut Shim, size: usize) -> (address: usize)
    requires
        size <= isize::MAX,
    ensures
        address != 0,
        final(shim)@ == after_call(old(shim)@, ShimCall::Reserve(Reservation { address, size })),
{
    let mut storage: Vec<u8> = Vec::with_capacity(size);
    let address = buffer_address(&mut storage);
    let at = Reservation { address, size };
    proof {
        let before = reservations(shim.buffers@);
        before.to_multiset_ensures();
        assert(reservations(shim.buffers@.push(Buffer { at, storage })) =~= before.push(at));
    }
    shim.buffers.push(Buffer { at, storage });
    address
}

/// Releases the buffer that was reserved with `size` bytes at `address`.
///
/// The pair must match a live reservation exactly; any other pair is refused
/// as `UnmatchedRelease` and nothing is released.
pub fn dealloc(shim: &mut Shim, address: usize, size: usize) -> (released: Result<(), Violation>)
    ensures
        released is Ok <==> old(shim)@.contains(Reservation { address, size }),
        released is Err ==> released == Err::<(), Violation>(Violation::UnmatchedRelease),
        final(shim)@ == after_call(old(shim)@, ShimCall::Release(Reservation { address, size })),
{
    match shim.position(address, size) {
        Some(index) => {
            proof {
                let before = reservations(shim.buffers@);
                before.to_multiset_ensures();
                assert(before[index as int] == Reservation { address, size });
                assert(before.contains(Reservation { address, size }));
                assert(reservations(shim.buffers@.remove(index as int)) =~= before.remove(
                    index as int,
                ));
            }
            let _ = shim.buffers.remove(index);
            Ok(())
        },
        None => Err(Violation::UnmatchedRelease),
    }
}

/// Over any sequence of calls, a reservation that the sequence never releases
/// is as live afterwards as it was before, and once more for each time the
/// sequence reserved it: reserving and releasing other buffers does not touch
/// it.
pub proof fn lemma_untouched_reservations_stay_live(
    live: Multiset<Reservation>,
    calls: Seq<ShimCall>,
    reservation: Reservation,
)
    requires
        times_released(calls, reservation) == 0,
    ensures
        after_calls(live, calls).count(reservation) == live.count(reservation) + times_reserved(
            calls,
            reservation,
        ),
    decreases calls.len(),
{
    if calls.len() > 0 {
        lemma_untouched_reservations_stay_live(live, calls.drop_last(), reservation);
    }
}

/// Over a sequence of calls in which every release is paired with a live
/// reservation of the same address and size, each reservation is live as
/// often as it was before, plus the times it was reserved, minus the times it
/// was released.
pub proof fn lemma_paired_calls_balance(
    live: Multiset<Reservation>,
    calls: Seq<ShimCall>,
    reservation: Reservation,
)
    requires
        paired(live, calls),
    ensures
        after_calls(live, calls).count(reservation) == live.count(reservation) + times_reserved(
            calls,
            reservation,
        ) - times_released(calls, reservation),
    decreases calls.len(),
{
    if calls.len() > 0 {
        lemma_paired_calls_balance(live, calls.drop_last(), reservation);
    }
}

} // verus!
