//! The protocol that moves the lifetime of a native value into a managed
//! object and back.
//!
//! A native value is wrapped in a reference-counted allocation. One unit of
//! its count travels as a plain number: into the constructor of a shim, and
//! back in the call by which the managed runtime gives the value up.

use vstd::prelude::*;

verus! {

/// Two to the power of 64.
pub open spec fn two_to_64() -> int {
    0x1_0000_0000_0000_0000
}

/// The number that stands for an address where the managed runtime holds
/// it: the same 64 bits, read as a signed number.
pub open spec fn encode_handle(address: u64) -> i64 {
    if address <= i64::MAX {
        address as i64
    } else {
        (address - two_to_64()) as i64
    }
}

/// The address that a number held by the managed runtime stands for.
pub open spec fn decode_handle(handle: i64) -> u64 {
    if handle >= 0 {
        handle as u64
    } else {
        (handle + two_to_64()) as u64
    }
}

/// An address survives the way into the managed runtime and back, and so
/// does a handle the other way round.
pub proof fn lemma_handle_round_trip(address: u64, handle: i64)
    ensures
        decode_handle(encode_handle(address)) == address,
        encode_handle(decode_handle(handle)) == handle,
{
}

/// One unit of the reference count of a native value, held as the address
/// of its allocation. It cannot be copied: whoever holds it holds the one
/// duty to release that unit or to hand it on.
pub struct RawArc {
    ptr: u64,
}

impl RawArc {
    /// The address of the allocation.
    pub closed spec fn address(&self) -> u64 {
        self.ptr
    }

    /// Takes over one unit of the count of the allocation at `address`.
    pub fn new(address: u64) -> (arc: RawArc)
        ensures
            arc.address() == address,
    {
        RawArc { ptr: address }
    }

    /// The number that is handed to the managed runtime.
    pub fn as_i64(&self) -> (handle: i64)
        ensures
            handle == encode_handle(self.address()),
    {
        if self.ptr <= 0x7fff_ffff_ffff_ffff {
            self.ptr as i64
        } else {
            let low: u64 = self.ptr - 0x8000_0000_0000_0000;
            low as i64 + i64::MIN
        }
    }

    /// Takes back the unit of the count that the managed runtime held under
    /// `handle`. This is the one way back from a handle to a value that can
    /// be released; it is to be taken once for each handle that was handed
    /// off.
    pub fn from_i64(handle: i64) -> (arc: RawArc)
        ensures
            arc.address() == decode_handle(handle),
    {
        if handle >= 0 {
            RawArc { ptr: handle as u64 }
        } else {
            let low: i64 = handle - i64::MIN;
            RawArc { ptr: low as u64 + 0x8000_0000_0000_0000 }
        }
    }

    /// Gives up the unit: the address whose count is to be decremented.
    pub fn into_raw(self) -> (address: u64)
        ensures
            address == self.address(),
    {
        self.ptr
    }
}

/// Where one transfer of a native value stands.
#[derive(Clone, Copy, Debug, PartialEq, Eq, Structural)]
pub enum TransferState {
    /// There is the native value only.
    Unwrapped,
    /// The value is allocated and encoded; the managed runtime has not seen
    /// the handle yet.
    Allocated { handle: i64 },
    /// A managed object was constructed and owns the unit in flight.
    HandedOff { handle: i64 },
    /// Construction failed and the allocation was released.
    Aborted,
    /// The managed runtime gave the value up and the allocation was
    /// released.
    Released,
}

/// What happens to a transfer.
#[derive(Clone, Copy, Debug, PartialEq, Eq, Structural)]
pub enum TransferEvent {
    /// The native value was allocated at the address.
    Allocate { address: u64 },
    /// The constructor of the shim returned an object.
    Constructed,
    /// The constructor of the shim failed.
    ConstructionFailed,
    /// The managed runtime called a method of the shim that holds the
    /// handle.
    Invoke { handle: i64 },
    /// The managed runtime called back to give up the value under the
    /// handle.
    Reclaim { handle: i64 },
}

/// What the native side does in answer to an event.
#[derive(Clone, Copy, Debug, PartialEq, Eq, Structural)]
pub enum TransferAction {
    /// Call the constructor of the shim with the handle.
    Construct { handle: i64 },
    /// Keep the allocation alive: the managed object owns it now.
    Keep,
    /// Look at the value at the address for the length of the call, and
    /// leave its count as it is.
    Borrow { address: u64 },
    /// Release the allocation at the address.
    Release { address: u64 },
    /// Do nothing: the event breaks the protocol.
    Refuse,
}

/// The rules of a transfer: the state after an event, and what the native
/// side does.
pub open spec fn transfer(state: TransferState, event: TransferEvent) -> (
    TransferState,
    TransferAction,
) {
    match (state, event) {
        (TransferState::Unwrapped, TransferEvent::Allocate { address }) => (
            TransferState::Allocated { handle: encode_handle(address) },
            TransferAction::Construct { handle: encode_handle(address) },
        ),
        (TransferState::Allocated { handle }, TransferEvent::Constructed) => (
            TransferState::HandedOff { handle },
            TransferAction::Keep,
        ),
        (TransferState::Allocated { handle }, TransferEvent::ConstructionFailed) => (
            TransferState::Aborted,
            TransferAction::Release { address: decode_handle(handle) },
        ),
        (TransferState::HandedOff { handle }, TransferEvent::Invoke { handle: given }) => if given
            == handle {
            (state, TransferAction::Borrow { address: decode_handle(handle) })
        } else {
            (state, TransferAction::Refuse)
        },
        (TransferState::HandedOff { handle }, TransferEvent::Reclaim { handle: given }) => if given
            == handle {
            (TransferState::Released, TransferAction::Release { address: decode_handle(handle) })
        } else {
            (state, TransferAction::Refuse)
        },
        _ => (state, TransferAction::Refuse),
    }
}

/// Applies the rules of a transfer to one event.
pub fn step(state: TransferState, event: TransferEvent) -> (next: (TransferState, TransferAction))
    ensures
        next == transfer(state, event),
{
    match (state, event) {
        (TransferState::Unwrapped, TransferEvent::Allocate { address }) => {
            let handle = RawArc::new(address).as_i64();
            (TransferState::Allocated { handle }, TransferAction::Construct { handle })
        },
        (TransferState::Allocated { handle }, TransferEvent::Constructed) => (
            TransferState::HandedOff { handle },
            TransferAction::Keep,
        ),
        (TransferState::Allocated { handle }, TransferEvent::ConstructionFailed) => (
            TransferState::Aborted,
            TransferAction::Release { address: RawArc::from_i64(handle).into_raw() },
        ),
        (TransferState::HandedOff { handle }, TransferEvent::Invoke { handle: given }) => {
            if given == handle {
                (state, TransferAction::Borrow { address: RawArc::from_i64(handle).into_raw() })
            } else {
                (state, TransferAction::Refuse)
            }
        },
        (TransferState::HandedOff { handle }, TransferEvent::Reclaim { handle: given }) => {
            if given == handle {
                (
                    TransferState::Released,
                    TransferAction::Release { address: RawArc::from_i64(handle).into_raw() },
                )
            } else {
                (state, TransferAction::Refuse)
            }
        },
        _ => (state, TransferAction::Refuse),
    }
}

/// The state that a transfer reaches through a run of events.
pub open spec fn state_after(state: TransferState, events: Seq<TransferEvent>) -> TransferState
    decreases events.len(),
{
    if events.len() == 0 {
        state
    } else {
        transfer(state_after(state, events.drop_last()), events.last()).0
    }
}

/// What the native side does through a run of events, one action for each.
pub open spec fn actions_of(state: TransferState, events: Seq<TransferEvent>) -> Seq<
    TransferAction,
>
    decreases events.len(),
{
    if events.len() == 0 {
        Seq::empty()
    } else {
        actions_of(state, events.drop_last()).push(
            transfer(state_after(state, events.drop_last()), events.last()).1,
        )
    }
}

/// How many of the actions release an allocation.
pub open spec fn releases(actions: Seq<TransferAction>) -> nat
    decreases actions.len(),
{
    if actions.len() == 0 {
        0
    } else {
        releases(actions.drop_last()) + if actions.last() is Release {
            1nat
        } else {
            0nat
        }
    }
}

/// Whether the allocation of a transfer has been released.
pub open spec fn is_over(state: TransferState) -> bool {
    state is Aborted || state is Released
}

/// A call of a method of a shim never changes where its transfer stands
/// and never releases the allocation: the value is borrowed for the call,
/// at the address at which it was allocated, or the call is refused.
pub proof fn lemma_invoke_only_borrows(state: TransferState, handle: i64)
    ensures
        transfer(state, TransferEvent::Invoke { handle }).0 == state,
        !(transfer(state, TransferEvent::Invoke { handle }).1 is Release),
        transfer(state, TransferEvent::Invoke { handle }).1 matches TransferAction::Borrow {
            address,
        } ==> state == (TransferState::HandedOff { handle }) && address == decode_handle(handle),
{
}

/// A value that is wrapped, handed off by a constructor that succeeds, and
/// given up by the managed runtime is allocated once and released once, at
/// the address at which it was allocated; between the two the native side
/// only calls the constructor and keeps the allocation alive.
pub proof fn lemma_transfer_round_trip(address: u64)
    ensures
        ({
            let events = seq![
                TransferEvent::Allocate { address },
                TransferEvent::Constructed,
                TransferEvent::Reclaim { handle: encode_handle(address) },
            ];
            &&& state_after(TransferState::Unwrapped, events) == TransferState::Released
            &&& actions_of(TransferState::Unwrapped, events) == seq![
                TransferAction::Construct { handle: encode_handle(address) },
                TransferAction::Keep,
                TransferAction::Release { address },
            ]
            &&& releases(actions_of(TransferState::Unwrapped, events)) == 1
        }),
{
    let e0 = TransferEvent::Allocate { address };
    let e1 = TransferEvent::Constructed;
    let e2 = TransferEvent::Reclaim { handle: encode_handle(address) };
    let events = seq![e0, e1, e2];
    let two = seq![e0, e1];
    let one = seq![e0];
    lemma_handle_round_trip(address, 0);
    assert(events.drop_last() =~= two);
    assert(two.drop_last() =~= one);
    assert(one.drop_last() =~= Seq::<TransferEvent>::empty());
    let start = TransferState::Unwrapped;
    let none = Seq::<TransferEvent>::empty();
    assert(state_after(start, none) == start);
    assert(actions_of(start, none) =~= Seq::<TransferAction>::empty());
    assert(state_after(start, one.drop_last()) == start);
    assert(state_after(start, one) == TransferState::Allocated { handle: encode_handle(address) });
    assert(state_after(start, two) == TransferState::HandedOff { handle: encode_handle(address) });
    assert(actions_of(start, one) =~= seq![
        TransferAction::Construct { handle: encode_handle(address) },
    ]);
    assert(actions_of(start, two) =~= seq![
        TransferAction::Construct { handle: encode_handle(address) },
        TransferAction::Keep,
    ]);
    let actions = actions_of(start, events);
    assert(actions =~= seq![
        TransferAction::Construct { handle: encode_handle(address) },
        TransferAction::Keep,
        TransferAction::Release { address },
    ]);
    lemma_released_at_most_once(events);
}

/// Where the constructor fails, the allocation is released at once, at the
/// address at which it was allocated.
pub proof fn lemma_aborted_transfer(address: u64)
    ensures
        ({
            let events = seq![
                TransferEvent::Allocate { address },
                TransferEvent::ConstructionFailed,
            ];
            &&& state_after(TransferState::Unwrapped, events) == TransferState::Aborted
            &&& actions_of(TransferState::Unwrapped, events) == seq![
                TransferAction::Construct { handle: encode_handle(address) },
                TransferAction::Release { address },
            ]
        }),
{
    let e0 = TransferEvent::Allocate { address };
    let e1 = TransferEvent::ConstructionFailed;
    let events = seq![e0, e1];
    let one = seq![e0];
    lemma_handle_round_trip(address, 0);
    assert(events.drop_last() =~= one);
    assert(one.drop_last() =~= Seq::<TransferEvent>::empty());
    let start = TransferState::Unwrapped;
    let none = Seq::<TransferEvent>::empty();
    assert(state_after(start, none) == start);
    assert(actions_of(start, none) =~= Seq::<TransferAction>::empty());
    assert(state_after(start, one.drop_last()) == start);
    assert(state_after(start, one) == TransferState::Allocated { handle: encode_handle(address) });
    assert(actions_of(start, one) =~= seq![
        TransferAction::Construct { handle: encode_handle(address) },
    ]);
    assert(actions_of(start, events) =~= seq![
        TransferAction::Construct { handle: encode_handle(address) },
        TransferAction::Release { address },
    ]);
}

/// Once the allocation of a transfer has been released, nothing that
/// happens releases it again: the state stays, and every event is refused.
/// So a transfer that was aborted never reaches the call by which the
/// managed runtime gives a value up.
pub proof fn lemma_over_is_final(state: TransferState, events: Seq<TransferEvent>)
    requires
        is_over(state),
    ensures
        state_after(state, events) == state,
        actions_of(state, events).len() == events.len(),
        forall|i: int|
            0 <= i < events.len() ==> #[trigger] actions_of(state, events)[i]
                == TransferAction::Refuse,
        releases(actions_of(state, events)) == 0,
    decreases events.len(),
{
    if events.len() > 0 {
        lemma_over_is_final(state, events.drop_last());
        assert(actions_of(state, events).drop_last() =~= actions_of(state, events.drop_last()));
    }
}

/// Whatever happens to a transfer, its allocation is released at most once,
/// and exactly once by the time the transfer is over: nothing is freed
/// twice, and nothing is leaked by a transfer that has ended.
pub proof fn lemma_released_at_most_once(events: Seq<TransferEvent>)
    ensures
        actions_of(TransferState::Unwrapped, events).len() == events.len(),
        releases(actions_of(TransferState::Unwrapped, events)) == if is_over(
            state_after(TransferState::Unwrapped, events),
        ) {
            1nat
        } else {
            0nat
        },
    decreases events.len(),
{
    if events.len() > 0 {
        lemma_released_at_most_once(events.drop_last());
        assert(actions_of(TransferState::Unwrapped, events).drop_last() =~= actions_of(
            TransferState::Unwrapped,
            events.drop_last(),
        ));
    }
}

} // verus!
