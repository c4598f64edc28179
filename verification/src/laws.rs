//! What holds of the session across operations.

use vstd::prelude::*;
use vstd::utf8::encode_utf8;

use crate::connect::connect_begin;
use crate::disconnect::{disconnect_begin, DisconnectTurnView, Released};
use crate::error::{ErrorKind, Failure};
use crate::gatt::{
    characteristic_lines, distinct_by_uuid, first_where, has_uuid, lemma_distinct_by_uuid,
    lemma_distinct_is_idempotent, lemma_first_where, Access, Characteristic,
};
use crate::scan::scan_begin;
use crate::session::SessionView;
use crate::status::{liveness_of, Liveness};
use crate::transfer::{
    bare, chosen, none_serving, planned_write, write_verdict, TargetView, WriteMode,
};

verus! {

/// Scanning and connecting need an adapter: without one each of them ends
/// at once with `NotInitialized`, and with one each of them goes to work.
pub proof fn law_radio_operations_need_an_adapter(
    initialized: bool,
    window_secs: u64,
    device_id: Seq<char>,
)
    ensures
        scan_begin(initialized, window_secs).fails_with(ErrorKind::NotInitialized) <==> !initialized,
        connect_begin(initialized, device_id).fails_with(ErrorKind::NotInitialized)
            <==> !initialized,
        !initialized ==> scan_begin(initialized, window_secs) is Finished && connect_begin(
            initialized,
            device_id,
        ) is Finished,
{
}

/// What the operations on the session alone say while no peripheral is
/// held, with or without an adapter: the connection is down, nothing is
/// listed, a transfer fails with `NotConnected`, and a disconnect is done
/// without the radio.
pub proof fn law_session_without_peripheral<A, P>(
    session: SessionView<A, P>,
    target: TargetView,
    access: Access,
    data: Seq<char>,
)
    requires
        session.well_formed(),
        session.peripheral is None,
    ensures
        liveness_of(session) == Liveness::Settled(false),
        characteristic_lines(session.characteristics).len() == 0,
        chosen(session, target, access) == Err::<Characteristic, _>(bare(ErrorKind::NotConnected)),
        planned_write(session, data, target) is Err,
        disconnect_begin(session.peripheral is Some) == DisconnectTurnView::Finished(
            Ok(Released {}),
        ),
{
}

/// After a connection is recorded, the session holds the peripheral, so the
/// peripheral is asked whether the link is up, and the listing has one line
/// for each UUID discovered: it is not empty where anything was discovered.
pub proof fn law_connect_then_observe<A, P>(
    before: SessionView<A, P>,
    peripheral: P,
    found: Seq<Characteristic>,
)
    ensures
        ({
            let after = before.attached(peripheral, distinct_by_uuid(found));
            &&& after.well_formed()
            &&& after.adapter == before.adapter
            &&& after.peripheral == Some(peripheral)
            &&& liveness_of(after) == Liveness::AskPeripheral
            &&& after.characteristics == distinct_by_uuid(found)
            &&& characteristic_lines(after.characteristics).len() == distinct_by_uuid(found).len()
            &&& characteristic_lines(after.characteristics).len() > 0 <==> found.len() > 0
            &&& forall|uuid: u128| has_uuid(after.characteristics, uuid) <==> has_uuid(found, uuid)
        }),
{
    lemma_distinct_by_uuid(found);
    lemma_distinct_is_idempotent(distinct_by_uuid(found));
}

/// After a disconnect is recorded, the connection is down and nothing is
/// listed, whether or not a peripheral was held before; the adapter stays,
/// and recording a second disconnect changes nothing.
pub proof fn law_disconnect_then_observe<A, P>(before: SessionView<A, P>)
    ensures
        before.cleared().well_formed(),
        before.cleared().adapter == before.adapter,
        liveness_of(before.cleared()) == Liveness::Settled(false),
        characteristic_lines(before.cleared().characteristics).len() == 0,
        before.cleared().cleared() == before.cleared(),
{
}

/// A transfer to a UUID that no stored characteristic carries fails with
/// `CharacteristicNotFound`, in either direction and whatever the stored
/// characteristics could serve; one to a UUID that is carried targets a
/// characteristic with that UUID.
pub proof fn law_explicit_uuid_never_falls_back<A, P>(
    session: SessionView<A, P>,
    uuid: u128,
    access: Access,
)
    requires
        session.peripheral is Some,
    ensures
        !has_uuid(session.characteristics, uuid) ==> chosen(session, TargetView::Uuid(uuid), access)
            == Err::<Characteristic, _>(bare(ErrorKind::CharacteristicNotFound)),
        has_uuid(session.characteristics, uuid) ==> (chosen(
            session,
            TargetView::Uuid(uuid),
            access,
        ) matches Ok(characteristic) && characteristic.uuid == uuid),
{
    let wanted = |c: Characteristic| c.uuid == uuid;
    lemma_first_where(session.characteristics, wanted);
    if has_uuid(session.characteristics, uuid) {
        let i = choose|i: int|
            0 <= i < session.characteristics.len() && (#[trigger] session.characteristics[i]).uuid
                == uuid;
        assert(wanted(session.characteristics[i]));
    }
}

/// A transfer with no UUID targets the first stored characteristic that
/// serves its direction: the one at the least position that does. It fails
/// only where no stored characteristic serves the direction.
pub proof fn law_auto_select_takes_the_first<A, P>(session: SessionView<A, P>, access: Access)
    requires
        session.peripheral is Some,
    ensures
        match chosen(session, TargetView::Auto, access) {
            Ok(characteristic) => exists|i: int|
                0 <= i < session.characteristics.len() && #[trigger] session.characteristics[i]
                    == characteristic && characteristic.serves(access) && forall|j: int|
                    0 <= j < i ==> !(#[trigger] session.characteristics[j]).serves(access),
            Err(failure) => failure == bare(none_serving(access)) && forall|j: int|
                0 <= j < session.characteristics.len() ==> !(
                #[trigger] session.characteristics[j]).serves(access),
        },
{
    let wanted = |c: Characteristic| c.serves(access);
    lemma_first_where(session.characteristics, wanted);
    match first_where(session.characteristics, wanted) {
        Some(i) => {
            assert(session.characteristics[i] == session.characteristics[i]);
            assert forall|j: int| 0 <= j < i implies !(
            #[trigger] session.characteristics[j]).serves(access) by {
                assert(!wanted(session.characteristics[j]));
            }
        },
        None => {
            assert forall|j: int| 0 <= j < session.characteristics.len() implies !(
            #[trigger] session.characteristics[j]).serves(access) by {
                assert(!wanted(session.characteristics[j]));
            }
        },
    }
}

/// A write returns the text's length in bytes: the plan carries the UTF-8
/// bytes of the text, whatever the text and whichever characteristic it
/// targets, it is sent without waiting for the peer, and once the driver
/// reports success the count is the number of those bytes; nothing for the
/// empty text.
pub proof fn law_write_returns_byte_length<A, P>(
    session: SessionView<A, P>,
    data: Seq<char>,
    target: TargetView,
)
    requires
        encode_utf8(data).len() <= usize::MAX,
    ensures
        planned_write(session, data, target) matches Ok(plan) ==> {
            &&& plan.payload == encode_utf8(data)
            &&& plan.mode == WriteMode::WithoutResponse
            &&& write_verdict(plan, Ok(())) == Ok::<usize, Failure>(
                encode_utf8(data).len() as usize,
            )
        },
        planned_write(session, data, target) is Ok <==> chosen(session, target, Access::Write) is Ok,
        encode_utf8(Seq::<char>::empty()).len() == 0,
{
    reveal_with_fuel(encode_utf8, 1);
}

/// Acquiring an adapter again puts the new one in use and leaves the
/// connection as it is: only the latest adapter counts.
pub proof fn law_init_replaces_the_adapter<A, P>(before: SessionView<A, P>, first: A, second: A)
    requires
        before.well_formed(),
    ensures
        before.with_adapter(first).with_adapter(second) == before.with_adapter(second),
        before.with_adapter(first).peripheral == before.peripheral,
        before.with_adapter(first).characteristics == before.characteristics,
        before.with_adapter(first).well_formed(),
{
}

} // verus!
