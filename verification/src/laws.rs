//! Properties that relate several operations of the store: what a fresh
//! store answers, and the two write-then-read round trips.
use vstd::prelude::*;

use crate::bits::{
    lemma_pack_all_false, lemma_pack_unpack_roundtrip, unpacked_bits,
};
use crate::pdu::{FooterView, RequestPduView, ResponsePduView};
use crate::store::{
    fresh_store, overwritten, resp_matches, store_after, StoreModel, BANK_SIZE,
};

verus! {

/// Reading any valid, non-empty coil range from a fresh store succeeds with
/// `ceil(quantity / 8)` status bytes, all zero.
pub proof fn lemma_read_coils_fresh_store(address: u16, quantity: u16, r: ResponsePduView)
    requires
        1 <= quantity <= 2000,
        address + quantity <= BANK_SIZE,
        resp_matches(
            fresh_store(),
            (RequestPduView { code: 0x01, address, q_or_v: quantity, addl: None }),
            r,
        ),
    ensures
        r matches ResponsePduView::ReadCoilsResponse { code, byte_count, coil_status } && code
            == 0x01 && byte_count == (quantity + 7) / 8 && coil_status.len() == (quantity + 7) / 8
            && (forall|i: int| 0 <= i < coil_status.len() ==> coil_status[i] == 0),
{
    let bits = fresh_store().coils.subrange(address as int, address + quantity);
    if let ResponsePduView::ReadCoilsResponse { coil_status, .. } = r {
        lemma_pack_all_false(bits, coil_status);
    }
}

/// Writing one holding register and reading that address back returns exactly
/// the written value.
pub proof fn lemma_write_read_register(s: StoreModel, address: u16, value: u16, r: ResponsePduView)
    requires
        s.wf(),
        resp_matches(
            store_after(s, (RequestPduView { code: 0x06, address, q_or_v: value, addl: None })),
            (RequestPduView { code: 0x03, address, q_or_v: 1, addl: None }),
            r,
        ),
    ensures
        r == (ResponsePduView::ReadHoldingRegistersResponse {
            code: 0x03,
            byte_count: 2,
            values: seq![value],
        }),
{
    let s2 = store_after(
        s,
        (RequestPduView { code: 0x06, address, q_or_v: value, addl: None }),
    );
    assert(s2.holding_registers.subrange(address as int, address + 1) =~= seq![value]);
}

/// Writing a run of coils and reading the same range back reproduces the
/// written coils bit for bit across the pack/unpack round trip.
pub proof fn lemma_write_read_coils(
    s: StoreModel,
    address: u16,
    quantity: u16,
    byte_count: u8,
    data: Seq<u8>,
    r: ResponsePduView,
)
    requires
        s.wf(),
        quantity <= 0x07b0,
        address + quantity <= BANK_SIZE,
        quantity <= 8 * data.len(),
        resp_matches(
            store_after(
                s,
                (RequestPduView {
                    code: 0x0f,
                    address,
                    q_or_v: quantity,
                    addl: Some(FooterView { byte_count, data }),
                }),
            ),
            (RequestPduView { code: 0x01, address, q_or_v: quantity, addl: None }),
            r,
        ),
    ensures
        r matches ResponsePduView::ReadCoilsResponse { coil_status, .. } && unpacked_bits(
            coil_status,
            quantity as nat,
        ) == unpacked_bits(data, quantity as nat),
{
    let values = unpacked_bits(data, quantity as nat);
    let s2 = store_after(
        s,
        (RequestPduView {
            code: 0x0f,
            address,
            q_or_v: quantity,
            addl: Some(FooterView { byte_count, data }),
        }),
    );
    assert(s2.coils == overwritten(s.coils, address as int, values));
    assert(s2.coils.subrange(address as int, address + quantity) =~= values);
    if let ResponsePduView::ReadCoilsResponse { coil_status, .. } = r {
        lemma_pack_unpack_roundtrip(values, coil_status);
    }
}

} // verus!
