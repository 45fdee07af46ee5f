use vstd::prelude::*;
use crate::device::{is_spindle_spec, probe_id, spindles_of, Dacal, Probe};
use crate::error::{ErrorModel, TransportError};
use crate::protocol::{command_outcome_spec, GET_STATUS, MOVE_TO, RETRACT};
use crate::session::SessionModel;
use crate::status::{
    ack_text, busy_text, code_unit, identification_spec, plain_units, spells, response_status, status_bytes, status_of_text,
    utf16le_text, StatusModel,
};

verus! {

/// A response whose status text decodes to "ACK" reports `Ack`, one whose text
/// decodes to "BUSY" reports `Busy`, and one whose text decodes to any other
/// text reports `Unknown` with that very text.
pub proof fn status_text_decoding(response: Seq<u8>, text: Seq<char>)
    requires
        utf16le_text(status_bytes(response)) == Some(text),
    ensures
        text == ack_text() ==> response_status(response) == StatusModel::Ack,
        text == busy_text() ==> response_status(response) == StatusModel::Busy,
        text != ack_text() && text != busy_text() ==> response_status(response) == (
        StatusModel::Unknown { text }),
{
}

/// The UTF-16LE bytes of "ACK" spell that text, and those of "BUSY" spell
/// that one, so a response carrying either reports `Ack` or `Busy`.
pub proof fn ack_and_busy_bytes_spell_their_text(ack: Seq<char>, busy: Seq<char>)
    requires
        spells(seq![0x41u8, 0, 0x43, 0, 0x4b, 0], ack),
        spells(seq![0x42u8, 0, 0x55, 0, 0x53, 0, 0x59, 0], busy),
    ensures
        plain_units(seq![0x41u8, 0, 0x43, 0, 0x4b, 0]),
        plain_units(seq![0x42u8, 0, 0x55, 0, 0x53, 0, 0x59, 0]),
        status_of_text(ack) == StatusModel::Ack,
        status_of_text(busy) == StatusModel::Busy,
{
    let a = seq![0x41u8, 0, 0x43, 0, 0x4b, 0];
    let b = seq![0x42u8, 0, 0x55, 0, 0x53, 0, 0x59, 0];
    assert(code_unit(a, 0) == 0x41 && code_unit(a, 1) == 0x43 && code_unit(a, 2) == 0x4b);
    assert(code_unit(b, 0) == 0x42 && code_unit(b, 1) == 0x55 && code_unit(b, 2) == 0x53
        && code_unit(b, 3) == 0x59);
    assert(ack[0] as int == code_unit(a, 0) && ack[1] as int == code_unit(a, 1) && ack[2] as int
        == code_unit(a, 2));
    assert(busy[0] as int == code_unit(b, 0) && busy[1] as int == code_unit(b, 1) && busy[2] as int
        == code_unit(b, 2) && busy[3] as int == code_unit(b, 3));
    assert(ack =~= ack_text());
    assert(busy =~= busy_text());
}

/// An identification response under seven bytes carries no id.
pub proof fn short_identification_has_no_id(response: Seq<u8>)
    requires
        response.len() < 7,
    ensures
        identification_spec(response) is None,
{
}

/// The id of an identification response is byte 4 followed by byte 6: bytes
/// 5 and 7, and any byte past them, play no part.
pub proof fn identification_reads_bytes_four_and_six(a: Seq<u8>, b: Seq<u8>)
    requires
        a.len() >= 7,
        b.len() >= 7,
        a[4] == b[4],
        a[6] == b[6],
    ensures
        identification_spec(a) == Some((a[4] as int * 256 + a[6] as int) as u16),
        identification_spec(a) == identification_spec(b),
{
}

/// Accessing slot `n` issues RETRACT, MOVE_TO and `n`, in that order, each
/// only once the one before it was acknowledged, and succeeds where all three
/// are acknowledged.
pub proof fn access_slot_issues_three_commands(
    id: u16,
    n: u8,
    first: Result<Seq<u8>, TransportError>,
    second: Result<Seq<u8>, TransportError>,
    third: Result<Seq<u8>, TransportError>,
)
    requires
        command_outcome_spec(first) is Ok,
        command_outcome_spec(second) is Ok,
        command_outcome_spec(third) is Ok,
    ensures
        ({
            let s0 = SessionModel::start(id, seq![RETRACT, MOVE_TO, n]);
            let s1 = s0.respond(first);
            let s2 = s1.respond(second);
            let s3 = s2.respond(third);
            &&& s0.next_command() == Some(RETRACT)
            &&& s1.next_command() == Some(MOVE_TO)
            &&& s2.next_command() == Some(n)
            &&& s3.next_command() is None
            &&& s3.issued_commands() == seq![RETRACT, MOVE_TO, n]
            &&& s3.result() == Ok::<(), ErrorModel>(())
        }),
{
    let s3 = SessionModel::start(id, seq![RETRACT, MOVE_TO, n]).respond(first).respond(
        second,
    ).respond(third);
    assert(s3.issued_commands() =~= seq![RETRACT, MOVE_TO, n]);
}

/// Where the transport reports busy on MOVE_TO, the slot number is never
/// issued and accessing the slot fails with `Busy` for that spindle; the arm
/// stays retracted.
pub proof fn access_slot_stops_when_busy(id: u16, n: u8, first: Result<Seq<u8>, TransportError>)
    requires
        command_outcome_spec(first) is Ok,
    ensures
        ({
            let s2 = SessionModel::start(id, seq![RETRACT, MOVE_TO, n]).respond(first).respond(
                Err(TransportError::Busy),
            );
            &&& s2.next_command() is None
            &&& s2.issued_commands() == seq![RETRACT, MOVE_TO]
            &&& s2.result() == Err::<(), ErrorModel>(ErrorModel::Busy { id })
        }),
{
    let s2 = SessionModel::start(id, seq![RETRACT, MOVE_TO, n]).respond(first).respond(
        Err(TransportError::Busy),
    );
    assert(s2.issued_commands() =~= seq![RETRACT, MOVE_TO]);
}

/// Of two spindles listed, where one cannot be identified (its handle did not
/// open, or its transfer failed) the listing holds exactly the other.
pub proof fn enumeration_skips_unidentified<D>(failed: Probe<D>, good: Probe<D>, id: u16)
    requires
        is_spindle_spec(failed.vendor_id, failed.product_id),
        failed.identification is Err,
        probe_id(good) == Some(id),
    ensures
        spindles_of(seq![failed, good]) == seq![Dacal { id, device: good.device }],
        spindles_of(seq![good, failed]) == seq![Dacal { id, device: good.device }],
{
    let a = seq![failed, good];
    let b = seq![good, failed];
    assert(a.drop_first() =~= seq![good]);
    assert(seq![good].drop_first() =~= Seq::<Probe<D>>::empty());
    assert(b.drop_first() =~= seq![failed]);
    assert(seq![failed].drop_first() =~= Seq::<Probe<D>>::empty());
    let one = seq![Dacal { id, device: good.device }];
    assert(spindles_of(Seq::<Probe<D>>::empty()) == Seq::<Dacal<D>>::empty());
    assert(seq![good][0] == good);
    assert(seq![failed][0] == failed);
    assert(one + Seq::<Dacal<D>>::empty() =~= one);
    assert(spindles_of(seq![good]) == one);
    assert(spindles_of(seq![failed]) == Seq::<Dacal<D>>::empty());
    assert(b[0] == good);
    assert(a[0] == failed);
    assert(spindles_of(b) == one);
}

/// A status query answered with a status other than `Ack` or `Busy` returns
/// that status as its result; one answered with `Busy`, by the device or by
/// the transport, fails with `Busy` for that spindle.
pub proof fn status_query_reports_status(id: u16, response: Seq<u8>)
    ensures
        ({
            let s = SessionModel::start(id, seq![GET_STATUS]).respond(Ok(response));
            &&& s.next_command() is None
            &&& response_status(response) != StatusModel::Busy ==> s.status_result() == Ok::<
                StatusModel,
                ErrorModel,
            >(response_status(response))
            &&& response_status(response) == StatusModel::Busy ==> s.status_result() == Err::<
                StatusModel,
                ErrorModel,
            >(ErrorModel::Busy { id })
        }),
        SessionModel::start(id, seq![GET_STATUS]).respond(Err(TransportError::Busy)).status_result()
            == Err::<StatusModel, ErrorModel>(ErrorModel::Busy { id }),
{
}

} // verus!
