use vstd::prelude::*;
use crate::error::TransportError;

verus! {

/// The status a spindle reports in answer to a command.
#[derive(Debug)]
pub enum DacalStatus {
    Ack,
    Busy,
    Sos,
    Unknown { status: String },
}

/// The mathematical value of a `DacalStatus`.
pub enum StatusModel {
    Ack,
    Busy,
    Sos,
    Unknown { text: Seq<char> },
}

impl View for DacalStatus {
    type V = StatusModel;

    open spec fn view(&self) -> StatusModel {
        match self {
            DacalStatus::Ack => StatusModel::Ack,
            DacalStatus::Busy => StatusModel::Busy,
            DacalStatus::Sos => StatusModel::Sos,
            DacalStatus::Unknown { status } => StatusModel::Unknown { text: status@ },
        }
    }
}

/// The acknowledgement text, "ACK".
pub open spec fn ack_text() -> Seq<char> {
    seq!['A', 'C', 'K']
}

/// The busy text, "BUSY".
pub open spec fn busy_text() -> Seq<char> {
    seq!['B', 'U', 'S', 'Y']
}

/// The placeholder text for a status that is not valid UTF-16, "Parse Error".
pub open spec fn parse_error_text() -> Seq<char> {
    seq!['P', 'a', 'r', 's', 'e', ' ', 'E', 'r', 'r', 'o', 'r']
}

/// The status that the text `t` stands for.
pub open spec fn status_of_text(t: Seq<char>) -> StatusModel {
    if t == ack_text() {
        StatusModel::Ack
    } else if t == busy_text() {
        StatusModel::Busy
    } else {
        StatusModel::Unknown { text: t }
    }
}

impl From<String> for DacalStatus {
    fn from(s: String) -> (r: DacalStatus)
        ensures
            r@ == status_of_text(s@),
    {
        let ack = "ACK".to_owned();
        let busy = "BUSY".to_owned();
        proof {
            reveal_strlit("ACK");
            reveal_strlit("BUSY");
            assert(ack@ =~= ack_text());
            assert(busy@ =~= busy_text());
        }
        if s == ack {
            DacalStatus::Ack
        } else if s == busy {
            DacalStatus::Busy
        } else {
            DacalStatus::Unknown { status: s }
        }
    }
}

impl vstd::std_specs::convert::FromSpecImpl<String> for DacalStatus {
    open spec fn obeys_from_spec() -> bool {
        true
    }

    open spec fn from_spec(s: String) -> DacalStatus {
        if s@ == ack_text() {
            DacalStatus::Ack
        } else if s@ == busy_text() {
            DacalStatus::Busy
        } else {
            DacalStatus::Unknown { status: s }
        }
    }
}

/// The characters that `b` holds as UTF-16LE text, or `None` where `b` is
/// not valid UTF-16LE.
pub uninterp spec fn utf16le_text(b: Seq<u8>) -> Option<Seq<char>>;

/// The UTF-16 code unit at index `i` of the little-endian bytes `b`.
pub open spec fn code_unit(b: Seq<u8>, i: int) -> int {
    b[2 * i] as int + 256 * b[2 * i + 1] as int
}

/// Whether `b` is whole code units, none of them a surrogate.
pub open spec fn plain_units(b: Seq<u8>) -> bool {
    &&& b.len() % 2 == 0
    &&& forall|i: int| 0 <= i < b.len() / 2 ==> !(0xD800 <= #[trigger] code_unit(b, i) <= 0xDFFF)
}

/// Whether `t` is the text that the plain code units of `b` spell.
pub open spec fn spells(b: Seq<u8>, t: Seq<char>) -> bool {
    &&& t.len() == b.len() / 2
    &&& forall|i: int| 0 <= i < t.len() ==> #[trigger] t[i] as int == code_unit(b, i)
}

/// Relies on utf16string's `WStr::from_utf16le`, which validates `bytes` as
/// UTF-16LE (an odd byte count is invalid), and `WStr::to_utf8`, which
/// collects its characters (a code unit that is no surrogate is the char of
/// that value).
#[verifier::external_body]
fn decode_utf16le(bytes: &[u8]) -> (r: Option<String>)
    ensures
        match r {
            Some(s) => utf16le_text(bytes@) == Some(s@),
            None => utf16le_text(bytes@) is None,
        },
        bytes@.len() % 2 == 1 ==> r is None,
        plain_units(bytes@) ==> (r matches Some(s) && s@.len() == bytes@.len() / 2 && forall|i: int|
            0 <= i < s@.len() ==> s@[i] as int == code_unit(bytes@, i)),
{
    utf16string::WStr::from_utf16le(bytes).ok().map(|w| w.to_utf8())
}

/// The part of a response that carries status text: everything after the
/// two-byte header.
pub open spec fn status_bytes(b: Seq<u8>) -> Seq<u8> {
    if b.len() >= 2 {
        b.subrange(2, b.len() as int)
    } else {
        Seq::empty()
    }
}

/// The status that text decoded from a response (or `None`, where it did not
/// decode) stands for.
pub open spec fn status_of_decoded(d: Option<Seq<char>>) -> StatusModel {
    match d {
        Some(t) => status_of_text(t),
        None => StatusModel::Unknown { text: parse_error_text() },
    }
}

/// The status that a command response reports.
pub open spec fn response_status(b: Seq<u8>) -> StatusModel {
    status_of_decoded(utf16le_text(status_bytes(b)))
}

/// Turns text decoded from a response into a status: "ACK" is `Ack`, "BUSY"
/// is `Busy`, a decoding failure is `Unknown` with the text "Parse Error",
/// and any other text is `Unknown` with that text.
pub fn status_from_decoded(decoded: Option<String>) -> (r: DacalStatus)
    ensures
        r@ == status_of_decoded(match decoded {
            Some(s) => Some(s@),
            None => None,
        }),
{
    match decoded {
        Some(s) => DacalStatus::from(s),
        None => {
            let placeholder = "Parse Error".to_owned();
            proof {
                reveal_strlit("Parse Error");
                assert(placeholder@ =~= parse_error_text());
            }
            DacalStatus::Unknown { status: placeholder }
        },
    }
}

/// Decodes the status that a command response reports: the bytes after the
/// two-byte header, read as UTF-16LE text.
pub fn decode_status(response: &[u8]) -> (r: DacalStatus)
    ensures
        r@ == response_status(response@),
        plain_units(status_bytes(response@)) ==> exists|t: Seq<char>|
            spells(status_bytes(response@), t) && r@ == status_of_text(t),
{
    let mut text: Vec<u8> = Vec::new();
    let mut i: usize = 2;
    while i < response.len()
        invariant
            2 <= i,
            response.len() >= 2 ==> i <= response.len() && text@ == response@.subrange(2, i as int),
            response.len() < 2 ==> text@.len() == 0,
        decreases response.len() - i,
    {
        text.push(response[i]);
        i = i + 1;
        assert(text@ =~= response@.subrange(2, i as int));
    }
    assert(text@ =~= status_bytes(response@));
    let decoded = decode_utf16le(text.as_slice());
    proof {
        if plain_units(text@) {
            let t = decoded->Some_0@;
            assert(spells(text@, t));
        }
    }
    status_from_decoded(decoded)
}

/// The spindle id that an identification response carries: byte 4 is its
/// high byte and byte 6 its low byte; a response under seven bytes has none.
pub open spec fn identification_spec(b: Seq<u8>) -> Option<u16> {
    if b.len() < 7 {
        None
    } else {
        Some((b[4] as int * 256 + b[6] as int) as u16)
    }
}

/// Reads the spindle id from an identification response; a response under
/// seven bytes is malformed.
pub fn get_id(response: &[u8]) -> (r: Result<u16, TransportError>)
    ensures
        match identification_spec(response@) {
            Some(id) => r == Ok::<u16, TransportError>(id),
            None => r == Err::<u16, TransportError>(TransportError::Malformed),
        },
{
    if response.len() < 7 {
        return Err(TransportError::Malformed);
    }
    let hi = response[4];
    let lo = response[6];
    let id: u16 = (hi as u16) << 8 | (lo as u16);
    assert(((hi as u16) << 8 | (lo as u16)) == (hi as u16) * 256 + (lo as u16)) by (bit_vector)
        requires
            hi <= 255,
            lo <= 255,
    ;
    Ok(id)
}

} // verus!
