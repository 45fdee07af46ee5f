use vstd::prelude::*;
use crate::device::{found_view, lookup, Dacal, Probe};
use crate::error::{ErrorModel, SpindleError, TransportError};
use crate::protocol::{FIRST_SLOT, LAST_SLOT, MOVE_TO, RESET, RETRACT};
use crate::session::{Session, SessionModel};

verus! {

/// What a command-line request comes to before any transfer: the spindle to
/// run on and the session to run, or the error that ends it at once.
pub open spec fn planned<D>(r: Result<(Dacal<D>, Session), SpindleError>, found: Result<
    Dacal<D>,
    ErrorModel,
>, plan: Seq<u8>) -> bool {
    match found {
        Err(e) => (r matches Err(err) && err@ == e),
        Ok(d) => (r matches Ok((d2, s)) && d2 == d && s.wf() && s@ == SessionModel::start(
            d.id,
            plan,
        )),
    }
}

/// Plans closing spindle `spindle_id`: retracting its arm.
pub fn cmd_close<D>(listing: Result<Vec<Probe<D>>, TransportError>, spindle_id: u16) -> (r: Result<
    (Dacal<D>, Session),
    SpindleError,
>)
    ensures
        planned(r, lookup(listing, spindle_id), seq![RETRACT]),
{
    let d = Dacal::from_id(listing, spindle_id)?;
    let s = d.retract_arm();
    Ok((d, s))
}

/// Plans opening spindle `spindle_id` at slot `disc_number`.
pub fn cmd_open<D>(
    listing: Result<Vec<Probe<D>>, TransportError>,
    spindle_id: u16,
    disc_number: u8,
) -> (r: Result<(Dacal<D>, Session), SpindleError>)
    ensures
        match lookup(listing, spindle_id) {
            Ok(d) => if FIRST_SLOT <= disc_number <= LAST_SLOT {
                planned(r, Ok(d), seq![RETRACT, MOVE_TO, disc_number])
            } else {
                (r matches Err(err) && err@ == (ErrorModel::NoSlot { id: d.id, number: disc_number }))
            },
            Err(e) => (r matches Err(err) && err@ == e),
        },
{
    let d = Dacal::from_id(listing, spindle_id)?;
    let s = d.access_slot(disc_number)?;
    Ok((d, s))
}

/// Plans resetting spindle `spindle_id`.
pub fn cmd_reset<D>(listing: Result<Vec<Probe<D>>, TransportError>, spindle_id: u16) -> (r: Result<
    (Dacal<D>, Session),
    SpindleError,
>)
    ensures
        planned(r, lookup(listing, spindle_id), seq![RESET]),
{
    let d = Dacal::from_id(listing, spindle_id)?;
    let s = d.reset();
    Ok((d, s))
}

} // verus!
