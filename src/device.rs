use vstd::prelude::*;
use crate::error::{transport_error_spec, ErrorModel, SpindleError, TransportError};
use crate::protocol::{
    FIRST_SLOT, GET_STATUS, LAST_SLOT, LED_OFF, LED_ON, MOVE_TO, PRODUCT_ID, RESET, RETRACT,
    VENDOR_ID,
};
use crate::session::{Session, SessionModel};
use crate::status::{get_id, identification_spec};

verus! {

/// One spindle, known by the id it reports, with the transport's handle to
/// the USB device it is.
pub struct Dacal<D> {
    pub id: u16,
    pub device: D,
}

/// One USB device as the transport saw it: its vendor and product ids, and
/// what reading its identification response gave (for a device that is no
/// spindle the transport need not read, and may put any error here).
pub struct Probe<D> {
    pub device: D,
    pub vendor_id: u16,
    pub product_id: u16,
    pub identification: Result<Vec<u8>, TransportError>,
}

/// Whether a USB device with these ids is a spindle.
pub open spec fn is_spindle_spec(vendor_id: u16, product_id: u16) -> bool {
    vendor_id == VENDOR_ID && product_id == PRODUCT_ID
}

/// Whether a USB device with these ids is a spindle.
pub fn is_spindle(vendor_id: u16, product_id: u16) -> (r: bool)
    ensures
        r == is_spindle_spec(vendor_id, product_id),
{
    vendor_id == VENDOR_ID && product_id == PRODUCT_ID
}

/// The id of the spindle that a probe found, if it found one.
pub open spec fn probe_id<D>(p: Probe<D>) -> Option<u16> {
    if is_spindle_spec(p.vendor_id, p.product_id) {
        match p.identification {
            Ok(b) => identification_spec(b@),
            Err(_) => None,
        }
    } else {
        None
    }
}

/// The spindles among the probed devices, in the order probed.
pub open spec fn spindles_of<D>(ps: Seq<Probe<D>>) -> Seq<Dacal<D>>
    decreases ps.len(),
{
    if ps.len() == 0 {
        Seq::empty()
    } else {
        let rest = spindles_of(ps.drop_first());
        match probe_id(ps[0]) {
            Some(id) => seq![Dacal { id, device: ps[0].device }] + rest,
            None => rest,
        }
    }
}

/// The first spindle of `ds` with id `id`.
pub open spec fn find_id<D>(ds: Seq<Dacal<D>>, id: u16) -> Option<Dacal<D>>
    decreases ds.len(),
{
    if ds.len() == 0 {
        None
    } else if ds[0].id == id {
        Some(ds[0])
    } else {
        find_id(ds.drop_first(), id)
    }
}

/// The spindle with id `id` among the devices of `listing`, or the error
/// that looking it up comes to.
pub open spec fn lookup<D>(listing: Result<Vec<Probe<D>>, TransportError>, id: u16) -> Result<
    Dacal<D>,
    ErrorModel,
> {
    match listing {
        Err(e) => Err(transport_error_spec(e)),
        Ok(ps) => match find_id(spindles_of(ps@), id) {
            Some(d) => Ok(d),
            None => Err(ErrorModel::NoSpindle { id }),
        },
    }
}

/// The mathematical value of a looked-up spindle or of the error.
pub open spec fn found_view<D>(r: Result<Dacal<D>, SpindleError>) -> Result<Dacal<D>, ErrorModel> {
    match r {
        Ok(d) => Ok(d),
        Err(e) => Err(e@),
    }
}

/// The spindles among the devices the transport listed; a device that could
/// not be identified is left out. Fails only where the listing failed.
pub fn devices<D>(listing: Result<Vec<Probe<D>>, TransportError>) -> (r: Result<
    Vec<Dacal<D>>,
    TransportError,
>)
    ensures
        match listing {
            Ok(ps) => (r matches Ok(ds) && ds@ == spindles_of(ps@)),
            Err(e) => r == Err::<Vec<Dacal<D>>, TransportError>(e),
        },
{
    let mut probes = match listing {
        Ok(ps) => ps,
        Err(e) => return Err(e),
    };
    let ghost all = probes@;
    let mut found: Vec<Dacal<D>> = Vec::new();
    while probes.len() > 0
        invariant
            probes@ == all.take(probes.len() as int),
            probes.len() <= all.len(),
            found@ == spindles_of(all.skip(probes.len() as int)),
        decreases probes.len(),
    {
        let ghost k = probes.len() - 1;
        let p = probes.pop().unwrap();
        assert(p == all[k]);
        assert(all.skip(k).drop_first() =~= all.skip(k + 1));
        assert(probes@ =~= all.take(k));
        if is_spindle(p.vendor_id, p.product_id) {
            match Dacal::from_device(p.device, p.identification) {
                Ok(d) => {
                    found.insert(0, d);
                    assert(found@ =~= spindles_of(all.skip(k)));
                },
                Err(_) => {},
            }
        }
    }
    assert(all.skip(0) =~= all);
    Ok(found)
}

impl<D> Dacal<D> {
    /// The spindle that `device` is, given what reading its identification
    /// gave: the read's failure, or a malformed response, is the error.
    fn from_device(device: D, identification: Result<Vec<u8>, TransportError>) -> (r: Result<
        Dacal<D>,
        SpindleError,
    >)
        ensures
            match identification {
                Err(e) => (r matches Err(x) && x@ == transport_error_spec(e)),
                Ok(b) => match identification_spec(b@) {
                    Some(id) => r == Ok::<Dacal<D>, SpindleError>(Dacal { id, device }),
                    None => (r matches Err(x) && x@ == transport_error_spec(TransportError::Malformed)),
                },
            },
    {
        match identification {
            Err(e) => Err(SpindleError::from(e)),
            Ok(bytes) => match get_id(bytes.as_slice()) {
                Ok(id) => Ok(Dacal { id, device }),
                Err(e) => Err(SpindleError::from(e)),
            },
        }
    }

    /// The spindle with id `id` among the devices the transport listed.
    pub fn from_id(listing: Result<Vec<Probe<D>>, TransportError>, id: u16) -> (r: Result<
        Dacal<D>,
        SpindleError,
    >)
        ensures
            found_view(r) == lookup(listing, id),
    {
        let mut ds = match devices(listing) {
            Ok(ds) => ds,
            Err(e) => return Err(SpindleError::from(e)),
        };
        let ghost all = ds@;
        assert(ds@.skip(0) =~= ds@);
        let mut i: usize = 0;
        while i < ds.len()
            invariant
                i <= ds.len(),
                ds@ == all,
                listing matches Ok(ps) && all == spindles_of(ps@),
                find_id(ds@.skip(i as int), id) == find_id(ds@, id),
            decreases ds.len() - i,
        {
            assert(ds@.skip(i as int).drop_first() =~= ds@.skip(i + 1));
            if ds[i].id == id {
                return Ok(ds.remove(i));
            }
            i = i + 1;
        }
        Err(SpindleError::NoSpindle { id })
    }

    /// Retracts the arm.
    pub fn retract_arm(&self) -> (r: Session)
        ensures
            r.wf(),
            r@ == SessionModel::start(self.id, seq![RETRACT]),
    {
        let plan = vec![RETRACT];
        assert(plan@ =~= seq![RETRACT]);
        Session::start(self.id, plan)
    }

    /// Brings the disc in slot `slot_number` out: retracts the arm, moves it,
    /// and names the slot. A slot outside 1 to 150 fails at once, before any
    /// transfer. The three commands are not one transaction: where a later one
    /// fails the arm stays retracted, and nothing is undone.
    pub fn access_slot(&self, slot_number: u8) -> (r: Result<Session, SpindleError>)
        ensures
            (FIRST_SLOT <= slot_number <= LAST_SLOT) ==> (r matches Ok(s) && s.wf() && s@
                == SessionModel::start(self.id, seq![RETRACT, MOVE_TO, slot_number])),
            !(FIRST_SLOT <= slot_number <= LAST_SLOT) ==> (r matches Err(e) && e@
                == (ErrorModel::NoSlot { id: self.id, number: slot_number })),
    {
        if slot_number < FIRST_SLOT || slot_number > LAST_SLOT {
            return Err(SpindleError::NoSlot { id: self.id, number: slot_number });
        }
        let plan = vec![RETRACT, MOVE_TO, slot_number];
        assert(plan@ =~= seq![RETRACT, MOVE_TO, slot_number]);
        Ok(Session::start(self.id, plan))
    }

    /// Asks for the spindle's status; finish the session with `finish_status`.
    pub fn get_status(&self) -> (r: Session)
        ensures
            r.wf(),
            r@ == SessionModel::start(self.id, seq![GET_STATUS]),
    {
        let plan = vec![GET_STATUS];
        assert(plan@ =~= seq![GET_STATUS]);
        Session::start(self.id, plan)
    }

    /// Resets the spindle.
    pub fn reset(&self) -> (r: Session)
        ensures
            r.wf(),
            r@ == SessionModel::start(self.id, seq![RESET]),
    {
        let plan = vec![RESET];
        assert(plan@ =~= seq![RESET]);
        Session::start(self.id, plan)
    }

    /// Switches the indicator light on or off.
    pub fn set_led(&self, on: bool) -> (r: Session)
        ensures
            r.wf(),
            r@ == SessionModel::start(self.id, seq![if on { LED_ON } else { LED_OFF }]),
    {
        let command: u8 = if on { LED_ON } else { LED_OFF };
        let plan = vec![command];
        assert(plan@ =~= seq![command]);
        Session::start(self.id, plan)
    }

    /// Issues the raw command `command`, to explore the protocol.
    pub fn debug(&self, command: u8) -> (r: Session)
        ensures
            r.wf(),
            r@ == SessionModel::start(self.id, seq![command]),
    {
        let plan = vec![command];
        assert(plan@ =~= seq![command]);
        Session::start(self.id, plan)
    }
}

} // verus!
