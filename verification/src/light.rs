use vstd::prelude::*;

use crate::payload::light_payload;
use crate::payload::spec_light_payload;
use crate::ReadingError;

verus! {

/// What one light-bridge tick decided: what to publish, if anything, and
/// the observed state to carry into the next tick.
pub struct LightTick {
    pub payload: Option<String>,
    pub previous: Option<bool>,
}

/// Decide one tick of the light bridge from the last observed state and the
/// probe's outcome.
///
/// A successful probe is published only on the first observation since
/// start or on a change of state; a failed probe publishes nothing, leaves
/// the remembered state as it was, and the bridge keeps ticking.
pub fn plan_light_tick(previous: Option<bool>, probe: &Result<bool, ReadingError>) -> (r: LightTick)
    ensures
        match *probe {
            Ok(light) => {
                &&& r.previous == Some(light)
                &&& previous == Some(light) ==> r.payload is None
                &&& previous != Some(light) ==> (r.payload matches Some(p) && p@
                    == spec_light_payload(light))
            },
            Err(_) => r.payload is None && r.previous == previous,
        },
{
    match probe {
        Ok(light) => {
            let light = *light;
            let unchanged = match previous {
                Some(seen) => seen == light,
                None => false,
            };
            if unchanged {
                LightTick { payload: None, previous: Some(light) }
            } else {
                LightTick { payload: Some(light_payload(light)), previous: Some(light) }
            }
        },
        Err(_) => LightTick { payload: None, previous },
    }
}

} // verus!
