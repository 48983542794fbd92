use vstd::prelude::*;
use crate::CtapError;

verus! {

/// How many capture rounds one enrollment attempt may take before the
/// caller gets an incomplete result instead of hanging on an unresponsive
/// sensor.
pub const ENROLL_ROUND_CAP: u8 = 10;

/// A stored fingerprint template: the authenticator-assigned id and an
/// optional friendly name.
#[derive(Debug)]
pub struct TemplateInfo {
    pub template_id: Vec<u8>,
    pub template_name: Option<String>,
}

impl TemplateInfo {
    pub fn new(template_id: Vec<u8>, template_name: Option<&str>) -> (r: Self)
        ensures
            r.template_id@ == template_id@,
            match (r.template_name, template_name) {
                (Some(n), Some(given)) => n@ == given@,
                (None, None) => true,
                _ => false,
            },
    {
        Self {
            template_id,
            template_name: match template_name {
                Some(n) => Some(n.to_owned()),
                None => None,
            },
        }
    }
}

/// Where one biometric enrollment attempt stands.
#[derive(Debug)]
pub enum EnrollState {
    /// No enrollment has begun.
    NotStarted,
    /// The authenticator allocated a template and is collecting samples;
    /// `rounds_left` capture rounds remain before the attempt is given up.
    Enrolling { template_id: Vec<u8>, rounds_left: u8 },
    /// The authenticator reported the template complete.
    Finished { template_id: Vec<u8> },
    /// The round cap ran out before the authenticator finished; the
    /// authenticator may still hold partial template state, which only a
    /// later remove by template id can clear.
    Incomplete,
}

impl EnrollState {
    /// Starts an enrollment attempt with the template id the authenticator
    /// assigned in its begin response. Only a fresh attempt can begin.
    pub fn begin(self, template_id: Vec<u8>) -> (r: Result<EnrollState, CtapError>)
        ensures
            match r {
                Ok(s) => self is NotStarted && (s matches EnrollState::Enrolling {
                    template_id: t,
                    rounds_left: c,
                } && t@ == template_id@ && c == ENROLL_ROUND_CAP),
                Err(e) => !(self is NotStarted) && e == CtapError::State,
            },
    {
        match self {
            EnrollState::NotStarted => Ok(
                EnrollState::Enrolling { template_id, rounds_left: ENROLL_ROUND_CAP },
            ),
            _ => Err(CtapError::State),
        }
    }

    /// Feeds one capture round's outcome into the attempt: a finished
    /// report completes it with the template id from begin; otherwise one
    /// round is spent, and spending the last one yields the incomplete
    /// state. Out of an enrolling state the round is an ordering error.
    pub fn next(self, is_finish: bool) -> (r: Result<EnrollState, CtapError>)
        ensures
            match r {
                Ok(s) => {
                    &&& self matches EnrollState::Enrolling { template_id: t, rounds_left: c }
                    &&& if is_finish {
                        s matches EnrollState::Finished { template_id: f } && f@ == t@
                    } else if c > 1 {
                        (s matches EnrollState::Enrolling {
                            template_id: t2,
                            rounds_left: c2,
                        } && t2@ == t@ && c2 == c - 1)
                    } else {
                        s is Incomplete
                    }
                },
                Err(e) => !(self is Enrolling) && e == CtapError::State,
            },
    {
        match self {
            EnrollState::Enrolling { template_id, rounds_left } => {
                if is_finish {
                    Ok(EnrollState::Finished { template_id })
                } else if rounds_left > 1 {
                    Ok(EnrollState::Enrolling { template_id, rounds_left: rounds_left - 1 })
                } else {
                    Ok(EnrollState::Incomplete)
                }
            },
            _ => Err(CtapError::State),
        }
    }
}

/// One capture round against the authenticator: asks for the next
/// enrollment sample and reports whether the authenticator declared the
/// template finished. The device transport implements this; tests inject a
/// simulated one.
pub trait EnrollSampler {
    fn capture_next_sample(&mut self) -> Result<bool, CtapError>;
}

/// Runs one enrollment attempt to its end: after a begin response assigned
/// `template_id`, capture rounds are driven until the authenticator
/// reports the template finished or the round cap runs out. A finished
/// attempt carries the template id from begin; an exhausted cap is the
/// incomplete result, not an error; a transport failure propagates.
pub fn run_enrollment<S: EnrollSampler>(sampler: &mut S, template_id: &[u8]) -> (r: Result<
    EnrollState,
    CtapError,
>)
    ensures
        match r {
            Ok(s) => match s {
                EnrollState::Finished { template_id: f } => f@ == template_id@,
                EnrollState::Incomplete => true,
                _ => false,
            },
            Err(_) => true,
        },
{
    let ghost tid = template_id@;
    let mut state = match EnrollState::NotStarted.begin(vstd::slice::slice_to_vec(template_id)) {
        Ok(s) => s,
        Err(e) => {
            return Err(e);
        },
    };
    let mut round: u8 = 0;
    while round < ENROLL_ROUND_CAP
        invariant
            tid == template_id@,
            (state matches EnrollState::Enrolling { template_id: t, rounds_left: c } && t@ == tid
                && c == ENROLL_ROUND_CAP - round),
            round < ENROLL_ROUND_CAP,
        decreases ENROLL_ROUND_CAP - round,
    {
        let is_finish = match sampler.capture_next_sample() {
            Ok(f) => f,
            Err(e) => {
                return Err(e);
            },
        };
        let stepped = match state.next(is_finish) {
            Ok(s) => s,
            Err(e) => {
                return Err(e);
            },
        };
        match stepped {
            EnrollState::Finished { template_id: done_id } => {
                return Ok(EnrollState::Finished { template_id: done_id });
            },
            EnrollState::Incomplete => {
                return Ok(EnrollState::Incomplete);
            },
            s => {
                state = s;
            },
        }
        round = round + 1;
    }
    Ok(EnrollState::Incomplete)
}

} // verus!
