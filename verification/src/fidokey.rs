use vstd::prelude::*;
use crate::CtapError;

verus! {

/// How a physical key is addressed when a handle is opened.
#[derive(Debug, Clone, PartialEq, Eq)]
pub enum KeyID {
    /// A platform device path.
    Path(String),
    /// A USB vendor and product id pair.
    VidPid { vid: u16, pid: u16 },
    /// A PCSC reader name.
    Reader(String),
}

/// Library-wide configuration a device handle is opened with.
#[derive(Debug, Clone)]
pub struct LibCfg {
    pub enable_log: bool,
    pub use_pre_bio_enrollment: bool,
    pub use_pre_credential_management: bool,
    pub keep_alive_msg: String,
}

/// A byte-oriented channel to one authenticator: a handle owns the OS
/// resource, writes one command's bytes and reads one response's bytes.
/// The HID transport implements this outside the library; tests inject a
/// simulated device.
pub trait FidoKey: Sized {
    fn new(params: &[KeyID], cfg: &LibCfg) -> Result<Self, CtapError>;

    fn write(&self, cmd: &[u8]) -> Result<usize, String>;

    fn read(&self) -> Result<Vec<u8>, String>;
}

/// Performs one request/response exchange on a device handle: writes the
/// command bytes, then reads the response bytes. The two transport steps
/// happen in issue order, one exchange at a time; a failing step surfaces
/// as a transport error, never as data.
pub fn exchange<D: FidoKey>(device: &D, payload: &[u8]) -> (r: Result<Vec<u8>, CtapError>)
    ensures
        r is Err ==> r == Result::<Vec<u8>, CtapError>::Err(CtapError::Transport),
{
    match device.write(payload) {
        Ok(_) => {},
        Err(_) => {
            return Err(CtapError::Transport);
        },
    }
    match device.read() {
        Ok(resp) => Ok(resp),
        Err(_) => Err(CtapError::Transport),
    }
}

} // verus!
