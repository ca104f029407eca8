//! The transport, as far as this crate needs it: something that can bring
//! the engine up, send command bytes and receive response bytes.

use crate::settings::MpsseSettings;
use vstd::prelude::*;

verus! {

/// What a transfer does once its send has reported.
pub enum XferStep<E> {
    /// The send went through: the transfer goes on to receive.
    Receive,
    /// The send failed: the transfer ends with this error, and nothing is
    /// received.
    Fail(E),
}

/// Decides the step of a transfer that follows its send.
pub fn after_send<E>(sent: Result<(), E>) -> (step: XferStep<E>)
    ensures
        step == match sent {
            Ok(_) => XferStep::Receive,
            Err(error) => XferStep::Fail(error),
        },
{
    match sent {
        Ok(_) => XferStep::Receive,
        Err(error) => XferStep::Fail(error),
    }
}

/// FTDI MPSSE configurator and executor.
///
/// The crate encodes; a type with this trait moves the bytes. Nothing is
/// promised of what `init`, `send` and `recv` report: that is for the
/// transport to decide. Of `send` and `recv` the transport says, in
/// [`sends`](Self::sends) and [`receives`](Self::receives), which outcomes
/// it can have; a transport that cannot say more lets both hold of every
/// outcome. What [`xfer`](Self::xfer) does is stated over the two.
pub trait MpsseCmdExecutor {
    /// Error type
    type Error;

    /// Whether a `send` of `data` can take the executor from `self` to
    /// `after` and report `report`. Unless a transport says otherwise, any
    /// outcome can come.
    open spec fn sends(
        &self,
        data: Seq<u8>,
        after: &Self,
        report: Result<(), Self::Error>,
    ) -> bool {
        true
    }

    /// Whether a `recv` into a buffer that holds `before` can take the
    /// executor from `self` to `after`, leave `received` in the buffer and
    /// report `report`. Unless a transport says otherwise, any outcome can
    /// come.
    open spec fn receives(
        &self,
        before: Seq<u8>,
        after: &Self,
        received: Seq<u8>,
        report: Result<(), Self::Error>,
    ) -> bool {
        true
    }

    /// Configure FTDI MPSSE mode
    fn init(&mut self, settings: &MpsseSettings) -> Result<(), Self::Error>;

    /// Execute MPSSE write command sequence
    fn send(&mut self, data: &[u8]) -> (report: Result<(), Self::Error>)
        ensures
            old(self).sends(data@, final(self), report),
    ;

    /// Execute MPSSE read command sequence
    fn recv(&mut self, data: &mut [u8]) -> (report: Result<(), Self::Error>)
        ensures
            old(self).receives(old(data)@, final(self), final(data)@, report),
    ;

    /// Execute MPSSE command and read response: `send` of `txdata`, then
    /// `recv` into `rxdata`. Where the send fails, its error comes back,
    /// nothing is received, and the executor and `rxdata` are as the send
    /// left them; else the receive starts where the send ended, and what it
    /// reports comes back. Neither step is tried twice.
    fn xfer(&mut self, txdata: &[u8], rxdata: &mut [u8]) -> (report: Result<(), Self::Error>)
        ensures
            exists|mid: &Self, sent: Result<(), Self::Error>|
                #[trigger] old(self).sends(txdata@, mid, sent) && match sent {
                    Ok(_) => mid.receives(old(rxdata)@, final(self), final(rxdata)@, report),
                    Err(error) => report == Err::<(), Self::Error>(error) && &*final(self) == mid
                        && final(rxdata)@ == old(rxdata)@,
                },
    {
        let sent = self.send(txdata);
        let ghost mid: &Self = &*self;
        assert(old(self).sends(txdata@, mid, sent));
        match after_send(sent) {
            XferStep::Receive => self.recv(rxdata),
            XferStep::Fail(error) => Err(error),
        }
    }
}

} // verus!
