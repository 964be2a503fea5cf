//! The brain channel: an opaque duplex byte pipe between host and device.
use vstd::prelude::*;

verus! {

/// How writes are checked before they are taken.
#[derive(Clone, Copy, Debug, PartialEq, Eq, Structural)]
pub struct WritePolicy {
    /// When set, a payload of any other length is refused as malformed.
    pub expected_len: Option<usize>,
}

/// Why a write is refused.
#[derive(Clone, Copy, Debug, PartialEq, Eq, Structural)]
pub enum WriteError {
    /// The payload does not have the length that the policy asks for.
    MalformedPayload,
}

/// Whether a policy takes a payload of `len` bytes.
pub open spec fn policy_accepts(p: WritePolicy, len: nat) -> bool {
    match p.expected_len {
        Some(n) => len == n,
        None => true,
    }
}

impl WritePolicy {
    /// Takes every payload as it comes.
    pub fn accept_all() -> (r: Self)
        ensures
            r.expected_len is None,
    {
        WritePolicy { expected_len: None }
    }

    /// Checks a payload against the policy.
    pub fn check(&self, data: &[u8]) -> (r: Result<(), WriteError>)
        ensures
            r is Ok <==> policy_accepts(*self, data@.len()),
            r is Err ==> r == Err::<(), WriteError>(WriteError::MalformedPayload),
    {
        match self.expected_len {
            Some(n) => if data.len() == n {
                Ok(())
            } else {
                Err(WriteError::MalformedPayload)
            },
            None => Ok(()),
        }
    }
}

/// The two buffers of the channel.
#[derive(Debug)]
pub struct BrainChannel {
    /// The last payload that the host wrote.
    pub inbound: Vec<u8>,
    /// The payload waiting for the host to read.
    pub outbound: Vec<u8>,
}

impl BrainChannel {
    /// A channel with nothing written and nothing to report.
    pub fn new() -> (r: Self)
        ensures
            r.inbound@.len() == 0,
            r.outbound@.len() == 0,
    {
        BrainChannel { inbound: Vec::new(), outbound: Vec::new() }
    }

    /// What a read returns: the payload waiting, empty when there is nothing to report.
    pub fn on_read(&self) -> (r: Vec<u8>)
        ensures
            r@ == self.outbound@,
    {
        self.outbound.clone()
    }

    /// Takes a payload from the host, if the policy lets it through.
    pub fn on_write(&mut self, policy: WritePolicy, data: Vec<u8>) -> (r: Result<(), WriteError>)
        ensures
            r is Ok <==> policy_accepts(policy, data@.len()),
            r is Ok ==> final(self).inbound@ == data@,
            r is Err ==> final(self).inbound@ == old(self).inbound@ && r == Err::<(), WriteError>(
                WriteError::MalformedPayload,
            ),
            final(self).outbound@ == old(self).outbound@,
    {
        let checked = policy.check(data.as_slice());
        if checked.is_ok() {
            self.inbound = data;
        }
        checked
    }

    /// Leaves a payload for the host to read.
    pub fn deposit(&mut self, data: Vec<u8>)
        ensures
            final(self).outbound@ == data@,
            final(self).inbound@ == old(self).inbound@,
    {
        self.outbound = data;
    }
}

} // verus!
