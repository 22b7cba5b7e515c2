//! The secure broadcast channel: phase samples are encoded, sealed with the
//! sender's nonce and handed to the radio; inbound frames are opened with the
//! nonce of their source address and decoded, and anything that fails either
//! step is dropped as noise.
use vstd::prelude::*;
use crate::codec::{decode, encode, varint_prefix, varint_u16};
use crate::framer::{ccm_sealed, key_byte, mac_to_nonce, open, seal, sealable, SharedKey, KEY_LEN};
use crate::mailbox::Mailbox;

verus! {

/// A frame as the radio delivered it: the sender's address and the raw bytes.
pub struct RawFrame {
    pub src: [u8; 6],
    pub data: Vec<u8>,
}

/// Why an inbound frame was dropped.
#[derive(Debug, Clone, Copy, PartialEq, Eq, Structural)]
pub enum RecvError {
    /// The frame does not open under the shared key and the sender's nonce.
    Unauthentic,
    /// The frame opened, but its payload is no well-formed sample.
    Undecodable,
}

/// The nonce of the sender with address `src`.
pub open spec fn nonce_of(src: Seq<u8>) -> Seq<u8> {
    src + seq![0u8, 0u8]
}

/// `data` is the seal of some plaintext under `key` and `nonce`.
pub open spec fn is_sealed(key: Seq<u8>, nonce: Seq<u8>, data: Seq<u8>) -> bool {
    exists|p: Seq<u8>| sealable(p) && data == #[trigger] ccm_sealed(key, nonce, p)
}

/// What a receiver holding `key` makes of a frame from `src` carrying `data`.
pub open spec fn accept_spec(key: Seq<u8>, src: Seq<u8>, data: Seq<u8>) -> Result<u16, RecvError> {
    let nonce = nonce_of(src);
    if is_sealed(key, nonce, data) {
        let p = choose|p: Seq<u8>| sealable(p) && data == #[trigger] ccm_sealed(key, nonce, p);
        match varint_prefix(p) {
            Some(v) => Ok(v),
            None => Err(RecvError::Undecodable),
        }
    } else {
        Err(RecvError::Unauthentic)
    }
}

/// The frame that a sender with `key` and `nonce` broadcasts for `item`.
pub open spec fn frame_spec(key: Seq<u8>, nonce: Seq<u8>, item: u16) -> Seq<u8> {
    ccm_sealed(key, nonce, varint_u16(item))
}

/// Receiving side of the channel.
pub struct NetRx {
    pub key: SharedKey,
}

/// Sending side of the channel.
pub struct NetTx {
    pub key: SharedKey,
    pub nonce: [u8; 8],
}

impl NetRx {
    /// A receiver that opens frames with `key`.
    pub fn new(key: SharedKey) -> (r: Self)
        ensures
            r.key == key,
    {
        NetRx { key }
    }

    /// Opens and decodes one inbound frame.
    pub fn accept(&self, frame: &RawFrame) -> (r: Result<u16, RecvError>)
        ensures
            r == accept_spec(self.key.bytes@, frame.src@, frame.data@),
            forall|v: u16| frame.data@ == #[trigger] frame_spec(self.key.bytes@, nonce_of(frame.src@), v)
                ==> r == Ok::<u16, RecvError>(v),
    {
        let nonce = mac_to_nonce(frame.src);
        let ghost key = self.key.bytes@;
        let ghost n = nonce_of(frame.src@);
        assert(nonce@ == n);
        match open(&self.key, &nonce, frame.data.as_slice()) {
            Ok(p) => {
                assert(is_sealed(key, n, frame.data@));
                let ghost q = choose|q: Seq<u8>| sealable(q) && frame.data@ == #[trigger] ccm_sealed(key, n, q);
                assert(q == p@);
                assert forall|v: u16| frame.data@ == #[trigger] frame_spec(key, n, v)
                    implies varint_prefix(p@) == Some(v) by {
                    crate::codec::lemma_round_trip(v, Seq::empty());
                    assert(sealable(varint_u16(v)));
                }
                match decode(p.as_slice()) {
                    Ok(v) => Ok(v),
                    Err(_) => Err(RecvError::Undecodable),
                }
            },
            Err(_) => {
                assert forall|v: u16| frame.data@ != #[trigger] frame_spec(key, n, v) by {
                    assert(sealable(varint_u16(v)));
                }
                Err(RecvError::Unauthentic)
            },
        }
    }

    /// Looks through `frames` in order and returns the position and value of
    /// the first one that opens and decodes; the frames before it are noise.
    pub fn recv(&self, frames: &[RawFrame]) -> (r: Option<(usize, u16)>)
        ensures
            match r {
                Some((i, v)) => i < frames@.len()
                    && accept_spec(self.key.bytes@, frames@[i as int].src@, frames@[i as int].data@) == Ok::<u16, RecvError>(v)
                    && forall|j: int| 0 <= j < i ==> #[trigger] accept_spec(self.key.bytes@, frames@[j].src@, frames@[j].data@) is Err,
                None => forall|j: int| 0 <= j < frames@.len() ==> #[trigger] accept_spec(self.key.bytes@, frames@[j].src@, frames@[j].data@) is Err,
            },
    {
        let mut i: usize = 0;
        while i < frames.len()
            invariant
                i <= frames@.len(),
                forall|j: int| 0 <= j < i ==> #[trigger] accept_spec(self.key.bytes@, frames@[j].src@, frames@[j].data@) is Err,
            decreases frames@.len() - i,
        {
            match self.accept(&frames[i]) {
                Ok(v) => {
                    return Some((i, v));
                },
                Err(_) => {},
            }
            i = i + 1;
        }
        None
    }
}

impl NetTx {
    /// A sender that seals with `key` and the nonce of its own address.
    pub fn new(key: SharedKey, own_address: [u8; 6]) -> (r: Self)
        ensures
            r.key == key,
            r.nonce@ == nonce_of(own_address@),
    {
        NetTx { key, nonce: mac_to_nonce(own_address) }
    }

    /// The sealed frame that carries `item`.
    pub fn frame_of(&self, item: u16) -> (r: Vec<u8>)
        ensures
            r@ == frame_spec(self.key.bytes@, self.nonce@, item),
    {
        let payload = encode(item);
        seal(&self.key, &self.nonce, payload.as_slice())
    }

    /// Broadcasts `item` through `outbox`. While the previous frame has not
    /// left, the item is handed back and the outbox is unchanged: the caller
    /// waits and sends again.
    pub fn send(&self, item: u16, outbox: &mut Mailbox<Vec<u8>>) -> (r: Result<(), u16>)
        ensures
            old(outbox)@ is Some ==> r == Err::<(), u16>(item) && final(outbox)@ == old(outbox)@,
            old(outbox)@ is None ==> r is Ok && final(outbox)@ is Some
                && final(outbox)@->Some_0@ == frame_spec(self.key.bytes@, self.nonce@, item),
    {
        if outbox.is_full() {
            Err(item)
        } else {
            let frame = self.frame_of(item);
            match outbox.try_send(frame) {
                Ok(()) => Ok(()),
                Err(_) => Err(item),
            }
        }
    }
}

/// Sets up both ends of the channel for a node with address `own_address`,
/// from the provisioned shared secret.
pub fn start_net(secret: &[u8], own_address: [u8; 6]) -> (r: (NetRx, NetTx))
    ensures
        forall|i: int| 0 <= i < KEY_LEN ==> #[trigger] r.0.key.bytes@[i] == key_byte(secret@, i),
        r.1.key.bytes@ == r.0.key.bytes@,
        r.1.nonce@ == nonce_of(own_address@),
{
    let key = SharedKey::from_secret(secret);
    let tx_key = SharedKey { bytes: key.bytes };
    (NetRx::new(key), NetTx::new(tx_key, own_address))
}

} // verus!
