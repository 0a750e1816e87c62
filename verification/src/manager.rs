//! The listener-side connection manager's decisions: routing inbound
//! datagrams to connections by destination connection id, and the stateless
//! retry exchange for new connection attempts.

use vstd::prelude::*;

use crate::bytes_util::bytes_eq;
use crate::config::SUPPORTED_VERSION;
use crate::header::Header;
use crate::header::PacketType;
use crate::retry::derive_new_dcid;
use crate::retry::mint_retry_token;
use crate::retry::spec_new_dcid;
use crate::retry::spec_retry_token;
use crate::retry::spec_validate_token;
use crate::retry::validate_retry_token;

verus! {

/// What a registry's entries say a key maps to: the value of its first
/// entry with that key.
pub open spec fn assoc_lookup(s: Seq<(Seq<u8>, u64)>, k: Seq<u8>) -> Option<u64>
    decreases s.len(),
{
    if s.len() == 0 {
        None
    } else if s[0].0 === k {
        Some(s[0].1)
    } else {
        assoc_lookup(s.drop_first(), k)
    }
}

/// The registry of live connections, keyed by the destination connection
/// ids that route to them. A connection appears under its chosen id and,
/// until the handshake settles, under the client's original id as well.
pub struct ConnectionRegistry {
    entries: Vec<(Vec<u8>, u64)>,
}

impl ConnectionRegistry {
    /// The registered (id, connection) pairs, in registration order.
    pub closed spec fn view(self) -> Seq<(Seq<u8>, u64)> {
        self.entries@.map_values(|e: (Vec<u8>, u64)| (e.0@, e.1))
    }

    pub open spec fn contains_key(self, k: Seq<u8>) -> bool {
        assoc_lookup(self.view(), k) is Some
    }

    /// Keys are unique.
    pub open spec fn wf(self) -> bool {
        forall|i: int, j: int|
            0 <= i < j < self.view().len() ==> self.view()[i].0 !== self.view()[j].0
    }

    pub fn new() -> (r: ConnectionRegistry)
        ensures
            r.wf(),
            r.view() === Seq::<(Seq<u8>, u64)>::empty(),
    {
        ConnectionRegistry { entries: Vec::new() }
    }

    /// The connection a destination id routes to, if any.
    pub fn lookup(&self, dcid: &[u8]) -> (r: Option<u64>)
        ensures
            r === assoc_lookup(self.view(), dcid@),
    {
        proof {
            assert(self.view().skip(0) =~= self.view());
        }
        let mut i: usize = 0;
        while i < self.entries.len()
            invariant
                i <= self.entries@.len(),
                assoc_lookup(self.view(), dcid@) === assoc_lookup(
                    self.view().skip(i as int),
                    dcid@,
                ),
            decreases self.entries@.len() - i,
        {
            proof {
                assert(self.view().skip(i as int)[0] === self.view()[i as int]);
                assert(self.view().skip(i as int).drop_first() =~= self.view().skip(
                    i as int + 1,
                ));
            }
            if bytes_eq(self.entries[i].0.as_slice(), dcid) {
                return Some(self.entries[i].1);
            }
            i = i + 1;
        }
        None
    }

    /// Registers a connection under a fresh id.
    pub fn register(&mut self, dcid: Vec<u8>, conn: u64)
        requires
            old(self).wf(),
            !old(self).contains_key(dcid@),
        ensures
            final(self).wf(),
            final(self).view() === old(self).view().push((dcid@, conn)),
    {
        proof {
            lemma_absent_key_nowhere(self.view(), dcid@);
        }
        let ghost pre = self.view();
        self.entries.push((dcid, conn));
        proof {
            assert(self.view() =~= pre.push((dcid@, conn)));
        }
    }
}

/// A key that looks up to nothing appears in no entry.
proof fn lemma_absent_key_nowhere(s: Seq<(Seq<u8>, u64)>, k: Seq<u8>)
    requires
        assoc_lookup(s, k) is None,
    ensures
        forall|i: int| 0 <= i < s.len() ==> s[i].0 !== k,
    decreases s.len(),
{
    if s.len() > 0 {
        lemma_absent_key_nowhere(s.drop_first(), k);
        assert forall|i: int| 0 <= i < s.len() implies s[i].0 !== k by {
            if i > 0 {
                assert(s.drop_first()[i - 1] === s[i]);
            }
        }
    }
}

/// A registered key looks up to what it was registered with.
pub proof fn lemma_register_then_lookup(s: Seq<(Seq<u8>, u64)>, k: Seq<u8>, c: u64)
    requires
        assoc_lookup(s, k) is None,
    ensures
        assoc_lookup(s.push((k, c)), k) === Some(c),
        forall|k2: Seq<u8>|
            k2 !== k ==> assoc_lookup(s.push((k, c)), k2) === assoc_lookup(s, k2),
    decreases s.len(),
{
    if s.len() == 0 {
        assert(s.push((k, c))[0] === (k, c));
        assert forall|k2: Seq<u8>| k2 !== k implies assoc_lookup(s.push((k, c)), k2)
            === assoc_lookup(s, k2) by {
            assert(s.push((k, c)).drop_first() =~= s);
        }
    } else {
        lemma_register_then_lookup(s.drop_first(), k, c);
        assert(s.push((k, c)).drop_first() =~= s.drop_first().push((k, c)));
        assert forall|k2: Seq<u8>| k2 !== k implies assoc_lookup(s.push((k, c)), k2)
            === assoc_lookup(s, k2) by {
            assert(s.push((k, c))[0] === s[0]);
            if s[0].0 !== k2 {
                assert(assoc_lookup(s.push((k, c)), k2) === assoc_lookup(
                    s.push((k, c)).drop_first(),
                    k2,
                ));
                assert(assoc_lookup(s.drop_first().push((k, c)), k2) === assoc_lookup(
                    s.drop_first(),
                    k2,
                ));
            }
        }
    }
}

/// What the manager does with one inbound datagram.
pub enum ManagerAction {
    /// Hand the datagram and its source to this connection's inbox.
    Forward(u64),
    /// The version is unsupported: answer with a Version Negotiation packet.
    SendVersionNegotiation,
    /// A first Initial: answer with a Retry carrying this new source
    /// connection id and token.
    SendRetry { new_dcid: Vec<u8>, token: Vec<u8> },
    /// Not a connection attempt this manager acts on: drop it.
    Drop,
    /// A validated retried Initial: create the connection, registered under
    /// the datagram's destination id and the original one.
    Accept { odcid: Vec<u8> },
}

/// Routes one datagram, parsed to its header, against the registry:
/// - a destination id that routes somewhere is forwarded there;
/// - an unknown short header is dropped;
/// - an unsupported version is answered with Version Negotiation;
/// - an Initial without a token is answered with a Retry whose new id and
///   token are the keyed MACs of the sender's address and the original id;
/// - an Initial whose token validates against the sender's address is
///   accepted, with the original id the token vouches for;
/// - everything else is dropped.
///
/// `from` is the sender's address, serialized; `now` the mint time for new
/// tokens and the validation instant; `max_age` the freshness bound.
pub fn route_datagram(
    reg: &ConnectionRegistry,
    hdr: &Header,
    hmac_key: &[u8],
    secret: &[u8],
    from: &[u8],
    now: u64,
    max_age: u64,
) -> (r: ManagerAction)
    requires
        hmac_key@.len() <= 0x1000_0000,
        secret@.len() <= 0x1000_0000,
        from@.len() <= 0x0800_0000,
        hdr matches Header::Long { ref dcid, .. } ==> dcid@.len() <= 20,
    ensures
        match *hdr {
            Header::Short { ref dcid } => match assoc_lookup(reg.view(), dcid@) {
                Some(c) => r == ManagerAction::Forward(c),
                None => r == ManagerAction::Drop,
            },
            Header::Long { packet_type, version, ref dcid, .. } => {
                if assoc_lookup(reg.view(), dcid@) is Some {
                    r == ManagerAction::Forward(assoc_lookup(reg.view(), dcid@)->Some_0)
                } else if version != SUPPORTED_VERSION {
                    r == ManagerAction::SendVersionNegotiation
                } else if packet_type != PacketType::Initial {
                    r == ManagerAction::Drop
                } else {
                    match *hdr {
                        Header::Long { token: Some(ref t), .. } => {
                            if t@.len() == 0 {
                                r matches ManagerAction::SendRetry { new_dcid, token }
                                    && new_dcid@ === spec_new_dcid(hmac_key@, from@, dcid@)
                                    && token@ === spec_retry_token(secret@, from@, dcid@, now)
                            } else {
                                match spec_validate_token(secret@, from@, t@, now, max_age) {
                                    Some(odcid) => r matches ManagerAction::Accept {
                                        odcid: o,
                                    } && o@ === odcid,
                                    None => r == ManagerAction::Drop,
                                }
                            }
                        },
                        _ => r == ManagerAction::Drop,
                    }
                }
            },
        },
{
    match hdr {
        Header::Short { dcid } => match reg.lookup(dcid.as_slice()) {
            Some(c) => ManagerAction::Forward(c),
            None => ManagerAction::Drop,
        },
        Header::Long { packet_type, version, dcid, scid: _, token } => {
            if let Some(c) = reg.lookup(dcid.as_slice()) {
                return ManagerAction::Forward(c);
            }
            if *version != SUPPORTED_VERSION {
                return ManagerAction::SendVersionNegotiation;
            }
            if *packet_type != PacketType::Initial {
                return ManagerAction::Drop;
            }
            match token {
                Some(t) => {
                    if t.len() == 0 {
                        let new_dcid = derive_new_dcid(hmac_key, from, dcid.as_slice());
                        let token = mint_retry_token(secret, from, dcid.as_slice(), now);
                        ManagerAction::SendRetry { new_dcid, token }
                    } else {
                        match validate_retry_token(secret, from, t.as_slice(), now, max_age) {
                            Some(odcid) => ManagerAction::Accept { odcid },
                            None => ManagerAction::Drop,
                        }
                    }
                },
                None => ManagerAction::Drop,
            }
        },
    }
}

} // verus!
