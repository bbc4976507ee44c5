//! What the TLS connector is configured with. The values are chosen here;
//! the connector itself is made from them where the connection is opened.

use crate::error::ConfigurationError;
use vstd::prelude::*;

verus! {

/// The configuration of the TLS connector.
///
/// `insecure_skip_verify` is a deliberate trade-off: the servers this client
/// talks to present certificates that no public authority has signed, so
/// with the flag set neither the certificate nor the host name is verified,
/// and the connection is open to whoever can sit between the two ends.
#[derive(Debug, Clone, PartialEq, Eq)]
pub struct TlsConfig {
    /// Verify neither the peer's certificate nor its host name.
    pub insecure_skip_verify: bool,
    /// The application protocols offered, most preferred first.
    pub alpn_protocols: Vec<Vec<u8>>,
}

/// What a [`TlsConfig`] holds.
pub struct TlsConfigView {
    pub insecure_skip_verify: bool,
    pub alpn_protocols: Seq<Seq<u8>>,
}

impl View for TlsConfig {
    type V = TlsConfigView;

    open spec fn view(&self) -> TlsConfigView {
        TlsConfigView {
            insecure_skip_verify: self.insecure_skip_verify,
            alpn_protocols: self.alpn_protocols.deep_view(),
        }
    }
}

/// The protocol name `http/1.1`.
pub open spec fn http11() -> Seq<u8> {
    seq![104u8, 116u8, 116u8, 112u8, 47u8, 49u8, 46u8, 49u8]
}

/// The protocol name `h2`.
pub open spec fn h2() -> Seq<u8> {
    seq![104u8, 50u8]
}

/// The configuration of the client: nothing is verified, and HTTP/1.1 is
/// offered before HTTP/2.
pub open spec fn client_config() -> TlsConfigView {
    TlsConfigView { insecure_skip_verify: true, alpn_protocols: seq![http11(), h2()] }
}

/// A protocol name that fits the wire format: from 1 to 255 bytes.
pub open spec fn fits(name: Seq<u8>) -> bool {
    1 <= name.len() <= 255
}

/// The protocol names in the wire format of the negotiation: each name
/// behind one byte that holds its length, in the order given.
pub open spec fn wire_format(protocols: Seq<Seq<u8>>) -> Seq<u8>
    decreases protocols.len(),
{
    if protocols.len() == 0 {
        Seq::empty()
    } else {
        wire_format(protocols.drop_last()) + seq![protocols.last().len() as u8] + protocols.last()
    }
}

/// The client's protocols on the wire: `\x08http/1.1\x02h2`.
pub proof fn lemma_client_wire_format()
    ensures
        wire_format(client_config().alpn_protocols) == seq![
            8u8,
            104u8,
            116u8,
            116u8,
            112u8,
            47u8,
            49u8,
            46u8,
            49u8,
            2u8,
            104u8,
            50u8,
        ],
{
    let both = seq![http11(), h2()];
    let first = seq![http11()];
    assert(both.drop_last() =~= first);
    assert(first.drop_last() =~= Seq::<Seq<u8>>::empty());
    assert(wire_format(first.drop_last()) =~= Seq::<u8>::empty());
    assert(first.last() == http11() && http11().len() == 8);
    assert(both.last() == h2() && h2().len() == 2);
    assert(wire_format(first) =~= seq![8u8] + http11());
    assert(wire_format(both) =~= seq![8u8] + http11() + seq![2u8] + h2());
}

impl TlsConfig {
    /// The configuration of the client.
    pub fn new() -> (r: TlsConfig)
        ensures
            r@ == client_config(),
    {
        let first: Vec<u8> = vec![104u8, 116u8, 116u8, 112u8, 47u8, 49u8, 46u8, 49u8];
        let second: Vec<u8> = vec![104u8, 50u8];
        let mut alpn_protocols: Vec<Vec<u8>> = Vec::new();
        alpn_protocols.push(first);
        alpn_protocols.push(second);
        let r = TlsConfig { insecure_skip_verify: true, alpn_protocols };
        proof {
            assert(r.alpn_protocols@[0].deep_view() =~= http11());
            assert(r.alpn_protocols@[1].deep_view() =~= h2());
            assert(r.alpn_protocols.deep_view() =~= seq![http11(), h2()]);
        }
        r
    }

    /// The protocols in the wire format of the negotiation.
    pub fn alpn_wire(&self) -> (r: Result<Vec<u8>, ConfigurationError>)
        ensures
            match r {
                Ok(wire) => {
                    &&& forall|k: int|
                        0 <= k < self@.alpn_protocols.len() ==> fits(
                            #[trigger] self@.alpn_protocols[k],
                        )
                    &&& wire@ == wire_format(self@.alpn_protocols)
                },
                Err(e) => {
                    &&& e == ConfigurationError::InvalidTlsConfig
                    &&& exists|k: int|
                        0 <= k < self@.alpn_protocols.len() && !fits(
                            #[trigger] self@.alpn_protocols[k],
                        )
                },
            },
    {
        let ghost all = self@.alpn_protocols;
        let mut wire: Vec<u8> = Vec::new();
        let mut i: usize = 0;
        proof {
            assert(all.take(0) =~= Seq::<Seq<u8>>::empty());
        }
        while i < self.alpn_protocols.len()
            invariant
                i <= self.alpn_protocols.len(),
                all == self@.alpn_protocols,
                all.len() == self.alpn_protocols@.len(),
                forall|k: int| 0 <= k < i ==> fits(#[trigger] all[k]),
                wire@ == wire_format(all.take(i as int)),
            decreases self.alpn_protocols.len() - i,
        {
            let name = &self.alpn_protocols[i];
            proof {
                assert(all[i as int] =~= name@);
                assert(all.take(i + 1).drop_last() =~= all.take(i as int));
                assert(all.take(i + 1).last() == all[i as int]);
            }
            if name.len() == 0 || name.len() > 255 {
                return Err(ConfigurationError::InvalidTlsConfig);
            }
            wire.push(name.len() as u8);
            let mut j: usize = 0;
            while j < name.len()
                invariant
                    j <= name.len(),
                    name@ == all[i as int],
                    0 <= i < all.len(),
                    wire@ == wire_format(all.take(i as int)) + seq![name@.len() as u8]
                        + name@.take(j as int),
                decreases name.len() - j,
            {
                wire.push(name[j]);
                proof {
                    assert(name@.take(j + 1) =~= name@.take(j as int).push(name@[j as int]));
                }
                j += 1;
            }
            proof {
                assert(name@.take(j as int) =~= name@);
            }
            i += 1;
        }
        proof {
            assert(all.take(i as int) =~= all);
        }
        Ok(wire)
    }
}

} // verus!
