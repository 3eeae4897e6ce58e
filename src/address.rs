use vstd::prelude::*;

verus! {

/// Byte-wise equality of two buffers.
pub fn bytes_equal(a: &Vec<u8>, b: &Vec<u8>) -> (r: bool)
    ensures
        r == (a@ == b@),
{
    if a.len() != b.len() {
        return false;
    }
    let mut i: usize = 0;
    while i < a.len()
        invariant
            a@.len() == b@.len(),
            i <= a@.len(),
            a@.subrange(0, i as int) == b@.subrange(0, i as int),
        decreases a@.len() - i,
    {
        if a[i] != b[i] {
            assert(a@[i as int] != b@[i as int]);
            return false;
        }
        assert(a@.subrange(0, i + 1) == a@.subrange(0, i as int).push(a@[i as int]));
        assert(b@.subrange(0, i + 1) == b@.subrange(0, i as int).push(b@[i as int]));
        i = i + 1;
    }
    assert(a@ == a@.subrange(0, a@.len() as int));
    assert(b@ == b@.subrange(0, b@.len() as int));
    true
}

/// Copies a buffer.
pub fn copy_bytes(a: &Vec<u8>) -> (r: Vec<u8>)
    ensures
        r@ == a@,
{
    let mut r: Vec<u8> = Vec::new();
    let mut i: usize = 0;
    while i < a.len()
        invariant
            i <= a@.len(),
            r@ == a@.subrange(0, i as int),
        decreases a@.len() - i,
    {
        r.push(a[i]);
        assert(a@.subrange(0, i + 1) == a@.subrange(0, i as int).push(a@[i as int]));
        i = i + 1;
    }
    assert(a@ == a@.subrange(0, a@.len() as int));
    r
}

/// The identifier of a peer, held as its binary encoding.
#[derive(Debug)]
pub struct PeerKey {
    pub bytes: Vec<u8>,
}

impl View for PeerKey {
    type V = Seq<u8>;

    open spec fn view(&self) -> Seq<u8> {
        self.bytes@
    }
}

impl PeerKey {
    pub fn new(bytes: Vec<u8>) -> (r: PeerKey)
        ensures
            r@ == bytes@,
    {
        PeerKey { bytes }
    }

    pub fn same(&self, other: &PeerKey) -> (r: bool)
        ensures
            r == (self@ == other@),
    {
        bytes_equal(&self.bytes, &other.bytes)
    }

    pub fn duplicate(&self) -> (r: PeerKey)
        ensures
            r@ == self@,
    {
        PeerKey { bytes: copy_bytes(&self.bytes) }
    }
}

/// A multiaddress, held as its binary encoding (protocol codes followed by
/// their values).
#[derive(Debug)]
pub struct Address {
    pub bytes: Vec<u8>,
}

impl View for Address {
    type V = Seq<u8>;

    open spec fn view(&self) -> Seq<u8> {
        self.bytes@
    }
}

impl Address {
    pub fn new(bytes: Vec<u8>) -> (r: Address)
        ensures
            r@ == bytes@,
    {
        Address { bytes }
    }

    pub fn same(&self, other: &Address) -> (r: bool)
        ensures
            r == (self@ == other@),
    {
        bytes_equal(&self.bytes, &other.bytes)
    }

    pub fn duplicate(&self) -> (r: Address)
        ensures
            r@ == self@,
    {
        Address { bytes: copy_bytes(&self.bytes) }
    }
}

/// A (peer, address) pair, as reported by discovery.
#[derive(Debug)]
pub struct Endpoint {
    pub peer: PeerKey,
    pub addr: Address,
}

impl View for Endpoint {
    type V = (Seq<u8>, Seq<u8>);

    open spec fn view(&self) -> (Seq<u8>, Seq<u8>) {
        (self.peer@, self.addr@)
    }
}

impl Endpoint {
    pub fn same(&self, other: &Endpoint) -> (r: bool)
        ensures
            r == (self@ == other@),
    {
        self.peer.same(&other.peer) && self.addr.same(&other.addr)
    }
}

/// Whether a text is empty or starts with `/`, the form of every address.
pub open spec fn starts_at_root(text: Seq<char>) -> bool {
    text.len() == 0 || text[0] == '/'
}

/// The binary encoding that the multiaddress parser gives for a text, or
/// `None` where it rejects the text.
pub uninterp spec fn multiaddr_encoding(text: Seq<char>) -> Option<Seq<u8>>;

/// Relies on `Multiaddr::from_str` and `Multiaddr::to_vec` of the multiaddr
/// crate (through libp2p): the encoding depends on the text alone; a text that
/// does not start with `/` is rejected; the empty text is the empty address.
#[verifier::external_body]
fn parse_multiaddr(text: &str) -> (r: Option<Vec<u8>>)
    ensures
        (r is None) == (multiaddr_encoding(text@) is None),
        r is Some ==> multiaddr_encoding(text@) == Some(r.unwrap()@),
        text@.len() == 0 ==> r is Some && r.unwrap()@.len() == 0,
        !starts_at_root(text@) ==> r is None,
{
    match text.parse::<libp2p::Multiaddr>() {
        Ok(m) => Some(m.to_vec()),
        Err(_) => None,
    }
}

/// Why a text is not an address.
#[derive(Debug, Clone, Copy, PartialEq, Eq, Structural)]
pub enum AddressError {
    Malformed,
}

/// Parses the text form of a multiaddress (`/ip4/127.0.0.1/tcp/4001`).
pub fn parse_address(text: &str) -> (r: Result<Address, AddressError>)
    ensures
        match r {
            Ok(a) => multiaddr_encoding(text@) == Some(a@),
            Err(e) => e == AddressError::Malformed && multiaddr_encoding(text@) is None,
        },
        !starts_at_root(text@) ==> r is Err,
{
    match parse_multiaddr(text) {
        Some(bytes) => Ok(Address { bytes }),
        None => Err(AddressError::Malformed),
    }
}

} // verus!
