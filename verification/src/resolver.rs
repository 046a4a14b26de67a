//! Name-resolution model.  The resolving collaborator itself (the DNS
//! transport) stays outside this core: here is its contract, the ordered,
//! non-empty set of literal addresses a successful resolution must produce,
//! and the selection of a bind address from it.  A successful empty
//! resolution is a contract breach of the resolver, kept apart from the
//! ordinary resolution errors.

use vstd::prelude::*;

use crate::address::{Address, AddressView, SocketAddress, SocketAddressView};

verus! {

/// Why a name resolution failed: terminal for this candidate generation;
/// retrying is a higher policy layer's business.
#[derive(Clone, Copy, Debug, PartialEq, Eq, Structural)]
pub enum ResolutionError {
    /// The name has no records.
    NotFound,
    /// The lookup timed out.
    Timeout,
    /// A lower-level transport failure.
    Transport,
}

/// A resolver handed back a successful empty sequence.  That is a bug in the
/// resolving collaborator, not a recoverable lookup outcome, and it is kept
/// distinguishable from every `ResolutionError`.
#[derive(Clone, Copy, Debug, PartialEq, Eq, Structural)]
pub struct ResolverInvariantViolation;

/// The ordered sequence of literal addresses a successful resolution
/// produced.  The order is the resolver's record order and is significant;
/// the sequence is never empty.
pub struct ResolvedAddressSet {
    addrs: Vec<SocketAddress>,
}

impl View for ResolvedAddressSet {
    type V = Seq<SocketAddressView>;

    closed spec fn view(&self) -> Seq<SocketAddressView> {
        self.addrs@.map_values(|sa: SocketAddress| sa@)
    }
}

impl ResolvedAddressSet {
    /// A successful resolution holds at least one address.
    pub open spec fn wf(self) -> bool {
        self@.len() > 0
    }

    /// Accepts the addresses a resolver returned, in resolver order;
    /// an empty sequence is refused as a breach of the resolver's contract.
    pub fn new(addrs: Vec<SocketAddress>) -> (r: Result<
        ResolvedAddressSet,
        ResolverInvariantViolation,
    >)
        ensures
            r is Ok <==> addrs@.len() > 0,
            r matches Ok(s) ==> s.wf() && s@ == addrs@.map_values(|sa: SocketAddress| sa@),
    {
        if addrs.len() > 0 {
            Ok(ResolvedAddressSet { addrs })
        } else {
            Err(ResolverInvariantViolation)
        }
    }

    /// How many addresses were resolved.
    pub fn len(&self) -> (r: usize)
        ensures
            r == self@.len(),
    {
        self.addrs.len()
    }

    /// The address at position `i`, in resolver order.
    pub fn get(&self, i: usize) -> (r: &SocketAddress)
        requires
            i < self@.len(),
        ensures
            r@ == self@[i as int],
    {
        &self.addrs[i]
    }

    /// The first resolved address.
    pub fn first(&self) -> (r: &SocketAddress)
        requires
            self.wf(),
        ensures
            r@ == self@[0],
    {
        &self.addrs[0]
    }

    /// Gives the candidates up for a fallback lookup, in resolver order.
    pub fn into_candidates(self) -> (r: Vec<SocketAddress>)
        requires
            self.wf(),
        ensures
            r@.map_values(|sa: SocketAddress| sa@) == self@,
            r@.len() == self@.len() > 0,
    {
        self.addrs
    }
}

/// The candidates a fallback lookup runs over for an endpoint: a literal
/// endpoint is its own single candidate and needs no resolution; a domain
/// name stands for exactly what its resolution produced, in resolver order,
/// and a failed resolution is passed through.  Addresses are never invented.
pub fn candidates_for(
    addr: &Address,
    resolution: Option<Result<ResolvedAddressSet, ResolutionError>>,
) -> (r: Result<Vec<SocketAddress>, ResolutionError>)
    requires
        addr@ is DomainName <==> resolution is Some,
        (match resolution {
            Some(Ok(set)) => set.wf(),
            _ => true,
        }),
    ensures
        match addr@ {
            AddressView::Literal(sa) => (r matches Ok(v) && v@.len() == 1 && v@[0]@ == sa),
            AddressView::DomainName(_, _) => match resolution {
                Some(Ok(set)) => (r matches Ok(v) && v@.map_values(|c: SocketAddress| c@) == set@
                    && v@.len() > 0),
                Some(Err(e)) => r == Err::<Vec<SocketAddress>, ResolutionError>(e),
                None => false,
            },
        },
{
    match addr {
        Address::Literal(sa) => {
            let mut v: Vec<SocketAddress> = Vec::new();
            v.push(sa.duplicate());
            Ok(v)
        },
        Address::DomainName(_, _) => match resolution {
            Some(Ok(set)) => Ok(set.into_candidates()),
            Some(Err(e)) => Err(e),
            None => vstd::pervasive::unreached(),
        },
    }
}

/// The address to bind to for an endpoint: a literal endpoint is already
/// that address; a domain name stands for the first address its resolution
/// produced.
pub fn resolve_bind_addr(addr: &Address, resolved: Option<&ResolvedAddressSet>) -> (r:
    SocketAddress)
    requires
        addr@ is DomainName ==> (resolved matches Some(s) && s.wf()),
    ensures
        match addr@ {
            AddressView::Literal(sa) => r@ == sa,
            AddressView::DomainName(_, _) => resolved matches Some(s) && r@ == s@[0],
        },
{
    match addr {
        Address::Literal(sa) => sa.duplicate(),
        Address::DomainName(_, _) => match resolved {
            Some(s) => s.first().duplicate(),
            None => vstd::pervasive::unreached(),
        },
    }
}

} // verus!
