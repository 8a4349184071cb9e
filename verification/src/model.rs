//! The entities of the marketplace and the plain-value types the ledger
//! exchanges with the host shell: caller identities, transfer requests,
//! transfer outcomes, and the error taxonomy.

use vstd::prelude::*;

verus! {

/// A caller identity, as the host environment hands it in: an opaque
/// byte string.  Identities are compared for equality and never inspected.
pub struct PrincipalId {
    pub bytes: Vec<u8>,
}

impl View for PrincipalId {
    type V = Seq<u8>;

    open spec fn view(&self) -> Seq<u8> {
        self.bytes@
    }
}

impl PrincipalId {
    /// Equality of identities: byte-for-byte.
    pub fn same_as(&self, other: &PrincipalId) -> (r: bool)
        ensures
            r == (self@ == other@),
    {
        if self.bytes.len() != other.bytes.len() {
            proof {
                assert(self@ != other@) by {
                    assert(self@.len() != other@.len());
                }
            }
            return false;
        }
        let n = self.bytes.len();
        let mut i: usize = 0;
        while i < n
            invariant
                n == self.bytes.len() == other.bytes.len(),
                i <= n,
                forall|j: int| 0 <= j < i ==> self@[j] == other@[j],
            decreases n - i,
        {
            if self.bytes[i] != other.bytes[i] {
                return false;
            }
            i += 1;
        }
        proof {
            assert(self@ =~= other@);
        }
        true
    }
}

impl Clone for PrincipalId {
    fn clone(&self) -> (r: Self)
        ensures
            r@ == self@,
    {
        PrincipalId { bytes: self.bytes.clone() }
    }
}

/// Whether a display location is open for booking.
#[derive(Clone, Copy)]
pub enum LocationStatus {
    Active,
    Inactive,
    Booked,
}

/// Whether a campaign is running.
#[derive(Clone, Copy)]
pub enum CampaignStatus {
    Active,
    Paused,
}

/// A physical or virtual display slot owned by a provider.
pub struct Location {
    pub id: String,
    pub name: String,
    pub image: String,
    pub base_fees: u64,
    pub views: u64,
    pub status: LocationStatus,
}

impl Clone for Location {
    fn clone(&self) -> (r: Self)
        ensures
            r == *self,
    {
        Location {
            id: self.id.clone(),
            name: self.name.clone(),
            image: self.image.clone(),
            base_fees: self.base_fees,
            views: self.views,
            status: self.status,
        }
    }
}

/// Copies a list of locations, element for element.
pub fn clone_locations(v: &Vec<Location>) -> (r: Vec<Location>)
    ensures
        r@ == v@,
{
    let mut r: Vec<Location> = Vec::new();
    let n = v.len();
    let mut i: usize = 0;
    while i < n
        invariant
            n == v.len(),
            i <= n,
            r@ == v@.subrange(0, i as int),
        decreases n - i,
    {
        let loc = &v[i];
        r.push(loc.clone());
        proof {
            assert(r@ =~= v@.subrange(0, i + 1));
        }
        i += 1;
    }
    proof {
        assert(r@ =~= v@);
    }
    r
}

/// An entity offering display locations, accruing earnings from campaigns.
pub struct Provider {
    pub id: String,
    pub name: String,
    pub owner: PrincipalId,
    pub locations: Vec<Location>,
    pub total_earnings: u64,
}

impl Clone for Provider {
    fn clone(&self) -> (r: Self)
        ensures
            provider_like(r, *self),
    {
        Provider {
            id: self.id.clone(),
            name: self.name.clone(),
            owner: self.owner.clone(),
            locations: clone_locations(&self.locations),
            total_earnings: self.total_earnings,
        }
    }
}

/// The copy relation for providers: equal up to the identity of the
/// backing allocations.
pub open spec fn provider_like(a: Provider, b: Provider) -> bool {
    &&& a.id == b.id
    &&& a.name == b.name
    &&& a.owner@ == b.owner@
    &&& a.locations@ == b.locations@
    &&& a.total_earnings == b.total_earnings
}

/// An advertiser's funded unit of work with a spendable budget.
pub struct Campaign {
    pub id: String,
    pub name: String,
    pub description: String,
    pub image: Option<String>,
    pub locations: Option<Vec<Location>>,
    pub budget: u64,
    pub owner: PrincipalId,
    pub status: CampaignStatus,
}

impl Clone for Campaign {
    fn clone(&self) -> (r: Self)
        ensures
            campaign_like(r, *self),
    {
        Campaign {
            id: self.id.clone(),
            name: self.name.clone(),
            description: self.description.clone(),
            image: match &self.image {
                Some(s) => Some(s.clone()),
                None => None,
            },
            locations: match &self.locations {
                Some(v) => Some(clone_locations(v)),
                None => None,
            },
            budget: self.budget,
            owner: self.owner.clone(),
            status: self.status,
        }
    }
}

/// The copy relation for campaigns: equal up to the identity of the
/// backing allocations.
pub open spec fn campaign_like(a: Campaign, b: Campaign) -> bool {
    &&& a.id == b.id
    &&& a.name == b.name
    &&& a.description == b.description
    &&& a.image == b.image
    &&& match (a.locations, b.locations) {
        (None, None) => true,
        (Some(x), Some(y)) => x@ == y@,
        _ => false,
    }
    &&& a.budget == b.budget
    &&& a.owner@ == b.owner@
    &&& a.status == b.status
}

/// Cumulative amount a provider has earned from one specific campaign.
/// Created lazily on the first payment between the pair; never deleted.
pub struct ProviderEarnings {
    pub provider_id: String,
    pub campaign_id: String,
    pub total_earned: u64,
    pub last_withdrawal: Option<u64>,
}

impl Clone for ProviderEarnings {
    fn clone(&self) -> (r: Self)
        ensures
            r == *self,
    {
        ProviderEarnings {
            provider_id: self.provider_id.clone(),
            campaign_id: self.campaign_id.clone(),
            total_earned: self.total_earned,
            last_withdrawal: self.last_withdrawal,
        }
    }
}

/// Why an operation was refused.
#[derive(Debug)]
pub enum LedgerError {
    /// No campaign is registered under the given identifier.
    CampaignNotFound,
    /// No provider is registered under the given identifier.
    ProviderNotFound,
    /// The caller does not own the entity it tried to act on.
    Unauthorized,
    /// The budget or the accumulated earnings are below the requested amount.
    InsufficientFunds,
    /// The external transfer gateway failed; its message is embedded.
    TransferFailed(String),
}

/// Where a transfer moves value to.
pub enum TransferDestination {
    /// The system's own custodial account.
    Custodial,
    /// The external account of the given identity.
    Account(PrincipalId),
}

/// The fixed fee the external ledger is expected to charge, pinned so an
/// upstream fee change is detected rather than silently paid.
pub const TRANSFER_FEE_E8S: u64 = 10_000;

/// Everything the host shell needs to invoke the external transfer.
pub struct TransferRequest {
    pub to: TransferDestination,
    pub memo: String,
    pub amount: u64,
    pub fee: u64,
}

/// What came back from the external transfer gateway.
pub enum TransferOutcome {
    /// The transfer went through; the payload is its block index.
    Completed(u64),
    /// The gateway refused or was unreachable; the payload is its message.
    Failed(String),
}

} // verus!
