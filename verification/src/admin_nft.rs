use vstd::prelude::*;

verus! {

/// Data carried by one minted token: a display name, fixed at minting,
/// and a level. The resource definition marks the level mutable for the
/// host's benefit, but no operation of this component ever changes it.
pub struct AdminNftData {
    name: String,
    level: u8,
}

/// Mathematical image of `AdminNftData`.
pub ghost struct AdminNftDataView {
    pub name: Seq<char>,
    pub level: nat,
}

impl View for AdminNftData {
    type V = AdminNftDataView;

    closed spec fn view(&self) -> AdminNftDataView {
        AdminNftDataView { name: self.name@, level: self.level as nat }
    }
}

impl AdminNftData {
    /// The display name given at minting.
    pub fn name(&self) -> (s: &String)
        ensures
            s@ == self@.name,
    {
        &self.name
    }

    /// The level, always 1 for records minted here.
    pub fn level(&self) -> (l: u8)
        ensures
            l as nat == self@.level,
    {
        self.level
    }
}

/// One minted non-fungible token: the integer identifier this component
/// assigned, together with the record data stored under it.
pub struct NftRecord {
    id: u64,
    data: AdminNftData,
}

/// Mathematical image of `NftRecord`.
pub ghost struct NftRecordView {
    pub id: nat,
    pub data: AdminNftDataView,
}

impl View for NftRecord {
    type V = NftRecordView;

    closed spec fn view(&self) -> NftRecordView {
        NftRecordView { id: self.id as nat, data: self.data@ }
    }
}

impl NftRecord {
    /// The identifier under which the record was minted.
    pub fn id(&self) -> (i: u64)
        ensures
            i as nat == self@.id,
    {
        self.id
    }

    /// The record data carried by the token.
    pub fn data(&self) -> (d: &AdminNftData)
        ensures
            d@ == self@.data,
    {
        &self.data
    }
}

/// The single-unit, non-divisible admin credential minted at
/// instantiation and handed to the deployer. No other constructor
/// exists, so the supply stays fixed at one unit forever.
pub struct AdminCredential {
    units: u64,
}

impl View for AdminCredential {
    type V = nat;

    closed spec fn view(&self) -> nat {
        self.units as nat
    }
}

impl AdminCredential {
    /// How many credential units this token holds: always 1.
    pub fn amount(&self) -> (n: u64)
        ensures
            n as nat == self@,
    {
        self.units
    }
}

/// The admin-gated minter component: the caller identity its minting
/// rule requires (fixed at instantiation, never writable afterwards),
/// the bookkeeping of every record minted under its resource
/// definition, and the identifier the next mint will use.
pub struct AdminNft {
    minter_address: u64,
    records: Vec<NftRecord>,
    id_counter: u64,
}

/// Mathematical image of `AdminNft`: the minting rule's caller address,
/// every record ever minted in mint order, and the next identifier.
pub ghost struct AdminNftView {
    pub minter_address: nat,
    pub minted: Seq<NftRecordView>,
    pub id_counter: nat,
}

impl View for AdminNft {
    type V = AdminNftView;

    closed spec fn view(&self) -> AdminNftView {
        AdminNftView {
            minter_address: self.minter_address as nat,
            minted: self.records@.map(|i: int, r: NftRecord| r@),
            id_counter: self.id_counter as nat,
        }
    }
}

/// The state of a freshly instantiated component whose minting rule is
/// bound to the caller identity `minter_address`.
pub open spec fn fresh_admin_nft(minter_address: nat) -> AdminNftView {
    AdminNftView { minter_address, minted: Seq::empty(), id_counter: 1 }
}

/// The record that a mint on state `s` with display name `name` creates:
/// identifier taken from the counter as it stands, level 1.
pub open spec fn minted_record(s: AdminNftView, name: Seq<char>) -> NftRecordView {
    NftRecordView { id: s.id_counter, data: (AdminNftDataView { name, level: 1 }) }
}

/// The state after one mint on `s` with display name `name`.
pub open spec fn after_mint(s: AdminNftView, name: Seq<char>) -> AdminNftView {
    AdminNftView {
        minter_address: s.minter_address,
        minted: s.minted.push(minted_record(s, name)),
        id_counter: s.id_counter + 1,
    }
}

/// The state after minting once per display name in `names`, in order.
pub open spec fn after_mints(s: AdminNftView, names: Seq<Seq<char>>) -> AdminNftView
    decreases names.len(),
{
    if names.len() == 0 {
        s
    } else {
        after_mint(after_mints(s, names.drop_last()), names.last())
    }
}

impl AdminNft {
    /// Creates a component whose minting rule requires the caller
    /// identity `component_address` — the address the host reserved for
    /// this very instance — and mints the single admin credential for
    /// the deployer. The rule's updater role is denied from the start,
    /// and no operation writes the rule, so it can never change.
    pub fn instantiate(component_address: u64) -> (r: (AdminNft, AdminCredential))
        ensures
            r.0@ == fresh_admin_nft(component_address as nat),
            r.1@ == 1,
    {
        let component = AdminNft {
            minter_address: component_address,
            records: Vec::new(),
            id_counter: 1,
        };
        let credential = AdminCredential { units: 1 };
        proof {
            assert(component@.minted =~= fresh_admin_nft(component_address as nat).minted);
        }
        (component, credential)
    }

    /// Mints one record: identifier equal to the counter as it stands,
    /// the given display name, level 1. The record is stored under the
    /// resource definition, the counter steps by one, and the fresh
    /// token is returned. A counter at the machine limit is excluded:
    /// the host aborts the transaction on overflow. Rejecting callers
    /// that the minting rule does not admit is the host's part and
    /// happens before this body runs.
    pub fn mint_nft(&mut self, name: String) -> (nft: NftRecord)
        requires
            old(self)@.id_counter < u64::MAX,
        ensures
            nft@ == minted_record(old(self)@, name@),
            final(self)@ == after_mint(old(self)@, name@),
    {
        let stored_name = name.clone();
        let nft = NftRecord {
            id: self.id_counter,
            data: AdminNftData { name, level: 1 },
        };
        let stored = NftRecord {
            id: self.id_counter,
            data: AdminNftData { name: stored_name, level: 1 },
        };
        self.records.push(stored);
        self.id_counter = self.id_counter + 1;
        proof {
            assert(self@.minted =~= after_mint(old(self)@, name@).minted);
        }
        nft
    }

    /// How many records were ever minted under this resource
    /// definition, as the host's resource bookkeeping reports it.
    pub fn get_total_supply(&self) -> (n: u64)
        ensures
            n as nat == self@.minted.len(),
    {
        self.records.len() as u64
    }

    /// The caller identity the minting rule requires: the component
    /// address fixed at instantiation.
    pub fn minter_rule(&self) -> (a: u64)
        ensures
            a as nat == self@.minter_address,
    {
        self.minter_address
    }
}

/// Law: a sequence of `k` successful mints on a freshly instantiated
/// component returns identifiers exactly 1, 2, ..., k in call order —
/// gapless, never reused, all distinct — with each record carrying the
/// requested display name at level 1, and leaves the counter at k + 1.
pub proof fn lemma_mint_identifiers(minter_address: nat, names: Seq<Seq<char>>)
    ensures
        ({
            let s = after_mints(fresh_admin_nft(minter_address), names);
            &&& s.minted.len() == names.len()
            &&& s.id_counter == names.len() + 1
            &&& forall|i: int| 0 <= i < names.len() ==> (#[trigger] s.minted[i]).id == i + 1
            &&& forall|i: int| 0 <= i < names.len() ==> (#[trigger] s.minted[i]).data.name
                == names[i]
            &&& forall|i: int| 0 <= i < names.len() ==> (#[trigger] s.minted[i]).data.level == 1
            &&& forall|i: int, j: int|
                0 <= i < j < names.len() ==> s.minted[i].id != s.minted[j].id
        }),
    decreases names.len(),
{
    if names.len() > 0 {
        lemma_mint_identifiers(minter_address, names.drop_last());
        let prev = after_mints(fresh_admin_nft(minter_address), names.drop_last());
        let s = after_mints(fresh_admin_nft(minter_address), names);
        assert(s == after_mint(prev, names.last()));
        assert forall|i: int| 0 <= i < names.len() implies (#[trigger] s.minted[i]).data.name
            == names[i] by {
            if i < names.len() - 1 {
                assert(s.minted[i] == prev.minted[i]);
                assert(names.drop_last()[i] == names[i]);
            } else {
                assert(s.minted[i] == minted_record(prev, names.last()));
            }
        }
    }
}

/// Law: the total supply after `k` successful mints on a freshly
/// instantiated component is exactly `k`.
pub proof fn lemma_total_supply_counts_mints(minter_address: nat, names: Seq<Seq<char>>)
    ensures
        after_mints(fresh_admin_nft(minter_address), names).minted.len() == names.len(),
{
    lemma_mint_identifiers(minter_address, names);
}

/// Law: the minting rule is immutable. Minting is the only operation
/// that changes component state, and any number of mints, from any
/// state, leaves the rule's caller identity exactly as instantiation
/// fixed it: no sequence of operations can change who may mint.
pub proof fn lemma_minter_rule_immutable(s: AdminNftView, names: Seq<Seq<char>>)
    ensures
        after_mints(s, names).minter_address == s.minter_address,
    decreases names.len(),
{
    if names.len() > 0 {
        lemma_minter_rule_immutable(s, names.drop_last());
    }
}

/// Law: instantiations are independent. Two components instantiated at
/// distinct reserved addresses carry distinct minting rules, and each
/// starts with no minted records and its identifier counter at 1; the
/// single credential unit per instantiation is stated by
/// `AdminNft::instantiate` itself.
pub proof fn lemma_instantiations_independent(addr_a: nat, addr_b: nat)
    requires
        addr_a != addr_b,
    ensures
        fresh_admin_nft(addr_a).minter_address != fresh_admin_nft(addr_b).minter_address,
        fresh_admin_nft(addr_a).id_counter == 1,
        fresh_admin_nft(addr_b).id_counter == 1,
        fresh_admin_nft(addr_a).minted.len() == 0,
        fresh_admin_nft(addr_b).minted.len() == 0,
{
}

} // verus!
