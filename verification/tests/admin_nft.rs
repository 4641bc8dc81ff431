use ledger_blueprints::admin_nft::AdminNft;

#[test]
fn instantiate_returns_one_credential_unit() {
    let (component, credential) = AdminNft::instantiate(7);
    assert_eq!(credential.amount(), 1);
    assert_eq!(component.get_total_supply(), 0);
    assert_eq!(component.minter_rule(), 7);
}

#[test]
fn instantiations_are_independent() {
    let (mut first, first_credential) = AdminNft::instantiate(10);
    let (mut second, second_credential) = AdminNft::instantiate(11);
    assert_eq!(first_credential.amount(), 1);
    assert_eq!(second_credential.amount(), 1);
    assert_ne!(first.minter_rule(), second.minter_rule());

    let from_first = first.mint_nft(String::from("One"));
    let from_second = second.mint_nft(String::from("Uno"));
    assert_eq!(from_first.id(), 1);
    assert_eq!(from_second.id(), 1);
    assert_eq!(first.get_total_supply(), 1);
    assert_eq!(second.get_total_supply(), 1);
}

#[test]
fn mint_identifiers_are_sequential_and_distinct() {
    let (mut component, _credential) = AdminNft::instantiate(3);
    let names: [&str; 3] = ["First", "Second", "Third"];
    let mut ids: Vec<u64> = Vec::new();
    for name in names {
        let nft = component.mint_nft(String::from(name));
        assert_eq!(nft.data().level(), 1);
        ids.push(nft.id());
    }
    assert_eq!(ids, vec![1, 2, 3]);
    for i in 0usize..3 {
        for j in 0usize..3 {
            if i != j {
                assert_ne!(ids[i], ids[j]);
            }
        }
    }
}

#[test]
fn total_supply_counts_mints() {
    let (mut component, _credential) = AdminNft::instantiate(5);
    assert_eq!(component.get_total_supply(), 0);
    for k in 1..=4u64 {
        component.mint_nft(format!("Record {}", k));
        assert_eq!(component.get_total_supply(), k);
    }
}

#[test]
fn minter_rule_unchanged_by_mints() {
    let (mut component, _credential) = AdminNft::instantiate(42);
    assert_eq!(component.minter_rule(), 42);
    component.mint_nft(String::from("A"));
    component.mint_nft(String::from("B"));
    assert_eq!(component.minter_rule(), 42);
}

#[test]
fn admin_scenario() {
    let (mut component, credential) = AdminNft::instantiate(9);
    assert_eq!(credential.amount(), 1);
    let alpha = component.mint_nft(String::from("Alpha"));
    let beta = component.mint_nft(String::from("Beta"));
    assert_eq!(component.get_total_supply(), 2);
    assert_eq!(alpha.id(), 1);
    assert_eq!(alpha.data().name().as_str(), "Alpha");
    assert_eq!(alpha.data().level(), 1);
    assert_eq!(beta.id(), 2);
    assert_eq!(beta.data().name().as_str(), "Beta");
    assert_eq!(beta.data().level(), 1);
}
