use dpp_contract::{
    Address, Approval, ApprovalForAll, CallContext, DppContractV2, Error, Granularity, Transfer,
};

fn owner() -> Address {
    Address([0xA1; 20])
}

fn spender() -> Address {
    Address([0xB2; 20])
}

fn receiver() -> Address {
    Address([0xC3; 20])
}

fn outsider() -> Address {
    Address([0xD4; 20])
}

fn call(caller: Address) -> CallContext {
    CallContext { caller, block_number: 3 }
}

fn mint(contract: &mut DppContractV2, to: Address) -> u128 {
    contract
        .register_passport(
            call(to),
            String::from("ipfs://cid"),
            [0u8; 32],
            String::from("application/vc+jwt"),
            Granularity::Item,
            None,
        )
        .unwrap()
        .token_id
}

#[test]
fn unknown_accounts_and_tokens_hold_nothing() {
    let contract = DppContractV2::new();
    assert_eq!(contract.balance_of(owner()), 0);
    assert_eq!(contract.owner_of(0), None);
    assert_eq!(contract.get_approved(0), None);
    assert!(!contract.is_approved_for_all(owner(), spender()));
}

#[test]
fn balances_count_the_tokens_held() {
    let mut contract = DppContractV2::new();
    for _ in 0..3 {
        mint(&mut contract, owner());
    }
    mint(&mut contract, receiver());
    assert_eq!(contract.balance_of(owner()), 3);
    assert_eq!(contract.balance_of(receiver()), 1);
    assert_eq!(contract.balance_of(outsider()), 0);

    contract.transfer(call(owner()), receiver(), 1).unwrap();
    assert_eq!(contract.balance_of(owner()), 2);
    assert_eq!(contract.balance_of(receiver()), 2);
    contract.transfer(call(receiver()), outsider(), 3).unwrap();
    contract.transfer(call(receiver()), outsider(), 1).unwrap();
    assert_eq!(contract.balance_of(owner()), 2);
    assert_eq!(contract.balance_of(receiver()), 0);
    assert_eq!(contract.balance_of(outsider()), 2);

    let holders = [owner(), receiver(), outsider()];
    let total: u128 = holders.iter().map(|h| contract.balance_of(*h)).sum();
    assert_eq!(total, contract.next_token_id());
    for token in 0..contract.next_token_id() {
        let holder = contract.owner_of(token).unwrap();
        assert!(holders.contains(&holder));
    }
    assert_eq!(contract.owner_of(0), Some(owner()));
    assert_eq!(contract.owner_of(1), Some(outsider()));
    assert_eq!(contract.owner_of(2), Some(owner()));
    assert_eq!(contract.owner_of(3), Some(outsider()));
}

#[test]
fn transfer_reports_what_moved() {
    let mut contract = DppContractV2::new();
    let token = mint(&mut contract, owner());
    let notice = contract.transfer(call(owner()), receiver(), token).unwrap();
    assert_eq!(notice, Transfer { from: Some(owner()), to: Some(receiver()), token_id: token });
}

#[test]
fn transfer_of_unknown_token_fails() {
    let mut contract = DppContractV2::new();
    assert_eq!(contract.transfer(call(owner()), receiver(), 0), Err(Error::TokenNotFound));
    assert_eq!(
        contract.transfer_from(call(owner()), owner(), receiver(), 9),
        Err(Error::TokenNotFound)
    );
}

#[test]
fn transfer_from_names_the_holder() {
    let mut contract = DppContractV2::new();
    let token = mint(&mut contract, owner());

    // The named sender does not hold the token, whoever calls.
    assert_eq!(
        contract.transfer_from(call(owner()), spender(), receiver(), token),
        Err(Error::NotOwner)
    );
    assert_eq!(contract.transfer(call(spender()), receiver(), token), Err(Error::NotOwner));
    assert_eq!(contract.owner_of(token), Some(owner()));
    assert_eq!(contract.balance_of(owner()), 1);
    assert_eq!(contract.balance_of(receiver()), 0);
}

#[test]
fn a_stranger_cannot_transfer() {
    let mut contract = DppContractV2::new();
    let token = mint(&mut contract, owner());
    assert_eq!(
        contract.transfer_from(call(outsider()), owner(), outsider(), token),
        Err(Error::NotApproved)
    );
    assert_eq!(contract.owner_of(token), Some(owner()));
    assert_eq!(contract.balance_of(owner()), 1);
    assert_eq!(contract.balance_of(outsider()), 0);
}

#[test]
fn approval_lets_one_account_transfer_once() {
    let mut contract = DppContractV2::new();
    let token = mint(&mut contract, owner());
    mint(&mut contract, owner());
    mint(&mut contract, receiver());

    let notice = contract.approve(call(owner()), spender(), token).unwrap();
    assert_eq!(notice, Approval { owner: owner(), approved: spender(), token_id: token });
    assert_eq!(contract.get_approved(token), Some(spender()));

    let moved = contract.transfer_from(call(spender()), owner(), receiver(), token).unwrap();
    assert_eq!(moved, Transfer { from: Some(owner()), to: Some(receiver()), token_id: token });
    assert_eq!(contract.owner_of(token), Some(receiver()));
    assert_eq!(contract.balance_of(owner()), 1);
    assert_eq!(contract.balance_of(receiver()), 2);
    assert_eq!(contract.get_approved(token), None);

    assert_eq!(
        contract.transfer_from(call(spender()), receiver(), spender(), token),
        Err(Error::NotApproved)
    );
    assert_eq!(
        contract.transfer_from(call(spender()), owner(), spender(), token),
        Err(Error::NotOwner)
    );
    assert_eq!(contract.owner_of(token), Some(receiver()));
}

#[test]
fn approval_is_for_one_token_only() {
    let mut contract = DppContractV2::new();
    let approved = mint(&mut contract, owner());
    let other = mint(&mut contract, owner());
    contract.approve(call(owner()), spender(), approved).unwrap();

    assert_eq!(contract.get_approved(other), None);
    assert_eq!(
        contract.transfer_from(call(spender()), owner(), receiver(), other),
        Err(Error::NotApproved)
    );
}

#[test]
fn a_new_approval_replaces_the_old_one() {
    let mut contract = DppContractV2::new();
    let token = mint(&mut contract, owner());
    contract.approve(call(owner()), spender(), token).unwrap();
    contract.approve(call(owner()), outsider(), token).unwrap();

    assert_eq!(contract.get_approved(token), Some(outsider()));
    assert_eq!(
        contract.transfer_from(call(spender()), owner(), receiver(), token),
        Err(Error::NotApproved)
    );
    contract.transfer_from(call(outsider()), owner(), receiver(), token).unwrap();
    assert_eq!(contract.owner_of(token), Some(receiver()));
}

#[test]
fn approve_checks_token_target_and_caller() {
    let mut contract = DppContractV2::new();
    assert_eq!(contract.approve(call(owner()), spender(), 0), Err(Error::TokenNotFound));

    let token = mint(&mut contract, owner());
    assert_eq!(contract.approve(call(owner()), owner(), token), Err(Error::NotAllowed));
    // The target is checked before the caller.
    assert_eq!(contract.approve(call(outsider()), owner(), token), Err(Error::NotAllowed));
    assert_eq!(contract.approve(call(outsider()), spender(), token), Err(Error::NotApproved));
    // An approved account is no operator: it cannot approve in turn.
    contract.approve(call(owner()), spender(), token).unwrap();
    assert_eq!(contract.approve(call(spender()), outsider(), token), Err(Error::NotApproved));
    assert_eq!(contract.get_approved(token), Some(spender()));
}

#[test]
fn nobody_is_its_own_operator() {
    let mut contract = DppContractV2::new();
    assert_eq!(
        contract.set_approval_for_all(call(owner()), owner(), true),
        Err(Error::NotAllowed)
    );
    assert_eq!(
        contract.set_approval_for_all(call(owner()), owner(), false),
        Err(Error::NotAllowed)
    );
    assert!(!contract.is_approved_for_all(owner(), owner()));
}

#[test]
fn operator_acts_for_every_token_of_the_holder() {
    let mut contract = DppContractV2::new();
    let first = mint(&mut contract, owner());
    let second = mint(&mut contract, owner());
    let foreign = mint(&mut contract, outsider());

    let notice = contract.set_approval_for_all(call(owner()), spender(), true).unwrap();
    assert_eq!(notice, ApprovalForAll { owner: owner(), operator: spender(), approved: true });
    assert!(contract.is_approved_for_all(owner(), spender()));
    assert!(!contract.is_approved_for_all(spender(), owner()));

    contract.transfer_from(call(spender()), owner(), receiver(), first).unwrap();
    let approval = contract.approve(call(spender()), outsider(), second).unwrap();
    assert_eq!(approval, Approval { owner: owner(), approved: outsider(), token_id: second });
    assert_eq!(
        contract.transfer_from(call(spender()), outsider(), receiver(), foreign),
        Err(Error::NotApproved)
    );
    // The blanket approval was the holder's: it does not follow the token.
    assert_eq!(
        contract.transfer_from(call(spender()), receiver(), spender(), first),
        Err(Error::NotApproved)
    );
}

#[test]
fn a_withdrawn_operator_can_do_nothing() {
    let mut contract = DppContractV2::new();
    let token = mint(&mut contract, owner());
    contract.set_approval_for_all(call(owner()), spender(), true).unwrap();

    let notice = contract.set_approval_for_all(call(owner()), spender(), false).unwrap();
    assert_eq!(notice, ApprovalForAll { owner: owner(), operator: spender(), approved: false });
    assert!(!contract.is_approved_for_all(owner(), spender()));
    assert_eq!(
        contract.transfer_from(call(spender()), owner(), receiver(), token),
        Err(Error::NotApproved)
    );
    assert_eq!(contract.approve(call(spender()), receiver(), token), Err(Error::NotApproved));

    // Withdrawing what was never granted is reported all the same.
    let again = contract.set_approval_for_all(call(owner()), outsider(), false).unwrap();
    assert_eq!(again, ApprovalForAll { owner: owner(), operator: outsider(), approved: false });
    // Granting twice is granting once.
    contract.set_approval_for_all(call(owner()), spender(), true).unwrap();
    contract.set_approval_for_all(call(owner()), spender(), true).unwrap();
    contract.set_approval_for_all(call(owner()), spender(), false).unwrap();
    assert!(!contract.is_approved_for_all(owner(), spender()));
}

#[test]
fn transfer_to_oneself_keeps_the_balance_and_clears_the_approval() {
    let mut contract = DppContractV2::new();
    let token = mint(&mut contract, owner());
    contract.approve(call(owner()), spender(), token).unwrap();

    let notice = contract.transfer(call(owner()), owner(), token).unwrap();
    assert_eq!(notice, Transfer { from: Some(owner()), to: Some(owner()), token_id: token });
    assert_eq!(contract.owner_of(token), Some(owner()));
    assert_eq!(contract.balance_of(owner()), 1);
    assert_eq!(contract.get_approved(token), None);
}

#[test]
fn transfer_leaves_the_issuer_in_charge() {
    let mut contract = DppContractV2::new();
    let token = mint(&mut contract, owner());
    contract.transfer(call(owner()), receiver(), token).unwrap();

    assert_eq!(contract.get_passport(token).unwrap().issuer, owner());
    let by_holder = contract.update_dataset(
        call(receiver()),
        token,
        String::from("ipfs://new"),
        [1u8; 32],
        String::from("application/vc+jwt"),
        None,
    );
    assert_eq!(by_holder, Err(Error::Unauthorized));
    assert_eq!(contract.revoke_passport(call(receiver()), token, None), Err(Error::Unauthorized));

    contract
        .update_dataset(
            call(owner()),
            token,
            String::from("ipfs://new"),
            [1u8; 32],
            String::from("application/vc+jwt"),
            None,
        )
        .unwrap();
    // The issuer no longer holds the token, and cannot move it.
    assert_eq!(
        contract.transfer_from(call(owner()), receiver(), owner(), token),
        Err(Error::NotApproved)
    );
    contract.revoke_passport(call(owner()), token, None).unwrap();
    assert_eq!(contract.owner_of(token), Some(receiver()));
}

#[test]
fn approvals_outlive_a_revocation_but_move_nothing() {
    let mut contract = DppContractV2::new();
    let token = mint(&mut contract, owner());
    contract.revoke_passport(call(owner()), token, None).unwrap();

    contract.approve(call(owner()), spender(), token).unwrap();
    assert_eq!(contract.get_approved(token), Some(spender()));
    assert_eq!(
        contract.transfer_from(call(spender()), owner(), receiver(), token),
        Err(Error::PassportRevoked)
    );
    assert_eq!(contract.get_approved(token), Some(spender()));
}
