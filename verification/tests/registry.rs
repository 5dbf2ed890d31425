use insurance_claims::address::{Address, AddressKind};
use insurance_claims::env::Env;
use insurance_claims::registry::{Action, ClaimStatus, Error, InsuranceClaimsContract, Policy};

fn account(n: u64) -> Address {
    Address { kind: AddressKind::Account, w0: 0, w1: n, w2: n, w3: 0 }
}

fn ledger(timestamp: u64) -> Env {
    Env {
        timestamp,
        current_contract_address: Address { kind: AddressKind::Contract, w0: 1, w1: 2, w2: 3, w3: 4 },
    }
}

fn or_panic<T>(res: Result<T, Error>) -> T {
    match res {
        Ok(v) => v,
        Err(e) => panic!("{}", e.message()),
    }
}

fn setup() -> (Env, InsuranceClaimsContract, Address, Address) {
    let env = ledger(100);
    let mut contract = InsuranceClaimsContract::new();
    let admin = account(1);
    contract.initialize(admin).unwrap();
    (env, contract, admin, account(2))
}

#[test]
fn registry_initialize_sets_admin_and_zero_counters() {
    let (_env, mut client, admin, _holder) = setup();
    assert_eq!(client.get_admin(), Ok(admin));
    assert_eq!(client.total_claims(), 0);
    assert_eq!(client.total_policies(), 0);
    assert_eq!(client.initialize(account(5)), Err(Error::AlreadyInitialised));
    assert_eq!(client.get_admin(), Ok(admin));
}

#[test]
fn registry_create_policy_reads_back() {
    let (env, mut client, _admin, holder) = setup();
    let id = client.create_policy(&env, holder, 5_000_000_000, 100_000_000);
    assert_eq!(id, 1);
    assert_eq!(
        client.get_policy(id),
        Ok(Policy {
            policy_id: 1,
            holder,
            coverage_amount: 5_000_000_000,
            premium: 100_000_000,
            active: true,
            created_at: 100,
        })
    );
    assert_eq!(client.total_policies(), 1);
    assert_eq!(client.get_policy(2), Err(Error::PolicyNotFound));
}

#[test]
fn registry_submit_claim_is_pending() {
    let (env, mut client, _admin, holder) = setup();
    let policy_id = client.create_policy(&env, holder, 5_000_000_000, 100_000_000);
    let later = ledger(250);
    let claim_id = or_panic(client.submit_claim(
        &later,
        holder,
        policy_id,
        1_000_000_000,
        b"Car accident on highway".to_vec(),
    ));
    assert_eq!(claim_id, 1);
    let claim = or_panic(client.get_claim(claim_id));
    assert_eq!(claim.status, ClaimStatus::Pending);
    assert_eq!(claim.policy_holder, holder);
    assert_eq!(claim.amount, 1_000_000_000);
    assert_eq!(claim.description, b"Car accident on highway".to_vec());
    assert_eq!((claim.created_at, claim.updated_at), (250, 250));
    assert_eq!(client.total_claims(), 1);
}

#[test]
fn registry_update_claim_status_by_admin() {
    let (env, mut client, admin, holder) = setup();
    let policy_id = client.create_policy(&env, holder, 1_000, 10);
    let claim_id = or_panic(client.submit_claim(&env, holder, policy_id, 1_000, b"fire".to_vec()));
    let later = ledger(300);
    or_panic(client.update_claim_status(&later, admin, claim_id, ClaimStatus::Approved));
    let claim = or_panic(client.get_claim(claim_id));
    assert_eq!(claim.status, ClaimStatus::Approved);
    assert_eq!((claim.created_at, claim.updated_at), (100, 300));
    // any status may follow any other
    or_panic(client.update_claim_status(&later, admin, claim_id, ClaimStatus::Pending));
    assert_eq!(or_panic(client.get_claim(claim_id)).status, ClaimStatus::Pending);
}

#[test]
fn registry_only_admin_updates_status() {
    let (env, mut client, _admin, holder) = setup();
    let policy_id = client.create_policy(&env, holder, 1_000, 10);
    let claim_id = or_panic(client.submit_claim(&env, holder, policy_id, 10, b"x".to_vec()));
    assert_eq!(
        client.update_claim_status(&env, holder, claim_id, ClaimStatus::Paid),
        Err(Error::OnlyAdmin)
    );
    assert_eq!(or_panic(client.get_claim(claim_id)).status, ClaimStatus::Pending);
    assert_eq!(
        client.update_claim_status(&env, account(1), 9, ClaimStatus::Paid),
        Err(Error::ClaimNotFound)
    );
}

#[test]
fn registry_holder_claims_and_policies() {
    let (env, mut client, _admin, holder) = setup();
    let other = account(3);
    let p1 = client.create_policy(&env, holder, 1_000, 10);
    let p2 = client.create_policy(&env, other, 2_000, 20);
    let p3 = client.create_policy(&env, holder, 3_000, 30);
    let c1 = or_panic(client.submit_claim(&env, holder, p1, 100, b"a".to_vec()));
    let c2 = or_panic(client.submit_claim(&env, other, p2, 200, b"b".to_vec()));
    let c3 = or_panic(client.submit_claim(&env, holder, p3, 300, b"c".to_vec()));
    assert_eq!(client.get_holder_policies(holder), vec![p1, p3]);
    assert_eq!(client.get_holder_policies(other), vec![p2]);
    assert_eq!(client.get_holder_claims(holder), vec![c1, c3]);
    assert_eq!(client.get_holder_claims(other), vec![c2]);
    assert!(client.get_holder_claims(account(4)).is_empty());
    assert_eq!((client.total_policies(), client.total_claims()), (3, 3));
}

#[test]
fn registry_claim_exceeding_coverage_is_refused() {
    let (env, mut client, _admin, holder) = setup();
    let policy_id = client.create_policy(&env, holder, 1_000, 10);
    let res = client.submit_claim(&env, holder, policy_id, 1_001, b"too much".to_vec());
    assert_eq!(res, Err(Error::ClaimExceedsCoverage));
    assert_eq!(res.unwrap_err().message(), "claim exceeds coverage amount");
    assert_eq!(client.total_claims(), 0);
    assert!(client.get_holder_claims(holder).is_empty());
}

#[test]
fn registry_claim_on_inactive_policy_is_refused() {
    let (env, mut client, admin, holder) = setup();
    let policy_id = client.create_policy(&env, holder, 1_000, 10);
    or_panic(client.deactivate_policy(holder, policy_id));
    assert!(!or_panic(client.get_policy(policy_id)).active);
    assert_eq!(
        client.submit_claim(&env, holder, policy_id, 10, b"x".to_vec()),
        Err(Error::PolicyNotActive)
    );
    let second = client.create_policy(&env, holder, 1_000, 10);
    or_panic(client.deactivate_policy(admin, second));
    assert_eq!(client.total_claims(), 0);
}

#[test]
fn registry_deactivate_refusals() {
    let (env, mut client, _admin, holder) = setup();
    let policy_id = client.create_policy(&env, holder, 1_000, 10);
    assert_eq!(client.deactivate_policy(account(3), policy_id), Err(Error::Unauthorised));
    assert!(or_panic(client.get_policy(policy_id)).active);
    assert_eq!(client.deactivate_policy(holder, 7), Err(Error::PolicyNotFound));
    let mut fresh = InsuranceClaimsContract::new();
    let id = fresh.create_policy(&env, holder, 1_000, 10);
    assert_eq!(fresh.deactivate_policy(holder, id), Err(Error::NotInitialised));
    assert_eq!(fresh.get_admin(), Err(Error::NotInitialised));
}

#[test]
fn registry_claim_refusals() {
    let (env, mut client, _admin, holder) = setup();
    let policy_id = client.create_policy(&env, holder, 1_000, 10);
    assert_eq!(
        client.submit_claim(&env, holder, 5, 10, Vec::new()),
        Err(Error::PolicyNotFound)
    );
    assert_eq!(
        client.submit_claim(&env, account(3), policy_id, 10, Vec::new()),
        Err(Error::NotYourPolicy)
    );
    // the amount is only bounded above
    assert_eq!(client.submit_claim(&env, holder, policy_id, -1, Vec::new()), Ok(1));
    assert_eq!(client.submit_claim(&env, holder, policy_id, 1_000, Vec::new()), Ok(2));
}

#[test]
fn registry_policies_before_initialize_keep_their_ids() {
    let env = ledger(1);
    let mut client = InsuranceClaimsContract::new();
    let holder = account(2);
    assert_eq!(client.create_policy(&env, holder, 100, 10), 1);
    assert_eq!(client.total_policies(), 1);
    client.initialize(account(1)).unwrap();
    assert_eq!(client.total_policies(), 1);
    let other = account(3);
    assert_eq!(client.create_policy(&env, other, 200, 20), 2);
    assert_eq!(or_panic(client.get_policy(1)).coverage_amount, 100);
    assert_eq!(or_panic(client.get_policy(1)).holder, holder);
    assert_eq!(or_panic(client.get_policy(2)).coverage_amount, 200);
    assert_eq!(client.get_holder_policies(holder), vec![1]);
    assert_eq!(client.get_holder_policies(other), vec![2]);
}

#[test]
fn registry_required_signers() {
    let holder = account(2);
    let admin = account(1);
    assert_eq!(InsuranceClaimsContract::required_signer(&Action::Initialize { admin }), None);
    assert_eq!(
        InsuranceClaimsContract::required_signer(&Action::CreatePolicy {
            holder,
            coverage_amount: 1,
            premium: 1,
        }),
        Some(holder)
    );
    assert_eq!(
        InsuranceClaimsContract::required_signer(&Action::DeactivatePolicy { caller: admin, policy_id: 1 }),
        Some(admin)
    );
    assert_eq!(
        InsuranceClaimsContract::required_signer(&Action::SubmitClaim {
            policy_holder: holder,
            policy_id: 1,
            amount: 5,
            description: Vec::new(),
        }),
        Some(holder)
    );
    assert_eq!(
        InsuranceClaimsContract::required_signer(&Action::UpdateClaimStatus {
            admin,
            claim_id: 1,
            status: ClaimStatus::Paid,
        }),
        Some(admin)
    );
}

#[test]
fn registry_claim_refusal_matches_submission() {
    let (env, mut client, _admin, holder) = setup();
    let policy_id = client.create_policy(&env, holder, 1_000, 10);
    assert_eq!(client.claim_refusal(holder, policy_id, 1_000), None);
    assert_eq!(client.claim_refusal(holder, policy_id, 1_001), Some(Error::ClaimExceedsCoverage));
    assert_eq!(client.claim_refusal(account(9), policy_id, 1), Some(Error::NotYourPolicy));
    assert_eq!(client.claim_refusal(holder, 3, 1), Some(Error::PolicyNotFound));
    assert_eq!(client.total_claims(), 0);
}

#[test]
fn registry_description_keeps_any_bytes() {
    let (env, mut client, _admin, holder) = setup();
    let policy_id = client.create_policy(&env, holder, 1_000, 10);
    let bytes = vec![0xff, 0x00, 0xc3, 0x28];
    let claim_id = or_panic(client.submit_claim(&env, holder, policy_id, 5, bytes.clone()));
    assert_eq!(or_panic(client.get_claim(claim_id)).description, bytes);
}

#[test]
fn registry_error_messages() {
    assert_eq!(Error::AlreadyInitialised.message(), "already initialised");
    assert_eq!(Error::NotInitialised.message(), "called `Option::unwrap()` on a `None` value");
    assert_eq!(Error::PolicyNotFound.message(), "policy not found");
    assert_eq!(Error::Unauthorised.message(), "unauthorised");
    assert_eq!(Error::PolicyNotActive.message(), "policy is not active");
    assert_eq!(Error::NotYourPolicy.message(), "not your policy");
    assert_eq!(Error::ClaimExceedsCoverage.message(), "claim exceeds coverage amount");
    assert_eq!(Error::OnlyAdmin.message(), "only admin can update claim status");
    assert_eq!(Error::ClaimNotFound.message(), "claim not found");
}
