use insurance_claims::address::{Address, AddressKind};
use insurance_claims::env::Env;
use insurance_claims::lifecycle::{Action, ClaimStatus, Error, InsuranceClaimsContract, Policy};

fn account(n: u64) -> Address {
    Address { kind: AddressKind::Account, w0: n, w1: 0, w2: 0, w3: n }
}

fn contract_address() -> Address {
    Address { kind: AddressKind::Contract, w0: 7, w1: 7, w2: 7, w3: 7 }
}

fn ledger(timestamp: u64) -> Env {
    Env { timestamp, current_contract_address: contract_address() }
}

/// A contract initialized by an admin, with one holder ready to register.
fn setup() -> (Env, InsuranceClaimsContract, Address, Address) {
    let env = ledger(0);
    let mut contract = InsuranceClaimsContract::new();
    let admin = account(1);
    let holder = account(2);
    contract.initialize(admin).unwrap();
    (env, contract, admin, holder)
}

fn or_panic<T>(res: Result<T, Error>) -> T {
    match res {
        Ok(v) => v,
        Err(e) => panic!("{}", e.message()),
    }
}

#[test]
fn test_register_policy_and_submit_claim() {
    let (env, mut client, _admin, holder) = setup();

    let coverage = 1_000_000_000i128; // 100 XLM
    let premium = 50_000_000i128; // 5 XLM

    let policy_id = or_panic(client.register_policy(&env, holder, coverage, premium));
    assert_eq!(policy_id, 1);

    let claim_id = or_panic(client.submit_claim(
        &env,
        holder,
        policy_id,
        500_000_000i128,
        b"Car accident repair".to_vec(),
    ));
    assert_eq!(claim_id, 1);

    let claim = or_panic(client.get_claim(claim_id));
    assert_eq!(claim.status, ClaimStatus::Pending);
    assert_eq!(claim.claimant, holder);
}

#[test]
fn test_full_claim_lifecycle() {
    let (env, mut client, _admin, holder) = setup();

    let policy_id = or_panic(client.register_policy(&env, holder, 1_000_000_000i128, 50_000_000i128));

    let claim_id = or_panic(client.submit_claim(
        &env,
        holder,
        policy_id,
        200_000_000i128,
        b"Medical expenses".to_vec(),
    ));

    or_panic(client.start_review(&env, claim_id));
    let claim = or_panic(client.get_claim(claim_id));
    assert_eq!(claim.status, ClaimStatus::UnderReview);

    or_panic(client.approve_claim(claim_id));
    let claim = or_panic(client.get_claim(claim_id));
    assert_eq!(claim.status, ClaimStatus::Approved);

    or_panic(client.mark_paid(claim_id));
    let claim = or_panic(client.get_claim(claim_id));
    assert_eq!(claim.status, ClaimStatus::Paid);
}

#[test]
fn test_reject_claim() {
    let (env, mut client, _admin, holder) = setup();

    let policy_id = or_panic(client.register_policy(&env, holder, 1_000_000_000i128, 50_000_000i128));
    let claim_id = or_panic(client.submit_claim(
        &env,
        holder,
        policy_id,
        100_000_000i128,
        b"Disputed claim".to_vec(),
    ));

    or_panic(client.start_review(&env, claim_id));
    or_panic(client.reject_claim(claim_id));

    let claim = or_panic(client.get_claim(claim_id));
    assert_eq!(claim.status, ClaimStatus::Rejected);
}

#[test]
#[should_panic(expected = "Claim amount exceeds coverage limit")]
fn test_exceed_coverage_panics() {
    let (env, mut client, _admin, holder) = setup();
    let policy_id = or_panic(client.register_policy(&env, holder, 100_000_000i128, 10_000_000i128));
    or_panic(client.submit_claim(
        &env,
        holder,
        policy_id,
        999_000_000i128,
        b"Fraud attempt".to_vec(),
    ));
}

#[test]
fn lifecycle_initialize_twice_is_refused() {
    let (_env, mut client, admin, _holder) = setup();
    assert_eq!(client.initialize(account(9)), Err(Error::AlreadyInitialized));
    assert_eq!(client.get_admin(), Ok(admin));
    assert_eq!(client.get_claim_count(), 0);
    assert_eq!(client.get_policy_count(), 0);
}

#[test]
fn lifecycle_operations_before_initialize_are_refused() {
    let env = ledger(5);
    let mut client = InsuranceClaimsContract::new();
    let holder = account(2);
    assert_eq!(client.get_admin(), Err(Error::NotInitialized));
    assert_eq!(client.register_policy(&env, holder, 10, 1), Err(Error::NotInitialized));
    assert_eq!(client.deactivate_policy(1), Err(Error::NotInitialized));
    assert_eq!(client.start_review(&env, 1), Err(Error::NotInitialized));
    assert_eq!(client.approve_claim(1), Err(Error::NotInitialized));
    assert_eq!(client.reject_claim(1), Err(Error::NotInitialized));
    assert_eq!(client.mark_paid(1), Err(Error::NotInitialized));
    assert_eq!(client.get_policy_count(), 0);
    assert!(client.get_holder_policies(holder).is_empty());
}

#[test]
fn lifecycle_registered_policy_reads_back() {
    let (_, mut client, _admin, holder) = setup();
    let env = ledger(1_700_000_000);
    let first = or_panic(client.register_policy(&env, holder, 1_000, 50));
    let second = or_panic(client.register_policy(&env, account(3), 2_000, 60));
    let third = or_panic(client.register_policy(&env, holder, 3_000, 70));
    assert_eq!((first, second, third), (1, 2, 3));
    assert_eq!(client.get_policy_count(), 3);
    assert_eq!(
        client.get_policy(3),
        Ok(Policy {
            policy_id: 3,
            holder,
            coverage_amount: 3_000,
            premium_paid: 70,
            is_active: true,
            created_at: 1_700_000_000,
        })
    );
    assert_eq!(client.get_holder_policies(holder), vec![1, 3]);
    assert_eq!(client.get_holder_policies(account(3)), vec![2]);
    assert!(client.get_holder_policies(account(4)).is_empty());
    assert_eq!(client.get_policy(4), Err(Error::PolicyNotFound));
}

#[test]
fn lifecycle_submitted_claim_reads_back() {
    let (_, mut client, _admin, holder) = setup();
    let env = ledger(42);
    let policy_id = or_panic(client.register_policy(&env, holder, 1_000, 50));
    let claim_id = or_panic(client.submit_claim(&env, holder, policy_id, 1_000, b"flood".to_vec()));
    let claim = or_panic(client.get_claim(claim_id));
    assert_eq!(claim.claim_id, 1);
    assert_eq!(claim.policy_id, policy_id);
    assert_eq!(claim.amount, 1_000);
    assert_eq!(claim.description, b"flood".to_vec());
    assert_eq!(claim.submitted_at, 42);
    assert_eq!(claim.reviewed_at, 0);
    assert_eq!(claim.reviewer, contract_address());
    assert_eq!(client.get_claim_count(), 1);
    assert_eq!(client.get_claimant_claims(holder), vec![1]);
    assert_eq!(client.get_claim(2).err(), Some(Error::ClaimNotFound));
}

#[test]
fn lifecycle_claim_refusals() {
    let (env, mut client, _admin, holder) = setup();
    let other = account(3);
    let policy_id = or_panic(client.register_policy(&env, holder, 1_000, 50));
    let d = || b"x".to_vec();
    assert_eq!(client.submit_claim(&env, holder, 9, 10, d()), Err(Error::PolicyNotFound));
    assert_eq!(client.submit_claim(&env, other, policy_id, 10, d()), Err(Error::NotPolicyHolder));
    assert_eq!(client.submit_claim(&env, holder, policy_id, 1_001, d()), Err(Error::ExceedsCoverage));
    assert_eq!(client.submit_claim(&env, holder, policy_id, 0, d()), Err(Error::NonPositiveAmount));
    assert_eq!(client.submit_claim(&env, holder, policy_id, -5, d()), Err(Error::NonPositiveAmount));
    assert_eq!(client.get_claim_count(), 0);
    or_panic(client.deactivate_policy(policy_id));
    assert_eq!(
        client.get_policy(policy_id),
        Ok(Policy {
            policy_id,
            holder,
            coverage_amount: 1_000,
            premium_paid: 50,
            is_active: false,
            created_at: 0,
        })
    );
    assert_eq!(client.submit_claim(&env, holder, policy_id, 10, d()), Err(Error::PolicyNotActive));
    assert_eq!(client.deactivate_policy(5), Err(Error::PolicyNotFound));
    assert_eq!(client.get_claim_count(), 0);
    assert!(client.get_claimant_claims(holder).is_empty());
}

#[test]
fn lifecycle_review_order_is_enforced() {
    let (_, mut client, admin, holder) = setup();
    let env = ledger(10);
    let policy_id = or_panic(client.register_policy(&env, holder, 1_000, 50));
    let claim_id = or_panic(client.submit_claim(&env, holder, policy_id, 500, b"storm".to_vec()));
    assert_eq!(client.approve_claim(claim_id), Err(Error::NotUnderReview));
    assert_eq!(client.mark_paid(claim_id), Err(Error::NotApproved));
    let review = ledger(20);
    or_panic(client.start_review(&review, claim_id));
    let claim = or_panic(client.get_claim(claim_id));
    assert_eq!(claim.reviewed_at, 20);
    assert_eq!(claim.reviewer, admin);
    assert_eq!(client.start_review(&review, claim_id), Err(Error::NotPending));
    assert_eq!(client.mark_paid(claim_id), Err(Error::NotApproved));
    or_panic(client.approve_claim(claim_id));
    or_panic(client.mark_paid(claim_id));
    assert_eq!(client.reject_claim(claim_id), Err(Error::AlreadyPaid));
    assert_eq!(client.mark_paid(claim_id), Err(Error::NotApproved));
    assert_eq!(client.start_review(&review, 99), Err(Error::ClaimNotFound));
    let claim = or_panic(client.get_claim(claim_id));
    assert_eq!(claim.status, ClaimStatus::Paid);
    assert_eq!(claim.reviewed_at, 20);
}

#[test]
fn lifecycle_reject_from_pending_and_approved() {
    let (env, mut client, admin, holder) = setup();
    let policy_id = or_panic(client.register_policy(&env, holder, 1_000, 50));
    let a = or_panic(client.submit_claim(&env, holder, policy_id, 1, b"a".to_vec()));
    let b = or_panic(client.submit_claim(&env, holder, policy_id, 2, b"b".to_vec()));
    or_panic(client.reject_claim(a));
    let claim = or_panic(client.get_claim(a));
    assert_eq!(claim.status, ClaimStatus::Rejected);
    assert_eq!(claim.reviewer, admin);
    assert_eq!(claim.reviewed_at, 0);
    or_panic(client.start_review(&env, b));
    or_panic(client.approve_claim(b));
    or_panic(client.reject_claim(b));
    assert_eq!(or_panic(client.get_claim(b)).status, ClaimStatus::Rejected);
    or_panic(client.reject_claim(b));
    assert_eq!(client.get_claimant_claims(holder), vec![1, 2]);
}

#[test]
fn lifecycle_error_messages() {
    assert_eq!(Error::AlreadyInitialized.message(), "Already initialized");
    assert_eq!(Error::NotInitialized.message(), "Contract not initialized");
    assert_eq!(Error::PolicyNotFound.message(), "Policy not found");
    assert_eq!(Error::PolicyNotActive.message(), "Policy is not active");
    assert_eq!(Error::NotPolicyHolder.message(), "Claimant does not own this policy");
    assert_eq!(Error::ExceedsCoverage.message(), "Claim amount exceeds coverage limit");
    assert_eq!(Error::NonPositiveAmount.message(), "Claim amount must be positive");
    assert_eq!(Error::ClaimNotFound.message(), "Claim not found");
    assert_eq!(Error::NotPending.message(), "Claim is not in Pending status");
    assert_eq!(Error::NotUnderReview.message(), "Claim must be UnderReview before approval");
    assert_eq!(Error::AlreadyPaid.message(), "Cannot reject an already paid claim");
    assert_eq!(Error::NotApproved.message(), "Claim must be Approved before marking as paid");
}

#[test]
fn lifecycle_required_signers() {
    let fresh = InsuranceClaimsContract::new();
    let (_env, client, admin, holder) = setup();
    let review = Action::StartReview { claim_id: 1 };
    assert_eq!(fresh.required_signer(&review), Err(Error::NotInitialized));
    assert_eq!(client.required_signer(&review), Ok(admin));
    assert_eq!(
        client.required_signer(&Action::RegisterPolicy { holder, coverage_amount: 1, premium_paid: 1 }),
        Ok(admin)
    );
    assert_eq!(client.required_signer(&Action::MarkPaid { claim_id: 3 }), Ok(admin));
    assert_eq!(
        client.required_signer(&Action::SubmitClaim {
            claimant: holder,
            policy_id: 1,
            amount: 1,
            description: Vec::new(),
        }),
        Ok(holder)
    );
    let newcomer = account(8);
    assert_eq!(
        client.required_signer(&Action::Initialize { admin: newcomer }),
        Err(Error::AlreadyInitialized)
    );
    assert_eq!(fresh.required_signer(&Action::Initialize { admin: newcomer }), Ok(newcomer));
}

#[test]
fn lifecycle_claim_refusal_matches_submission() {
    let (env, mut client, _admin, holder) = setup();
    let policy_id = or_panic(client.register_policy(&env, holder, 1_000, 50));
    assert_eq!(client.claim_refusal(holder, policy_id, 1_000), None);
    assert_eq!(client.claim_refusal(holder, policy_id, 0), Some(Error::NonPositiveAmount));
    assert_eq!(client.claim_refusal(account(5), policy_id, 10), Some(Error::NotPolicyHolder));
    assert_eq!(client.get_claim_count(), 0);
}
