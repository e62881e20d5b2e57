use invoice_payment::auth::Authorization;
use invoice_payment::errors::{CallError, ContractError};
use invoice_payment::events::PaymentEvent;
use invoice_payment::identity::Identity;
use invoice_payment::ledger::Ledger;
use invoice_payment::record::PaymentRecord;

fn ledger_with_admin(name: &str) -> (Ledger, Identity, Authorization) {
    let admin = Identity::from_str(name);
    let mut ledger = Ledger::new();
    assert_eq!(ledger.initialize(admin.clone()), Ok(()));
    let auth = Authorization::of(&admin);
    (ledger, admin, auth)
}

fn pay(
    ledger: &mut Ledger,
    auth: &Authorization,
    invoice_id: &str,
    asset_code: &str,
    asset_issuer: &str,
    amount: i128,
) -> Result<(), CallError> {
    let mut events: Vec<PaymentEvent> = Vec::new();
    ledger.record_payment(
        auth,
        &mut events,
        String::from(invoice_id),
        Identity::from_str("payer"),
        String::from(asset_code),
        String::from(asset_issuer),
        amount,
    )
}

// Scenarios

#[test]
fn initialize_then_admin_and_zero_count() {
    let a = Identity::from_str("A");
    let mut ledger = Ledger::new();
    assert_eq!(ledger.initialize(a.clone()), Ok(()));
    assert_eq!(ledger.admin(), Ok(a));
    assert_eq!(ledger.payment_count(), 0);
}

#[test]
fn second_initialize_fails_and_keeps_first_admin() {
    let a = Identity::from_str("A");
    let b = Identity::from_str("B");
    let mut ledger = Ledger::new();
    assert_eq!(ledger.initialize(a.clone()), Ok(()));
    assert_eq!(ledger.initialize(b), Err(ContractError::AlreadyInitialized));
    assert_eq!(ledger.admin(), Ok(a));
}

#[test]
fn record_then_get_and_count() {
    let (mut ledger, _a, auth) = ledger_with_admin("A");
    assert_eq!(pay(&mut ledger, &auth, "inv-1", "XLM", "", 10_000_000), Ok(()));
    let record = ledger.get_payment(&String::from("inv-1")).unwrap();
    assert_eq!(
        record,
        PaymentRecord {
            invoice_id: String::from("inv-1"),
            payer: Identity::from_str("payer"),
            asset_code: String::from("XLM"),
            asset_issuer: String::from(""),
            amount: 10_000_000,
        }
    );
    assert_eq!(ledger.payment_count(), 1);
}

#[test]
fn second_record_for_one_invoice_fails_and_keeps_count() {
    let (mut ledger, _a, auth) = ledger_with_admin("A");
    assert_eq!(pay(&mut ledger, &auth, "inv-1", "XLM", "", 10_000_000), Ok(()));
    assert_eq!(
        pay(&mut ledger, &auth, "inv-1", "XLM", "", 5),
        Err(CallError::Contract(ContractError::PaymentAlreadyRecorded))
    );
    assert_eq!(ledger.payment_count(), 1);
    assert_eq!(
        ledger.get_payment(&String::from("inv-1")).unwrap().amount,
        10_000_000
    );
}

#[test]
fn issued_asset_without_issuer_fails() {
    let (mut ledger, _a, auth) = ledger_with_admin("A");
    assert_eq!(
        pay(&mut ledger, &auth, "inv-2", "USDC", "", 1),
        Err(CallError::Contract(ContractError::InvalidAsset))
    );
    assert_eq!(ledger.payment_count(), 0);
    assert!(!ledger.has_payment(&String::from("inv-2")));
}

#[test]
fn rotation_with_outgoing_admin_only_is_rejected_then_succeeds_with_incoming() {
    let (mut ledger, a, auth_a) = ledger_with_admin("A");
    let b = Identity::from_str("B");
    assert_eq!(ledger.set_admin(&auth_a, b.clone()), Err(CallError::Unauthorized));
    assert_eq!(ledger.admin(), Ok(a));
    assert_eq!(ledger.set_admin(&Authorization::of(&b), b.clone()), Ok(()));
    assert_eq!(ledger.admin(), Ok(b));
}

// Uniqueness

#[test]
fn recorded_invoice_is_never_recorded_again() {
    let (mut ledger, a, auth_a) = ledger_with_admin("A");
    assert_eq!(pay(&mut ledger, &auth_a, "inv-1", "XLM", "", 7), Ok(()));
    assert_eq!(pay(&mut ledger, &auth_a, "inv-2", "USDC", "GISSUER", 9), Ok(()));

    let b = Identity::from_str("B");
    let mut both = Authorization::of(&a);
    both.add(&b);
    assert_eq!(ledger.set_admin(&both, b.clone()), Ok(()));
    let auth_b = Authorization::of(&b);

    // The same fields, other fields, another admin: never again.
    assert_eq!(
        pay(&mut ledger, &auth_b, "inv-1", "XLM", "", 7),
        Err(CallError::Contract(ContractError::PaymentAlreadyRecorded))
    );
    assert_eq!(
        pay(&mut ledger, &auth_b, "inv-1", "USDC", "GISSUER", 1_000),
        Err(CallError::Contract(ContractError::PaymentAlreadyRecorded))
    );
    // Earlier checks still come first.
    assert_eq!(
        pay(&mut ledger, &auth_b, "inv-1", "XLM", "", 0),
        Err(CallError::Contract(ContractError::InvalidAmount))
    );
    assert_eq!(
        pay(&mut ledger, &auth_a, "inv-1", "XLM", "", 7),
        Err(CallError::Unauthorized)
    );
    let kept = ledger.get_payment(&String::from("inv-1")).unwrap();
    assert_eq!(kept.amount, 7);
    assert_eq!(kept.asset_code, "XLM");
    assert_eq!(ledger.payment_count(), 2);
}

// Count consistency

#[test]
fn count_is_number_of_invoices_with_a_record() {
    let (mut ledger, _a, auth) = ledger_with_admin("A");
    let attempts: [(&str, &str, &str, i128); 7] = [
        ("inv-1", "XLM", "", 1),
        ("inv-2", "USDC", "GISSUER", 2),
        ("inv-1", "XLM", "", 3),
        ("", "XLM", "", 4),
        ("inv-3", "XLM", "", 0),
        ("inv-4", "", "", 5),
        ("inv-5", "EURC", "GOTHER", 6),
    ];
    for (id, code, issuer, amount) in attempts {
        let _ = pay(&mut ledger, &auth, id, code, issuer, amount);
    }
    let ids = ["", "inv-1", "inv-2", "inv-3", "inv-4", "inv-5", "inv-6"];
    let with_record = ids
        .iter()
        .filter(|id| ledger.has_payment(&String::from(**id)))
        .count();
    assert_eq!(with_record, 3);
    assert_eq!(ledger.payment_count(), 3);
    assert_eq!(ledger.records().len(), 3);
}

// Field rules and their order

#[test]
fn empty_invoice_id_wins_over_every_other_fault() {
    let (mut ledger, _a, auth) = ledger_with_admin("A");
    assert_eq!(
        pay(&mut ledger, &auth, "", "", "", 0),
        Err(CallError::Contract(ContractError::InvalidInvoiceId))
    );
    assert_eq!(
        pay(&mut ledger, &auth, "", "USDC", "", -5),
        Err(CallError::Contract(ContractError::InvalidInvoiceId))
    );
}

#[test]
fn amount_fault_wins_over_asset_faults() {
    let (mut ledger, _a, auth) = ledger_with_admin("A");
    assert_eq!(
        pay(&mut ledger, &auth, "inv-1", "", "", 0),
        Err(CallError::Contract(ContractError::InvalidAmount))
    );
    assert_eq!(
        pay(&mut ledger, &auth, "inv-1", "USDC", "", i128::MIN),
        Err(CallError::Contract(ContractError::InvalidAmount))
    );
}

#[test]
fn empty_asset_code_fails_whatever_the_issuer() {
    let (mut ledger, _a, auth) = ledger_with_admin("A");
    assert_eq!(
        pay(&mut ledger, &auth, "inv-1", "", "GISSUER", 1),
        Err(CallError::Contract(ContractError::InvalidAsset))
    );
    assert_eq!(
        pay(&mut ledger, &auth, "inv-1", "", "", 1),
        Err(CallError::Contract(ContractError::InvalidAsset))
    );
}

#[test]
fn asset_code_is_compared_exactly_with_the_native_code() {
    let (mut ledger, _a, auth) = ledger_with_admin("A");
    // Only the exact code "XLM" may come without an issuer.
    for code in ["xlm", "XLM ", "XL", "XLMM", "USDC"] {
        assert_eq!(
            pay(&mut ledger, &auth, "inv-1", code, "", 1),
            Err(CallError::Contract(ContractError::InvalidAsset))
        );
    }
    assert_eq!(pay(&mut ledger, &auth, "inv-1", "XLM", "", 1), Ok(()));
}

#[test]
fn smallest_and_largest_amounts() {
    let (mut ledger, _a, auth) = ledger_with_admin("A");
    assert_eq!(pay(&mut ledger, &auth, "inv-min", "XLM", "", 1), Ok(()));
    assert_eq!(pay(&mut ledger, &auth, "inv-max", "XLM", "", i128::MAX), Ok(()));
    assert_eq!(
        ledger.get_payment(&String::from("inv-max")).unwrap().amount,
        i128::MAX
    );
}

#[test]
fn native_asset_with_issuer_is_stored_as_given() {
    let (mut ledger, _a, auth) = ledger_with_admin("A");
    assert_eq!(pay(&mut ledger, &auth, "inv-1", "XLM", "GISSUER", 1), Ok(()));
    let record = ledger.get_payment(&String::from("inv-1")).unwrap();
    assert_eq!(record.asset_code, "XLM");
    assert_eq!(record.asset_issuer, "GISSUER");
}

#[test]
fn failed_record_leaves_no_trace() {
    let (mut ledger, _a, auth) = ledger_with_admin("A");
    let mut events: Vec<PaymentEvent> = Vec::new();
    let result = ledger.record_payment(
        &auth,
        &mut events,
        String::from("inv-1"),
        Identity::from_str("payer"),
        String::from("USDC"),
        String::from(""),
        10,
    );
    assert_eq!(result, Err(CallError::Contract(ContractError::InvalidAsset)));
    assert!(events.is_empty());
    assert_eq!(ledger.payment_count(), 0);
    assert!(!ledger.has_payment(&String::from("inv-1")));
    assert_eq!(
        ledger.get_payment(&String::from("inv-1")),
        Err(ContractError::PaymentNotFound)
    );
}

// Initialization gating

#[test]
fn operations_that_need_an_admin_fail_before_initialize() {
    let mut ledger = Ledger::new();
    let somebody = Identity::from_str("somebody");
    let auth = Authorization::of(&somebody);

    assert_eq!(ledger.admin(), Err(ContractError::NotInitialized));
    assert_eq!(
        pay(&mut ledger, &auth, "inv-1", "XLM", "", 1),
        Err(CallError::Contract(ContractError::NotInitialized))
    );
    // Not initialized comes before every other fault.
    assert_eq!(
        pay(&mut ledger, &Authorization::none(), "", "", "", 0),
        Err(CallError::Contract(ContractError::NotInitialized))
    );
    assert_eq!(
        ledger.set_admin(&auth, somebody.clone()),
        Err(CallError::Contract(ContractError::NotInitialized))
    );
    assert_eq!(
        ledger.set_admin(&Authorization::none(), somebody),
        Err(CallError::Contract(ContractError::NotInitialized))
    );
    assert_eq!(ledger.admin(), Err(ContractError::NotInitialized));
    assert_eq!(ledger.payment_count(), 0);
}

#[test]
fn initialize_fails_after_rotation_too() {
    let (mut ledger, a, _auth) = ledger_with_admin("A");
    let b = Identity::from_str("B");
    assert_eq!(ledger.set_admin(&Authorization::of(&b), b.clone()), Ok(()));
    assert_eq!(ledger.initialize(a), Err(ContractError::AlreadyInitialized));
    assert_eq!(
        ledger.initialize(Identity::from_str("C")),
        Err(ContractError::AlreadyInitialized)
    );
    assert_eq!(ledger.admin(), Ok(b));
}

// Reads before any write

#[test]
fn reads_answer_before_initialize() {
    let ledger = Ledger::new();
    assert!(!ledger.has_payment(&String::from("inv-1")));
    assert!(!ledger.has_payment(&String::from("")));
    assert_eq!(
        ledger.get_payment(&String::from("inv-1")),
        Err(ContractError::PaymentNotFound)
    );
    assert_eq!(ledger.payment_count(), 0);
}

#[test]
fn unrecorded_invoice_stays_absent_beside_recorded_ones() {
    let (mut ledger, _a, auth) = ledger_with_admin("A");
    assert_eq!(pay(&mut ledger, &auth, "inv-1", "XLM", "", 1), Ok(()));
    assert!(ledger.has_payment(&String::from("inv-1")));
    assert!(!ledger.has_payment(&String::from("inv-10")));
    assert!(!ledger.has_payment(&String::from("inv-")));
    assert_eq!(
        ledger.get_payment(&String::from("INV-1")),
        Err(ContractError::PaymentNotFound)
    );
}

// Authorization

#[test]
fn record_payment_needs_the_admin_not_the_payer() {
    let (mut ledger, _a, _auth) = ledger_with_admin("A");
    let payer = Identity::from_str("payer");
    assert_eq!(
        pay(&mut ledger, &Authorization::of(&payer), "inv-1", "XLM", "", 1),
        Err(CallError::Unauthorized)
    );
    assert_eq!(
        pay(&mut ledger, &Authorization::none(), "inv-1", "XLM", "", 1),
        Err(CallError::Unauthorized)
    );
    assert_eq!(ledger.payment_count(), 0);
}

#[test]
fn missing_authorization_comes_before_field_faults() {
    let (mut ledger, _a, _auth) = ledger_with_admin("A");
    assert_eq!(
        pay(&mut ledger, &Authorization::none(), "", "", "", 0),
        Err(CallError::Unauthorized)
    );
}

#[test]
fn outgoing_admin_loses_the_right_to_record() {
    let (mut ledger, _a, auth_a) = ledger_with_admin("A");
    let b = Identity::from_str("B");
    assert_eq!(ledger.set_admin(&Authorization::of(&b), b.clone()), Ok(()));
    assert_eq!(
        pay(&mut ledger, &auth_a, "inv-1", "XLM", "", 1),
        Err(CallError::Unauthorized)
    );
    assert_eq!(pay(&mut ledger, &Authorization::of(&b), "inv-1", "XLM", "", 1), Ok(()));
}

#[test]
fn rotation_needs_no_consent_of_the_outgoing_admin() {
    let (mut ledger, _a, _auth) = ledger_with_admin("A");
    let b = Identity::from_str("B");
    assert_eq!(ledger.set_admin(&Authorization::of(&b), b.clone()), Ok(()));
    assert_eq!(ledger.admin(), Ok(b));
}

#[test]
fn rotation_to_the_current_admin_succeeds() {
    let (mut ledger, a, auth_a) = ledger_with_admin("A");
    assert_eq!(ledger.set_admin(&auth_a, a.clone()), Ok(()));
    assert_eq!(ledger.admin(), Ok(a));
}

#[test]
fn authorization_lists_who_stands_behind_a_call() {
    let a = Identity::from_str("A");
    let b = Identity::from_str("B");
    let c = Identity::from_str("C");
    let none = Authorization::none();
    assert!(!none.includes(&a));

    let mut auth = Authorization::of(&a);
    assert!(auth.includes(&a));
    assert!(!auth.includes(&b));
    auth.add(&b);
    auth.add(&a);
    assert!(auth.includes(&a));
    assert!(auth.includes(&b));
    assert!(!auth.includes(&c));
    assert!(!auth.includes(&Identity::from_str("")));
}

#[test]
fn identity_is_its_name() {
    let a = Identity::new(String::from("GABC"));
    assert_eq!(a.as_str(), "GABC");
    assert!(a.same_as(&Identity::from_str("GABC")));
    assert!(!a.same_as(&Identity::from_str("GABD")));
    assert_eq!(a.clone(), a);
}
