use zafegard_policy::policy::{cooldown_elapsed, decide, decode_amount, deposit_request};
use zafegard_policy::{
    Address, Context, ContractContext, DelegateKey, Error, SignerKey, Val, VaultAllowance,
    MONTH_IN_LEDGERS,
};

fn deposit(vault: &str, args: Vec<Val>) -> ContractContext {
    ContractContext { contract: Address::new(vault), fn_name: "deposit".to_string(), args }
}

#[test]
fn cooldown_counts_from_the_last_accepted_sequence() {
    assert!(cooldown_elapsed(None, 0));
    assert!(cooldown_elapsed(None, u32::MAX));
    assert!(cooldown_elapsed(Some(0), MONTH_IN_LEDGERS));
    assert!(!cooldown_elapsed(Some(0), MONTH_IN_LEDGERS - 1));
    assert!(cooldown_elapsed(Some(1_036_800), 1_555_200));
    assert!(!cooldown_elapsed(Some(1_036_800), 1_555_199));
    assert!(!cooldown_elapsed(Some(1_036_800), 1_036_800));
    assert!(!cooldown_elapsed(Some(u32::MAX), 0));
    assert!(cooldown_elapsed(Some(0), u32::MAX));
}

#[test]
fn amount_is_the_first_element_of_the_first_argument() {
    assert_eq!(decode_amount(&vec![]), Err(Error::NotAllowed));
    assert_eq!(decode_amount(&vec![Val::List(vec![Val::I128(42)])]), Ok(42));
    assert_eq!(
        decode_amount(&vec![Val::List(vec![Val::I128(-3), Val::Bool(true)]), Val::Void]),
        Ok(-3)
    );
    assert_eq!(decode_amount(&vec![Val::I128(42)]), Err(Error::Debug));
    assert_eq!(decode_amount(&vec![Val::List(vec![])]), Err(Error::Debug));
    assert_eq!(decode_amount(&vec![Val::List(vec![Val::U32(42)])]), Err(Error::Debug));
    assert_eq!(
        decode_amount(&vec![Val::Void, Val::List(vec![Val::I128(42)])]),
        Err(Error::Debug)
    );
}

#[test]
fn request_shape_is_one_deposit_call_signed_by_a_delegate() {
    let key: DelegateKey = [5u8; 32];
    let signer = SignerKey::Ed25519(key);
    let one = vec![Context::Contract(deposit("V", vec![]))];
    let expected = deposit("V", vec![]);
    assert_eq!(deposit_request(&signer, &one), Some((key, &expected)));
    assert_eq!(deposit_request(&SignerKey::Policy(Address::new("P")), &one), None);
    assert_eq!(deposit_request(&SignerKey::Secp256r1(vec![1, 2, 3]), &one), None);
    assert_eq!(deposit_request(&signer, &vec![]), None);
    let two = vec![Context::Contract(deposit("V", vec![])), Context::Contract(deposit("V", vec![]))];
    assert_eq!(deposit_request(&signer, &two), None);
    let other = vec![Context::Contract(ContractContext {
        contract: Address::new("V"),
        fn_name: "withdraw".to_string(),
        args: vec![],
    })];
    assert_eq!(deposit_request(&signer, &other), None);
    assert_eq!(deposit_request(&signer, &vec![Context::CreateContractHostFn]), None);
}

#[test]
fn decision_names_the_first_check_that_fails() {
    let allowance = VaultAllowance { vault: Address::new("V"), amount: 100 };
    let good = deposit("V", vec![Val::List(vec![Val::I128(100)])]);
    let over = deposit("V", vec![Val::List(vec![Val::I128(101)])]);
    let elsewhere = deposit("W", vec![Val::List(vec![Val::I128(100)])]);
    let over_elsewhere = deposit("W", vec![Val::List(vec![Val::I128(101)])]);
    let mistyped = deposit("V", vec![Val::Symbol("x".to_string())]);
    let missing = deposit("V", vec![]);
    let p = MONTH_IN_LEDGERS;

    assert_eq!(decide(&good, None, Some(&allowance), 0), Ok(()));
    assert_eq!(decide(&good, Some(p), Some(&allowance), 2 * p), Ok(()));
    assert_eq!(decide(&good, Some(p), Some(&allowance), 2 * p - 1), Err(Error::TooSoon));
    assert_eq!(decide(&good, Some(p), None, 2 * p - 1), Err(Error::TooSoon));
    assert_eq!(decide(&good, Some(p), None, 2 * p), Err(Error::NotFound));
    assert_eq!(decide(&mistyped, None, None, 0), Err(Error::NotFound));
    assert_eq!(decide(&mistyped, None, Some(&allowance), 0), Err(Error::Debug));
    assert_eq!(decide(&missing, None, Some(&allowance), 0), Err(Error::NotAllowed));
    assert_eq!(decide(&over, None, Some(&allowance), 0), Err(Error::TooMuch));
    assert_eq!(decide(&over_elsewhere, None, Some(&allowance), 0), Err(Error::TooMuch));
    assert_eq!(decide(&elsewhere, None, Some(&allowance), 0), Err(Error::WrongVault));
}
