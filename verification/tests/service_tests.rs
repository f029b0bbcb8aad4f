use base64::Engine;
use rusty_proc::keys::{from_secret_bytes, generate};
use rusty_proc::response::{json_error, json_success, ApiResponse};
use rusty_proc::service::{create_token, generate_keypair, mint_token, send_sol, send_token,
    sign_message, validate_secret_key, verify_message};
use rusty_proc::sign::sign;
use rusty_proc::validate::{validate_amount, validate_pubkey, validate_required_numeric,
    validate_required_string};
use solana_sdk::pubkey::Pubkey;

fn b64(bytes: &[u8]) -> String {
    base64::engine::general_purpose::STANDARD.encode(bytes)
}

fn some(s: &str) -> Option<String> {
    Some(s.to_string())
}

#[test]
fn generated_output_decodes_to_a_keypair() {
    let out = generate_keypair();
    let secret_bytes = bs58::decode(&out.secret).into_vec().expect("base58 secret");
    assert_eq!(secret_bytes.len(), 64);
    assert_eq!(
        bs58::decode(&out.pubkey).into_vec().expect("base58 pubkey"),
        secret_bytes[32..].to_vec()
    );
    assert!(from_secret_bytes(&secret_bytes).is_ok());
}

#[test]
fn validate_secret_key_accepts_generated_secret() {
    let kp = generate();
    let text = bs58::encode(&kp.secret_bytes()).into_string();
    let back = validate_secret_key(&text).expect("well-formed secret");
    assert_eq!(back.secret, kp.secret);
    assert_eq!(back.public, kp.public);
}

#[test]
fn validate_secret_key_reports_each_failure() {
    assert_eq!(
        validate_secret_key("l1l1l1 not base58").map(|_| ()),
        Err("Invalid base58 secret key".to_string())
    );
    let short = bs58::encode(&[9u8; 63]).into_string();
    assert_eq!(
        validate_secret_key(&short).map(|_| ()),
        Err("Invalid secret key length".to_string())
    );
    let kp = generate();
    let mut bytes = kp.secret_bytes();
    bytes[63] ^= 0x80;
    let tampered = bs58::encode(&bytes).into_string();
    assert_eq!(
        validate_secret_key(&tampered).map(|_| ()),
        Err("Invalid keypair from secret key".to_string())
    );
}

#[test]
fn sign_message_produces_the_expected_fields() {
    let kp = generate();
    let secret_text = bs58::encode(&kp.secret_bytes()).into_string();
    let out = sign_message(&some("hello solana"), &Some(secret_text))
        .expect("valid message and secret");
    let expected_sig = sign(&kp, &b"hello solana".to_vec());
    assert_eq!(out.signature, b64(&expected_sig));
    assert_eq!(out.public_key, bs58::encode(&kp.public).into_string());
    assert_eq!(out.message, "hello solana");
}

#[test]
fn sign_message_reports_field_failures_in_order() {
    let kp = generate();
    let secret_text = bs58::encode(&kp.secret_bytes()).into_string();
    assert_eq!(
        sign_message(&None, &Some(secret_text.clone())).map(|_| ()),
        Err("Missing required field: message".to_string())
    );
    assert_eq!(
        sign_message(&some(""), &Some(secret_text)).map(|_| ()),
        Err("Field 'message' cannot be empty".to_string())
    );
    assert_eq!(
        sign_message(&some("hi"), &None).map(|_| ()),
        Err("Missing required field: secret".to_string())
    );
    assert_eq!(
        sign_message(&some("hi"), &some("")).map(|_| ()),
        Err("Field 'secret' cannot be empty".to_string())
    );
    assert_eq!(
        sign_message(&some("hi"), &some("@@@")).map(|_| ()),
        Err("Invalid base58 secret key".to_string())
    );
}

#[test]
fn verify_message_round_trips_and_detects_tampering() {
    let kp = generate();
    let message = b"signed payload".to_vec();
    let sig = sign(&kp, &message);
    let pubkey_text = bs58::encode(&kp.public).into_string();
    let good = verify_message(
        &some("signed payload"),
        &Some(b64(&sig)),
        &Some(pubkey_text.clone()),
    )
    .expect("decodable fields");
    assert!(good.valid);
    assert_eq!(good.message, "signed payload");
    assert_eq!(good.pubkey, pubkey_text);

    let tampered = verify_message(
        &some("signed payloae"),
        &Some(b64(&sig)),
        &Some(pubkey_text.clone()),
    )
    .expect("decodable fields");
    assert!(!tampered.valid);

    let other_key = verify_message(
        &some("signed payload"),
        &Some(b64(&sig)),
        &Some(bs58::encode(&generate().public).into_string()),
    )
    .expect("decodable fields");
    assert!(!other_key.valid);
}

#[test]
fn verify_message_reports_decode_failures() {
    let kp = generate();
    let pubkey_text = bs58::encode(&kp.public).into_string();
    assert_eq!(
        verify_message(&some("m"), &some("!!not base64!!"), &Some(pubkey_text.clone()))
            .map(|_| ()),
        Err("Invalid base64 signature".to_string())
    );
    assert_eq!(
        verify_message(&some("m"), &some("AAAA"), &Some(pubkey_text)).map(|_| ()),
        Err("Invalid signature length".to_string())
    );
    let sig = sign(&kp, &b"m".to_vec());
    assert_eq!(
        verify_message(&some("m"), &Some(b64(&sig)), &some("zz..zz")).map(|_| ()),
        Err("Invalid base58 public key".to_string())
    );
}

#[test]
fn send_sol_renders_the_system_transfer() {
    let from = generate().public_key();
    let to = generate().public_key();
    let from_text = from.to_base58();
    let to_text = to.to_base58();
    let out = send_sol(&Some(from_text.clone()), &Some(to_text.clone()), &Some(987))
        .expect("valid fields");
    let outside = solana_sdk::system_instruction::transfer(
        &Pubkey::new_from_array(<[u8; 32]>::try_from(from.bytes.as_slice()).unwrap()),
        &Pubkey::new_from_array(<[u8; 32]>::try_from(to.bytes.as_slice()).unwrap()),
        987,
    );
    assert_eq!(out.program_id, outside.program_id.to_string());
    assert_eq!(out.accounts, vec![from_text, to_text]);
    assert_eq!(out.instruction_data, b64(&outside.data));
}

#[test]
fn send_sol_reports_failures_in_order() {
    let addr = generate().public_key().to_base58();
    assert_eq!(
        send_sol(&None, &Some(addr.clone()), &Some(1)).map(|_| ()),
        Err("Missing required fields".to_string())
    );
    assert_eq!(
        send_sol(&some(""), &Some(addr.clone()), &Some(1)).map(|_| ()),
        Err("Missing required fields".to_string())
    );
    assert_eq!(
        send_sol(&Some(addr.clone()), &Some(addr.clone()), &None).map(|_| ()),
        Err("Missing required fields".to_string())
    );
    assert_eq!(
        send_sol(&Some(addr.clone()), &Some(addr.clone()), &Some(0)).map(|_| ()),
        Err("Amount must be greater than 0".to_string())
    );
    assert_eq!(
        send_sol(&some("???"), &Some(addr.clone()), &Some(1)).map(|_| ()),
        Err("Invalid 'from' address".to_string())
    );
    assert_eq!(
        send_sol(&Some(addr), &some("???"), &Some(1)).map(|_| ()),
        Err("Invalid 'to' address".to_string())
    );
}

#[test]
fn send_token_renders_the_outside_transfer() {
    let destination = generate().public_key();
    let mint = generate().public_key();
    let owner = generate().public_key();
    let out = send_token(
        &Some(destination.to_base58()),
        &Some(mint.to_base58()),
        &Some(owner.to_base58()),
        &Some(55),
    )
    .expect("valid fields");
    let sol = |pk: &rusty_proc::keys::PublicKey| {
        Pubkey::new_from_array(<[u8; 32]>::try_from(pk.bytes.as_slice()).unwrap())
    };
    let source_account =
        spl_associated_token_account::get_associated_token_address(&sol(&owner), &sol(&mint));
    let destination_account = spl_associated_token_account::get_associated_token_address(
        &sol(&destination),
        &sol(&mint),
    );
    let outside = spl_token::instruction::transfer(
        &spl_token::id(),
        &source_account,
        &destination_account,
        &sol(&owner),
        &[],
        55,
    )
    .expect("outside builder accepts its own program id");
    assert_eq!(out.program_id, outside.program_id.to_string());
    assert_eq!(out.instruction_data, b64(&outside.data));
    assert_eq!(out.accounts.len(), outside.accounts.len());
    for (ours, meta) in out.accounts.iter().zip(outside.accounts.iter()) {
        assert_eq!(ours.pubkey, meta.pubkey.to_string());
        assert_eq!(ours.is_signer, meta.is_signer);
        assert_eq!(ours.is_writable, meta.is_writable);
    }
}

#[test]
fn send_token_reports_failures_in_order() {
    let addr = generate().public_key().to_base58();
    assert_eq!(
        send_token(&None, &Some(addr.clone()), &Some(addr.clone()), &Some(1)).map(|_| ()),
        Err("Missing required fields".to_string())
    );
    assert_eq!(
        send_token(&Some(addr.clone()), &Some(addr.clone()), &Some(addr.clone()), &Some(0))
            .map(|_| ()),
        Err("Amount must be greater than 0".to_string())
    );
    assert_eq!(
        send_token(&some("x"), &Some(addr.clone()), &Some(addr.clone()), &Some(1)).map(|_| ()),
        Err("Invalid destination address".to_string())
    );
    assert_eq!(
        send_token(&Some(addr.clone()), &some("x"), &Some(addr.clone()), &Some(1)).map(|_| ()),
        Err("Invalid mint address".to_string())
    );
    assert_eq!(
        send_token(&Some(addr.clone()), &Some(addr.clone()), &some("x"), &Some(1)).map(|_| ()),
        Err("Invalid owner address".to_string())
    );
}

#[test]
fn create_token_renders_the_outside_initialization() {
    let authority = generate().public_key();
    let mint = generate().public_key();
    let out = create_token(&Some(authority.to_base58()), &Some(mint.to_base58()), &Some(6))
        .expect("valid fields");
    let sol = |pk: &rusty_proc::keys::PublicKey| {
        Pubkey::new_from_array(<[u8; 32]>::try_from(pk.bytes.as_slice()).unwrap())
    };
    let outside = spl_token::instruction::initialize_mint(
        &spl_token::id(),
        &sol(&mint),
        &sol(&authority),
        None,
        6,
    )
    .expect("outside builder accepts its own program id");
    assert_eq!(out.program_id, outside.program_id.to_string());
    assert_eq!(out.instruction_data, b64(&outside.data));
    assert_eq!(out.accounts.len(), outside.accounts.len());
    for (ours, meta) in out.accounts.iter().zip(outside.accounts.iter()) {
        assert_eq!(ours.pubkey, meta.pubkey.to_string());
        assert_eq!(ours.is_signer, meta.is_signer);
        assert_eq!(ours.is_writable, meta.is_writable);
    }
}

#[test]
fn create_token_reports_failures_in_order() {
    let addr = generate().public_key().to_base58();
    assert_eq!(
        create_token(&Some(addr.clone()), &Some(addr.clone()), &None).map(|_| ()),
        Err("Missing required fields".to_string())
    );
    assert_eq!(
        create_token(&some("x"), &Some(addr.clone()), &Some(0)).map(|_| ()),
        Err("Invalid mint authority address".to_string())
    );
    assert_eq!(
        create_token(&Some(addr), &some("x"), &Some(0)).map(|_| ()),
        Err("Invalid mint address".to_string())
    );
}

#[test]
fn mint_token_renders_the_outside_mint_to() {
    let mint = generate().public_key();
    let destination = generate().public_key();
    let authority = generate().public_key();
    let out = mint_token(
        &Some(mint.to_base58()),
        &Some(destination.to_base58()),
        &Some(authority.to_base58()),
        &Some(1),
    )
    .expect("valid fields");
    let sol = |pk: &rusty_proc::keys::PublicKey| {
        Pubkey::new_from_array(<[u8; 32]>::try_from(pk.bytes.as_slice()).unwrap())
    };
    let destination_account = spl_associated_token_account::get_associated_token_address(
        &sol(&destination),
        &sol(&mint),
    );
    let outside = spl_token::instruction::mint_to(
        &spl_token::id(),
        &sol(&mint),
        &destination_account,
        &sol(&authority),
        &[],
        1,
    )
    .expect("outside builder accepts its own program id");
    assert_eq!(out.program_id, outside.program_id.to_string());
    assert_eq!(out.instruction_data, b64(&outside.data));
    assert_eq!(out.accounts.len(), 3);
    for (ours, meta) in out.accounts.iter().zip(outside.accounts.iter()) {
        assert_eq!(ours.pubkey, meta.pubkey.to_string());
        assert_eq!(ours.is_signer, meta.is_signer);
        assert_eq!(ours.is_writable, meta.is_writable);
    }
}

#[test]
fn mint_token_reports_failures_in_order() {
    let addr = generate().public_key().to_base58();
    assert_eq!(
        mint_token(&Some(addr.clone()), &None, &Some(addr.clone()), &Some(1)).map(|_| ()),
        Err("Missing required fields".to_string())
    );
    assert_eq!(
        mint_token(&Some(addr.clone()), &Some(addr.clone()), &Some(addr.clone()), &Some(0))
            .map(|_| ()),
        Err("Amount must be greater than 0".to_string())
    );
    assert_eq!(
        mint_token(&some("x"), &Some(addr.clone()), &Some(addr.clone()), &Some(1)).map(|_| ()),
        Err("Invalid mint address".to_string())
    );
    assert_eq!(
        mint_token(&Some(addr.clone()), &some("x"), &Some(addr.clone()), &Some(1)).map(|_| ()),
        Err("Invalid destination address".to_string())
    );
    assert_eq!(
        mint_token(&Some(addr.clone()), &Some(addr.clone()), &some("x"), &Some(1)).map(|_| ()),
        Err("Invalid authority address".to_string())
    );
}

#[test]
fn field_validators_report_exact_messages() {
    assert_eq!(
        validate_required_string(&some("v"), "name"),
        Ok("v".to_string())
    );
    assert_eq!(
        validate_required_string(&some(""), "name"),
        Err("Field 'name' cannot be empty".to_string())
    );
    assert_eq!(
        validate_required_string(&None, "name"),
        Err("Missing required field: name".to_string())
    );
    assert_eq!(validate_required_numeric(&Some(5u64), "n"), Ok(5));
    assert_eq!(
        validate_required_numeric(&None::<u64>, "n"),
        Err("Missing required field: n".to_string())
    );
    assert_eq!(validate_amount(Some(3), "amount"), Ok(3));
    assert_eq!(
        validate_amount(Some(0), "amount"),
        Err("Amount must be greater than 0".to_string())
    );
    assert_eq!(
        validate_amount(None, "amount"),
        Err("Missing required field: amount".to_string())
    );
    let good = generate().public_key().to_base58();
    assert!(validate_pubkey(&good, "owner").is_ok());
    assert_eq!(
        validate_pubkey("???", "owner").map(|_| ()),
        Err("Invalid 'owner' address provided".to_string())
    );
}

#[test]
fn response_envelopes_carry_their_flags() {
    let ok = json_success(41u64);
    assert!(ok.success);
    assert_eq!(ok.data, 41);
    let err = json_error("boom");
    assert!(!err.success);
    assert_eq!(err.error, "boom");
    assert_eq!(ApiResponse::<u64>::Success(1).status_code(), 200);
    assert_eq!(ApiResponse::<u64>::Error("e".to_string()).status_code(), 400);
}
