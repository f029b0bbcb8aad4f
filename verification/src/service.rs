//! The computational core of each request the service answers: field
//! validation, decoding, the cryptographic or assembly work, and the
//! re-encoding of the result into the plain values the response carries.
//! The network layer only parses the request envelope, calls one of these
//! functions, and wraps what comes back.

use vstd::prelude::*;
use vstd::string::StringExecFns;
use vstd::utf8::encode_utf8;

use crate::address::{associated_program_id, associated_seeds, derive_spec, token_program_id};
use crate::codec::{base58_decode, base58_encode, base58_of, base64_decode, base64_encode,
    base64_of};
use crate::instruction::{asset_transfer_payload, build_asset_transfer, build_initialize_asset,
    build_mint_to, build_value_transfer, initialize_asset_payload, mint_to_payload,
    rent_sysvar_id, system_program_id, value_transfer_payload, InstructionDescriptor};
use crate::keys::{from_secret_bytes, generate, valid_secret_bytes, Keypair, PublicKey};
use crate::sign::{ed25519_sig_of, ed25519_verifies, sign, verify};
use crate::validate::{empty_field_msg, missing_field_msg, validate_required_string};

verus! {

/// A freshly generated keypair in its text forms: the public key and the
/// 64-byte secret form, both base58.
pub struct KeypairOutput {
    pub pubkey: String,
    pub secret: String,
}

/// A produced signature with the signing key and the message it covers.
pub struct SignMessageOutput {
    pub signature: String,
    pub public_key: String,
    pub message: String,
}

/// A verification verdict with the message and key it speaks about.
pub struct VerifyMessageOutput {
    pub valid: bool,
    pub message: String,
    pub pubkey: String,
}

/// Whether `b` is the byte sequence whose base58 text is `s` and which has
/// the length of a public key.
pub open spec fn parses_to_key(s: Seq<char>, b: Seq<u8>) -> bool {
    base58_of(b) == s && b.len() == 32
}

/// Whether the result failed with exactly the given message.
pub open spec fn errs_with<T>(r: Result<T, String>, msg: Seq<char>) -> bool {
    r matches Err(m) && m@ == msg
}

/// Whether a required text field is absent or empty.
pub open spec fn missing_or_empty(f: Option<String>) -> bool {
    f is None || f.unwrap()@.len() == 0
}

/// Generates a fresh keypair and renders it: the secret is the base58 text
/// of a well-formed 64-byte secret form, and the public key is the base58
/// text of that form's public half.
pub fn generate_keypair() -> (r: KeypairOutput)
    ensures
        exists|b: Seq<u8>|
            #![trigger valid_secret_bytes(b)]
            {
                &&& valid_secret_bytes(b)
                &&& r.secret@ == base58_of(b)
                &&& r.pubkey@ == base58_of(b.subrange(32, 64))
            },
{
    let kp = generate();
    let sb = kp.secret_bytes();
    proof {
        crate::keys::lemma_secret_bytes_round_trip(kp);
    }
    let secret = base58_encode(&sb);
    let pubkey = kp.public_key().to_base58();
    proof {
        assert(valid_secret_bytes(sb@) && sb@.subrange(32, 64) == kp.public@);
    }
    KeypairOutput { pubkey, secret }
}

/// Decodes a base58 secret and reconstructs the keypair it denotes.
/// Succeeds exactly on the base58 text of a well-formed 64-byte secret
/// form; the three failures — unparseable text, a decoded length other
/// than 64, and a public half that does not match the secret half — are
/// reported apart.
pub fn validate_secret_key(secret: &str) -> (r: Result<Keypair, String>)
    ensures
        r matches Ok(kp) ==> {
            &&& kp.wf()
            &&& secret@ == base58_of(kp.secret_bytes_spec())
        },
        (exists|b: Seq<u8>|
            #![trigger base58_of(b)]
            base58_of(b) == secret@ && valid_secret_bytes(b)) ==> r is Ok,
        !(exists|b: Seq<u8>| #![trigger base58_of(b)] base58_of(b) == secret@) ==> errs_with(
            r,
            "Invalid base58 secret key"@,
        ),
        forall|b: Seq<u8>|
            #![trigger base58_of(b)]
            base58_of(b) == secret@ && b.len() != 64 ==> errs_with(
                r,
                "Invalid secret key length"@,
            ),
        forall|b: Seq<u8>|
            #![trigger base58_of(b)]
            base58_of(b) == secret@ && b.len() == 64 && !valid_secret_bytes(b) ==> errs_with(
                r,
                "Invalid keypair from secret key"@,
            ),
{
    let bytes = match base58_decode(secret) {
        Ok(b) => b,
        Err(_) => {
            return Err(String::from_str("Invalid base58 secret key"));
        },
    };
    if bytes.len() != 64 {
        return Err(String::from_str("Invalid secret key length"));
    }
    match from_secret_bytes(&bytes) {
        Ok(kp) => {
            proof {
                assert(kp.secret_bytes_spec() =~= bytes@);
            }
            Ok(kp)
        },
        Err(_) => Err(String::from_str("Invalid keypair from secret key")),
    }
}

/// Signs a message with the keypair a base58 secret denotes.  The field
/// checks come first, in request order; a well-formed secret always signs,
/// and the output carries the base64 signature, the base58 public key, and
/// the message itself.
pub fn sign_message(message: &Option<String>, secret: &Option<String>) -> (r: Result<
    SignMessageOutput,
    String,
>)
    ensures
        message is None ==> errs_with(r, missing_field_msg("message"@)),
        message matches Some(msg) ==> ({
            &&& msg@.len() == 0 ==> errs_with(r, empty_field_msg("message"@))
            &&& msg@.len() > 0 ==> ({
                &&& secret is None ==> errs_with(r, missing_field_msg("secret"@))
                &&& secret matches Some(sec) ==> ({
                    &&& sec@.len() == 0 ==> errs_with(r, empty_field_msg("secret"@))
                    &&& sec@.len() > 0 ==> ({
                        &&& (r matches Ok(out) ==> exists|b: Seq<u8>|
                            #![trigger base58_of(b)]
                            {
                                &&& base58_of(b) == sec@
                                &&& valid_secret_bytes(b)
                                &&& out.signature@ == base64_of(
                                    ed25519_sig_of(b.subrange(0, 32), encode_utf8(msg@)),
                                )
                                &&& out.public_key@ == base58_of(b.subrange(32, 64))
                                &&& out.message@ == msg@
                            })
                        &&& ((exists|b: Seq<u8>|
                            #![trigger base58_of(b)]
                            base58_of(b) == sec@ && valid_secret_bytes(b)) ==> r is Ok)
                        &&& (r matches Err(m) ==> (m@ == "Invalid base58 secret key"@ || m@
                            == "Invalid secret key length"@ || m@
                            == "Invalid keypair from secret key"@))
                    })
                })
            })
        }),
{
    let msg = match validate_required_string(message, "message") {
        Ok(m) => m,
        Err(e) => {
            return Err(e);
        },
    };
    let sec = match validate_required_string(secret, "secret") {
        Ok(s) => s,
        Err(e) => {
            return Err(e);
        },
    };
    let kp = match validate_secret_key(sec.as_str()) {
        Ok(kp) => kp,
        Err(e) => {
            return Err(e);
        },
    };
    let msg_bytes = vstd::slice::slice_to_vec(msg.as_str().as_bytes());
    let sig = sign(&kp, &msg_bytes);
    let signature = base64_encode(&sig);
    let public_key = base58_encode(&kp.public);
    proof {
        crate::keys::lemma_secret_bytes_round_trip(kp);
        assert(kp.secret_bytes_spec().subrange(0, 32) == kp.secret@);
        assert(kp.secret_bytes_spec().subrange(32, 64) == kp.public@);
    }
    Ok(SignMessageOutput { signature, public_key, message: msg })
}

/// Verifies a base64 signature over a message under a base58 public key.
/// The field checks come first, in request order; a decodable signature of
/// the right length and a parseable key always reach verification, whose
/// boolean verdict is carried in the output next to the message and the
/// key text.
pub fn verify_message(
    message: &Option<String>,
    signature: &Option<String>,
    pubkey: &Option<String>,
) -> (r: Result<VerifyMessageOutput, String>)
    ensures
        message is None ==> errs_with(r, missing_field_msg("message"@)),
        message matches Some(msg) ==> ({
            &&& msg@.len() == 0 ==> errs_with(r, empty_field_msg("message"@))
            &&& msg@.len() > 0 ==> ({
                &&& signature is None ==> errs_with(r, missing_field_msg("signature"@))
                &&& signature matches Some(sig_s) ==> ({
                    &&& sig_s@.len() == 0 ==> errs_with(r, empty_field_msg("signature"@))
                    &&& sig_s@.len() > 0 ==> ({
                        &&& pubkey is None ==> errs_with(r, missing_field_msg("pubkey"@))
                        &&& pubkey matches Some(pk_s) ==> ({
                            &&& pk_s@.len() == 0 ==> errs_with(r, empty_field_msg("pubkey"@))
                            &&& pk_s@.len() > 0 ==> verify_outcome(r, msg@, sig_s@, pk_s@)
                        })
                    })
                })
            })
        }),
{
    let msg = match validate_required_string(message, "message") {
        Ok(m) => m,
        Err(e) => {
            return Err(e);
        },
    };
    let sig_s = match validate_required_string(signature, "signature") {
        Ok(s) => s,
        Err(e) => {
            return Err(e);
        },
    };
    let pk_s = match validate_required_string(pubkey, "pubkey") {
        Ok(p) => p,
        Err(e) => {
            return Err(e);
        },
    };
    let sig_bytes = match base64_decode(sig_s.as_str()) {
        Ok(b) => b,
        Err(_) => {
            return Err(String::from_str("Invalid base64 signature"));
        },
    };
    if sig_bytes.len() != 64 {
        return Err(String::from_str("Invalid signature length"));
    }
    let pk = match PublicKey::from_base58(pk_s.as_str()) {
        Ok(pk) => pk,
        Err(_) => {
            return Err(String::from_str("Invalid base58 public key"));
        },
    };
    let msg_bytes = vstd::slice::slice_to_vec(msg.as_str().as_bytes());
    let valid = verify(&sig_bytes, &pk, &msg_bytes);
    Ok(VerifyMessageOutput { valid, message: msg, pubkey: pk_s })
}

/// What `verify_message` answers once every field is present and non-empty:
/// the decode failures in order, then the verification verdict over the
/// decoded signature and key bytes.
pub open spec fn verify_outcome(
    r: Result<VerifyMessageOutput, String>,
    msg: Seq<char>,
    sig_s: Seq<char>,
    pk_s: Seq<char>,
) -> bool {
    &&& (r matches Ok(out) ==> exists|sb: Seq<u8>, pb: Seq<u8>|
        #![trigger base64_of(sb), base58_of(pb)]
        {
            &&& base64_of(sb) == sig_s
            &&& sb.len() == 64
            &&& parses_to_key(pk_s, pb)
            &&& out.valid == ed25519_verifies(sb, pb, encode_utf8(msg))
            &&& out.message@ == msg
            &&& out.pubkey@ == pk_s
        })
    &&& (((exists|sb: Seq<u8>| #![trigger base64_of(sb)] base64_of(sb) == sig_s && sb.len() == 64)
        && (exists|pb: Seq<u8>| #![trigger base58_of(pb)] parses_to_key(pk_s, pb))) ==> r is Ok)
    &&& (!(exists|sb: Seq<u8>| #![trigger base64_of(sb)] base64_of(sb) == sig_s) ==> errs_with(
        r,
        "Invalid base64 signature"@,
    ))
    &&& (forall|sb: Seq<u8>|
        #![trigger base64_of(sb)]
        base64_of(sb) == sig_s && sb.len() != 64 ==> errs_with(r, "Invalid signature length"@))
    &&& (((exists|sb: Seq<u8>| #![trigger base64_of(sb)] base64_of(sb) == sig_s && sb.len() == 64)
        && !(exists|pb: Seq<u8>| #![trigger base58_of(pb)] parses_to_key(pk_s, pb))) ==> errs_with(
        r,
        "Invalid base58 public key"@,
    ))
}


/// One account role in its text form.
pub struct AccountRoleOutput {
    pub pubkey: String,
    pub is_signer: bool,
    pub is_writable: bool,
}

/// A value-transfer instruction in its text form: the program id and the
/// account keys in base58, the payload in base64.
pub struct SolTransferOutput {
    pub program_id: String,
    pub accounts: Vec<String>,
    pub instruction_data: String,
}

/// A token instruction in its text form: the program id and each account
/// role in base58 with its flags, the payload in base64.
pub struct TokenInstructionOutput {
    pub program_id: String,
    pub accounts: Vec<AccountRoleOutput>,
    pub instruction_data: String,
}

/// Whether the rendered role carries the base58 text of `key` and exactly
/// the given flags.
pub open spec fn role_out(a: AccountRoleOutput, key: Seq<u8>, is_signer: bool, is_writable: bool) -> bool {
    &&& a.pubkey@ == base58_of(key)
    &&& a.is_signer == is_signer
    &&& a.is_writable == is_writable
}

/// Renders a descriptor: base58 program id, the roles in order with their
/// flags, and the base64 payload.
fn descriptor_output(d: &InstructionDescriptor) -> (r: TokenInstructionOutput)
    ensures
        r.program_id@ == base58_of(d.program_id@),
        r.instruction_data@ == base64_of(d.payload@),
        r.accounts@.len() == d.roles@.len(),
        forall|i: int|
            0 <= i < d.roles@.len() ==> role_out(
                #[trigger] r.accounts@[i],
                d.roles@[i].key@,
                d.roles@[i].is_signer,
                d.roles@[i].is_writable,
            ),
{
    let program_id = base58_encode(&d.program_id.bytes);
    let instruction_data = base64_encode(&d.payload);
    let mut accounts: Vec<AccountRoleOutput> = Vec::new();
    let mut i: usize = 0;
    while i < d.roles.len()
        invariant
            i <= d.roles@.len(),
            accounts@.len() == i,
            forall|j: int|
                0 <= j < i ==> role_out(
                    #[trigger] accounts@[j],
                    d.roles@[j].key@,
                    d.roles@[j].is_signer,
                    d.roles@[j].is_writable,
                ),
        decreases d.roles@.len() - i,
    {
        let role = &d.roles[i];
        accounts.push(
            AccountRoleOutput {
                pubkey: base58_encode(&role.key.bytes),
                is_signer: role.is_signer,
                is_writable: role.is_writable,
            },
        );
        i = i + 1;
    }
    TokenInstructionOutput { program_id, accounts, instruction_data }
}

/// What `send_sol` answers once every field is present and the amount is
/// positive: the unparseable address failures in request order, then the
/// rendered value-transfer descriptor.
pub open spec fn sol_outcome(
    r: Result<SolTransferOutput, String>,
    from_s: Seq<char>,
    to_s: Seq<char>,
    lamports: u64,
) -> bool {
    &&& (!(exists|fb: Seq<u8>| #![trigger base58_of(fb)] parses_to_key(from_s, fb)) ==> errs_with(
        r,
        "Invalid 'from' address"@,
    ))
    &&& (((exists|fb: Seq<u8>| #![trigger base58_of(fb)] parses_to_key(from_s, fb)) && !(
    exists|tb: Seq<u8>| #![trigger base58_of(tb)] parses_to_key(to_s, tb))) ==> errs_with(
        r,
        "Invalid 'to' address"@,
    ))
    &&& (forall|fb: Seq<u8>, tb: Seq<u8>|
        #![trigger base58_of(fb), base58_of(tb)]
        parses_to_key(from_s, fb) && parses_to_key(to_s, tb) ==> (r matches Ok(out) && {
            &&& out.program_id@ == base58_of(system_program_id())
            &&& out.accounts@.len() == 2
            &&& out.accounts@[0]@ == base58_of(fb)
            &&& out.accounts@[1]@ == base58_of(tb)
            &&& out.instruction_data@ == base64_of(value_transfer_payload(lamports))
        }))
}

/// Builds a value transfer from text fields.  The presence and amount
/// checks come first, in request order, then address parsing; the rendered
/// descriptor carries the two account keys and the transfer payload.
pub fn send_sol(from: &Option<String>, to: &Option<String>, lamports: &Option<u64>) -> (r: Result<
    SolTransferOutput,
    String,
>)
    ensures
        missing_or_empty(*from) ==> errs_with(r, "Missing required fields"@),
        !missing_or_empty(*from) ==> ({
            &&& missing_or_empty(*to) ==> errs_with(r, "Missing required fields"@)
            &&& !missing_or_empty(*to) ==> ({
                &&& *lamports is None ==> errs_with(r, "Missing required fields"@)
                &&& *lamports matches Some(l) ==> ({
                    &&& l == 0 ==> errs_with(r, "Amount must be greater than 0"@)
                    &&& l > 0 ==> sol_outcome(r, from.unwrap()@, to.unwrap()@, l)
                })
            })
        }),
{
    let from_s = match from {
        Some(s) => {
            if s.as_str().is_empty() {
                return Err(String::from_str("Missing required fields"));
            } else {
                s
            }
        },
        None => {
            return Err(String::from_str("Missing required fields"));
        },
    };
    let to_s = match to {
        Some(s) => {
            if s.as_str().is_empty() {
                return Err(String::from_str("Missing required fields"));
            } else {
                s
            }
        },
        None => {
            return Err(String::from_str("Missing required fields"));
        },
    };
    let lamports_v: u64 = match lamports {
        Some(l) => {
            if *l == 0 {
                return Err(String::from_str("Amount must be greater than 0"));
            } else {
                *l
            }
        },
        None => {
            return Err(String::from_str("Missing required fields"));
        },
    };
    let from_pk = match PublicKey::from_base58(from_s.as_str()) {
        Ok(pk) => pk,
        Err(_) => {
            return Err(String::from_str("Invalid 'from' address"));
        },
    };
    let to_pk = match PublicKey::from_base58(to_s.as_str()) {
        Ok(pk) => pk,
        Err(_) => {
            return Err(String::from_str("Invalid 'to' address"));
        },
    };
    let d = build_value_transfer(&from_pk, &to_pk, lamports_v).unwrap();
    let program_id = base58_encode(&d.program_id.bytes);
    let instruction_data = base64_encode(&d.payload);
    let mut accounts: Vec<String> = Vec::new();
    accounts.push(base58_encode(&d.roles[0].key.bytes));
    accounts.push(base58_encode(&d.roles[1].key.bytes));
    Ok(SolTransferOutput { program_id, accounts, instruction_data })
}


/// What `send_token` answers once every field is present and the amount is
/// positive: the unparseable address failures in request order, then the
/// derivation outcome, then the rendered asset-transfer descriptor over the
/// two derived accounts.
pub open spec fn send_token_outcome(
    r: Result<TokenInstructionOutput, String>,
    dest_s: Seq<char>,
    mint_s: Seq<char>,
    owner_s: Seq<char>,
    amount: u64,
) -> bool {
    &&& (!(exists|db: Seq<u8>| #![trigger base58_of(db)] parses_to_key(dest_s, db)) ==> errs_with(
        r,
        "Invalid destination address"@,
    ))
    &&& (((exists|db: Seq<u8>| #![trigger base58_of(db)] parses_to_key(dest_s, db)) && !(
    exists|mb: Seq<u8>| #![trigger base58_of(mb)] parses_to_key(mint_s, mb))) ==> errs_with(
        r,
        "Invalid mint address"@,
    ))
    &&& (((exists|db: Seq<u8>| #![trigger base58_of(db)] parses_to_key(dest_s, db)) && (
    exists|mb: Seq<u8>| #![trigger base58_of(mb)] parses_to_key(mint_s, mb)) && !(
    exists|ob: Seq<u8>| #![trigger base58_of(ob)] parses_to_key(owner_s, ob))) ==> errs_with(
        r,
        "Invalid owner address"@,
    ))
    &&& (forall|db: Seq<u8>, mb: Seq<u8>, ob: Seq<u8>|
        #![trigger base58_of(db), base58_of(mb), base58_of(ob)]
        parses_to_key(dest_s, db) && parses_to_key(mint_s, mb) && parses_to_key(owner_s, ob)
            ==> ({
            let src = derive_spec(associated_seeds(ob, mb), associated_program_id());
            let dst = derive_spec(associated_seeds(db, mb), associated_program_id());
            &&& ((src is None || dst is None) ==> errs_with(
                r,
                "Failed to create transfer instruction"@,
            ))
            &&& (src matches Some(sd) ==> (dst matches Some(dd) ==> (r matches Ok(out) && {
                &&& out.program_id@ == base58_of(token_program_id())
                &&& out.accounts@.len() == 3
                &&& role_out(out.accounts@[0], sd, false, true)
                &&& role_out(out.accounts@[1], dd, false, true)
                &&& role_out(out.accounts@[2], ob, true, false)
                &&& out.instruction_data@ == base64_of(asset_transfer_payload(amount))
            })))
        }))
}

/// Builds a token-to-token transfer from text fields.  The presence and
/// amount checks come first, in request order, then address parsing; the
/// source and destination accounts are the owners' derived associated
/// accounts for the asset.
pub fn send_token(
    destination: &Option<String>,
    mint: &Option<String>,
    owner: &Option<String>,
    amount: &Option<u64>,
) -> (r: Result<TokenInstructionOutput, String>)
    ensures
        missing_or_empty(*destination) ==> errs_with(r, "Missing required fields"@),
        !missing_or_empty(*destination) ==> ({
            &&& missing_or_empty(*mint) ==> errs_with(r, "Missing required fields"@)
            &&& !missing_or_empty(*mint) ==> ({
                &&& missing_or_empty(*owner) ==> errs_with(r, "Missing required fields"@)
                &&& !missing_or_empty(*owner) ==> ({
                    &&& *amount is None ==> errs_with(r, "Missing required fields"@)
                    &&& *amount matches Some(a) ==> ({
                        &&& a == 0 ==> errs_with(r, "Amount must be greater than 0"@)
                        &&& a > 0 ==> send_token_outcome(
                            r,
                            destination.unwrap()@,
                            mint.unwrap()@,
                            owner.unwrap()@,
                            a,
                        )
                    })
                })
            })
        }),
{
    let dest_s = match destination {
        Some(s) => {
            if s.as_str().is_empty() {
                return Err(String::from_str("Missing required fields"));
            } else {
                s
            }
        },
        None => {
            return Err(String::from_str("Missing required fields"));
        },
    };
    let mint_s = match mint {
        Some(s) => {
            if s.as_str().is_empty() {
                return Err(String::from_str("Missing required fields"));
            } else {
                s
            }
        },
        None => {
            return Err(String::from_str("Missing required fields"));
        },
    };
    let owner_s = match owner {
        Some(s) => {
            if s.as_str().is_empty() {
                return Err(String::from_str("Missing required fields"));
            } else {
                s
            }
        },
        None => {
            return Err(String::from_str("Missing required fields"));
        },
    };
    let amount_v: u64 = match amount {
        Some(a) => {
            if *a == 0 {
                return Err(String::from_str("Amount must be greater than 0"));
            } else {
                *a
            }
        },
        None => {
            return Err(String::from_str("Missing required fields"));
        },
    };
    let dest_pk = match PublicKey::from_base58(dest_s.as_str()) {
        Ok(pk) => pk,
        Err(_) => {
            return Err(String::from_str("Invalid destination address"));
        },
    };
    let mint_pk = match PublicKey::from_base58(mint_s.as_str()) {
        Ok(pk) => pk,
        Err(_) => {
            return Err(String::from_str("Invalid mint address"));
        },
    };
    let owner_pk = match PublicKey::from_base58(owner_s.as_str()) {
        Ok(pk) => pk,
        Err(_) => {
            return Err(String::from_str("Invalid owner address"));
        },
    };
    let d = match build_asset_transfer(&owner_pk, &dest_pk, &mint_pk, amount_v) {
        Ok(d) => d,
        Err(_) => {
            return Err(String::from_str("Failed to create transfer instruction"));
        },
    };
    Ok(descriptor_output(&d))
}


/// What `create_token` answers once every field is present: the
/// unparseable address failures in request order, then the rendered
/// asset-initialization descriptor.
pub open spec fn create_token_outcome(
    r: Result<TokenInstructionOutput, String>,
    authority_s: Seq<char>,
    mint_s: Seq<char>,
    decimals: u8,
) -> bool {
    &&& (!(exists|ab: Seq<u8>| #![trigger base58_of(ab)] parses_to_key(authority_s, ab))
        ==> errs_with(r, "Invalid mint authority address"@))
    &&& (((exists|ab: Seq<u8>| #![trigger base58_of(ab)] parses_to_key(authority_s, ab)) && !(
    exists|mb: Seq<u8>| #![trigger base58_of(mb)] parses_to_key(mint_s, mb))) ==> errs_with(
        r,
        "Invalid mint address"@,
    ))
    &&& (forall|ab: Seq<u8>, mb: Seq<u8>|
        #![trigger base58_of(ab), base58_of(mb)]
        parses_to_key(authority_s, ab) && parses_to_key(mint_s, mb) ==> (r matches Ok(out) && {
            &&& out.program_id@ == base58_of(token_program_id())
            &&& out.accounts@.len() == 2
            &&& role_out(out.accounts@[0], mb, false, true)
            &&& role_out(out.accounts@[1], rent_sysvar_id(), false, false)
            &&& out.instruction_data@ == base64_of(initialize_asset_payload(decimals, ab))
        }))
}

/// Builds an asset initialization from text fields.  The presence checks
/// come first, in request order, then address parsing; the descriptor
/// carries the asset account, the rent sysvar reference, and the payload
/// with the authority and decimals.
pub fn create_token(
    mint_authority: &Option<String>,
    mint: &Option<String>,
    decimals: &Option<u8>,
) -> (r: Result<TokenInstructionOutput, String>)
    ensures
        missing_or_empty(*mint_authority) ==> errs_with(r, "Missing required fields"@),
        !missing_or_empty(*mint_authority) ==> ({
            &&& missing_or_empty(*mint) ==> errs_with(r, "Missing required fields"@)
            &&& !missing_or_empty(*mint) ==> ({
                &&& *decimals is None ==> errs_with(r, "Missing required fields"@)
                &&& *decimals matches Some(dec) ==> create_token_outcome(
                    r,
                    mint_authority.unwrap()@,
                    mint.unwrap()@,
                    dec,
                )
            })
        }),
{
    let authority_s = match mint_authority {
        Some(s) => {
            if s.as_str().is_empty() {
                return Err(String::from_str("Missing required fields"));
            } else {
                s
            }
        },
        None => {
            return Err(String::from_str("Missing required fields"));
        },
    };
    let mint_s = match mint {
        Some(s) => {
            if s.as_str().is_empty() {
                return Err(String::from_str("Missing required fields"));
            } else {
                s
            }
        },
        None => {
            return Err(String::from_str("Missing required fields"));
        },
    };
    let decimals_v: u8 = match decimals {
        Some(d) => *d,
        None => {
            return Err(String::from_str("Missing required fields"));
        },
    };
    let authority_pk = match PublicKey::from_base58(authority_s.as_str()) {
        Ok(pk) => pk,
        Err(_) => {
            return Err(String::from_str("Invalid mint authority address"));
        },
    };
    let mint_pk = match PublicKey::from_base58(mint_s.as_str()) {
        Ok(pk) => pk,
        Err(_) => {
            return Err(String::from_str("Invalid mint address"));
        },
    };
    let d = build_initialize_asset(&mint_pk, &authority_pk, decimals_v).unwrap();
    Ok(descriptor_output(&d))
}

/// What `mint_token` answers once every field is present and the amount is
/// positive: the unparseable address failures in request order, then the
/// derivation outcome, then the rendered mint-to descriptor over the
/// destination owner's derived account.
pub open spec fn mint_token_outcome(
    r: Result<TokenInstructionOutput, String>,
    mint_s: Seq<char>,
    dest_s: Seq<char>,
    authority_s: Seq<char>,
    amount: u64,
) -> bool {
    &&& (!(exists|mb: Seq<u8>| #![trigger base58_of(mb)] parses_to_key(mint_s, mb)) ==> errs_with(
        r,
        "Invalid mint address"@,
    ))
    &&& (((exists|mb: Seq<u8>| #![trigger base58_of(mb)] parses_to_key(mint_s, mb)) && !(
    exists|db: Seq<u8>| #![trigger base58_of(db)] parses_to_key(dest_s, db))) ==> errs_with(
        r,
        "Invalid destination address"@,
    ))
    &&& (((exists|mb: Seq<u8>| #![trigger base58_of(mb)] parses_to_key(mint_s, mb)) && (
    exists|db: Seq<u8>| #![trigger base58_of(db)] parses_to_key(dest_s, db)) && !(
    exists|ab: Seq<u8>| #![trigger base58_of(ab)] parses_to_key(authority_s, ab))) ==> errs_with(
        r,
        "Invalid authority address"@,
    ))
    &&& (forall|mb: Seq<u8>, db: Seq<u8>, ab: Seq<u8>|
        #![trigger base58_of(mb), base58_of(db), base58_of(ab)]
        parses_to_key(mint_s, mb) && parses_to_key(dest_s, db) && parses_to_key(authority_s, ab)
            ==> ({
            let dst = derive_spec(associated_seeds(db, mb), associated_program_id());
            &&& (dst is None ==> errs_with(r, "Failed to create mint instruction"@))
            &&& (dst matches Some(dd) ==> (r matches Ok(out) && {
                &&& out.program_id@ == base58_of(token_program_id())
                &&& out.accounts@.len() == 3
                &&& role_out(out.accounts@[0], mb, false, true)
                &&& role_out(out.accounts@[1], dd, false, true)
                &&& role_out(out.accounts@[2], ab, true, false)
                &&& out.instruction_data@ == base64_of(mint_to_payload(amount))
            }))
        }))
}

/// Builds a mint-to from text fields.  The presence and amount checks come
/// first, in request order, then address parsing; the credited account is
/// the destination owner's derived associated account for the asset.
pub fn mint_token(
    mint: &Option<String>,
    destination: &Option<String>,
    authority: &Option<String>,
    amount: &Option<u64>,
) -> (r: Result<TokenInstructionOutput, String>)
    ensures
        missing_or_empty(*mint) ==> errs_with(r, "Missing required fields"@),
        !missing_or_empty(*mint) ==> ({
            &&& missing_or_empty(*destination) ==> errs_with(r, "Missing required fields"@)
            &&& !missing_or_empty(*destination) ==> ({
                &&& missing_or_empty(*authority) ==> errs_with(r, "Missing required fields"@)
                &&& !missing_or_empty(*authority) ==> ({
                    &&& *amount is None ==> errs_with(r, "Missing required fields"@)
                    &&& *amount matches Some(a) ==> ({
                        &&& a == 0 ==> errs_with(r, "Amount must be greater than 0"@)
                        &&& a > 0 ==> mint_token_outcome(
                            r,
                            mint.unwrap()@,
                            destination.unwrap()@,
                            authority.unwrap()@,
                            a,
                        )
                    })
                })
            })
        }),
{
    let mint_s = match mint {
        Some(s) => {
            if s.as_str().is_empty() {
                return Err(String::from_str("Missing required fields"));
            } else {
                s
            }
        },
        None => {
            return Err(String::from_str("Missing required fields"));
        },
    };
    let dest_s = match destination {
        Some(s) => {
            if s.as_str().is_empty() {
                return Err(String::from_str("Missing required fields"));
            } else {
                s
            }
        },
        None => {
            return Err(String::from_str("Missing required fields"));
        },
    };
    let authority_s = match authority {
        Some(s) => {
            if s.as_str().is_empty() {
                return Err(String::from_str("Missing required fields"));
            } else {
                s
            }
        },
        None => {
            return Err(String::from_str("Missing required fields"));
        },
    };
    let amount_v: u64 = match amount {
        Some(a) => {
            if *a == 0 {
                return Err(String::from_str("Amount must be greater than 0"));
            } else {
                *a
            }
        },
        None => {
            return Err(String::from_str("Missing required fields"));
        },
    };
    let mint_pk = match PublicKey::from_base58(mint_s.as_str()) {
        Ok(pk) => pk,
        Err(_) => {
            return Err(String::from_str("Invalid mint address"));
        },
    };
    let dest_pk = match PublicKey::from_base58(dest_s.as_str()) {
        Ok(pk) => pk,
        Err(_) => {
            return Err(String::from_str("Invalid destination address"));
        },
    };
    let authority_pk = match PublicKey::from_base58(authority_s.as_str()) {
        Ok(pk) => pk,
        Err(_) => {
            return Err(String::from_str("Invalid authority address"));
        },
    };
    let d = match build_mint_to(&mint_pk, &dest_pk, &authority_pk, amount_v) {
        Ok(d) => d,
        Err(_) => {
            return Err(String::from_str("Failed to create mint instruction"));
        },
    };
    Ok(descriptor_output(&d))
}

} // verus!
