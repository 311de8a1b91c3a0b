//! The chain-facing half of a dispatch: the checks made before any network
//! call, the JSON-RPC batch that fetches fee and nonce, the reading of its
//! answers, the ERC20 call data, offline signing, and the full rendering of
//! the transaction hash.
use ethers_core::types::transaction::eip2718::TypedTransaction;
use ethers_core::types::{Eip1559TransactionRequest, H160, U256};
use ethers_signers::{LocalWallet, Signer};
use vstd::prelude::*;
use crate::error::AppError;
use crate::schema::Msg;
use crate::setting::Setting;
use crate::text::{hex_of, lemma_hex_len, push_hex_byte, starts_with_seq};

verus! {

/// Gas limit set on every transfer.
pub const GAS_LIMIT: u64 = 50000;

/// The largest chain id the signer handles: EIP-155 folds
/// `recovery_id + 35 + 2 * chain_id` into the 64-bit `v` of a signature, and
/// the recovery id can be as large as 3.
pub const MAX_CHAIN_ID: u64 = 9223372036854775788;

/// Whether `c` is a hex digit, in either case.
pub open spec fn is_hex_digit(c: char) -> bool {
    ('0' <= c && c <= '9') || ('a' <= c && c <= 'f') || ('A' <= c && c <= 'F')
}

/// The value of a hex digit.
pub open spec fn hex_digit_value(c: char) -> nat {
    if '0' <= c && c <= '9' {
        (c as u32 - '0' as u32) as nat
    } else if 'a' <= c && c <= 'f' {
        (c as u32 - 'a' as u32 + 10) as nat
    } else {
        (c as u32 - 'A' as u32 + 10) as nat
    }
}

/// The whitespace that the address parser skips between digits.
pub open spec fn is_hex_space(c: char) -> bool {
    c == ' ' || c == '\r' || c == '\n' || c == '\t'
}

/// `s` without a leading `0x`, if it has one.
pub open spec fn without_hex_prefix(s: Seq<char>) -> Seq<char> {
    if starts_with_seq(s, seq!['0', 'x']) {
        s.skip(2)
    } else {
        s
    }
}

/// What the ethers address parser reads from `s`: after an optional `0x`,
/// and with spaces, tabs, CR and LF skipped, exactly forty hex digits, taken
/// as twenty big-endian bytes.
pub open spec fn address_bytes(s: Seq<char>) -> Option<Seq<u8>> {
    let d = without_hex_prefix(s).filter(|c: char| !is_hex_space(c));
    if d.len() == 40 && forall|i: int| 0 <= i < 40 ==> is_hex_digit(#[trigger] d[i]) {
        Some(
            Seq::new(
                20,
                |i: int| (16 * hex_digit_value(d[2 * i]) + hex_digit_value(d[2 * i + 1])) as u8,
            ),
        )
    } else {
        None
    }
}

/// The number that a sequence of hex digits spells, most significant first.
pub open spec fn hex_number(d: Seq<char>) -> nat
    decreases d.len(),
{
    if d.len() == 0 {
        0
    } else {
        hex_number(d.drop_last()) * 16 + hex_digit_value(d.last())
    }
}

/// What the 256-bit quantity parser reads from `s`: after an optional `0x`,
/// at most sixty-four hex digits (none at all reads as zero).
pub open spec fn quantity_value(s: Seq<char>) -> Option<nat> {
    let d = without_hex_prefix(s);
    if d.len() <= 64 && forall|i: int| 0 <= i < d.len() ==> is_hex_digit(#[trigger] d[i]) {
        Some(hex_number(d))
    } else {
        None
    }
}

/// The number held by four little-endian 64-bit limbs.
pub open spec fn limbs_value(q: Seq<u64>) -> nat {
    (q[0] + q[1] * 0x1_0000_0000_0000_0000 + q[2] * 0x1_0000_0000_0000_0000_0000_0000_0000_0000
        + q[3] * 0x1_0000_0000_0000_0000_0000_0000_0000_0000_0000_0000_0000_0000) as nat
}

/// Whether `s` is accepted as a hex-encoded secp256k1 signing key.
pub uninterp spec fn signing_key_accepted(s: Seq<char>) -> bool;

/// Relies on `H160::from_str` of ethers-core (fixed-hash), the parser of
/// `Address`, which reads the digits with rustc-hex's `FromHexIter`: an
/// optional `0x`, then exactly forty hex digits, with spaces, tabs, CR and LF
/// skipped. The error is rustc-hex's.
#[verifier::external_body]
fn parse_address(s: &str) -> (r: Result<[u8; 20], String>)
    ensures
        match r {
            Ok(a) => address_bytes(s@) == Some(a@),
            Err(_) => address_bytes(s@) is None,
        },
{
    s.parse::<H160>().map(|a| a.0).map_err(|e| e.to_string())
}

/// Relies on `U256::from_str` of ethers-core (uint): an optional `0x`, then at
/// most sixty-four hex digits decoded big-endian into little-endian limbs
/// (odd lengths are padded with a leading zero). The error is uint's
/// `FromHexError`.
#[verifier::external_body]
fn parse_quantity(s: &str) -> (r: Result<[u64; 4], String>)
    ensures
        match r {
            Ok(q) => quantity_value(s@) == Some(limbs_value(q@)),
            Err(_) => quantity_value(s@) is None,
        },
{
    s.parse::<U256>().map(|q| q.0).map_err(|e| e.to_string())
}

/// Relies on `LocalWallet::from_str` of ethers-signers: decodes the hex text
/// into 32 bytes and builds a signing key from them, or fails with a
/// `WalletError`. Used to reject a bad key before any network call; the
/// wallet itself is rebuilt where the transaction is signed.
#[verifier::external_body]
fn check_signing_key(s: &str) -> (r: Result<(), String>)
    ensures
        r is Ok <==> signing_key_accepted(s@),
{
    s.parse::<LocalWallet>().map(|_| ()).map_err(|e| e.to_string())
}

/// Address and key material of an account, as looked up per dispatch.
#[derive(Clone, Debug)]
pub struct AccountRecord {
    pub address: String,
    pub private_key: String,
}

/// A transfer whose addresses and key have been checked, ready for the fee
/// query, signing and broadcast.
#[derive(Clone, Debug)]
pub struct PreparedTransfer {
    pub contract: [u8; 20],
    pub from: [u8; 20],
    pub to: [u8; 20],
    /// The signing key's hex digits, without their `0x` prefix.
    pub signing_key: String,
    pub amount: u64,
    pub gas_limit: u64,
}

/// The prefix a private key must carry.
pub open spec fn key_prefix() -> Seq<char> {
    seq!['0', 'x']
}

/// The three addresses of a transfer all parse.
pub open spec fn addresses_parse(contract: Seq<char>, from: Seq<char>, to: Seq<char>) -> bool {
    address_bytes(from) is Some && address_bytes(to) is Some && address_bytes(contract) is Some
}

/// Every check made before the network holds.
pub open spec fn transfer_accepted(contract: Seq<char>, from: &AccountRecord, to: &AccountRecord) -> bool {
    &&& addresses_parse(contract, from.address@, to.address@)
    &&& starts_with_seq(from.private_key@, key_prefix())
    &&& signing_key_accepted(from.private_key@.skip(2))
}

/// Strips the `0x` prefix of a private key.
pub fn strip_key_prefix(key: &str) -> (r: Option<&str>)
    ensures
        match r {
            Some(rest) => starts_with_seq(key@, key_prefix()) && rest@ == key@.skip(2),
            None => !starts_with_seq(key@, key_prefix()),
        },
{
    let n = key.unicode_len();
    if n < 2 {
        return None;
    }
    if key.get_char(0) != '0' || key.get_char(1) != 'x' {
        assert(key@.subrange(0, 2)[0] == key@[0]);
        assert(key@.subrange(0, 2)[1] == key@[1]);
        return None;
    }
    assert(key@.subrange(0, 2) =~= key_prefix());
    let rest = key.substring_char(2, n);
    assert(rest@ =~= key@.skip(2));
    Some(rest)
}

/// Resolves the contract of the request's token and checks the from, to and
/// contract addresses, then the key's `0x` prefix, then the key itself. No
/// network call is made: a malformed key never reaches the RPC endpoint.
pub fn prepare_transfer(setting: &Setting, msg: &Msg, from: &AccountRecord, to: &AccountRecord) -> (r:
    Result<PreparedTransfer, AppError>)
    requires
        msg.point >= 0,
    ensures
        ({
            let contract = setting.spec_contract_address(msg.coin_code);
            &&& !addresses_parse(contract, from.address@, to.address@) ==> (r matches Err(AppError::FromHexError2(_)))
            &&& addresses_parse(contract, from.address@, to.address@) && !starts_with_seq(
                from.private_key@,
                key_prefix(),
            ) ==> (r matches Err(AppError::PrivateKeyError))
            &&& addresses_parse(contract, from.address@, to.address@) && starts_with_seq(
                from.private_key@,
                key_prefix(),
            ) && !signing_key_accepted(from.private_key@.skip(2)) ==> (r matches Err(AppError::WalletError(_)))
            &&& transfer_accepted(contract, from, to) <==> r is Ok
            &&& (r matches Ok(p) ==> {
                &&& address_bytes(contract) == Some(p.contract@)
                &&& address_bytes(from.address@) == Some(p.from@)
                &&& address_bytes(to.address@) == Some(p.to@)
                &&& p.signing_key@ == from.private_key@.skip(2)
                &&& p.amount == msg.point
                &&& p.gas_limit == GAS_LIMIT
            })
        }),
{
    let contract_text = setting.contract_address(msg.coin_code);
    let from_addr = match parse_address(from.address.as_str()) {
        Ok(a) => a,
        Err(e) => return Err(AppError::FromHexError2(e)),
    };
    let to_addr = match parse_address(to.address.as_str()) {
        Ok(a) => a,
        Err(e) => return Err(AppError::FromHexError2(e)),
    };
    let contract = match parse_address(contract_text.as_str()) {
        Ok(a) => a,
        Err(e) => return Err(AppError::FromHexError2(e)),
    };
    let key = match strip_key_prefix(from.private_key.as_str()) {
        Some(k) => k,
        None => return Err(AppError::PrivateKeyError),
    };
    match check_signing_key(key) {
        Ok(()) => {},
        Err(e) => return Err(AppError::WalletError(e)),
    }
    Ok(
        PreparedTransfer {
            contract,
            from: from_addr,
            to: to_addr,
            signing_key: String::from_str(key),
            amount: msg.point as u64,
            gas_limit: GAS_LIMIT,
        },
    )
}

/// `0x` followed by the full hex of `bytes`, as JSON-RPC renders data.
pub open spec fn prefixed_hex(bytes: Seq<u8>) -> Seq<char> {
    seq!['0', 'x'] + hex_of(bytes)
}

/// Renders bytes as `0x` and two lower-case hex digits per byte, nothing elided.
pub fn to_prefixed_hex(bytes: &[u8]) -> (r: String)
    ensures
        r@ == prefixed_hex(bytes@),
        r@.len() == 2 + 2 * bytes@.len(),
{
    let mut out = String::from_str("0x");
    proof {
        reveal_strlit("0x");
    }
    let mut i: usize = 0;
    while i < bytes.len()
        invariant
            i <= bytes@.len(),
            out@ == seq!['0', 'x'] + hex_of(bytes@.subrange(0, i as int)),
        decreases bytes@.len() - i,
    {
        let ghost before = out@;
        push_hex_byte(&mut out, bytes[i]);
        proof {
            let next = bytes@.subrange(0, i + 1);
            assert(next.drop_last() =~= bytes@.subrange(0, i as int));
            assert(next.last() == bytes@[i as int]);
            assert(out@ =~= seq!['0', 'x'] + hex_of(next));
        }
        i = i + 1;
    }
    assert(bytes@.subrange(0, bytes@.len() as int) =~= bytes@);
    proof {
        lemma_hex_len(bytes@);
    }
    out
}

/// Gas price and nonce read from the fee query, as little-endian 64-bit limbs.
#[derive(Clone, Copy, Debug)]
pub struct FeeQuote {
    pub gas_price: [u64; 4],
    pub nonce: [u64; 4],
}

/// The JSON-RPC batch asking for the gas price and for the nonce of `from`
/// at the latest block.
pub open spec fn fee_query_text(from: Seq<u8>) -> Seq<char> {
    "[{\"jsonrpc\":\"2.0\",\"method\":\"eth_gasPrice\",\"params\":[],\"id\":1},{\"jsonrpc\":\"2.0\",\"method\":\"eth_getTransactionCount\",\"params\":[\""@
        + prefixed_hex(from) + "\",\"latest\"],\"id\":2}]"@
}

/// Builds the fee query for a prepared transfer.
pub fn fee_query_body(transfer: &PreparedTransfer) -> (r: String)
    ensures
        r@ == fee_query_text(transfer.from@),
{
    let head = String::from_str(
        "[{\"jsonrpc\":\"2.0\",\"method\":\"eth_gasPrice\",\"params\":[],\"id\":1},{\"jsonrpc\":\"2.0\",\"method\":\"eth_getTransactionCount\",\"params\":[\"",
    );
    let addr = to_prefixed_hex(&transfer.from);
    head.concat(addr.as_str()).concat("\",\"latest\"],\"id\":2}]")
}

/// Reads one quantity from the `result` field of an RPC answer (`None` when
/// the field is absent or not a string).
pub fn read_quantity(result: &Option<String>) -> (r: Result<[u64; 4], AppError>)
    ensures
        match result {
            None => r matches Err(AppError::KeyError(k)) && k@ == "result"@,
            Some(s) => match r {
                Ok(q) => quantity_value(s@) == Some(limbs_value(q@)),
                Err(e) => quantity_value(s@) is None && e is FromHexError,
            },
        },
{
    match result {
        None => Err(AppError::KeyError(String::from_str("result"))),
        Some(s) => match parse_quantity(s.as_str()) {
            Ok(q) => Ok(q),
            Err(e) => Err(AppError::FromHexError(e)),
        },
    }
}

/// Reads the answers to the fee query: gas price first, then nonce.
pub fn read_fee_quote(gas_price_result: &Option<String>, nonce_result: &Option<String>) -> (r:
    Result<FeeQuote, AppError>)
    ensures
        match gas_price_result {
            None => r matches Err(AppError::KeyError(k)) && k@ == "result"@,
            Some(g) => match quantity_value(g@) {
                None => r matches Err(AppError::FromHexError(_)),
                Some(gp) => match nonce_result {
                    None => r matches Err(AppError::KeyError(k)) && k@ == "result"@,
                    Some(n) => match r {
                        Ok(q) => gp == limbs_value(q.gas_price@) && quantity_value(n@) == Some(
                            limbs_value(q.nonce@),
                        ),
                        Err(e) => quantity_value(n@) is None && e is FromHexError,
                    },
                },
            },
        },
{
    let gas_price = match read_quantity(gas_price_result) {
        Ok(q) => q,
        Err(e) => return Err(e),
    };
    let nonce = match read_quantity(nonce_result) {
        Ok(q) => q,
        Err(e) => return Err(e),
    };
    Ok(FeeQuote { gas_price, nonce })
}

/// The ERC20 `transfer(address,uint256)` selector.
pub open spec fn transfer_selector() -> Seq<u8> {
    seq![0xa9u8, 0x05u8, 0x9cu8, 0xbbu8]
}

/// `n` zero bytes.
pub open spec fn zeros(n: nat) -> Seq<u8> {
    Seq::new(n, |i: int| 0u8)
}

/// The eight big-endian bytes of `v`.
pub open spec fn be_bytes(v: u64) -> Seq<u8> {
    Seq::new(8, |i: int| (v >> ((56 - 8 * i) as u64)) as u8)
}

/// ABI call data of `transfer(to, amount)`: the selector, then the address
/// and the amount, each left-padded to a 32-byte word.
pub open spec fn transfer_call_data(to: Seq<u8>, amount: u64) -> Seq<u8> {
    transfer_selector() + zeros(12) + to + zeros(24) + be_bytes(amount)
}

/// Appends `n` zero bytes.
fn push_zeros(out: &mut Vec<u8>, n: usize)
    ensures
        final(out)@ == old(out)@ + zeros(n as nat),
{
    let mut k: usize = 0;
    while k < n
        invariant
            k <= n,
            out@ == old(out)@ + zeros(k as nat),
        decreases n - k,
    {
        out.push(0u8);
        k = k + 1;
        assert(out@ =~= old(out)@ + zeros(k as nat));
    }
}

/// Encodes the call data of `transfer(to, amount)`.
pub fn transfer_data(to: &[u8; 20], amount: u64) -> (r: Vec<u8>)
    ensures
        r@ == transfer_call_data(to@, amount),
        r@.len() == 68,
{
    let mut out: Vec<u8> = vec![0xa9u8, 0x05u8, 0x9cu8, 0xbbu8];
    assert(out@ =~= transfer_selector());
    push_zeros(&mut out, 12);
    let mut i: usize = 0;
    while i < 20
        invariant
            i <= 20,
            out@ == transfer_selector() + zeros(12) + to@.subrange(0, i as int),
        decreases 20 - i,
    {
        out.push(to[i]);
        i = i + 1;
        assert(out@ =~= transfer_selector() + zeros(12) + to@.subrange(0, i as int));
    }
    assert(to@.subrange(0, 20) =~= to@);
    push_zeros(&mut out, 24);
    let ghost head = out@;
    let mut k: usize = 0;
    while k < 8
        invariant
            k <= 8,
            head == transfer_selector() + zeros(12) + to@ + zeros(24),
            out@ == head + be_bytes(amount).subrange(0, k as int),
        decreases 8 - k,
    {
        let shift: u64 = 56 - 8 * (k as u64);
        out.push((amount >> shift) as u8);
        k = k + 1;
        assert(out@ =~= head + be_bytes(amount).subrange(0, k as int));
    }
    assert(be_bytes(amount).subrange(0, 8) =~= be_bytes(amount));
    out
}

/// The signed, RLP-encoded transaction that the ethers signer produces for
/// these fields, if the key is accepted.
pub uninterp spec fn signed_transaction(
    key: Seq<char>,
    chain_id: u64,
    contract: Seq<u8>,
    from: Seq<u8>,
    gas_limit: u64,
    gas_price: Seq<u64>,
    nonce: Seq<u64>,
    data: Seq<u8>,
) -> Option<Seq<u8>>;

/// Relies on ethers-signers' `LocalWallet::from_str`, `with_chain_id` and
/// `sign_transaction_sync` (deterministic RFC 6979 signing) and on
/// ethers-core's `TypedTransaction::set_gas_price` and `rlp_signed`. The
/// signer computes `recovery_id + 35 + 2 * chain_id` in 64 bits, with a
/// recovery id of at most 3, hence the bound on `chain_id`.
#[verifier::external_body]
fn sign_transaction(
    key: &str,
    chain_id: u64,
    contract: [u8; 20],
    from: [u8; 20],
    gas_limit: u64,
    gas_price: [u64; 4],
    nonce: [u64; 4],
    data: Vec<u8>,
) -> (r: Result<Vec<u8>, String>)
    requires
        chain_id <= MAX_CHAIN_ID,
    ensures
        match r {
            Ok(b) => signed_transaction(key@, chain_id, contract@, from@, gas_limit, gas_price@, nonce@, data@) == Some(b@),
            Err(_) => signed_transaction(key@, chain_id, contract@, from@, gas_limit, gas_price@, nonce@, data@) is None,
        },
{
    let wallet = key.parse::<LocalWallet>().map_err(|e| e.to_string())?.with_chain_id(chain_id);
    let mut tx: TypedTransaction = Eip1559TransactionRequest::new().chain_id(chain_id)
        .to(H160(contract)).from(H160(from)).gas(gas_limit).nonce(U256(nonce)).data(data).into();
    tx.set_gas_price(U256(gas_price));
    let signature = wallet.sign_transaction_sync(&tx).map_err(|e| e.to_string())?;
    Ok(tx.rlp_signed(&signature).to_vec())
}

/// Builds and signs the transfer offline with the chain-bound key: the
/// contract is called with `transfer(to, amount)`, the fixed gas limit and the
/// fetched gas price and nonce. No key material leaves the process.
pub fn sign_transfer(transfer: &PreparedTransfer, quote: &FeeQuote, chain_id: u64) -> (r: Result<
    Vec<u8>,
    AppError,
>)
    requires
        chain_id <= MAX_CHAIN_ID,
    ensures
        ({
            let signed = signed_transaction(
                transfer.signing_key@,
                chain_id,
                transfer.contract@,
                transfer.from@,
                transfer.gas_limit,
                quote.gas_price@,
                quote.nonce@,
                transfer_call_data(transfer.to@, transfer.amount),
            );
            match r {
                Ok(b) => signed == Some(b@),
                Err(e) => signed is None && e is WalletError,
            }
        }),
{
    let data = transfer_data(&transfer.to, transfer.amount);
    match sign_transaction(
        transfer.signing_key.as_str(),
        chain_id,
        transfer.contract,
        transfer.from,
        transfer.gas_limit,
        quote.gas_price,
        quote.nonce,
        data,
    ) {
        Ok(b) => Ok(b),
        Err(e) => Err(AppError::WalletError(e)),
    }
}

/// A transaction hash, rendered in full.
#[derive(Clone, Copy, Debug)]
pub struct FixedH256(pub [u8; 32]);

impl FixedH256 {
    /// `0x` and all 64 hex digits of the hash, with no ellipsis.
    pub fn to_hex_string(&self) -> (r: String)
        ensures
            r@ == prefixed_hex(self.0@),
            r@.len() == 66,
    {
        to_prefixed_hex(&self.0)
    }
}

} // verus!
