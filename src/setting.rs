//! The immutable configuration shared by the ingestion stage and the workers.
use vstd::prelude::*;
use crate::model::TokenCode;

verus! {

/// Queue, RPC and token-registry configuration, fixed at startup.
#[derive(Clone, Debug)]
pub struct Setting {
    pub pulsar_addr: String,
    pub topic: String,
    pub sub_name: String,
    pub rpc: String,
    pub batch_size: i32,
    pub token_a: String,
    pub token_b: String,
    pub token_c: String,
    pub token_d: String,
    pub token_e: String,
}

/// Worker count used when the configured one does not parse.
pub const DEFAULT_BATCH_SIZE: i32 = 40;

impl Setting {
    /// The registry entry of a token.
    pub open spec fn spec_contract_address(&self, code: TokenCode) -> Seq<char> {
        match code {
            TokenCode::TokenA => self.token_a@,
            TokenCode::TokenB => self.token_b@,
            TokenCode::TokenC => self.token_c@,
            TokenCode::TokenD => self.token_d@,
            TokenCode::TokenE => self.token_e@,
        }
    }

    /// Contract address of a token: a total mapping over the closed set of codes.
    pub fn contract_address(&self, code: TokenCode) -> (r: &String)
        ensures
            r@ == self.spec_contract_address(code),
    {
        match code {
            TokenCode::TokenA => &self.token_a,
            TokenCode::TokenB => &self.token_b,
            TokenCode::TokenC => &self.token_c,
            TokenCode::TokenD => &self.token_d,
            TokenCode::TokenE => &self.token_e,
        }
    }

    /// Contract address for a registry key; unknown keys use the `token_a` entry.
    pub fn resolve_contract(&self, name: &str) -> (r: &String)
        ensures
            r@ == self.spec_contract_address(TokenCode::spec_from_name(name@)),
    {
        self.contract_address(TokenCode::from_name(name))
    }

    /// Capacity of the dispatch channel: twice the number of workers.
    pub fn channel_capacity(&self) -> (r: usize)
        requires
            self.batch_size > 0,
        ensures
            r == 2 * self.batch_size,
    {
        (2 * (self.batch_size as i64)) as usize
    }
}

/// A token code outside the registry resolves to the same contract as the
/// default entry, `token_a`.
pub proof fn lemma_unknown_token_uses_default(setting: Setting, name: Seq<char>)
    requires
        name != "token_a"@,
        name != "token_b"@,
        name != "token_c"@,
        name != "token_d"@,
        name != "token_e"@,
    ensures
        setting.spec_contract_address(TokenCode::spec_from_name(name))
            == setting.spec_contract_address(TokenCode::TokenA),
{
}

} // verus!
