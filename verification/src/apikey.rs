//! Client handles: network profiles and the keyed / unkeyed REST clients.

use vstd::prelude::*;

use crate::rate_limit::LimitMgr;
use crate::rate_limit::WeightLimit;

verus! {

/// One network profile: REST and WebSocket endpoints plus the test-network
/// switch.
#[derive(Debug, Clone)]
pub struct OkxConfig {
    pub testnet: bool,
    pub rest_domain: String,
    pub pub_websocket_domain: String,
    pub private_websocket_domain: String,
    pub business_domain: String,
}

/// The production profile.
pub fn mainnet_config() -> (r: OkxConfig)
    ensures
        r.testnet == false,
        r.rest_domain@ == "https://www.okx.com/"@,
        r.pub_websocket_domain@ == "wss://ws.okx.com:8443/ws/v5/public"@,
        r.private_websocket_domain@ == "wss://ws.okx.com:8443/ws/v5/private"@,
        r.business_domain@ == "wss://ws.okx.com:8443/ws/v5/business"@,
{
    OkxConfig {
        testnet: false,
        rest_domain: "https://www.okx.com/".to_owned(),
        pub_websocket_domain: "wss://ws.okx.com:8443/ws/v5/public".to_owned(),
        private_websocket_domain: "wss://ws.okx.com:8443/ws/v5/private".to_owned(),
        business_domain: "wss://ws.okx.com:8443/ws/v5/business".to_owned(),
    }
}

/// The production profile behind the AWS endpoints.
pub fn aws_mainnet_config() -> (r: OkxConfig)
    ensures
        r.testnet == false,
        r.rest_domain@ == "https://aws.okx.com"@,
        r.pub_websocket_domain@ == "wss://wsaws.okx.com:8443/ws/v5/public"@,
        r.private_websocket_domain@ == "wss://wsaws.okx.com:8443/ws/v5/private"@,
        r.business_domain@ == "wss://wsaws.okx.com:8443/ws/v5/business"@,
{
    OkxConfig {
        testnet: false,
        rest_domain: "https://aws.okx.com".to_owned(),
        pub_websocket_domain: "wss://wsaws.okx.com:8443/ws/v5/public".to_owned(),
        private_websocket_domain: "wss://wsaws.okx.com:8443/ws/v5/private".to_owned(),
        business_domain: "wss://wsaws.okx.com:8443/ws/v5/business".to_owned(),
    }
}

/// The demo-trading profile; its URLs carry the broker id and its REST
/// calls the simulated-trading header.
pub fn testnet_config() -> (r: OkxConfig)
    ensures
        r.testnet == true,
        r.rest_domain@ == "https://www.okx.com"@,
        r.pub_websocket_domain@ == "wss://wspap.okx.com:8443/ws/v5/public?brokerId=9999"@,
        r.private_websocket_domain@ == "wss://wspap.okx.com:8443/ws/v5/private?brokerId=9999"@,
        r.business_domain@ == "wss://wspap.okx.com:8443/ws/v5/business?brokerId=9999"@,
{
    OkxConfig {
        testnet: true,
        rest_domain: "https://www.okx.com".to_owned(),
        pub_websocket_domain: "wss://wspap.okx.com:8443/ws/v5/public?brokerId=9999".to_owned(),
        private_websocket_domain: "wss://wspap.okx.com:8443/ws/v5/private?brokerId=9999".to_owned(),
        business_domain: "wss://wspap.okx.com:8443/ws/v5/business?brokerId=9999".to_owned(),
    }
}

/// The client for the public, unauthenticated REST surface.
#[derive(Debug)]
pub struct OkxPublicClient {
    pub base_config: OkxConfig,
    pub limit_mgr: LimitMgr,
}

impl OkxPublicClient {
    pub fn new(base_config: OkxConfig) -> (r: Self)
        ensures
            r.base_config == base_config,
            r.limit_mgr.wf(),
            r.limit_mgr.plain_map() == Map::<u32, WeightLimit>::empty(),
            r.limit_mgr.inst_id_map() == Map::<(u32, Seq<char>), WeightLimit>::empty(),
            r.limit_mgr.inst_type_map() == Map::<(u32, crate::models::InstType), WeightLimit>::empty(),
            r.limit_mgr.inst_family_map() == Map::<(u32, Seq<char>), WeightLimit>::empty(),
    {
        Self { base_config, limit_mgr: LimitMgr::new() }
    }

    pub fn limit_mgr(&self) -> (r: &LimitMgr)
        ensures
            r == &self.limit_mgr,
    {
        &self.limit_mgr
    }
}

/// The client for the authenticated REST surface.
#[derive(Debug)]
pub struct OkxAccountClient {
    pub api_key: String,
    pub secret_key: String,
    pub passphrase: String,
    pub base_config: OkxConfig,
    pub limit_mgr: LimitMgr,
}

impl OkxAccountClient {
    pub fn new(base_config: OkxConfig, api_key: &str, secret_key: &str, passphrase: &str) -> (r:
        Self)
        ensures
            r.base_config == base_config,
            r.api_key@ == api_key@,
            r.secret_key@ == secret_key@,
            r.passphrase@ == passphrase@,
            r.limit_mgr.wf(),
            r.limit_mgr.plain_map() == Map::<u32, WeightLimit>::empty(),
            r.limit_mgr.inst_id_map() == Map::<(u32, Seq<char>), WeightLimit>::empty(),
            r.limit_mgr.inst_type_map() == Map::<(u32, crate::models::InstType), WeightLimit>::empty(),
            r.limit_mgr.inst_family_map() == Map::<(u32, Seq<char>), WeightLimit>::empty(),
    {
        Self {
            base_config,
            api_key: api_key.to_owned(),
            secret_key: secret_key.to_owned(),
            passphrase: passphrase.to_owned(),
            limit_mgr: LimitMgr::new(),
        }
    }

    pub fn limit_mgr(&self) -> (r: &LimitMgr)
        ensures
            r == &self.limit_mgr,
    {
        &self.limit_mgr
    }
}

impl OkxConfig {
    pub fn create_account_client(self, api_key: &str, secret_key: &str, passphrase: &str) -> (r:
        OkxAccountClient)
        ensures
            r.base_config == self,
            r.api_key@ == api_key@,
            r.secret_key@ == secret_key@,
            r.passphrase@ == passphrase@,
            r.limit_mgr.wf(),
    {
        OkxAccountClient::new(self, api_key, secret_key, passphrase)
    }

    pub fn create_pub_client(self) -> (r: OkxPublicClient)
        ensures
            r.base_config == self,
            r.limit_mgr.wf(),
    {
        OkxPublicClient::new(self)
    }
}

} // verus!
