//! Service records from the hosting provider and the statuses derived from them.
use vstd::prelude::*;
use crate::config::Credential;

verus! {

/// What the provider's service-info endpoint reports for one account.
pub struct RawServiceRecord {
    pub plan: String,
    pub ip_addresses: Vec<String>,
    /// Monthly data allowance in bytes; may be zero.
    pub plan_monthly_data: u64,
    /// Data used so far this month, in bytes.
    pub data_counter: u64,
}

/// The presentation-ready status of one account.
pub struct ServiceStatus {
    pub veid: String,
    pub plan: String,
    /// The first address the provider lists, or empty when it lists none.
    pub ip_address: String,
    pub plan_monthly_data: u64,
    pub data_counter: u64,
}

/// Why the status of one account could not be had.
pub enum FetchError {
    /// The provider could not be reached.
    Network { veid: String, detail: String },
    /// The provider's answer did not have the expected shape.
    Decode { veid: String, detail: String },
}

/// One call to make to the provider: the account it is for and the address to get.
pub struct UpstreamRequest {
    pub veid: String,
    pub url: String,
}

/// Usage as the fraction `used / allowance` of the monthly allowance; the
/// usage percentage is `100 * used / allowance`.
#[derive(Clone, Copy, Debug, PartialEq, Eq, Structural)]
pub struct UsageShare {
    pub used: u64,
    pub allowance: u64,
}

/// The usage fraction for `used` bytes out of `allowance`: the figures as they
/// are when there is an allowance (not capped when usage exceeds it), and
/// zero when the allowance is zero.
pub open spec fn usage_share_of(used: u64, allowance: u64) -> UsageShare {
    if allowance > 0 {
        UsageShare { used, allowance }
    } else {
        UsageShare { used: 0, allowance: 1 }
    }
}

/// The address shown for an account: the first one listed, or the empty string.
pub open spec fn primary_address(ips: Seq<Seq<char>>) -> Seq<char> {
    if ips.len() > 0 {
        ips[0]
    } else {
        Seq::empty()
    }
}

/// The statuses among `results`, in their order, with the failures left out.
pub open spec fn successes(results: Seq<Result<ServiceStatus, FetchError>>) -> Seq<ServiceStatus>
    decreases results.len(),
{
    if results.len() == 0 {
        Seq::empty()
    } else {
        let rest = successes(results.drop_last());
        match results.last() {
            Ok(s) => rest.push(s),
            Err(_) => rest,
        }
    }
}

/// The service-info address for an account, with both credentials as query parameters.
pub open spec fn service_info_url_text(veid: Seq<char>, api_key: Seq<char>) -> Seq<char> {
    "https://api.64clouds.com/v1/getServiceInfo?veid="@ + veid + "&api_key="@ + api_key
}

/// Computes the usage fraction of `used` bytes out of `allowance`.
pub fn usage_share(used: u64, allowance: u64) -> (r: UsageShare)
    ensures
        r == usage_share_of(used, allowance),
        r.allowance > 0,
{
    if allowance > 0 {
        UsageShare { used, allowance }
    } else {
        UsageShare { used: 0, allowance: 1 }
    }
}

impl ServiceStatus {
    /// The usage fraction of this account.
    pub fn usage_share(&self) -> (r: UsageShare)
        ensures
            r == usage_share_of(self.data_counter, self.plan_monthly_data),
    {
        usage_share(self.data_counter, self.plan_monthly_data)
    }
}

/// The address that asks the provider for the service info of one account.
pub fn service_info_url(veid: &str, api_key: &str) -> (r: String)
    ensures
        r@ == service_info_url_text(veid@, api_key@),
{
    let mut url = String::from_str("https://api.64clouds.com/v1/getServiceInfo?veid=");
    url.append(veid);
    url.append("&api_key=");
    url.append(api_key);
    url
}

/// The provider calls for a list of credentials: one per credential, in the
/// same order, duplicates included.
pub fn upstream_requests(credentials: &Vec<Credential>) -> (r: Vec<UpstreamRequest>)
    ensures
        r.len() == credentials.len(),
        forall|i: int|
            0 <= i < r.len() ==> #[trigger] r[i].veid@ == credentials[i].veid@ && r[i].url@
                == service_info_url_text(credentials[i].veid@, credentials[i].api_key@),
{
    let mut out: Vec<UpstreamRequest> = Vec::new();
    let mut i: usize = 0;
    while i < credentials.len()
        invariant
            i <= credentials.len(),
            out.len() == i,
            forall|j: int|
                0 <= j < i ==> #[trigger] out[j].veid@ == credentials[j].veid@ && out[j].url@
                    == service_info_url_text(credentials[j].veid@, credentials[j].api_key@),
        decreases credentials.len() - i,
    {
        let c = &credentials[i];
        let url = service_info_url(c.veid.as_str(), c.api_key.as_str());
        out.push(UpstreamRequest { veid: c.veid.clone(), url });
        i = i + 1;
    }
    out
}

/// Derives the status of account `veid` from the provider's record.
pub fn status_from_record(veid: String, raw: RawServiceRecord) -> (r: ServiceStatus)
    ensures
        r.veid@ == veid@,
        r.plan@ == raw.plan@,
        r.ip_address@ == primary_address(raw.ip_addresses@.map_values(|s: String| s@)),
        r.plan_monthly_data == raw.plan_monthly_data,
        r.data_counter == raw.data_counter,
{
    let RawServiceRecord { plan, ip_addresses, plan_monthly_data, data_counter } = raw;
    let mut ips = ip_addresses;
    let ip_address = if ips.len() > 0 {
        ips.swap_remove(0)
    } else {
        String::new()
    };
    ServiceStatus { veid, plan, ip_address, plan_monthly_data, data_counter }
}

/// Keeps the statuses that were had and drops the failures, in the order given.
pub fn collect_successes(results: Vec<Result<ServiceStatus, FetchError>>) -> (r: Vec<ServiceStatus>)
    ensures
        r@ == successes(results@),
{
    let ghost all = results@;
    let mut out: Vec<ServiceStatus> = Vec::new();
    for item in it: results.into_iter()
        invariant
            it.seq() == all,
            out@ == successes(all.take(it.index() as int)),
    {
        proof {
            let k = it.index() as int;
            assert(all.take(k + 1).drop_last() =~= all.take(k));
        }
        match item {
            Ok(s) => out.push(s),
            Err(_) => {},
        }
    }
    assert(all.take(all.len() as int) =~= all);
    out
}

/// With an allowance, the usage percentage `100 * used / allowance` of the
/// derived fraction equals `100 * u / a` for the figures given, and is not
/// capped at 100: it exceeds 100 exactly when usage exceeds the allowance.
pub proof fn lemma_usage_percentage_exact(u: u64, a: u64)
    requires
        a > 0,
    ensures
        usage_share_of(u, a).used * a == u * usage_share_of(u, a).allowance,
        usage_share_of(u, a).allowance > 0,
        (usage_share_of(u, a).used > usage_share_of(u, a).allowance) <==> (u > a),
{
}

/// Without an allowance the usage percentage is exactly zero, whatever the usage.
pub proof fn lemma_usage_percentage_zero_allowance(u: u64)
    ensures
        usage_share_of(u, 0).used == 0,
        usage_share_of(u, 0).allowance > 0,
{
}

} // verus!
