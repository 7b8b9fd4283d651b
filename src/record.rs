//! DNS records and the requests that read and rewrite them.
use vstd::prelude::*;

verus! {

/// The TTL, in seconds, written with every update.
pub const UPDATE_TTL: u32 = 120;

/// One record as the provider reports it.
#[derive(Debug, Clone)]
pub struct DnsRecord {
    pub id: String,
    pub record_type: String,
    pub name: String,
    pub content: String,
    pub proxied: bool,
}

/// What a [`DnsRecord`] holds, as texts.
pub struct RecordView {
    pub id: Seq<char>,
    pub record_type: Seq<char>,
    pub name: Seq<char>,
    pub content: Seq<char>,
    pub proxied: bool,
}

impl View for DnsRecord {
    type V = RecordView;

    open spec fn view(&self) -> RecordView {
        RecordView {
            id: self.id@,
            record_type: self.record_type@,
            name: self.name@,
            content: self.content@,
            proxied: self.proxied,
        }
    }
}

/// The body of a write that points a record at a new address.
#[derive(Debug, Clone)]
pub struct UpdateBody {
    pub record_type: String,
    pub name: String,
    pub content: String,
    pub ttl: u32,
    pub proxied: bool,
}

/// What an [`UpdateBody`] holds, as texts.
pub struct BodyView {
    pub record_type: Seq<char>,
    pub name: Seq<char>,
    pub content: Seq<char>,
    pub ttl: u32,
    pub proxied: bool,
}

impl View for UpdateBody {
    type V = BodyView;

    open spec fn view(&self) -> BodyView {
        BodyView {
            record_type: self.record_type@,
            name: self.name@,
            content: self.content@,
            ttl: self.ttl,
            proxied: self.proxied,
        }
    }
}

/// The write for `record`: its type, name and proxy flag as read, the new
/// address as content, and the fixed TTL.
pub open spec fn body_for(record: RecordView, ip: Seq<char>) -> BodyView {
    BodyView {
        record_type: record.record_type,
        name: record.name,
        content: ip,
        ttl: UPDATE_TTL,
        proxied: record.proxied,
    }
}

/// Builds the write that replaces `record`'s content with `ip`.
pub fn update_body(record: &DnsRecord, ip: &str) -> (r: UpdateBody)
    ensures
        r@ == body_for(record@, ip@),
{
    UpdateBody {
        record_type: record.record_type.clone(),
        name: record.name.clone(),
        content: String::from_str(ip),
        ttl: UPDATE_TTL,
        proxied: record.proxied,
    }
}

/// The address of one record in the provider's REST API.
pub open spec fn record_url_of(zone_id: Seq<char>, record_id: Seq<char>) -> Seq<char> {
    "https://api.cloudflare.com/client/v4/zones/"@ + zone_id + "/dns_records/"@ + record_id
}

/// Builds the address at which the record `record_id` of zone `zone_id` is
/// read and written.
pub fn record_url(zone_id: &str, record_id: &str) -> (r: String)
    ensures
        r@ == record_url_of(zone_id@, record_id@),
{
    let mut url = String::from_str("https://api.cloudflare.com/client/v4/zones/");
    url.append(zone_id);
    url.append("/dns_records/");
    url.append(record_id);
    url
}

/// The value of the `Authorization` header for `api_token`.
pub fn authorization_value(api_token: &str) -> (r: String)
    ensures
        r@ == "Bearer "@ + api_token@,
{
    let mut value = String::from_str("Bearer ");
    value.append(api_token);
    value
}

} // verus!
