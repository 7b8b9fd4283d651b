//! The settings of one run.
use vstd::prelude::*;
use crate::error::SyncError;
use crate::text::{split_on, split_text, lemma_split_on_nonempty};

verus! {

/// The separator between record ids in the record-id setting.
pub const RECORD_ID_SEPARATOR: char = ',';

/// The settings of a run, read once at startup.
pub struct Config {
    /// Bearer token for the DNS provider's API.
    pub api_token: String,
    /// The zone that holds every record of the run.
    pub zone_id: String,
    /// The records to keep in step; the first one is checked for drift.
    pub record_ids: Vec<String>,
}

impl Config {
    /// There is at least one record id.
    pub open spec fn wf(&self) -> bool {
        self.record_ids@.len() > 0
    }

    /// The record ids as texts.
    pub open spec fn ids(&self) -> Seq<Seq<char>> {
        self.record_ids@.map_values(|s: String| s@)
    }
}

/// Builds the configuration from the three raw settings (`None` where a
/// setting is absent). The record ids are the comma-separated pieces of the
/// third setting, kept in order.
pub fn load_config(api_token: Option<String>, zone_id: Option<String>, record_ids: Option<String>)
    -> (r: Result<Config, SyncError>)
    ensures
        r is Err <==> (api_token is None || zone_id is None || record_ids is None
            || record_ids->0@.len() == 0),
        r is Err ==> r->Err_0 is ConfigurationMissing,
        r is Ok ==> {
            let c = r->Ok_0;
            &&& c.wf()
            &&& c.api_token@ == api_token->0@
            &&& c.zone_id@ == zone_id->0@
            &&& c.ids() == split_on(record_ids->0@, RECORD_ID_SEPARATOR)
        },
{
    match (api_token, zone_id, record_ids) {
        (Some(api_token), Some(zone_id), Some(ids)) => {
            if ids.as_str().is_empty() {
                return Err(SyncError::ConfigurationMissing);
            }
            let record_ids = split_text(ids.as_str(), RECORD_ID_SEPARATOR);
            proof {
                lemma_split_on_nonempty(ids@, RECORD_ID_SEPARATOR);
                assert(record_ids@.map_values(|s: String| s@) == split_on(
                    ids@,
                    RECORD_ID_SEPARATOR,
                ));
            }
            Ok(Config { api_token, zone_id, record_ids })
        },
        _ => Err(SyncError::ConfigurationMissing),
    }
}

} // verus!
