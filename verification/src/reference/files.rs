//! The names under which a peer stores its training records.

use crate::base::text::{number_text, numeral};
use vstd::prelude::*;
use vstd::string::*;

verus! {

/// The name of the stored state of a job. `job` is the job's identity in text.
pub fn state_file(job: &str) -> (r: String)
    ensures
        r@ == "training-v3-"@ + job@ + ".json"@,
{
    let mut name = "training-v3-".to_owned();
    name.append(job);
    name.append(".json");
    name
}

/// The name of the stored start of a job.
pub fn start_file(job: &str) -> (r: String)
    ensures
        r@ == "training-v3-start-"@ + job@ + ".json"@,
{
    let mut name = "training-v3-start-".to_owned();
    name.append(job);
    name.append(".json");
    name
}

/// The name of the stored state of a shard of a job.
pub fn shard_file(job: &str, shard: u64) -> (r: String)
    ensures
        r@ == "training-v3-shard-"@ + job@ + "-"@ + numeral(shard as nat) + ".json"@,
{
    let mut name = "training-v3-shard-".to_owned();
    name.append(job);
    name.append("-");
    let digits = number_text(shard);
    name.append(digits.as_str());
    name.append(".json");
    name
}

/// The name of the stored manifest of a checkpoint. `hash` is the manifest's
/// hash in text.
pub fn checkpoint_file(hash: &str) -> (r: String)
    ensures
        r@ == "training-v3-checkpoint-"@ + hash@ + ".json"@,
{
    let mut name = "training-v3-checkpoint-".to_owned();
    name.append(hash);
    name.append(".json");
    name
}

} // verus!
