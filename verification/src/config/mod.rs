pub mod mqtt;

use crate::config::mqtt::MqttConfig;
use crate::plugins::plugin::{is_under, law_child_topic_is_under_parent};
use crate::text::{join_topic, opt_text};
use vstd::prelude::*;

verus! {

/// The daemon's configuration file, as far as the daemon itself reads it.
pub struct Config {
    pub mqtt: MqttConfig,
}

impl Default for Config {
    fn default() -> (c: Self)
        ensures
            c.mqtt.host@ == "localhost"@,
            c.mqtt.port == 1883,
    {
        Config { mqtt: MqttConfig::default() }
    }
}

/// The topic under which every metric of this machine is published: `sys2mqtt/` and the
/// machine's identifier, or `unknown` when it could not be read.
pub open spec fn spec_root_topic(machine_id: Option<Seq<char>>) -> Seq<char> {
    "sys2mqtt"@ + "/"@ + match machine_id {
        Some(id) => id,
        None => "unknown"@,
    }
}

pub fn root_topic(machine_id: Option<String>) -> (topic: String)
    ensures
        topic@ == spec_root_topic(opt_text(machine_id)),
{
    match machine_id {
        Some(id) => join_topic("sys2mqtt", id.as_str()),
        None => join_topic("sys2mqtt", "unknown"),
    }
}

/// The root topic always lies under `sys2mqtt`.
pub proof fn law_root_topic_under_sys2mqtt(machine_id: Option<Seq<char>>)
    ensures
        is_under(spec_root_topic(machine_id), "sys2mqtt"@),
{
    let id = match machine_id {
        Some(id) => id,
        None => "unknown"@,
    };
    law_child_topic_is_under_parent("sys2mqtt"@, id);
}

/// The root topic is `sys2mqtt/` followed by the whole machine id, unchanged: two machines
/// share a root topic only when their ids are equal.
pub proof fn law_root_topic_keeps_whole_id(id: Seq<char>, other: Seq<char>)
    ensures
        spec_root_topic(Some(id)) == "sys2mqtt/"@ + id,
        spec_root_topic(Some(id)).len() == 9 + id.len(),
        spec_root_topic(Some(id)).subrange(9, 9 + id.len() as int) == id,
        spec_root_topic(Some(id)) == spec_root_topic(Some(other)) ==> id == other,
{
    reveal_strlit("sys2mqtt");
    reveal_strlit("/");
    reveal_strlit("sys2mqtt/");
    assert("sys2mqtt"@ + "/"@ =~= "sys2mqtt/"@);
    assert(spec_root_topic(Some(id)).subrange(9, 9 + id.len() as int) =~= id);
    if spec_root_topic(Some(id)) == spec_root_topic(Some(other)) {
        assert(spec_root_topic(Some(other)).subrange(9, 9 + other.len() as int) =~= other);
    }
}

} // verus!
