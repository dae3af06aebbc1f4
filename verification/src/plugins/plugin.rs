use std::path::PathBuf;
use vstd::prelude::*;

verus! {

/// `std::path::PathBuf`, carried through as an opaque value.
#[verifier::external_type_specification]
#[verifier::external_body]
pub struct ExPathBuf(PathBuf);

/// What every plugin tells about itself.
pub trait Plugin {
    /// The name of the plugin, which is also the last level of its topic.
    fn name(&self) -> &str;

    /// Whether the plugin should run at all.
    fn is_enabled(&self) -> bool;
}

/// The MQTT quality of service of a message.
#[derive(Clone, Copy, Debug, PartialEq, Eq, Structural)]
pub enum QoS {
    AtMostOnce,
    AtLeastOnce,
    ExactlyOnce,
}

/// One MQTT message that a plugin asks to publish.
pub struct Publication {
    pub topic: String,
    pub payload: String,
    pub qos: QoS,
    /// Whether the broker keeps the message for later subscribers.
    pub retain: bool,
}

/// Every plugin publishes at least once, and asks the broker to keep nothing.
pub open spec fn plugin_delivery(p: Publication) -> bool {
    p.qos == QoS::AtLeastOnce && !p.retain
}

/// A plugin's message: `payload` under `topic`, delivered at least once, not retained.
pub fn plugin_publication(topic: String, payload: String) -> (p: Publication)
    ensures
        p.topic@ == topic@,
        p.payload@ == payload@,
        plugin_delivery(p),
{
    Publication { topic, payload, qos: QoS::AtLeastOnce, retain: false }
}

/// `topic` lies under `parent`: it begins with `parent` and the level separator `/`.
pub open spec fn is_under(topic: Seq<char>, parent: Seq<char>) -> bool {
    topic.len() >= parent.len() + 1 && topic.subrange(0, parent.len() + 1int) == parent + "/"@
}

/// A topic made by adding levels below `parent` lies under `parent`.
pub proof fn law_child_topic_is_under_parent(parent: Seq<char>, child: Seq<char>)
    ensures
        is_under(parent + "/"@ + child, parent),
{
    assert(("/"@).len() == 1) by {
        reveal_strlit("/");
    }
    assert((parent + "/"@ + child).subrange(0, parent.len() + 1int) =~= parent + "/"@);
}

} // verus!
