use crate::plugins::plugin::{
    Plugin, Publication, is_under, law_child_topic_is_under_parent, plugin_delivery,
    plugin_publication,
};
use crate::plugins::sources::{resolve_flag, resolve_number, resolved_flag, resolved_number};
use crate::text::{decimal_text, i64_to_decimal, join_topic, opt_text};
use std::path::PathBuf;
use vstd::prelude::*;

verus! {

/// Settings of the plugin that publishes a timestamp at a steady pace.
pub struct HeartBeatConfig {
    pub enabled: bool,
    /// Seconds between two beats.
    pub delay: u64,
}

impl Default for HeartBeatConfig {
    fn default() -> (c: Self)
        ensures
            c == (HeartBeatConfig { enabled: true, delay: 5 }),
    {
        HeartBeatConfig { enabled: true, delay: 5 }
    }
}

impl HeartBeatConfig {
    /// The settings that `load` gives, from the `heart_beat` section of the file (if any)
    /// and the variables `SYS2MQTT_HEART_BEAT_ENABLED` and `SYS2MQTT_HEART_BEAT_DELAY`
    /// (if set). Without a section the plugin is on and beats every 5 seconds. A variable
    /// that cannot be read as a value gives `false` and 5.
    pub open spec fn loaded(
        section: Option<HeartBeatConfig>,
        enabled_env: Option<Seq<char>>,
        delay_env: Option<Seq<char>>,
    ) -> HeartBeatConfig {
        let (file_enabled, file_delay) = match section {
            Some(c) => (c.enabled, c.delay),
            None => (true, 5u64),
        };
        HeartBeatConfig {
            enabled: resolved_flag(enabled_env, file_enabled),
            delay: resolved_number(delay_env, 5, file_delay),
        }
    }

    /// Resolves the settings: the environment takes precedence over the file.
    pub fn load(
        section: Option<HeartBeatConfig>,
        enabled_env: Option<String>,
        delay_env: Option<String>,
    ) -> (c: HeartBeatConfig)
        ensures
            c == Self::loaded(section, opt_text(enabled_env), opt_text(delay_env)),
    {
        let (file_enabled, file_delay) = match section {
            Some(c) => (c.enabled, c.delay),
            None => (true, 5u64),
        };
        HeartBeatConfig {
            enabled: resolve_flag(&enabled_env, file_enabled),
            delay: resolve_number(&delay_env, 5, file_delay),
        }
    }
}

/// The plugin that shows that the daemon is alive by publishing the time.
pub struct HeartBeatPlugin {
    pub config: HeartBeatConfig,
    pub config_path: PathBuf,
    pub root_topic: String,
}

impl HeartBeatPlugin {
    pub fn new(
        config_path: PathBuf,
        root_topic: String,
        section: Option<HeartBeatConfig>,
        enabled_env: Option<String>,
        delay_env: Option<String>,
    ) -> (p: HeartBeatPlugin)
        ensures
            p.config == HeartBeatConfig::loaded(section, opt_text(enabled_env), opt_text(delay_env)),
            p.config_path == config_path,
            p.root_topic@ == root_topic@,
    {
        let config = HeartBeatConfig::load(section, enabled_env, delay_env);
        HeartBeatPlugin { config, config_path, root_topic }
    }

    /// The topic of the plugin: the root topic, then `heart_beat`.
    pub open spec fn topic(&self) -> Seq<char> {
        self.root_topic@ + "/"@ + "heart_beat"@
    }

    /// The beat for a given time: the time in decimal, on the plugin's topic.
    pub fn beat_at(&self, timestamp: i64) -> (p: Publication)
        ensures
            p.topic@ == self.topic(),
            p.payload@ == decimal_text(timestamp as int),
            plugin_delivery(p),
    {
        plugin_publication(
            join_topic(self.root_topic.as_str(), "heart_beat"),
            i64_to_decimal(timestamp),
        )
    }
}

impl Plugin for HeartBeatPlugin {
    fn name(&self) -> (name: &str)
        ensures
            name@ == "heart_beat"@,
    {
        "heart_beat"
    }

    fn is_enabled(&self) -> (enabled: bool)
        ensures
            enabled == self.config.enabled,
    {
        self.config.enabled
    }
}

/// When every variable is set, the file has no say in the settings.
pub proof fn law_heart_beat_env_takes_precedence(
    section_a: Option<HeartBeatConfig>,
    section_b: Option<HeartBeatConfig>,
    enabled: Seq<char>,
    delay: Seq<char>,
)
    ensures
        HeartBeatConfig::loaded(section_a, Some(enabled), Some(delay)) == HeartBeatConfig::loaded(
            section_b,
            Some(enabled),
            Some(delay),
        ),
{
}

/// Without a section and without variables, the heart beat runs every 5 seconds.
pub proof fn law_heart_beat_on_by_default()
    ensures
        HeartBeatConfig::loaded(None, None, None) == (HeartBeatConfig { enabled: true, delay: 5 }),
{
}

/// Every beat is published under the root topic.
pub proof fn law_heart_beat_topic_under_root(p: HeartBeatPlugin)
    ensures
        is_under(p.topic(), p.root_topic@),
{
    law_child_topic_is_under_parent(p.root_topic@, "heart_beat"@);
}

/// Without variables, a `heart_beat` section is taken as it is: the plugin runs exactly
/// when the section says so, at the section's pace.
pub proof fn law_heart_beat_section_used_without_env(c: HeartBeatConfig)
    ensures
        HeartBeatConfig::loaded(Some(c), None, None) == c,
{
}

/// Each setting comes from the section's own field unless its own variable is set, whatever
/// the other variable says; a set `SYS2MQTT_HEART_BEAT_ENABLED` turns the beat on exactly
/// when it reads `true`.
pub proof fn law_heart_beat_each_setting_from_its_source(
    c: HeartBeatConfig,
    section: Option<HeartBeatConfig>,
    enabled: Option<Seq<char>>,
    delay: Option<Seq<char>>,
    text: Seq<char>,
)
    ensures
        HeartBeatConfig::loaded(Some(c), None, delay).enabled == c.enabled,
        HeartBeatConfig::loaded(Some(c), enabled, None).delay == c.delay,
        HeartBeatConfig::loaded(section, Some(text), delay).enabled <==> text == "true"@,
{
}

} // verus!
