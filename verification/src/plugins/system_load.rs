use crate::plugins::plugin::{
    Plugin, Publication, is_under, law_child_topic_is_under_parent, plugin_delivery,
    plugin_publication,
};
use crate::plugins::sources::{
    readable_section, resolve_flag, resolve_number, resolved_flag, resolved_number,
};
use crate::text::{join_topic, opt_text, spec_parse_bool};
use std::path::PathBuf;
use vstd::prelude::*;

verus! {

/// Settings of the plugin that publishes the load averages of the machine.
pub struct SystemLoadConfig {
    pub enabled: bool,
    /// Seconds between two reports.
    pub delay: u64,
}

impl Default for SystemLoadConfig {
    fn default() -> (c: Self)
        ensures
            c == (SystemLoadConfig { enabled: true, delay: 5 }),
    {
        SystemLoadConfig { enabled: true, delay: 5 }
    }
}

impl SystemLoadConfig {
    /// The settings that `load` gives, from the `system_load` section of the file (if any)
    /// and the variables `SYS2MQTT_SYSTEM_LOAD_ENABLED` and `SYS2MQTT_SYSTEM_LOAD_DELAY`
    /// (if set). Without a section the plugin is off and the delay is 5. A variable that
    /// cannot be read as a value gives `false` and 5.
    pub open spec fn loaded(
        section: Option<SystemLoadConfig>,
        enabled_env: Option<Seq<char>>,
        delay_env: Option<Seq<char>>,
    ) -> SystemLoadConfig {
        let (file_enabled, file_delay) = match section {
            Some(c) => (c.enabled, c.delay),
            None => (false, 5u64),
        };
        SystemLoadConfig {
            enabled: resolved_flag(enabled_env, file_enabled),
            delay: resolved_number(delay_env, 5, file_delay),
        }
    }

    /// Resolves the settings: the environment takes precedence over the file. `file` is
    /// the plugin's section as parsed from the file, or `None` when the file could not be
    /// read or the section could not be parsed; then no valid configuration is found.
    pub fn load(
        file: Option<Option<SystemLoadConfig>>,
        enabled_env: Option<String>,
        delay_env: Option<String>,
    ) -> (c: SystemLoadConfig)
        ensures
            c == Self::loaded(readable_section(file), opt_text(enabled_env), opt_text(delay_env)),
    {
        let (file_enabled, file_delay) = match file {
            Some(Some(c)) => (c.enabled, c.delay),
            _ => (false, 5u64),
        };
        SystemLoadConfig {
            enabled: resolve_flag(&enabled_env, file_enabled),
            delay: resolve_number(&delay_env, 5, file_delay),
        }
    }
}

/// The plugin that publishes the load averages over 1, 5 and 15 minutes.
pub struct SystemLoadPlugin {
    pub config: SystemLoadConfig,
    pub config_path: PathBuf,
    pub root_topic: String,
}

/// One report of the load averages: one message per average.
pub struct LoadReport {
    pub one_minute: Publication,
    pub five_minutes: Publication,
    pub fifteen_minutes: Publication,
}

/// The three topics of a load report.
pub struct LoadTopics {
    pub one_minute: String,
    pub five_minutes: String,
    pub fifteen_minutes: String,
}

impl SystemLoadPlugin {
    pub fn new(
        config_path: PathBuf,
        root_topic: String,
        file: Option<Option<SystemLoadConfig>>,
        enabled_env: Option<String>,
        delay_env: Option<String>,
    ) -> (p: SystemLoadPlugin)
        ensures
            p.config == SystemLoadConfig::loaded(readable_section(file), opt_text(enabled_env), opt_text(delay_env)),
            p.config_path == config_path,
            p.root_topic@ == root_topic@,
    {
        let config = SystemLoadConfig::load(file, enabled_env, delay_env);
        SystemLoadPlugin { config, config_path, root_topic }
    }

    /// The topic of the plugin: the root topic, then `system_load`.
    pub open spec fn topic(&self) -> Seq<char> {
        self.root_topic@ + "/"@ + "system_load"@
    }

    /// The topics under which the three load averages are published: `1m`, `5m` and
    /// `15m` under the plugin's topic.
    pub fn load_topics(&self) -> (t: LoadTopics)
        ensures
            t.one_minute@ == self.topic() + "/"@ + "1m"@,
            t.five_minutes@ == self.topic() + "/"@ + "5m"@,
            t.fifteen_minutes@ == self.topic() + "/"@ + "15m"@,
    {
        let base = join_topic(self.root_topic.as_str(), "system_load");
        LoadTopics {
            one_minute: join_topic(base.as_str(), "1m"),
            five_minutes: join_topic(base.as_str(), "5m"),
            fifteen_minutes: join_topic(base.as_str(), "15m"),
        }
    }

    /// The report of one reading of the load averages, given as text: the 1-minute average
    /// under `1m`, the 5-minute one under `5m` and the 15-minute one under `15m`.
    pub fn load_report(&self, one: String, five: String, fifteen: String) -> (r: LoadReport)
        ensures
            r.one_minute.topic@ == self.topic() + "/"@ + "1m"@,
            r.one_minute.payload@ == one@,
            plugin_delivery(r.one_minute),
            r.five_minutes.topic@ == self.topic() + "/"@ + "5m"@,
            r.five_minutes.payload@ == five@,
            plugin_delivery(r.five_minutes),
            r.fifteen_minutes.topic@ == self.topic() + "/"@ + "15m"@,
            r.fifteen_minutes.payload@ == fifteen@,
            plugin_delivery(r.fifteen_minutes),
    {
        let topics = self.load_topics();
        LoadReport {
            one_minute: plugin_publication(topics.one_minute, one),
            five_minutes: plugin_publication(topics.five_minutes, five),
            fifteen_minutes: plugin_publication(topics.fifteen_minutes, fifteen),
        }
    }
}

impl Plugin for SystemLoadPlugin {
    fn name(&self) -> (name: &str)
        ensures
            name@ == "system_load"@,
    {
        "system_load"
    }

    fn is_enabled(&self) -> (enabled: bool)
        ensures
            enabled == self.config.enabled,
    {
        self.config.enabled
    }
}

/// When every variable is set, the file has no say in the settings.
pub proof fn law_system_load_env_takes_precedence(
    section_a: Option<SystemLoadConfig>,
    section_b: Option<SystemLoadConfig>,
    enabled: Seq<char>,
    delay: Seq<char>,
)
    ensures
        SystemLoadConfig::loaded(section_a, Some(enabled), Some(delay)) == SystemLoadConfig::loaded(
            section_b,
            Some(enabled),
            Some(delay),
        ),
{
}

/// With no valid section in the file (none, or a file that could not be read or parsed)
/// and no variable that turns it on, the plugin is off; a
/// variable that is neither `true` nor `false` turns it off whatever the file says.
pub proof fn law_system_load_off_without_valid_setting(
    file: Option<Option<SystemLoadConfig>>,
    enabled: Option<Seq<char>>,
    delay: Option<Seq<char>>,
)
    requires
        (readable_section(file) is None && enabled is None) || (enabled matches Some(text) && spec_parse_bool(
            text,
        ) is None),
    ensures
        !SystemLoadConfig::loaded(readable_section(file), enabled, delay).enabled,
{
}

/// The three load averages are published under the plugin's topic, and so under the root
/// topic.
pub proof fn law_load_topics_under_root(p: SystemLoadPlugin)
    ensures
        is_under(p.topic(), p.root_topic@),
        is_under(p.topic() + "/"@ + "1m"@, p.root_topic@),
        is_under(p.topic() + "/"@ + "5m"@, p.root_topic@),
        is_under(p.topic() + "/"@ + "15m"@, p.root_topic@),
{
    let root = p.root_topic@;
    let name = "system_load"@;
    law_child_topic_is_under_parent(root, name);
    law_child_topic_is_under_parent(root, name + "/"@ + "1m"@);
    law_child_topic_is_under_parent(root, name + "/"@ + "5m"@);
    law_child_topic_is_under_parent(root, name + "/"@ + "15m"@);
    assert(p.topic() + "/"@ + "1m"@ =~= root + "/"@ + (name + "/"@ + "1m"@));
    assert(p.topic() + "/"@ + "5m"@ =~= root + "/"@ + (name + "/"@ + "5m"@));
    assert(p.topic() + "/"@ + "15m"@ =~= root + "/"@ + (name + "/"@ + "15m"@));
}

/// Without variables, a `system_load` section is taken as it is.
pub proof fn law_system_load_section_used_without_env(c: SystemLoadConfig)
    ensures
        SystemLoadConfig::loaded(readable_section(Some(Some(c))), None, None) == c,
{
}

/// Each setting comes from the section's own field unless its own variable is set, whatever
/// the other variable says; a set `SYS2MQTT_SYSTEM_LOAD_ENABLED` turns the plugin on exactly
/// when it reads `true`.
pub proof fn law_system_load_each_setting_from_its_source(
    c: SystemLoadConfig,
    section: Option<SystemLoadConfig>,
    enabled: Option<Seq<char>>,
    delay: Option<Seq<char>>,
    text: Seq<char>,
)
    ensures
        SystemLoadConfig::loaded(Some(c), None, delay).enabled == c.enabled,
        SystemLoadConfig::loaded(Some(c), enabled, None).delay == c.delay,
        SystemLoadConfig::loaded(section, Some(text), delay).enabled <==> text == "true"@,
{
}

} // verus!
