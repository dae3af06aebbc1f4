use crate::plugins::plugin::{
    Plugin, Publication, is_under, law_child_topic_is_under_parent, plugin_delivery,
    plugin_publication,
};
use crate::plugins::sources::{
    readable_section, resolve_flag, resolve_number, resolved_flag, resolved_number,
};
use crate::text::{join_topic, opt_text, spec_parse_bool};
use std::path::PathBuf;
use vstd::prelude::*;

verus! {

/// Settings of the plugin that reports whether the user is idle or active.
pub struct UserIdleConfig {
    pub enabled: bool,
    /// Seconds between two samples of the idle time.
    pub delay: u64,
    /// Seconds without input after which the user counts as idle.
    pub timeout: u64,
}

impl Default for UserIdleConfig {
    fn default() -> (c: Self)
        ensures
            c == (UserIdleConfig { enabled: true, delay: 5, timeout: 60 }),
    {
        UserIdleConfig { enabled: true, delay: 5, timeout: 60 }
    }
}

impl UserIdleConfig {
    /// The settings that `load` gives, from the `user_idle` section of the file (if any)
    /// and the variables `SYS2MQTT_USER_IDLE_ENABLED`, `SYS2MQTT_USER_IDLE_DELAY` and
    /// `SYS2MQTT_USER_IDLE_TIMEOUT` (if set). Without a section the plugin is off, the
    /// delay is 5 and the timeout is 5; with one, each value comes from its own field of the
    /// section. A variable that cannot be read as a value gives `false`, 5 and 5.
    pub open spec fn loaded(
        section: Option<UserIdleConfig>,
        enabled_env: Option<Seq<char>>,
        delay_env: Option<Seq<char>>,
        timeout_env: Option<Seq<char>>,
    ) -> UserIdleConfig {
        let (file_enabled, file_delay, file_timeout) = match section {
            Some(c) => (c.enabled, c.delay, c.timeout),
            None => (false, 5u64, 5u64),
        };
        UserIdleConfig {
            enabled: resolved_flag(enabled_env, file_enabled),
            delay: resolved_number(delay_env, 5, file_delay),
            timeout: resolved_number(timeout_env, 5, file_timeout),
        }
    }

    /// Resolves the settings: the environment takes precedence over the file. `file` is
    /// the plugin's section as parsed from the file, or `None` when the file could not be
    /// read or the section could not be parsed; then no valid configuration is found.
    pub fn load(
        file: Option<Option<UserIdleConfig>>,
        enabled_env: Option<String>,
        delay_env: Option<String>,
        timeout_env: Option<String>,
    ) -> (c: UserIdleConfig)
        ensures
            c == Self::loaded(
                readable_section(file),
                opt_text(enabled_env),
                opt_text(delay_env),
                opt_text(timeout_env),
            ),
    {
        let (file_enabled, file_delay, file_timeout) = match file {
            Some(Some(c)) => (c.enabled, c.delay, c.timeout),
            _ => (false, 5u64, 5u64),
        };
        UserIdleConfig {
            enabled: resolve_flag(&enabled_env, file_enabled),
            delay: resolve_number(&delay_env, 5, file_delay),
            timeout: resolve_number(&timeout_env, 5, file_timeout),
        }
    }
}

/// The plugin that publishes `idle` or `active` whenever the user's state changes.
pub struct UserIdlePlugin {
    pub config: UserIdleConfig,
    pub config_path: PathBuf,
    pub root_topic: String,
}

/// The payload that announces an idle state.
pub open spec fn idle_label(idle: bool) -> Seq<char> {
    if idle {
        "idle"@
    } else {
        "active"@
    }
}

/// One sample of the idle time, judged against the timeout: the state it shows, and the
/// state to announce, if any. A state is announced when it differs from the last one
/// seen, and always on the first sample.
pub open spec fn idle_step(timeout: u64, previous: Option<bool>, idle_seconds: u64) -> (
    bool,
    Option<bool>,
) {
    let idle = idle_seconds >= timeout;
    (idle, if previous == Some(idle) { None } else { Some(idle) })
}

/// The states announced over a run of samples, starting from `previous`.
pub open spec fn announcements(timeout: u64, previous: Option<bool>, samples: Seq<u64>) -> Seq<
    bool,
>
    decreases samples.len(),
{
    if samples.len() == 0 {
        seq![]
    } else {
        let (idle, announced) = idle_step(timeout, previous, samples[0]);
        let rest = announcements(timeout, Some(idle), samples.drop_first());
        match announced {
            Some(state) => seq![state] + rest,
            None => rest,
        }
    }
}

/// The state that a subscriber holds after the announcements: the last one announced,
/// or what it held before when nothing was announced.
pub open spec fn last_announced(before: Option<bool>, announced: Seq<bool>) -> Option<bool> {
    if announced.len() == 0 {
        before
    } else {
        Some(announced.last())
    }
}

/// The outcome of one sample.
pub struct IdleStep {
    /// The state that the sample shows; the next sample is compared with it.
    pub idle: bool,
    /// The message to publish, when the state is to be announced.
    pub publication: Option<Publication>,
}

pub fn idle_payload(idle: bool) -> (label: &'static str)
    ensures
        label@ == idle_label(idle),
{
    if idle {
        "idle"
    } else {
        "active"
    }
}

impl UserIdlePlugin {
    pub fn new(
        config_path: PathBuf,
        root_topic: String,
        file: Option<Option<UserIdleConfig>>,
        enabled_env: Option<String>,
        delay_env: Option<String>,
        timeout_env: Option<String>,
    ) -> (p: UserIdlePlugin)
        ensures
            p.config == UserIdleConfig::loaded(
                readable_section(file),
                opt_text(enabled_env),
                opt_text(delay_env),
                opt_text(timeout_env),
            ),
            p.config_path == config_path,
            p.root_topic@ == root_topic@,
    {
        let config = UserIdleConfig::load(file, enabled_env, delay_env, timeout_env);
        UserIdlePlugin { config, config_path, root_topic }
    }

    /// The topic of the plugin: the root topic, then `user_idle`.
    pub open spec fn topic(&self) -> Seq<char> {
        self.root_topic@ + "/"@ + "user_idle"@
    }

    /// Judges one sample of the idle time, given the state seen at the previous sample
    /// (`None` before the first), and says what to publish.
    pub fn observe(&self, previous: Option<bool>, idle_seconds: u64) -> (step: IdleStep)
        ensures
            step.idle == idle_step(self.config.timeout, previous, idle_seconds).0,
            step.publication is Some <==> idle_step(
                self.config.timeout,
                previous,
                idle_seconds,
            ).1 is Some,
            step.publication matches Some(p) ==> p.topic@ == self.topic() && p.payload@
                == idle_label(step.idle) && plugin_delivery(p),
    {
        let idle = idle_seconds >= self.config.timeout;
        let announce = match previous {
            Some(state) => state != idle,
            None => true,
        };
        if announce {
            let topic = join_topic(self.root_topic.as_str(), "user_idle");
            let payload = idle_payload(idle).to_string();
            IdleStep { idle, publication: Some(plugin_publication(topic, payload)) }
        } else {
            IdleStep { idle, publication: None }
        }
    }
}

impl Plugin for UserIdlePlugin {
    fn name(&self) -> (name: &str)
        ensures
            name@ == "user_idle"@,
    {
        "user_idle"
    }

    fn is_enabled(&self) -> (enabled: bool)
        ensures
            enabled == self.config.enabled,
    {
        self.config.enabled
    }
}

/// The state seen last after the samples: that of the last sample, or `previous` when there
/// is none.
pub open spec fn state_after(timeout: u64, previous: Option<bool>, samples: Seq<u64>) -> Option<
    bool,
> {
    if samples.len() == 0 {
        previous
    } else {
        Some(samples.last() >= timeout)
    }
}

/// A run grows one sample at a time: the announcements of the longer run are those of the
/// shorter one, followed by what `idle_step` announces for the new sample against the state
/// seen last. So polling with `observe` and keeping `step.idle` as the next `previous`
/// announces exactly `announcements`.
pub proof fn law_announcements_one_sample_more(
    timeout: u64,
    previous: Option<bool>,
    samples: Seq<u64>,
    sample: u64,
)
    ensures
        announcements(timeout, previous, samples.push(sample)) == announcements(
            timeout,
            previous,
            samples,
        ) + match idle_step(timeout, state_after(timeout, previous, samples), sample).1 {
            Some(state) => seq![state],
            None => Seq::<bool>::empty(),
        },
    decreases samples.len(),
{
    let longer = samples.push(sample);
    let tail = match idle_step(timeout, state_after(timeout, previous, samples), sample).1 {
        Some(state) => seq![state],
        None => Seq::<bool>::empty(),
    };
    if samples.len() == 0 {
        assert(longer[0] == sample);
        assert(longer.drop_first() =~= Seq::<u64>::empty());
        let idle = idle_step(timeout, previous, sample).0;
        assert(announcements(timeout, Some(idle), longer.drop_first()) =~= Seq::<bool>::empty());
        assert(announcements(timeout, previous, samples) =~= Seq::<bool>::empty());
        assert(announcements(timeout, previous, longer) =~= tail);
    } else {
        let (idle, announced) = idle_step(timeout, previous, samples[0]);
        let rest = samples.drop_first();
        assert(longer.drop_first() =~= rest.push(sample));
        law_announcements_one_sample_more(timeout, Some(idle), rest, sample);
        assert(state_after(timeout, Some(idle), rest) == state_after(timeout, previous, samples))
            by {
            if rest.len() > 0 {
                assert(rest.last() == samples.last());
            }
        }
        let head = match announced {
            Some(state) => seq![state],
            None => Seq::<bool>::empty(),
        };
        assert(announcements(timeout, previous, samples) =~= head + announcements(
            timeout,
            Some(idle),
            rest,
        ));
        assert(announcements(timeout, previous, longer) =~= head + announcements(
            timeout,
            Some(idle),
            rest.push(sample),
        ));
    }
}

/// Two announcements in a row never carry the same state, and the first one differs from
/// the state seen before the run: a subscriber hears of changes only.
pub proof fn law_announcements_alternate(timeout: u64, previous: Option<bool>, samples: Seq<u64>)
    ensures
        forall|i: int|
            0 <= i < announcements(timeout, previous, samples).len() - 1 ==> #[trigger] announcements(
                timeout,
                previous,
                samples,
            )[i] != announcements(timeout, previous, samples)[i + 1],
        previous is Some && announcements(timeout, previous, samples).len() > 0 ==> announcements(
            timeout,
            previous,
            samples,
        )[0] != previous->0,
    decreases samples.len(),
{
    if samples.len() > 0 {
        let (idle, announced) = idle_step(timeout, previous, samples[0]);
        let rest = announcements(timeout, Some(idle), samples.drop_first());
        law_announcements_alternate(timeout, Some(idle), samples.drop_first());
        if announced is Some {
            let all = seq![idle] + rest;
            assert(announcements(timeout, previous, samples) == all);
            assert forall|i: int| 0 <= i < all.len() - 1 implies #[trigger] all[i] != all[i + 1] by {
                if i > 0 {
                    assert(all[i] == rest[i - 1]);
                    assert(all[i + 1] == rest[i]);
                }
            }
        }
    }
}

/// After any non-empty run of samples, the state that a subscriber last heard is the state
/// that the last sample shows.
pub proof fn law_last_announced_is_current(
    timeout: u64,
    previous: Option<bool>,
    samples: Seq<u64>,
)
    requires
        samples.len() > 0,
    ensures
        last_announced(previous, announcements(timeout, previous, samples)) == Some(
            samples.last() >= timeout,
        ),
    decreases samples.len(),
{
    let (idle, announced) = idle_step(timeout, previous, samples[0]);
    let rest_samples = samples.drop_first();
    let rest = announcements(timeout, Some(idle), rest_samples);
    if rest_samples.len() > 0 {
        law_last_announced_is_current(timeout, Some(idle), rest_samples);
        assert(rest_samples.last() == samples.last());
    } else {
        assert(rest.len() == 0);
    }
    if announced is Some {
        let all = seq![idle] + rest;
        assert(announcements(timeout, previous, samples) == all);
        if rest.len() > 0 {
            assert(all.last() == rest.last());
        }
    }
}

/// The first sample of a run that starts with nothing seen is always announced.
pub proof fn law_first_sample_announced(timeout: u64, samples: Seq<u64>)
    requires
        samples.len() > 0,
    ensures
        announcements(timeout, None, samples).len() > 0,
        announcements(timeout, None, samples)[0] == (samples[0] >= timeout),
{
    let idle = samples[0] >= timeout;
    let rest = announcements(timeout, Some(idle), samples.drop_first());
    assert(announcements(timeout, None, samples) == seq![idle] + rest);
}

/// While the state stays what was last seen, nothing is announced.
pub proof fn law_steady_state_is_silent(timeout: u64, state: bool, samples: Seq<u64>)
    requires
        forall|i: int| 0 <= i < samples.len() ==> (#[trigger] samples[i] >= timeout) == state,
    ensures
        announcements(timeout, Some(state), samples).len() == 0,
    decreases samples.len(),
{
    if samples.len() > 0 {
        let rest = samples.drop_first();
        assert forall|i: int| 0 <= i < rest.len() implies (#[trigger] rest[i] >= timeout) == state by {
            assert(rest[i] == samples[i + 1]);
        }
        law_steady_state_is_silent(timeout, state, rest);
    }
}

/// When every variable is set, the file has no say in the settings.
pub proof fn law_user_idle_env_takes_precedence(
    section_a: Option<UserIdleConfig>,
    section_b: Option<UserIdleConfig>,
    enabled: Seq<char>,
    delay: Seq<char>,
    timeout: Seq<char>,
)
    ensures
        UserIdleConfig::loaded(section_a, Some(enabled), Some(delay), Some(timeout))
            == UserIdleConfig::loaded(section_b, Some(enabled), Some(delay), Some(timeout)),
{
}

/// With no valid section in the file (none, or a file that could not be read or parsed)
/// and no variable that turns it on, the plugin is off; a
/// variable that is neither `true` nor `false` turns it off whatever the file says.
pub proof fn law_user_idle_off_without_valid_setting(
    file: Option<Option<UserIdleConfig>>,
    enabled: Option<Seq<char>>,
    delay: Option<Seq<char>>,
    timeout: Option<Seq<char>>,
)
    requires
        (readable_section(file) is None && enabled is None) || (enabled matches Some(text) && spec_parse_bool(
            text,
        ) is None),
    ensures
        !UserIdleConfig::loaded(readable_section(file), enabled, delay, timeout).enabled,
{
}

/// Every idle state is published under the root topic.
pub proof fn law_user_idle_topic_under_root(p: UserIdlePlugin)
    ensures
        is_under(p.topic(), p.root_topic@),
{
    law_child_topic_is_under_parent(p.root_topic@, "user_idle"@);
}

/// Without variables, a `user_idle` section is taken as it is: enabled, delay and timeout
/// each from its own field.
pub proof fn law_user_idle_section_used_without_env(c: UserIdleConfig)
    ensures
        UserIdleConfig::loaded(readable_section(Some(Some(c))), None, None, None) == c,
{
}

/// Each setting comes from the section's own field unless its own variable is set, whatever
/// the other variables say; a set `SYS2MQTT_USER_IDLE_ENABLED` turns the plugin on exactly
/// when it reads `true`.
pub proof fn law_user_idle_each_setting_from_its_source(
    c: UserIdleConfig,
    section: Option<UserIdleConfig>,
    enabled: Option<Seq<char>>,
    delay: Option<Seq<char>>,
    timeout: Option<Seq<char>>,
    text: Seq<char>,
)
    ensures
        UserIdleConfig::loaded(Some(c), None, delay, timeout).enabled == c.enabled,
        UserIdleConfig::loaded(Some(c), enabled, None, timeout).delay == c.delay,
        UserIdleConfig::loaded(Some(c), enabled, delay, None).timeout == c.timeout,
        UserIdleConfig::loaded(section, Some(text), delay, timeout).enabled <==> text == "true"@,
{
}

} // verus!
