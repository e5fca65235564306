//! Configuration and supervision decisions of the outbox worker pool.
use vstd::prelude::*;
use crate::application::outbox::task::TaskFormat;
use crate::application::outbox::task_handler_registry::format_views;
use crate::text::{called_with, parse_u64, parse_unsigned_spec, string_option_view};
use crate::time_span::TimeSpan;

verus! {

#[derive(Clone, Copy, Debug, PartialEq, Eq, Structural)]
pub struct OutboxWorkerPoolConfig {
    pub concurrency: usize,
    pub poll_interval: TimeSpan,
    pub handler_timeout: TimeSpan,
    pub lease: TimeSpan,
}

/// A configuration value that was refused; the text names the setting or the rule.
#[derive(Clone, Copy, Debug, PartialEq, Eq)]
pub struct OutboxWorkerPoolConfigError(pub &'static str);

pub open spec fn config_is_valid(config: OutboxWorkerPoolConfig) -> bool {
    &&& config.concurrency != 0
    &&& config.poll_interval.total_nanos() != 0
    &&& config.handler_timeout.total_nanos() != 0
    &&& config.handler_timeout.total_nanos() < config.lease.total_nanos()
    &&& config.lease.total_nanos() / 1_000_000 <= i64::MAX
    &&& config.poll_interval.total_nanos() / 1_000_000 <= i64::MAX
}

/// A setting: its default when unset, its value when it parses as a `u64`, otherwise refused.
pub open spec fn setting(value: Option<Seq<char>>, default: u64) -> Option<int> {
    match value {
        None => Some(default as int),
        Some(text) => parse_unsigned_spec(text, u64::MAX as int),
    }
}

/// The configuration that the four settings describe, or the name of the first refused
/// setting, or the validity rule they break.
pub open spec fn config_from_settings(
    concurrency: Option<Seq<char>>,
    poll_interval_ms: Option<Seq<char>>,
    handler_timeout_secs: Option<Seq<char>>,
    lease_secs: Option<Seq<char>>,
) -> Result<(int, int, int, int), Seq<char>> {
    match setting(concurrency, 4) {
        None => Err("OUTBOX_WORKER_CONCURRENCY"@),
        Some(workers) => if workers > usize::MAX {
            Err("OUTBOX_WORKER_CONCURRENCY"@)
        } else {
            match setting(poll_interval_ms, 1000) {
                None => Err("OUTBOX_POLL_INTERVAL_MS"@),
                Some(poll) => match setting(handler_timeout_secs, 30) {
                    None => Err("OUTBOX_HANDLER_TIMEOUT_SECS"@),
                    Some(timeout) => match setting(lease_secs, 60) {
                        None => Err("OUTBOX_LEASE_SECS"@),
                        Some(lease) => {
                            let poll_nanos = poll * 1_000_000;
                            let timeout_nanos = timeout * 1_000_000_000;
                            let lease_nanos = lease * 1_000_000_000;
                            if workers == 0 || poll_nanos == 0 || timeout_nanos == 0 || timeout_nanos >= lease_nanos
                                || lease_nanos / 1_000_000 > i64::MAX || poll_nanos / 1_000_000 > i64::MAX {
                                Err("positive values and handler_timeout < lease are required"@)
                            } else {
                                Ok((workers, poll_nanos, timeout_nanos, lease_nanos))
                            }
                        },
                    },
                },
            }
        },
    }
}

impl OutboxWorkerPoolConfig {
    /// Four workers, polling every second, 30-second handler timeout, 60-second lease.
    pub fn default() -> (config: OutboxWorkerPoolConfig)
        ensures
            config.concurrency == 4,
            config.poll_interval.total_nanos() == 1_000_000_000,
            config.handler_timeout.total_nanos() == 30_000_000_000,
            config.lease.total_nanos() == 60_000_000_000,
            config_is_valid(config),
    {
        OutboxWorkerPoolConfig {
            concurrency: 4,
            poll_interval: TimeSpan::from_secs(1),
            handler_timeout: TimeSpan::from_secs(30),
            lease: TimeSpan::from_secs(60),
        }
    }

    pub fn validate(&self) -> (checked: Result<(), OutboxWorkerPoolConfigError>)
        ensures
            checked is Ok <==> config_is_valid(*self),
            checked matches Err(e) ==> e.0@ == "positive values and handler_timeout < lease are required"@,
    {
        if self.concurrency == 0 || self.poll_interval.is_zero() || self.handler_timeout.is_zero()
            || !self.handler_timeout.shorter_than(&self.lease) || self.lease.as_millis() > 9_223_372_036_854_775_807u128
            || self.poll_interval.as_millis() > 9_223_372_036_854_775_807u128 {
            return Err(OutboxWorkerPoolConfigError("positive values and handler_timeout < lease are required"));
        }
        Ok(())
    }

    /// The configuration from the four settings' raw values (`None` when unset).
    pub fn from_settings(
        concurrency: Option<String>,
        poll_interval_ms: Option<String>,
        handler_timeout_secs: Option<String>,
        lease_secs: Option<String>,
    ) -> (config: Result<OutboxWorkerPoolConfig, OutboxWorkerPoolConfigError>)
        ensures
            ({
                let expected = config_from_settings(
                    string_option_view(concurrency),
                    string_option_view(poll_interval_ms),
                    string_option_view(handler_timeout_secs),
                    string_option_view(lease_secs),
                );
                match config {
                    Ok(c) => expected == Ok::<(int, int, int, int), Seq<char>>(
                        (
                            c.concurrency as int,
                            c.poll_interval.total_nanos(),
                            c.handler_timeout.total_nanos(),
                            c.lease.total_nanos(),
                        ),
                    ) && config_is_valid(c),
                    Err(e) => expected == Err::<(int, int, int, int), Seq<char>>(e.0@),
                }
            }),
    {
        let workers = match number(concurrency, 4) {
            Some(n) => n,
            None => return Err(OutboxWorkerPoolConfigError("OUTBOX_WORKER_CONCURRENCY")),
        };
        if workers > usize::MAX as u64 {
            return Err(OutboxWorkerPoolConfigError("OUTBOX_WORKER_CONCURRENCY"));
        }
        let poll = match number(poll_interval_ms, 1000) {
            Some(n) => n,
            None => return Err(OutboxWorkerPoolConfigError("OUTBOX_POLL_INTERVAL_MS")),
        };
        let timeout = match number(handler_timeout_secs, 30) {
            Some(n) => n,
            None => return Err(OutboxWorkerPoolConfigError("OUTBOX_HANDLER_TIMEOUT_SECS")),
        };
        let lease = match number(lease_secs, 60) {
            Some(n) => n,
            None => return Err(OutboxWorkerPoolConfigError("OUTBOX_LEASE_SECS")),
        };
        let config = OutboxWorkerPoolConfig {
            concurrency: workers as usize,
            poll_interval: TimeSpan::from_millis(poll),
            handler_timeout: TimeSpan::from_secs(timeout),
            lease: TimeSpan::from_secs(lease),
        };
        config.validate()?;
        Ok(config)
    }

    /// The configuration from the environment as `lookup` reads it. The settings are looked up
    /// in order, each once, and none after the first one that is refused.
    pub fn from_lookup(lookup: impl Fn(&str) -> Option<String>) -> (config: Result<
        OutboxWorkerPoolConfig,
        OutboxWorkerPoolConfigError,
    >)
        requires
            forall|name: &str| lookup.requires((name,)),
        ensures
            exists|c: Option<String>, p: Option<String>, t: Option<String>, l: Option<String>|
                {
                    &&& called_with(lookup, "OUTBOX_WORKER_CONCURRENCY"@, c)
                    &&& readable_setting(c, 4, usize::MAX as int) ==> called_with(
                        lookup,
                        "OUTBOX_POLL_INTERVAL_MS"@,
                        p,
                    )
                    &&& readable_setting(c, 4, usize::MAX as int) && readable_setting(p, 1000, u64::MAX as int)
                        ==> called_with(lookup, "OUTBOX_HANDLER_TIMEOUT_SECS"@, t)
                    &&& readable_setting(c, 4, usize::MAX as int) && readable_setting(p, 1000, u64::MAX as int)
                        && readable_setting(t, 30, u64::MAX as int) ==> called_with(lookup, "OUTBOX_LEASE_SECS"@, l)
                    &&& #[trigger] Self::from_settings_result(c, p, t, l, config)
                },
    {
        proof {
            reveal_strlit("OUTBOX_WORKER_CONCURRENCY");
        }
        let c = lookup("OUTBOX_WORKER_CONCURRENCY");
        let ghost c0 = c;
        if !readable(&c, 4, usize::MAX as u64) {
            let config = Self::from_settings(c, None, None, None);
            assert(Self::from_settings_result(c0, None, None, None, config));
            return config;
        }
        let p = lookup("OUTBOX_POLL_INTERVAL_MS");
        let ghost p0 = p;
        if !readable(&p, 1000, u64::MAX) {
            let config = Self::from_settings(c, p, None, None);
            assert(Self::from_settings_result(c0, p0, None, None, config));
            return config;
        }
        let t = lookup("OUTBOX_HANDLER_TIMEOUT_SECS");
        let ghost t0 = t;
        if !readable(&t, 30, u64::MAX) {
            let config = Self::from_settings(c, p, t, None);
            assert(Self::from_settings_result(c0, p0, t0, None, config));
            return config;
        }
        let l = lookup("OUTBOX_LEASE_SECS");
        let ghost l0 = l;
        let config = Self::from_settings(c, p, t, l);
        assert(Self::from_settings_result(c0, p0, t0, l0, config));
        config
    }

    /// `config` is what `from_settings` answers for these raw values.
    pub open spec fn from_settings_result(
        concurrency: Option<String>,
        poll_interval_ms: Option<String>,
        handler_timeout_secs: Option<String>,
        lease_secs: Option<String>,
        config: Result<OutboxWorkerPoolConfig, OutboxWorkerPoolConfigError>,
    ) -> bool {
        let expected = config_from_settings(
            string_option_view(concurrency),
            string_option_view(poll_interval_ms),
            string_option_view(handler_timeout_secs),
            string_option_view(lease_secs),
        );
        match config {
            Ok(c) => expected == Ok::<(int, int, int, int), Seq<char>>(
                (
                    c.concurrency as int,
                    c.poll_interval.total_nanos(),
                    c.handler_timeout.total_nanos(),
                    c.lease.total_nanos(),
                ),
            ) && config_is_valid(c),
            Err(e) => expected == Err::<(int, int, int, int), Seq<char>>(e.0@),
        }
    }
}

/// Each worker's handlers must serve exactly the formats the dispatcher claims, in the same order.
pub fn check_handler_formats(handler_formats: &Vec<TaskFormat>, dispatcher_formats: &Vec<TaskFormat>) -> (checked: Result<
    (),
    OutboxWorkerPoolConfigError,
>)
    ensures
        checked is Ok <==> format_views(handler_formats@) == format_views(dispatcher_formats@),
        checked matches Err(e) ==> e.0@ == "handler and dispatcher formats must match"@,
{
    if handler_formats.len() != dispatcher_formats.len() {
        proof {
            assert(format_views(handler_formats@).len() != format_views(dispatcher_formats@).len());
        }
        return Err(OutboxWorkerPoolConfigError("handler and dispatcher formats must match"));
    }
    let mut i: usize = 0;
    while i < handler_formats.len()
        invariant
            i <= handler_formats.len(),
            handler_formats.len() == dispatcher_formats.len(),
            forall|j: int| 0 <= j < i ==> format_views(handler_formats@)[j] == format_views(dispatcher_formats@)[j],
        decreases handler_formats.len() - i,
    {
        if !handler_formats[i].same_format(&dispatcher_formats[i]) {
            proof {
                assert(format_views(handler_formats@)[i as int] != format_views(dispatcher_formats@)[i as int]);
            }
            return Err(OutboxWorkerPoolConfigError("handler and dispatcher formats must match"));
        }
        i = i + 1;
    }
    proof {
        assert(format_views(handler_formats@) =~= format_views(dispatcher_formats@));
    }
    Ok(())
}

/// The indices of the workers that are not busy, in order.
pub fn free_workers(busy: &Vec<bool>) -> (free: Vec<usize>)
    ensures
        free@ == Seq::new(busy@.len(), |i: int| i as usize).filter(|i: usize| !busy@[i as int]),
        forall|k: int| 0 <= k < free@.len() ==> free@[k] < busy@.len() && !busy@[free@[k] as int],
{
    let ghost indices = Seq::new(busy@.len(), |i: int| i as usize);
    let mut free: Vec<usize> = Vec::new();
    let mut i: usize = 0;
    while i < busy.len()
        invariant
            i <= busy.len(),
            indices == Seq::new(busy@.len(), |i: int| i as usize),
            free@ == indices.take(i as int).filter(|i: usize| !busy@[i as int]),
            forall|k: int| 0 <= k < free@.len() ==> free@[k] < i && !busy@[free@[k] as int],
        decreases busy.len() - i,
    {
        proof {
            reveal_with_fuel(Seq::filter, 1);
            assert(indices.take(i + 1).drop_last() == indices.take(i as int));
            assert(indices.take(i + 1).last() == i);
        }
        if !busy[i] {
            free.push(i);
        }
        i = i + 1;
    }
    proof {
        assert(indices.take(busy.len() as int) == indices);
    }
    free
}

/// How long shutdown waits for in-flight work: the handler timeout and five seconds more.
pub fn drain_deadline(config: &OutboxWorkerPoolConfig) -> (deadline: TimeSpan)
    requires
        config_is_valid(*config),
    ensures
        deadline.total_nanos() == config.handler_timeout.total_nanos() + 5_000_000_000,
{
    let extra = TimeSpan::from_secs(5);
    match config.handler_timeout.checked_add(&extra) {
        Some(deadline) => deadline,
        None => {
            assert(false);
            extra
        },
    }
}

/// Characters that a task type may show in logs: ASCII letters, digits and `_`.
pub open spec fn is_loggable_char(c: char) -> bool {
    ('a' <= c && c <= 'z') || ('A' <= c && c <= 'Z') || ('0' <= c && c <= '9') || c == '_'
}

/// The task type as logged: unchanged when every character is loggable, otherwise `unknown`,
/// so that stored text cannot leak into or forge log lines.
pub fn loggable_task_type(task_type: &str) -> (shown: &str)
    ensures
        shown@ == if forall|i: int| 0 <= i < task_type@.len() ==> is_loggable_char(#[trigger] task_type@[i]) {
            task_type@
        } else {
            "unknown"@
        },
{
    broadcast use vstd::string::axiom_spec_iter;
    let ghost chars = task_type@;
    for x in it: task_type.chars()
        invariant
            chars == task_type@,
            it.seq() == chars,
            forall|j: int| 0 <= j < it.index() ==> is_loggable_char(#[trigger] chars[j]),
    {
        assert(0 <= it.index() < chars.len());
        assert(chars[it.index() as int] == x);
        if !(('a' <= x && x <= 'z') || ('A' <= x && x <= 'Z') || ('0' <= x && x <= '9') || x == '_') {
            return "unknown";
        }
    }
    task_type
}

/// A raw setting is readable when it is unset or parses as a `u64`, and its value is at most `max`.
pub open spec fn readable_setting(value: Option<String>, default: u64, max: int) -> bool {
    setting(string_option_view(value), default) matches Some(n) && n <= max
}

fn readable(value: &Option<String>, default: u64, max: u64) -> (ok: bool)
    ensures
        ok == readable_setting(*value, default, max as int),
{
    match value {
        None => default <= max,
        Some(text) => match parse_u64(text.as_str()) {
            Some(n) => n <= max,
            None => false,
        },
    }
}

fn number(value: Option<String>, default: u64) -> (parsed: Option<u64>)
    ensures
        match parsed {
            Some(n) => setting(string_option_view(value), default) == Some(n as int),
            None => setting(string_option_view(value), default) is None,
        },
{
    match value {
        None => Some(default),
        Some(text) => parse_u64(text.as_str()),
    }
}

} // verus!
