use vstd::prelude::*;

use crate::error::ConfigError;

verus! {

/// Where the tools run: against a local stand-in for the queue service, or
/// against the remote service itself.
#[derive(Debug, Clone, Copy, PartialEq, Eq, Structural)]
pub enum RuntimeMode {
    Local,
    Remote,
}

/// Runtime section of a resolved configuration. Both fields are required:
/// resolution fails rather than produce a config without them.
#[derive(Debug, Clone, PartialEq, Eq)]
pub struct RuntimeConfig {
    pub mode: RuntimeMode,
    pub region: String,
}

/// Queue section of a resolved configuration. Every field is optional; the
/// queue name may stay absent until the command line supplies one.
#[derive(Debug, Clone, PartialEq, Eq)]
pub struct SqsConfig {
    pub queue_name: Option<String>,
    pub endpoint_url: Option<String>,
    pub visibility_timeout_secs: Option<i32>,
    pub fifo: Option<bool>,
    pub content_based_dedup: Option<bool>,
}

/// Receive section of a resolved configuration.
#[derive(Debug, Clone, PartialEq, Eq)]
pub struct RecvConfig {
    pub wait_secs: Option<i32>,
}

/// The configuration a command runs under, resolved from layered sources.
#[derive(Debug, Clone, PartialEq, Eq)]
pub struct AppConfig {
    pub runtime: RuntimeConfig,
    pub sqs: SqsConfig,
    pub recv: RecvConfig,
}

/// One layered configuration source — the root file, the lab-scoped file, or
/// the environment — reduced to the keys the tools read. A key a source does
/// not set is `None` and lets lower-precedence sources show through.
#[derive(Debug, Clone, PartialEq, Eq)]
pub struct ConfigSource {
    pub mode: Option<RuntimeMode>,
    pub region: Option<String>,
    pub queue_name: Option<String>,
    pub endpoint_url: Option<String>,
    pub visibility_timeout_secs: Option<i32>,
    pub fifo: Option<bool>,
    pub content_based_dedup: Option<bool>,
    pub wait_secs: Option<i32>,
}

/// Overlay of one key: the higher-precedence source wins where it sets the
/// key, and the lower one shows through where it does not.
pub open spec fn pick<T>(base: Option<T>, over: Option<T>) -> Option<T> {
    if over is Some {
        over
    } else {
        base
    }
}

/// Overlay of a whole source, key by key.
pub open spec fn spec_overlay(base: ConfigSource, over: ConfigSource) -> ConfigSource {
    ConfigSource {
        mode: pick(base.mode, over.mode),
        region: pick(base.region, over.region),
        queue_name: pick(base.queue_name, over.queue_name),
        endpoint_url: pick(base.endpoint_url, over.endpoint_url),
        visibility_timeout_secs: pick(base.visibility_timeout_secs, over.visibility_timeout_secs),
        fifo: pick(base.fifo, over.fifo),
        content_based_dedup: pick(base.content_based_dedup, over.content_based_dedup),
        wait_secs: pick(base.wait_secs, over.wait_secs),
    }
}

/// The source the three layers merge to: root first, then the lab source if
/// one was found, then the environment, later sources winning per key.
pub open spec fn spec_merged(root: ConfigSource, lab: Option<ConfigSource>, env: ConfigSource) -> ConfigSource {
    match lab {
        Some(l) => spec_overlay(spec_overlay(root, l), env),
        None => spec_overlay(root, env),
    }
}

/// What a merged source resolves to: a full configuration when the required
/// runtime keys are set, and `ConfigError::Invalid` otherwise.
pub open spec fn spec_validate(m: ConfigSource) -> Result<AppConfig, ConfigError> {
    if m.mode is Some && m.region is Some {
        Ok(
            AppConfig {
                runtime: RuntimeConfig { mode: m.mode->0, region: m.region->0 },
                sqs: SqsConfig {
                    queue_name: m.queue_name,
                    endpoint_url: m.endpoint_url,
                    visibility_timeout_secs: m.visibility_timeout_secs,
                    fifo: m.fifo,
                    content_based_dedup: m.content_based_dedup,
                },
                recv: RecvConfig { wait_secs: m.wait_secs },
            },
        )
    } else {
        Err(ConfigError::Invalid)
    }
}

/// The whole resolution: the root source is required, the lab source is
/// optional, the environment always applies, and the merged result must set
/// the required runtime keys.
pub open spec fn spec_load_merged(
    root: Option<ConfigSource>,
    lab: Option<ConfigSource>,
    env: ConfigSource,
) -> Result<AppConfig, ConfigError> {
    match root {
        Some(r) => spec_validate(spec_merged(r, lab, env)),
        None => Err(ConfigError::MissingRoot),
    }
}

/// Overlay `over` on `base`: keys set in `over` win, the rest show through.
pub fn overlay(base: ConfigSource, over: ConfigSource) -> (r: ConfigSource)
    ensures
        r == spec_overlay(base, over),
{
    ConfigSource {
        mode: if over.mode.is_some() {
            over.mode
        } else {
            base.mode
        },
        region: if over.region.is_some() {
            over.region
        } else {
            base.region
        },
        queue_name: if over.queue_name.is_some() {
            over.queue_name
        } else {
            base.queue_name
        },
        endpoint_url: if over.endpoint_url.is_some() {
            over.endpoint_url
        } else {
            base.endpoint_url
        },
        visibility_timeout_secs: if over.visibility_timeout_secs.is_some() {
            over.visibility_timeout_secs
        } else {
            base.visibility_timeout_secs
        },
        fifo: if over.fifo.is_some() {
            over.fifo
        } else {
            base.fifo
        },
        content_based_dedup: if over.content_based_dedup.is_some() {
            over.content_based_dedup
        } else {
            base.content_based_dedup
        },
        wait_secs: if over.wait_secs.is_some() {
            over.wait_secs
        } else {
            base.wait_secs
        },
    }
}

/// The wait the receive loop falls back to when no source sets one.
pub const DEFAULT_RECV_WAIT_SECS: i32 = 10;

impl AppConfig {
    /// Resolve the layered configuration: merge the root source, the lab
    /// source where one was found, and the environment source, later sources
    /// winning per key, then demand the required runtime keys.
    pub fn load_merged(
        root: Option<ConfigSource>,
        lab: Option<ConfigSource>,
        env: ConfigSource,
    ) -> (r: Result<AppConfig, ConfigError>)
        ensures
            r == spec_load_merged(root, lab, env),
    {
        let root = match root {
            Some(r) => r,
            None => {
                return Err(ConfigError::MissingRoot);
            },
        };
        let merged = match lab {
            Some(l) => overlay(overlay(root, l), env),
            None => overlay(root, env),
        };
        let mode = match merged.mode {
            Some(m) => m,
            None => {
                return Err(ConfigError::Invalid);
            },
        };
        let region = match merged.region {
            Some(g) => g,
            None => {
                return Err(ConfigError::Invalid);
            },
        };
        Ok(
            AppConfig {
                runtime: RuntimeConfig { mode, region },
                sqs: SqsConfig {
                    queue_name: merged.queue_name,
                    endpoint_url: merged.endpoint_url,
                    visibility_timeout_secs: merged.visibility_timeout_secs,
                    fifo: merged.fifo,
                    content_based_dedup: merged.content_based_dedup,
                },
                recv: RecvConfig { wait_secs: merged.wait_secs },
            },
        )
    }

    /// The configured queue name, or `fallback` where none is configured.
    pub fn queue_name_or(&self, fallback: &str) -> (r: String)
        ensures
            match self.sqs.queue_name {
                Some(n) => r == n,
                None => r@ == fallback@,
            },
    {
        match &self.sqs.queue_name {
            Some(n) => n.clone(),
            None => fallback.to_owned(),
        }
    }

    /// Whether the queue-service client should be handed static dummy
    /// credentials instead of the ambient credential chain: so when the
    /// runtime is local, or when an explicit endpoint points at a local
    /// stand-in for the service.
    pub fn use_static_credentials(&self) -> (r: bool)
        ensures
            r == (self.runtime.mode == RuntimeMode::Local || self.sqs.endpoint_url is Some),
    {
        self.runtime.mode == RuntimeMode::Local || self.sqs.endpoint_url.is_some()
    }

    /// The receive-loop wait, falling back to the default where unset.
    pub fn recv_wait_secs(&self) -> (r: i32)
        ensures
            r == match self.recv.wait_secs {
                Some(w) => w,
                None => DEFAULT_RECV_WAIT_SECS,
            },
    {
        match self.recv.wait_secs {
            Some(w) => w,
            None => DEFAULT_RECV_WAIT_SECS,
        }
    }
}

/// The highest-precedence value set for one key among the three sources:
/// the environment's where it sets the key, else the lab's, else the root's
/// — whether set or not.
pub open spec fn pick3<T>(root: Option<T>, lab: Option<T>, env: Option<T>) -> Option<T> {
    if env is Some {
        env
    } else if lab is Some {
        lab
    } else {
        root
    }
}

/// Law: merging the three sources orders them root < lab < environment on
/// every key present in more than one source (and on every key at all):
/// each key of the merged source is the highest-precedence value set for it.
pub proof fn lemma_source_precedence(root: ConfigSource, lab: ConfigSource, env: ConfigSource)
    ensures
        spec_merged(root, Some(lab), env).mode == pick3(root.mode, lab.mode, env.mode),
        spec_merged(root, Some(lab), env).region == pick3(root.region, lab.region, env.region),
        spec_merged(root, Some(lab), env).queue_name == pick3(
            root.queue_name,
            lab.queue_name,
            env.queue_name,
        ),
        spec_merged(root, Some(lab), env).endpoint_url == pick3(
            root.endpoint_url,
            lab.endpoint_url,
            env.endpoint_url,
        ),
        spec_merged(root, Some(lab), env).visibility_timeout_secs == pick3(
            root.visibility_timeout_secs,
            lab.visibility_timeout_secs,
            env.visibility_timeout_secs,
        ),
        spec_merged(root, Some(lab), env).fifo == pick3(root.fifo, lab.fifo, env.fifo),
        spec_merged(root, Some(lab), env).content_based_dedup == pick3(
            root.content_based_dedup,
            lab.content_based_dedup,
            env.content_based_dedup,
        ),
        spec_merged(root, Some(lab), env).wait_secs == pick3(
            root.wait_secs,
            lab.wait_secs,
            env.wait_secs,
        ),
{
}

/// Law: without a lab source the environment still wins over the root on
/// every key it sets, and the root shows through on every key it does not.
pub proof fn lemma_env_over_root(root: ConfigSource, env: ConfigSource)
    ensures
        spec_merged(root, None, env).mode == pick(root.mode, env.mode),
        spec_merged(root, None, env).region == pick(root.region, env.region),
        spec_merged(root, None, env).queue_name == pick(root.queue_name, env.queue_name),
        spec_merged(root, None, env).endpoint_url == pick(root.endpoint_url, env.endpoint_url),
        spec_merged(root, None, env).visibility_timeout_secs == pick(
            root.visibility_timeout_secs,
            env.visibility_timeout_secs,
        ),
        spec_merged(root, None, env).fifo == pick(root.fifo, env.fifo),
        spec_merged(root, None, env).content_based_dedup == pick(
            root.content_based_dedup,
            env.content_based_dedup,
        ),
        spec_merged(root, None, env).wait_secs == pick(root.wait_secs, env.wait_secs),
{
}

} // verus!
