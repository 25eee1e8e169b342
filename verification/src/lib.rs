//! A deterministic, low-latency admission pipeline and the services around
//! it.
//!
//! The pipeline itself is a bounded ring-buffer queue ([`queue`], with the
//! laws of its histories in [`queue_history`]), a pool of pre-allocated
//! objects ([`pool`]), a counter of the size of a cache line ([`counter`]), a
//! planner of buffer sizes ([`planner`]) and the fixed-layout request record
//! ([`request`]). [`pipeline`] puts them together, [`timer`] measures a run
//! and [`turbo_validator`] validates the whole at start-up.
//!
//! Around it stand buffers for secrets ([`secure_memory`], [`securebuffer`],
//! wiped through [`wipe`]),
//! a collector of entropy ([`entropy`]), the storage-proof protocol
//! ([`storage_verifier`]) with the rules of its service ([`web_server`]), and
//! what the network service knows of its protocols and channels ([`api`],
//! [`channel_pool`]), the settings it reads ([`settings`]), and the raw form
//! of blocks ([`block_data`]). [`bits`],
//! [`clock`], [`cpu`] and [`encoding`] serve all of them.

pub mod api;
pub mod bits;
pub mod block_data;
pub mod channel_pool;
pub mod clock;
pub mod counter;
pub mod cpu;
pub mod encoding;
pub mod entropy;
pub mod pipeline;
pub mod planner;
pub mod pool;
pub mod queue;
pub mod queue_history;
pub mod request;
pub mod secure_memory;
pub mod securebuffer;
pub mod settings;
pub mod storage_verifier;
pub mod timer;
pub mod turbo_validator;
pub mod web_server;
pub mod wipe;
