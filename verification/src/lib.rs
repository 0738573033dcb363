//! The core of a music player that plugins extend. Plugins run in a sandbox; they find
//! tracks and read their tags, hand out the bytes of a track, and decode those bytes into
//! samples. The host keeps what they find in a catalog and plays a queue of tracks.
//!
//! - `ident`, `tags`, `media`, `messages`: the values that host and plugins exchange.
//! - `wire`, `wire_tags`: how those values stand on the wire, and that what is written is
//!   read back as it was.
//! - `runtime`, `plugin`, `pool`, `registry`: plugin instances, the typed calls into them,
//!   the pool of instances of one plugin, and the registry of all pools.
//! - `queue`, `decoder`, `prefetch`, `audio`: the play queue, the stream of samples of one
//!   track, the load of the track that comes next, and the source that the audio output
//!   pulls.
//! - `library`, `lofty_tags`: the scan of the library, and the tags of audio files.
//! - `db`: the catalog and the rules by which a scanned track finds its album, its artist
//!   and its track group.
//! - `notifications`, `background_task`, `task_log`, `theme`, `layout`, `ui`, `view`, `sql`,
//!   `text`: what surrounds the player on the screen and in its logs.
//!
//! Nothing in here starts a thread or waits for one, and nothing reads a directory or a
//! clock: whoever uses the library does, and hands in what came of it.

pub mod audio;
pub mod background_task;
pub mod db;
pub mod decoder;
pub mod ident;
pub mod layout;
pub mod library;
pub mod lofty_tags;
pub mod media;
pub mod messages;
pub mod notifications;
pub mod plugin;
pub mod pool;
pub mod prefetch;
pub mod queue;
pub mod registry;
pub mod runtime;
pub mod sql;
pub mod tags;
pub mod task_log;
pub mod text;
pub mod theme;
pub mod ui;
pub mod view;
pub mod wire;
pub mod wire_tags;
