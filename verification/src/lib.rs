//! Core of a terminal mail-triage client.
//!
//! One markdown file per message, with a YAML frontmatter header block,
//! makes up a mailbox directory. This crate holds the parts of the client
//! that carry real invariants: parsing a file into an entry record,
//! resolving its dates, the per-mailbox lazy cache, the search/filter
//! engine, and the modal key router that decides, for every keystroke and
//! every background event, what the visible state becomes and which
//! side-effecting action must run next.
//!
//! Everything that touches the outside world (the terminal, the file
//! system, the external mail command) stays outside this crate; the
//! library exchanges plain values with that layer and records at most one
//! pending action and one pending load request at a time.

pub mod app;
pub mod dates;
pub mod email;
pub mod laws;
pub mod text;
pub mod watch;
pub mod wrap;

pub use text::lower_of;
pub use wrap::is_attribution;
pub use wrap::parse_quote_depth;
pub use wrap::truncate;
pub use wrap::word_wrap;
