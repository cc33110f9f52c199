//! The command line: the commands the client offers and their arguments.

use vstd::prelude::*;

verus! {

/// The parsed command line.
#[derive(Debug)]
pub struct Cli {
    pub command: Commands,
    /// Enable verbose logging.
    pub verbose: bool,
}

/// The commands of the client.
#[derive(Debug)]
pub enum Commands {
    /// Authenticate with Microsoft Teams.
    Login {
        /// Force interactive login even if a cached token exists.
        force: bool,
    },
    /// Log out and clear cached credentials.
    Logout,
    /// Show current authentication status.
    Status,
    /// List recent chats.
    Chats {
        /// Maximum number of chats to show.
        limit: usize,
    },
    /// Read messages from a chat.
    Read {
        /// Chat thread id (from `chats` output).
        chat_id: String,
        /// Maximum number of messages to show.
        limit: usize,
    },
    /// Send a message.
    Send {
        /// Chat thread id (from `chats` output).
        to: String,
        /// Message content.
        message: String,
    },
    /// List joined teams and their channels.
    Teams,
    /// Show current user info (verify auth works).
    Whoami,
    /// Connect to the Trouter WebSocket push service.
    Trouter,
    /// Get/set presence status.
    Presence {
        /// New status: available, busy, dnd, away, offline.
        set: Option<String>,
    },
    /// Place a test call to yourself (self-call).
    CallTest {
        /// Duration in seconds to keep the call active.
        duration: u64,
        /// Enable call recording via recorder bot injection.
        record: bool,
        /// Call the Echo / Call Quality Tester bot instead of a channel meeting.
        echo: bool,
        /// 1:1 chat thread id to call.
        thread: Option<String>,
        /// Enable camera capture for video send.
        camera: bool,
        /// Enable a video display window for received video.
        display: bool,
        /// Use a 1kHz test tone instead of the real microphone.
        tone: bool,
    },
    /// Launch the terminal user interface.
    Tui,
}

/// The default number of chats listed and of messages read.
pub const DEFAULT_LIMIT: usize = 20;

/// The default duration of a test call, in seconds.
pub const DEFAULT_CALL_SECS: u64 = 15;

impl Cli {
    /// The log level of the run: `debug` when verbose, else `info`.
    pub fn log_filter(&self) -> (r: &'static str)
        ensures
            r@ == (if self.verbose {
                "debug"@
            } else {
                "info"@
            }),
    {
        if self.verbose {
            "debug"
        } else {
            "info"
        }
    }
}

} // verus!
