//! The kinds of command that the decoder knows, and the `endpoint` text that
//! selects each.

use crate::text::same_text;
use vstd::prelude::*;

verus! {

/// A kind of command with a payload shape of its own.
#[derive(Clone, Copy, Debug, PartialEq, Eq)]
pub enum CommandKind {
    Transfer,
    Play,
    Pause,
    SeekTo,
    SetShufflingContext,
    SetRepeatingTrack,
    SetRepeatingContext,
    AddToQueue,
    SetQueue,
    SetOptions,
    UpdateContext,
    SkipNext,
    SkipPrev,
    Resume,
}

/// The kind that an `endpoint` text selects; `None` for a text that selects
/// none, which includes every text that differs from a known one in case.
pub open spec fn kind_of(endpoint: Seq<char>) -> Option<CommandKind> {
    if endpoint == "transfer"@ {
        Some(CommandKind::Transfer)
    } else if endpoint == "play"@ {
        Some(CommandKind::Play)
    } else if endpoint == "pause"@ {
        Some(CommandKind::Pause)
    } else if endpoint == "seek_to"@ {
        Some(CommandKind::SeekTo)
    } else if endpoint == "set_shuffling_context"@ {
        Some(CommandKind::SetShufflingContext)
    } else if endpoint == "set_repeating_track"@ {
        Some(CommandKind::SetRepeatingTrack)
    } else if endpoint == "set_repeating_context"@ {
        Some(CommandKind::SetRepeatingContext)
    } else if endpoint == "add_to_queue"@ {
        Some(CommandKind::AddToQueue)
    } else if endpoint == "set_queue"@ {
        Some(CommandKind::SetQueue)
    } else if endpoint == "set_options"@ {
        Some(CommandKind::SetOptions)
    } else if endpoint == "update_context"@ {
        Some(CommandKind::UpdateContext)
    } else if endpoint == "skip_next"@ {
        Some(CommandKind::SkipNext)
    } else if endpoint == "skip_prev"@ {
        Some(CommandKind::SkipPrev)
    } else if endpoint == "resume"@ {
        Some(CommandKind::Resume)
    } else {
        None
    }
}

impl CommandKind {
    /// The `endpoint` text that selects this kind.
    pub open spec fn endpoint(self) -> Seq<char> {
        match self {
            CommandKind::Transfer => "transfer"@,
            CommandKind::Play => "play"@,
            CommandKind::Pause => "pause"@,
            CommandKind::SeekTo => "seek_to"@,
            CommandKind::SetShufflingContext => "set_shuffling_context"@,
            CommandKind::SetRepeatingTrack => "set_repeating_track"@,
            CommandKind::SetRepeatingContext => "set_repeating_context"@,
            CommandKind::AddToQueue => "add_to_queue"@,
            CommandKind::SetQueue => "set_queue"@,
            CommandKind::SetOptions => "set_options"@,
            CommandKind::UpdateContext => "update_context"@,
            CommandKind::SkipNext => "skip_next"@,
            CommandKind::SkipPrev => "skip_prev"@,
            CommandKind::Resume => "resume"@,
        }
    }

    /// The `endpoint` text that selects this kind.
    pub fn name(self) -> (name: &'static str)
        ensures
            name@ == self.endpoint(),
    {
        match self {
            CommandKind::Transfer => "transfer",
            CommandKind::Play => "play",
            CommandKind::Pause => "pause",
            CommandKind::SeekTo => "seek_to",
            CommandKind::SetShufflingContext => "set_shuffling_context",
            CommandKind::SetRepeatingTrack => "set_repeating_track",
            CommandKind::SetRepeatingContext => "set_repeating_context",
            CommandKind::AddToQueue => "add_to_queue",
            CommandKind::SetQueue => "set_queue",
            CommandKind::SetOptions => "set_options",
            CommandKind::UpdateContext => "update_context",
            CommandKind::SkipNext => "skip_next",
            CommandKind::SkipPrev => "skip_prev",
            CommandKind::Resume => "resume",
        }
    }

    /// Classifies an `endpoint` text.
    pub fn from_endpoint(endpoint: &str) -> (kind: Option<CommandKind>)
        ensures
            kind == kind_of(endpoint@),
    {
        if same_text(endpoint, "transfer") {
            Some(CommandKind::Transfer)
        } else if same_text(endpoint, "play") {
            Some(CommandKind::Play)
        } else if same_text(endpoint, "pause") {
            Some(CommandKind::Pause)
        } else if same_text(endpoint, "seek_to") {
            Some(CommandKind::SeekTo)
        } else if same_text(endpoint, "set_shuffling_context") {
            Some(CommandKind::SetShufflingContext)
        } else if same_text(endpoint, "set_repeating_track") {
            Some(CommandKind::SetRepeatingTrack)
        } else if same_text(endpoint, "set_repeating_context") {
            Some(CommandKind::SetRepeatingContext)
        } else if same_text(endpoint, "add_to_queue") {
            Some(CommandKind::AddToQueue)
        } else if same_text(endpoint, "set_queue") {
            Some(CommandKind::SetQueue)
        } else if same_text(endpoint, "set_options") {
            Some(CommandKind::SetOptions)
        } else if same_text(endpoint, "update_context") {
            Some(CommandKind::UpdateContext)
        } else if same_text(endpoint, "skip_next") {
            Some(CommandKind::SkipNext)
        } else if same_text(endpoint, "skip_prev") {
            Some(CommandKind::SkipPrev)
        } else if same_text(endpoint, "resume") {
            Some(CommandKind::Resume)
        } else {
            None
        }
    }
}

/// Every kind is selected by its own `endpoint` text, and by no other: the
/// texts of two kinds differ.
pub proof fn endpoint_selects_its_kind(kind: CommandKind)
    ensures
        kind_of(kind.endpoint()) == Some(kind),
{
    reveal_strlit("transfer");
    reveal_strlit("play");
    reveal_strlit("pause");
    reveal_strlit("seek_to");
    reveal_strlit("set_shuffling_context");
    reveal_strlit("set_repeating_track");
    reveal_strlit("set_repeating_context");
    reveal_strlit("add_to_queue");
    reveal_strlit("set_queue");
    reveal_strlit("set_options");
    reveal_strlit("update_context");
    reveal_strlit("skip_next");
    reveal_strlit("skip_prev");
    reveal_strlit("resume");
    // Texts of different lengths differ.
    assert("transfer"@.len() == 8);
    assert("play"@.len() == 4);
    assert("pause"@.len() == 5);
    assert("seek_to"@.len() == 7);
    assert("set_shuffling_context"@.len() == 21);
    assert("set_repeating_track"@.len() == 19);
    assert("set_repeating_context"@.len() == 21);
    assert("add_to_queue"@.len() == 12);
    assert("set_queue"@.len() == 9);
    assert("set_options"@.len() == 11);
    assert("update_context"@.len() == 14);
    assert("skip_next"@.len() == 9);
    assert("skip_prev"@.len() == 9);
    assert("resume"@.len() == 6);
    // Texts of one length differ in a character.
    assert("set_shuffling_context"@[4] == 's' && "set_repeating_context"@[4] == 'r');
    assert("set_queue"@[1] == 'e' && "skip_next"@[1] == 'k' && "skip_prev"@[1] == 'k');
    assert("skip_next"@[5] == 'n' && "skip_prev"@[5] == 'p');
}

/// A text selects a kind only if it is that kind's `endpoint` text.
pub proof fn selected_kind_has_that_endpoint(endpoint: Seq<char>)
    ensures
        kind_of(endpoint) matches Some(kind) ==> kind.endpoint() == endpoint,
{
}

} // verus!
