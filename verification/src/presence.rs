//! Presence vocabulary: the Graph `availability` strings, the status words
//! of the presence command, and the labels shown to the user.

use vstd::prelude::*;
use crate::error::DomainError;
use crate::models::Presence;
use crate::text::{ascii_lower, chars_of, is_ascii_char, lowercase, owned, push_str, same_text,
    string_from_chars, to_lowercase};

verus! {

/// A presence as reported by the Graph presence API.
#[derive(Debug, Clone)]
pub struct PresenceInfo {
    pub availability: String,
    pub activity: String,
}

/// The variant of a [`Presence`], without the text of `Custom`.
#[derive(Debug, Clone, Copy, PartialEq, Eq)]
pub enum PresenceKind {
    Available,
    Busy,
    Away,
    DoNotDisturb,
    Offline,
    Custom,
}

pub open spec fn presence_kind(p: Presence) -> PresenceKind {
    match p {
        Presence::Available => PresenceKind::Available,
        Presence::Busy => PresenceKind::Busy,
        Presence::Away => PresenceKind::Away,
        Presence::DoNotDisturb => PresenceKind::DoNotDisturb,
        Presence::Offline => PresenceKind::Offline,
        Presence::Custom(_) => PresenceKind::Custom,
    }
}

/// The presence a Graph `availability` string stands for: `Available`,
/// `Busy`, `Away` or `BeRightBack`, `DoNotDisturb`, `Offline` or
/// `PresenceUnknown`; anything else is custom.
pub open spec fn availability_kind(a: Seq<char>) -> PresenceKind {
    if a == "Available"@ {
        PresenceKind::Available
    } else if a == "Busy"@ {
        PresenceKind::Busy
    } else if a == "Away"@ || a == "BeRightBack"@ {
        PresenceKind::Away
    } else if a == "DoNotDisturb"@ {
        PresenceKind::DoNotDisturb
    } else if a == "Offline"@ || a == "PresenceUnknown"@ {
        PresenceKind::Offline
    } else {
        PresenceKind::Custom
    }
}

/// Map a Graph `availability` string into a domain [`Presence`]; an
/// unrecognised value becomes [`Presence::Custom`] carrying the string.
pub fn presence_from_info(info: PresenceInfo) -> (r: Presence)
    ensures
        presence_kind(r) == availability_kind(info.availability@),
        r matches Presence::Custom(s) ==> s@ == info.availability@,
{
    let a = info.availability.as_str();
    if same_text(a, "Available") {
        Presence::Available
    } else if same_text(a, "Busy") {
        Presence::Busy
    } else if same_text(a, "Away") || same_text(a, "BeRightBack") {
        Presence::Away
    } else if same_text(a, "DoNotDisturb") {
        Presence::DoNotDisturb
    } else if same_text(a, "Offline") || same_text(a, "PresenceUnknown") {
        Presence::Offline
    } else {
        Presence::Custom(info.availability)
    }
}

/// The human-readable availability label of a presence (the Graph
/// vocabulary; a custom presence shows its own text).
pub open spec fn label_spec(p: Presence) -> Seq<char> {
    match p {
        Presence::Available => "Available"@,
        Presence::Busy => "Busy"@,
        Presence::Away => "Away"@,
        Presence::DoNotDisturb => "DoNotDisturb"@,
        Presence::Offline => "Offline"@,
        Presence::Custom(s) => s@,
    }
}

/// Human-readable availability label for a [`Presence`] value.
pub fn presence_label(presence: &Presence) -> (r: String)
    ensures
        r@ == label_spec(*presence),
{
    match presence {
        Presence::Available => owned("Available"),
        Presence::Busy => owned("Busy"),
        Presence::Away => owned("Away"),
        Presence::DoNotDisturb => owned("DoNotDisturb"),
        Presence::Offline => owned("Offline"),
        Presence::Custom(s) => owned(s.as_str()),
    }
}

/// The status word of a presence for the presence API.
pub open spec fn status_word_spec(p: Presence) -> Seq<char> {
    match p {
        Presence::Available => "available"@,
        Presence::Busy => "busy"@,
        Presence::Away => "away"@,
        Presence::DoNotDisturb => "dnd"@,
        Presence::Offline => "offline"@,
        Presence::Custom(s) => s@,
    }
}

/// Map a domain [`Presence`] to the status word understood by the presence
/// API; a custom presence passes its own text.
pub fn presence_status_str(presence: &Presence) -> (r: String)
    ensures
        r@ == status_word_spec(*presence),
{
    match presence {
        Presence::Available => owned("available"),
        Presence::Busy => owned("busy"),
        Presence::Away => owned("away"),
        Presence::DoNotDisturb => owned("dnd"),
        Presence::Offline => owned("offline"),
        Presence::Custom(s) => owned(s.as_str()),
    }
}

/// The availability and activity the presence API is asked to set.
#[derive(Debug, Clone)]
pub struct PreferredPresence {
    pub availability: String,
    pub activity: String,
}

/// The `(availability, activity)` pair set for a lowercased status word, if
/// the word is one of `available`, `busy`, `dnd`/`donotdisturb`, `away`,
/// `offline`.
pub open spec fn preference_for(word: Seq<char>) -> Option<(Seq<char>, Seq<char>)> {
    if word == "available"@ {
        Some(("Available"@, "Available"@))
    } else if word == "busy"@ {
        Some(("Busy"@, "InACall"@))
    } else if word == "dnd"@ || word == "donotdisturb"@ {
        Some(("DoNotDisturb"@, "Presenting"@))
    } else if word == "away"@ {
        Some(("Away"@, "Away"@))
    } else if word == "offline"@ {
        Some(("Offline"@, "OffWork"@))
    } else {
        None
    }
}

/// The preferred presence to set for a status word (compared lowercased):
/// `available` (Available/Available), `busy` (Busy/InACall), `dnd` or
/// `donotdisturb` (DoNotDisturb/Presenting), `away` (Away/Away), `offline`
/// (Offline/OffWork); any other word is [`DomainError::Invalid`].
pub fn preferred_presence(status: &str) -> (r: Result<PreferredPresence, DomainError>)
    ensures
        match preference_for(lowercase(status@)) {
            Some(pair) => r matches Ok(p) && p.availability@ == pair.0 && p.activity@ == pair.1,
            None => r matches Err(e) && e matches DomainError::Invalid(m) && m@
                == "unknown presence status: "@ + lowercase(status@)
                + ". Use: available, busy, dnd, away, offline"@,
        },
        (forall|i: int| 0 <= i < status@.len() ==> is_ascii_char(#[trigger] status@[i]))
            ==> lowercase(status@) == status@.map_values(|c: char| ascii_lower(c)),
{
    let lower = to_lowercase(status);
    let w = lower.as_str();
    let (availability, activity) = if same_text(w, "available") {
        ("Available", "Available")
    } else if same_text(w, "busy") {
        ("Busy", "InACall")
    } else if same_text(w, "dnd") || same_text(w, "donotdisturb") {
        ("DoNotDisturb", "Presenting")
    } else if same_text(w, "away") {
        ("Away", "Away")
    } else if same_text(w, "offline") {
        ("Offline", "OffWork")
    } else {
        let mut v = chars_of("unknown presence status: ");
        push_str(&mut v, w);
        push_str(&mut v, ". Use: available, busy, dnd, away, offline");
        return Err(DomainError::Invalid(string_from_chars(&v)));
    };
    Ok(PreferredPresence { availability: owned(availability), activity: owned(activity) })
}

/// Reading back the label of a presence gives that presence, except for a
/// custom presence whose text is itself one of the recognised availability
/// strings.
pub proof fn lemma_label_round_trips(p: Presence)
    requires
        presence_kind(p) == PresenceKind::Custom ==> availability_kind(label_spec(p))
            == PresenceKind::Custom,
    ensures
        availability_kind(label_spec(p)) == presence_kind(p),
{
    reveal_strlit("Available");
    reveal_strlit("Busy");
    reveal_strlit("Away");
    reveal_strlit("BeRightBack");
    reveal_strlit("DoNotDisturb");
    reveal_strlit("Offline");
    reveal_strlit("PresenceUnknown");
    assert("Busy"@ != "Available"@) by { assert("Busy"@.len() != "Available"@.len()); }
    assert("Away"@ != "Available"@) by { assert("Away"@[1] != "Available"@[1]); }
    assert("Away"@ != "Busy"@) by { assert("Away"@[0] != "Busy"@[0]); }
    assert("DoNotDisturb"@ != "Available"@) by { assert("DoNotDisturb"@.len() != "Available"@.len()); }
    assert("DoNotDisturb"@ != "Busy"@) by { assert("DoNotDisturb"@.len() != "Busy"@.len()); }
    assert("DoNotDisturb"@ != "Away"@) by { assert("DoNotDisturb"@.len() != "Away"@.len()); }
    assert("DoNotDisturb"@ != "BeRightBack"@) by { assert("DoNotDisturb"@.len() != "BeRightBack"@.len()); }
    assert("Offline"@ != "Available"@) by { assert("Offline"@.len() != "Available"@.len()); }
    assert("Offline"@ != "Busy"@) by { assert("Offline"@.len() != "Busy"@.len()); }
    assert("Offline"@ != "Away"@) by { assert("Offline"@.len() != "Away"@.len()); }
    assert("Offline"@ != "BeRightBack"@) by { assert("Offline"@.len() != "BeRightBack"@.len()); }
    assert("Offline"@ != "DoNotDisturb"@) by { assert("Offline"@.len() != "DoNotDisturb"@.len()); }
}

/// Every presence other than a custom one has a status word that the
/// presence command accepts: the word is plain lowercase ASCII, so it is its
/// own lowercase (see [`preferred_presence`]), and it names a preference.
pub proof fn lemma_status_word_accepted(p: Presence)
    requires
        presence_kind(p) != PresenceKind::Custom,
    ensures
        forall|i: int|
            0 <= i < status_word_spec(p).len() ==> is_ascii_char(#[trigger] status_word_spec(p)[i]),
        status_word_spec(p).map_values(|c: char| ascii_lower(c)) == status_word_spec(p),
        preference_for(status_word_spec(p)) is Some,
{
    reveal_strlit("available");
    reveal_strlit("busy");
    reveal_strlit("away");
    reveal_strlit("dnd");
    reveal_strlit("offline");
    let w = status_word_spec(p);
    assert(w.map_values(|c: char| ascii_lower(c)) =~= w);
}

} // verus!
