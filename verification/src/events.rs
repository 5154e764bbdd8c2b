//! Engine notifications as typed events.
//!
//! The engine reports what happens by name. The names are matched here, once,
//! and everything past this file deals in [`SignalEvent`] only.

use vstd::prelude::*;
use vstd::string::StringSliceAdditionalSpecFns;
use vstd::utf8::{encode_utf8, encode_utf8_decode_utf8};

verus! {

/// What an engine signal can mean to the game.
#[derive(Clone, Copy, Debug, PartialEq, Eq, Hash, Structural)]
pub enum SignalEvent {
    /// The player's attack animation has run to its end.
    PlayerAttackAnimationFinished,
    /// The player's roll animation has run to its end.
    PlayerRollAnimationFinished,
    /// Something has entered the area of a tuft of grass. The first `prefix`
    /// bytes of the signal's name are the path of that grass.
    GrassAreaEntered { prefix: usize },
    /// The animation of an effect has run to its end. The first `prefix`
    /// bytes of the signal's name are the path of that effect.
    EffectAnimationFinished { prefix: usize },
}

/// The notification that a node is about to be deleted.
pub const NOTIFICATION_PREDELETE: i64 = 1;

/// The notification that the user has asked to go back.
pub const NOTIFICATION_WM_GO_BACK_REQUEST: i64 = 1007;

/// Whether `name` ends with `suffix`.
pub open spec fn ends_with(name: Seq<u8>, suffix: Seq<u8>) -> bool {
    suffix.len() <= name.len() && name.subrange(name.len() - suffix.len(), name.len() as int)
        == suffix
}

/// The event that a signal of the given name stands for. The two signals of
/// the player are known by their whole name. Grass and effects put their own
/// path in front of theirs, so those are known by how the name's bytes end.
pub open spec fn signal_for(name: Seq<char>) -> Option<SignalEvent> {
    if name == "attack_animation_finished"@ {
        Some(SignalEvent::PlayerAttackAnimationFinished)
    } else if name == "roll_animation_finished"@ {
        Some(SignalEvent::PlayerRollAnimationFinished)
    } else if ends_with(encode_utf8(name), encode_utf8("/_on_area_entered"@)) {
        Some(
            SignalEvent::GrassAreaEntered {
                prefix: (encode_utf8(name).len() - encode_utf8("/_on_area_entered"@).len()) as usize,
            },
        )
    } else if ends_with(encode_utf8(name), encode_utf8("/_on_animation_finished"@)) {
        Some(
            SignalEvent::EffectAnimationFinished {
                prefix: (encode_utf8(name).len() - encode_utf8(
                    "/_on_animation_finished"@,
                ).len()) as usize,
            },
        )
    } else {
        None
    }
}

/// The events that a run of signals stands for, in order; signals that mean
/// nothing to the game are left out.
pub open spec fn events_for(names: Seq<String>) -> Seq<SignalEvent>
    decreases names.len(),
{
    if names.len() == 0 {
        Seq::empty()
    } else {
        match signal_for(names.last()@) {
            Some(event) => events_for(names.drop_last()).push(event),
            None => events_for(names.drop_last()),
        }
    }
}

/// Whether a notification tells a level that it is being taken down.
pub open spec fn spec_is_teardown(what: i64) -> bool {
    what == NOTIFICATION_PREDELETE || what == NOTIFICATION_WM_GO_BACK_REQUEST
}

fn bytes_end_with(name: &[u8], suffix: &[u8]) -> (found: bool)
    ensures
        found == ends_with(name@, suffix@),
{
    if suffix.len() > name.len() {
        return false;
    }
    let start: usize = name.len() - suffix.len();
    let mut i: usize = 0;
    while i < suffix.len()
        invariant
            i <= suffix@.len(),
            start + suffix@.len() == name@.len(),
            name@.len() <= usize::MAX,
            forall|j: int| 0 <= j < i ==> name@[start + j] == suffix@[j],
        decreases suffix@.len() - i,
    {
        if name[start + i] != suffix[i] {
            assert(name@.subrange(start as int, name@.len() as int)[i as int] != suffix@[i as int]);
            return false;
        }
        i += 1;
    }
    assert(name@.subrange(start as int, name@.len() as int) =~= suffix@);
    true
}

fn str_eq(left: &str, right: &str) -> (same: bool)
    ensures
        same == (left@ == right@),
{
    let l = left.as_bytes();
    let r = right.as_bytes();
    let same = l.len() == r.len() && bytes_end_with(l, r);
    proof {
        if same {
            assert(l@.subrange(0, l@.len() as int) =~= l@);
            encode_utf8_decode_utf8(left@);
            encode_utf8_decode_utf8(right@);
        }
        if left@ == right@ {
            assert(l@.subrange(0, l@.len() as int) =~= l@);
        }
    }
    same
}

/// Matches the name of an engine signal to the event it stands for.
pub fn signal_event(name: &str) -> (event: Option<SignalEvent>)
    ensures
        event == signal_for(name@),
{
    let area_entered = "/_on_area_entered";
    let animation_finished = "/_on_animation_finished";
    if str_eq(name, "attack_animation_finished") {
        Some(SignalEvent::PlayerAttackAnimationFinished)
    } else if str_eq(name, "roll_animation_finished") {
        Some(SignalEvent::PlayerRollAnimationFinished)
    } else if bytes_end_with(name.as_bytes(), area_entered.as_bytes()) {
        Some(
            SignalEvent::GrassAreaEntered {
                prefix: name.as_bytes().len() - area_entered.as_bytes().len(),
            },
        )
    } else if bytes_end_with(name.as_bytes(), animation_finished.as_bytes()) {
        Some(
            SignalEvent::EffectAnimationFinished {
                prefix: name.as_bytes().len() - animation_finished.as_bytes().len(),
            },
        )
    } else {
        None
    }
}

/// Turns the signals of one tick into events, in the order in which they
/// came.
pub fn signal_event_system(names: &Vec<String>) -> (events: Vec<SignalEvent>)
    ensures
        events@ == events_for(names@),
{
    let mut events: Vec<SignalEvent> = Vec::new();
    let mut i: usize = 0;
    while i < names.len()
        invariant
            i <= names@.len(),
            events@ == events_for(names@.take(i as int)),
        decreases names@.len() - i,
    {
        proof {
            assert(names@.take(i + 1).drop_last() == names@.take(i as int));
            assert(names@.take(i + 1).last() == names@[i as int]);
        }
        match signal_event(names[i].as_str()) {
            Some(event) => {
                events.push(event);
            },
            None => {},
        }
        i += 1;
    }
    assert(names@.take(names@.len() as int) == names@);
    events
}

/// Whether a notification tells a level that it is being taken down: the
/// node is about to be deleted, or the user has asked to go back.
#[verifier::when_used_as_spec(spec_is_teardown)]
pub fn is_teardown(what: i64) -> (teardown: bool)
    ensures
        teardown == spec_is_teardown(what),
{
    what == NOTIFICATION_PREDELETE || what == NOTIFICATION_WM_GO_BACK_REQUEST
}

} // verus!
