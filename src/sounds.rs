use vstd::prelude::*;
use vstd::string::StringExecFns;

verus! {

/// The shot sound's asset.
#[derive(Clone, Debug, PartialEq, Eq)]
pub struct FireLaserSound(pub String);

/// The invader-killed sound's asset.
#[derive(Clone, Debug, PartialEq, Eq)]
pub struct InvaderKilledSound(pub String);

/// The first note of the marching cue.
#[derive(Clone, Debug, PartialEq, Eq)]
pub struct InvaderNote0(pub String);

/// The second note of the marching cue.
#[derive(Clone, Debug, PartialEq, Eq)]
pub struct InvaderNote1(pub String);

/// The third note of the marching cue.
#[derive(Clone, Debug, PartialEq, Eq)]
pub struct InvaderNote2(pub String);

/// The fourth note of the marching cue.
#[derive(Clone, Debug, PartialEq, Eq)]
pub struct InvaderNote3(pub String);

/// Which note of the marching cue plays next.
#[derive(Clone, Copy, Debug, PartialEq, Eq)]
pub struct CurrentNoteIndex(pub u8);

/// The sound assets the core asks the audio backend to play.
#[derive(Clone, Debug, PartialEq, Eq)]
pub struct SoundBank {
    pub fire_laser: FireLaserSound,
    pub invader_killed: InvaderKilledSound,
    pub note_0: InvaderNote0,
    pub note_1: InvaderNote1,
    pub note_2: InvaderNote2,
    pub note_3: InvaderNote3,
}

impl SoundBank {
    /// The asset of the note that plays at a given index; any index past the
    /// third plays the fourth note.
    pub open spec fn note_asset(&self, index: u8) -> Seq<char> {
        if index == 0 {
            self.note_0.0@
        } else if index == 1 {
            self.note_1.0@
        } else if index == 2 {
            self.note_2.0@
        } else {
            self.note_3.0@
        }
    }
}

/// Names the sound assets and starts the marching cue at its first note.
pub fn load_sounds() -> (r: (SoundBank, CurrentNoteIndex))
    ensures
        r.0.fire_laser.0@ == "sounds/shoot.ogg"@,
        r.0.invader_killed.0@ == "sounds/invaderkilled.ogg"@,
        r.0.note_0.0@ == "sounds/fastinvader0.ogg"@,
        r.0.note_1.0@ == "sounds/fastinvader1.ogg"@,
        r.0.note_2.0@ == "sounds/fastinvader2.ogg"@,
        r.0.note_3.0@ == "sounds/fastinvader3.ogg"@,
        r.1 == CurrentNoteIndex(0),
{
    let bank = SoundBank {
        fire_laser: FireLaserSound(String::from_str("sounds/shoot.ogg")),
        invader_killed: InvaderKilledSound(String::from_str("sounds/invaderkilled.ogg")),
        note_0: InvaderNote0(String::from_str("sounds/fastinvader0.ogg")),
        note_1: InvaderNote1(String::from_str("sounds/fastinvader1.ogg")),
        note_2: InvaderNote2(String::from_str("sounds/fastinvader2.ogg")),
        note_3: InvaderNote3(String::from_str("sounds/fastinvader3.ogg")),
    };
    (bank, CurrentNoteIndex(0))
}

/// The note index after one more note: 0, 1, 2, 3, then back to 0.
pub open spec fn next_note(index: u8) -> u8 {
    if index < 3 {
        (index + 1) as u8
    } else {
        0
    }
}

/// Picks the marching cue's next note and moves the cue on; returns the
/// asset to play.
pub fn play_invader_sound(sounds: &SoundBank, current: &mut CurrentNoteIndex) -> (asset: String)
    ensures
        asset@ == sounds.note_asset(old(current).0),
        final(current).0 == next_note(old(current).0),
{
    let asset = match current.0 {
        0 => sounds.note_0.0.clone(),
        1 => sounds.note_1.0.clone(),
        2 => sounds.note_2.0.clone(),
        _ => sounds.note_3.0.clone(),
    };
    if current.0 < 3 {
        current.0 = current.0 + 1;
    } else {
        current.0 = 0;
    }
    asset
}

} // verus!
