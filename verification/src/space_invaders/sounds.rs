use vstd::prelude::*;

verus! {

/// Whether a write of `byte` starts the sound on bit `position`: the bit
/// differs between the byte and the byte masked by the last value.
pub open spec fn sound_triggered(byte: u8, position: u8, last_value: u8) -> bool {
    (byte & position) ^ (byte & last_value) != 0
}

/// What the audio device has to do after a write to a sound port.
#[derive(Clone, Copy, Debug, PartialEq, Eq, Structural)]
pub struct SoundCommand {
    /// `Some(true)` starts the background loop, `Some(false)` stops it.
    pub background: Option<bool>,
    /// The number of the sound file to play, if any.
    pub instant_sound: Option<u8>,
}

/// The first of the sounds on bits `positions` (numbered from `first`) that
/// a write of `byte` starts, provided nothing is playing.
pub open spec fn first_instant_sound(byte: u8, last_value: u8, sink_empty: bool, positions: Seq<u8>, first: u8) -> Option<
    u8,
>
    decreases positions.len(),
{
    if !sink_empty || positions.len() == 0 {
        None
    } else if sound_triggered(byte, positions[0], last_value) {
        Some(first)
    } else {
        first_instant_sound(byte, last_value, sink_empty, positions.drop_first(), (first + 1) as u8)
    }
}

fn triggered(byte: u8, position: u8, last_value: u8) -> (r: bool)
    ensures
        r == sound_triggered(byte, position, last_value),
{
    (byte & position) ^ (byte & last_value) > 0
}

/// `folder`, a slash, and `file`.
fn sound_path(folder: &str, file: &str) -> (r: String)
    ensures
        r@ == folder@ + "/"@ + file@,
{
    let mut path = String::from_str(folder);
    path.append("/");
    path.append(file);
    path
}

/// Sound port 3: the background loop (bit 0) and sounds 1 to 3 (bits 1 to
/// 3); the files sit in the game's folder.
pub struct SoundPort1 {
    pub last_value: u8,
    pub instant_sound_1: String,
    pub instant_sound_2: String,
    pub instant_sound_3: String,
}

/// Sound port 5: sounds 4 to 8 (bits 0 to 4).
pub struct SoundPort2 {
    pub last_value: u8,
    pub instant_sound_4: String,
    pub instant_sound_5: String,
    pub instant_sound_6: String,
    pub instant_sound_7: String,
    pub instant_sound_8: String,
}

impl SoundPort1 {
    pub fn new(folder: &str) -> (r: SoundPort1)
        ensures
            r.last_value == 0,
            r.instant_sound_1@ == folder@ + "/"@ + "1.wav"@,
            r.instant_sound_2@ == folder@ + "/"@ + "2.wav"@,
            r.instant_sound_3@ == folder@ + "/"@ + "3.wav"@,
    {
        SoundPort1 {
            last_value: 0,
            instant_sound_1: sound_path(folder, "1.wav"),
            instant_sound_2: sound_path(folder, "2.wav"),
            instant_sound_3: sound_path(folder, "3.wav"),
        }
    }

    /// What a write of `byte` asks of the audio device, given whether the
    /// background loop is playing and whether no instant sound is playing.
    pub fn write(&mut self, byte: u8, background_playing: bool, sink_empty: bool) -> (r: SoundCommand)
        ensures
            *final(self) == *old(self),
            r.background == if sound_triggered(byte, 0x01, old(self).last_value) {
                Some(!background_playing)
            } else {
                None::<bool>
            },
            r.instant_sound == first_instant_sound(byte, old(self).last_value, sink_empty, seq![0x02u8, 0x04, 0x08], 1),
    {
        let background = if triggered(byte, 0x01, self.last_value) {
            Some(!background_playing)
        } else {
            None
        };
        let instant_sound = if !sink_empty {
            None
        } else if triggered(byte, 0x02, self.last_value) {
            Some(1)
        } else if triggered(byte, 0x04, self.last_value) {
            Some(2)
        } else if triggered(byte, 0x08, self.last_value) {
            Some(3)
        } else {
            None
        };
        proof {
            reveal_with_fuel(first_instant_sound, 4);
            let positions = seq![0x02u8, 0x04, 0x08];
            assert(positions.drop_first() =~= seq![0x04u8, 0x08]);
            assert(positions.drop_first().drop_first() =~= seq![0x08u8]);
            assert(positions.drop_first().drop_first().drop_first() =~= Seq::<u8>::empty());
        }
        SoundCommand { background, instant_sound }
    }
}

impl SoundPort2 {
    pub fn new(folder: &str) -> (r: SoundPort2)
        ensures
            r.last_value == 0,
            r.instant_sound_4@ == folder@ + "/"@ + "4.wav"@,
            r.instant_sound_5@ == folder@ + "/"@ + "5.wav"@,
            r.instant_sound_6@ == folder@ + "/"@ + "6.wav"@,
            r.instant_sound_7@ == folder@ + "/"@ + "7.wav"@,
            r.instant_sound_8@ == folder@ + "/"@ + "8.wav"@,
    {
        SoundPort2 {
            last_value: 0,
            instant_sound_4: sound_path(folder, "4.wav"),
            instant_sound_5: sound_path(folder, "5.wav"),
            instant_sound_6: sound_path(folder, "6.wav"),
            instant_sound_7: sound_path(folder, "7.wav"),
            instant_sound_8: sound_path(folder, "8.wav"),
        }
    }

    /// What a write of `byte` asks of the audio device, given whether no
    /// instant sound is playing.
    pub fn write(&mut self, byte: u8, sink_empty: bool) -> (r: SoundCommand)
        ensures
            *final(self) == *old(self),
            r.background is None,
            r.instant_sound == first_instant_sound(
                byte,
                old(self).last_value,
                sink_empty,
                seq![0x01u8, 0x02, 0x04, 0x08, 0x10],
                4,
            ),
    {
        let instant_sound = if !sink_empty {
            None
        } else if triggered(byte, 0x01, self.last_value) {
            Some(4)
        } else if triggered(byte, 0x02, self.last_value) {
            Some(5)
        } else if triggered(byte, 0x04, self.last_value) {
            Some(6)
        } else if triggered(byte, 0x08, self.last_value) {
            Some(7)
        } else if triggered(byte, 0x10, self.last_value) {
            Some(8)
        } else {
            None
        };
        proof {
            reveal_with_fuel(first_instant_sound, 6);
            let positions = seq![0x01u8, 0x02, 0x04, 0x08, 0x10];
            assert(positions.drop_first() =~= seq![0x02u8, 0x04, 0x08, 0x10]);
            assert(positions.drop_first().drop_first() =~= seq![0x04u8, 0x08, 0x10]);
            assert(positions.drop_first().drop_first().drop_first() =~= seq![0x08u8, 0x10]);
            assert(positions.drop_first().drop_first().drop_first().drop_first() =~= seq![0x10u8]);
            assert(positions.drop_first().drop_first().drop_first().drop_first().drop_first()
                =~= Seq::<u8>::empty());
        }
        SoundCommand { background: None, instant_sound }
    }
}

} // verus!
