use vstd::prelude::*;

verus! {

/// Size of the memory image the console starts from.
pub const ROM_MEMORY_LIMIT: usize = 0x10000;

/// Start of the video memory in the console's address space.
pub const FRAME_BUFFER_ADDRESS: usize = 0x2400;

/// Why the console could not be set up.
#[derive(Debug)]
pub enum ConsoleError {
    CantCreateCpu { msg: String },
    CantCreateWindow { msg: String },
    CantCreateSound { msg: String },
}

/// How to start the console: the memory image, the folder with the sound
/// files, and whether to play sound.
pub struct ConsoleOptions<'a> {
    pub has_audio: bool,
    pub folder: &'a str,
    pub memory: [u8; ROM_MEMORY_LIMIT],
}

impl<'a> ConsoleOptions<'a> {
    /// Options for `memory` with sounds from `folder`; sound is on.
    pub fn new(memory: [u8; ROM_MEMORY_LIMIT], folder: &'a str) -> (r: ConsoleOptions<'a>)
        ensures
            r.has_audio,
            r.folder == folder,
            r.memory == memory,
    {
        ConsoleOptions { folder, memory, has_audio: true }
    }

    /// The same options with sound turned on or off.
    pub fn with_audio(self, has_audio: bool) -> (r: ConsoleOptions<'a>)
        ensures
            r.has_audio == has_audio,
            r.folder == self.folder,
            r.memory == self.memory,
    {
        let mut options = self;
        options.has_audio = has_audio;
        options
    }
}

} // verus!
