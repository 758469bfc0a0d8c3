use vstd::prelude::*;

verus! {

/// The quality at which tracks are streamed.
#[derive(Debug, Clone, Copy, PartialEq, Eq, Structural)]
pub enum Bitrate {
    Bitrate96,
    Bitrate160,
    Bitrate320,
}

/// The audio output that a player renders to.
#[derive(Debug, PartialEq, Eq)]
pub enum AudioBackend {
    /// PulseAudio, which takes no device.
    PulseAudio,
    /// ALSA, on the device of this name.
    Alsa(String),
}

impl Clone for AudioBackend {
    fn clone(&self) -> (copy: Self)
        ensures
            copy == *self,
    {
        match self {
            AudioBackend::PulseAudio => AudioBackend::PulseAudio,
            AudioBackend::Alsa(device) => AudioBackend::Alsa(device.clone()),
        }
    }
}

impl AudioBackend {
    /// The name under which the output is registered.
    pub open spec fn sink_name(self) -> Seq<char> {
        match self {
            AudioBackend::PulseAudio => "pulseaudio"@,
            AudioBackend::Alsa(_) => "alsa"@,
        }
    }

    /// The device that the output is opened on, where it takes one.
    pub open spec fn sink_device(self) -> Option<String> {
        match self {
            AudioBackend::PulseAudio => None,
            AudioBackend::Alsa(device) => Some(device),
        }
    }

    /// What the output is opened with: the name under which it is
    /// registered, and the device where it takes one.
    pub fn into_sink(self) -> (sink: (String, Option<String>))
        ensures
            sink.0@ == self.sink_name(),
            sink.1 == self.sink_device(),
    {
        match self {
            AudioBackend::PulseAudio => ("pulseaudio".to_owned(), None),
            AudioBackend::Alsa(device) => ("alsa".to_owned(), Some(device)),
        }
    }
}

/// What a player is built from. A value of it is replaced as a whole, never
/// changed in part.
#[derive(Debug, PartialEq, Eq)]
pub struct SpotifyPlayerSettings {
    pub bitrate: Bitrate,
    pub backend: AudioBackend,
    /// The one endpoint port to connect to; `None` to try the known ones in
    /// turn.
    pub ap_port: Option<u16>,
}

impl Clone for SpotifyPlayerSettings {
    fn clone(&self) -> (copy: Self)
        ensures
            copy == *self,
    {
        SpotifyPlayerSettings {
            bitrate: self.bitrate,
            backend: self.backend.clone(),
            ap_port: self.ap_port,
        }
    }
}

impl Default for SpotifyPlayerSettings {
    /// 160 kbit/s on PulseAudio, with no fixed endpoint.
    fn default() -> (settings: Self)
        ensures
            settings == (SpotifyPlayerSettings {
                bitrate: Bitrate::Bitrate160,
                backend: AudioBackend::PulseAudio,
                ap_port: None,
            }),
    {
        SpotifyPlayerSettings {
            bitrate: Bitrate::Bitrate160,
            backend: AudioBackend::PulseAudio,
            ap_port: None,
        }
    }
}

} // verus!
