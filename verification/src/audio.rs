//! The registry of audio channels: which channels play what kind of audio, and how a channel
//! of each kind is played.
use vstd::prelude::*;

verus! {

/// The kind of audio a channel plays.
#[derive(Clone, Copy, Debug, PartialEq, Eq, Structural, Hash)]
pub enum AudioType {
    Environment,
    Battle,
    Sfx,
    Ui,
    Character,
    Unknown,
}

impl Default for AudioType {
    /// A kind that is not known.
    fn default() -> (r: Self)
        ensures
            r == AudioType::Unknown,
    {
        AudioType::Unknown
    }
}

/// Channel names and the kind of audio each plays, held in the engine's hash map
/// (`bevy::utils::HashMap`); its contents are named by [`channel_contents`].
#[verifier::external_body]
pub struct ChannelTable {
    map: bevy::utils::HashMap<String, AudioType>,
}

/// What a channel table holds: channel name to kind of audio.
pub uninterp spec fn channel_contents(table: ChannelTable) -> Map<Seq<char>, AudioType>;

impl ChannelTable {
    /// An empty table (`HashMap::default`).
    #[verifier::external_body]
    pub(crate) fn new() -> (r: ChannelTable)
        ensures
            channel_contents(r).dom() == Set::<Seq<char>>::empty(),
    {
        ChannelTable { map: bevy::utils::HashMap::default() }
    }

    /// Whether a channel of that name is registered (`HashMap::contains_key`).
    #[verifier::external_body]
    pub(crate) fn contains_key(&self, name: &str) -> (r: bool)
        ensures
            r == channel_contents(*self).contains_key(name@),
    {
        self.map.contains_key(name)
    }

    /// The kind of audio of a registered channel (`HashMap::get`, copied out).
    #[verifier::external_body]
    pub(crate) fn get(&self, name: &str) -> (r: Option<AudioType>)
        ensures
            r == (if channel_contents(*self).contains_key(name@) {
                Some(channel_contents(*self)[name@])
            } else {
                None::<AudioType>
            }),
    {
        self.map.get(name).copied()
    }

    /// Registers a channel, replacing an earlier entry of that name (`HashMap::insert`).
    #[verifier::external_body]
    pub(crate) fn insert(&mut self, name: String, audio_type: AudioType)
        ensures
            channel_contents(*final(self)) == channel_contents(*old(self)).insert(name@, audio_type),
    {
        self.map.insert(name, audio_type);
    }

    /// Unregisters a channel (`HashMap::remove`).
    #[verifier::external_body]
    pub(crate) fn remove(&mut self, name: &str)
        ensures
            channel_contents(*final(self)) == channel_contents(*old(self)).remove(name@),
    {
        self.map.remove(name);
    }
}

/// The volume setting a channel is played at.
#[derive(Clone, Copy, Debug, PartialEq, Eq, Structural)]
pub enum VolumeCategory {
    Environment,
    Sfx,
    Ui,
    Character,
}

impl VolumeCategory {
    /// The name under which the category's volume is stored.
    pub fn key(&self) -> (r: &'static str)
        ensures
            r@ == (match *self {
                VolumeCategory::Environment => "environment"@,
                VolumeCategory::Sfx => "sfx"@,
                VolumeCategory::Ui => "ui"@,
                VolumeCategory::Character => "character"@,
            }),
    {
        match self {
            VolumeCategory::Environment => "environment",
            VolumeCategory::Sfx => "sfx",
            VolumeCategory::Ui => "ui",
            VolumeCategory::Character => "character",
        }
    }
}

/// Where a channel's volume comes from.
#[derive(Clone, Copy, Debug, PartialEq, Eq, Structural)]
pub enum VolumeSource {
    /// The stored volume of a category (full volume when none is stored).
    Category(VolumeCategory),
    /// A low fixed volume, for audio of unknown kind.
    Quiet,
}

/// How a channel is played.
#[derive(Clone, Copy, Debug, PartialEq, Eq, Structural)]
pub struct PlaybackSettings {
    pub looped: bool,
    pub volume: VolumeSource,
}

/// Environment and battle music loop; other audio plays once.
pub open spec fn loops(audio_type: AudioType) -> bool {
    audio_type == AudioType::Environment || audio_type == AudioType::Battle
}

/// The volume of each kind of audio: environment and battle music at the environment volume,
/// the others at their own, unknown audio quietly.
pub open spec fn volume_source(audio_type: AudioType) -> VolumeSource {
    match audio_type {
        AudioType::Environment | AudioType::Battle => VolumeSource::Category(VolumeCategory::Environment),
        AudioType::Sfx => VolumeSource::Category(VolumeCategory::Sfx),
        AudioType::Ui => VolumeSource::Category(VolumeCategory::Ui),
        AudioType::Character => VolumeSource::Category(VolumeCategory::Character),
        AudioType::Unknown => VolumeSource::Quiet,
    }
}

/// How audio of a kind is played.
pub open spec fn settings_for(audio_type: AudioType) -> PlaybackSettings {
    PlaybackSettings { looped: loops(audio_type), volume: volume_source(audio_type) }
}

/// The audio channels in use.
pub struct AudioManager {
    pub muted: bool,
    pub audio: ChannelTable,
}

impl AudioManager {
    /// No channel in use, not muted.
    pub fn new() -> (r: AudioManager)
        ensures
            !r.muted,
            channel_contents(r.audio).dom() == Set::<Seq<char>>::empty(),
    {
        AudioManager { muted: false, audio: ChannelTable::new() }
    }

    /// Whether a channel of that name is in use.
    pub fn contains_channel(&self, channel_name: &str) -> (r: bool)
        ensures
            r == channel_contents(self.audio).contains_key(channel_name@),
    {
        self.audio.contains_key(channel_name)
    }

    /// Whether audio of this kind loops.
    pub fn looped_time(&self, audio_type: AudioType) -> (r: bool)
        ensures
            r == loops(audio_type),
    {
        match audio_type {
            AudioType::Environment | AudioType::Battle => true,
            _ => false,
        }
    }

    /// The volume audio of this kind plays at.
    pub fn load_correct_volume(&self, audio_type: AudioType) -> (r: VolumeSource)
        ensures
            r == volume_source(audio_type),
    {
        match audio_type {
            AudioType::Environment | AudioType::Battle => VolumeSource::Category(VolumeCategory::Environment),
            AudioType::Sfx => VolumeSource::Category(VolumeCategory::Sfx),
            AudioType::Ui => VolumeSource::Category(VolumeCategory::Ui),
            AudioType::Character => VolumeSource::Category(VolumeCategory::Character),
            AudioType::Unknown => VolumeSource::Quiet,
        }
    }

    /// Registers a new channel playing audio of the given kind and gives how to play it; a
    /// channel already in use is left alone and `None` is given.
    pub fn add_audio(&mut self, channel_name: &str, audio_type: AudioType) -> (r: Option<PlaybackSettings>)
        ensures
            final(self).muted == old(self).muted,
            channel_contents(old(self).audio).contains_key(channel_name@) ==> r is None
                && channel_contents(final(self).audio) == channel_contents(old(self).audio),
            !channel_contents(old(self).audio).contains_key(channel_name@) ==> r == Some(settings_for(audio_type))
                && channel_contents(final(self).audio) == channel_contents(old(self).audio).insert(
                channel_name@,
                audio_type,
            ),
    {
        if self.audio.contains_key(channel_name) {
            return None;
        }
        let looped = self.looped_time(audio_type);
        let volume = self.load_correct_volume(audio_type);
        self.audio.insert(String::from_str(channel_name), audio_type);
        Some(PlaybackSettings { looped, volume })
    }

    /// Unregisters a channel in use, giving whether it was in use.
    pub fn remove_audio(&mut self, channel_name: &str) -> (r: bool)
        ensures
            final(self).muted == old(self).muted,
            r == channel_contents(old(self).audio).contains_key(channel_name@),
            channel_contents(final(self).audio) == channel_contents(old(self).audio).remove(channel_name@),
    {
        if !self.audio.contains_key(channel_name) {
            proof {
                assert(channel_contents(old(self).audio).remove(channel_name@) =~= channel_contents(old(self).audio));
            }
            return false;
        }
        self.audio.remove(channel_name);
        true
    }

    /// Whether a channel is to be stopped: it is in use and the audio engine has it.
    pub fn stop_channel(&self, channel_name: &str, engine_has_channel: bool) -> (r: bool)
        ensures
            r == (channel_contents(self.audio).contains_key(channel_name@) && engine_has_channel),
    {
        self.audio.contains_key(channel_name) && engine_has_channel
    }

    /// Whether a channel is to be paused: it is in use and the audio engine has it.
    pub fn pause_channel(&self, channel_name: &str, engine_has_channel: bool) -> (r: bool)
        ensures
            r == (channel_contents(self.audio).contains_key(channel_name@) && engine_has_channel),
    {
        self.audio.contains_key(channel_name) && engine_has_channel
    }

    /// How to play a channel in use again from its start; `None` for a channel not in use.
    pub fn play_channel(&self, channel_name: &str) -> (r: Option<PlaybackSettings>)
        ensures
            r == (if channel_contents(self.audio).contains_key(channel_name@) {
                Some(settings_for(channel_contents(self.audio)[channel_name@]))
            } else {
                None::<PlaybackSettings>
            }),
    {
        match self.audio.get(channel_name) {
            Some(audio_type) => {
                let looped = self.looped_time(audio_type);
                let volume = self.load_correct_volume(audio_type);
                Some(PlaybackSettings { looped, volume })
            },
            None => None,
        }
    }

    /// Whether a channel is to be resumed: it is in use.
    pub fn resume_channel(&self, channel_name: &str) -> (r: bool)
        ensures
            r == channel_contents(self.audio).contains_key(channel_name@),
    {
        self.audio.contains_key(channel_name)
    }
}

/// Registering a new channel and then unregistering it leaves the registry as it was (see
/// [`AudioManager::add_audio`] and [`AudioManager::remove_audio`]); registering a channel in use
/// changes nothing.
pub proof fn lemma_add_then_remove_restores(channels: Map<Seq<char>, AudioType>, name: Seq<char>, audio_type: AudioType)
    ensures
        !channels.contains_key(name) ==> channels.insert(name, audio_type).remove(name) == channels,
{
    if !channels.contains_key(name) {
        assert(channels.insert(name, audio_type).remove(name) =~= channels);
    }
}

/// Only environment and battle music loop, at the environment volume; a sound effect, an
/// interface sound, a character's voice and unknown audio play once, at their own volume (the
/// unknown quietly). These are the settings [`AudioManager::add_audio`] and
/// [`AudioManager::play_channel`] give.
pub proof fn lemma_only_music_loops()
    ensures
        settings_for(AudioType::Environment) == (PlaybackSettings {
            looped: true,
            volume: VolumeSource::Category(VolumeCategory::Environment),
        }),
        settings_for(AudioType::Battle) == (PlaybackSettings {
            looped: true,
            volume: VolumeSource::Category(VolumeCategory::Environment),
        }),
        settings_for(AudioType::Sfx) == (PlaybackSettings {
            looped: false,
            volume: VolumeSource::Category(VolumeCategory::Sfx),
        }),
        settings_for(AudioType::Ui) == (PlaybackSettings {
            looped: false,
            volume: VolumeSource::Category(VolumeCategory::Ui),
        }),
        settings_for(AudioType::Character) == (PlaybackSettings {
            looped: false,
            volume: VolumeSource::Category(VolumeCategory::Character),
        }),
        settings_for(AudioType::Unknown) == (PlaybackSettings { looped: false, volume: VolumeSource::Quiet }),
        forall|t: AudioType| #[trigger] settings_for(t).looped ==> t == AudioType::Environment || t == AudioType::Battle,
{
}

/// How a piece of music starts.
#[derive(Clone, Copy, Debug, PartialEq, Eq, Structural)]
pub enum MusicStart {
    /// Its channel is new: the track is loaded and played with these settings.
    Add(PlaybackSettings),
    /// Its channel is in use and was paused: it resumes.
    Resume,
    /// Its channel is in use and was stopped: it plays again with these settings.
    Play(PlaybackSettings),
}

/// What changes in the music: the channel to silence (when it is in use), and the channel and
/// track to start, and how.
#[derive(Clone, Copy, Debug)]
pub struct MusicPlan {
    pub silence: Option<&'static str>,
    pub channel: &'static str,
    pub track: &'static str,
    pub start: MusicStart,
}

/// The channel of the environment music.
pub open spec fn environment_channel() -> Seq<char> {
    "environment_test"@
}

/// The channel of the battle music.
pub open spec fn battle_channel() -> Seq<char> {
    "battle_ch"@
}

/// The world is entered (or a battle has ended): the battle music stops if it is playing, and
/// the environment music (environment audio, "audio/ambient.ogg") starts, or resumes if its
/// channel is in use.
pub fn environment_music_plan(manager: &mut AudioManager) -> (r: MusicPlan)
    ensures
        final(manager).muted == old(manager).muted,
        r.channel@ == environment_channel(),
        r.track@ == "audio/ambient.ogg"@,
        match r.silence {
            Some(c) => c@ == battle_channel() && channel_contents(old(manager).audio).contains_key(battle_channel()),
            None => !channel_contents(old(manager).audio).contains_key(battle_channel()),
        },
        channel_contents(old(manager).audio).contains_key(environment_channel()) ==> r.start == MusicStart::Resume
            && channel_contents(final(manager).audio) == channel_contents(old(manager).audio),
        !channel_contents(old(manager).audio).contains_key(environment_channel()) ==> r.start == MusicStart::Add(
            settings_for(AudioType::Environment),
        ) && channel_contents(final(manager).audio) == channel_contents(old(manager).audio).insert(
            environment_channel(),
            AudioType::Environment,
        ),
{
    let battle = "battle_ch";
    let environment = "environment_test";
    proof {
        reveal_strlit("battle_ch");
        reveal_strlit("environment_test");
    }
    let silence = if manager.contains_channel(battle) {
        Some(battle)
    } else {
        None
    };
    let start = if !manager.contains_channel(environment) {
        match manager.add_audio(environment, AudioType::Environment) {
            Some(settings) => MusicStart::Add(settings),
            None => MusicStart::Resume,
        }
    } else {
        MusicStart::Resume
    };
    MusicPlan { silence, channel: environment, track: "audio/ambient.ogg", start }
}

/// A battle begins: the environment music pauses if it is playing, and the battle music
/// ("audio/battle.ogg", registered as environment audio) starts, or plays again if its channel
/// is in use.
pub fn battle_music_plan(manager: &mut AudioManager) -> (r: MusicPlan)
    ensures
        final(manager).muted == old(manager).muted,
        r.channel@ == battle_channel(),
        r.track@ == "audio/battle.ogg"@,
        match r.silence {
            Some(c) => c@ == environment_channel() && channel_contents(old(manager).audio).contains_key(
                environment_channel(),
            ),
            None => !channel_contents(old(manager).audio).contains_key(environment_channel()),
        },
        channel_contents(old(manager).audio).contains_key(battle_channel()) ==> r.start == MusicStart::Play(
            settings_for(channel_contents(old(manager).audio)[battle_channel()]),
        ) && channel_contents(final(manager).audio) == channel_contents(old(manager).audio),
        !channel_contents(old(manager).audio).contains_key(battle_channel()) ==> r.start == MusicStart::Add(
            settings_for(AudioType::Environment),
        ) && channel_contents(final(manager).audio) == channel_contents(old(manager).audio).insert(
            battle_channel(),
            AudioType::Environment,
        ),
{
    let battle = "battle_ch";
    let environment = "environment_test";
    proof {
        reveal_strlit("battle_ch");
        reveal_strlit("environment_test");
    }
    let silence = if manager.contains_channel(environment) {
        Some(environment)
    } else {
        None
    };
    let start = if !manager.contains_channel(battle) {
        match manager.add_audio(battle, AudioType::Environment) {
            Some(settings) => MusicStart::Add(settings),
            None => MusicStart::Resume,
        }
    } else {
        match manager.play_channel(battle) {
            Some(settings) => MusicStart::Play(settings),
            None => MusicStart::Resume,
        }
    };
    MusicPlan { silence, channel: battle, track: "audio/battle.ogg", start }
}

} // verus!
