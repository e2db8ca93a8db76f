//! The commands of the device, and the feed that applies them to the array.

use vstd::prelude::*;
use crate::sound_source::SoundSource;
use crate::source_array::{
    amplitudes_spec, cleared_spec, covers, driven_spec, restored_spec, silenced_spec, DriveError,
    SourceArray,
};
use crate::update_flag::{Flag, UpdateFlag};

verus! {

/// One command of the device.
#[derive(Debug)]
pub enum Command {
    /// The array is these sources from now on.
    Reset(Vec<SoundSource>),
    /// New amplitudes and phases, one of each for every source.
    UpdateDrive { amplitudes: Vec<u16>, phases: Vec<u16> },
    /// Every amplitude and phase goes to zero.
    Clear,
    /// The amplitudes are saved and go to zero.
    Pause,
    /// The saved amplitudes come back.
    Resume,
}

/// What the feed holds: the array, and the amplitudes saved at a pause.
pub struct FeedState {
    pub sources: Seq<SoundSource>,
    pub last_amp: Seq<u16>,
}

/// The state after one command.
pub open spec fn applied(state: FeedState, command: Command) -> FeedState {
    match command {
        Command::Reset(sources) => FeedState { sources: sources@, last_amp: state.last_amp },
        Command::UpdateDrive { amplitudes, phases } => FeedState {
            sources: driven_spec(state.sources, amplitudes@, phases@),
            last_amp: state.last_amp,
        },
        Command::Clear => FeedState {
            sources: cleared_spec(state.sources),
            last_amp: state.last_amp,
        },
        Command::Pause => FeedState {
            sources: silenced_spec(state.sources),
            last_amp: amplitudes_spec(state.sources),
        },
        Command::Resume => FeedState {
            sources: restored_spec(state.sources, state.last_amp),
            last_amp: Seq::empty(),
        },
    }
}

/// The flags that a command raises: a reset those of the positions and of
/// the drive, any other that of the drive alone.
pub open spec fn raised_by(command: Command) -> Set<Flag> {
    match command {
        Command::Reset(_) => Set::<Flag>::empty().insert(Flag::SourcePos).insert(Flag::SourceDrive),
        _ => Set::<Flag>::empty().insert(Flag::SourceDrive),
    }
}

/// Whether a command can be taken whole in a state: a drive update has to
/// cover the array, any other command always can.
pub open spec fn taken_whole(state: FeedState, command: Command) -> bool {
    match command {
        Command::UpdateDrive { amplitudes, phases } => covers(
            state.sources.len(),
            amplitudes@.len(),
            phases@.len(),
        ),
        _ => true,
    }
}

/// The state after a run of commands, applied in order.
pub open spec fn applied_all(state: FeedState, commands: Seq<Command>) -> FeedState
    decreases commands.len(),
{
    if commands.len() == 0 {
        state
    } else {
        applied(applied_all(state, commands.drop_last()), commands.last())
    }
}

/// The flags that a run of commands raises.
pub open spec fn raised_by_all(commands: Seq<Command>) -> Set<Flag>
    decreases commands.len(),
{
    if commands.len() == 0 {
        Set::<Flag>::empty()
    } else {
        raised_by_all(commands.drop_last()).union(raised_by(commands.last()))
    }
}

/// How many commands of a run could not be taken whole.
pub open spec fn mismatches(state: FeedState, commands: Seq<Command>) -> nat
    decreases commands.len(),
{
    if commands.len() == 0 {
        0
    } else {
        let before = mismatches(state, commands.drop_last());
        if taken_whole(applied_all(state, commands.drop_last()), commands.last()) {
            before
        } else {
            before + 1
        }
    }
}

/// Applies the commands of the device to the array it owns.
pub struct CommandFeed {
    sources: SourceArray,
    last_amp: Vec<u16>,
}

impl View for CommandFeed {
    type V = FeedState;

    closed spec fn view(&self) -> FeedState {
        FeedState { sources: self.sources@, last_amp: self.last_amp@ }
    }
}

/// A copy of `sources`.
fn copy_sources(sources: &Vec<SoundSource>) -> (copy: Vec<SoundSource>)
    ensures
        copy@ == sources@,
{
    let mut copy: Vec<SoundSource> = Vec::with_capacity(sources.len());
    let mut i: usize = 0;
    while i < sources.len()
        invariant
            i <= sources@.len(),
            copy@ == sources@.take(i as int),
        decreases sources@.len() - i,
    {
        copy.push(sources[i]);
        i += 1;
        assert(copy@ =~= sources@.take(i as int));
    }
    assert(sources@.take(i as int) =~= sources@);
    copy
}

impl CommandFeed {
    /// A feed with an empty array and nothing saved.
    pub fn new() -> (feed: CommandFeed)
        ensures
            feed@.sources == Seq::<SoundSource>::empty(),
            feed@.last_amp == Seq::<u16>::empty(),
    {
        CommandFeed { sources: SourceArray::new(), last_amp: Vec::new() }
    }

    /// The sources as they are now.
    pub fn sources(&self) -> (sources: &[SoundSource])
        ensures
            sources@ == self@.sources,
    {
        self.sources.sources()
    }

    /// The amplitudes saved at the last pause that no resume has used.
    pub fn last_amp(&self) -> (saved: &[u16])
        ensures
            saved@ == self@.last_amp,
    {
        self.last_amp.as_slice()
    }

    /// Applies one command and raises its flags. Only a drive update that
    /// does not cover the array fails, and it too is applied as far as it
    /// reaches.
    pub fn apply(&mut self, command: &Command, flags: &mut UpdateFlag) -> (r: Result<
        (),
        DriveError,
    >)
        ensures
            final(self)@ == applied(old(self)@, *command),
            final(flags)@ == old(flags)@.union(raised_by(*command)),
            r is Ok <==> taken_whole(old(self)@, *command),
            r is Err ==> match *command {
                Command::UpdateDrive { amplitudes, phases } => r == Err::<(), DriveError>(
                    DriveError::LengthMismatch {
                        expected: old(self)@.sources.len() as usize,
                        amplitudes: amplitudes@.len() as usize,
                        phases: phases@.len() as usize,
                    },
                ),
                _ => false,
            },
    {
        let r = match command {
            Command::Reset(sources) => {
                self.sources.reset(copy_sources(sources), flags);
                Ok(())
            },
            Command::UpdateDrive { amplitudes, phases } => {
                self.sources.update_drive(amplitudes.as_slice(), phases.as_slice(), flags)
            },
            Command::Clear => {
                self.sources.clear_drive(flags);
                Ok(())
            },
            Command::Pause => {
                self.last_amp = self.sources.snapshot_drive();
                self.sources.silence(flags);
                Ok(())
            },
            Command::Resume => {
                self.sources.restore_drive(self.last_amp.as_slice(), flags);
                self.last_amp = Vec::new();
                Ok(())
            },
        };
        proof {
            let after = applied(old(self)@, *command);
            assert(self@.sources =~= after.sources);
            assert(self@.last_amp =~= after.last_amp);
            assert(flags@ =~= old(flags)@.union(raised_by(*command)));
        }
        r
    }

    /// Applies a run of commands in order and raises their flags. Returns
    /// how many of them could not be taken whole.
    pub fn drain(&mut self, commands: &[Command], flags: &mut UpdateFlag) -> (failed: usize)
        ensures
            final(self)@ == applied_all(old(self)@, commands@),
            final(flags)@ == old(flags)@.union(raised_by_all(commands@)),
            failed == mismatches(old(self)@, commands@),
    {
        let mut failed: usize = 0;
        let mut i: usize = 0;
        assert(flags@ =~= old(flags)@.union(raised_by_all(commands@.take(0))));
        while i < commands.len()
            invariant
                i <= commands@.len(),
                failed <= i,
                self@ == applied_all(old(self)@, commands@.take(i as int)),
                flags@ == old(flags)@.union(raised_by_all(commands@.take(i as int))),
                failed == mismatches(old(self)@, commands@.take(i as int)),
            decreases commands@.len() - i,
        {
            let ghost before = commands@.take(i as int);
            let r = self.apply(&commands[i], flags);
            if r.is_err() {
                failed += 1;
            }
            i += 1;
            proof {
                let now = commands@.take(i as int);
                assert(now.drop_last() =~= before);
                assert(now.last() == commands@[i - 1]);
                assert(flags@ =~= old(flags)@.union(raised_by_all(now)));
            }
        }
        assert(commands@.take(i as int) =~= commands@);
        failed
    }
}

/// A pause saves the amplitudes as they are, and the resume that follows
/// puts the array back as it was before the pause.
pub proof fn lemma_pause_then_resume(state: FeedState)
    ensures
        applied(state, Command::Pause).last_amp == amplitudes_spec(state.sources),
        applied(applied(state, Command::Pause), Command::Resume).sources == state.sources,
{
    crate::source_array::lemma_restore_after_silence(state.sources);
}

/// A clear sets every amplitude and phase to zero, keeps the sources where
/// they are, and raises the flag of the drive and no other.
pub proof fn lemma_clear(state: FeedState)
    ensures
        applied(state, Command::Clear).sources.len() == state.sources.len(),
        forall|i: int|
            0 <= i < state.sources.len() ==> {
                let s = #[trigger] applied(state, Command::Clear).sources[i];
                s.amp == 0 && s.phase == 0 && s.pos == state.sources[i].pos && s.dir
                    == state.sources[i].dir
            },
        raised_by(Command::Clear) == Set::<Flag>::empty().insert(Flag::SourceDrive),
        !raised_by(Command::Clear).contains(Flag::SourcePos),
{
}

} // verus!
