//! The array of sources and the operations by which the device changes it.
//! Each changing operation raises the flags of what it changed.

use vstd::prelude::*;
use crate::sound_source::SoundSource;
use crate::update_flag::{Flag, UpdateFlag};

verus! {

/// Why a drive update was not taken whole.
#[derive(Debug, Clone, Copy, PartialEq, Eq, Structural)]
pub enum DriveError {
    /// Fewer amplitudes or phases came than the array has sources; those
    /// that came were applied to the sources at the front.
    LengthMismatch { expected: usize, amplitudes: usize, phases: usize },
}

/// The amplitudes of an array, in order.
pub open spec fn amplitudes_spec(sources: Seq<SoundSource>) -> Seq<u16> {
    Seq::new(sources.len(), |i: int| sources[i].amp)
}

/// The array driven anew: a source for which both an amplitude and a phase
/// came takes them, any other stays as it is; what came beyond the end of
/// the array is not read.
pub open spec fn driven_spec(
    sources: Seq<SoundSource>,
    amplitudes: Seq<u16>,
    phases: Seq<u16>,
) -> Seq<SoundSource> {
    Seq::new(
        sources.len(),
        |i: int|
            if i < amplitudes.len() && i < phases.len() {
                sources[i].with_drive(amplitudes[i], phases[i])
            } else {
                sources[i]
            },
    )
}

/// The array with every amplitude and phase at zero.
pub open spec fn cleared_spec(sources: Seq<SoundSource>) -> Seq<SoundSource> {
    Seq::new(sources.len(), |i: int| sources[i].with_drive(0, 0))
}

/// The array with every amplitude at zero and every phase kept.
pub open spec fn silenced_spec(sources: Seq<SoundSource>) -> Seq<SoundSource> {
    Seq::new(sources.len(), |i: int| sources[i].with_amp(0))
}

/// The array with saved amplitudes put back, as far as they reach.
pub open spec fn restored_spec(sources: Seq<SoundSource>, saved: Seq<u16>) -> Seq<SoundSource> {
    Seq::new(
        sources.len(),
        |i: int|
            if i < saved.len() {
                sources[i].with_amp(saved[i])
            } else {
                sources[i]
            },
    )
}

/// Whether a drive update of these lengths covers an array of `expected`
/// sources.
pub open spec fn covers(expected: nat, amplitudes: nat, phases: nat) -> bool {
    amplitudes >= expected && phases >= expected
}

/// The sources of the array, in the order in which the device names them.
pub struct SourceArray {
    sources: Vec<SoundSource>,
}

impl View for SourceArray {
    type V = Seq<SoundSource>;

    closed spec fn view(&self) -> Seq<SoundSource> {
        self.sources@
    }
}

impl SourceArray {
    /// An array without sources.
    pub fn new() -> (array: SourceArray)
        ensures
            array@ == Seq::<SoundSource>::empty(),
    {
        SourceArray { sources: Vec::new() }
    }

    /// How many sources the array has.
    pub fn len(&self) -> (n: usize)
        ensures
            n == self@.len(),
    {
        self.sources.len()
    }

    /// The sources, for the encoders to read.
    pub fn sources(&self) -> (sources: &[SoundSource])
        ensures
            sources@ == self@,
    {
        self.sources.as_slice()
    }

    /// Replaces the whole array, and raises the flags of both the positions
    /// and the drive.
    pub fn reset(&mut self, sources: Vec<SoundSource>, flags: &mut UpdateFlag)
        ensures
            final(self)@ == sources@,
            final(flags)@ == old(flags)@.insert(Flag::SourcePos).insert(Flag::SourceDrive),
    {
        self.sources = sources;
        flags.insert(Flag::SourcePos);
        flags.insert(Flag::SourceDrive);
    }

    /// Drives the sources with the amplitudes and phases that came, and
    /// raises the flag of the drive. Fails when fewer came than the array
    /// has sources, after those that came were applied.
    pub fn update_drive(
        &mut self,
        amplitudes: &[u16],
        phases: &[u16],
        flags: &mut UpdateFlag,
    ) -> (r: Result<(), DriveError>)
        ensures
            final(self)@ == driven_spec(old(self)@, amplitudes@, phases@),
            final(self)@.len() == old(self)@.len(),
            final(flags)@ == old(flags)@.insert(Flag::SourceDrive),
            r is Ok <==> covers(old(self)@.len(), amplitudes@.len(), phases@.len()),
            r is Err ==> r == Err::<(), DriveError>(
                DriveError::LengthMismatch {
                    expected: old(self)@.len() as usize,
                    amplitudes: amplitudes@.len() as usize,
                    phases: phases@.len() as usize,
                },
            ),
    {
        let n = self.sources.len();
        let mut i: usize = 0;
        while i < n && i < amplitudes.len() && i < phases.len()
            invariant
                n == old(self)@.len(),
                self.sources@.len() == n,
                i <= n,
                i <= amplitudes@.len(),
                i <= phases@.len(),
                forall|j: int|
                    0 <= j < i ==> self.sources@[j] == (#[trigger] old(self)@[j]).with_drive(
                        amplitudes@[j],
                        phases@[j],
                    ),
                forall|j: int| i <= j < n ==> self.sources@[j] == old(self)@[j],
            decreases n - i,
        {
            let source = self.sources[i];
            self.sources.set(i, SoundSource::new(source.pos, source.dir, amplitudes[i], phases[i]));
            i += 1;
        }
        assert(self.sources@ =~= driven_spec(old(self)@, amplitudes@, phases@));
        flags.insert(Flag::SourceDrive);
        if amplitudes.len() < n || phases.len() < n {
            Err(
                DriveError::LengthMismatch {
                    expected: n,
                    amplitudes: amplitudes.len(),
                    phases: phases.len(),
                },
            )
        } else {
            Ok(())
        }
    }

    /// Sets every amplitude and phase to zero, and raises the flag of the
    /// drive and no other.
    pub fn clear_drive(&mut self, flags: &mut UpdateFlag)
        ensures
            final(self)@ == cleared_spec(old(self)@),
            final(self)@.len() == old(self)@.len(),
            final(flags)@ == old(flags)@.insert(Flag::SourceDrive),
            final(flags).bits_spec() == old(flags).bits_spec() | Flag::SourceDrive.bit_spec(),
    {
        let n = self.sources.len();
        let mut i: usize = 0;
        while i < n
            invariant
                n == old(self)@.len(),
                self.sources@.len() == n,
                i <= n,
                forall|j: int|
                    0 <= j < i ==> self.sources@[j] == (#[trigger] old(self)@[j]).with_drive(0, 0),
                forall|j: int| i <= j < n ==> self.sources@[j] == old(self)@[j],
            decreases n - i,
        {
            let source = self.sources[i];
            self.sources.set(i, SoundSource::new(source.pos, source.dir, 0, 0));
            i += 1;
        }
        assert(self.sources@ =~= cleared_spec(old(self)@));
        flags.insert(Flag::SourceDrive);
    }

    /// The amplitudes as they are now.
    pub fn snapshot_drive(&self) -> (saved: Vec<u16>)
        ensures
            saved@ == amplitudes_spec(self@),
    {
        let n = self.sources.len();
        let mut saved: Vec<u16> = Vec::with_capacity(n);
        let mut i: usize = 0;
        while i < n
            invariant
                n == self.sources@.len(),
                i <= n,
                saved@ == amplitudes_spec(self.sources@.take(i as int)),
            decreases n - i,
        {
            saved.push(self.sources[i].amp);
            i += 1;
            assert(saved@ =~= amplitudes_spec(self.sources@.take(i as int)));
        }
        assert(self.sources@.take(n as int) =~= self.sources@);
        saved
    }

    /// Sets every amplitude to zero, the phases kept, and raises the flag of
    /// the drive.
    pub fn silence(&mut self, flags: &mut UpdateFlag)
        ensures
            final(self)@ == silenced_spec(old(self)@),
            final(self)@.len() == old(self)@.len(),
            final(flags)@ == old(flags)@.insert(Flag::SourceDrive),
    {
        let n = self.sources.len();
        let mut i: usize = 0;
        while i < n
            invariant
                n == old(self)@.len(),
                self.sources@.len() == n,
                i <= n,
                forall|j: int|
                    0 <= j < i ==> self.sources@[j] == (#[trigger] old(self)@[j]).with_amp(0),
                forall|j: int| i <= j < n ==> self.sources@[j] == old(self)@[j],
            decreases n - i,
        {
            let source = self.sources[i];
            self.sources.set(i, SoundSource::new(source.pos, source.dir, 0, source.phase));
            i += 1;
        }
        assert(self.sources@ =~= silenced_spec(old(self)@));
        flags.insert(Flag::SourceDrive);
    }

    /// Puts saved amplitudes back, as far as they reach, and raises the flag
    /// of the drive.
    pub fn restore_drive(&mut self, saved: &[u16], flags: &mut UpdateFlag)
        ensures
            final(self)@ == restored_spec(old(self)@, saved@),
            final(self)@.len() == old(self)@.len(),
            final(flags)@ == old(flags)@.insert(Flag::SourceDrive),
    {
        let n = self.sources.len();
        let mut i: usize = 0;
        while i < n && i < saved.len()
            invariant
                n == old(self)@.len(),
                self.sources@.len() == n,
                i <= n,
                i <= saved@.len(),
                forall|j: int|
                    0 <= j < i ==> self.sources@[j] == (#[trigger] old(self)@[j]).with_amp(
                        saved@[j],
                    ),
                forall|j: int| i <= j < n ==> self.sources@[j] == old(self)@[j],
            decreases n - i,
        {
            let source = self.sources[i];
            self.sources.set(i, SoundSource::new(source.pos, source.dir, saved[i], source.phase));
            i += 1;
        }
        assert(self.sources@ =~= restored_spec(old(self)@, saved@));
        flags.insert(Flag::SourceDrive);
    }
}

/// The array after a reset and a run of drive updates, each a pair of
/// amplitudes and phases, applied in order.
pub open spec fn after_updates(
    sources: Seq<SoundSource>,
    updates: Seq<(Seq<u16>, Seq<u16>)>,
) -> Seq<SoundSource>
    decreases updates.len(),
{
    if updates.len() == 0 {
        sources
    } else {
        driven_spec(after_updates(sources, updates.drop_last()), updates.last().0, updates.last().1)
    }
}

/// Silencing an array and putting its saved amplitudes back gives the array
/// as it was, whatever it held.
pub proof fn lemma_restore_after_silence(sources: Seq<SoundSource>)
    ensures
        restored_spec(silenced_spec(sources), amplitudes_spec(sources)) == sources,
{
    assert(restored_spec(silenced_spec(sources), amplitudes_spec(sources)) =~= sources);
}

/// After a reset and any run of drive updates of the array's length, the
/// amplitudes saved at a pause are those of the last update, or those of the
/// reset where none followed it; and putting them back after the pause has
/// silenced the array gives the array as it was before the pause.
pub proof fn lemma_pause_resume(sources: Seq<SoundSource>, updates: Seq<(Seq<u16>, Seq<u16>)>)
    requires
        forall|i: int|
            0 <= i < updates.len() ==> (#[trigger] updates[i]).0.len() == sources.len()
                && updates[i].1.len() == sources.len(),
    ensures
        after_updates(sources, updates).len() == sources.len(),
        amplitudes_spec(after_updates(sources, updates)) == if updates.len() == 0 {
            amplitudes_spec(sources)
        } else {
            updates.last().0
        },
        restored_spec(
            silenced_spec(after_updates(sources, updates)),
            amplitudes_spec(after_updates(sources, updates)),
        ) == after_updates(sources, updates),
    decreases updates.len(),
{
    let live = after_updates(sources, updates);
    if updates.len() > 0 {
        lemma_pause_resume(sources, updates.drop_last());
        assert(amplitudes_spec(live) =~= updates.last().0);
    }
    lemma_restore_after_silence(live);
}

} // verus!
