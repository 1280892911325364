//! Commands crossing from the front-end thread to the audio thread.

use vstd::prelude::*;

verus! {

/// A user intent queued for the audio thread: save the last completed cycle
/// to a file, or play it back into the host buffer.
#[derive(Clone, Copy, Debug, PartialEq, Eq, Structural)]
pub enum PluginMessage {
    SaveBuffer,
    PlayBuffer,
}

/// A detached export task's input: the frames to serialize, cloned from the
/// export segment when the command was processed, and the sample rate the
/// file should declare. The engine hands these out; a worker off the audio
/// thread performs the file I/O.
pub struct ExportJob {
    pub frames: Vec<Vec<i32>>,
    pub sample_rate: u32,
}

/// How many save commands a command run holds.
pub open spec fn save_count(cmds: Seq<PluginMessage>) -> int
    decreases cmds.len(),
{
    if cmds.len() == 0 {
        0
    } else {
        save_count(cmds.drop_last()) + if cmds.last() is SaveBuffer {
            1int
        } else {
            0int
        }
    }
}

/// Whether a command run holds a play-back command.
pub open spec fn has_play(cmds: Seq<PluginMessage>) -> bool {
    exists|i: int| 0 <= i < cmds.len() && cmds[i] is PlayBuffer
}

/// Extending a command run by one command extends its save count and its
/// play-back flag the obvious way.
pub proof fn lemma_commands_snoc(cmds: Seq<PluginMessage>, c: PluginMessage)
    ensures
        save_count(cmds.push(c)) == save_count(cmds) + if c is SaveBuffer {
            1int
        } else {
            0int
        },
        has_play(cmds.push(c)) <==> (has_play(cmds) || c is PlayBuffer),
{
    assert(cmds.push(c).drop_last() =~= cmds);
    assert(cmds.push(c).last() == c);
    if has_play(cmds) {
        let j = choose|j: int| 0 <= j < cmds.len() && cmds[j] is PlayBuffer;
        assert(cmds.push(c)[j] is PlayBuffer);
    }
    if c is PlayBuffer {
        assert(cmds.push(c)[cmds.len() as int] is PlayBuffer);
    }
    if has_play(cmds.push(c)) && !(c is PlayBuffer) {
        let j = choose|j: int| 0 <= j < cmds.push(c).len() && cmds.push(c)[j] is PlayBuffer;
        assert(j < cmds.len());
        assert(cmds[j] is PlayBuffer);
    }
}

} // verus!
